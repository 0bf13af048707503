//! The status report: one entry per session worktree, and the legend below.

use crate::git::WorktreeStatus;
use crate::text::{decimal, join, join_strings, labelled_number, views};
use crate::tui::render::{seg, severity_tone, tone_of_severity, Line, Row, Segment, SegmentView, Tone};
use vstd::prelude::*;

verus! {

/// The figures of a status, each only if it is not zero: lines added (with
/// each untracked file counted as one), lines deleted, commits ahead.
pub open spec fn change_parts(status: WorktreeStatus) -> Seq<Seq<char>> {
    let added = status.lines_added + status.untracked_files;
    (if added > 0 {
        seq!["+"@ + decimal(added as nat)]
    } else {
        Seq::empty()
    }) + (if status.lines_deleted > 0 {
        seq!["-"@ + decimal(status.lines_deleted as nat)]
    } else {
        Seq::empty()
    }) + (if status.commits_ahead > 0 {
        seq!["\u{2191}"@ + decimal(status.commits_ahead as nat)]
    } else {
        Seq::empty()
    })
}

/// The figures of a status in one line, with blanks between them.
pub open spec fn change_details_text(status: WorktreeStatus) -> Seq<char> {
    join(change_parts(status), " "@)
}

/// The figures of a status in one line, or the word `Clean` if there are none.
pub open spec fn status_summary_text(status: WorktreeStatus) -> Seq<char> {
    if change_parts(status).len() == 0 {
        "Clean"@
    } else {
        change_details_text(status)
    }
}

/// The figures of `status`; see `change_parts`.
pub fn change_parts_of(status: &WorktreeStatus) -> (r: Vec<String>)
    ensures
        views(r@) == change_parts(*status),
{
    let mut parts: Vec<String> = Vec::new();
    let added: u128 = status.lines_added as u128 + status.untracked_files as u128;
    if added > 0 {
        parts.push(labelled_number("+", added));
    }
    if status.lines_deleted > 0 {
        parts.push(labelled_number("-", status.lines_deleted as u128));
    }
    if status.commits_ahead > 0 {
        parts.push(labelled_number("\u{2191}", status.commits_ahead as u128));
    }
    assert(views(parts@) =~= change_parts(*status));
    parts
}

/// The figures of `status` in one line, with blanks between them.
pub fn change_details(status: &WorktreeStatus) -> (r: String)
    ensures
        r@ == change_details_text(*status),
{
    let parts = change_parts_of(status);
    join_strings(&parts, " ")
}

/// The figures of `status` in one line, or the word `Clean` if there are none.
pub fn status_summary(status: &WorktreeStatus) -> (r: String)
    ensures
        r@ == status_summary_text(*status),
{
    let parts = change_parts_of(status);
    if parts.len() == 0 {
        String::from_str("Clean")
    } else {
        join_strings(&parts, " ")
    }
}

/// The glyph that stands for a worktree in the report.
pub open spec fn report_glyph(status: WorktreeStatus) -> Seq<char> {
    if status.is_orphaned {
        "\u{2717}"@
    } else {
        "\u{25cf}"@
    }
}

/// The lines that report one worktree: its glyph and branch; then, for a
/// missing directory, word of that; for any other, the summary if there is
/// one and the figures; then an empty line.
pub open spec fn report_lines(
    branch: Seq<char>,
    status: WorktreeStatus,
    summary: Option<Seq<char>>,
) -> Seq<Seq<SegmentView>> {
    let head = seq![
        seg(
            report_glyph(status),
            severity_tone(
                crate::git::classify(
                    status.is_orphaned,
                    status.has_uncommitted,
                    status.has_unpushed,
                ),
            ),
        ),
        seg(" "@ + branch, Tone::Plain),
    ];
    let body = if status.is_orphaned {
        seq![seq![seg("  "@, Tone::Plain), seg("Orphaned - directory missing"@, Tone::Danger)]]
    } else {
        (match summary {
            Some(text) => seq![seq![seg("  "@, Tone::Plain), seg(text, Tone::Dim)]],
            None => Seq::empty(),
        }) + seq![seq![seg("  "@, Tone::Plain), seg(status_summary_text(status), Tone::Dim)]]
    };
    seq![head] + body + seq![Seq::empty()]
}

/// A line of two segments.
fn pair(first: &str, first_tone: Tone, second: String, second_tone: Tone) -> (r: Line)
    ensures
        r@ == seq![seg(first@, first_tone), seg(second@, second_tone)],
{
    let mut segments: Vec<Segment> = Vec::new();
    segments.push(Segment { text: String::from_str(first), tone: first_tone });
    segments.push(Segment { text: second, tone: second_tone });
    let line = Line { segments };
    assert(line@ =~= seq![seg(first@, first_tone), seg(second@, second_tone)]);
    line
}

/// The entry of one worktree in the status report.
pub fn status_entry(branch: &str, status: &WorktreeStatus, summary: Option<&str>) -> (r: Row)
    ensures
        r@ == report_lines(
            branch@,
            *status,
            match summary {
                Some(text) => Some(text@),
                None => None,
            },
        ),
{
    let glyph = if status.is_orphaned {
        "\u{2717}"
    } else {
        "\u{25cf}"
    };
    let mut name = String::from_str(" ");
    name.append(branch);
    let mut lines: Vec<Line> = Vec::new();
    lines.push(pair(glyph, tone_of_severity(status.severity()), name, Tone::Plain));
    if status.is_orphaned {
        lines.push(
            pair("  ", Tone::Plain, String::from_str("Orphaned - directory missing"), Tone::Danger),
        );
    } else {
        match summary {
            Some(text) => {
                lines.push(pair("  ", Tone::Plain, String::from_str(text), Tone::Dim));
            },
            None => {},
        }
        lines.push(pair("  ", Tone::Plain, status_summary(status), Tone::Dim));
    }
    let blank = Line { segments: Vec::new() };
    assert(blank@ =~= Seq::<SegmentView>::empty());
    lines.push(blank);
    let row = Row { lines };
    assert(row@ =~= report_lines(
        branch@,
        *status,
        match summary {
            Some(text) => Some(text@),
            None => None,
        },
    ));
    row
}

/// The legend under the report: each glyph with what it stands for.
pub open spec fn legend_segments() -> Seq<SegmentView> {
    seq![
        seg("Legend: "@, Tone::Dim),
        seg("\u{25cf}"@, Tone::Clean),
        seg(" clean  "@, Tone::Dim),
        seg("\u{25cf}"@, Tone::Uncommitted),
        seg(" uncommitted  "@, Tone::Dim),
        seg("\u{25cf}"@, Tone::Unpushed),
        seg(" unpushed  "@, Tone::Dim),
        seg("\u{25cf}"@, Tone::Danger),
        seg(" both  "@, Tone::Dim),
        seg("\u{2717}"@, Tone::Danger),
        seg(" orphaned"@, Tone::Dim),
    ]
}

/// Appends a segment to the legend.
fn put(segments: &mut Vec<Segment>, text: &str, tone: Tone)
    ensures
        final(segments)@.map_values(|s: Segment| s@) == old(segments)@.map_values(
            |s: Segment| s@,
        ).push(seg(text@, tone)),
{
    segments.push(Segment { text: String::from_str(text), tone });
    assert(segments@.map_values(|s: Segment| s@) =~= old(segments)@.map_values(
        |s: Segment| s@,
    ).push(seg(text@, tone)));
}

/// The legend under the report.
pub fn legend() -> (r: Line)
    ensures
        r@ == legend_segments(),
{
    let mut segments: Vec<Segment> = Vec::new();
    put(&mut segments, "Legend: ", Tone::Dim);
    put(&mut segments, "\u{25cf}", Tone::Clean);
    put(&mut segments, " clean  ", Tone::Dim);
    put(&mut segments, "\u{25cf}", Tone::Uncommitted);
    put(&mut segments, " uncommitted  ", Tone::Dim);
    put(&mut segments, "\u{25cf}", Tone::Unpushed);
    put(&mut segments, " unpushed  ", Tone::Dim);
    put(&mut segments, "\u{25cf}", Tone::Danger);
    put(&mut segments, " both  ", Tone::Dim);
    put(&mut segments, "\u{2717}", Tone::Danger);
    put(&mut segments, " orphaned", Tone::Dim);
    let line = Line { segments };
    assert(line@ =~= legend_segments());
    line
}

} // verus!
