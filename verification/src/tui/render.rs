//! What a row of the picker looks like: its lines, their pieces of text and
//! the tone each piece is shown in. Nothing here draws; the caller does.

use crate::git::{classify, Severity, WorktreeStatus};
use crate::text::{decimal, join, labelled_number};
use crate::tui::{SummaryState, SummaryView};
use vstd::prelude::*;

verus! {

/// The role a piece of text plays; the caller picks a colour for each.
#[derive(Clone, Copy, Debug, PartialEq, Eq, Structural)]
pub enum Tone {
    /// No styling.
    Plain,
    /// Nothing to worry about.
    Clean,
    /// Uncommitted work.
    Uncommitted,
    /// Unpushed commits.
    Unpushed,
    /// Work at risk, or a missing directory.
    Danger,
    /// Background information.
    Dim,
    /// Background information on the row under the cursor.
    Bright,
    /// Added lines.
    Added,
    /// Deleted lines.
    Deleted,
    /// Commits ahead of the remote.
    Ahead,
}

/// A piece of text and its tone.
#[derive(Clone, Debug, PartialEq, Eq)]
pub struct Segment {
    pub text: String,
    pub tone: Tone,
}

/// `Segment` as a mathematical value.
pub struct SegmentView {
    pub text: Seq<char>,
    pub tone: Tone,
}

impl View for Segment {
    type V = SegmentView;

    open spec fn view(&self) -> SegmentView {
        SegmentView { text: self.text@, tone: self.tone }
    }
}

/// One line of a row: its segments from left to right.
#[derive(Clone, Debug, PartialEq, Eq)]
pub struct Line {
    pub segments: Vec<Segment>,
}

impl View for Line {
    type V = Seq<SegmentView>;

    open spec fn view(&self) -> Seq<SegmentView> {
        self.segments@.map_values(|s: Segment| s@)
    }
}

/// One row of the list: its lines from top to bottom.
#[derive(Clone, Debug, PartialEq, Eq)]
pub struct Row {
    pub lines: Vec<Line>,
}

impl View for Row {
    type V = Seq<Seq<SegmentView>>;

    open spec fn view(&self) -> Seq<Seq<SegmentView>> {
        self.lines@.map_values(|l: Line| l@)
    }
}

/// A segment as a mathematical value.
pub open spec fn seg(text: Seq<char>, tone: Tone) -> SegmentView {
    SegmentView { text, tone }
}

/// The check box in front of a row, if the list has check boxes.
pub open spec fn checkbox_text(show_checkbox: bool, is_checked: bool) -> Seq<char> {
    if !show_checkbox {
        Seq::empty()
    } else if is_checked {
        "[\u{2713}] "@
    } else {
        "[ ] "@
    }
}

/// The indentation of the lines under the branch name.
pub open spec fn indent_text(show_checkbox: bool) -> Seq<char> {
    if show_checkbox {
        "      "@
    } else {
        "  "@
    }
}

/// The glyph in front of the branch name, with the blank that follows it.
pub open spec fn status_glyph(status: Option<WorktreeStatus>) -> Seq<char> {
    match status {
        None => "\u{25cc} "@,
        Some(s) => if s.is_orphaned {
            "\u{2717} "@
        } else {
            "\u{25cf} "@
        },
    }
}

/// The tone that stands for a severity.
pub open spec fn severity_tone(severity: Severity) -> Tone {
    match severity {
        Severity::Orphaned => Tone::Danger,
        Severity::UncommittedAndUnpushed => Tone::Danger,
        Severity::Uncommitted => Tone::Uncommitted,
        Severity::Unpushed => Tone::Unpushed,
        Severity::Clean => Tone::Clean,
    }
}

/// The tone of the glyph in front of the branch name.
pub open spec fn status_tone(status: Option<WorktreeStatus>) -> Tone {
    match status {
        None => Tone::Dim,
        Some(s) => severity_tone(classify(s.is_orphaned, s.has_uncommitted, s.has_unpushed)),
    }
}

/// The tone of background information, brighter under the cursor.
pub open spec fn emphasis(is_selected: bool) -> Tone {
    if is_selected {
        Tone::Bright
    } else {
        Tone::Dim
    }
}

/// The text that tells where the summary stands.
pub open spec fn summary_text(summary: SummaryView, spinner: char) -> Seq<char> {
    match summary {
        SummaryView::Absent => Seq::empty(),
        SummaryView::Queued => seq![spinner] + " Queued"@,
        SummaryView::Summarizing => seq![spinner] + " Summarizing..."@,
        SummaryView::Done(text) => text,
    }
}

/// Whether a row has a summary line: its status asks for a summary and there
/// is something to show.
pub open spec fn has_summary_line(
    status: Option<WorktreeStatus>,
    summary: SummaryView,
    spinner: char,
) -> bool {
    status matches Some(s) && s.spec_needs_summary() && summary_text(summary, spinner).len() > 0
}

/// Added lines, with each untracked file counted as one.
pub open spec fn total_added(status: WorktreeStatus) -> nat {
    (status.lines_added + status.untracked_files) as nat
}

/// The figures of a status that is there: additions, deletions and commits
/// ahead, each only if it is not zero, with a blank between neighbours; or
/// the word `Clean` if all three are zero.
pub open spec fn change_segments(status: WorktreeStatus, is_selected: bool) -> Seq<SegmentView> {
    let added = total_added(status);
    let deleted = status.lines_deleted;
    let ahead = status.commits_ahead;
    if added == 0 && deleted == 0 && ahead == 0 {
        seq![seg("Clean"@, emphasis(is_selected))]
    } else {
        (if added > 0 {
            seq![seg("+"@ + decimal(added), Tone::Added)] + (if deleted > 0 || ahead > 0 {
                seq![seg(" "@, Tone::Plain)]
            } else {
                Seq::empty()
            })
        } else {
            Seq::empty()
        }) + (if deleted > 0 {
            seq![seg("-"@ + decimal(deleted as nat), Tone::Deleted)] + (if ahead > 0 {
                seq![seg(" "@, Tone::Plain)]
            } else {
                Seq::empty()
            })
        } else {
            Seq::empty()
        }) + (if ahead > 0 {
            seq![seg("\u{2191}"@ + decimal(ahead as nat), Tone::Ahead)]
        } else {
            Seq::empty()
        })
    }
}

/// The last line of a row: what is known of the worktree's state.
pub open spec fn detail_line(
    status: Option<WorktreeStatus>,
    show_checkbox: bool,
    is_selected: bool,
    spinner: char,
) -> Seq<SegmentView> {
    let indent = indent_text(show_checkbox);
    match status {
        None => seq![seg(indent + seq![spinner] + " Loading..."@, emphasis(is_selected))],
        Some(s) => if s.is_orphaned {
            seq![seg(indent + "Orphaned - directory missing"@, Tone::Danger)]
        } else {
            seq![seg(indent, Tone::Plain)] + change_segments(s, is_selected)
        },
    }
}

/// A row of the list: the branch line, the summary line if there is one, and
/// the detail line.
pub open spec fn row_lines(
    branch: Seq<char>,
    status: Option<WorktreeStatus>,
    summary: SummaryView,
    is_checked: bool,
    show_checkbox: bool,
    is_selected: bool,
    spinner: char,
) -> Seq<Seq<SegmentView>> {
    let head = seq![
        seg(checkbox_text(show_checkbox, is_checked), Tone::Plain),
        seg(status_glyph(status), status_tone(status)),
        seg(branch, Tone::Plain),
    ];
    let middle = if has_summary_line(status, summary, spinner) {
        seq![
            seq![
                seg(
                    indent_text(show_checkbox) + summary_text(summary, spinner),
                    emphasis(is_selected),
                ),
            ],
        ]
    } else {
        Seq::empty()
    };
    seq![head] + middle + seq![detail_line(status, show_checkbox, is_selected, spinner)]
}

/// The title of the list: `base`, then what is still being loaded, if anything.
pub open spec fn title_text(base: Seq<char>, pending_status: nat, pending_summaries: nat) -> Seq<
    char,
> {
    let loading = if pending_status > 0 {
        seq!["Loading: "@ + decimal(pending_status)]
    } else {
        Seq::empty()
    };
    let summarizing = if pending_summaries > 0 {
        seq!["Summarizing: "@ + decimal(pending_summaries)]
    } else {
        Seq::empty()
    };
    let indicators = loading + summarizing;
    if indicators.len() == 0 {
        base + " "@
    } else {
        base + " ["@ + join(indicators, ", "@) + "] "@
    }
}

/// Appends a segment to a line under construction.
fn push_segment(segments: &mut Vec<Segment>, text: String, tone: Tone)
    ensures
        final(segments)@.map_values(|s: Segment| s@) == old(segments)@.map_values(
            |s: Segment| s@,
        ).push(seg(text@, tone)),
{
    segments.push(Segment { text, tone });
    assert(segments@.map_values(|s: Segment| s@) =~= old(segments)@.map_values(
        |s: Segment| s@,
    ).push(seg(text@, tone)));
}

/// Appends a line to a row under construction.
fn push_line(lines: &mut Vec<Line>, segments: Vec<Segment>)
    ensures
        final(lines)@.map_values(|l: Line| l@) == old(lines)@.map_values(|l: Line| l@).push(
            segments@.map_values(|s: Segment| s@),
        ),
{
    lines.push(Line { segments });
    assert(lines@.map_values(|l: Line| l@) =~= old(lines)@.map_values(|l: Line| l@).push(
        segments@.map_values(|s: Segment| s@),
    ));
}

/// The tone of background information, brighter under the cursor.
fn emphasis_tone(is_selected: bool) -> (r: Tone)
    ensures
        r == emphasis(is_selected),
{
    if is_selected {
        Tone::Bright
    } else {
        Tone::Dim
    }
}

/// The tone that stands for `severity`.
pub fn tone_of_severity(severity: Severity) -> (r: Tone)
    ensures
        r == severity_tone(severity),
{
    match severity {
        Severity::Orphaned => Tone::Danger,
        Severity::UncommittedAndUnpushed => Tone::Danger,
        Severity::Uncommitted => Tone::Uncommitted,
        Severity::Unpushed => Tone::Unpushed,
        Severity::Clean => Tone::Clean,
    }
}

/// The figures of `status` as segments; see `change_segments`.
fn build_change_segments(segments: &mut Vec<Segment>, status: &WorktreeStatus, is_selected: bool)
    ensures
        final(segments)@.map_values(|s: Segment| s@) == old(segments)@.map_values(
            |s: Segment| s@,
        ) + change_segments(*status, is_selected),
{
    let ghost before = segments@.map_values(|s: Segment| s@);
    let added: u128 = status.lines_added as u128 + status.untracked_files as u128;
    let deleted: usize = status.lines_deleted;
    let ahead: usize = status.commits_ahead;
    if added == 0 && deleted == 0 && ahead == 0 {
        push_segment(segments, String::from_str("Clean"), emphasis_tone(is_selected));
    } else {
        if added > 0 {
            push_segment(segments, labelled_number("+", added), Tone::Added);
            if deleted > 0 || ahead > 0 {
                push_segment(segments, String::from_str(" "), Tone::Plain);
            }
        }
        if deleted > 0 {
            push_segment(segments, labelled_number("-", deleted as u128), Tone::Deleted);
            if ahead > 0 {
                push_segment(segments, String::from_str(" "), Tone::Plain);
            }
        }
        if ahead > 0 {
            push_segment(segments, labelled_number("\u{2191}", ahead as u128), Tone::Ahead);
        }
    }
    assert(segments@.map_values(|s: Segment| s@) =~= before + change_segments(
        *status,
        is_selected,
    ));
}

/// The row of one worktree: the branch with its check box and status glyph,
/// the summary line where the status asks for one, and the detail line.
pub fn build_worktree_list_item(
    branch: &str,
    status: Option<WorktreeStatus>,
    summary_state: &SummaryState,
    is_checked: bool,
    show_checkbox: bool,
    is_selected: bool,
    spinner: char,
) -> (r: Row)
    ensures
        r@ == row_lines(
            branch@,
            status,
            summary_state@,
            is_checked,
            show_checkbox,
            is_selected,
            spinner,
        ),
{
    let prefix = if !show_checkbox {
        String::new()
    } else if is_checked {
        String::from_str("[\u{2713}] ")
    } else {
        String::from_str("[ ] ")
    };
    let indent = if show_checkbox {
        "      "
    } else {
        "  "
    };
    let (glyph, tone, show_summary) = match status {
        None => ("\u{25cc} ", Tone::Dim, false),
        Some(s) => if s.is_orphaned {
            ("\u{2717} ", Tone::Danger, false)
        } else {
            ("\u{25cf} ", tone_of_severity(s.severity()), s.needs_summary())
        },
    };

    let mut lines: Vec<Line> = Vec::new();
    let mut head: Vec<Segment> = Vec::new();
    push_segment(&mut head, prefix, Tone::Plain);
    push_segment(&mut head, String::from_str(glyph), tone);
    push_segment(&mut head, String::from_str(branch), Tone::Plain);
    assert(head@.map_values(|s: Segment| s@) =~= seq![
        seg(checkbox_text(show_checkbox, is_checked), Tone::Plain),
        seg(status_glyph(status), status_tone(status)),
        seg(branch@, Tone::Plain),
    ]);
    push_line(&mut lines, head);

    if show_summary {
        let mut text = String::from_str(indent);
        let shown: bool = match summary_state {
            SummaryState::Absent => false,
            SummaryState::Queued => {
                text.push(spinner);
                text.append(" Queued");
                true
            },
            SummaryState::Summarizing => {
                text.push(spinner);
                text.append(" Summarizing...");
                true
            },
            SummaryState::Done(summary) => {
                text.append(summary.as_str());
                summary.as_str().unicode_len() > 0
            },
        };
        assert(shown == has_summary_line(status, summary_state@, spinner));
        if shown {
            assert(text@ =~= indent_text(show_checkbox) + summary_text(summary_state@, spinner));
            let mut middle: Vec<Segment> = Vec::new();
            push_segment(&mut middle, text, emphasis_tone(is_selected));
            push_line(&mut lines, middle);
        }
    }

    let mut detail: Vec<Segment> = Vec::new();
    match status {
        None => {
            let mut text = String::from_str(indent);
            text.push(spinner);
            text.append(" Loading...");
            assert(text@ =~= indent_text(show_checkbox) + seq![spinner] + " Loading..."@);
            push_segment(&mut detail, text, emphasis_tone(is_selected));
        },
        Some(s) => {
            if s.is_orphaned {
                let mut text = String::from_str(indent);
                text.append("Orphaned - directory missing");
                push_segment(&mut detail, text, Tone::Danger);
            } else {
                push_segment(&mut detail, String::from_str(indent), Tone::Plain);
                build_change_segments(&mut detail, &s, is_selected);
            }
        },
    }
    assert(detail@.map_values(|s: Segment| s@) =~= detail_line(
        status,
        show_checkbox,
        is_selected,
        spinner,
    ));
    push_line(&mut lines, detail);
    let row = Row { lines };
    assert(row@ =~~= row_lines(
        branch@,
        status,
        summary_state@,
        is_checked,
        show_checkbox,
        is_selected,
        spinner,
    ));
    row
}

/// The title of the list: `base`, then in brackets how many rows still wait
/// for their status and how many for their summary, where any do.
pub fn build_title(base: &str, pending_status: usize, pending_summaries: usize) -> (r: String)
    ensures
        r@ == title_text(base@, pending_status as nat, pending_summaries as nat),
{
    let mut indicators: Vec<String> = Vec::new();
    if pending_status > 0 {
        indicators.push(labelled_number("Loading: ", pending_status as u128));
    }
    if pending_summaries > 0 {
        indicators.push(labelled_number("Summarizing: ", pending_summaries as u128));
    }
    let ghost loading: Seq<Seq<char>> = if pending_status > 0 {
        seq!["Loading: "@ + decimal(pending_status as nat)]
    } else {
        Seq::empty()
    };
    let ghost summarizing: Seq<Seq<char>> = if pending_summaries > 0 {
        seq!["Summarizing: "@ + decimal(pending_summaries as nat)]
    } else {
        Seq::empty()
    };
    assert(crate::text::views(indicators@) =~= loading + summarizing);
    let mut out = String::from_str(base);
    if indicators.len() == 0 {
        out.append(" ");
    } else {
        let joined = crate::text::join_strings(&indicators, ", ");
        out.append(" [");
        out.append(joined.as_str());
        out.append("] ");
    }
    out
}

/// Height of the tallest list that is shown.
pub const MAX_VIEWPORT_HEIGHT: u16 = 20;

/// Lines kept free for each row: branch, summary and detail.
pub const LINES_PER_ITEM: usize = 3;

/// Lines taken by the border and the title.
pub const BORDER_LINES: usize = 2;

/// Lines that `item_count` rows and the border ask for, held at the largest `usize`.
pub open spec fn lines_needed(item_count: usize) -> int {
    let rows = if item_count * LINES_PER_ITEM > usize::MAX {
        usize::MAX as int
    } else {
        item_count * LINES_PER_ITEM
    };
    if rows + BORDER_LINES > usize::MAX {
        usize::MAX as int
    } else {
        rows + BORDER_LINES
    }
}

/// The height of the list: the low sixteen bits of the lines needed, and
/// never more than `MAX_VIEWPORT_HEIGHT`.
pub open spec fn viewport_height(item_count: usize) -> int {
    let low = lines_needed(item_count) % 0x1_0000;
    if low < MAX_VIEWPORT_HEIGHT {
        low
    } else {
        MAX_VIEWPORT_HEIGHT as int
    }
}

/// The height of the list for `item_count` rows.
pub fn calculate_viewport_height(item_count: usize) -> (r: u16)
    ensures
        r == viewport_height(item_count),
        item_count <= 6 ==> r == 3 * item_count + 2,
        6 <= item_count <= 21_000 ==> r == MAX_VIEWPORT_HEIGHT,
{
    let rows: usize = if item_count > usize::MAX / LINES_PER_ITEM {
        usize::MAX
    } else {
        item_count * LINES_PER_ITEM
    };
    let needed: usize = if rows > usize::MAX - BORDER_LINES {
        usize::MAX
    } else {
        rows + BORDER_LINES
    };
    let low: u16 = (needed % 0x1_0000) as u16;
    if low < MAX_VIEWPORT_HEIGHT {
        low
    } else {
        MAX_VIEWPORT_HEIGHT
    }
}

} // verus!
