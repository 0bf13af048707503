//! The progress display of a non-interactive run: a header with a spinner,
//! the last few lines the agent produced, and a closing line; once the run
//! is over, the header and the result alone. Each redraw is handed out as a
//! frame for the caller to print.

use crate::text::{chars_of, push_range};
use crate::tui::selection::SPINNER_FRAMES;
use vstd::prelude::*;

verus! {

/// How many of the newest lines are shown.
pub const MAX_OUTPUT_LINES: usize = 5;

/// A line the agent produced.
#[derive(Clone, Debug, PartialEq, Eq)]
pub struct OutputLine {
    /// The text of the line.
    pub content: String,
    /// Whether the line tells of a tool being used rather than of text written.
    pub is_tool: bool,
}

/// `OutputLine` as a mathematical value.
pub struct OutputLineView {
    pub content: Seq<char>,
    pub is_tool: bool,
}

impl View for OutputLine {
    type V = OutputLineView;

    open spec fn view(&self) -> OutputLineView {
        OutputLineView { content: self.content@, is_tool: self.is_tool }
    }
}

/// What is to be printed for one redraw.
#[derive(Clone, Debug, PartialEq, Eq)]
pub struct Frame {
    /// How many lines above the cursor are to be cleared first.
    pub clear: usize,
    /// The lines to print, top to bottom.
    pub lines: Vec<String>,
}

/// `Frame` as a mathematical value.
pub struct FrameView {
    pub clear: nat,
    pub lines: Seq<Seq<char>>,
}

impl View for Frame {
    type V = FrameView;

    open spec fn view(&self) -> FrameView {
        FrameView { clear: self.clear as nat, lines: self.lines@.map_values(|l: String| l@) }
    }
}

/// The state of the display.
pub struct StreamingDisplay {
    title: String,
    lines: Vec<OutputLine>,
    displayed_count: usize,
    spinner_idx: usize,
    header_printed: bool,
    final_result: Option<String>,
    finished: bool,
}

/// What a `StreamingDisplay` stands for.
pub struct DisplayView {
    /// The name the agent goes by in the header.
    pub title: Seq<char>,
    pub lines: Seq<OutputLineView>,
    /// How many lines the last frame showed between header and closing line.
    pub displayed_count: nat,
    pub spinner_idx: nat,
    pub header_printed: bool,
    pub final_result: Option<Seq<char>>,
    pub finished: bool,
}

/// `s` cut to `max_width` characters: as it is if it fits, else its first
/// `max_width - 3` characters (none if that is less than one) and three dots.
pub open spec fn truncated(s: Seq<char>, max_width: nat) -> Seq<char> {
    if s.len() <= max_width {
        s
    } else if max_width >= 3 {
        s.take(max_width - 3) + "..."@
    } else {
        "..."@
    }
}

/// `count` times the character `c`.
pub open spec fn repeated(c: char, count: nat) -> Seq<char> {
    Seq::new(count, |i: int| c)
}

/// The line that closes the box, as wide as the terminal.
pub open spec fn closing_line(width: nat) -> Seq<char> {
    "\x1b[90m\u{2570}"@ + repeated(
        '\u{2500}',
        if width >= 1 {
            (width - 1) as nat
        } else {
            0
        },
    ) + "\x1b[0m"@
}

/// The room a line has for its text: the terminal's width less four.
pub open spec fn content_width(width: nat) -> nat {
    if width >= 4 {
        (width - 4) as nat
    } else {
        0
    }
}

/// The lines that are shown: the newest `MAX_OUTPUT_LINES` of them.
pub open spec fn visible_lines(lines: Seq<OutputLineView>) -> Seq<OutputLineView> {
    if lines.len() > MAX_OUTPUT_LINES {
        lines.skip(lines.len() - MAX_OUTPUT_LINES)
    } else {
        lines
    }
}

/// The colours of the line at `position` among `shown` visible lines: where
/// more than two are shown the first two fade out; the others are told apart
/// by what they tell of.
pub open spec fn line_colours(position: int, shown: nat, is_tool: bool) -> (Seq<char>, Seq<char>) {
    if shown > 2 && position == 0 {
        ("\x1b[38;5;238m"@, "\x1b[38;5;240m"@)
    } else if shown > 2 && position == 1 {
        ("\x1b[38;5;243m"@, "\x1b[38;5;245m"@)
    } else if is_tool {
        ("\x1b[90m"@, "\x1b[33m"@)
    } else {
        ("\x1b[90m"@, "\x1b[36m"@)
    }
}

/// One visible line as it is printed.
pub open spec fn shown_line(line: OutputLineView, position: int, shown: nat, width: nat) -> Seq<
    char,
> {
    let colours = line_colours(position, shown, line.is_tool);
    colours.0 + "\u{2502}\x1b[0m "@ + colours.1 + truncated(line.content, content_width(width))
        + "\x1b[0m"@
}

/// The header while the run goes on.
pub open spec fn active_header(title: Seq<char>, spinner: char) -> Seq<char> {
    "\x1b[36m"@ + seq![spinner] + " "@ + title + " is analyzing your project...\x1b[0m"@
}

/// The header once the run is over.
pub open spec fn finished_header(title: Seq<char>) -> Seq<char> {
    "\x1b[32m\u{2713} "@ + title + " analyzed your project\x1b[0m"@
}

/// The result as it is printed under the finished header.
pub open spec fn result_line(result: Seq<char>, width: nat) -> Seq<char> {
    "\x1b[90m\u{2502}\x1b[0m \x1b[36m"@ + truncated(result, content_width(width)) + "\x1b[0m"@
}

/// The lines between header and closing line.
pub open spec fn body_lines(v: DisplayView, width: nat) -> Seq<Seq<char>> {
    if v.finished {
        match v.final_result {
            Some(result) => seq![result_line(result, width)],
            None => Seq::empty(),
        }
    } else {
        let visible = visible_lines(v.lines);
        Seq::new(visible.len(), |i: int| shown_line(visible[i], i, visible.len(), width))
    }
}

/// The frame a redraw prints: what the last frame left is cleared, then
/// header, body and closing line follow.
pub open spec fn frame_of(v: DisplayView, width: nat) -> FrameView {
    FrameView {
        clear: if v.header_printed {
            v.displayed_count + 2
        } else {
            0
        },
        lines: seq![
            if v.finished {
                finished_header(v.title)
            } else {
                active_header(v.title, SPINNER_FRAMES@[v.spinner_idx as int])
            },
        ] + body_lines(v, width) + seq![closing_line(width)],
    }
}

/// The display after a redraw: it remembers that there is a header on the
/// screen and how many lines stand under it.
pub open spec fn redrawn(v: DisplayView, width: nat) -> DisplayView {
    DisplayView {
        title: v.title,
        lines: v.lines,
        displayed_count: body_lines(v, width).len(),
        spinner_idx: v.spinner_idx,
        header_printed: true,
        final_result: v.final_result,
        finished: v.finished,
    }
}

/// The display with the spinner one frame on.
pub open spec fn spun(v: DisplayView) -> DisplayView {
    DisplayView {
        title: v.title,
        lines: v.lines,
        displayed_count: v.displayed_count,
        spinner_idx: if v.spinner_idx + 1 < SPINNER_FRAMES@.len() {
            v.spinner_idx + 1
        } else {
            0
        },
        header_printed: v.header_printed,
        final_result: v.final_result,
        finished: v.finished,
    }
}

/// The display with one more line.
pub open spec fn with_line(v: DisplayView, line: OutputLineView) -> DisplayView {
    DisplayView {
        title: v.title,
        lines: v.lines.push(line),
        displayed_count: v.displayed_count,
        spinner_idx: v.spinner_idx,
        header_printed: v.header_printed,
        final_result: v.final_result,
        finished: v.finished,
    }
}

/// The display once the run is over, with the result taken over if one is given.
pub open spec fn ended(v: DisplayView, result: Option<Seq<char>>) -> DisplayView {
    DisplayView {
        title: v.title,
        lines: v.lines,
        displayed_count: v.displayed_count,
        spinner_idx: v.spinner_idx,
        header_printed: v.header_printed,
        final_result: match result {
            Some(text) => Some(text),
            None => v.final_result,
        },
        finished: true,
    }
}

/// `s` cut to `max_width` characters; see `truncated`.
pub fn truncate_to_width(s: &str, max_width: usize) -> (r: String)
    ensures
        r@ == truncated(s@, max_width as nat),
{
    let chars = chars_of(s);
    if chars.len() <= max_width {
        String::from_str(s)
    } else {
        let keep: usize = if max_width >= 3 {
            max_width - 3
        } else {
            0
        };
        let mut out = String::new();
        push_range(&mut out, &chars, 0, keep);
        out.append("...");
        assert(chars@.subrange(0, keep as int) =~= chars@.take(keep as int));
        assert(out@ =~= truncated(s@, max_width as nat));
        out
    }
}

/// The line that closes the box; see `closing_line`.
pub fn closing(width: usize) -> (r: String)
    ensures
        r@ == closing_line(width as nat),
{
    let count: usize = if width >= 1 {
        width - 1
    } else {
        0
    };
    let mut out = String::from_str("\x1b[90m\u{2570}");
    let ghost head = out@;
    let mut i: usize = 0;
    while i < count
        invariant
            i <= count,
            out@ == head + repeated('\u{2500}', i as nat),
        decreases count - i,
    {
        out.push('\u{2500}');
        assert(out@ =~= head + repeated('\u{2500}', (i + 1) as nat));
        i = i + 1;
    }
    out.append("\x1b[0m");
    out
}

impl View for StreamingDisplay {
    type V = DisplayView;

    closed spec fn view(&self) -> DisplayView {
        DisplayView {
            title: self.title@,
            lines: self.lines@.map_values(|l: OutputLine| l@),
            displayed_count: self.displayed_count as nat,
            spinner_idx: self.spinner_idx as nat,
            header_printed: self.header_printed,
            final_result: match self.final_result {
                Some(text) => Some(text@),
                None => None,
            },
            finished: self.finished,
        }
    }
}

/// The spinner stands on one of its frames and no more lines are counted as
/// shown than a frame can hold.
pub open spec fn valid_display(v: DisplayView) -> bool {
    v.spinner_idx < SPINNER_FRAMES@.len() && v.displayed_count <= MAX_OUTPUT_LINES
}

impl StreamingDisplay {
    /// The invariant of the display.
    pub closed spec fn wf(&self) -> bool {
        valid_display(self@)
    }

    /// A display in good order has a valid view.
    pub proof fn lemma_wf_view(&self)
        requires
            self.wf(),
        ensures
            valid_display(self@),
    {
    }

    /// A display with nothing on it yet, for the agent that goes by `title`.
    pub fn new(title: &str) -> (r: Self)
        ensures
            r.wf(),
            r@ == (DisplayView {
                title: title@,
                lines: Seq::empty(),
                displayed_count: 0,
                spinner_idx: 0,
                header_printed: false,
                final_result: None,
                finished: false,
            }),
    {
        let display = StreamingDisplay {
            title: String::from_str(title),
            lines: Vec::new(),
            displayed_count: 0,
            spinner_idx: 0,
            header_printed: false,
            final_result: None,
            finished: false,
        };
        assert(display@.lines =~= Seq::empty());
        display
    }

    /// Whether the run is over.
    pub fn is_finished(&self) -> (r: bool)
        ensures
            r == self@.finished,
    {
        self.finished
    }

    /// One visible line as it is printed; see `shown_line`.
    fn format_line(line: &OutputLine, position: usize, shown: usize, width: usize) -> (r: String)
        ensures
            r@ == shown_line(line@, position as int, shown as nat, width as nat),
    {
        let (prefix, colour) = if shown > 2 && position == 0 {
            ("\x1b[38;5;238m", "\x1b[38;5;240m")
        } else if shown > 2 && position == 1 {
            ("\x1b[38;5;243m", "\x1b[38;5;245m")
        } else if line.is_tool {
            ("\x1b[90m", "\x1b[33m")
        } else {
            ("\x1b[90m", "\x1b[36m")
        };
        let room: usize = if width >= 4 {
            width - 4
        } else {
            0
        };
        let text = truncate_to_width(line.content.as_str(), room);
        let mut out = String::from_str(prefix);
        out.append("\u{2502}\x1b[0m ");
        out.append(colour);
        out.append(text.as_str());
        out.append("\x1b[0m");
        out
    }

    /// Draws the display anew for a terminal `width` characters wide: hands
    /// out the frame to print and remembers what it leaves on the screen.
    pub fn redraw(&mut self, width: usize) -> (r: Frame)
        requires
            old(self).wf(),
        ensures
            final(self).wf(),
            r@ == frame_of(old(self)@, width as nat),
            final(self)@ == redrawn(old(self)@, width as nat),
    {
        let ghost before = self@;
        let clear: usize = if self.header_printed {
            self.displayed_count + 2
        } else {
            0
        };
        let room: usize = if width >= 4 {
            width - 4
        } else {
            0
        };
        let mut out: Vec<String> = Vec::new();
        let ghost mut body: Seq<Seq<char>> = Seq::empty();
        if self.finished {
            let mut header = String::from_str("\x1b[32m\u{2713} ");
            header.append(self.title.as_str());
            header.append(" analyzed your project\x1b[0m");
            out.push(header);
            match &self.final_result {
                Some(result) => {
                    let text = truncate_to_width(result.as_str(), room);
                    let mut line = String::from_str("\x1b[90m\u{2502}\x1b[0m \x1b[36m");
                    line.append(text.as_str());
                    line.append("\x1b[0m");
                    out.push(line);
                    self.displayed_count = 1;
                },
                None => {
                    self.displayed_count = 0;
                },
            }
            proof {
                body = body_lines(before, width as nat);
                assert(out@.map_values(|l: String| l@) =~= seq![finished_header(before.title)]
                    + body);
            }
        } else {
            let mut header = String::from_str("\x1b[36m");
            header.push(SPINNER_FRAMES[self.spinner_idx]);
            header.append(" ");
            header.append(self.title.as_str());
            header.append(" is analyzing your project...\x1b[0m");
            assert(header@ =~= active_header(
                before.title,
                SPINNER_FRAMES@[before.spinner_idx as int],
            ));
            out.push(header);
            let total: usize = self.lines.len();
            let start: usize = if total > MAX_OUTPUT_LINES {
                total - MAX_OUTPUT_LINES
            } else {
                0
            };
            let shown: usize = total - start;
            let ghost visible = visible_lines(before.lines);
            proof {
                body = body_lines(before, width as nat);
                assert(before.lines.skip(0) =~= before.lines);
                assert(visible == before.lines.skip(start as int));
                assert(out@.map_values(|l: String| l@) =~= seq![
                    active_header(before.title, SPINNER_FRAMES@[before.spinner_idx as int]),
                ] + body.take(0));
            }
            let mut i: usize = 0;
            while i < shown
                invariant
                    i <= shown,
                    shown == self.lines.len() - start,
                    shown <= MAX_OUTPUT_LINES,
                    start <= self.lines.len(),
                    self.lines@.map_values(|l: OutputLine| l@) == before.lines,
                    visible == before.lines.skip(start as int),
                    body == Seq::new(
                        visible.len(),
                        |k: int| shown_line(visible[k], k, visible.len(), width as nat),
                    ),
                    out@.map_values(|l: String| l@) == seq![
                        active_header(before.title, SPINNER_FRAMES@[before.spinner_idx as int]),
                    ] + body.take(i as int),
                decreases shown - i,
            {
                let line = Self::format_line(&self.lines[start + i], i, shown, width);
                proof {
                    assert(visible[i as int] == self.lines@[start + i]@);
                    assert(line@ == body[i as int]);
                }
                let ghost shown_before = out@.map_values(|l: String| l@);
                let ghost text = line@;
                out.push(line);
                assert(out@.map_values(|l: String| l@) =~= shown_before.push(text));
                assert(shown_before.push(text) =~= seq![
                    active_header(before.title, SPINNER_FRAMES@[before.spinner_idx as int]),
                ] + body.take(i + 1));
                i = i + 1;
            }
            assert(body.take(shown as int) =~= body);
            self.displayed_count = shown;
        }
        let ghost shown_before = out@.map_values(|l: String| l@);
        let last = closing(width);
        let ghost text = last@;
        out.push(last);
        assert(out@.map_values(|l: String| l@) =~= shown_before.push(text));
        self.header_printed = true;
        let frame = Frame { clear, lines: out };
        assert(frame@.lines =~= frame_of(before, width as nat).lines);
        frame
    }

    /// Moves the spinner one frame on and redraws, unless the run is over.
    pub fn tick(&mut self, width: usize) -> (r: Option<Frame>)
        requires
            old(self).wf(),
        ensures
            final(self).wf(),
            old(self)@.finished ==> r is None && final(self)@ == old(self)@,
            !old(self)@.finished ==> (r matches Some(frame) && frame@ == frame_of(
                spun(old(self)@),
                width as nat,
            )) && final(self)@ == redrawn(spun(old(self)@), width as nat),
    {
        if self.finished {
            return None;
        }
        self.spinner_idx = if self.spinner_idx + 1 < SPINNER_FRAMES.len() {
            self.spinner_idx + 1
        } else {
            0
        };
        Some(self.redraw(width))
    }

    /// Takes in a line and redraws, unless the run is over.
    pub fn add_line(&mut self, line: OutputLine, width: usize) -> (r: Option<Frame>)
        requires
            old(self).wf(),
        ensures
            final(self).wf(),
            old(self)@.finished ==> r is None && final(self)@ == old(self)@,
            !old(self)@.finished ==> (r matches Some(frame) && frame@ == frame_of(
                with_line(old(self)@, line@),
                width as nat,
            )) && final(self)@ == redrawn(with_line(old(self)@, line@), width as nat),
    {
        if self.finished {
            return None;
        }
        let ghost shown = line@;
        self.lines.push(line);
        assert(self@.lines =~= old(self)@.lines.push(shown));
        Some(self.redraw(width))
    }

    /// Ends the run with a result and redraws.
    pub fn set_final_result(&mut self, result: String, width: usize) -> (r: Frame)
        requires
            old(self).wf(),
        ensures
            final(self).wf(),
            r@ == frame_of(ended(old(self)@, Some(result@)), width as nat),
            final(self)@ == redrawn(ended(old(self)@, Some(result@)), width as nat),
    {
        self.final_result = Some(result);
        self.finished = true;
        self.redraw(width)
    }

    /// Ends the run without a result and redraws.
    pub fn finish(&mut self, width: usize) -> (r: Frame)
        requires
            old(self).wf(),
        ensures
            final(self).wf(),
            r@ == frame_of(ended(old(self)@, None), width as nat),
            final(self)@ == redrawn(ended(old(self)@, None), width as nat),
    {
        self.finished = true;
        self.redraw(width)
    }
}

/// The width assumed where the terminal does not tell its own.
pub const DEFAULT_WIDTH: usize = 80;

/// The width to draw for: the terminal's number of columns where it is
/// known, `DEFAULT_WIDTH` where it is not.
pub fn terminal_width(columns: Option<u16>) -> (r: usize)
    ensures
        r == (match columns {
            Some(w) => w as usize,
            None => DEFAULT_WIDTH,
        }),
{
    match columns {
        Some(w) => w as usize,
        None => DEFAULT_WIDTH,
    }
}

} // verus!
