//! The events an agent streams while it runs, and what each one puts on the
//! progress display.

use crate::docker::display::{
    ended, frame_of, redrawn, with_line, DisplayView, Frame, OutputLine, OutputLineView,
    StreamingDisplay,
};
use crate::text::{str_eq, trim_str};
use vstd::prelude::*;
use vstd::utf8::{decode_utf8, is_char_boundary};

verus! {

/// A JSON value of `serde_json`.
#[verifier::external_type_specification]
#[verifier::external_body]
pub struct ExJsonValue(serde_json::Value);

/// The members of a JSON object that are strings, by key. A value that is no
/// object has none.
pub uninterp spec fn json_text_members(value: serde_json::Value) -> Map<Seq<char>, Seq<char>>;

/// `serde_json::Value::get` with a string key, followed by `Value::as_str` on
/// what was found: the member of that name if `value` is an object, has such
/// a member and the member is a string; `None` in every other case.
#[verifier::external_body]
fn text_member(value: &serde_json::Value, key: &str) -> (r: Option<String>)
    ensures
        r is Some <==> json_text_members(*value).contains_key(key@),
        r matches Some(text) ==> text@ == json_text_members(*value)[key@],
{
    value.get(key).and_then(serde_json::Value::as_str).map(str::to_owned)
}

/// One piece of what the agent says.
#[derive(Debug)]
pub enum ContentBlock {
    /// Text the agent wrote.
    Text { text: String },
    /// A tool the agent used, with its input.
    ToolUse { name: String, input: serde_json::Value },
    /// Anything else.
    Other,
}

/// An event of the agent's output stream.
#[derive(Debug)]
pub enum AgentEvent {
    /// The agent said something.
    Assistant { content: Vec<ContentBlock> },
    /// The run is over, with this result.
    Result { result: String },
    /// Anything else.
    Other,
}

/// How many bytes of a shell command are shown.
pub const COMMAND_PREVIEW_BYTES: usize = 60;

/// A command can be cut for showing: it is short enough to be shown whole,
/// or its cut does not fall inside a character.
pub open spec fn can_preview(command: Seq<char>) -> bool {
    let bytes = vstd::utf8::encode_utf8(command);
    bytes.len() > COMMAND_PREVIEW_BYTES ==> is_char_boundary(bytes, COMMAND_PREVIEW_BYTES as int)
}

/// A command as it is shown: whole if it has no more than
/// `COMMAND_PREVIEW_BYTES` bytes, else its first that many bytes and three dots.
pub open spec fn command_preview(command: Seq<char>) -> Seq<char> {
    let bytes = vstd::utf8::encode_utf8(command);
    if bytes.len() > COMMAND_PREVIEW_BYTES {
        decode_utf8(bytes.subrange(0, COMMAND_PREVIEW_BYTES as int)) + "..."@
    } else {
        command
    }
}

/// What a tool works on, as far as showing its use goes.
#[derive(Clone, Copy, Debug, PartialEq, Eq, Structural)]
pub enum ToolKind {
    /// A file: the tools that read, write and edit.
    File,
    /// A pattern: the tools that search.
    Pattern,
    /// A command: the shell.
    Shell,
    /// Nothing that is shown.
    Other,
}

/// The kind of the tool called `tool`.
pub open spec fn tool_kind(tool: Seq<char>) -> ToolKind {
    if tool == "Read"@ || tool == "Write"@ || tool == "Edit"@ {
        ToolKind::File
    } else if tool == "Glob"@ || tool == "Grep"@ {
        ToolKind::Pattern
    } else if tool == "Bash"@ {
        ToolKind::Shell
    } else {
        ToolKind::Other
    }
}

/// The member called `key`, or nothing if there is none.
pub open spec fn member_or_empty(members: Map<Seq<char>, Seq<char>>, key: Seq<char>) -> Seq<char> {
    if members.contains_key(key) {
        members[key]
    } else {
        Seq::empty()
    }
}

/// What is shown of a tool's use, given the string members of its input: the
/// file, the pattern or the command the tool works on, the command cut for
/// showing; nothing for other tools or where the member is missing.
pub open spec fn tool_summary(tool: Seq<char>, members: Map<Seq<char>, Seq<char>>) -> Seq<char> {
    match tool_kind(tool) {
        ToolKind::File => member_or_empty(members, "file_path"@),
        ToolKind::Pattern => member_or_empty(members, "pattern"@),
        ToolKind::Shell => if members.contains_key("command"@) {
            command_preview(members["command"@])
        } else {
            Seq::empty()
        },
        ToolKind::Other => Seq::empty(),
    }
}

/// The input of a tool's use can be summed up: unless the tool is the shell
/// and its command cannot be cut for showing.
pub open spec fn can_summarize(tool: Seq<char>, members: Map<Seq<char>, Seq<char>>) -> bool {
    tool_kind(tool) == ToolKind::Shell && members.contains_key("command"@) ==> can_preview(
        members["command"@],
    )
}

/// The kind of the tool called `tool`.
pub fn kind_of_tool(tool: &str) -> (r: ToolKind)
    ensures
        r == tool_kind(tool@),
{
    if str_eq(tool, "Read") || str_eq(tool, "Write") || str_eq(tool, "Edit") {
        ToolKind::File
    } else if str_eq(tool, "Glob") || str_eq(tool, "Grep") {
        ToolKind::Pattern
    } else if str_eq(tool, "Bash") {
        ToolKind::Shell
    } else {
        ToolKind::Other
    }
}

/// A command as it is shown; see `command_preview`.
pub fn preview_command(command: &str) -> (r: String)
    requires
        can_preview(command@),
    ensures
        r@ == command_preview(command@),
{
    broadcast use {vstd::utf8::encode_utf8_decode_utf8, vstd::slice::axiom_spec_len};

    if command.as_bytes().len() > COMMAND_PREVIEW_BYTES {
        let (head, _) = command.split_at(COMMAND_PREVIEW_BYTES);
        let mut out = String::from_str(head);
        out.append("...");
        assert(head@ == decode_utf8(vstd::utf8::encode_utf8(head@)));
        out
    } else {
        String::from_str(command)
    }
}

/// Whether `command` can be cut for showing.
fn previewable(command: &str) -> (r: bool)
    ensures
        r == can_preview(command@),
{
    broadcast use vstd::slice::axiom_spec_len;

    command.as_bytes().len() <= COMMAND_PREVIEW_BYTES || command.is_char_boundary(
        COMMAND_PREVIEW_BYTES,
    )
}

/// What is shown of the use of `tool_name` with `input`, or `None` where the
/// tool is the shell and its command cannot be cut for showing.
pub fn summarize_tool_input(tool_name: &str, input: &serde_json::Value) -> (r: Option<String>)
    ensures
        r is Some <==> can_summarize(tool_name@, json_text_members(*input)),
        r matches Some(text) ==> text@ == tool_summary(tool_name@, json_text_members(*input)),
{
    match kind_of_tool(tool_name) {
        ToolKind::File => match text_member(input, "file_path") {
            Some(path) => Some(path),
            None => Some(String::new()),
        },
        ToolKind::Pattern => match text_member(input, "pattern") {
            Some(pattern) => Some(pattern),
            None => Some(String::new()),
        },
        ToolKind::Shell => match text_member(input, "command") {
            Some(command) => {
                if previewable(command.as_str()) {
                    Some(preview_command(command.as_str()))
                } else {
                    None
                }
            },
            None => Some(String::new()),
        },
        ToolKind::Other => Some(String::new()),
    }
}

/// What became of the display while an event was taken in.
pub struct Progress {
    /// The display afterwards.
    pub display: DisplayView,
    /// The frames that were drawn, in order.
    pub frames: Seq<crate::docker::display::FrameView>,
    /// Whether a tool's use could not be shown; nothing is taken in after that.
    pub failed: bool,
}

/// The line a block puts on the display: `Some(Some(..))` for text and for a
/// tool's use, `Some(None)` for a block that is not shown, `None` for a
/// tool's use that cannot be shown.
pub open spec fn block_line(block: ContentBlock) -> Option<Option<OutputLineView>> {
    match block {
        ContentBlock::Text { text } => Some(
            Some(OutputLineView { content: text@, is_tool: false }),
        ),
        ContentBlock::ToolUse { name, input } => if can_summarize(
            name@,
            json_text_members(input),
        ) {
            Some(
                Some(
                    OutputLineView {
                        content: "> "@ + name@ + " "@ + tool_summary(
                            name@,
                            json_text_members(input),
                        ),
                        is_tool: true,
                    },
                ),
            )
        } else {
            None
        },
        ContentBlock::Other => Some(None),
    }
}

/// The display after the blocks of one message, taken in order: each block
/// that has a line adds it and redraws, unless the run is over.
pub open spec fn blocks_shown(start: DisplayView, blocks: Seq<ContentBlock>, width: nat) -> Progress
    decreases blocks.len(),
{
    if blocks.len() == 0 {
        Progress { display: start, frames: Seq::empty(), failed: false }
    } else {
        let before = blocks_shown(start, blocks.drop_last(), width);
        if before.failed {
            before
        } else {
            match block_line(blocks.last()) {
                None => Progress { display: before.display, frames: before.frames, failed: true },
                Some(None) => before,
                Some(Some(line)) => if before.display.finished {
                    before
                } else {
                    Progress {
                        display: redrawn(with_line(before.display, line), width),
                        frames: before.frames.push(
                            frame_of(with_line(before.display, line), width),
                        ),
                        failed: false,
                    }
                },
            }
        }
    }
}

/// The display after an event: a message shows its blocks; a result ends the
/// run, with the result's text if white space is not all there is to it;
/// any other event leaves the display alone.
pub open spec fn event_shown(start: DisplayView, event: AgentEvent, width: nat) -> Progress {
    match event {
        AgentEvent::Assistant { content } => blocks_shown(start, content@, width),
        AgentEvent::Result { result } => {
            let text = crate::text::trim(result@);
            let over = ended(
                start,
                if text.len() > 0 {
                    Some(text)
                } else {
                    None
                },
            );
            Progress {
                display: redrawn(over, width),
                frames: seq![frame_of(over, width)],
                failed: false,
            }
        },
        AgentEvent::Other => Progress { display: start, frames: Seq::empty(), failed: false },
    }
}

/// What taking in an event handed out: the frames to print, and whether a
/// tool's use could not be shown.
#[derive(Debug)]
pub struct EventOutcome {
    pub frames: Vec<Frame>,
    pub failed: bool,
}

/// The line that `block` puts on the display; see `block_line`.
fn line_of(block: &ContentBlock) -> (r: Option<Option<OutputLine>>)
    ensures
        match block_line(*block) {
            None => r is None,
            Some(None) => r == Some(None::<OutputLine>),
            Some(Some(line)) => r matches Some(Some(made)) && made@ == line,
        },
{
    match block {
        ContentBlock::Text { text } => Some(
            Some(OutputLine { content: text.clone(), is_tool: false }),
        ),
        ContentBlock::ToolUse { name, input } => match summarize_tool_input(name.as_str(), input) {
            Some(summary) => {
                let mut content = String::from_str("> ");
                content.append(name.as_str());
                content.append(" ");
                content.append(summary.as_str());
                Some(Some(OutputLine { content, is_tool: true }))
            },
            None => None,
        },
        ContentBlock::Other => Some(None),
    }
}

/// Takes `event` in: puts what it tells on `display` and hands out the
/// frames to print for a terminal `width` characters wide.
pub fn process_event(display: &mut StreamingDisplay, event: &AgentEvent, width: usize) -> (r:
    EventOutcome)
    requires
        old(display).wf(),
    ensures
        final(display).wf(),
        final(display)@ == event_shown(old(display)@, *event, width as nat).display,
        r.frames@.map_values(|f: Frame| f@) == event_shown(
            old(display)@,
            *event,
            width as nat,
        ).frames,
        r.failed == event_shown(old(display)@, *event, width as nat).failed,
{
    let mut frames: Vec<Frame> = Vec::new();
    let mut failed = false;
    let ghost start = display@;
    match event {
        AgentEvent::Assistant { content } => {
            let mut i: usize = 0;
            proof {
                assert(frames@.map_values(|f: Frame| f@) =~= Seq::empty());
                assert(content@.take(0) =~= Seq::<ContentBlock>::empty());
            }
            while i < content.len()
                invariant
                    i <= content.len(),
                    display.wf(),
                    display@ == blocks_shown(start, content@.take(i as int), width as nat).display,
                    frames@.map_values(|f: Frame| f@) == blocks_shown(
                        start,
                        content@.take(i as int),
                        width as nat,
                    ).frames,
                    failed == blocks_shown(start, content@.take(i as int), width as nat).failed,
                decreases content.len() - i,
            {
                proof {
                    assert(content@.take(i + 1).drop_last() =~= content@.take(i as int));
                    assert(content@.take(i + 1).last() == content@[i as int]);
                }
                if !failed {
                    match line_of(&content[i]) {
                        None => {
                            failed = true;
                        },
                        Some(None) => {},
                        Some(Some(line)) => {
                            let ghost drawn = frames@.map_values(|f: Frame| f@);
                            match display.add_line(line, width) {
                                Some(frame) => {
                                    let ghost shown = frame@;
                                    frames.push(frame);
                                    assert(frames@.map_values(|f: Frame| f@) =~= drawn.push(
                                        shown,
                                    ));
                                },
                                None => {},
                            }
                        },
                    }
                }
                i = i + 1;
            }
            assert(content@.take(content.len() as int) =~= content@);
        },
        AgentEvent::Result { result } => {
            let text = trim_str(result.as_str());
            let frame = if text.as_str().unicode_len() > 0 {
                display.set_final_result(text, width)
            } else {
                display.finish(width)
            };
            let ghost shown = frame@;
            frames.push(frame);
            assert(frames@.map_values(|f: Frame| f@) =~= seq![shown]);
        },
        AgentEvent::Other => {
            assert(frames@.map_values(|f: Frame| f@) =~= Seq::empty());
        },
    }
    EventOutcome { frames, failed }
}

} // verus!
