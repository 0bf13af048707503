use vibe::docker::container::{
    build_args, build_init_script, container_args, to_upper, ContainerRequest, RunMode,
};
use vibe::docker::display::{
    closing, terminal_width, truncate_to_width, Frame, OutputLine, StreamingDisplay,
};
use vibe::docker::events::{
    kind_of_tool, preview_command, process_event, summarize_tool_input, AgentEvent, ContentBlock,
    ToolKind,
};
use vibe::docker::{find_image_source, image_to_run, DockerfileProbe, ImageSource};
use vibe::git::GitError;

fn probe(dockerfile: &str, context: &str, exists: bool) -> DockerfileProbe {
    DockerfileProbe { dockerfile: dockerfile.to_string(), context: context.to_string(), exists }
}

fn object(pairs: &[(&str, serde_json::Value)]) -> serde_json::Value {
    let mut map = serde_json::Map::new();
    for (k, v) in pairs {
        map.insert(k.to_string(), v.clone());
    }
    serde_json::Value::Object(map)
}

fn text(s: &str) -> serde_json::Value {
    serde_json::Value::String(s.to_string())
}

#[test]
fn image_source_prefers_the_worktree_then_the_workspace() {
    let own = probe("/w/Dockerfile.vibes", "/w", true);
    let none = probe("/w/Dockerfile.vibes", "/w", false);
    let shared = probe("/r/Dockerfile.vibes", "/r", true);
    let missing = probe("/r/Dockerfile.vibes", "/r", false);
    let from_w = ImageSource::BuildFrom { dockerfile: "/w/Dockerfile.vibes".into(), context: "/w".into() };
    let from_r = ImageSource::BuildFrom { dockerfile: "/r/Dockerfile.vibes".into(), context: "/r".into() };
    assert_eq!(find_image_source(own.clone(), Ok(Some(shared.clone()))), Ok(from_w.clone()));
    assert_eq!(find_image_source(own.clone(), Err(GitError::InvalidBareStructure)), Ok(from_w));
    assert_eq!(find_image_source(none.clone(), Ok(Some(shared))), Ok(from_r));
    assert_eq!(find_image_source(none.clone(), Ok(Some(missing))), Ok(ImageSource::UseDefault));
    assert_eq!(find_image_source(none.clone(), Ok(None)), Ok(ImageSource::UseDefault));
    assert_eq!(
        find_image_source(none, Err(GitError::InvalidBareStructure)),
        Err(GitError::InvalidBareStructure)
    );
    let built = ImageSource::BuildFrom { dockerfile: "d".into(), context: "c".into() };
    assert_eq!(image_to_run(&built, "mine", "base/image"), "mine");
    assert_eq!(image_to_run(&ImageSource::UseDefault, "mine", "base/image"), "base/image");
}

#[test]
fn truncation_keeps_short_text_and_dots_long_text() {
    assert_eq!(truncate_to_width("hello", 5), "hello");
    assert_eq!(truncate_to_width("hello", 10), "hello");
    assert_eq!(truncate_to_width("hello world", 8), "hello...");
    assert_eq!(truncate_to_width("hello", 4), "h...");
    assert_eq!(truncate_to_width("hello", 3), "...");
    assert_eq!(truncate_to_width("hello", 2), "...");
    assert_eq!(truncate_to_width("hello", 0), "...");
    assert_eq!(truncate_to_width("", 0), "");
    assert_eq!(truncate_to_width("\u{e4}\u{f6}\u{fc}\u{df}xyz", 6), "\u{e4}\u{f6}\u{fc}...");
}

#[test]
fn closing_line_spans_the_terminal() {
    assert_eq!(closing(4), "\x1b[90m\u{2570}\u{2500}\u{2500}\u{2500}\x1b[0m");
    assert_eq!(closing(1), "\x1b[90m\u{2570}\x1b[0m");
    assert_eq!(closing(0), "\x1b[90m\u{2570}\x1b[0m");
    assert_eq!(terminal_width(None), 80);
    assert_eq!(terminal_width(Some(132)), 132);
    assert_eq!(terminal_width(Some(0)), 0);
}

fn out(content: &str, is_tool: bool) -> OutputLine {
    OutputLine { content: content.to_string(), is_tool }
}

#[test]
fn display_draws_header_lines_and_closing_line() {
    let mut d = StreamingDisplay::new("Agent");
    let first = d.redraw(20);
    assert_eq!(
        first,
        Frame {
            clear: 0,
            lines: vec![
                "\x1b[36m\u{280b} Agent is analyzing your project...\x1b[0m".to_string(),
                closing(20),
            ],
        }
    );
    let second = d.add_line(out("reading the project file!", false), 20).unwrap();
    assert_eq!(second.clear, 2);
    assert_eq!(
        second.lines,
        vec![
            "\x1b[36m\u{280b} Agent is analyzing your project...\x1b[0m".to_string(),
            "\x1b[90m\u{2502}\x1b[0m \x1b[36mreading the p...\x1b[0m".to_string(),
            closing(20),
        ]
    );
    let third = d.add_line(out("> Read x", true), 20).unwrap();
    assert_eq!(third.clear, 3);
    assert_eq!(third.lines[2], "\x1b[90m\u{2502}\x1b[0m \x1b[33m> Read x\x1b[0m");
    let ticked = d.tick(20).unwrap();
    assert_eq!(ticked.clear, 4);
    assert_eq!(ticked.lines[0], "\x1b[36m\u{2819} Agent is analyzing your project...\x1b[0m");
}

#[test]
fn display_shows_the_newest_five_lines_and_fades_the_oldest() {
    let mut d = StreamingDisplay::new("Agent");
    for i in 0..7 {
        d.add_line(out(&format!("line {}", i), i % 2 == 1), 40);
    }
    let frame = d.tick(40).unwrap();
    assert_eq!(frame.clear, 7);
    assert_eq!(frame.lines.len(), 7);
    assert_eq!(frame.lines[1], "\x1b[38;5;238m\u{2502}\x1b[0m \x1b[38;5;240mline 2\x1b[0m");
    assert_eq!(frame.lines[2], "\x1b[38;5;243m\u{2502}\x1b[0m \x1b[38;5;245mline 3\x1b[0m");
    assert_eq!(frame.lines[3], "\x1b[90m\u{2502}\x1b[0m \x1b[36mline 4\x1b[0m");
    assert_eq!(frame.lines[4], "\x1b[90m\u{2502}\x1b[0m \x1b[33mline 5\x1b[0m");
    assert_eq!(frame.lines[5], "\x1b[90m\u{2502}\x1b[0m \x1b[36mline 6\x1b[0m");
    let mut two = StreamingDisplay::new("Agent");
    two.add_line(out("a", false), 40);
    let f = two.add_line(out("b", false), 40).unwrap();
    assert_eq!(f.lines[1], "\x1b[90m\u{2502}\x1b[0m \x1b[36ma\x1b[0m");
}

#[test]
fn finished_display_collapses_and_stops_changing() {
    let mut d = StreamingDisplay::new("Agent");
    d.add_line(out("a", false), 30);
    d.add_line(out("b", false), 30);
    let done = d.set_final_result("All set".to_string(), 30);
    assert_eq!(
        done,
        Frame {
            clear: 4,
            lines: vec![
                "\x1b[32m\u{2713} Agent analyzed your project\x1b[0m".to_string(),
                "\x1b[90m\u{2502}\x1b[0m \x1b[36mAll set\x1b[0m".to_string(),
                closing(30),
            ],
        }
    );
    assert!(d.is_finished());
    assert_eq!(d.tick(30), None);
    assert_eq!(d.add_line(out("late", false), 30), None);
    let again = d.redraw(30);
    assert_eq!(again.clear, 3);
    assert_eq!(again.lines, done.lines);

    let mut plain = StreamingDisplay::new("Agent");
    let end = plain.finish(10);
    assert_eq!(
        end.lines,
        vec!["\x1b[32m\u{2713} Agent analyzed your project\x1b[0m".to_string(), closing(10)]
    );
    assert_eq!(plain.redraw(10).clear, 2);
}

#[test]
fn tool_input_is_summed_up_by_tool() {
    let input = object(&[
        ("file_path", text("/src/main.rs")),
        ("pattern", text("*.rs")),
        ("command", text("ls -la")),
        ("count", serde_json::Value::from(3)),
    ]);
    assert_eq!(summarize_tool_input("Read", &input), Some("/src/main.rs".to_string()));
    assert_eq!(summarize_tool_input("Write", &input), Some("/src/main.rs".to_string()));
    assert_eq!(summarize_tool_input("Edit", &input), Some("/src/main.rs".to_string()));
    assert_eq!(summarize_tool_input("Glob", &input), Some("*.rs".to_string()));
    assert_eq!(summarize_tool_input("Grep", &input), Some("*.rs".to_string()));
    assert_eq!(summarize_tool_input("Bash", &input), Some("ls -la".to_string()));
    assert_eq!(summarize_tool_input("Task", &input), Some(String::new()));
    assert_eq!(summarize_tool_input("read", &input), Some(String::new()));
    let other = object(&[("file_path", serde_json::Value::from(1)), ("x", text("y"))]);
    assert_eq!(summarize_tool_input("Read", &other), Some(String::new()));
    assert_eq!(summarize_tool_input("Bash", &other), Some(String::new()));
    assert_eq!(summarize_tool_input("Read", &text("file_path")), Some(String::new()));
    assert_eq!(summarize_tool_input("Glob", &serde_json::Value::Null), Some(String::new()));
    assert_eq!(kind_of_tool("Bash"), ToolKind::Shell);
    assert_eq!(kind_of_tool("Grep"), ToolKind::Pattern);
    assert_eq!(kind_of_tool("Edit"), ToolKind::File);
    assert_eq!(kind_of_tool(""), ToolKind::Other);
}

#[test]
fn long_commands_are_cut_at_sixty_bytes() {
    let sixty = "a".repeat(60);
    let long = "a".repeat(61);
    assert_eq!(preview_command(&sixty), sixty);
    assert_eq!(preview_command(&long), format!("{}...", sixty));
    assert_eq!(
        summarize_tool_input("Bash", &object(&[("command", text(&long))])),
        Some(format!("{}...", sixty))
    );
    let wide = format!("{}\u{e9}{}", "a".repeat(58), "b".repeat(10));
    assert_eq!(preview_command(&wide), format!("{}\u{e9}...", "a".repeat(58)));
    let split = format!("{}\u{e9}{}", "a".repeat(59), "b".repeat(10));
    assert_eq!(summarize_tool_input("Bash", &object(&[("command", text(&split))])), None);
    let short_wide = format!("{}\u{e9}", "a".repeat(58));
    assert_eq!(
        summarize_tool_input("Bash", &object(&[("command", text(&short_wide))])),
        Some(short_wide)
    );
}

#[test]
fn events_put_lines_on_the_display() {
    let mut d = StreamingDisplay::new("Agent");
    let event = AgentEvent::Assistant {
        content: vec![
            ContentBlock::Text { text: "Looking around".to_string() },
            ContentBlock::Other,
            ContentBlock::ToolUse {
                name: "Read".to_string(),
                input: object(&[("file_path", text("Cargo.toml"))]),
            },
        ],
    };
    let outcome = process_event(&mut d, &event, 60);
    assert!(!outcome.failed);
    assert_eq!(outcome.frames.len(), 2);
    assert_eq!(outcome.frames[0].clear, 0);
    assert_eq!(outcome.frames[1].clear, 3);
    assert_eq!(
        outcome.frames[1].lines[1..3],
        [
            "\x1b[90m\u{2502}\x1b[0m \x1b[36mLooking around\x1b[0m".to_string(),
            "\x1b[90m\u{2502}\x1b[0m \x1b[33m> Read Cargo.toml\x1b[0m".to_string(),
        ]
    );
    let nothing = process_event(&mut d, &AgentEvent::Other, 60);
    assert!(nothing.frames.is_empty() && !nothing.failed);
    let end = process_event(&mut d, &AgentEvent::Result { result: "  Done. \n".to_string() }, 60);
    assert_eq!(end.frames.len(), 1);
    assert_eq!(end.frames[0].lines[1], "\x1b[90m\u{2502}\x1b[0m \x1b[36mDone.\x1b[0m");
    assert!(d.is_finished());
    let late = process_event(&mut d, &event, 60);
    assert!(late.frames.is_empty() && !late.failed);

    let mut blank = StreamingDisplay::new("Agent");
    let end = process_event(&mut blank, &AgentEvent::Result { result: " \n".to_string() }, 60);
    assert_eq!(end.frames[0].lines.len(), 2);
}

#[test]
fn event_with_a_command_that_cannot_be_cut_fails_after_what_came_before() {
    let mut d = StreamingDisplay::new("Agent");
    let split = format!("{}\u{e9}{}", "a".repeat(59), "b".repeat(10));
    let event = AgentEvent::Assistant {
        content: vec![
            ContentBlock::Text { text: "first".to_string() },
            ContentBlock::ToolUse { name: "Bash".to_string(), input: object(&[("command", text(&split))]) },
            ContentBlock::Text { text: "never shown".to_string() },
        ],
    };
    let outcome = process_event(&mut d, &event, 60);
    assert!(outcome.failed);
    assert_eq!(outcome.frames.len(), 1);
}

fn request(mode: RunMode, dir: Option<&str>, file: Option<&str>) -> ContainerRequest {
    ContainerRequest {
        agent: "agent".to_string(),
        worktree: "/w/s1".to_string(),
        image: "img".to_string(),
        api_key_var: "API_KEY".to_string(),
        api_key: "secret".to_string(),
        config_dir: dir.map(|d| d.to_string()),
        config_file: file.map(|f| f.to_string()),
        mode,
    }
}

const SETTINGS: &str = "mkdir -p ~/.agent; cat > ~/.agent/settings.json << 'SETTINGS'\n{\n  \"permissions\": {\n    \"additionalDirectories\": [\"/workspace\"],\n    \"allow\": [\n      \"Bash\",\n      \"Read\",\n      \"Write\",\n      \"Edit\",\n      \"Glob\",\n      \"Grep\",\n      \"WebFetch(domain:*)\",\n      \"WebSearch\",\n      \"Task\",\n      \"TodoWrite\",\n      \"mcp__*\"\n    ],\n    \"deny\": []\n  }\n}\nSETTINGS\n";

#[test]
fn interactive_container_without_configuration() {
    let req = request(RunMode::Interactive { prompt: None }, None, None);
    let script = format!("set -e; {}exec agent --permission-mode bypassPermissions", SETTINGS);
    assert_eq!(build_init_script(&req), script);
    assert_eq!(
        container_args(&req),
        vec![
            "run", "--rm", "-it", "-v", "/w/s1:/workspace", "-w", "/workspace", "-e",
            "API_KEY=secret", "img", "bash", "-c", &script
        ]
    );
}

#[test]
fn interactive_container_with_configuration_and_prompt() {
    let req = request(
        RunMode::Interactive { prompt: Some("fix it".to_string()) },
        Some("/home/u/.agent"),
        Some("/home/u/.agent.json"),
    );
    let script = format!(
        "set -e; sudo rm -rf ~/.agent && sudo cp -a /tmp/.agent-host ~/.agent; sudo chown -R agent:agent ~/.agent; sed -i 's/\"installMethod\":[^,}}]*/\"installMethod\":\"native\"/g' ~/.agent/*.json 2>/dev/null || true; sudo cp /tmp/.agent-host.json ~/.agent.json; sudo chown agent:agent ~/.agent.json; sed -i 's/\"installMethod\":[^,}}]*/\"installMethod\":\"native\"/g' ~/.agent.json 2>/dev/null || true; {}exec agent --permission-mode bypassPermissions -p \"$AGENT_PROMPT\"",
        SETTINGS
    );
    assert_eq!(build_init_script(&req), script);
    assert_eq!(
        container_args(&req),
        vec![
            "run", "--rm", "-it", "-v", "/w/s1:/workspace", "-w", "/workspace", "-e",
            "API_KEY=secret", "-v", "/home/u/.agent:/tmp/.agent-host:ro", "-v",
            "/home/u/.agent.json:/tmp/.agent-host.json:ro", "-e", "AGENT_PROMPT=fix it", "img",
            "bash", "-c", &script
        ]
    );
}

#[test]
fn streaming_container_passes_the_prompt_first() {
    let req = request(RunMode::Streaming { prompt: "set up".to_string() }, Some("/c"), None);
    let args = container_args(&req);
    assert_eq!(
        args[..13],
        [
            "run", "--rm", "-v", "/w/s1:/workspace", "-w", "/workspace", "-e", "API_KEY=secret",
            "-e", "AGENT_PROMPT=set up", "-v", "/c:/tmp/.agent-host:ro", "img"
        ]
    );
    assert_eq!(args.len(), 16);
    assert!(args[15].ends_with(
        "exec agent --permission-mode acceptEdits --verbose --output-format stream-json -p \"$AGENT_PROMPT\""
    ));
    assert!(args[15].starts_with("set -e; sudo rm -rf ~/.agent && "));
    assert!(!args[15].contains("host.json"));
}

#[test]
fn build_arguments_carry_user_and_group() {
    assert_eq!(
        build_args("img", 1000, 0, "/w/Dockerfile.vibes", "/w"),
        vec![
            "build", "-t", "img", "--build-arg", "USER_ID=1000", "--build-arg", "GROUP_ID=0",
            "-f", "/w/Dockerfile.vibes", "/w"
        ]
    );
    assert_eq!(build_args("i", u32::MAX, 7, "d", "c")[4], "USER_ID=4294967295");
    assert_eq!(to_upper("agent-x1_\u{e9}z"), "AGENT-X1_\u{e9}Z");
}
