//! The command lines that build an image and start a container, and the
//! script the container runs before it hands over to the agent.

use crate::text::{chars_of, decimal, labelled_number, views};
use vstd::prelude::*;

verus! {

/// `c` as a capital letter if it is a small letter of ASCII, else `c`.
pub open spec fn upper_char(c: char) -> char {
    if 'a' <= c <= 'z' {
        ((c as u8) - 32) as char
    } else {
        c
    }
}

/// `s` with its small letters of ASCII made capital.
pub open spec fn upper(s: Seq<char>) -> Seq<char> {
    Seq::new(s.len(), |i: int| upper_char(s[i]))
}

/// `s` with its small letters of ASCII made capital.
pub fn to_upper(s: &str) -> (r: String)
    ensures
        r@ == upper(s@),
{
    let chars = chars_of(s);
    let mut out = String::new();
    let mut i: usize = 0;
    while i < chars.len()
        invariant
            i <= chars.len(),
            chars@ == s@,
            out@ == upper(s@).take(i as int),
        decreases chars.len() - i,
    {
        let c = chars[i];
        let shown = if 'a' <= c && c <= 'z' {
            ((c as u8) - 32) as char
        } else {
            c
        };
        out.push(shown);
        assert(out@ =~= upper(s@).take(i + 1));
        i = i + 1;
    }
    assert(upper(s@).take(chars.len() as int) =~= upper(s@));
    out
}

/// How the agent is started inside the container.
#[derive(Clone, Debug, PartialEq, Eq)]
pub enum RunMode {
    /// At the terminal, with a first prompt or without.
    Interactive { prompt: Option<String> },
    /// Unattended, with a prompt, streaming what it does.
    Streaming { prompt: String },
}

/// `RunMode` as a mathematical value.
pub enum RunModeView {
    Interactive { prompt: Option<Seq<char>> },
    Streaming { prompt: Seq<char> },
}

impl View for RunMode {
    type V = RunModeView;

    open spec fn view(&self) -> RunModeView {
        match self {
            RunMode::Interactive { prompt } => RunModeView::Interactive {
                prompt: match prompt {
                    Some(p) => Some(p@),
                    None => None,
                },
            },
            RunMode::Streaming { prompt } => RunModeView::Streaming { prompt: prompt@ },
        }
    }
}

/// What a container is started with.
#[derive(Clone, Debug, PartialEq, Eq)]
pub struct ContainerRequest {
    /// The agent's command.
    pub agent: String,
    /// The worktree to mount as workspace.
    pub worktree: String,
    /// The image to run.
    pub image: String,
    /// The name of the variable that carries the API key.
    pub api_key_var: String,
    /// The API key.
    pub api_key: String,
    /// The agent's configuration directory on the host, if there is one.
    pub config_dir: Option<String>,
    /// The agent's configuration file on the host, if there is one.
    pub config_file: Option<String>,
    /// How the agent is started.
    pub mode: RunMode,
}

/// `ContainerRequest` as a mathematical value.
pub struct RequestView {
    pub agent: Seq<char>,
    pub worktree: Seq<char>,
    pub image: Seq<char>,
    pub api_key_var: Seq<char>,
    pub api_key: Seq<char>,
    pub config_dir: Option<Seq<char>>,
    pub config_file: Option<Seq<char>>,
    pub mode: RunModeView,
}

impl View for ContainerRequest {
    type V = RequestView;

    open spec fn view(&self) -> RequestView {
        RequestView {
            agent: self.agent@,
            worktree: self.worktree@,
            image: self.image@,
            api_key_var: self.api_key_var@,
            api_key: self.api_key@,
            config_dir: match self.config_dir {
                Some(d) => Some(d@),
                None => None,
            },
            config_file: match self.config_file {
                Some(f) => Some(f@),
                None => None,
            },
            mode: self.mode@,
        }
    }
}

/// The name of the variable that carries the prompt into the container.
pub open spec fn prompt_var(agent: Seq<char>) -> Seq<char> {
    upper(agent) + "_PROMPT"@
}

/// The edit that marks a copied configuration as a native installation.
pub open spec fn mark_native() -> Seq<char> {
    "sed -i 's/\"installMethod\":[^,}]*/\"installMethod\":\"native\"/g' "@
}

/// The part of the script that takes over the host's configuration directory.
pub open spec fn dir_setup(a: Seq<char>) -> Seq<char> {
    "sudo rm -rf ~/."@ + a + " && sudo cp -a /tmp/."@ + a + "-host ~/."@ + a
        + "; sudo chown -R "@ + a + ":"@ + a + " ~/."@ + a + "; "@ + mark_native() + "~/."@ + a
        + "/*.json 2>/dev/null || true; "@
}

/// The part of the script that takes over the host's configuration file.
pub open spec fn file_setup(a: Seq<char>) -> Seq<char> {
    "sudo cp /tmp/."@ + a + "-host.json ~/."@ + a + ".json; sudo chown "@ + a + ":"@ + a
        + " ~/."@ + a + ".json; "@ + mark_native() + "~/."@ + a
        + ".json 2>/dev/null || true; "@
}

/// The settings the agent runs with: the workspace is trusted and the usual
/// tools are allowed.
pub open spec fn settings_body() -> Seq<char> {
    "{\n  \"permissions\": {\n    \"additionalDirectories\": [\"/workspace\"],\n    \"allow\": [\n      \"Bash\",\n      \"Read\",\n      \"Write\",\n      \"Edit\",\n      \"Glob\",\n      \"Grep\",\n      \"WebFetch(domain:*)\",\n      \"WebSearch\",\n      \"Task\",\n      \"TodoWrite\",\n      \"mcp__*\"\n    ],\n    \"deny\": []\n  }\n}\n"@
}

/// The part of the script that writes the settings.
pub open spec fn settings_setup(a: Seq<char>) -> Seq<char> {
    "mkdir -p ~/."@ + a + "; cat > ~/."@ + a + "/settings.json << 'SETTINGS'\n"@
        + settings_body() + "SETTINGS\n"@
}

/// The last line of the script: the agent takes over.
pub open spec fn launch(a: Seq<char>, mode: RunModeView) -> Seq<char> {
    match mode {
        RunModeView::Interactive { prompt: Some(_) } => "exec "@ + a
            + " --permission-mode bypassPermissions -p \"$"@ + prompt_var(a) + "\""@,
        RunModeView::Interactive { prompt: None } => "exec "@ + a
            + " --permission-mode bypassPermissions"@,
        RunModeView::Streaming { .. } => "exec "@ + a
            + " --permission-mode acceptEdits --verbose --output-format stream-json -p \"$"@
            + prompt_var(a) + "\""@,
    }
}

/// The script the container runs.
pub open spec fn init_script(req: RequestView) -> Seq<char> {
    "set -e; "@ + (if req.config_dir is Some {
        dir_setup(req.agent)
    } else {
        Seq::empty()
    }) + (if req.config_file is Some {
        file_setup(req.agent)
    } else {
        Seq::empty()
    }) + settings_setup(req.agent) + launch(req.agent, req.mode)
}

/// The arguments that mount the host's configuration, read-only.
pub open spec fn config_mounts(req: RequestView) -> Seq<Seq<char>> {
    (match req.config_dir {
        Some(dir) => seq!["-v"@, dir + ":/tmp/."@ + req.agent + "-host:ro"@],
        None => Seq::empty(),
    }) + (match req.config_file {
        Some(file) => seq!["-v"@, file + ":/tmp/."@ + req.agent + "-host.json:ro"@],
        None => Seq::empty(),
    })
}

/// The argument that carries the prompt into the container.
pub open spec fn prompt_args(agent: Seq<char>, prompt: Seq<char>) -> Seq<Seq<char>> {
    seq!["-e"@, prompt_var(agent) + "="@ + prompt]
}

/// The arguments of `docker` that start the container.
pub open spec fn run_args(req: RequestView) -> Seq<Seq<char>> {
    let mount = seq![
        "-v"@,
        req.worktree + ":/workspace"@,
        "-w"@,
        "/workspace"@,
        "-e"@,
        req.api_key_var + "="@ + req.api_key,
    ];
    let tail = seq![req.image, "bash"@, "-c"@, init_script(req)];
    match req.mode {
        RunModeView::Interactive { prompt } => seq!["run"@, "--rm"@, "-it"@] + mount
            + config_mounts(req) + (match prompt {
            Some(p) => prompt_args(req.agent, p),
            None => Seq::empty(),
        }) + tail,
        RunModeView::Streaming { prompt } => seq!["run"@, "--rm"@] + mount + prompt_args(
            req.agent,
            prompt,
        ) + config_mounts(req) + tail,
    }
}

/// The arguments of `docker` that build an image for the user `uid` of group `gid`.
pub open spec fn image_build_args(
    image: Seq<char>,
    uid: u32,
    gid: u32,
    dockerfile: Seq<char>,
    context: Seq<char>,
) -> Seq<Seq<char>> {
    seq![
        "build"@,
        "-t"@,
        image,
        "--build-arg"@,
        "USER_ID="@ + decimal(uid as nat),
        "--build-arg"@,
        "GROUP_ID="@ + decimal(gid as nat),
        "-f"@,
        dockerfile,
        context,
    ]
}

/// Appends an argument.
fn arg(args: &mut Vec<String>, value: String)
    ensures
        views(final(args)@) == views(old(args)@).push(value@),
{
    args.push(value);
    assert(views(args@) =~= views(old(args)@).push(value@));
}

/// Appends a literal argument.
fn word(args: &mut Vec<String>, value: &str)
    ensures
        views(final(args)@) == views(old(args)@).push(value@),
{
    arg(args, String::from_str(value));
}

/// The name of the variable that carries the prompt; see `prompt_var`.
fn prompt_variable(agent: &str) -> (r: String)
    ensures
        r@ == prompt_var(agent@),
{
    let mut out = to_upper(agent);
    out.append("_PROMPT");
    out
}

/// The script the container runs; see `init_script`.
pub fn build_init_script(req: &ContainerRequest) -> (r: String)
    ensures
        r@ == init_script(req@),
{
    let a = req.agent.as_str();
    let sed = "sed -i 's/\"installMethod\":[^,}]*/\"installMethod\":\"native\"/g' ";
    let mut out = String::from_str("set -e; ");
    if req.config_dir.is_some() {
        let mut part = String::from_str("sudo rm -rf ~/.");
        part.append(a);
        part.append(" && sudo cp -a /tmp/.");
        part.append(a);
        part.append("-host ~/.");
        part.append(a);
        part.append("; sudo chown -R ");
        part.append(a);
        part.append(":");
        part.append(a);
        part.append(" ~/.");
        part.append(a);
        part.append("; ");
        part.append(sed);
        part.append("~/.");
        part.append(a);
        part.append("/*.json 2>/dev/null || true; ");
        assert(part@ =~= dir_setup(req.agent@));
        out.append(part.as_str());
    }
    let ghost after_dir = out@;
    if req.config_file.is_some() {
        let mut part = String::from_str("sudo cp /tmp/.");
        part.append(a);
        part.append("-host.json ~/.");
        part.append(a);
        part.append(".json; sudo chown ");
        part.append(a);
        part.append(":");
        part.append(a);
        part.append(" ~/.");
        part.append(a);
        part.append(".json; ");
        part.append(sed);
        part.append("~/.");
        part.append(a);
        part.append(".json 2>/dev/null || true; ");
        assert(part@ =~= file_setup(req.agent@));
        out.append(part.as_str());
    }
    let mut settings = String::from_str("mkdir -p ~/.");
    settings.append(a);
    settings.append("; cat > ~/.");
    settings.append(a);
    settings.append("/settings.json << 'SETTINGS'\n");
    settings.append(
        "{\n  \"permissions\": {\n    \"additionalDirectories\": [\"/workspace\"],\n    \"allow\": [\n      \"Bash\",\n      \"Read\",\n      \"Write\",\n      \"Edit\",\n      \"Glob\",\n      \"Grep\",\n      \"WebFetch(domain:*)\",\n      \"WebSearch\",\n      \"Task\",\n      \"TodoWrite\",\n      \"mcp__*\"\n    ],\n    \"deny\": []\n  }\n}\n",
    );
    settings.append("SETTINGS\n");
    assert(settings@ =~= settings_setup(req.agent@));
    out.append(settings.as_str());
    let mut last = String::from_str("exec ");
    last.append(a);
    let variable = prompt_variable(a);
    match &req.mode {
        RunMode::Interactive { prompt: Some(_) } => {
            last.append(" --permission-mode bypassPermissions -p \"$");
            last.append(variable.as_str());
            last.append("\"");
        },
        RunMode::Interactive { prompt: None } => {
            last.append(" --permission-mode bypassPermissions");
        },
        RunMode::Streaming { .. } => {
            last.append(
                " --permission-mode acceptEdits --verbose --output-format stream-json -p \"$",
            );
            last.append(variable.as_str());
            last.append("\"");
        },
    }
    assert(last@ =~= launch(req.agent@, req.mode@));
    out.append(last.as_str());
    assert(out@ =~= init_script(req@));
    out
}

/// Appends the arguments that mount the host's configuration.
fn push_config_mounts(args: &mut Vec<String>, req: &ContainerRequest)
    ensures
        views(final(args)@) == views(old(args)@) + config_mounts(req@),
{
    let ghost before = views(args@);
    match &req.config_dir {
        Some(dir) => {
            word(args, "-v");
            let mut mount = dir.clone();
            mount.append(":/tmp/.");
            mount.append(req.agent.as_str());
            mount.append("-host:ro");
            arg(args, mount);
        },
        None => {},
    }
    match &req.config_file {
        Some(file) => {
            word(args, "-v");
            let mut mount = file.clone();
            mount.append(":/tmp/.");
            mount.append(req.agent.as_str());
            mount.append("-host.json:ro");
            arg(args, mount);
        },
        None => {},
    }
    assert(views(args@) =~= before + config_mounts(req@));
}

/// Appends the argument that carries the prompt.
fn push_prompt(args: &mut Vec<String>, agent: &str, prompt: &str)
    ensures
        views(final(args)@) == views(old(args)@) + prompt_args(agent@, prompt@),
{
    let ghost before = views(args@);
    word(args, "-e");
    let mut value = prompt_variable(agent);
    value.append("=");
    value.append(prompt);
    arg(args, value);
    assert(views(args@) =~= before + prompt_args(agent@, prompt@));
}

/// The arguments of `docker` that start the container of `req`.
pub fn container_args(req: &ContainerRequest) -> (r: Vec<String>)
    ensures
        views(r@) == run_args(req@),
{
    let mut args: Vec<String> = Vec::new();
    word(&mut args, "run");
    word(&mut args, "--rm");
    match &req.mode {
        RunMode::Interactive { .. } => {
            word(&mut args, "-it");
        },
        RunMode::Streaming { .. } => {},
    }
    word(&mut args, "-v");
    let mut mount = req.worktree.clone();
    mount.append(":/workspace");
    arg(&mut args, mount);
    word(&mut args, "-w");
    word(&mut args, "/workspace");
    word(&mut args, "-e");
    let mut key = req.api_key_var.clone();
    key.append("=");
    key.append(req.api_key.as_str());
    arg(&mut args, key);
    match &req.mode {
        RunMode::Interactive { prompt } => {
            push_config_mounts(&mut args, req);
            match prompt {
                Some(p) => {
                    push_prompt(&mut args, req.agent.as_str(), p.as_str());
                },
                None => {},
            }
        },
        RunMode::Streaming { prompt } => {
            push_prompt(&mut args, req.agent.as_str(), prompt.as_str());
            push_config_mounts(&mut args, req);
        },
    }
    arg(&mut args, req.image.clone());
    word(&mut args, "bash");
    word(&mut args, "-c");
    arg(&mut args, build_init_script(req));
    assert(views(args@) =~= run_args(req@));
    args
}

/// The arguments of `docker` that build `image` from `dockerfile` in
/// `context`, for the user `uid` of group `gid`.
pub fn build_args(image: &str, uid: u32, gid: u32, dockerfile: &str, context: &str) -> (r: Vec<
    String,
>)
    ensures
        views(r@) == image_build_args(image@, uid, gid, dockerfile@, context@),
{
    let mut args: Vec<String> = Vec::new();
    word(&mut args, "build");
    word(&mut args, "-t");
    word(&mut args, image);
    word(&mut args, "--build-arg");
    arg(&mut args, labelled_number("USER_ID=", uid as u128));
    word(&mut args, "--build-arg");
    arg(&mut args, labelled_number("GROUP_ID=", gid as u128));
    word(&mut args, "-f");
    word(&mut args, dockerfile);
    word(&mut args, context);
    assert(views(args@) =~= image_build_args(image@, uid, gid, dockerfile@, context@));
    args
}

} // verus!
