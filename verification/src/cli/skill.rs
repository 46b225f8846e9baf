//! CLI commands for skill generation and management: their arguments, the
//! output format and the description of the command-line interface that a
//! skill is generated from.
use vstd::prelude::*;
use vstd::string::*;
use std::path::PathBuf;
use crate::text::{lowercase_of, owned, str_eq, to_lowercase};

verus! {

/// Generate agent skill from CLI metadata
#[derive(Debug)]
pub struct GenerateSkillCommand {
    /// Output file path (default: stdout)
    pub output: Option<PathBuf>,
    /// Include live state in skill (default: false)
    pub include_live_state: bool,
    /// Use interactive command examples (default: false)
    pub interactive: bool,
    /// Output format (markdown, json)
    pub format: String,
}

/// Check if skill file is stale (outdated)
#[derive(Debug)]
pub struct CheckSkillCommand {
    /// Skill file path to check
    pub skill_file: PathBuf,
}

/// The format a skill is written in.
#[derive(Debug, Clone, Copy, PartialEq, Eq, Structural)]
pub enum SkillFormat {
    Markdown,
    Json,
}

/// How a skill is generated.
#[derive(Debug, Clone, Copy, PartialEq, Eq, Structural)]
pub struct SkillGenerationOptions {
    pub include_live_state: bool,
    pub non_interactive: bool,
    pub format: SkillFormat,
}

/// The generation options a `skill generate` command asks for: its format
/// name, compared without case, must be `markdown` or `json`; examples are
/// non-interactive unless `--interactive` is given.
pub fn generation_options(cmd: &GenerateSkillCommand) -> (r: Result<SkillGenerationOptions, String>)
    ensures
        lowercase_of(cmd.format@) == "markdown"@ ==> r == Ok::<SkillGenerationOptions, String>(SkillGenerationOptions {
            include_live_state: cmd.include_live_state,
            non_interactive: !cmd.interactive,
            format: SkillFormat::Markdown,
        }),
        lowercase_of(cmd.format@) == "json"@ ==> r == Ok::<SkillGenerationOptions, String>(SkillGenerationOptions {
            include_live_state: cmd.include_live_state,
            non_interactive: !cmd.interactive,
            format: SkillFormat::Json,
        }),
        lowercase_of(cmd.format@) != "markdown"@ && lowercase_of(cmd.format@) != "json"@ ==> (r matches Err(m) && m@
            == "Invalid format: "@ + cmd.format@ + ". Use 'markdown' or 'json'"@),
{
    proof {
        reveal_strlit("markdown");
        reveal_strlit("json");
        assert("json"@.len() != "markdown"@.len());
    }
    let lowered = to_lowercase(cmd.format.as_str());
    let format = if str_eq(lowered.as_str(), "markdown") {
        SkillFormat::Markdown
    } else if str_eq(lowered.as_str(), "json") {
        SkillFormat::Json
    } else {
        let mut m = owned("Invalid format: ");
        m.append(cmd.format.as_str());
        m.append(". Use 'markdown' or 'json'");
        return Err(m);
    };
    Ok(SkillGenerationOptions { include_live_state: cmd.include_live_state, non_interactive: !cmd.interactive, format })
}

/// One command of the command-line interface, as a skill describes it.
#[derive(Debug)]
pub struct CommandMetadata {
    pub name: String,
    pub description: String,
    pub usage: String,
    pub subcommands: Vec<CommandMetadata>,
}

/// The command-line interface, as a skill describes it.
#[derive(Debug)]
pub struct CliMetadata {
    pub name: String,
    pub version: String,
    pub description: String,
    pub repository: Option<String>,
    pub commands: Vec<CommandMetadata>,
}

/// The name, description and usage of each command.
pub open spec fn command_rows(cmds: Seq<CommandMetadata>) -> Seq<(Seq<char>, Seq<char>, Seq<char>)> {
    cmds.map_values(|c: CommandMetadata| (c.name@, c.description@, c.usage@))
}

fn command(name: &str, description: &str, usage: &str, subcommands: Vec<CommandMetadata>) -> (r: CommandMetadata)
    ensures
        r.name@ == name@,
        r.description@ == description@,
        r.usage@ == usage@,
        r.subcommands@ == subcommands@,
{
    CommandMetadata { name: owned(name), description: owned(description), usage: owned(usage), subcommands }
}

/// Create CLI metadata for the given version: the program's name,
/// description and repository, and its commands in order, `hooks` and
/// `skill` with their subcommands. The description and usage of the
/// `install-agent-hooks` subcommand, which name the supported agent
/// platforms, are given.
pub fn create_cli_metadata(version: &str, install_hooks_description: &str, install_hooks_usage: &str) -> (r: CliMetadata)
    ensures
        r.name@ == "proximityd"@,
        r.version@ == version@,
        r.description@ == "Generic presence detection service with pluggable notifications"@,
        r.repository matches Some(u) && u@ == "https://github.com/levonk/proximityd"@,
        command_rows(r.commands@) == seq![
            ("discover"@, "Discover identifier correlations from signal log"@, "proximityd discover --hours 24"@),
            ("status"@, "Show current presence status"@, "proximityd status"@),
            ("parties"@, "List configured parties (includes device count aggregates)"@, "proximityd parties"@),
            ("devices"@, "List configured devices (includes identifier count aggregates)"@, "proximityd devices"@),
            ("export"@, "Export signal log data"@, "proximityd export --format jsonl"@),
            ("install"@, "Install proximityd: generate shell completions and initialize config files"@, "proximityd install"@),
            ("uninstall"@, "Uninstall proximityd: remove completions and optionally config files"@, "proximityd uninstall"@),
            ("completion"@, "Generate shell completion script"@, "proximityd completion bash"@),
            ("man"@, "Display manual page"@, "proximityd man"@),
            ("hooks"@, "Session hook commands for ambient context injection"@, "proximityd hooks session-context"@),
            ("skill"@, "Generate agent skill for AI integration"@, "proximityd skill generate"@),
        ],
        command_rows(r.commands@[9].subcommands@) == seq![
            ("session-context"@, "Output session context in TOON format"@, "proximityd hooks session-context"@),
            ("install-agent-hooks"@, install_hooks_description@, install_hooks_usage@),
        ],
        command_rows(r.commands@[10].subcommands@) == seq![
            ("generate"@, "Generate agent skill from CLI metadata"@, "proximityd skill generate"@),
            ("check"@, "Check if skill file is stale (outdated)"@, "proximityd skill check SKILL.md"@),
        ],
        forall|i: int| 0 <= i < 9 ==> (#[trigger] r.commands@[i]).subcommands@.len() == 0,
        r.commands@[9].subcommands@[0].subcommands@.len() == 0,
        r.commands@[9].subcommands@[1].subcommands@.len() == 0,
        r.commands@[10].subcommands@[0].subcommands@.len() == 0,
        r.commands@[10].subcommands@[1].subcommands@.len() == 0,
{
    let mut commands: Vec<CommandMetadata> = Vec::new();
    commands.push(command("discover", "Discover identifier correlations from signal log", "proximityd discover --hours 24", Vec::new()));
    commands.push(command("status", "Show current presence status", "proximityd status", Vec::new()));
    commands.push(command("parties", "List configured parties (includes device count aggregates)", "proximityd parties", Vec::new()));
    commands.push(command("devices", "List configured devices (includes identifier count aggregates)", "proximityd devices", Vec::new()));
    commands.push(command("export", "Export signal log data", "proximityd export --format jsonl", Vec::new()));
    commands.push(command("install", "Install proximityd: generate shell completions and initialize config files", "proximityd install", Vec::new()));
    commands.push(command("uninstall", "Uninstall proximityd: remove completions and optionally config files", "proximityd uninstall", Vec::new()));
    commands.push(command("completion", "Generate shell completion script", "proximityd completion bash", Vec::new()));
    commands.push(command("man", "Display manual page", "proximityd man", Vec::new()));
    let mut hooks: Vec<CommandMetadata> = Vec::new();
    hooks.push(command("session-context", "Output session context in TOON format", "proximityd hooks session-context", Vec::new()));
    hooks.push(command("install-agent-hooks", install_hooks_description, install_hooks_usage, Vec::new()));
    assert(command_rows(hooks@) =~= seq![
        ("session-context"@, "Output session context in TOON format"@, "proximityd hooks session-context"@),
        ("install-agent-hooks"@, install_hooks_description@, install_hooks_usage@),
    ]);
    commands.push(command("hooks", "Session hook commands for ambient context injection", "proximityd hooks session-context", hooks));
    let mut skill: Vec<CommandMetadata> = Vec::new();
    skill.push(command("generate", "Generate agent skill from CLI metadata", "proximityd skill generate", Vec::new()));
    skill.push(command("check", "Check if skill file is stale (outdated)", "proximityd skill check SKILL.md", Vec::new()));
    assert(command_rows(skill@) =~= seq![
        ("generate"@, "Generate agent skill from CLI metadata"@, "proximityd skill generate"@),
        ("check"@, "Check if skill file is stale (outdated)"@, "proximityd skill check SKILL.md"@),
    ]);
    commands.push(command("skill", "Generate agent skill for AI integration", "proximityd skill generate", skill));
    assert(command_rows(commands@) =~= seq![
        ("discover"@, "Discover identifier correlations from signal log"@, "proximityd discover --hours 24"@),
        ("status"@, "Show current presence status"@, "proximityd status"@),
        ("parties"@, "List configured parties (includes device count aggregates)"@, "proximityd parties"@),
        ("devices"@, "List configured devices (includes identifier count aggregates)"@, "proximityd devices"@),
        ("export"@, "Export signal log data"@, "proximityd export --format jsonl"@),
        ("install"@, "Install proximityd: generate shell completions and initialize config files"@, "proximityd install"@),
        ("uninstall"@, "Uninstall proximityd: remove completions and optionally config files"@, "proximityd uninstall"@),
        ("completion"@, "Generate shell completion script"@, "proximityd completion bash"@),
        ("man"@, "Display manual page"@, "proximityd man"@),
        ("hooks"@, "Session hook commands for ambient context injection"@, "proximityd hooks session-context"@),
        ("skill"@, "Generate agent skill for AI integration"@, "proximityd skill generate"@),
    ]);
    CliMetadata {
        name: owned("proximityd"),
        version: owned(version),
        description: owned("Generic presence detection service with pluggable notifications"),
        repository: Some(owned("https://github.com/levonk/proximityd")),
        commands,
    }
}

} // verus!
