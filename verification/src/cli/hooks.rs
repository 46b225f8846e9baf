//! CLI commands for session hooks: the arguments, the compact context and
//! the choices behind the commands.
use vstd::prelude::*;
use vstd::string::*;
use crate::hooks::{ConfigSummary, GitInfo, SessionContext};
use crate::text::{joined, join_strs, owned, str_eq};

verus! {

/// Session hook commands
#[derive(Debug, Clone)]
pub struct HooksArgs {
    pub command: HooksCommand,
}

/// The session hook subcommands.
#[derive(Debug, Clone)]
pub enum HooksCommand {
    /// Output session context in compact format
    SessionContext {
        /// Output format (toon, json)
        format: String,
        /// Compact output for token budget (minimal fields)
        compact: bool,
    },
    /// Install agent hooks for ambient context injection
    InstallAgentHooks {
        /// Install hooks for the agent configured through `settings.json`
        claude: bool,
        /// Install hooks for the agent configured through `hooks.json`
        codex: bool,
        /// Install hooks for all supported platforms
        all: bool,
    },
}

/// How the session context is written.
#[derive(Debug, Clone, Copy, PartialEq, Eq, Structural)]
pub enum ContextFormat {
    Toon,
    Json,
}

/// The format named by `--format` (exactly `toon` or `json`), or the error
/// message for any other name.
pub fn context_format(format: &str) -> (r: Result<ContextFormat, String>)
    ensures
        format@ == "toon"@ ==> r == Ok::<ContextFormat, String>(ContextFormat::Toon),
        format@ == "json"@ ==> r == Ok::<ContextFormat, String>(ContextFormat::Json),
        format@ != "toon"@ && format@ != "json"@ ==> (r matches Err(m) && m@ == "Unsupported format: "@ + format@ + ". Use 'toon' or 'json'"@),
{
    proof {
        reveal_strlit("toon");
        reveal_strlit("json");
        assert("json"@[0] != "toon"@[0]);
    }
    if str_eq(format, "toon") {
        Ok(ContextFormat::Toon)
    } else if str_eq(format, "json") {
        Ok(ContextFormat::Json)
    } else {
        let mut m = owned("Unsupported format: ");
        m.append(format);
        m.append(". Use 'toon' or 'json'");
        Err(m)
    }
}

/// The compact form of a session context: of the configuration only the
/// device count is kept, and the git remote is dropped.
pub open spec fn compacted(c: SessionContext) -> SessionContext {
    SessionContext {
        config: ConfigSummary { scan_interval: None, presence_threshold: None, device_count: c.config.device_count },
        git: match c.git {
            Some(g) => Some(GitInfo { remote: None, ..g }),
            None => None,
        },
        ..c
    }
}

/// Compacting a context twice gives what compacting it once gives.
pub proof fn law_compact_idempotent(c: SessionContext)
    ensures
        compacted(compacted(c)) == compacted(c),
{
}

/// Apply compact mode to reduce token consumption: only the device count of
/// the configuration is kept, and the git remote is dropped.
pub fn apply_compact_mode(context: SessionContext) -> (r: SessionContext)
    ensures
        r == compacted(context),
{
    let mut context = context;
    context.config = ConfigSummary {
        scan_interval: None,
        presence_threshold: None,
        device_count: context.config.device_count,
    };
    match context.git {
        Some(mut git) => {
            git.remote = None;
            context.git = Some(git);
        },
        None => {},
    }
    context
}

/// The platforms to install hooks for, in the order of their flags; `all`
/// selects both.
pub fn hook_targets(claude: bool, codex: bool, all: bool) -> (r: (bool, bool))
    ensures
        r == (all || claude, all || codex),
{
    (all || claude, all || codex)
}

/// What the install command reports after installing for the named
/// platforms; `None` when nothing was installed (the caller then names the
/// flags that select a platform).
pub fn install_report(installed: &Vec<&str>) -> (r: Option<String>)
    ensures
        installed@.len() == 0 ==> r is None,
        installed@.len() > 0 ==> (r matches Some(m) && m@ == "Successfully installed hooks for: "@ + joined(installed@.map_values(|s: &str| s@), ", "@)),
{
    if installed.len() == 0 {
        None
    } else {
        let mut r = owned("Successfully installed hooks for: ");
        let list = join_strs(installed, ", ");
        r.append(list.as_str());
        Some(r)
    }
}

} // verus!
