//! Session hook infrastructure for ambient context injection
//!
//! The context handed to coding-agent sessions at their
//! start: working directory, git repository, configuration and presence
//! summaries, and session metadata; and what is read from a repository's
//! `.git` files to fill it.
use vstd::prelude::*;
use vstd::string::*;
use std::path::PathBuf;
use crate::text::{has_prefix, owned, split_char, split_on, starts_with, strip_prefix, texts, trim, trimmed};

verus! {

/// Session context output in TOON format
#[derive(Debug, Clone)]
pub struct SessionContext {
    /// Current working directory
    pub cwd: String,
    /// Git repository information (if in a git repo)
    pub git: Option<GitInfo>,
    /// Proximityd configuration summary
    pub config: ConfigSummary,
    /// Active devices/presence state
    pub presence: PresenceSummary,
    /// Session metadata
    pub metadata: SessionMetadata,
}

/// Git repository information
#[derive(Debug, Clone)]
pub struct GitInfo {
    /// Repository root path
    pub root: String,
    /// Current branch
    pub branch: Option<String>,
    /// Current commit hash
    pub commit: Option<String>,
    /// Remote URL
    pub remote: Option<String>,
}

/// Configuration summary for session context
#[derive(Debug, Clone)]
pub struct ConfigSummary {
    /// Scan interval in seconds
    pub scan_interval: Option<u64>,
    /// Presence threshold in seconds
    pub presence_threshold: Option<u64>,
    /// Number of configured devices
    pub device_count: usize,
}

/// Presence state summary
#[derive(Debug, Clone)]
pub struct PresenceSummary {
    /// Number of currently present devices
    pub present_count: usize,
    /// Number of configured devices
    pub total_count: usize,
}

/// Session metadata
#[derive(Debug, Clone)]
pub struct SessionMetadata {
    /// Session start time
    pub start_time: String,
    /// Proximityd version
    pub version: String,
    /// Operating system
    pub os: String,
    /// Cached session ID for context enrichment
    pub session_id: Option<String>,
}

/// Hook configuration for different agent platforms
#[derive(Debug)]
pub struct HookConfig {
    /// Hooks of the agent configured through its `settings.json`
    pub claude: Option<ClaudeHookConfig>,
    /// Hooks of the agent configured through its `hooks.json`
    pub codex: Option<CodexHookConfig>,
}

/// Hook configuration of the agent configured through `settings.json`
#[derive(Debug)]
pub struct ClaudeHookConfig {
    /// Path to the agent's settings file
    pub settings_path: PathBuf,
    /// Hook command to register
    pub hook_command: String,
}

/// Hook configuration of the agent configured through `hooks.json`
#[derive(Debug)]
pub struct CodexHookConfig {
    /// Path to the agent's hooks file
    pub hooks_path: PathBuf,
    /// Hook command to register
    pub hook_command: String,
}

/// The current UTC time as RFC 3339 text (`chrono::Utc::now().to_rfc3339()`).
/// Trusted; the time is not stated.
#[verifier::external_body]
fn now_rfc3339() -> String {
    chrono::Utc::now().to_rfc3339()
}

/// A fresh random session identifier (`uuid::Uuid::new_v4`, written out).
/// Trusted: the text is 36 characters long, as uuid writes a UUID in its
/// hyphenated form; the value itself is random.
#[verifier::external_body]
fn new_session_id() -> (r: String)
    ensures
        r@.len() == 36,
{
    uuid::Uuid::new_v4().to_string()
}

/// The configuration summary: the device count given, the other fields not
/// read yet.
pub fn get_config_summary(device_count: usize) -> (r: ConfigSummary)
    ensures
        r.scan_interval is None,
        r.presence_threshold is None,
        r.device_count == device_count,
{
    ConfigSummary { scan_interval: None, presence_threshold: None, device_count }
}

/// The presence summary: no presence state is read yet, so both counts are 0.
pub fn get_presence_summary() -> (r: PresenceSummary)
    ensures
        r.present_count == 0,
        r.total_count == 0,
{
    PresenceSummary { present_count: 0, total_count: 0 }
}

/// Session metadata: the start time now, the version and operating system
/// given, and a fresh session identifier.
pub fn get_session_metadata(version: &str, os: &str) -> (r: SessionMetadata)
    ensures
        r.version@ == version@,
        r.os@ == os@,
        r.session_id matches Some(id) && id@.len() == 36,
{
    SessionMetadata { start_time: now_rfc3339(), version: owned(version), os: owned(os), session_id: Some(new_session_id()) }
}

/// Generate session context for a working directory (already made
/// absolute) and the git repository found around it.
pub fn generate_session_context(cwd: &str, git: Option<GitInfo>, version: &str, os: &str) -> (r: SessionContext)
    ensures
        r.cwd@ == cwd@,
        r.git == git,
        r.config.scan_interval is None,
        r.config.presence_threshold is None,
        r.config.device_count == 0,
        r.presence.present_count == 0,
        r.presence.total_count == 0,
        r.metadata.version@ == version@,
        r.metadata.os@ == os@,
        r.metadata.session_id is Some,
{
    SessionContext {
        cwd: owned(cwd),
        git,
        config: get_config_summary(0),
        presence: get_presence_summary(),
        metadata: get_session_metadata(version, os),
    }
}

/// The branch named by a `.git/HEAD` file: the name after
/// `ref: refs/heads/` (of the trimmed text), or the trimmed text itself for a
/// detached HEAD.
pub open spec fn branch_of_head(content: Seq<char>) -> Option<Seq<char>> {
    let prefix = "ref: refs/heads/"@;
    if has_prefix(content, prefix) {
        if has_prefix(trimmed(content), prefix) {
            Some(trimmed(content).skip(prefix.len() as int))
        } else {
            None
        }
    } else {
        Some(trimmed(content))
    }
}

/// Get current git branch from the text of `.git/HEAD`.
pub fn git_branch_from_head(content: &str) -> (r: Option<String>)
    ensures
        match branch_of_head(content@) {
            Some(b) => r matches Some(s) && s@ == b,
            None => r is None,
        },
{
    if starts_with(content, "ref: refs/heads/") {
        let t = trim(content);
        strip_prefix(t.as_str(), "ref: refs/heads/")
    } else {
        Some(trim(content))
    }
}

/// The reference that a `.git/HEAD` file points at (the trimmed text after
/// `ref: `), if it points at one.
pub open spec fn head_ref_of(content: Seq<char>) -> Option<Seq<char>> {
    if has_prefix(content, "ref: "@) && has_prefix(trimmed(content), "ref: "@) {
        Some(trimmed(content).skip(5))
    } else {
        None
    }
}

/// The path (under `.git`) of the reference that HEAD points at.
pub fn git_head_ref(content: &str) -> (r: Option<String>)
    ensures
        match head_ref_of(content@) {
            Some(p) => r matches Some(s) && s@ == p,
            None => r is None,
        },
{
    proof {
        reveal_strlit("ref: ");
    }
    if starts_with(content, "ref: ") {
        let t = trim(content);
        strip_prefix(t.as_str(), "ref: ")
    } else {
        None
    }
}

/// The commit of a repository from the text of `.git/HEAD`: for a reference,
/// the trimmed text of the file it names (`ref_content`, `None` when that
/// could not be read); else the trimmed HEAD text itself.
pub open spec fn commit_of_head(content: Seq<char>, ref_content: Option<Seq<char>>) -> Option<Seq<char>> {
    if has_prefix(content, "ref: "@) {
        if has_prefix(trimmed(content), "ref: "@) {
            match ref_content {
                Some(c) => Some(trimmed(c)),
                None => None,
            }
        } else {
            None
        }
    } else {
        Some(trimmed(content))
    }
}

/// Get current git commit hash.
pub fn git_commit_from_head(content: &str, ref_content: Option<&str>) -> (r: Option<String>)
    ensures
        match commit_of_head(content@, match ref_content { Some(c) => Some(c@), None => None }) {
            Some(c) => r matches Some(s) && s@ == c,
            None => r is None,
        },
{
    if starts_with(content, "ref: ") {
        match git_head_ref(content) {
            Some(_) => match ref_content {
                Some(c) => Some(trim(c)),
                None => None,
            },
            None => None,
        }
    } else {
        Some(trim(content))
    }
}

/// The remote URL in a git config text: on the first line whose trimmed
/// text starts with `url = `, what follows.
pub open spec fn first_url(lines: Seq<Seq<char>>) -> Option<Seq<char>>
    decreases lines.len(),
{
    if lines.len() == 0 {
        None
    } else if has_prefix(trimmed(lines[0]), "url = "@) {
        Some(trimmed(lines[0]).skip(6))
    } else {
        first_url(lines.drop_first())
    }
}

/// Get git remote URL from the text of `.git/config`.
pub fn git_remote_from_config(content: &str) -> (r: Option<String>)
    ensures
        match first_url(split_on(content@, '\n')) {
            Some(u) => r matches Some(s) && s@ == u,
            None => r is None,
        },
{
    proof {
        reveal_strlit("url = ");
    }
    let lines = split_char(content, '\n');
    let ghost all = texts(lines@);
    assert(all == split_on(content@, '\n'));
    assert(all.skip(0) =~= all);
    let mut i: usize = 0;
    while i < lines.len()
        invariant
            i <= lines@.len(),
            all == texts(lines@),
            all == split_on(content@, '\n'),
            first_url(all) == first_url(all.skip(i as int)),
        decreases lines@.len() - i,
    {
        proof {
            reveal_strlit("url = ");
        }
        let t = trim(lines[i].as_str());
        assert(all.skip(i as int)[0] == lines@[i as int]@);
        if starts_with(t.as_str(), "url = ") {
            let r = strip_prefix(t.as_str(), "url = ");
            proof {
                let rest = all.skip(i as int);
                assert(rest.len() > 0);
                assert(trimmed(rest[0]) == t@);
                assert(has_prefix(trimmed(rest[0]), "url = "@));
                assert(first_url(rest) == Some(t@.skip(6)));
                assert("url = "@.len() == 6);
                assert(r matches Some(x) && x@ == t@.skip(6));
                assert(first_url(all) == Some(t@.skip(6)));
            }
            return r;
        }
        assert(all.skip(i as int).drop_first() =~= all.skip(i + 1));
        i = i + 1;
    }
    None
}

/// The command that a session-start hook runs.
pub fn hook_command(binary_display: &str) -> (r: String)
    ensures
        r@ == binary_display@ + " session-context --format toon"@,
{
    let mut r = owned(binary_display);
    r.append(" session-context --format toon");
    r
}


/// Registers the hook run at the end of an agent session. Session-end hooks
/// are registered together with the session-start ones, so nothing is left to
/// do for them here: it always succeeds.
pub fn register_session_end_hook(_binary_path: &PathBuf) -> (r: Result<(), String>)
    ensures
        r is Ok,
{
    Ok(())
}

} // verus!
