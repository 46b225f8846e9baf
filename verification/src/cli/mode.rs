//! Agent or human mode: how output is shaped for who reads it.
use vstd::prelude::*;
use crate::text::{lowercase_of, str_eq, to_lowercase};

verus! {

/// Output mode: for agents (compact, machine-readable), for humans, or
/// chosen from the environment.
#[derive(Debug, Clone, Copy, PartialEq, Eq, Structural)]
pub enum Mode {
    Agent,
    Human,
    Auto,
}

/// The mode `detect_mode` settles on.
pub open spec fn effective_mode(config_mode: Mode, agent_session: bool, tty: bool) -> Mode {
    match config_mode {
        Mode::Agent => Mode::Agent,
        Mode::Human => Mode::Human,
        Mode::Auto => if agent_session {
            Mode::Agent
        } else if tty {
            Mode::Human
        } else {
            Mode::Agent
        },
    }
}

/// Whether standard output is a terminal (`atty::is` on stdout). Trusted;
/// the answer depends on how the process was started, so nothing is stated
/// of it.
#[verifier::external_body]
pub fn is_tty() -> bool {
    atty::is(atty::Stream::Stdout)
}

/// Determine the effective mode based on configuration and environment: an
/// explicit mode stands; `Auto` picks agent mode in an agent session, human
/// mode on a terminal, and agent mode otherwise (CI, pipes).
pub fn detect_mode(config_mode: Mode, agent_session: bool, tty: bool) -> (r: Mode)
    ensures
        r == effective_mode(config_mode, agent_session, tty),
        r != Mode::Auto,
{
    match config_mode {
        Mode::Agent => Mode::Agent,
        Mode::Human => Mode::Human,
        Mode::Auto => {
            if agent_session {
                Mode::Agent
            } else if tty {
                Mode::Human
            } else {
                Mode::Agent
            }
        },
    }
}

/// Whether one of the agent session variables (`CLAUDE_SESSION`,
/// `CODEX_SESSION`, `AGENT_SESSION`) is set, given which of them are.
pub fn agent_session_from(claude: bool, codex: bool, agent: bool) -> (r: bool)
    ensures
        r == (claude || codex || agent),
{
    claude || codex || agent
}

/// How command output is written.
#[derive(Debug, Clone, Copy, PartialEq, Eq, Structural)]
pub enum OutputFormat {
    Json,
    Toon,
    Human,
}

/// The format named by `--format`, compared without case.
pub open spec fn format_named(lowered: Seq<char>) -> Option<OutputFormat> {
    if lowered == "toon"@ {
        Some(OutputFormat::Toon)
    } else if lowered == "json"@ {
        Some(OutputFormat::Json)
    } else if lowered == "human"@ {
        Some(OutputFormat::Human)
    } else {
        None
    }
}

/// The output format from the flags when no `--format` is given: `--toon`,
/// then `--json`, then the mode (TOON for agents, human text otherwise; in
/// auto mode TOON only in an agent session).
pub open spec fn format_from_flags(toon: bool, json: bool, mode: Mode, agent_session: bool) -> OutputFormat {
    if toon {
        OutputFormat::Toon
    } else if json {
        OutputFormat::Json
    } else {
        match mode {
            Mode::Agent => OutputFormat::Toon,
            Mode::Human => OutputFormat::Human,
            Mode::Auto => if agent_session {
                OutputFormat::Toon
            } else {
                OutputFormat::Human
            },
        }
    }
}

/// Choose the output format: an explicit `--format` takes precedence, compared
/// without case, and must name a format (`Err(())` otherwise); then the
/// individual flags; then the mode.
pub fn output_format_from_flags(toon: bool, json: bool, format: Option<&str>, mode: Mode, agent_session: bool) -> (r: Result<OutputFormat, ()>)
    ensures
        match format {
            Some(f) => match format_named(lowercase_of(f@)) {
                Some(named) => r == Ok::<OutputFormat, ()>(named),
                None => r is Err,
            },
            None => r == Ok::<OutputFormat, ()>(format_from_flags(toon, json, mode, agent_session)),
        },
{
    proof {
        reveal_strlit("toon");
        reveal_strlit("json");
        reveal_strlit("human");
    }
    match format {
        Some(given) => {
            let lowered = to_lowercase(given);
            let f = lowered.as_str();
            if str_eq(f, "toon") {
                Ok(OutputFormat::Toon)
            } else if str_eq(f, "json") {
                Ok(OutputFormat::Json)
            } else if str_eq(f, "human") {
                Ok(OutputFormat::Human)
            } else {
                Err(())
            }
        },
        None => {
            if toon {
                Ok(OutputFormat::Toon)
            } else if json {
                Ok(OutputFormat::Json)
            } else {
                match mode {
                    Mode::Agent => Ok(OutputFormat::Toon),
                    Mode::Human => Ok(OutputFormat::Human),
                    Mode::Auto => if agent_session {
                        Ok(OutputFormat::Toon)
                    } else {
                        Ok(OutputFormat::Human)
                    },
                }
            }
        },
    }
}

/// In auto mode an agent session always gives agent mode, whether or not
/// standard output is a terminal.
pub proof fn law_agent_session_gives_agent_mode(tty: bool)
    ensures
        effective_mode(Mode::Auto, true, tty) == Mode::Agent,
{
}

/// An explicit mode is kept whatever the session and terminal; outside an
/// agent session, auto mode is human on a terminal and agent otherwise.
pub proof fn law_mode_choice(config_mode: Mode, agent_session: bool, tty: bool)
    ensures
        config_mode != Mode::Auto ==> effective_mode(config_mode, agent_session, tty) == config_mode,
        !agent_session ==> (effective_mode(Mode::Auto, agent_session, tty) == Mode::Human <==> tty),
        effective_mode(config_mode, agent_session, tty) != Mode::Auto,
{
}

} // verus!
