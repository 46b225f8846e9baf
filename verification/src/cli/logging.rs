//! How verbose logging is and how it is written.
use vstd::prelude::*;
use crate::text::{owned, str_eq};

verus! {

/// The log level: `PROXIMITYD_LOG_LEVEL` when set, else `ERROR` when quiet,
/// `DEBUG` for one `-v` and `TRACE` for more, else the configured level,
/// else `INFO`.
pub open spec fn log_level_spec(env_level: Option<Seq<char>>, quiet: bool, verbose: u8, config_level: Option<Seq<char>>) -> Seq<char> {
    match env_level {
        Some(l) => l,
        None => if quiet {
            "ERROR"@
        } else if verbose == 1 {
            "DEBUG"@
        } else if verbose > 1 {
            "TRACE"@
        } else {
            match config_level {
                Some(c) => c,
                None => "INFO"@,
            }
        },
    }
}

/// Resolve the log level from the environment, the flags and the
/// configuration, in that order of precedence.
pub fn resolve_log_level(env_level: Option<&str>, quiet: bool, verbose: u8, config_level: Option<&str>) -> (r: String)
    ensures
        r@ == log_level_spec(
            match env_level { Some(l) => Some(l@), None => None },
            quiet,
            verbose,
            match config_level { Some(c) => Some(c@), None => None },
        ),
{
    match env_level {
        Some(l) => owned(l),
        None => if quiet {
            owned("ERROR")
        } else if verbose == 1 {
            owned("DEBUG")
        } else if verbose > 1 {
            owned("TRACE")
        } else {
            match config_level {
                Some(c) => owned(c),
                None => owned("INFO"),
            }
        },
    }
}

/// Whether logs are written as JSON: `PROXIMITYD_LOG_FORMAT=json` says yes,
/// `pretty` says no; otherwise (unset, or an unknown value, which is warned
/// about) JSON exactly when standard error is not a terminal. The second
/// value says whether the given format was unknown.
pub fn log_as_json(explicit_format: Option<&str>, stderr_tty: bool) -> (r: (bool, bool))
    ensures
        match explicit_format {
            Some(f) => if f@ == "json"@ {
                r == (true, false)
            } else if f@ == "pretty"@ {
                r == (false, false)
            } else {
                r == (!stderr_tty, true)
            },
            None => r == (!stderr_tty, false),
        },
{
    proof {
        reveal_strlit("json");
        reveal_strlit("pretty");
        assert("json"@.len() != "pretty"@.len());
    }
    match explicit_format {
        Some(f) => if str_eq(f, "json") {
            (true, false)
        } else if str_eq(f, "pretty") {
            (false, false)
        } else {
            (!stderr_tty, true)
        },
        None => (!stderr_tty, false),
    }
}

} // verus!
