//! Shell completion: which shells are supported and the arguments of the
//! `completion` command.
use vstd::prelude::*;
use vstd::string::*;
use std::path::PathBuf;
use crate::text::{lowercase_of, owned, str_eq, to_lowercase};

verus! {

/// Generate shell completion scripts for bash, zsh, or fish
#[derive(Debug)]
pub struct CompletionArgs {
    /// Shell type (bash, zsh, fish)
    pub shell: String,
    /// Output file path (default: stdout)
    pub output: Option<PathBuf>,
}

/// A shell for which completion scripts are generated.
#[derive(Debug, Clone, Copy, PartialEq, Eq, Structural)]
pub enum CompletionShell {
    Bash,
    Zsh,
    Fish,
}

/// The shell named by a lower-cased name.
pub open spec fn shell_named(lowered: Seq<char>) -> Option<CompletionShell> {
    if lowered == "bash"@ {
        Some(CompletionShell::Bash)
    } else if lowered == "zsh"@ {
        Some(CompletionShell::Zsh)
    } else if lowered == "fish"@ {
        Some(CompletionShell::Fish)
    } else {
        None
    }
}

/// The message for a shell that is not supported.
pub open spec fn unsupported_shell_message(shell: Seq<char>) -> Seq<char> {
    "Unsupported shell: "@ + shell + ". Supported shells: bash, zsh, fish"@
}

/// The shell that the argument names, compared without case, or the error
/// message for an unsupported one (which quotes the argument as given).
pub fn completion_shell(shell: &str) -> (r: Result<CompletionShell, String>)
    ensures
        match shell_named(lowercase_of(shell@)) {
            Some(s) => r == Ok::<CompletionShell, String>(s),
            None => r matches Err(m) && m@ == unsupported_shell_message(shell@),
        },
{
    proof {
        reveal_strlit("bash");
        reveal_strlit("zsh");
        reveal_strlit("fish");
    }
    let lowered = to_lowercase(shell);
    let name = lowered.as_str();
    if str_eq(name, "bash") {
        Ok(CompletionShell::Bash)
    } else if str_eq(name, "zsh") {
        Ok(CompletionShell::Zsh)
    } else if str_eq(name, "fish") {
        Ok(CompletionShell::Fish)
    } else {
        let mut m = owned("Unsupported shell: ");
        m.append(shell);
        m.append(". Supported shells: bash, zsh, fish");
        Err(m)
    }
}

} // verus!
