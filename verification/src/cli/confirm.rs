//! Yes/no confirmation: when the prompt is skipped and what counts as yes.
use vstd::prelude::*;
use crate::text::{lowercase_of, str_eq, to_lowercase, trim, trimmed};

verus! {

/// The answer given without asking: `--force` confirms, quiet mode declines
/// (force takes precedence); `None` when the user must be asked.
pub fn confirm_without_prompt(force: bool, quiet: bool) -> (r: Option<bool>)
    ensures
        force ==> r == Some(true),
        !force && quiet ==> r == Some(false),
        !force && !quiet ==> r is None,
{
    if force {
        Some(true)
    } else if quiet {
        Some(false)
    } else {
        None
    }
}

/// Whether a typed answer confirms: `y` or `yes`, ignoring case and
/// surrounding whitespace.
pub fn is_affirmative(input: &str) -> (r: bool)
    ensures
        r == (lowercase_of(trimmed(input@)) == "y"@ || lowercase_of(trimmed(input@)) == "yes"@),
{
    let t = trim(input);
    let response = to_lowercase(t.as_str());
    str_eq(response.as_str(), "y") || str_eq(response.as_str(), "yes")
}

} // verus!
