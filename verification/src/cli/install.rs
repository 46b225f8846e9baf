//! The decisions of `install` and `uninstall`: what is created, kept or
//! previewed, what is reported, and to whom.
use vstd::prelude::*;
use vstd::string::*;
use crate::cli::mode::Mode;
use crate::error::error_types::{PERMISSION_DENIED, VALIDATION_ERROR};
use crate::error::{StructuredError, toon_text, EXIT_PERMISSION_DENIED, EXIT_SUCCESS, EXIT_VALIDATION_ERROR};
use crate::text::owned;

verus! {

/// What `install` sets up in the configuration directory.
#[derive(Debug, Clone, Copy, PartialEq, Eq, Structural)]
pub enum InstallTarget {
    ConfigDir,
    ConfigFile,
    PresenceFile,
}

/// What is done about one target.
#[derive(Debug, Clone, Copy, PartialEq, Eq, Structural)]
pub enum InstallAction {
    /// It is created.
    Create,
    /// It exists and is left as it is (installation is idempotent).
    KeepExisting,
    /// Dry run: it would be created.
    Preview,
}

/// What is done about a target: an existing one is kept, else a dry run
/// previews and a real run creates.
pub fn plan_target(exists: bool, dry_run: bool) -> (r: InstallAction)
    ensures
        exists ==> r == InstallAction::KeepExisting,
        !exists && dry_run ==> r == InstallAction::Preview,
        !exists && !dry_run ==> r == InstallAction::Create,
{
    if exists {
        InstallAction::KeepExisting
    } else if dry_run {
        InstallAction::Preview
    } else {
        InstallAction::Create
    }
}

/// The target's name in messages.
pub open spec fn target_noun(t: InstallTarget) -> Seq<char> {
    match t {
        InstallTarget::ConfigDir => "config directory"@,
        InstallTarget::ConfigFile => "config file"@,
        InstallTarget::PresenceFile => "presence file"@,
    }
}

/// The target's name at the start of a line.
pub open spec fn target_title(t: InstallTarget) -> Seq<char> {
    match t {
        InstallTarget::ConfigDir => "Config directory"@,
        InstallTarget::ConfigFile => "Config file"@,
        InstallTarget::PresenceFile => "Presence file"@,
    }
}

fn noun(t: InstallTarget) -> (r: &'static str)
    ensures
        r@ == target_noun(t),
{
    match t {
        InstallTarget::ConfigDir => "config directory",
        InstallTarget::ConfigFile => "config file",
        InstallTarget::PresenceFile => "presence file",
    }
}

fn title(t: InstallTarget) -> (r: &'static str)
    ensures
        r@ == target_title(t),
{
    match t {
        InstallTarget::ConfigDir => "Config directory",
        InstallTarget::ConfigFile => "Config file",
        InstallTarget::PresenceFile => "Presence file",
    }
}

/// What a dry run says of a target it would create:
/// `Would create <target>: <path>`.
pub fn preview_message(t: InstallTarget, path: &str) -> (r: String)
    ensures
        r@ == "Would create "@ + target_noun(t) + ": "@ + path@,
{
    let mut r = owned("Would create ");
    r.append(noun(t));
    r.append(": ");
    r.append(path);
    r
}

/// The lines a human reads about a target once its action is done.
pub open spec fn human_lines(t: InstallTarget, action: InstallAction, path: Seq<char>) -> Seq<Seq<char>> {
    match action {
        InstallAction::Create => seq!["Created "@ + target_noun(t) + ": "@ + path],
        InstallAction::Preview => seq!["DRY RUN: "@ + "Would create "@ + target_noun(t) + ": "@ + path],
        InstallAction::KeepExisting => if t == InstallTarget::ConfigDir {
            seq![target_title(t) + " exists: "@ + path]
        } else {
            seq![target_title(t) + " exists: "@ + path, "  (Not overwriting existing file)"@]
        },
    }
}

/// The lines a human reads about a target once its action is done.
pub fn human_report(t: InstallTarget, action: InstallAction, path: &str) -> (r: Vec<String>)
    ensures
        r@.map_values(|s: String| s@) == human_lines(t, action, path@),
{
    let mut lines: Vec<String> = Vec::new();
    match action {
        InstallAction::Create => {
            let mut l = owned("Created ");
            l.append(noun(t));
            l.append(": ");
            l.append(path);
            assert(l@ =~= "Created "@ + target_noun(t) + ": "@ + path@);
            lines.push(l);
        },
        InstallAction::Preview => {
            let mut l = owned("DRY RUN: ");
            let m = preview_message(t, path);
            l.append(m.as_str());
            assert(l@ =~= "DRY RUN: "@ + "Would create "@ + target_noun(t) + ": "@ + path@);
            lines.push(l);
        },
        InstallAction::KeepExisting => {
            let mut l = owned(title(t));
            l.append(" exists: ");
            l.append(path);
            assert(l@ =~= target_title(t) + " exists: "@ + path@);
            lines.push(l);
            if t != InstallTarget::ConfigDir {
                lines.push(owned("  (Not overwriting existing file)"));
            }
        },
    }
    assert(lines@.map_values(|s: String| s@) =~= human_lines(t, action, path@));
    lines
}

/// The error reported when creating a target failed.
pub fn creation_failure(t: InstallTarget, path: &str) -> (r: StructuredError)
    ensures
        r.error_type@ == PERMISSION_DENIED@,
        r.exit_code == EXIT_PERMISSION_DENIED,
        t == InstallTarget::ConfigDir ==> r.message@ == "Failed to create config directory: "@ + path@ && (r.suggestion matches Some(s)
            && s@ == "Check directory permissions or run with appropriate privileges"@),
        t == InstallTarget::ConfigFile ==> r.message@ == "Failed to write config.toml to "@ + path@ && (r.suggestion matches Some(s)
            && s@ == "Check file permissions or run with appropriate privileges"@),
        t == InstallTarget::PresenceFile ==> r.message@ == "Failed to write presence.toml to "@ + path@ && (r.suggestion matches Some(s)
            && s@ == "Check file permissions or run with appropriate privileges"@),
{
    let (prefix, suggestion) = match t {
        InstallTarget::ConfigDir => ("Failed to create config directory: ", "Check directory permissions or run with appropriate privileges"),
        InstallTarget::ConfigFile => ("Failed to write config.toml to ", "Check file permissions or run with appropriate privileges"),
        InstallTarget::PresenceFile => ("Failed to write presence.toml to ", "Check file permissions or run with appropriate privileges"),
    };
    let mut message = owned(prefix);
    message.append(path);
    StructuredError::new(PERMISSION_DENIED, message.as_str(), EXIT_PERMISSION_DENIED).with_suggestion(suggestion)
}

/// The error reported when the configuration path exists and is not a
/// directory.
pub fn not_a_directory(path: &str) -> (r: StructuredError)
    ensures
        r.error_type@ == VALIDATION_ERROR@,
        r.exit_code == EXIT_VALIDATION_ERROR,
        r.message@ == "Config path exists but is not a directory: "@ + path@,
        r.suggestion matches Some(s) && s@ == "Remove the file or rename it to allow directory creation"@,
{
    let mut message = owned("Config path exists but is not a directory: ");
    message.append(path);
    StructuredError::new(VALIDATION_ERROR, message.as_str(), EXIT_VALIDATION_ERROR).with_suggestion(
        "Remove the file or rename it to allow directory creation",
    )
}

/// The structured note a dry run gives an agent for a target it would create.
pub fn dry_run_note(t: InstallTarget, path: &str) -> (r: StructuredError)
    ensures
        r.error_type@ == "dry_run"@,
        r.exit_code == EXIT_SUCCESS,
        r.message@ == "Would create "@ + target_noun(t) + ": "@ + path@,
        r.suggestion is None,
{
    let m = preview_message(t, path);
    StructuredError::new("dry_run", m.as_str(), EXIT_SUCCESS)
}

/// The structured note an agent gets once installation is done.
pub fn install_success(config_dir: &str) -> (r: StructuredError)
    ensures
        r.error_type@ == "install_success"@,
        r.exit_code == EXIT_SUCCESS,
        r.message@ == "Installation complete. Config directory: "@ + config_dir@,
        r.suggestion is None,
{
    let mut m = owned("Installation complete. Config directory: ");
    m.append(config_dir);
    StructuredError::new("install_success", m.as_str(), EXIT_SUCCESS)
}

/// Where a structured report goes and what it says: in TOON on standard
/// output for agents (in auto mode, when an agent session is detected),
/// else as `Error:` and `Suggestion:` lines on standard error.
pub open spec fn report_for(e: StructuredError, mode: Mode, agent_session: bool) -> (bool, Seq<char>) {
    let to_agent = match mode {
        Mode::Agent => true,
        Mode::Human => false,
        Mode::Auto => agent_session,
    };
    if to_agent {
        (true, toon_text(e) + "\n"@)
    } else {
        (false, "Error: "@ + e.message@ + "\n"@ + match e.suggestion {
            Some(s) => "Suggestion: "@ + s@ + "\n"@,
            None => Seq::empty(),
        })
    }
}

/// Where a structured report goes (`true` for standard output) and its text.
pub fn structured_report(e: &StructuredError, mode: Mode, agent_session: bool) -> (r: (bool, String))
    ensures
        r.0 == report_for(*e, mode, agent_session).0,
        r.1@ == report_for(*e, mode, agent_session).1,
{
    let to_agent = match mode {
        Mode::Agent => true,
        Mode::Human => false,
        Mode::Auto => agent_session,
    };
    if to_agent {
        let mut t = e.to_toon();
        t.append("\n");
        (true, t)
    } else {
        let mut t = owned("Error: ");
        t.append(e.message.as_str());
        t.append("\n");
        match &e.suggestion {
            Some(s) => {
                t.append("Suggestion: ");
                t.append(s.as_str());
                t.append("\n");
            },
            None => {},
        }
        (false, t)
    }
}

/// The presence file written when none exists: one example party with one
/// device and one identifier, commented.
pub const PRESENCE_TEMPLATE: &'static str = "# Presence configuration for proximityd
# This file maps parties, devices, and identifiers for presence detection

# Example party configuration
[[parties]]
name = \"Example Person\"
# Optional location for this party
# location = { building = \"Home\", floor = 1, room = \"Living Room\" }

  [[parties.devices]]
  name = \"Example Device\"
  # Optional device-specific location
  # location = { building = \"Home\", floor = 1, room = \"Living Room\" }

    [[parties.devices.identifiers]]
    type = \"ble_mac\"
    value = \"AA:BB:CC:DD:EE:FF\"
    # Optional notes about this identifier
    # notes = \"Primary phone\"
";

/// The presence file written when none exists (`PRESENCE_TEMPLATE`).
pub fn presence_template() -> (r: &'static str)
    ensures
        r@ == PRESENCE_TEMPLATE@,
{
    PRESENCE_TEMPLATE
}


/// A step of the installation that a dry run only announces.
#[derive(Debug, Clone, Copy, PartialEq, Eq, Structural)]
pub enum DryRunStep {
    /// The installation as a whole.
    Preview,
    /// Writing the shell completions.
    Completions,
    /// Installing the manual pages.
    ManPages,
}

/// The structured note an agent gets for a step of a dry run.
pub fn dry_run_step_note(step: DryRunStep) -> (r: StructuredError)
    ensures
        r.error_type@ == "dry_run"@,
        r.exit_code == EXIT_SUCCESS,
        r.message@ == match step {
            DryRunStep::Preview => "Installation preview - no changes will be made"@,
            DryRunStep::Completions => "Would generate shell completions"@,
            DryRunStep::ManPages => "Would install man pages"@,
        },
        r.suggestion is None,
{
    let m = match step {
        DryRunStep::Preview => "Installation preview - no changes will be made",
        DryRunStep::Completions => "Would generate shell completions",
        DryRunStep::ManPages => "Would install man pages",
    };
    StructuredError::new("dry_run", m, EXIT_SUCCESS)
}

} // verus!
