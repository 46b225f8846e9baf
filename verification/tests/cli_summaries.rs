use proximityd::cli::hooks::{apply_compact_mode, context_format, hook_targets, install_report, ContextFormat, HooksArgs, HooksCommand};
use proximityd::cli::install::{
    creation_failure, dry_run_note, human_report, install_success, not_a_directory, plan_target, preview_message,
    presence_template, structured_report, InstallAction, InstallTarget, PRESENCE_TEMPLATE,
};
use proximityd::cli::mode::Mode;
use proximityd::cli::noargs::{count_occurrences, count_parties_in_content, format_noargs_human, format_noargs_toon, generate_noargs_summary, NoArgsContext, NoArgsSummary};
use proximityd::cli::skill::{create_cli_metadata, generation_options, GenerateSkillCommand, SkillFormat};
use proximityd::error::StructuredError;
use proximityd::hooks::{generate_session_context, get_session_metadata, GitInfo};

fn context(config_dir: bool, daemon: bool) -> NoArgsContext {
    NoArgsContext { cwd: "/test/path".to_string(), is_config_dir: config_dir, is_daemon_running: daemon, config_dir: None }
}

#[test]
fn test_generate_noargs_summary_default() {
    let summary = generate_noargs_summary(&context(false, false), None);
    assert_eq!(summary.context, "default");
    assert_eq!(summary.daemon_status, Some("stopped".to_string()));
    assert!(summary.suggestions.contains(&"proximityd --help".to_string()));
}

#[test]
fn test_generate_noargs_summary_config_dir() {
    let summary = generate_noargs_summary(&context(true, false), None);
    assert_eq!(summary.context, "config_directory");
    assert!(summary.suggestions.contains(&"proximityd parties".to_string()));
    assert!(summary.parties_count.is_some());
}

#[test]
fn noargs_summary_counts_parties() {
    let content = "[[parties]]\nname = \"a\"\n[[parties]]\nname = \"b\"\n[[parties.devices]]\n";
    let summary = generate_noargs_summary(&context(true, true), Some(content));
    assert_eq!(summary.parties_count, Some(2));
    assert_eq!(summary.summary, "In config directory with 2 parties");
    assert_eq!(summary.daemon_status, None);
    assert_eq!(summary.suggestions.len(), 4);
}

#[test]
fn test_generate_noargs_summary_daemon_running() {
    let summary = generate_noargs_summary(&context(false, true), None);
    assert_eq!(summary.context, "daemon_running");
    assert_eq!(summary.daemon_status, Some("active".to_string()));
}

#[test]
fn occurrences_do_not_overlap() {
    assert_eq!(count_occurrences("aaaa", "aa"), 2);
    assert_eq!(count_occurrences("abc", ""), 0);
    assert_eq!(count_occurrences("[[parties]][[parties]]", "[[parties]]"), 2);
    assert_eq!(count_parties_in_content(""), 0);
}

fn sample_summary() -> NoArgsSummary {
    NoArgsSummary {
        context: "default".to_string(),
        summary: "Test summary".to_string(),
        suggestions: vec!["cmd1".to_string(), "cmd2".to_string()],
        daemon_status: Some("stopped".to_string()),
        parties_count: None,
    }
}

#[test]
fn test_format_noargs_human() {
    let formatted = format_noargs_human(&sample_summary());
    assert!(formatted.contains("Test summary"));
    assert!(formatted.contains("Daemon Status: stopped"));
    assert!(formatted.contains("cmd1"));
    assert!(formatted.contains("--help"));
}

#[test]
fn format_noargs_human_exact() {
    let mut s = sample_summary();
    s.parties_count = Some(3);
    assert_eq!(
        format_noargs_human(&s),
        "Test summary\n\nDaemon Status: stopped\n\nConfigured Parties: 3\n\nCommon Commands:\n  cmd1\n  cmd2\n\nUse --help for detailed usage information\n"
    );
}

#[test]
fn test_format_noargs_toon() {
    let formatted = format_noargs_toon(&sample_summary());
    assert!(formatted.contains("context:default"));
    assert!(formatted.contains("summary:Test summary"));
    assert!(formatted.contains("daemon_status:stopped"));
    assert!(formatted.contains("suggestions:"));
}

#[test]
fn format_noargs_toon_exact() {
    assert_eq!(
        format_noargs_toon(&sample_summary()),
        "context:default\nsummary:Test summary\ndaemon_status:stopped\nsuggestions: cmd1 cmd2\n"
    );
}

#[test]
fn test_session_metadata() {
    let metadata = get_session_metadata("0.1.0", "linux");
    assert!(!metadata.version.is_empty());
    assert!(!metadata.os.is_empty());
    assert!(metadata.session_id.is_some());
    assert_eq!(metadata.session_id.unwrap().len(), 36);
    assert!(!metadata.start_time.is_empty());
}

#[test]
fn session_context_compact_mode() {
    let git = GitInfo {
        root: "/repo".to_string(),
        branch: Some("main".to_string()),
        commit: Some("abc".to_string()),
        remote: Some("git@example.com:x.git".to_string()),
    };
    let ctx = generate_session_context("/repo/sub", Some(git), "0.1.0", "linux");
    assert_eq!(ctx.cwd, "/repo/sub");
    assert_eq!(ctx.config.device_count, 0);
    let compact = apply_compact_mode(ctx);
    let g = compact.git.unwrap();
    assert_eq!(g.remote, None);
    assert_eq!(g.branch, Some("main".to_string()));
    assert_eq!(compact.config.scan_interval, None);
}

#[test]
fn hooks_command_choices() {
    let args = HooksArgs { command: HooksCommand::SessionContext { format: "toon".to_string(), compact: true } };
    assert!(matches!(args.command, HooksCommand::SessionContext { compact: true, .. }));
    assert_eq!(context_format("toon"), Ok(ContextFormat::Toon));
    assert_eq!(context_format("json"), Ok(ContextFormat::Json));
    assert_eq!(context_format("yaml"), Err("Unsupported format: yaml. Use 'toon' or 'json'".to_string()));
    assert_eq!(hook_targets(false, false, true), (true, true));
    assert_eq!(hook_targets(true, false, false), (true, false));
    assert_eq!(install_report(&vec![]), None);
    assert_eq!(install_report(&vec!["Alpha", "Beta"]), Some("Successfully installed hooks for: Alpha, Beta".to_string()));
}

#[test]
fn install_plans_and_reports() {
    assert_eq!(plan_target(true, true), InstallAction::KeepExisting);
    assert_eq!(plan_target(false, true), InstallAction::Preview);
    assert_eq!(plan_target(false, false), InstallAction::Create);
    assert_eq!(preview_message(InstallTarget::ConfigFile, "/c/config.toml"), "Would create config file: /c/config.toml");
    assert_eq!(human_report(InstallTarget::ConfigDir, InstallAction::Create, "/c"), vec!["Created config directory: /c".to_string()]);
    assert_eq!(
        human_report(InstallTarget::PresenceFile, InstallAction::KeepExisting, "/c/p.toml"),
        vec!["Presence file exists: /c/p.toml".to_string(), "  (Not overwriting existing file)".to_string()]
    );
    assert_eq!(
        human_report(InstallTarget::ConfigDir, InstallAction::Preview, "/c"),
        vec!["DRY RUN: Would create config directory: /c".to_string()]
    );
    let e = creation_failure(InstallTarget::ConfigFile, "/c/config.toml");
    assert_eq!(e.message, "Failed to write config.toml to /c/config.toml");
    assert_eq!(e.exit_code, 6);
    let v = not_a_directory("/c");
    assert_eq!(v.error_type, "validation_error");
    assert_eq!(v.exit_code, 4);
    assert_eq!(dry_run_note(InstallTarget::ConfigDir, "/c").error_type, "dry_run");
    assert_eq!(install_success("/c").message, "Installation complete. Config directory: /c");
}

#[test]
fn structured_report_channels() {
    let e = StructuredError::new("t", "m", 1).with_suggestion("s");
    assert_eq!(structured_report(&e, Mode::Human, true), (false, "Error: m\nSuggestion: s\n".to_string()));
    assert_eq!(structured_report(&e, Mode::Agent, false), (true, format!("{}\n", e.to_toon())));
    assert_eq!(structured_report(&e, Mode::Auto, true).0, true);
    assert_eq!(structured_report(&e, Mode::Auto, false).0, false);
}

#[test]
fn skill_options_and_metadata() {
    let cmd = GenerateSkillCommand { output: None, include_live_state: false, interactive: false, format: "Markdown".to_string() };
    let opts = generation_options(&cmd).unwrap();
    assert_eq!(opts.format, SkillFormat::Markdown);
    assert!(opts.non_interactive);
    let bad = GenerateSkillCommand { output: None, include_live_state: true, interactive: true, format: "yaml".to_string() };
    assert_eq!(generation_options(&bad), Err("Invalid format: yaml. Use 'markdown' or 'json'".to_string()));
    let meta = create_cli_metadata("1.2.3", "Install hooks", "proximityd hooks install-agent-hooks --all");
    assert_eq!(meta.name, "proximityd");
    assert_eq!(meta.version, "1.2.3");
    assert_eq!(meta.commands.len(), 11);
    assert_eq!(meta.commands[9].name, "hooks");
    assert_eq!(meta.commands[9].subcommands.len(), 2);
    assert_eq!(meta.commands[10].subcommands[1].name, "check");
    assert_eq!(meta.commands[9].subcommands[1].description, "Install hooks");
}

#[test]
fn presence_template_is_the_example_file() {
    let t = presence_template();
    assert_eq!(t, PRESENCE_TEMPLATE);
    assert!(t.starts_with("# Presence configuration for proximityd\n"));
    assert!(t.contains("[[parties]]\nname = \"Example Person\""));
    assert!(t.contains("value = \"AA:BB:CC:DD:EE:FF\""));
}
