use proximityd::cli::completion::{completion_shell, CompletionArgs, CompletionShell};
use proximityd::cli::confirm::{confirm_without_prompt, is_affirmative};
use proximityd::cli::glob::{expand_glob, expand_inputs, expand_with_answers, is_glob_pattern, ExpandError};
use std::path::PathBuf;

#[test]
fn test_completion_args_parsing() {
    let args = CompletionArgs { shell: "bash".to_string(), output: None };
    assert_eq!(args.shell, "bash");
    assert!(args.output.is_none());
}

#[test]
fn test_completion_args_with_output() {
    let args = CompletionArgs { shell: "zsh".to_string(), output: Some(PathBuf::from("/tmp/completion.sh")) };
    assert_eq!(args.shell, "zsh");
    assert!(args.output.is_some());
}

#[test]
fn test_completion_args_case_insensitive() {
    let args = CompletionArgs { shell: "BASH".to_string(), output: None };
    assert_eq!(args.shell.to_lowercase(), "bash");
}

#[test]
fn completion_shell_names() {
    assert_eq!(completion_shell("bash"), Ok(CompletionShell::Bash));
    assert_eq!(completion_shell("ZSH"), Ok(CompletionShell::Zsh));
    assert_eq!(completion_shell("Fish"), Ok(CompletionShell::Fish));
    assert_eq!(
        completion_shell("powershell"),
        Err("Unsupported shell: powershell. Supported shells: bash, zsh, fish".to_string())
    );
}

#[test]
fn test_confirm_force_returns_true() {
    assert_eq!(confirm_without_prompt(true, false), Some(true));
}

#[test]
fn test_confirm_quiet_returns_false() {
    assert_eq!(confirm_without_prompt(false, true), Some(false));
}

#[test]
fn test_confirm_force_takes_precedence_over_quiet() {
    assert_eq!(confirm_without_prompt(true, true), Some(true));
}

#[test]
fn confirm_asks_otherwise() {
    assert_eq!(confirm_without_prompt(false, false), None);
}

#[test]
fn affirmative_answers() {
    assert!(is_affirmative("y"));
    assert!(is_affirmative("  YES \n"));
    assert!(is_affirmative("Y\n"));
    assert!(!is_affirmative("no"));
    assert!(!is_affirmative(""));
    assert!(!is_affirmative("yess"));
}

#[test]
fn test_is_glob_pattern() {
    assert!(is_glob_pattern("*.txt"));
    assert!(is_glob_pattern("test?"));
    assert!(is_glob_pattern("**/*.rs"));
    assert!(!is_glob_pattern("file.txt"));
    assert!(!is_glob_pattern("path/to/file"));
}

#[test]
fn test_expand_inputs_literal() {
    let inputs = vec!["file1.txt".to_string(), "file2.txt".to_string()];
    let paths = expand_inputs(&inputs).unwrap();
    assert_eq!(paths.len(), 2);
    assert_eq!(PathBuf::from(&paths[0]), PathBuf::from("file1.txt"));
    assert_eq!(PathBuf::from(&paths[1]), PathBuf::from("file2.txt"));
}

#[test]
fn test_expand_inputs_stdin() {
    let inputs = vec!["-".to_string()];
    let paths = expand_inputs(&inputs).unwrap();
    assert_eq!(paths.len(), 1);
    assert_eq!(PathBuf::from(&paths[0]), PathBuf::from("-"));
}

#[test]
fn expand_glob_rejects_bad_pattern() {
    assert_eq!(expand_glob("[a"), Err(ExpandError::InvalidPattern("[a".to_string())));
    let inputs = vec!["ok.txt".to_string(), "bad[*".to_string()];
    assert!(expand_inputs(&inputs).is_err());
    assert_eq!(ExpandError::InvalidPattern("x".to_string()).message(), "Failed to read glob pattern");
}


#[test]
fn test_generate_completion_unsupported_shell() {
    let args = CompletionArgs { shell: "powershell".to_string(), output: None };
    let result = completion_shell(&args.shell);
    assert!(result.is_err());
    assert!(result.unwrap_err().contains("Unsupported shell"));
}

#[test]
fn expansion_with_glob_answers() {
    let inputs = vec!["a.txt".to_string(), "*.rs".to_string(), "-".to_string(), "b?".to_string()];
    let answers = vec![
        None,
        Some(vec![Some("x.rs".to_string()), None, Some("y.rs".to_string())]),
        None,
        Some(vec![]),
    ];
    assert_eq!(
        expand_with_answers(&inputs, answers),
        Ok(vec!["a.txt".to_string(), "x.rs".to_string(), "y.rs".to_string(), "-".to_string()])
    );
    let answers = vec![None, None, None, Some(vec![Some("bb".to_string())])];
    assert_eq!(expand_with_answers(&inputs, answers), Err(ExpandError::InvalidPattern("*.rs".to_string())));
}
