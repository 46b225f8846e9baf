use proximityd::cli::limits::{CpuLimit, MemoryLimit};
use proximityd::cli::mode::{agent_session_from, detect_mode, output_format_from_flags, Mode, OutputFormat};
use proximityd::cli::pager::{choose_pager, line_count, should_page_output, terminal_height_from};

#[test]
fn test_memory_limit_check_within_limit() {
    let limit = MemoryLimit::new(Some(1000));
    assert!(limit.check(500).is_ok());
}

#[test]
fn test_memory_limit_check_exceeds_limit() {
    let limit = MemoryLimit::new(Some(1000));
    assert!(limit.check(1500).is_err());
}

#[test]
fn test_memory_limit_no_limit() {
    let limit = MemoryLimit::new(None);
    assert!(limit.check(u64::MAX).is_ok());
}

#[test]
fn test_memory_limit_add() {
    let mut limit = MemoryLimit::new(Some(1000));
    limit.add(500);
    assert_eq!(limit.current(), 500);
    limit.add(300);
    assert_eq!(limit.current(), 800);
}

#[test]
fn memory_limit_counts_what_was_added() {
    let mut limit = MemoryLimit::new(Some(1000));
    limit.add(600);
    assert!(limit.check(400).is_ok());
    assert!(limit.check(401).is_err());
}

#[test]
fn test_memory_limit_is_enabled() {
    let limit_with = MemoryLimit::new(Some(1000));
    assert!(limit_with.is_enabled());
    let limit_without = MemoryLimit::new(None);
    assert!(!limit_without.is_enabled());
}

#[test]
fn test_cpu_limit_effective_parallelism() {
    let limit = CpuLimit::new(Some(2));
    assert_eq!(limit.effective_parallelism(8), 2);
}

#[test]
fn cpu_limit_never_raises_parallelism() {
    let limit = CpuLimit::new(Some(16));
    assert_eq!(limit.effective_parallelism(8), 8);
}

#[test]
fn test_cpu_limit_no_limit() {
    let limit = CpuLimit::new(None);
    assert_eq!(limit.effective_parallelism(8), 8);
}

#[test]
fn test_cpu_limit_is_enabled() {
    let limit_with = CpuLimit::new(Some(2));
    assert!(limit_with.is_enabled());
    let limit_without = CpuLimit::new(None);
    assert!(!limit_without.is_enabled());
}

#[test]
fn test_detect_mode_explicit_agent() {
    let mode = detect_mode(Mode::Agent, false, true);
    assert_eq!(mode, Mode::Agent);
}

#[test]
fn test_detect_mode_explicit_human() {
    let mode = detect_mode(Mode::Human, true, false);
    assert_eq!(mode, Mode::Human);
}

#[test]
fn test_detect_mode_auto() {
    // In a test environment (no terminal, no agent session) auto picks agent mode.
    let mode = detect_mode(Mode::Auto, false, false);
    assert_eq!(mode, Mode::Agent);
}

#[test]
fn test_detect_mode_auto_with_agent_session() {
    assert_eq!(detect_mode(Mode::Auto, true, true), Mode::Agent);
}

#[test]
fn detect_mode_auto_on_terminal_is_human() {
    assert_eq!(detect_mode(Mode::Auto, false, true), Mode::Human);
}

#[test]
fn agent_session_from_any_variable() {
    assert!(agent_session_from(true, false, false));
    assert!(agent_session_from(false, true, false));
    assert!(agent_session_from(false, false, true));
    assert!(!agent_session_from(false, false, false));
}

#[test]
fn output_format_choices() {
    assert_eq!(output_format_from_flags(false, false, Some("JSON"), Mode::Agent, false), Ok(OutputFormat::Json));
    assert_eq!(output_format_from_flags(true, false, Some("human"), Mode::Agent, false), Ok(OutputFormat::Human));
    assert_eq!(output_format_from_flags(false, false, Some("xml"), Mode::Agent, false), Err(()));
    assert_eq!(output_format_from_flags(true, true, None, Mode::Human, false), Ok(OutputFormat::Toon));
    assert_eq!(output_format_from_flags(false, true, None, Mode::Agent, false), Ok(OutputFormat::Json));
    assert_eq!(output_format_from_flags(false, false, None, Mode::Agent, false), Ok(OutputFormat::Toon));
    assert_eq!(output_format_from_flags(false, false, None, Mode::Human, true), Ok(OutputFormat::Human));
    assert_eq!(output_format_from_flags(false, false, None, Mode::Auto, true), Ok(OutputFormat::Toon));
    assert_eq!(output_format_from_flags(false, false, None, Mode::Auto, false), Ok(OutputFormat::Human));
}

#[test]
fn test_should_page_output_no_pager_flag() {
    let content = "line\n".repeat(100);
    assert!(!should_page_output(&content, true, false, true, true, 24));
}

#[test]
fn test_should_page_output_quiet_mode() {
    let content = "line\n".repeat(100);
    assert!(!should_page_output(&content, false, true, true, true, 24));
}

#[test]
fn test_should_page_output_short_content() {
    assert!(!should_page_output("short", false, false, true, true, 24));
}

#[test]
fn test_should_page_output_long_content() {
    let content = "line\n".repeat(100);
    assert!(should_page_output(&content, false, false, true, true, 24));
    assert!(!should_page_output(&content, false, false, false, true, 24));
    assert!(!should_page_output(&content, false, false, true, false, 24));
}

#[test]
fn line_count_matches_str_lines() {
    for s in ["", "a", "a\n", "a\nb", "\n", "\n\n", "a\r\nb\r\n", "x\n\ny"] {
        assert_eq!(line_count(s), s.lines().count(), "{:?}", s);
    }
}

#[test]
fn pager_choice() {
    assert_eq!(choose_pager(Some("most".to_string()), true, true), Some("most".to_string()));
    assert_eq!(choose_pager(Some(String::new()), true, true), Some("less".to_string()));
    assert_eq!(choose_pager(None, false, true), Some("more".to_string()));
    assert_eq!(choose_pager(None, false, false), None);
}

#[test]
fn terminal_height_parsing() {
    assert_eq!(terminal_height_from(Some("50 120\n")), 50);
    assert_eq!(terminal_height_from(Some("  7 80")), 7);
    assert_eq!(terminal_height_from(Some("+9 80")), 9);
    assert_eq!(terminal_height_from(Some("x 80")), 24);
    assert_eq!(terminal_height_from(Some("")), 24);
    assert_eq!(terminal_height_from(None), 24);
}

#[test]
fn memory_check_past_u64_is_refused() {
    let mut limit = MemoryLimit::new(Some(1000));
    limit.add(u64::MAX - 1);
    assert!(limit.check(5).is_err());
    let unlimited = MemoryLimit::new(None);
    assert!(unlimited.check(u64::MAX).is_ok());
    assert!(MemoryLimit::new(Some(1000)).check(500).is_ok());
    assert!(MemoryLimit::new(Some(1000)).check(1500).is_err());
}
