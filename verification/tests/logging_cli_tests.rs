use aspy::cli::{Cli, CliAction, Commands};
use aspy::logging::{strip_debug_quotes, EventKind, LogBuffer, LogEntry, LogLevel, LoggingProcessor, ProcessContext, MAX_LOG_ENTRIES};

fn entry(i: i64) -> LogEntry {
    LogEntry { timestamp_ms: i, level: LogLevel::Info, target: "aspy".to_string(), message: format!("m{}", i) }
}

#[test]
fn log_levels_have_display_names() {
    assert_eq!(LogLevel::Error.as_str(), "ERROR");
    assert_eq!(LogLevel::Warn.as_str(), "WARN");
    assert_eq!(LogLevel::Info.as_str(), "INFO");
    assert_eq!(LogLevel::Debug.as_str(), "DEBUG");
    assert_eq!(LogLevel::Trace.as_str(), "TRACE");
}

#[test]
fn log_buffer_keeps_the_newest_entries() {
    let mut b = LogBuffer::new();
    for i in 0..(MAX_LOG_ENTRIES as i64 + 3) {
        b.add(entry(i));
    }
    assert_eq!(b.len(), MAX_LOG_ENTRIES);
    assert_eq!(b.get(0).unwrap().timestamp_ms, 3);
    assert_eq!(b.get(MAX_LOG_ENTRIES - 1).unwrap().message, format!("m{}", MAX_LOG_ENTRIES + 2));
    assert!(b.get(MAX_LOG_ENTRIES).is_none());
    b.clear();
    assert_eq!(b.len(), 0);
}

#[test]
fn debug_quotes_are_stripped() {
    assert_eq!(strip_debug_quotes("\"hello\""), "hello");
    assert_eq!(strip_debug_quotes("\"\""), "");
    assert_eq!(strip_debug_quotes("plain"), "plain");
    assert_eq!(strip_debug_quotes("\"half"), "\"half");
}

#[test]
fn event_kinds_are_named() {
    let p = LoggingProcessor::new();
    assert_eq!(p.name(), "logging");
    assert_eq!(p.event_type(EventKind::ToolCall), "ToolCall");
    assert_eq!(p.event_type(EventKind::ContextEstimate), "ContextEstimate");
    assert_eq!(EventKind::RateLimitUpdate.name(), "RateLimitUpdate");
}

#[test]
fn process_context_holds_its_ids() {
    let c = ProcessContext::new(Some("s1"), None, true);
    assert_eq!(c.session_id.as_deref(), Some("s1"));
    assert!(c.user_id.is_none());
    assert!(c.is_demo);
}

#[test]
fn cli_actions_follow_flag_precedence() {
    let none = Cli { command: None };
    assert_eq!(none.action(), CliAction::Run);
    assert!(!none.handled());
    let c = Cli {
        command: Some(Commands::Config { show: true, reset: true, edit: false, update: false, path: false, init: true }),
    };
    assert_eq!(c.action(), CliAction::ConfigShow);
    assert!(c.handled());
    let p = Cli {
        command: Some(Commands::Config { show: true, reset: false, edit: false, update: false, path: true, init: false }),
    };
    assert_eq!(p.action(), CliAction::ConfigPath);
    let u = Cli {
        command: Some(Commands::Config { show: false, reset: false, edit: false, update: false, path: false, init: false }),
    };
    assert_eq!(u.action(), CliAction::ConfigUsage);
    let e = Cli { command: Some(Commands::Embeddings { status: false, reindex: true }) };
    assert_eq!(e.action(), CliAction::EmbeddingsReindex);
    let eu = Cli { command: Some(Commands::Embeddings { status: false, reindex: false }) };
    assert_eq!(eu.action(), CliAction::EmbeddingsUsage);
}

#[test]
fn session_ids_carry_four_hex_digits() {
    assert_eq!(aspy::logging::session_id("20240102-030405", 0x1234_abcd), "20240102-030405-abcd");
    assert_eq!(aspy::logging::session_id("20240102-030405", 0x0007), "20240102-030405-0007");
    assert_eq!(aspy::logging::session_id("x", u64::MAX), "x-ffff");
    let r: u64 = 0xdead_beef_0042_f00d;
    assert_eq!(aspy::logging::session_id("s", r), format!("s-{:04x}", r & 0xFFFF));
}

#[test]
fn log_buffer_copies_entries_oldest_first() {
    let mut b = aspy::logging::LogBuffer::new();
    for i in 0..3 {
        b.add(aspy::logging::LogEntry {
            timestamp_ms: i,
            level: aspy::logging::LogLevel::Info,
            target: "aspy::proxy".to_string(),
            message: format!("m{}", i),
        });
    }
    let all = b.get_all();
    assert_eq!(all.len(), 3);
    assert_eq!(all[0].message, "m0");
    assert_eq!(all[2].timestamp_ms, 2);
    assert_eq!(all[1].target, "aspy::proxy");
    b.clear();
    assert!(b.get_all().is_empty());
}
