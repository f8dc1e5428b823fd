use boots_core::samples::telemetry::healthcheck::handlers;
use boots_core::samples::telemetry::log::{LogConfig, LogLevel};
use boots_core::samples::telemetry::trace::{
    format_id, generate_id, init_tracing, span, span_recorded, Span, SpanContext,
};
use boots_core::samples::telemetry::{HealthCheck, Probe};

#[test]
fn test_log_level_from_str() {
    assert_eq!("info".parse::<LogLevel>().unwrap(), LogLevel::Info);
    assert_eq!("DEBUG".parse::<LogLevel>().unwrap(), LogLevel::Debug);
    assert_eq!("Warning".parse::<LogLevel>().unwrap(), LogLevel::Warn);
}

#[test]
fn test_log_config_default() {
    let config = LogConfig::default();
    assert_eq!(config.level, LogLevel::Info);
    assert!(!config.json);
}

#[test]
fn test_span_context_new() {
    let ctx = SpanContext::new_root();
    assert!(!ctx.trace_id.is_empty());
    assert!(!ctx.span_id.is_empty());
    assert!(ctx.parent_id.is_none());
}

#[test]
fn test_span_context_child() {
    let parent = SpanContext::new_root();
    let child = parent.child();

    assert_eq!(child.trace_id, parent.trace_id);
    assert_ne!(child.span_id, parent.span_id);
    assert_eq!(child.parent_id, Some(parent.span_id));
}

#[test]
fn test_span_function() {
    let result = span("test_operation", || 42);
    assert_eq!(result, 42);
}

#[test]
fn test_health_check_default() {
    let health = HealthCheck::new();
    assert!(health.is_alive());
    assert!(!health.is_ready());
    assert!(!health.is_started());
}

#[test]
fn test_set_ready() {
    let mut health = HealthCheck::new();
    health.set_ready(true);
    assert!(health.is_ready());
}

#[test]
fn test_set_unhealthy() {
    let mut health = HealthCheck::new();
    health.set_unhealthy();
    assert!(!health.is_alive());
}

#[test]
fn test_handlers() {
    let mut health = HealthCheck::new();
    health.set_ready(true);

    let (status, _) = handlers::liveness(&health);
    assert_eq!(status, 200);

    let (status, _) = handlers::readiness(&health);
    assert_eq!(status, 200);
}

#[test]
fn log_levels_by_name() {
    assert_eq!(LogLevel::parse("trace").unwrap(), LogLevel::Trace);
    assert_eq!(LogLevel::parse("warn").unwrap(), LogLevel::Warn);
    assert_eq!(LogLevel::parse("ERROR").unwrap(), LogLevel::Error);
    assert_eq!(LogLevel::parse("loud").unwrap_err(), "Unknown log level: loud");
    assert_eq!(LogLevel::from_lowercase("info", "Info").unwrap(), LogLevel::Info);
    assert_eq!(LogLevel::Warn.filter(), "warn");
    assert_eq!(LogLevel::Trace.filter(), "trace");
}

#[test]
fn log_config_from_settings() {
    let default = LogConfig::default();
    assert!(!default.with_file);
    assert!(default.with_target);

    let unset = LogConfig::from_settings(None, None);
    assert_eq!(unset.level, LogLevel::Info);
    assert!(!unset.json);
    assert!(unset.with_target && !unset.with_file);

    let set = LogConfig::from_settings(Some("Debug"), Some("JSON"));
    assert_eq!(set.level, LogLevel::Debug);
    assert!(set.json);

    let odd = LogConfig::from_settings(Some("my_crate=debug"), Some("pretty"));
    assert_eq!(odd.level, LogLevel::Info);
    assert!(!odd.json);

    let given = LogConfig::from_values(Some(Ok(LogLevel::Error)), Some("json"));
    assert_eq!(given.level, LogLevel::Error);
    assert!(given.json);
    let upper = LogConfig::from_values(Some(Err("x".to_string())), Some("JSON"));
    assert_eq!(upper.level, LogLevel::Info);
    assert!(!upper.json);
}

#[test]
fn ids_are_thirty_two_hex_digits() {
    assert_eq!(format_id(0, 0), "00000000000000000000000000000000");
    assert_eq!(format_id(255, 0xabc), "00000000000000ff0000000000000abc");
    assert_eq!(format_id(u64::MAX, 0x0123_4567_89ab_cdef), "ffffffffffffffff0123456789abcdef");
    let id = generate_id();
    assert_eq!(id.len(), 32);
    assert!(id.chars().all(|c| c.is_ascii_hexdigit() && !c.is_ascii_uppercase()));
}

#[test]
fn spans_and_their_children() {
    let mut root = Span::new("root");
    assert_eq!(root.name, "root");
    assert!(root.context.parent_id.is_none());
    root.set_attribute("k", "v");
    let child = root.child("leaf");
    assert_eq!(child.name, "leaf");
    assert_eq!(child.context.trace_id, root.context.trace_id);
    assert_eq!(child.context.parent_id, Some(root.context.span_id.clone()));
    let _ = child.elapsed();
    let record = child.end();
    assert_eq!(record.name, "leaf");
    assert_eq!(record.trace_id, root.context.trace_id);
    assert_eq!(record.parent_id, Some(root.context.span_id.clone()));
    assert!(record.duration_ms < 60_000);
    assert!(init_tracing().is_ok());
}

#[test]
fn probes_and_their_json() {
    let mut health = HealthCheck::default();
    assert!(health.check(Probe::Liveness));
    assert!(!health.check(Probe::Readiness));
    assert!(!health.check(Probe::Startup));
    assert_eq!(health.to_json(Probe::Liveness), "{\"healthy\": true, \"probe\": \"Liveness\"}");
    assert_eq!(health.to_json(Probe::Readiness), "{\"healthy\": false, \"probe\": \"Readiness\"}");
    health.set_started(true);
    assert!(health.is_started());
    assert_eq!(health.to_json(Probe::Startup), "{\"healthy\": true, \"probe\": \"Startup\"}");
    health.set_ready(true);
    health.set_ready(false);
    assert!(!health.is_ready());
    assert!(health.is_alive());
}

#[test]
fn probe_responses() {
    let mut health = HealthCheck::new();
    assert_eq!(
        handlers::readiness(&health),
        (503, "{\"healthy\": false, \"probe\": \"Readiness\"}".to_string())
    );
    assert_eq!(
        handlers::startup(&health),
        (503, "{\"healthy\": false, \"probe\": \"Startup\"}".to_string())
    );
    health.set_started(true);
    assert_eq!(handlers::startup(&health).0, 200);
    health.set_unhealthy();
    assert_eq!(
        handlers::liveness(&health),
        (503, "{\"healthy\": false, \"probe\": \"Liveness\"}".to_string())
    );
}

fn is_lower_hex(id: &str) -> bool {
    id.len() == 32 && id.chars().all(|c| c.is_ascii_digit() || ('a'..='f').contains(&c))
}

#[test]
fn ids_of_contexts_are_hexadecimal() {
    let root = SpanContext::new_root();
    assert!(is_lower_hex(&root.trace_id));
    assert!(is_lower_hex(&root.span_id));
    let child = root.child();
    assert!(is_lower_hex(&child.span_id));
    assert_eq!(child.trace_id, root.trace_id);
}

#[test]
fn a_recorded_span_hands_its_record_back() {
    let (result, record) = span_recorded("job", || 6 * 7);
    assert_eq!(result, 42);
    assert_eq!(record.name, "job");
    assert!(record.parent_id.is_none());
    assert!(is_lower_hex(&record.trace_id));
    assert!(is_lower_hex(&record.span_id));
}

#[test]
fn a_span_shows_its_name_and_context() {
    let root = Span::new("root");
    assert_eq!(root.name(), "root");
    assert!(root.context().parent_id.is_none());
    let leaf = root.child("leaf");
    assert_eq!(leaf.name(), "leaf");
    assert_eq!(leaf.context().trace_id, root.context().trace_id);
    assert_eq!(leaf.context().parent_id.as_deref(), Some(root.context().span_id.as_str()));
}
