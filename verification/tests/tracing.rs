use polymarket_v2_backend::tracing::{extract_trace_context, generate_run_id, mix_run_id, TraceContext, TraceLog};

#[test]
fn trace_log_builders() {
    let log = TraceLog::new("INFO", "started").with_run_id(7).with_bot_id(3).with_mode("paper").with_user_id(9).with_duration_ms(12);
    assert_eq!(log.level, "INFO");
    assert_eq!(log.message, "started");
    assert_eq!(log.run_id, Some(7));
    assert_eq!(log.bot_id, Some(3));
    assert_eq!(log.mode.as_deref(), Some("paper"));
    assert_eq!(log.user_id, Some(9));
    assert_eq!(log.duration_ms, Some(12));
    assert!(!log.timestamp.is_empty());
}

#[test]
fn trace_context_builders() {
    let ctx = TraceContext::new().with_run_id(1).with_bot_id(-2).with_mode("live");
    assert_eq!(ctx.run_id, Some(1));
    assert_eq!(ctx.bot_id, Some(-2));
    assert_eq!(ctx.mode.as_deref(), Some("live"));
    let d = TraceContext::default();
    assert!(d.run_id.is_none() && d.bot_id.is_none() && d.mode.is_none());
}

#[test]
fn trace_context_from_headers() {
    let ctx = extract_trace_context(Some("123"), Some("-5"), Some("paper"));
    assert_eq!(ctx.run_id, Some(123));
    assert_eq!(ctx.bot_id, Some(-5));
    assert_eq!(ctx.mode.as_deref(), Some("paper"));
    let ctx = extract_trace_context(Some("abc"), Some("9999999999999999999999"), None);
    assert!(ctx.run_id.is_none());
    assert!(ctx.bot_id.is_none());
    assert!(ctx.mode.is_none());
}

#[test]
fn run_id_mixing() {
    assert_eq!(mix_run_id(0, 5), 5);
    assert_eq!(mix_run_id(1, 0), 14695981039346656037);
    assert_eq!(mix_run_id(2, 0), 14695981039346656037u64.wrapping_mul(2));
    assert_eq!(mix_run_id(1u128 << 64, 3), 3);
    let a = generate_run_id();
    let b = generate_run_id();
    assert_ne!(a, b);
}
