use signpost::categories;
use signpost::{
    close_span, global_logger, parse_instrument_args, qualified_name, native_text,
    has_interior_nul, is_message_field, ActiveInterval, ArgToken, ArgsError, Category, Emission,
    GlobalConfig, MessageVisitor, OsLog, Signpost, SignpostError, SignpostId, SignpostScope,
    SignpostType, TracingSubscriber, SIGNPOST_ID_INVALID, SIGNPOST_ID_NULL,
};

fn test_log() -> OsLog {
    OsLog::new("com.example.app".to_string(), categories::POINTS_OF_INTEREST)
}

#[test]
fn test_configuration() {
    let mut config = GlobalConfig::new();
    assert!(Signpost::configure(&mut config, "test_app", categories::POINTS_OF_INTEREST).is_ok());
    let second = Signpost::configure(&mut config, "another_app", categories::POINTS_OF_INTEREST);
    assert_eq!(second.err(), Some(SignpostError::AlreadyConfigured));
}

#[test]
fn test_bindgen_integration() {
    let id = SignpostId::from_raw(42);
    assert_eq!(id.raw(), 42u64);

    assert_eq!(SignpostType::Event.native_code(), 0u8);
    assert_eq!(SignpostType::Event.native_code(), 0);
    assert_eq!(SignpostType::IntervalBegin.native_code(), 1);
    assert_eq!(SignpostType::IntervalEnd.native_code(), 2);
}

#[test]
fn test_error_types() {
    let error = SignpostError::NotConfigured;
    let error_msg = error.message();
    assert!(error_msg.contains("initialized"));

    let error = SignpostError::InvalidScope;
    assert_eq!(error.message(), "Invalid scope for operation");

    let error = SignpostError::InvalidId;
    assert_eq!(error.message(), "Invalid signpost ID");
}

#[test]
fn test_event_functions() {
    let mut config = GlobalConfig::new();
    let _ = Signpost::configure(&mut config, "test_events", categories::POINTS_OF_INTEREST);
    let logger = global_logger(&config).unwrap();

    let name = qualified_name("signpost_tests", "Test Event");
    let event = logger.event(true, SignpostId::from_raw(1), &name).unwrap();
    assert_eq!(event.name, "signpost_tests::Test Event");
    assert_eq!(event.message, None);

    let name = qualified_name("signpost_tests", "Test Event With Message");
    let event = logger
        .event_with_message(true, SignpostId::from_raw(2), &name, "This is a test message")
        .unwrap();
    assert_eq!(event.kind, SignpostType::Event);
    assert_eq!(event.message.as_deref(), Some("This is a test message"));
}

#[test]
fn already_configured_message() {
    assert_eq!(SignpostError::AlreadyConfigured.message(), "Signpost already configured");
    assert_eq!(SignpostError::NotConfigured.message(), "Signpost not initialized");
}

#[test]
fn raw_round_trip() {
    for x in [1u64, 42, 0x8000_0000_0000_0000, u64::MAX - 1] {
        assert_eq!(SignpostId::from_raw(x).raw(), x);
        assert!(SignpostId::from_raw(x).is_valid());
        assert_eq!(SignpostId::try_from_raw(x), Ok(SignpostId::from_raw(x)));
    }
}

#[test]
fn reserved_ids_are_invalid() {
    assert_eq!(SIGNPOST_ID_NULL, 0);
    assert_eq!(SIGNPOST_ID_INVALID, u64::MAX);
    assert!(!SignpostId::from_raw(0).is_valid());
    assert!(!SignpostId::from_raw(u64::MAX).is_valid());
    assert_eq!(SignpostId::try_from_raw(0), Err(SignpostError::InvalidId));
    assert_eq!(SignpostId::try_from_raw(u64::MAX), Err(SignpostError::InvalidId));
}

#[test]
fn pointer_id_refused_across_processes() {
    let log = test_log().with_scope(SignpostScope::System);
    assert_eq!(SignpostId::from_pointer(&log, 0x1000), Err(SignpostError::InvalidScope));
}

#[test]
fn pointer_id_within_process() {
    let log = test_log();
    assert_eq!(log.scope(), SignpostScope::Process);
    assert_eq!(SignpostId::from_pointer(&log, 0x1000), Ok(SignpostId::from_raw(0x1000)));
    let log = test_log().with_scope(SignpostScope::Thread);
    assert_eq!(SignpostId::from_pointer(&log, 7), Ok(SignpostId::from_raw(7)));
}

#[test]
fn logger_accessors() {
    let log = OsLog::new("com.example.net".to_string(), categories::DYNAMIC_TRACING);
    assert_eq!(log.subsystem(), "com.example.net");
    assert_eq!(log.category(), Category::DynamicTracing);
}

#[test]
fn category_native_names() {
    assert_eq!(categories::POINTS_OF_INTEREST.native_name(), "PointsOfInterest");
    assert_eq!(categories::DYNAMIC_TRACING.native_name(), "DynamicTracing");
    assert_eq!(categories::DYNAMIC_STACK_TRACING.native_name(), "DynamicStackTracing");
}

#[test]
fn text_with_nul_becomes_empty() {
    assert!(has_interior_nul("a\0b"));
    assert!(!has_interior_nul("plain"));
    assert_eq!(native_text("a\0b"), "");
    assert_eq!(native_text("plain"), "plain");
    assert_eq!(native_text(""), "");
}

#[test]
fn qualified_name_joins_with_colons() {
    assert_eq!(qualified_name("app::net", "fetch"), "app::net::fetch");
    assert_eq!(qualified_name("app", ""), "app::");
}

#[test]
fn message_field_name() {
    assert!(is_message_field("message"));
    assert!(!is_message_field("messages"));
    assert!(!is_message_field("Message"));
    assert!(!is_message_field(""));
}

#[test]
fn emit_disabled_is_noop() {
    let log = test_log();
    let id = SignpostId::from_raw(5);
    assert_eq!(log.emit(false, id, "x", Some("m"), SignpostType::Event), None);
    assert_eq!(log.event(false, id, "x"), None);
    assert_eq!(log.event_with_message(false, id, "x", "m"), None);
}

#[test]
fn emit_enabled_converts_text() {
    let log = test_log();
    let id = SignpostId::from_raw(5);
    let e = log.emit(true, id, "bad\0name", Some("fine"), SignpostType::IntervalBegin).unwrap();
    assert_eq!(
        e,
        Emission {
            kind: SignpostType::IntervalBegin,
            id,
            name: String::new(),
            message: Some("fine".to_string()),
        }
    );
}

#[test]
fn disabled_interval_emits_nothing() {
    let log = test_log();
    let (mut interval, begin) = log.interval_with_message(false, SignpostId::from_raw(9), "work", "m");
    assert_eq!(begin, None);
    assert_eq!(interval.end(&log, false), None);
    assert!(interval.is_ended());
}

#[test]
fn enabled_interval_pairs_begin_and_end() {
    let log = test_log();
    let id = SignpostId::from_raw(9);
    let (mut interval, begin) = log.interval_with_message(true, id, "work", "starting");
    let begin = begin.unwrap();
    assert_eq!(begin.kind, SignpostType::IntervalBegin);
    assert_eq!(begin.message.as_deref(), Some("starting"));
    assert_eq!(interval.id(), id);

    let end = interval.end(&log, true).unwrap();
    assert_eq!(end.kind, SignpostType::IntervalEnd);
    assert_eq!(end.id, begin.id);
    assert_eq!(end.name, begin.name);
    assert_eq!(end.message, None);

    assert_eq!(interval.end(&log, true), None);
}

#[test]
fn interval_without_message() {
    let log = test_log();
    let (mut interval, begin) = log.interval(true, SignpostId::from_raw(3), "load");
    let begin = begin.unwrap();
    assert_eq!(begin.name, "load");
    assert_eq!(begin.message, None);
    assert!(!interval.is_ended());
    assert!(interval.end(&log, true).is_some());
}

#[test]
fn configure_twice_keeps_first() {
    let mut config = GlobalConfig::new();
    assert!(!config.is_configured());
    let first = Signpost::configure(&mut config, "app.a", categories::POINTS_OF_INTEREST).unwrap();
    assert_eq!(first.subsystem(), "app.a");
    assert_eq!(first.category(), Category::PointsOfInterest);
    let second = Signpost::configure(&mut config, "app.b", categories::DYNAMIC_TRACING);
    assert_eq!(second.err(), Some(SignpostError::AlreadyConfigured));
    let logger = global_logger(&config).unwrap();
    assert_eq!(logger.subsystem(), "app.a");
    assert_eq!(logger.category(), Category::PointsOfInterest);
}

#[test]
fn logger_before_configuration_fails() {
    let config = GlobalConfig::new();
    assert_eq!(global_logger(&config).err(), Some(SignpostError::NotConfigured));
}

#[test]
fn close_of_unknown_span_is_silent() {
    let log = test_log();
    let subscriber = TracingSubscriber::new();
    assert_eq!(subscriber.on_close(&log, true, 77), None);
    assert_eq!(close_span(&log, true, None), None);
}

#[test]
fn span_message_forwarded_and_record_silent() {
    let log = test_log();
    let subscriber = TracingSubscriber::new();
    let begin = subscriber
        .on_new_span(&log, true, 1, "app::db", "query", Some("select"), || SignpostId::from_raw(11))
        .unwrap();
    assert_eq!(begin.kind, SignpostType::IntervalBegin);
    assert_eq!(begin.name, "app::db::query");
    assert_eq!(begin.message.as_deref(), Some("select"));
    assert_eq!(subscriber.on_record(1), None);

    let end = subscriber.on_close(&log, true, 1).unwrap();
    assert_eq!(end.kind, SignpostType::IntervalEnd);
    assert_eq!(end.id, SignpostId::from_raw(11));
    assert_eq!(end.name, "app::db::query");
    assert_eq!(end.message, None);
    assert_eq!(subscriber.on_close(&log, true, 1), None);
}

#[test]
fn span_opened_while_disabled_closes_silently() {
    let log = test_log();
    let subscriber = TracingSubscriber::new();
    let opened = subscriber.on_new_span(&log, false, 4, "app", "idle", None, || {
        panic!("no id is drawn while tracing is disabled")
    });
    assert_eq!(opened, None);
    assert_eq!(subscriber.on_close(&log, true, 4), None);
}

#[test]
fn close_while_disabled_is_noop() {
    let log = test_log();
    let subscriber = TracingSubscriber::new();
    assert!(subscriber.on_new_span(&log, true, 2, "app", "s", None, || SignpostId::from_raw(3)).is_some());
    assert_eq!(subscriber.on_close(&log, false, 2), None);
}

#[test]
fn close_span_of_removed_interval() {
    let log = test_log();
    let interval = ActiveInterval::new(SignpostId::from_raw(8), "app::s".to_string());
    let end = close_span(&log, true, Some(interval)).unwrap();
    assert_eq!(end.kind, SignpostType::IntervalEnd);
    assert_eq!(end.id.raw(), 8);
    assert_eq!(end.name, "app::s");
    let interval = ActiveInterval::new(SignpostId::from_raw(8), "app::s".to_string());
    assert_eq!(close_span(&log, false, Some(interval)), None);
}

#[test]
fn log_event_names_current_span() {
    let log = test_log();
    let subscriber = TracingSubscriber::new();
    let e = subscriber
        .on_event(&log, true, "app::net", Some("fetch"), Some("retrying"), || SignpostId::from_raw(21))
        .unwrap();
    assert_eq!(e.kind, SignpostType::Event);
    assert_eq!(e.name, "app::net::fetch");
    assert_eq!(e.message.as_deref(), Some("retrying"));
    assert_eq!(e.id.raw(), 21);

    let e = subscriber.on_event(&log, true, "app", None, None, || SignpostId::from_raw(22)).unwrap();
    assert_eq!(e.name, "app::");
    assert_eq!(e.message, None);

    assert_eq!(subscriber.on_event(&log, false, "app", None, None, || SignpostId::from_raw(23)), None);
}

#[test]
fn visitor_keeps_only_message_field() {
    let mut visitor = MessageVisitor::new();
    assert_eq!(visitor.message(), None);
    visitor.record_str("user", "alice");
    assert_eq!(visitor.message(), None);
    visitor.record_str("message", "hello");
    assert_eq!(visitor.message(), Some("hello"));
    visitor.record_debug("count", "3");
    assert_eq!(visitor.message(), Some("hello"));
    visitor.record_debug("message", "Some(3)");
    assert_eq!(visitor.message(), Some("Some(3)"));
}

#[test]
fn end_to_end_events_from_call_site() {
    let mut config = GlobalConfig::new();
    Signpost::configure(&mut config, "dev.test", categories::POINTS_OF_INTEREST).unwrap();
    let logger = global_logger(&config).unwrap();
    assert_eq!(logger.subsystem(), "dev.test");
    let name = qualified_name("signpost_tests::end_to_end", "A");
    let first = logger.event(true, SignpostId::from_raw(100), &name).unwrap();
    let second = logger.event(true, SignpostId::from_raw(101), &name).unwrap();
    assert_eq!(first.kind, SignpostType::Event);
    assert_eq!(second.kind, SignpostType::Event);
    assert_ne!(first.id, second.id);
    assert_eq!(first.name, "signpost_tests::end_to_end::A");
    assert_eq!(second.name, "signpost_tests::end_to_end::A");
}

fn ident(s: &str) -> ArgToken {
    ArgToken::Ident(s.to_string())
}

fn lit(s: &str) -> ArgToken {
    ArgToken::Str(s.to_string())
}

#[test]
fn args_empty_positional_and_named() {
    assert_eq!(parse_instrument_args(&vec![]), Ok(None));
    assert_eq!(parse_instrument_args(&vec![lit("Custom Message")]), Ok(Some("Custom Message".to_string())));
    assert_eq!(
        parse_instrument_args(&vec![ident("message"), ArgToken::Punct('='), lit("Data Processing")]),
        Ok(Some("Data Processing".to_string()))
    );
}

#[test]
fn args_refused() {
    assert_eq!(
        parse_instrument_args(&vec![ident("message"), ArgToken::Punct('='), ident("x")]),
        Err(ArgsError::ExpectedStringLiteral)
    );
    assert_eq!(
        parse_instrument_args(&vec![ident("message"), ArgToken::Punct('=')]),
        Err(ArgsError::ExpectedStringLiteral)
    );
    assert_eq!(
        parse_instrument_args(&vec![ident("label"), ArgToken::Punct('='), lit("x")]),
        Err(ArgsError::ExpectedMessageAssignment)
    );
    assert_eq!(parse_instrument_args(&vec![ArgToken::Other]), Err(ArgsError::ExpectedMessageAssignment));
    assert_eq!(parse_instrument_args(&vec![lit("a"), lit("b")]), Err(ArgsError::UnexpectedToken));
}
