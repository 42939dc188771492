use simple_erp::logging::{deserialize, serialize, span_events_for, Level, LogArgs, LogFormat, SpanEvents};

#[test]
fn default_log_args() {
    let a = LogArgs::default();
    assert_eq!(a.verbosity, Level::Info);
    assert_eq!(a.log_format, LogFormat::Compact);
    assert_eq!(a.log_filter, "");
}

#[test]
fn levels_are_ordered() {
    assert!(Level::Error < Level::Warn);
    assert!(Level::Warn < Level::Info);
    assert!(Level::Info < Level::Debug);
    assert!(Level::Debug < Level::Trace);
}

#[test]
fn serialize_writes_upper_case_names() {
    assert_eq!(serialize(Level::Error), "ERROR");
    assert_eq!(serialize(Level::Warn), "WARN");
    assert_eq!(serialize(Level::Info), "INFO");
    assert_eq!(serialize(Level::Debug), "DEBUG");
    assert_eq!(serialize(Level::Trace), "TRACE");
}

#[test]
fn deserialize_reads_names_in_any_case() {
    assert_eq!(deserialize("error"), Ok(Level::Error));
    assert_eq!(deserialize("WARN"), Ok(Level::Warn));
    assert_eq!(deserialize("Info"), Ok(Level::Info));
    assert_eq!(deserialize("debug"), Ok(Level::Debug));
    assert_eq!(deserialize("tRaCe"), Ok(Level::Trace));
}

#[test]
fn deserialize_reads_numbers() {
    assert_eq!(deserialize("1"), Ok(Level::Error));
    assert_eq!(deserialize("2"), Ok(Level::Warn));
    assert_eq!(deserialize("3"), Ok(Level::Info));
    assert_eq!(deserialize("4"), Ok(Level::Debug));
    assert_eq!(deserialize("5"), Ok(Level::Trace));
    assert!(deserialize("6").is_err());
    assert_eq!(deserialize("+3"), Ok(Level::Info));
    assert_eq!(deserialize("004"), Ok(Level::Debug));
    assert!(deserialize("10").is_err());
    assert!(deserialize("-1").is_err());
    assert!(deserialize("verbose").is_err());
}

#[test]
fn deserialize_rejects_unknown() {
    let e = deserialize("loud").unwrap_err();
    assert_eq!(e.input, "loud");
    assert_eq!(e.message(), "loud : Valid values are: error, warn, info, debug, trace");
    assert!(deserialize("0").is_err());
    assert!(deserialize("").is_err());
}

#[test]
fn level_round_trips_through_text() {
    for l in [Level::Error, Level::Warn, Level::Info, Level::Debug, Level::Trace] {
        assert_eq!(deserialize(&serialize(l)), Ok(l));
    }
}

#[test]
fn span_events_by_level() {
    assert_eq!(span_events_for(Level::Error), SpanEvents::NewAndClose);
    assert_eq!(span_events_for(Level::Warn), SpanEvents::NewAndClose);
    assert_eq!(span_events_for(Level::Info), SpanEvents::NewAndClose);
    assert_eq!(span_events_for(Level::Debug), SpanEvents::Full);
    assert_eq!(span_events_for(Level::Trace), SpanEvents::Full);
}
