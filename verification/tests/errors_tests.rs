use app_lib::util::errors::{Error, ErrorKind, InjectFailure};

fn all_kinds() -> Vec<ErrorKind> {
    vec![
        ErrorKind::UnknownError,
        ErrorKind::Generic("boom".to_string()),
        ErrorKind::ConfigErr("missing field".to_string()),
        ErrorKind::Io("refused".to_string()),
        ErrorKind::DIError("no provider".to_string()),
        ErrorKind::TonicTransportError("closed".to_string()),
    ]
}

#[test]
fn every_error_exits_with_code_one() {
    for kind in all_kinds() {
        assert_eq!(Error::new(kind).code(), 1);
    }
}

#[test]
fn every_error_has_the_same_help() {
    for kind in all_kinds() {
        assert_eq!(Error::new(kind).help(), "No help available for this error");
    }
}

#[test]
fn error_messages() {
    let texts: Vec<String> = all_kinds().into_iter().map(|k| Error::new(k).message()).collect();
    assert_eq!(
        texts,
        vec![
            "unknown error",
            "boom",
            "config error: missing field",
            "io error: refused",
            "di error: no provider",
            "tonic transport error: closed",
        ]
    );
}

fn di_text(e: &Error) -> &str {
    match &e.kind {
        ErrorKind::DIError(m) => m,
        _ => panic!("expected a DI error"),
    }
}

#[test]
fn inject_activation_failure() {
    let e = Error::from_inject(InjectFailure::ActivationFailed {
        service_name: "app::config::Config".to_string(),
        inner: "ConfigErr(\"bad\")".to_string(),
    });
    assert_eq!(di_text(&e), "di: service app::config::Config failed: ConfigErr(\"bad\")");
    assert_eq!(e.message(), "di error: di: service app::config::Config failed: ConfigErr(\"bad\")");
}

#[test]
fn inject_cycle_and_missing_provider() {
    let e = Error::from_inject(InjectFailure::CycleDetected {
        service_name: "A".to_string(),
        cycle: "[A, B, A]".to_string(),
    });
    assert_eq!(di_text(&e), "cycle detected for service A: [A, B, A]");
    let e = Error::from_inject(InjectFailure::MissingProvider { service_name: "B".to_string() });
    assert_eq!(di_text(&e), "missing provider for service B");
    let e = Error::from_inject(InjectFailure::Other);
    assert_eq!(di_text(&e), "unknown error");
}
