use vstd::prelude::*;
use vstd::string::*;

verus! {

/// The kinds of failure of the node. Failures of outside libraries are kept
/// as the text that those libraries display for them.
#[derive(Debug)]
pub enum ErrorKind {
    UnknownError,
    Generic(String),
    ConfigErr(String),
    Io(String),
    DIError(String),
    TonicTransportError(String),
}

/// An error of the node.
#[derive(Debug)]
pub struct Error {
    pub kind: ErrorKind,
}

/// The text that an error of the given kind displays.
pub open spec fn kind_message(kind: ErrorKind) -> Seq<char> {
    match kind {
        ErrorKind::UnknownError => "unknown error"@,
        ErrorKind::Generic(e) => e@,
        ErrorKind::ConfigErr(e) => "config error: "@ + e@,
        ErrorKind::Io(e) => "io error: "@ + e@,
        ErrorKind::DIError(e) => "di error: "@ + e@,
        ErrorKind::TonicTransportError(e) => "tonic transport error: "@ + e@,
    }
}

/// A failure of the dependency injector, as plain values: the name of the
/// service concerned and the debug rendering of what went wrong.
#[derive(Debug)]
pub enum InjectFailure {
    ActivationFailed { service_name: String, inner: String },
    CycleDetected { service_name: String, cycle: String },
    MissingProvider { service_name: String },
    Other,
}

/// The text of the injector error that a failure turns into.
pub open spec fn inject_message(failure: InjectFailure) -> Seq<char> {
    match failure {
        InjectFailure::ActivationFailed { service_name, inner } => "di: service "@ + service_name@
            + " failed: "@ + inner@,
        InjectFailure::CycleDetected { service_name, cycle } => "cycle detected for service "@
            + service_name@ + ": "@ + cycle@,
        InjectFailure::MissingProvider { service_name } => "missing provider for service "@
            + service_name@,
        InjectFailure::Other => "unknown error"@,
    }
}

impl Error {
    /// The error that an injector failure becomes: always a `DIError`, whose
    /// text names the service.
    pub fn from_inject(failure: InjectFailure) -> (e: Error)
        ensures
            e.kind matches ErrorKind::DIError(m) && m@ == inject_message(failure),
    {
        let text = match &failure {
            InjectFailure::ActivationFailed { service_name, inner } => String::from_str(
                "di: service ",
            ).concat(service_name.as_str()).concat(" failed: ").concat(inner.as_str()),
            InjectFailure::CycleDetected { service_name, cycle } => String::from_str(
                "cycle detected for service ",
            ).concat(service_name.as_str()).concat(": ").concat(cycle.as_str()),
            InjectFailure::MissingProvider { service_name } => String::from_str(
                "missing provider for service ",
            ).concat(service_name.as_str()),
            InjectFailure::Other => String::from_str("unknown error"),
        };
        Error { kind: ErrorKind::DIError(text) }
    }

    pub fn new(kind: ErrorKind) -> (e: Error)
        ensures
            e.kind == kind,
    {
        Error { kind }
    }

    /// The exit code of the process when it stops on this error.
    pub fn code(&self) -> (c: i32)
        ensures
            c == 1,
    {
        1
    }

    /// The help text shown after the error.
    pub fn help(&self) -> (h: String)
        ensures
            h@ == "No help available for this error"@,
    {
        String::from_str("No help available for this error")
    }

    /// The text that the error displays.
    pub fn message(&self) -> (m: String)
        ensures
            m@ == kind_message(self.kind),
    {
        match &self.kind {
            ErrorKind::UnknownError => String::from_str("unknown error"),
            ErrorKind::Generic(e) => e.clone(),
            ErrorKind::ConfigErr(e) => String::from_str("config error: ").concat(e.as_str()),
            ErrorKind::Io(e) => String::from_str("io error: ").concat(e.as_str()),
            ErrorKind::DIError(e) => String::from_str("di error: ").concat(e.as_str()),
            ErrorKind::TonicTransportError(e) => String::from_str("tonic transport error: ").concat(
                e.as_str(),
            ),
        }
    }
}

} // verus!
