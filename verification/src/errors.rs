//! The error vocabulary of the platform and its mapping to HTTP replies:
//! a missing function is 404, a function that cannot start is 500, a bad
//! bundle is 400, and an internal fault is a 500 with a generic body that
//! leaks no detail.

use vstd::prelude::*;

verus! {

/// Failures of the function paths: deploying, invoking and forwarding.
#[derive(Debug)]
pub enum Error {
    /// The name is not registered for the namespace it was called under.
    FunctionNotRegistered(String),
    /// The instance for a registered function could not be started.
    FunctionFailedToStart(String),
    /// The uploaded bundle itself is unusable; the payload says why.
    BadFunction(String),
    /// An internal fault whose detail is logged, never shown to callers.
    SystemError(String),
}

/// Failures of the same shape kept by the later server generation.
#[derive(Debug)]
pub enum ServelessCoreError {
    FunctionNotRegistered(String),
    FunctionFailedToStart(String),
    BadFunction(String),
    SystemError(String),
}

/// Failures of the container runtime wrapper: a failed build or run, or a
/// fault of the daemon connection.
#[derive(Debug)]
pub enum RuntimeError {
    /// The daemon accepted the request and reported a failure.
    Exec(String),
    /// The daemon could not be reached or driven at all.
    System(String),
}

pub open spec fn spec_not_found_body(name: Seq<char>) -> Seq<char> {
    "Function not found: "@ + name
}

pub open spec fn spec_failed_to_start_body(name: Seq<char>) -> Seq<char> {
    "Failed to start function: "@ + name
}

pub open spec fn spec_bad_function_body(reason: Seq<char>) -> Seq<char> {
    "Bad function: "@ + reason
}

pub open spec fn spec_system_error_body() -> Seq<char> {
    "This is on us and we are working on it"@
}

/// The HTTP reply an error maps to: status code and body.
pub open spec fn spec_error_response(status: u16, body: Seq<char>, e: Error) -> bool {
    match e {
        Error::FunctionNotRegistered(name) => status == 404 && body == spec_not_found_body(name@),
        Error::FunctionFailedToStart(name) => status == 500 && body == spec_failed_to_start_body(
            name@,
        ),
        Error::BadFunction(reason) => status == 400 && body == spec_bad_function_body(reason@),
        Error::SystemError(_) => status == 500 && body == spec_system_error_body(),
    }
}

impl Error {
    /// Map the error to the HTTP status and body the surface answers with.
    /// The detail of an internal fault stays out of the reply.
    pub fn to_http_response(&self) -> (r: (u16, String))
        ensures
            spec_error_response(r.0, r.1@, *self),
    {
        match self {
            Error::FunctionNotRegistered(name) => {
                let mut body: String = "Function not found: ".to_owned();
                body.append(name.as_str());
                (404, body)
            },
            Error::FunctionFailedToStart(name) => {
                let mut body: String = "Failed to start function: ".to_owned();
                body.append(name.as_str());
                (500, body)
            },
            Error::BadFunction(reason) => {
                let mut body: String = "Bad function: ".to_owned();
                body.append(reason.as_str());
                (400, body)
            },
            Error::SystemError(_) => (500, "This is on us and we are working on it".to_owned()),
        }
    }

    /// Render the error as text; unlike the HTTP mapping this shows the
    /// detail of an internal fault, for the log.
    pub fn message(&self) -> (r: String)
        ensures
            r@ == spec_error_message(*self),
    {
        match self {
            Error::FunctionNotRegistered(name) => {
                let mut m: String = "Function not found: ".to_owned();
                m.append(name.as_str());
                m
            },
            Error::FunctionFailedToStart(name) => {
                let mut m: String = "Failed to start function: ".to_owned();
                m.append(name.as_str());
                m
            },
            Error::BadFunction(reason) => {
                let mut m: String = "Bad function: ".to_owned();
                m.append(reason.as_str());
                m
            },
            Error::SystemError(detail) => {
                let mut m: String = "System error: ".to_owned();
                m.append(detail.as_str());
                m
            },
        }
    }
}

/// The human-readable rendering of each error, used where a failure is
/// folded into a larger message.
pub open spec fn spec_error_message(e: Error) -> Seq<char> {
    match e {
        Error::FunctionNotRegistered(name) => spec_not_found_body(name@),
        Error::FunctionFailedToStart(name) => spec_failed_to_start_body(name@),
        Error::BadFunction(reason) => spec_bad_function_body(reason@),
        Error::SystemError(detail) => "System error: "@ + detail@,
    }
}

pub open spec fn spec_core_error_response(status: u16, body: Seq<char>, e: ServelessCoreError) -> bool {
    match e {
        ServelessCoreError::FunctionNotRegistered(name) => status == 404 && body
            == spec_not_found_body(name@),
        ServelessCoreError::FunctionFailedToStart(name) => status == 500 && body
            == spec_failed_to_start_body(name@),
        ServelessCoreError::BadFunction(reason) => status == 400 && body == spec_bad_function_body(
            reason@,
        ),
        ServelessCoreError::SystemError(_) => status == 500 && body == spec_system_error_body(),
    }
}

impl ServelessCoreError {
    /// Map the error to the HTTP status and body the surface answers with.
    pub fn to_http_response(&self) -> (r: (u16, String))
        ensures
            spec_core_error_response(r.0, r.1@, *self),
    {
        match self {
            ServelessCoreError::FunctionNotRegistered(name) => {
                let mut body: String = "Function not found: ".to_owned();
                body.append(name.as_str());
                (404, body)
            },
            ServelessCoreError::FunctionFailedToStart(name) => {
                let mut body: String = "Failed to start function: ".to_owned();
                body.append(name.as_str());
                (500, body)
            },
            ServelessCoreError::BadFunction(reason) => {
                let mut body: String = "Bad function: ".to_owned();
                body.append(reason.as_str());
                (400, body)
            },
            ServelessCoreError::SystemError(_) => (
                500,
                "This is on us and we are working on it".to_owned(),
            ),
        }
    }
}

pub open spec fn spec_runtime_error_message(m: Seq<char>, e: RuntimeError) -> bool {
    match e {
        RuntimeError::Exec(d) => m == d@,
        RuntimeError::System(d) => m == "System Error: "@ + d@,
    }
}

impl RuntimeError {
    /// The human-readable rendering of a runtime failure: an execution
    /// failure is shown as the daemon gave it, a system fault is prefixed.
    pub fn message(&self) -> (r: String)
        ensures
            spec_runtime_error_message(r@, *self),
    {
        match self {
            RuntimeError::Exec(d) => d.clone(),
            RuntimeError::System(d) => {
                let mut m: String = "System Error: ".to_owned();
                m.append(d.as_str());
                m
            },
        }
    }
}

} // verus!
