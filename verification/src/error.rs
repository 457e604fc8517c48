//! The faults that end a run.

use vstd::prelude::*;
use vstd::std_specs::convert::FromSpecImpl;
use vstd::string::StringExecFns;

verus! {

/// The fault type of the HTTP client. Nothing of its inside is known here.
#[verifier::external_type_specification]
#[verifier::external_body]
pub struct ExTransportError(reqwest::Error);

/// Whether a fault of the HTTP client arose while the client or a request
/// was being put together, a malformed URL included. The client fixes this
/// when it makes the fault, and nothing changes it afterwards.
pub uninterp spec fn builder_fault(err: reqwest::Error) -> bool;

/// `reqwest::Error::is_builder`: whether the fault is of the builder kind.
/// The answer depends on the fault alone, so it is `builder_fault` of it.
pub assume_specification[ reqwest::Error::is_builder ](err: &reqwest::Error) -> (b: bool)
    ensures
        b == builder_fault(*err),
;

/// Whether `text` is what a fault of the HTTP client shows of itself as text.
pub open spec fn fault_text_is(err: reqwest::Error, text: Seq<char>) -> bool {
    exists|shown: String|
        #[trigger] vstd::string::to_string_from_display_ensures::<reqwest::Error>(&err, shown)
            && shown@ == text
}

/// A fault that ends a run, with a detail text for a human reader.
#[derive(Debug)]
pub enum CddError {
    /// The target cannot be made into a request.
    InvalidUrl(String),
    /// The target was asked and the exchange failed.
    NetworkError(String),
    /// The engine was used against its own preconditions.
    InternalError(String),
}

/// The three kinds of fault.
#[derive(Debug, Clone, Copy, PartialEq, Eq, Structural)]
pub enum ErrorCode {
    InvalidUrl,
    NetworkError,
    InternalError,
}

/// A `CddError` as plain values.
pub struct CddErrorView {
    pub code: ErrorCode,
    pub details: Seq<char>,
}

impl View for CddError {
    type V = CddErrorView;

    open spec fn view(&self) -> CddErrorView {
        match self {
            CddError::InvalidUrl(d) => CddErrorView { code: ErrorCode::InvalidUrl, details: d@ },
            CddError::NetworkError(d) => CddErrorView {
                code: ErrorCode::NetworkError,
                details: d@,
            },
            CddError::InternalError(d) => CddErrorView {
                code: ErrorCode::InternalError,
                details: d@,
            },
        }
    }
}

/// The kind of a transport fault: one that arose while the request was being
/// put together is an invalid URL, every other one a network error.
pub open spec fn transport_code(while_building: bool) -> ErrorCode {
    if while_building {
        ErrorCode::InvalidUrl
    } else {
        ErrorCode::NetworkError
    }
}

/// The text that `message` puts before the details.
pub open spec fn message_prefix(code: ErrorCode) -> Seq<char> {
    match code {
        ErrorCode::InvalidUrl => "Invalid URL format: "@,
        ErrorCode::NetworkError => "Network error occurred: "@,
        ErrorCode::InternalError => "Internal error: "@,
    }
}

impl CddError {
    /// The kind of this fault.
    pub fn code(&self) -> (c: ErrorCode)
        ensures
            c == self@.code,
    {
        match self {
            CddError::InvalidUrl(_) => ErrorCode::InvalidUrl,
            CddError::NetworkError(_) => ErrorCode::NetworkError,
            CddError::InternalError(_) => ErrorCode::InternalError,
        }
    }

    /// The detail text of this fault.
    pub fn details(&self) -> (d: &str)
        ensures
            d@ == self@.details,
    {
        match self {
            CddError::InvalidUrl(d) => d.as_str(),
            CddError::NetworkError(d) => d.as_str(),
            CddError::InternalError(d) => d.as_str(),
        }
    }

    /// The fault as one line of text: a prefix that tells the kind, then the
    /// details.
    pub fn message(&self) -> (m: String)
        ensures
            m@ == message_prefix(self@.code) + self@.details,
    {
        match self {
            CddError::InvalidUrl(d) => String::from_str("Invalid URL format: ").concat(d.as_str()),
            CddError::NetworkError(d) => String::from_str("Network error occurred: ").concat(
                d.as_str(),
            ),
            CddError::InternalError(d) => String::from_str("Internal error: ").concat(d.as_str()),
        }
    }

    /// Classifies a transport fault by its category, never by its text.
    pub fn transport(while_building: bool, details: String) -> (e: CddError)
        ensures
            e@ == (CddErrorView { code: transport_code(while_building), details: details@ }),
    {
        if while_building {
            CddError::InvalidUrl(details)
        } else {
            CddError::NetworkError(details)
        }
    }
}

impl From<reqwest::Error> for CddError {
    /// A fault of the HTTP client as a fault of the engine, classified by its
    /// category and never by its text: a fault of the builder kind is an
    /// invalid URL, every other one a network error. The details are the text
    /// that the fault shows of itself.
    fn from(err: reqwest::Error) -> (e: CddError)
        ensures
            e@.code == transport_code(builder_fault(err)),
            fault_text_is(err, e@.details),
    {
        let while_building = err.is_builder();
        let details = err.to_string();
        CddError::transport(while_building, details)
    }
}

/// The result of the conversion is fixed by the contract of `from`, over the
/// kind and the details of the result. It is not given as one value of
/// `CddError`, since the text of the fault is known only as a view.
impl FromSpecImpl<reqwest::Error> for CddError {
    open spec fn obeys_from_spec() -> bool {
        false
    }

    open spec fn from_spec(v: reqwest::Error) -> CddError {
        arbitrary()
    }
}

} // verus!
