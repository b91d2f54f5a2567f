//! The errors that the node reports.

use vstd::prelude::*;
use vstd::string::StringExecFns;

verus! {

/// What went wrong, with the words of whoever noticed it.
#[derive(Debug)]
pub enum WalkieTalkieError {
    /// A socket could not be bound, connected, read or written.
    Network(String),
    /// An envelope could not be written out or read back.
    Serialization(String),
    /// Anything else.
    Unknown(String),
}

/// An error as a mathematical value.
pub enum ErrorView {
    Network(Seq<char>),
    Serialization(Seq<char>),
    Unknown(Seq<char>),
}

impl View for WalkieTalkieError {
    type V = ErrorView;

    open spec fn view(&self) -> ErrorView {
        match self {
            WalkieTalkieError::Network(text) => ErrorView::Network(text@),
            WalkieTalkieError::Serialization(text) => ErrorView::Serialization(text@),
            WalkieTalkieError::Unknown(text) => ErrorView::Unknown(text@),
        }
    }
}

/// The line that shows an error.
pub open spec fn rendered(e: ErrorView) -> Seq<char> {
    match e {
        ErrorView::Network(text) => "Network error: "@ + text,
        ErrorView::Serialization(text) => "Serialization error: "@ + text,
        ErrorView::Unknown(text) => "Unknown error: "@ + text,
    }
}

/// `std::io::Error`, carried through as it is: nothing is said of what is
/// inside it.
#[verifier::external_type_specification]
#[verifier::external_body]
pub struct ExIoError(std::io::Error);

/// `serde_json::Error`, carried through as it is: nothing is said of what is
/// inside it.
#[verifier::external_type_specification]
#[verifier::external_body]
pub struct ExJsonError(serde_json::Error);

impl WalkieTalkieError {
    /// The line that shows this error.
    pub fn to_string(&self) -> (line: String)
        ensures
            line@ == rendered(self@),
    {
        match self {
            WalkieTalkieError::Network(text) => "Network error: ".to_owned().concat(text.as_str()),
            WalkieTalkieError::Serialization(text) => "Serialization error: ".to_owned().concat(
                text.as_str(),
            ),
            WalkieTalkieError::Unknown(text) => "Unknown error: ".to_owned().concat(text.as_str()),
        }
    }
}

impl From<std::io::Error> for WalkieTalkieError {
    /// An error of the operating system is a network error, in its own words.
    fn from(e: std::io::Error) -> (r: Self)
        ensures
            r is Network,
            vstd::string::to_string_from_display_ensures::<std::io::Error>(&e, r->Network_0),
    {
        WalkieTalkieError::Network(e.to_string())
    }
}

impl vstd::std_specs::convert::FromSpecImpl<std::io::Error> for WalkieTalkieError {
    open spec fn obeys_from_spec() -> bool {
        false
    }

    open spec fn from_spec(e: std::io::Error) -> Self {
        arbitrary()
    }
}

impl From<serde_json::Error> for WalkieTalkieError {
    /// An error of the JSON codec is a serialization error, in its own words.
    fn from(e: serde_json::Error) -> (r: Self)
        ensures
            r is Serialization,
            vstd::string::to_string_from_display_ensures::<serde_json::Error>(
                &e,
                r->Serialization_0,
            ),
    {
        WalkieTalkieError::Serialization(e.to_string())
    }
}

impl vstd::std_specs::convert::FromSpecImpl<serde_json::Error> for WalkieTalkieError {
    open spec fn obeys_from_spec() -> bool {
        false
    }

    open spec fn from_spec(e: serde_json::Error) -> Self {
        arbitrary()
    }
}

} // verus!
