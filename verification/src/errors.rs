//! The errors that an operation of the client can fail with.

use crate::amount::Amount;
use crate::models::PaymentDto;
use crate::time::duration_nanos;
use std::time::Duration;
use vstd::prelude::*;
use vstd::std_specs::convert::FromSpec;
use vstd::std_specs::convert::FromSpecImpl;
use vstd::string::to_string_from_display_ensures;

verus! {

/// The error type of the HTTP transport, `reqwest::Error`. Its inside is not
/// looked at: a value is carried as it came.
#[verifier::external_type_specification]
#[verifier::external_body]
pub struct ExTransportError(reqwest::Error);

/// The error type of the JSON codec, `serde_json::Error`. Its inside is not
/// looked at: a value is carried as it came.
#[verifier::external_type_specification]
#[verifier::external_body]
pub struct ExCodecError(serde_json::Error);

/// What `{:?}` prints for the duration of `nanos` nanoseconds.
pub uninterp spec fn duration_debug_text(nanos: nat) -> Seq<char>;

/// The `Debug` rendering of a duration, which `<Duration as Debug>::fmt`
/// writes for `{:?}`. The contract claims only that the rendering depends
/// on the length of the duration and on nothing else.
#[verifier::external_body]
fn duration_debug(duration: &Duration) -> (text: String)
    ensures
        text@ == duration_debug_text(duration_nanos(*duration)),
{
    format!("{:?}", duration)
}

/// An error of the client. Exactly one variant describes each failure.
#[derive(Debug)]
pub enum PiError {
    /// The HTTP transport failed.
    Http(reqwest::Error),
    /// JSON could not be written or read.
    Json(serde_json::Error),
    /// The service answered with an error of its own, possibly with the
    /// payment that was being processed.
    PiNetwork { error_name: String, error_message: String, payment: Option<PaymentDto> },
    /// The service did not accept the credentials.
    Authentication(String),
    /// The configuration of the client is not valid.
    Configuration(String),
    /// An operation on the Stellar ledger failed.
    Stellar(String),
    /// The balance does not cover the amount asked for.
    InsufficientBalance { available: Amount, required: Amount },
    /// An operation took longer than the time allowed.
    Timeout { duration: Duration },
}

impl PiError {
    /// Whether `text` is the message of this error. For every variant but
    /// `Http` and `Json` exactly one text is; for those two the text is a
    /// fixed prefix followed by what the wrapped error displays.
    pub open spec fn renders_as(&self, text: Seq<char>) -> bool {
        match self {
            PiError::Http(cause) => exists|shown: String|
                #[trigger] to_string_from_display_ensures::<reqwest::Error>(cause, shown) && text
                    == "HTTP request failed: "@ + shown@,
            PiError::Json(cause) => exists|shown: String|
                #[trigger] to_string_from_display_ensures::<serde_json::Error>(cause, shown)
                    && text == "JSON serialization failed: "@ + shown@,
            PiError::PiNetwork { error_name, error_message, payment } => text
                == "Pi Network API error: "@ + error_name@ + " - "@ + error_message@,
            PiError::Authentication(message) => text == "Authentication failed: "@ + message@,
            PiError::Configuration(message) => text == "Invalid configuration: "@ + message@,
            PiError::Stellar(message) => text == "Stellar operation failed: "@ + message@,
            PiError::InsufficientBalance { available, required } => text
                == "Insufficient balance: available "@ + available.spec_text() + ", required "@
                + required.spec_text(),
            PiError::Timeout { duration } => text == "Timeout occurred after "@
                + duration_debug_text(duration_nanos(*duration)),
        }
    }

    /// The message of this error, for logs and diagnostics.
    pub fn to_string(&self) -> (text: String)
        ensures
            self.renders_as(text@),
    {
        match self {
            PiError::Http(cause) => {
                let shown: String = cause.to_string();
                "HTTP request failed: ".to_owned().concat(shown.as_str())
            },
            PiError::Json(cause) => {
                let shown: String = cause.to_string();
                "JSON serialization failed: ".to_owned().concat(shown.as_str())
            },
            PiError::PiNetwork { error_name, error_message, payment } => {
                "Pi Network API error: ".to_owned().concat(error_name.as_str()).concat(
                    " - ",
                ).concat(error_message.as_str())
            },
            PiError::Authentication(message) => {
                "Authentication failed: ".to_owned().concat(message.as_str())
            },
            PiError::Configuration(message) => {
                "Invalid configuration: ".to_owned().concat(message.as_str())
            },
            PiError::Stellar(message) => {
                "Stellar operation failed: ".to_owned().concat(message.as_str())
            },
            PiError::InsufficientBalance { available, required } => {
                let have: String = available.to_string();
                let need: String = required.to_string();
                "Insufficient balance: available ".to_owned().concat(have.as_str()).concat(
                    ", required ",
                ).concat(need.as_str())
            },
            PiError::Timeout { duration } => {
                let waited: String = duration_debug(duration);
                "Timeout occurred after ".to_owned().concat(waited.as_str())
            },
        }
    }
}

impl From<reqwest::Error> for PiError {
    fn from(cause: reqwest::Error) -> (error: PiError) {
        PiError::Http(cause)
    }
}

impl FromSpecImpl<reqwest::Error> for PiError {
    open spec fn obeys_from_spec() -> bool {
        true
    }

    open spec fn from_spec(cause: reqwest::Error) -> PiError {
        PiError::Http(cause)
    }
}

impl From<serde_json::Error> for PiError {
    fn from(cause: serde_json::Error) -> (error: PiError) {
        PiError::Json(cause)
    }
}

impl FromSpecImpl<serde_json::Error> for PiError {
    open spec fn obeys_from_spec() -> bool {
        true
    }

    open spec fn from_spec(cause: serde_json::Error) -> PiError {
        PiError::Json(cause)
    }
}

/// An error that wraps no other error has exactly one message.
pub proof fn lemma_message_unique(error: PiError, first: Seq<char>, second: Seq<char>)
    requires
        !(error is Http),
        !(error is Json),
        error.renders_as(first),
        error.renders_as(second),
    ensures
        first == second,
{
}

/// A transport error that is wrapped keeps its message: whatever the
/// transport error displays follows the fixed prefix in the message of the
/// `Http` error made from it.
pub proof fn lemma_transport_message_kept(cause: reqwest::Error, shown: String)
    requires
        to_string_from_display_ensures::<reqwest::Error>(&cause, shown),
    ensures
        <PiError as FromSpec<reqwest::Error>>::from_spec(cause) == PiError::Http(cause),
        <PiError as FromSpec<reqwest::Error>>::from_spec(cause).renders_as(
            "HTTP request failed: "@ + shown@,
        ),
{
    let text = "HTTP request failed: "@ + shown@;
    assert(PiError::Http(cause) matches PiError::Http(inner) && inner == cause);
    assert(exists|s: String| #[trigger]
        to_string_from_display_ensures::<reqwest::Error>(&cause, s) && text
            == "HTTP request failed: "@ + s@);
    assert(PiError::Http(cause).renders_as(text));
}

/// A codec error that is wrapped keeps its message: whatever the codec
/// error displays follows the fixed prefix in the message of the `Json`
/// error made from it.
pub proof fn lemma_codec_message_kept(cause: serde_json::Error, shown: String)
    requires
        to_string_from_display_ensures::<serde_json::Error>(&cause, shown),
    ensures
        <PiError as FromSpec<serde_json::Error>>::from_spec(cause) == PiError::Json(cause),
        <PiError as FromSpec<serde_json::Error>>::from_spec(cause).renders_as(
            "JSON serialization failed: "@ + shown@,
        ),
{
    let text = "JSON serialization failed: "@ + shown@;
    assert(PiError::Json(cause) matches PiError::Json(inner) && inner == cause);
    assert(exists|s: String| #[trigger]
        to_string_from_display_ensures::<serde_json::Error>(&cause, s) && text
            == "JSON serialization failed: "@ + s@);
    assert(PiError::Json(cause).renders_as(text));
}

} // verus!
