//! The error taxonomy of the command layer: the three terminal bridge errors
//! and the spreadsheet passthrough failure, each rendered as the exact
//! human-readable string handed across the call boundary.

use vstd::prelude::*;
use vstd::string::StringExecFns;

verus! {

/// The two required string fields of a bridge request.
#[derive(Clone, Copy, PartialEq, Eq, Structural, Debug)]
pub enum FieldName {
    Target,
    Event,
}

impl FieldName {
    /// The field's key on the wire.
    pub open spec fn spec_name(self) -> Seq<char> {
        match self {
            FieldName::Target => "target"@,
            FieldName::Event => "event"@,
        }
    }

    pub fn name(&self) -> (r: &'static str)
        ensures
            r@ == self.spec_name(),
    {
        match self {
            FieldName::Target => "target",
            FieldName::Event => "event",
        }
    }
}

/// Why one bridge dispatch failed. Every failure is terminal: the bridge
/// never retries.
#[derive(Debug)]
pub enum BridgeError {
    /// No request body was supplied at all.
    MissingPayload,
    /// A required field is absent, or present but not a string.
    MissingField(FieldName),
    /// The window system refused the chosen emit call; the reason is the
    /// already-rendered report of that failure.
    DeliveryFailed(String),
}

impl BridgeError {
    /// The exact string a caller receives for this error.
    pub open spec fn spec_message(self) -> Seq<char> {
        match self {
            BridgeError::MissingPayload => "Missing payload"@,
            BridgeError::MissingField(FieldName::Target) => "Missing 'target' in payload"@,
            BridgeError::MissingField(FieldName::Event) => "Missing 'event' in payload"@,
            BridgeError::DeliveryFailed(reason) => reason@,
        }
    }

    /// Render the error as the human-readable string surfaced to the caller.
    pub fn message(&self) -> (r: String)
        ensures
            r@ == self.spec_message(),
    {
        match self {
            BridgeError::MissingPayload => String::from_str("Missing payload"),
            BridgeError::MissingField(FieldName::Target) => String::from_str(
                "Missing 'target' in payload",
            ),
            BridgeError::MissingField(FieldName::Event) => String::from_str(
                "Missing 'event' in payload",
            ),
            BridgeError::DeliveryFailed(reason) => reason.clone(),
        }
    }
}

/// Failure of the spreadsheet-parsing passthrough, kept apart from the bridge
/// errors: the reason is the parser's own report.
pub struct ParseFailed {
    pub reason: String,
}

impl ParseFailed {
    /// Render the failure as the string surfaced to the caller.
    pub fn message(&self) -> (r: String)
        ensures
            r@ == "Error parsing XLSX file: "@ + self.reason@,
    {
        String::from_str("Error parsing XLSX file: ").concat(self.reason.as_str())
    }
}

} // verus!
