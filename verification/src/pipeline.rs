//! What the operators of a pipeline share: configuration values, events,
//! and what an operator answers to an event.

use vstd::prelude::*;

verus! {

/// A JSON document, as `serde_json` holds it.
#[verifier::external_type_specification]
#[verifier::external_body]
pub struct ExJsonValue(serde_json::Value);

/// Why `serde_json` could not read or write a document.
#[verifier::external_type_specification]
#[verifier::external_body]
pub struct ExJsonError(serde_json::Error);

/// A scalar configuration value.
#[derive(Clone, Debug)]
pub enum ConfValue {
    Null,
    Bool(bool),
    Number(i64),
    String(String),
}

/// The kinds of payload that an event can carry.
#[derive(Clone, Copy, Debug, PartialEq, Eq)]
pub enum ValueType {
    Raw,
    JSON,
}

/// The payload of an event.
#[derive(Debug)]
pub enum EventValue {
    Raw(Vec<u8>),
    JSON(serde_json::Value),
}

impl EventValue {
    /// The kind of this payload.
    pub open spec fn kind(self) -> ValueType {
        match self {
            EventValue::Raw(_) => ValueType::Raw,
            EventValue::JSON(_) => ValueType::JSON,
        }
    }

    /// The kind of this payload.
    pub fn t(&self) -> (kind: ValueType)
        ensures
            kind == self.kind(),
    {
        match self {
            EventValue::Raw(_) => ValueType::Raw,
            EventValue::JSON(_) => ValueType::JSON,
        }
    }
}

/// An event on its way through the pipeline.
#[derive(Debug)]
pub struct EventData {
    pub value: EventValue,
}

/// Why an operator could not be created or could not handle an event.
#[derive(Debug)]
pub enum OpError {
    /// No operator of this group (first) has this name (second).
    UnknownOp(String, String),
    /// The operator named first got a payload of the second kind where it
    /// takes the third.
    Type(String, ValueType, ValueType),
    /// The options are not what the operator takes.
    BadOptions(String),
    /// A document could not be read or written.
    Json(serde_json::Error),
}

/// What an operator answers to an event.
#[derive(Debug)]
pub enum EventResult {
    /// The event goes on to the next step.
    Next(EventData),
    /// The event goes on to the output with this number.
    NextID(usize, EventData),
    /// The event ends here, with a failure.
    Error(OpError),
}

/// The failure that tells an operator's name and the payloads it got and takes.
pub open spec fn is_type_error(e: OpError, op: Seq<char>, got: ValueType, wanted: ValueType) -> bool {
    match e {
        OpError::Type(o, g, w) => o@ == op && g == got && w == wanted,
        _ => false,
    }
}

/// The failure for an event whose payload is of the wrong kind.
pub fn type_error(op: &str, got: ValueType, wanted: ValueType) -> (e: OpError)
    ensures
        is_type_error(e, op@, got, wanted),
{
    OpError::Type(op.to_owned(), got, wanted)
}

} // verus!
