//! Operators that read a raw payload as a JSON document and write one back
//! as raw bytes. Neither takes any configuration.

use crate::pipeline::{
    is_type_error, type_error, ConfValue, EventData, EventResult, EventValue, OpError, ValueType,
};
use vstd::prelude::*;

verus! {

/// Calls `serde_json::from_slice` for a `serde_json::Value`. Nothing is
/// claimed of what it returns.
#[verifier::external_body]
fn json_from_slice(raw: &[u8]) -> (doc: Result<serde_json::Value, serde_json::Error>) {
    serde_json::from_slice::<serde_json::Value>(raw)
}

/// Calls `serde_json::to_vec` on a `serde_json::Value`. Nothing is claimed
/// of what it returns.
#[verifier::external_body]
fn json_to_vec(doc: &serde_json::Value) -> (raw: Result<Vec<u8>, serde_json::Error>) {
    serde_json::to_vec::<serde_json::Value>(doc)
}

/// Reads raw payloads as JSON.
#[derive(Debug)]
pub struct Parser {}

/// Writes JSON payloads as raw bytes.
#[derive(Debug)]
pub struct Renderer {}

/// The answer of the parser once the raw payload has been read: the
/// document goes on, a failure ends the event.
pub fn parsed(doc: Result<serde_json::Value, serde_json::Error>) -> (result: EventResult)
    ensures
        match doc {
            Ok(d) => result == EventResult::Next(EventData { value: EventValue::JSON(d) }),
            Err(e) => result == EventResult::Error(OpError::Json(e)),
        },
{
    match doc {
        Ok(d) => EventResult::Next(EventData { value: EventValue::JSON(d) }),
        Err(e) => EventResult::Error(OpError::Json(e)),
    }
}

/// The answer of the renderer once the document has been written: the
/// bytes go on, a failure ends the event.
pub fn rendered(raw: Result<Vec<u8>, serde_json::Error>) -> (result: EventResult)
    ensures
        match raw {
            Ok(r) => result == EventResult::Next(EventData { value: EventValue::Raw(r) }),
            Err(e) => result == EventResult::Error(OpError::Json(e)),
        },
{
    match raw {
        Ok(r) => EventResult::Next(EventData { value: EventValue::Raw(r) }),
        Err(e) => EventResult::Error(OpError::Json(e)),
    }
}

/// Is `result` an answer that carries a payload of this kind on, or a
/// failure to read or write a document?
pub open spec fn converted_to(result: EventResult, kind: ValueType) -> bool {
    match result {
        EventResult::Next(event) => event.value.kind() == kind,
        EventResult::Error(OpError::Json(_)) => true,
        _ => false,
    }
}

/// Is `result` the failure of the operator `op`, which takes `wanted`, on a
/// payload of the kind `got`?
pub open spec fn refused(result: EventResult, op: Seq<char>, got: ValueType, wanted: ValueType) -> bool {
    match result {
        EventResult::Error(e) => is_type_error(e, op, got, wanted),
        _ => false,
    }
}

impl Parser {
    /// A parser; the options are not looked at.
    pub fn create(_opts: &ConfValue) -> (made: Result<Parser, OpError>)
        ensures
            made.is_ok(),
    {
        Ok(Parser {  })
    }

    /// A raw payload is read as a JSON document, which goes on in its
    /// place; a JSON payload is refused.
    pub fn on_event(&mut self, event: EventData) -> (result: EventResult)
        ensures
            event.value.kind() == ValueType::Raw ==> converted_to(result, ValueType::JSON),
            event.value.kind() == ValueType::JSON ==> refused(
                result,
                "parse::json"@,
                ValueType::JSON,
                ValueType::Raw,
            ),
    {
        match event.value {
            EventValue::Raw(raw) => parsed(json_from_slice(raw.as_slice())),
            EventValue::JSON(_) => EventResult::Error(
                type_error("parse::json", ValueType::JSON, ValueType::Raw),
            ),
        }
    }
}

impl Renderer {
    /// A renderer; the options are not looked at.
    pub fn create(_opts: &ConfValue) -> (made: Result<Renderer, OpError>)
        ensures
            made.is_ok(),
    {
        Ok(Renderer {  })
    }

    /// A JSON payload is written as bytes, which go on in its place; a raw
    /// payload is refused.
    pub fn on_event(&mut self, event: EventData) -> (result: EventResult)
        ensures
            event.value.kind() == ValueType::JSON ==> converted_to(result, ValueType::Raw),
            event.value.kind() == ValueType::Raw ==> refused(
                result,
                "render::json"@,
                ValueType::Raw,
                ValueType::JSON,
            ),
    {
        match event.value {
            EventValue::JSON(doc) => rendered(json_to_vec(&doc)),
            EventValue::Raw(_) => EventResult::Error(
                type_error("render::json", ValueType::Raw, ValueType::JSON),
            ),
        }
    }
}

} // verus!
