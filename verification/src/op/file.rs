//! Writes events to a file, one event on each line.

use crate::pipeline::{is_type_error, type_error, EventData, EventValue, OpError, ValueType};
use vstd::prelude::*;

verus! {

/// The configuration of the file offramp.
#[derive(Clone, Debug)]
pub struct Config {
    /// The name of the file to write to.
    pub file: String,
}

/// The byte that ends a line.
pub const LINE_END: u8 = 10;

/// The line that the file gets for `event`: its raw payload and a line
/// end. An event with another payload is refused.
pub fn event_line(event: &EventData) -> (line: Result<Vec<u8>, OpError>)
    ensures
        match event.value {
            EventValue::Raw(raw) => line.is_ok() && line.unwrap()@ == raw@.push(LINE_END),
            EventValue::JSON(_) => line.is_err() && is_type_error(
                line.unwrap_err(),
                "offramp::file"@,
                ValueType::JSON,
                ValueType::Raw,
            ),
        },
{
    match &event.value {
        EventValue::Raw(raw) => {
            let mut line: Vec<u8> = Vec::new();
            let mut i: usize = 0;
            while i < raw.len()
                invariant
                    i <= raw.len(),
                    line@ == raw@.take(i as int),
                decreases raw.len() - i,
            {
                line.push(raw[i]);
                i = i + 1;
                assert(raw@.take(i as int) =~= raw@.take(i - 1).push(raw@[i - 1]));
            }
            assert(raw@.take(i as int) =~= raw@);
            line.push(LINE_END);
            Ok(line)
        },
        EventValue::JSON(_) => Err(type_error("offramp::file", ValueType::JSON, ValueType::Raw)),
    }
}

} // verus!
