//! Routes an event by the value of one of its variables.
//!
//! The operator has one output for each string among the configured
//! values, numbered from 3 in the order of the configuration. An event
//! whose variable holds one of them leaves by that output; any other event
//! goes on to the next step.

use crate::pipeline::{ConfValue, EventData, EventResult, OpError};
use vstd::prelude::*;

verus! {

/// The number of the output of the first configured string.
pub const FIRST_OUTPUT: usize = 3;

/// The configuration of the operator.
#[derive(Clone, Debug)]
pub struct Config {
    /// The variable to route by.
    pub var: String,
    /// The values to look for; only strings count.
    pub vals: Vec<ConfValue>,
}

/// How many of `vals` are strings.
pub open spec fn strings_in(vals: Seq<ConfValue>) -> nat
    decreases vals.len(),
{
    if vals.len() == 0 {
        0
    } else {
        strings_in(vals.drop_last()) + match vals.last() {
            ConfValue::String(_) => 1nat,
            _ => 0nat,
        }
    }
}

/// The output for `value`: that of the last of `vals` that is this string,
/// which is `FIRST_OUTPUT` plus the number of strings before it.
pub open spec fn output_for(vals: Seq<ConfValue>, value: Seq<char>) -> Option<int>
    decreases vals.len(),
{
    if vals.len() == 0 {
        None
    } else {
        match vals.last() {
            ConfValue::String(s) => if s@ == value {
                Some(FIRST_OUTPUT + strings_in(vals.drop_last()))
            } else {
                output_for(vals.drop_last(), value)
            },
            _ => output_for(vals.drop_last(), value),
        }
    }
}

/// The outputs that a table of strings and numbers gives: the last entry
/// for a string decides.
pub open spec fn table_output(table: Seq<(String, usize)>, value: Seq<char>) -> Option<int>
    decreases table.len(),
{
    if table.len() == 0 {
        None
    } else if table.last().0@ == value {
        Some(table.last().1 as int)
    } else {
        table_output(table.drop_last(), value)
    }
}

/// The route operator.
#[derive(Clone, Debug)]
pub struct Op {
    var: String,
    table: Vec<(String, usize)>,
}

impl Op {
    /// The variable that the operator routes by.
    pub closed spec fn var(&self) -> Seq<char> {
        self.var@
    }

    /// The output that the operator sends a value of its variable to.
    pub closed spec fn output(&self, value: Seq<char>) -> Option<int> {
        table_output(self.table@, value)
    }

    /// The operator for `config`. It is refused where there are more
    /// values than outputs can be numbered.
    pub fn create(config: Config) -> (made: Result<Op, OpError>)
        ensures
            made.is_ok() <==> FIRST_OUTPUT + config.vals@.len() <= usize::MAX,
            made.is_ok() ==> made.unwrap().var() == config.var@ && forall|value: Seq<char>|
                #[trigger] made.unwrap().output(value) == output_for(config.vals@, value),
            made.is_err() ==> made.unwrap_err() is BadOptions,
    {
        let Config { var, vals } = config;
        if vals.len() > usize::MAX - FIRST_OUTPUT {
            return Err(OpError::BadOptions("too many values to route by".to_owned()));
        }
        let mut table: Vec<(String, usize)> = Vec::new();
        let mut next: usize = FIRST_OUTPUT;
        let mut i: usize = 0;
        while i < vals.len()
            invariant
                i <= vals.len(),
                vals.len() <= usize::MAX - FIRST_OUTPUT,
                next == FIRST_OUTPUT + strings_in(vals@.take(i as int)),
                strings_in(vals@.take(i as int)) <= i,
                forall|value: Seq<char>| #[trigger]
                    table_output(table@, value) == output_for(vals@.take(i as int), value),
            decreases vals.len() - i,
        {
            let ghost before = table@;
            proof {
                assert(vals@.take(i + 1).drop_last() =~= vals@.take(i as int));
                assert(vals@.take(i + 1).last() == vals@[i as int]);
            }
            match &vals[i] {
                ConfValue::String(s) => {
                    table.push((s.clone(), next));
                    proof {
                        assert(table@.drop_last() =~= before);
                    }
                    next = next + 1;
                },
                _ => {},
            }
            i = i + 1;
            assert forall|value: Seq<char>| #[trigger]
                table_output(table@, value) == output_for(vals@.take(i as int), value) by {
                assert(table_output(before, value) == output_for(vals@.take(i - 1), value));
            }
        }
        proof {
            assert(vals@.take(i as int) =~= vals@);
        }
        Ok(Op { var, table })
    }

    /// The output that `value` is routed to, if it has one.
    pub fn route(&self, value: &str) -> (output: Option<usize>)
        ensures
            match self.output(value@) {
                Some(n) => output == Some(n as usize) && n <= usize::MAX,
                None => output.is_none(),
            },
    {
        let mut i: usize = self.table.len();
        proof {
            assert(self.table@.take(i as int) =~= self.table@);
        }
        while i > 0
            invariant
                i <= self.table.len(),
                table_output(self.table@, value@) == table_output(
                    self.table@.take(i as int),
                    value@,
                ),
            decreases i,
        {
            proof {
                assert(self.table@.take(i as int).drop_last() =~= self.table@.take(i - 1));
                assert(self.table@.take(i as int).last() == self.table@[i - 1]);
            }
            i = i - 1;
            if self.table[i].0.as_str().to_owned() == value.to_owned() {
                return Some(self.table[i].1);
            }
        }
        proof {
            assert(self.table@.take(0).len() == 0);
        }
        None
    }

    /// An event whose variable holds a string with an output leaves by
    /// that output; any other goes on to the next step.
    pub fn on_event(&mut self, event: EventData, var_value: Option<&str>) -> (result: EventResult)
        ensures
            *final(self) == *old(self),
            result == match var_value {
                Some(v) => match old(self).output(v@) {
                    Some(n) => EventResult::NextID(n as usize, event),
                    None => EventResult::Next(event),
                },
                None => EventResult::Next(event),
            },
    {
        let routed = match var_value {
            Some(v) => self.route(v),
            None => None,
        };
        match routed {
            Some(n) => EventResult::NextID(n, event),
            None => EventResult::Next(event),
        }
    }
}

} // verus!
