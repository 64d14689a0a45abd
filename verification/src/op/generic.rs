//! Operators that steer events without looking at the payload.

use crate::op::route::{Config, Op};
use crate::pipeline::OpError;
use vstd::prelude::*;

verus! {

/// The generic operators.
#[derive(Clone, Debug)]
pub enum Generic {
    Copy,
    Count,
    Route(Op),
}

/// The failure for a name that no generic operator has.
pub open spec fn is_unknown_op(e: OpError, name: Seq<char>) -> bool {
    match e {
        OpError::UnknownOp(group, n) => group@ == "op"@ && n@ == name,
        _ => false,
    }
}

impl Generic {
    /// The operator called `name`: `copy`, `count` or `route`. The route
    /// operator is created from `route`, and refused without it; any other
    /// name is unknown.
    pub fn create(name: &str, route: Option<Config>) -> (made: Result<Generic, OpError>)
        ensures
            name@ == "copy"@ ==> made.is_ok() && made.unwrap() == Generic::Copy,
            name@ == "count"@ ==> made.is_ok() && made.unwrap() == Generic::Count,
            name@ == "route"@ ==> match route {
                Some(config) => {
                    &&& made.is_ok() <==> 3 + config.vals@.len() <= usize::MAX
                    &&& made.is_ok() ==> match made.unwrap() {
                        Generic::Route(op) => op.var() == config.var@ && forall|value: Seq<char>|
                            #[trigger] op.output(value) == crate::op::route::output_for(
                                config.vals@,
                                value,
                            ),
                        _ => false,
                    }
                },
                None => made.is_err() && made.unwrap_err() is BadOptions,
            },
            name@ != "copy"@ && name@ != "count"@ && name@ != "route"@ ==> made.is_err()
                && is_unknown_op(made.unwrap_err(), name@),
    {
        proof {
            reveal_strlit("copy");
            reveal_strlit("count");
            reveal_strlit("route");
            assert("copy"@.len() == 4 && "count"@.len() == 5 && "route"@.len() == 5);
            assert("count"@[0] == 'c' && "route"@[0] == 'r');
        }
        let owned = name.to_owned();
        if owned == "copy".to_owned() {
            Ok(Generic::Copy)
        } else if owned == "count".to_owned() {
            Ok(Generic::Count)
        } else if owned == "route".to_owned() {
            match route {
                Some(config) => match Op::create(config) {
                    Ok(op) => Ok(Generic::Route(op)),
                    Err(e) => Err(e),
                },
                None => Err(OpError::BadOptions("route takes a configuration".to_owned())),
            }
        } else {
            Err(OpError::UnknownOp("op".to_owned(), owned))
        }
    }
}

} // verus!
