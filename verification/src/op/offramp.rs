//! The offramps, which send events to systems outside the pipeline.

use crate::pipeline::OpError;
use vstd::prelude::*;

verus! {

/// The offramps that can be named.
#[derive(Clone, Copy, Debug, PartialEq, Eq)]
pub enum Offramp {
    Debug,
    Elastic,
    File,
    GCS,
    Influx,
    Kafka,
    Null,
    Stdout,
    Gpub,
}

/// The offramp that goes by `name`, if there is one.
pub open spec fn named(name: Seq<char>) -> Option<Offramp> {
    if name == "debug"@ {
        Some(Offramp::Debug)
    } else if name == "elastic"@ {
        Some(Offramp::Elastic)
    } else if name == "file"@ {
        Some(Offramp::File)
    } else if name == "gcs"@ {
        Some(Offramp::GCS)
    } else if name == "influx"@ {
        Some(Offramp::Influx)
    } else if name == "kafka"@ {
        Some(Offramp::Kafka)
    } else if name == "null"@ {
        Some(Offramp::Null)
    } else if name == "stdout"@ {
        Some(Offramp::Stdout)
    } else if name == "gpub"@ {
        Some(Offramp::Gpub)
    } else {
        None
    }
}

/// The failure for a name that no offramp has.
pub open spec fn is_unknown_offramp(e: OpError, name: Seq<char>) -> bool {
    match e {
        OpError::UnknownOp(group, n) => group@ == "offramp"@ && n@ == name,
        _ => false,
    }
}

impl Offramp {
    /// The offramp called `name`; any other name is unknown.
    pub fn create(name: &str) -> (made: Result<Offramp, OpError>)
        ensures
            match named(name@) {
                Some(offramp) => made.is_ok() && made.unwrap() == offramp,
                None => made.is_err() && is_unknown_offramp(made.unwrap_err(), name@),
            },
    {
        let owned = name.to_owned();
        if owned == "debug".to_owned() {
            Ok(Offramp::Debug)
        } else if owned == "elastic".to_owned() {
            Ok(Offramp::Elastic)
        } else if owned == "file".to_owned() {
            Ok(Offramp::File)
        } else if owned == "gcs".to_owned() {
            Ok(Offramp::GCS)
        } else if owned == "influx".to_owned() {
            Ok(Offramp::Influx)
        } else if owned == "kafka".to_owned() {
            Ok(Offramp::Kafka)
        } else if owned == "null".to_owned() {
            Ok(Offramp::Null)
        } else if owned == "stdout".to_owned() {
            Ok(Offramp::Stdout)
        } else if owned == "gpub".to_owned() {
            Ok(Offramp::Gpub)
        } else {
            Err(OpError::UnknownOp("offramp".to_owned(), owned))
        }
    }
}

} // verus!
