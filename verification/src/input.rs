//! The input that reads lines and hands them to the first pipeline.

use vstd::prelude::*;

verus! {

/// The line input.
#[derive(Clone, Copy, Debug, PartialEq, Eq)]
pub struct Input {
    ff: bool,
}

impl Input {
    /// Does the input drop a line that the pipeline has no room for,
    /// instead of waiting?
    pub closed spec fn fire_and_forget(&self) -> bool {
        self.ff
    }

    /// An input that waits for room in the pipeline, unless the options
    /// are `fire-and-forget`.
    pub fn new(opts: &str) -> (input: Input)
        ensures
            input.fire_and_forget() == (opts@ == "fire-and-forget"@),
    {
        if opts.to_owned() == "fire-and-forget".to_owned() {
            Input { ff: true }
        } else {
            Input { ff: false }
        }
    }

    /// Does the input drop a line that the pipeline has no room for?
    pub fn is_fire_and_forget(&self) -> (yes: bool)
        ensures
            yes == self.fire_and_forget(),
    {
        self.ff
    }
}

} // verus!
