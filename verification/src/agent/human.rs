//! The holder type for a terminal-input agent. The input loop itself
//! (prompting, reading and re-prompting) lives outside the verified core;
//! `Action::from_name` does the parsing it relies on.

use vstd::prelude::*;

verus! {

/// Wraps the reader a terminal-input agent takes its text from.
pub struct HumanAgent<R> {
    pub reader: R,
}

impl<R> HumanAgent<R> {
    /// Creates a new `HumanAgent` with the given reader.
    pub fn new(reader: R) -> (agent: Self)
        ensures
            agent.reader == reader,
    {
        Self { reader }
    }
}

} // verus!
