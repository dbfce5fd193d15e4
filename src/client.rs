use vstd::prelude::*;
use crate::height::{Height, Timestamp};

verus! {

/// What the engine reads of a light client's state.
#[derive(Clone, Copy, Debug, PartialEq, Eq, Structural)]
pub struct ClientState {
    pub latest_height: Height,
    pub frozen: bool,
}

/// What the engine reads of a consensus state recorded by a light client.
#[derive(Clone, Copy, Debug, PartialEq, Eq, Structural)]
pub struct ConsensusState {
    pub timestamp: Timestamp,
}

impl ConsensusState {
    pub fn timestamp(&self) -> (r: Timestamp)
        ensures
            r == self.timestamp,
    {
        self.timestamp
    }
}

} // verus!
