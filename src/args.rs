//! The options a match is started with.
use vstd::prelude::*;

verus! {

/// Start options: `synctest` runs both seats locally with immediate
/// confirmation; `iroh` is the room token peers rendezvous on.
pub struct Args {
    pub synctest: bool,
    pub iroh: String,
}

impl Args {
    /// Whether the session is to be played over the network.
    pub fn p2p_mode(&self) -> (r: bool)
        ensures
            r == !self.synctest,
    {
        !self.synctest
    }

    /// Whether the session is to be run as a local consistency test.
    pub fn synctest_mode(&self) -> (r: bool)
        ensures
            r == self.synctest,
    {
        self.synctest
    }
}

} // verus!
