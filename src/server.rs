//! The citation service, as a value that the hosting program runs.
use vstd::prelude::*;

verus! {

/// The citation service; it holds no state of its own.
pub struct Server;

impl Server {
    pub fn new() -> (r: Self) {
        Server
    }
}

} // verus!
