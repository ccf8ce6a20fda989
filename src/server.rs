//! The HTTP front: health and statistics answers.
use vstd::prelude::*;

verus! {

/// The simulation's HTTP server. It holds no state of its own.
#[derive(Clone, Copy, Debug, PartialEq, Eq, Structural)]
pub struct SimulationServer;

impl SimulationServer {
    /// A server.
    pub fn new() -> (r: SimulationServer)
        ensures
            r == SimulationServer,
    {
        SimulationServer
    }

    /// The body of the health check.
    pub fn health_check(&self) -> (r: &'static str)
        ensures
            r@ == "OK"@,
    {
        "OK"
    }
}

} // verus!
