//! The failure taxonomy of the engine: five kinds, each carrying a short
//! fixed diagnostic message.

use vstd::prelude::*;

verus! {

/// Classified failure of one verification job. Every lower-level condition is
/// remapped into one of these kinds before it reaches a caller; the payload is
/// a short, fixed, operator-readable cause.
#[derive(Debug, Clone)]
pub enum Fault {
    /// The target was unreachable, or unresponsive before any protocol
    /// engagement: an environment condition, not a target bug.
    Offline(&'static str),
    /// The target responded but violated the wire contract (wrong banner,
    /// wrong template, timeout mid-exchange).
    ProtocolFault(&'static str),
    /// The target spoke the protocol correctly but returned wrong content:
    /// its functional behaviour is broken.
    VerificationFault(&'static str),
    /// The engine's own prerequisite state (a prior lifecycle record) is
    /// missing or unusable: a sequencing problem, not a target bug.
    StateFault(&'static str),
    /// A failure internal to the engine (store access, task join), unrelated
    /// to the target's behaviour.
    InternalFault(&'static str),
}

} // verus!
