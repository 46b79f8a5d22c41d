//! Error taxonomy of the packaging pipeline.
//!
//! Every stage failure is fatal to the current invocation: there is no retry
//! anywhere in the pipeline, and no envelope is produced on any failure path.

use vstd::prelude::*;

verus! {

/// The typed failures of the packaging pipeline, one per stage that can fail.
#[derive(Clone, Copy, Debug, PartialEq, Eq, Structural)]
pub enum CircomError {
    /// A circuit artifact was unreadable or malformed for the selected curve.
    CircuitLoad,
    /// The input assignment was inconsistent with the circuit's signal table.
    WitnessBuild,
    /// Key generation could not satisfy the constraint system.
    Setup,
    /// The witness failed to satisfy the constraints.
    Prove,
    /// The codec could not represent a value; defensive, not expected for
    /// well-formed group elements.
    Serialization,
    /// The envelope could not be written to its output location.
    Io,
    /// A packaged proof was rejected by the external verifier.
    InvalidProof,
}

impl CircomError {
    /// The stable numeric code of this error, for hosts that report failures
    /// as a small integer. A rejected proof keeps code zero; the pipeline
    /// stages follow in their execution order.
    pub fn code(&self) -> (r: u16)
        ensures
            r == self.code_spec(),
    {
        match self {
            CircomError::InvalidProof => 0,
            CircomError::CircuitLoad => 1,
            CircomError::WitnessBuild => 2,
            CircomError::Setup => 3,
            CircomError::Prove => 4,
            CircomError::Serialization => 5,
            CircomError::Io => 6,
        }
    }

    /// What `code` returns for each variant.
    pub open spec fn code_spec(&self) -> u16 {
        match self {
            CircomError::InvalidProof => 0,
            CircomError::CircuitLoad => 1,
            CircomError::WitnessBuild => 2,
            CircomError::Setup => 3,
            CircomError::Prove => 4,
            CircomError::Serialization => 5,
            CircomError::Io => 6,
        }
    }
}

} // verus!
