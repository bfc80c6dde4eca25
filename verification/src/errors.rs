use vstd::prelude::*;

verus! {

/// Why a round step is refused. Every error is terminal for the round:
/// there is no retry and no partial tally.
#[derive(Clone, Copy, PartialEq, Eq, Structural, Debug)]
pub enum ProtocolError {
    /// A party's revealed value does not match its commitment signature;
    /// the field is the index of the first such party.
    InvalidSignature(usize),
    /// Resolution was invoked on an empty set of draw outputs.
    NoParticipants,
    /// An operation was invoked in a phase where it is not valid.
    WrongPhase,
    /// A party was queried for its committed value before committing.
    MissingCommitment,
    /// A party was queried for its draw output before drawing.
    MissingDrawOutput,
}

} // verus!
