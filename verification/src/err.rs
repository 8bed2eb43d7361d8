//! The error capability that every emitter error must satisfy, and the
//! concrete error types of this crate.

use vstd::prelude::*;

verus! {

/// The capability an emitter's error type must offer: it can always be
/// rendered as a non-empty, human-readable message.
pub trait Error {
    fn message(&self) -> (m: String)
        ensures
            m@.len() > 0,
    ;
}

/// The error the recording emitter reports when it refuses a call.
///
/// It carries no payload, so the error a traversal propagates is
/// necessarily the very value the emitter returned.
#[derive(Clone, Copy, PartialEq, Eq, Structural, Debug)]
pub enum SculptureError {
    Refused,
}

impl Error for SculptureError {
    fn message(&self) -> (m: String)
        ensures
            m@.len() > 0,
            m@ == "the emitter refused a call"@,
    {
        proof {
            reveal_strlit("the emitter refused a call");
        }
        "the emitter refused a call".to_owned()
    }
}

} // verus!
