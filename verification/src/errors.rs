//! Error types surfaced by the engine.

use vstd::prelude::*;

verus! {

/// An entity-store write failure, as the ingestion pipeline reports it.
#[derive(Debug)]
pub struct DatabaseError {
    pub message: String,
}

impl Clone for DatabaseError {
    fn clone(&self) -> (r: Self)
        ensures
            r == *self,
    {
        DatabaseError { message: self.message.clone() }
    }
}

/// The provider returned something that cannot be resolved to a playable
/// track: a non-track item (podcast episode or unknown payload), or a track
/// whose required fields are missing.
#[derive(Clone, Copy, PartialEq, Eq, Structural, Debug)]
pub enum TrackResolutionError {
    /// The playable item is not a music track.
    NotATrack,
    /// The track carries no ISRC.
    MissingIsrc,
}

} // verus!
