use vstd::prelude::*;

verus! {

/// Marker that keeps [`crate::engine::definition::KnownEngineDefinition`] closed to
/// implementations outside this crate.
pub trait Sealed {}

} // verus!
