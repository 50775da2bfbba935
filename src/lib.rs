//! A verified model of the scene-graph, display-geometry and command-dispatch
//! logic that drives a single-threaded native multimedia engine.
//!
//! Engine resources appear here as opaque integer handles. Every operation
//! that needs the engine returns a plain description of the native call to
//! make (which handle, which values), so that the caller on the confined
//! engine thread performs exactly that call.
use vstd::prelude::*;

pub mod context;
pub mod display;
pub mod handle;
pub mod runtime;
pub mod scene;

verus! {

/// Errors reported by the scene graph and the dispatcher.
#[derive(Debug, Clone, Copy, PartialEq, Eq, Structural)]
pub enum ObsError {
    /// No source with the requested name, or it is already in the requested state.
    SourceNotFound,
    /// The engine rejected a source descriptor.
    SourceCreationFailed,
    /// The dispatcher is not running (not started, shutting down or terminated).
    RuntimeUnavailable,
    /// A queued command was abandoned by shutdown before it ran.
    Cancelled,
}

/// A two-dimensional engine vector. Each coordinate holds the bit pattern of
/// an IEEE-754 single-precision value, so that values pass through unchanged.
#[derive(Debug, Clone, Copy, PartialEq, Eq, Structural)]
pub struct Vec2 {
    pub x: u32,
    pub y: u32,
}

impl Vec2 {
    pub fn new(x: u32, y: u32) -> (r: Vec2)
        ensures
            r.x == x,
            r.y == y,
    {
        Vec2 { x, y }
    }
}

} // verus!
