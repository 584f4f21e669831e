//! Identities and sizes that the other modules share.

use vstd::prelude::*;

verus! {

/// The identity of a node of the page. Two targets of events are the same object exactly when
/// they carry the same identity.
#[derive(Clone, Copy, PartialEq, Eq, Debug, Structural)]
pub struct NodeId(pub u32);

/// The identity of a window of the application.
#[derive(Clone, Copy, PartialEq, Eq, Debug, Structural)]
pub struct WindowId(pub u32);

/// A size in device pixels.
#[derive(Clone, Copy, PartialEq, Eq, Debug, Structural)]
pub struct PhysicalSize {
    pub width: u32,
    pub height: u32,
}

/// A read of the page that the browser refused.
#[derive(Clone, Copy, PartialEq, Eq, Debug, Structural)]
pub struct ReadError;

} // verus!
