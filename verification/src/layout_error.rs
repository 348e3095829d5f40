//! Errors of the layout layer.
//!
//! Layout errors are structural, programmer-level errors: they are returned
//! to the caller of the failing operation so the current frame's render pass
//! can be aborted, never silently swallowed.

use vstd::prelude::*;

verus! {

/// The failure modes of building one layout pass.
#[derive(Clone, Copy, Debug, PartialEq, Eq, Structural)]
pub enum LayoutError {
    /// A root rectangle with a zero dimension was handed to `start`.
    InvalidRootSize,
    /// A requested size percentage lies outside `[0, 100]`.
    InvalidRequestedSizePercentage,
    /// Opening the box would push the running percentage total of the
    /// parent's children past 100 along the packing axis.
    SiblingLayoutOverflow,
    /// A style id was referenced that the active style sheet does not hold.
    UnknownStyleId,
    /// A style was added under an id the sheet already holds.
    DuplicateStyleId,
    /// `box_end` was called with no open box besides the root frame.
    MismatchedBoxEnd,
    /// `end` was called while boxes besides the root frame were still open.
    MismatchedSurfaceEnd,
}

} // verus!
