//! The opaque drawable-surface handle the renderer is built over.

use vstd::prelude::*;

verus! {

/// Marks a type as a platform-owned drawable-surface handle: one that
/// exposes both a window handle and a display handle to the GPU driver.
/// The library never looks inside such a handle; the driver that owns
/// the GPU objects implements this for its window type and builds the
/// presentable surface from it.
pub trait HasWindowAndDisplayHandle {

}

} // verus!
