//! The normalized event vocabulary the windowing layer delivers.
//!
//! The windowing layer translates native window events into exactly
//! these variants before the application state machine sees them. Two
//! lifecycle events (a close request and an escape-key press) become an
//! application exit and have no representation here; native events that
//! do not map to a variant are dropped by the windowing layer.

use vstd::prelude::*;

verus! {

/// The keys the application distinguishes. Every key other than the
/// geometry-spawn key arrives as `Other`.
#[derive(Clone, Copy, Debug)]
pub enum Key {
    /// The designated geometry-spawn key.
    Space,
    /// Any other key.
    Other,
}

/// Mouse buttons, normalized from the platform's vocabulary.
#[derive(Clone, Copy, Debug)]
pub enum MouseButton {
    Left,
    Right,
    Middle,
    Other,
}

/// A normalized input or lifecycle event.
///
/// Scalar float payloads (scale factor, cursor position, wheel delta)
/// are carried as IEEE-754 double-precision bit patterns; the state
/// machine forwards or drops them without reading them.
#[derive(Clone, Copy, Debug)]
pub enum Event {
    /// A key was pressed or released.
    KeyboardInput { key: Key, pressed: bool },
    /// The keyboard modifier state changed.
    ModifiersChanged,
    /// A mouse button was pressed or released.
    MouseInput { button: MouseButton, pressed: bool },
    /// The mouse wheel moved by the given normalized delta.
    MouseWheel { delta_x_bits: u64, delta_y_bits: u64 },
    /// The cursor moved to the given window position.
    CursorMoved { x_bits: u64, y_bits: u64 },
    /// The drawable surface changed to the given size and scale factor.
    Resize { width: u32, height: u32, scale_factor_bits: u64 },
    /// One frame should be drawn and presented.
    Render,
}

impl Event {
    /// The windowing layer only delivers resize events with nonzero
    /// dimensions: a surface must never be configured to zero size.
    pub open spec fn wf(&self) -> bool {
        match *self {
            Event::Resize { width, height, .. } => width > 0 && height > 0,
            _ => true,
        }
    }
}

} // verus!
