//! What reaches the application from the terminal: a key, or a tick of the clock.
use vstd::prelude::*;
use crate::inputs::key::Key;

pub mod key;

verus! {

/// One event of the input source.
#[derive(Debug, Clone, Copy, PartialEq, Eq, Structural)]
pub enum InputEvent {
    /// A key was pressed.
    Input(Key),
    /// The tick interval passed without a key.
    Tick,
}

} // verus!
