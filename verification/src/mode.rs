//! Markers that pick how an animation behaves once it reaches its target.

use vstd::prelude::*;

verus! {

/// A playback mode: `Once`, `Cycle` or `Alternate`.
pub trait Mode {}

/// Play towards the target and stop there.
#[derive(Debug, Clone, Copy, Default)]
pub struct Once;

impl Mode for Once {}

/// Restart from the beginning each time the end is reached.
#[derive(Debug, Clone, Copy, Default)]
pub struct Cycle;

impl Mode for Cycle {}

/// Swap the two endpoints each time the end is reached.
#[derive(Debug, Clone, Copy, Default)]
pub struct Alternate;

impl Mode for Alternate {}

} // verus!
