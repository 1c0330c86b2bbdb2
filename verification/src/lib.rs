//! Frame-driven animation state machines (tweens and springs) over a frame
//! clock, with the decisions of the `#[animate]` attribute expressed as
//! plain functions.

pub mod attribute;
pub mod clock;
pub mod distance;
pub mod mode;
pub mod spring;
pub mod text;
pub mod tween;

pub use clock::{frame, is_animating, tick, Clock};
pub use mode::{Alternate, Cycle, Mode, Once};
pub use spring::{Spring, SpringState};
pub use tween::{Tween, TweenState};
