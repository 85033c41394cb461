//! A clear-colour frame loop: the colour that fills the window, the surface
//! configuration it is presented on, and the controller that turns window
//! events into commands for the renderer.
//!
//! Every channel is held in fixed point. One unit is `1 / FULL` of full
//! intensity, and a nanosecond of held button moves blue by a whole number
//! of units.

pub mod color;
pub mod frame;
pub mod surface;
