//! Controller for a desktop shell made of a persistent main window and a
//! tray-triggered popup menu.
//!
//! The crate decides; it never touches a window itself. Every operation takes
//! the current state and an input and returns the effects the embedding shell
//! has to carry out, in order, together with the next state.

pub mod command;
pub mod effect;
pub mod geometry;
pub mod install;
pub mod popup;
pub mod storage;
pub mod tray;
pub mod window;
