//! Event-loop and render-state machine of a terminal system dashboard:
//! tab navigation, clamped scrolling, the run/quit lifecycle, and the
//! decision a loop iteration turns each timer tick or key press into.
//! The metrics snapshot, the terminal backend and the logger are outside
//! collaborators; the host facts they answer with are gathered through
//! sysinfo.

pub mod app;
pub mod error;
pub mod network;
pub mod scroll;
pub mod system;
pub mod widget;
