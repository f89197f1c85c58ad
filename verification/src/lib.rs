//! The decision-making core of a shell that runs a Doom engine behind a
//! system-tray icon: the frame-to-icon pixel transform, the FIFO queue of
//! key events between the message loop and the engine's input poll, the
//! virtual-key mapping, the tray-message builder, and the session arena
//! that hands the host opaque handles. Platform calls and the engine's
//! run loop live outside; everything here is verified.

pub mod frame;
pub mod input;
pub mod queue;
pub mod session;
pub mod tray_icon_message;
pub mod window;
