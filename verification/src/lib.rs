//! Command adapter for an SSD1325-class grayscale OLED controller.
//!
//! The adapter turns high-level display operations (initialize, clear, power
//! on/off, invert, blit a monochrome framebuffer) into the exact byte
//! sequences the controller's register interface expects, and coordinates a
//! side-band mode signal that must be asserted before each transfer.

pub mod adapter;
pub mod channel;
pub mod commands;
pub mod errors;
pub mod pixels;

pub use adapter::Ssd1325;
pub use channel::ControlChannel;
pub use channel::Delay;
pub use channel::DisplayMode;
pub use channel::ModeLog;
pub use channel::ModeOperation;
pub use channel::ModeRunError;
pub use channel::Transport;
pub use channel::WireEvent;
pub use channel::WireLog;
pub use errors::AdapterError;
pub use errors::DisplayError;
pub use errors::TransferFailure;
pub use pixels::unpack_line_for_display;
pub use pixels::unpack_pixels_for_display;
