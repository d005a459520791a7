//! Control of one-time-password devices through a kernel driver.
//!
//! The library decides, for each command, which file is opened and how,
//! which bytes are written or which control code is issued, and what the
//! kernel's answer means. Performing the system calls is left to the caller,
//! which feeds their results back through [`protocol::step`].
pub mod command;
pub mod encoding;
pub mod protocol;
pub mod text;

pub use command::{Access, App, Command, Mode};
