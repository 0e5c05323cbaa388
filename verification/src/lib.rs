//! Error kinds for an operating-system runtime, and their relation to the
//! error numbers of Linux.
//!
//! [`AxError`] says in OS-independent terms why an operation failed;
//! [`LinuxError`] is the errno space of Linux. Every kind has an error
//! number, and the error numbers that some kind has can be turned back into a
//! kind.

pub mod ax_error;
pub mod convert;
pub mod laws;
pub mod linux_errno;

pub use ax_error::{AxError, AxResult, LinuxResult};
pub use linux_errno::LinuxError;
