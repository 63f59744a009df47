//! The decision logic of a blocking, timeout-bounded serial port on top of
//! the Win32 communications API, written so that it never touches the
//! operating system itself.
//!
//! Every operation is split into the calls it wants made ([`os::Call`]) and
//! the meaning of what the operating system answered ([`os::Reply`]). A thin
//! driver performs the calls; everything that is decided is decided here.

pub mod com;
pub mod config;
pub mod control;
pub mod dcb;
pub mod error;
pub mod os;
pub mod path;
pub mod resources;
pub mod settings;
pub mod time;
pub mod timeouts;
pub mod transfer;
pub mod winrt;
