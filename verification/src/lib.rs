//! The verified core of a binding to the nanomsg scalable-messaging library.
//!
//! The native library does the messaging. What is decided here is which
//! native call an operation makes and with which arguments, what the outcome
//! of the call means, which error kind a native error code stands for, and
//! how the buffer of a received message is to be released. Nothing in this
//! crate calls the native library: each operation hands out a
//! [`sys::Call`] for its caller to perform and takes back a
//! [`sys::Outcome`].

pub mod endpoint;
pub mod message;
pub mod nanosocket;
pub mod poll;
pub mod result;
pub mod socket;
pub mod symbols;
pub mod sys;
pub mod text;

pub use crate::endpoint::Endpoint;
pub use crate::message::{HowToCleanup, NanoMsg};
pub use crate::nanosocket::{NanoErr, NanoSocket};
pub use crate::poll::{PollFd, PollInOut, PollRequest};
pub use crate::result::{Error, IoKind};
pub use crate::socket::{Protocol, Socket, Transport};
pub use crate::sys::{Call, OptVal, Outcome};
