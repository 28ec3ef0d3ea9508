//! The endpoints of a socket.

use crate::socket::Socket;
use crate::sys::Call;
use vstd::prelude::*;

verus! {

/// One binding or connection of a socket: the identifier that the native
/// library gave it, and the socket that it belongs to.
///
/// An endpoint does not own its socket; it borrows it. So no endpoint
/// outlives its socket, and a socket that still has endpoints in use cannot
/// be closed.
#[derive(Debug)]
pub struct Endpoint<'a> {
    value: i32,
    socket: &'a Socket,
}

impl<'a> Endpoint<'a> {
    /// The identifier of the endpoint.
    pub closed spec fn id(&self) -> i32 {
        self.value
    }

    /// The handle of the socket that the endpoint belongs to.
    pub closed spec fn owner(&self) -> i32 {
        self.socket.fd()
    }

    /// The endpoint of `socket` that the native library knows as `value`.
    pub fn new(value: i32, socket: &'a Socket) -> (endpoint: Endpoint<'a>)
        ensures
            endpoint.id() == value,
            endpoint.owner() == socket.fd(),
    {
        Endpoint { value, socket }
    }

    /// The identifier of the endpoint.
    #[verifier::when_used_as_spec(id)]
    pub fn value(&self) -> (value: i32)
        ensures
            value == self.id(),
    {
        self.value
    }

    /// The call that removes the endpoint from its socket. The endpoint is
    /// given up with it, so that it is removed once and no more.
    pub fn shutdown(self) -> (call: Call)
        ensures
            call == (Call::Shutdown { socket: self.owner(), how: self.id() }),
    {
        Call::Shutdown { socket: self.socket.raw(), how: self.value }
    }
}

} // verus!
