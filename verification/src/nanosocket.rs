//! The plain socket wrapper: one native socket handle, addressed by the raw
//! numbers of the native library, with errors that carry the native return
//! code and the text that the system has for it.
//!
//! As in the typed wrapper, every operation has two halves: the first says
//! which native call is to be made, the second, named `finish..`, takes what
//! the call gave and says what the operation yields.

use crate::result::Error;
use crate::sys;
use crate::sys::{Call, OptVal, Outcome};
use crate::text::{c_string, has_nul};
use vstd::prelude::*;
use vstd::slice::slice_to_vec;
use vstd::string::StringSliceAdditionalSpecFns;

verus! {

/// A failure of a native call: the code that came with it, and the text that
/// describes it.
#[derive(Debug, PartialEq, Eq)]
pub struct NanoErr {
    pub rc: i32,
    pub errstr: String,
}

/// The number of bytes of a message of `received` bytes that are copied into
/// a buffer of `capacity` bytes: all of them, or as many as the buffer
/// holds.
pub open spec fn copied(received: nat, capacity: nat) -> nat {
    if received <= capacity {
        received
    } else {
        capacity
    }
}

/// A socket of the native library, known by its handle.
#[derive(Debug)]
pub struct NanoSocket {
    pub sock: i32,
}

impl NanoSocket {
    /// The call that creates a socket of the given domain and protocol.
    pub fn new(domain: i32, protocol: i32) -> (call: Call)
        ensures
            call == (Call::Socket { domain, protocol }),
    {
        Call::Socket { domain, protocol }
    }

    /// The socket that a create call gave, or its failure with the return
    /// code of the call and `errstr`.
    pub fn finish_new(outcome: Outcome, errstr: String) -> (created: Result<NanoSocket, NanoErr>)
        ensures
            outcome.failed() ==> created is Err && created->Err_0.rc == outcome.ret
                && created->Err_0.errstr@ == errstr@,
            !outcome.failed() ==> created is Ok && created->Ok_0.sock == outcome.ret,
    {
        if outcome.failed() {
            return Err(NanoErr { rc: outcome.ret, errstr });
        }
        Ok(NanoSocket { sock: outcome.ret })
    }

    /// Success, or the failure of a call with its return code and `errstr`,
    /// for a call that yields nothing else.
    pub fn finish(outcome: Outcome, errstr: String) -> (done: Result<(), NanoErr>)
        ensures
            outcome.failed() ==> done is Err && done->Err_0.rc == outcome.ret
                && done->Err_0.errstr@ == errstr@,
            !outcome.failed() ==> done is Ok,
    {
        if outcome.failed() {
            return Err(NanoErr { rc: outcome.ret, errstr });
        }
        Ok(())
    }

    /// The call that connects the socket to `addr`.
    ///
    /// The address is passed on as a C string. One that holds a NUL byte
    /// cannot be passed on: it is refused as invalid input, without a call.
    pub fn connect(&self, addr: &str) -> (call: Result<Call, Error>)
        ensures
            has_nul(addr.spec_bytes()) ==> call == Err::<Call, Error>(Error::InvalidInput),
            !has_nul(addr.spec_bytes()) ==> call is Ok && call->Ok_0.connects(
                self.sock,
                addr.spec_bytes().push(0u8),
            ),
    {
        match c_string(addr.as_bytes()) {
            Some(terminated) => Ok(Call::Connect { socket: self.sock, addr: terminated }),
            None => Err(Error::InvalidInput),
        }
    }

    /// The call that binds the socket to `addr`, to listen there.
    ///
    /// The address is passed on as a C string. One that holds a NUL byte
    /// cannot be passed on: it is refused as invalid input, without a call.
    pub fn bind(&self, addr: &str) -> (call: Result<Call, Error>)
        ensures
            has_nul(addr.spec_bytes()) ==> call == Err::<Call, Error>(Error::InvalidInput),
            !has_nul(addr.spec_bytes()) ==> call is Ok && call->Ok_0.binds(
                self.sock,
                addr.spec_bytes().push(0u8),
            ),
    {
        match c_string(addr.as_bytes()) {
            Some(terminated) => Ok(Call::Bind { socket: self.sock, addr: terminated }),
            None => Err(Error::InvalidInput),
        }
    }

    /// The call that subscribes the socket to the messages that begin with
    /// `prefix`.
    pub fn subscribe(&self, prefix: &[u8]) -> (call: Call)
        ensures
            call.sets_bytes(self.sock, sys::NN_SUB, sys::NN_SUB_SUBSCRIBE, prefix@),
    {
        Call::SetSockOpt {
            socket: self.sock,
            level: sys::NN_SUB,
            option: sys::NN_SUB_SUBSCRIBE,
            optval: OptVal::Bytes(slice_to_vec(prefix)),
            optvallen: prefix.len(),
        }
    }

    /// The call that sends `buf`, or none where `buf` is empty: an empty
    /// message is not sent, and the send succeeds at once.
    pub fn send(&self, buf: &[u8]) -> (call: Option<Call>)
        ensures
            buf.len() == 0 ==> call.is_none(),
            buf.len() != 0 ==> call == Some(
                Call::Send { socket: self.sock, len: buf.len(), flags: 0 },
            ),
    {
        if buf.len() == 0 {
            return None;
        }
        Some(Call::Send { socket: self.sock, len: buf.len(), flags: 0 })
    }

    /// The call that sends the bytes of a string, or none where it is
    /// empty.
    pub fn sendstr(&self, b: &str) -> (call: Option<Call>)
        ensures
            b.spec_bytes().len() == 0 ==> call.is_none(),
            b.spec_bytes().len() != 0 ==> call == Some(
                Call::Send { socket: self.sock, len: b.spec_bytes().len() as usize, flags: 0 },
            ),
    {
        self.send(b.as_bytes())
    }

    /// The call that receives a message of any size into a buffer of the
    /// native library.
    pub fn recv(&self) -> (call: Call)
        ensures
            call == (Call::Recv { socket: self.sock, len: sys::NN_MSG, flags: 0 }),
    {
        Call::Recv { socket: self.sock, len: sys::NN_MSG, flags: 0 }
    }

    /// The message that a receive gave, copied out of the buffer of the
    /// native library, which is to be freed afterwards; or the failure of
    /// the call with its return code and `errstr`.
    pub fn finish_recv(outcome: Outcome, errstr: String, msg: &[u8]) -> (received: Result<
        Vec<u8>,
        NanoErr,
    >)
        ensures
            outcome.failed() ==> received is Err && received->Err_0.rc == outcome.ret
                && received->Err_0.errstr@ == errstr@,
            !outcome.failed() ==> received is Ok && received->Ok_0@ == msg@,
    {
        if outcome.failed() {
            return Err(NanoErr { rc: outcome.ret, errstr });
        }
        Ok(slice_to_vec(msg))
    }

    /// The call that receives a message to read from: as `recv`.
    pub fn read(&self) -> (call: Call)
        ensures
            call == (Call::Recv { socket: self.sock, len: sys::NN_MSG, flags: 0 }),
    {
        self.recv()
    }

    /// Copies the message that a receive gave into `buf`, as far as it
    /// fits, and reports how many bytes were copied; reports nothing where
    /// the call failed.
    ///
    /// No byte is written beyond the message or beyond the buffer, and the
    /// rest of the buffer stays as it is.
    pub fn finish_read(outcome: Outcome, msg: &[u8], buf: &mut [u8]) -> (read: Option<usize>)
        ensures
            final(buf)@.len() == old(buf)@.len(),
            outcome.failed() ==> read.is_none() && final(buf)@ == old(buf)@,
            !outcome.failed() ==> read == Some(copied(msg@.len(), old(buf)@.len()) as usize)
                && final(buf)@ == msg@.subrange(0, copied(msg@.len(), old(buf)@.len()) as int)
                + old(buf)@.subrange(
                copied(msg@.len(), old(buf)@.len()) as int,
                old(buf)@.len() as int,
            ),
    {
        if outcome.failed() {
            return None;
        }
        let copylen = if msg.len() <= buf.len() {
            msg.len()
        } else {
            buf.len()
        };
        let mut i: usize = 0;
        while i < copylen
            invariant
                i <= copylen,
                copylen <= msg@.len(),
                copylen <= buf@.len(),
                buf@.len() == old(buf)@.len(),
                buf@ == msg@.subrange(0, i as int) + old(buf)@.subrange(
                    i as int,
                    old(buf)@.len() as int,
                ),
            decreases copylen - i,
        {
            buf[i] = msg[i];
            i += 1;
        }
        Some(copylen)
    }

    /// The call that sends `v`, or none where `v` is empty: as `send`.
    pub fn write(&self, v: &[u8]) -> (call: Option<Call>)
        ensures
            v.len() == 0 ==> call.is_none(),
            v.len() != 0 ==> call == Some(Call::Send { socket: self.sock, len: v.len(), flags: 0 }),
    {
        self.send(v)
    }

    /// The call that closes the socket. The value is given up with it.
    pub fn close(self) -> (call: Call)
        ensures
            call == (Call::Close { socket: self.sock }),
    {
        Call::Close { socket: self.sock }
    }
}

} // verus!
