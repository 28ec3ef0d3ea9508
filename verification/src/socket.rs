//! The socket wrapper: one native socket handle, the calls that work on it,
//! and what their outcomes mean.
//!
//! Every operation has two halves. The first, named as the operation, says
//! which native call is to be made; where the arguments cannot be passed on
//! it fails without a call. The second, named `finish_..`, takes what the
//! call gave and says what the operation yields.

use crate::endpoint::Endpoint;
use crate::poll::{PollFd, PollInOut, PollRequest};
use crate::result::{io_error_kind, io_error_text, Error, IoKind};
use crate::sys;
use crate::sys::{nn_pollfd, Call, OptVal, Outcome};
use crate::text::{
    before_nul, c_string, contains_nul, has_nul, push_str, string_from_utf8,
    string_from_utf8_lossy, until_nul, utf8_lossy,
};
use vstd::prelude::*;
use vstd::slice::slice_to_vec;
use vstd::string::StringSliceAdditionalSpecFns;
use vstd::utf8::*;

verus! {

/// The protocols of the native library. A socket follows one protocol, which
/// decides what it can do: a `Push` socket, for one, can only send.
#[derive(Debug, PartialEq, Eq, Clone, Copy, Structural)]
pub enum Protocol {
    /// Sends requests and receives replies.
    Req,
    /// Receives requests and sends replies.
    Rep,
    /// Sends messages to a cluster of load-balanced nodes.
    Push,
    /// Receives messages from a cluster of nodes.
    Pull,
    /// Talks to exactly one peer.
    Pair,
    /// Sends to all nodes of the topology and receives from all.
    Bus,
    /// Distributes messages to all that subscribed.
    Pub,
    /// Receives the messages of the topics that it subscribed to.
    Sub,
    /// Sends a survey and receives the responses.
    Surveyor,
    /// Receives a survey and responds to it.
    Respondent,
}

impl Protocol {
    /// The number that the native library knows the protocol by.
    pub open spec fn raw(&self) -> i32 {
        match self {
            Protocol::Req => sys::NN_REQ,
            Protocol::Rep => sys::NN_REP,
            Protocol::Push => sys::NN_PUSH,
            Protocol::Pull => sys::NN_PULL,
            Protocol::Pair => sys::NN_PAIR,
            Protocol::Bus => sys::NN_BUS,
            Protocol::Pub => sys::NN_PUB,
            Protocol::Sub => sys::NN_SUB,
            Protocol::Surveyor => sys::NN_SURVEYOR,
            Protocol::Respondent => sys::NN_RESPONDENT,
        }
    }

    /// The number that the native library knows the protocol by.
    #[verifier::when_used_as_spec(raw)]
    pub fn to_raw(&self) -> (raw: i32)
        ensures
            raw == self.raw(),
    {
        match self {
            Protocol::Req => sys::NN_REQ,
            Protocol::Rep => sys::NN_REP,
            Protocol::Push => sys::NN_PUSH,
            Protocol::Pull => sys::NN_PULL,
            Protocol::Pair => sys::NN_PAIR,
            Protocol::Bus => sys::NN_BUS,
            Protocol::Pub => sys::NN_PUB,
            Protocol::Sub => sys::NN_SUB,
            Protocol::Surveyor => sys::NN_SURVEYOR,
            Protocol::Respondent => sys::NN_RESPONDENT,
        }
    }
}

/// The transports of the native library.
#[derive(Debug, PartialEq, Eq, Clone, Copy, Structural)]
pub enum Transport {
    /// Within the process.
    Inproc,
    /// Between processes of one machine.
    Ipc,
    /// Over TCP.
    Tcp,
}

impl Transport {
    /// The number that the native library knows the transport by.
    pub open spec fn raw(&self) -> i32 {
        match self {
            Transport::Inproc => sys::NN_INPROC,
            Transport::Ipc => sys::NN_IPC,
            Transport::Tcp => sys::NN_TCP,
        }
    }

    /// The number that the native library knows the transport by.
    #[verifier::when_used_as_spec(raw)]
    pub fn to_raw(&self) -> (raw: i32)
        ensures
            raw == self.raw(),
    {
        match self {
            Transport::Inproc => sys::NN_INPROC,
            Transport::Ipc => sys::NN_IPC,
            Transport::Tcp => sys::NN_TCP,
        }
    }
}

/// The number for a switch that is on or off, as the native library takes
/// it.
pub open spec fn flag(on: bool) -> i32 {
    if on {
        1
    } else {
        0
    }
}

/// The number for a switch that is on or off.
pub fn bool_to_c_int(on: bool) -> (number: i32)
    ensures
        number == flag(on),
{
    if on {
        1
    } else {
        0
    }
}

/// The number of bytes that a receive into a buffer of `capacity` bytes
/// stored, when the message had `received` bytes: all of them, or as many as
/// the buffer holds.
pub open spec fn clamped(received: int, capacity: int) -> int {
    if received <= capacity {
        received
    } else {
        capacity
    }
}

/// An open socket of the native library.
///
/// A value of this type stands for one handle that the native library gave
/// out and that was not closed since. No value is made for a socket that
/// could not be created, and `close` takes the value away.
#[derive(Debug)]
pub struct Socket {
    socket: i32,
}

impl Socket {
    /// The handle is one that the native library gave out: it is not
    /// negative.
    #[verifier::type_invariant]
    spec fn holds_a_handle(self) -> bool {
        self.socket >= 0
    }

    /// The handle of the socket.
    pub closed spec fn fd(&self) -> i32 {
        self.socket
    }

    /// The handle of the socket. It is not negative.
    #[verifier::when_used_as_spec(fd)]
    pub fn raw(&self) -> (fd: i32)
        ensures
            fd == self.fd(),
            fd >= 0,
    {
        proof {
            use_type_invariant(self);
        }
        self.socket
    }

    /// The call that creates a socket of the given protocol.
    pub fn new(protocol: Protocol) -> (call: Call)
        ensures
            call == (Call::Socket { domain: sys::AF_SP, protocol: protocol.raw() }),
    {
        Socket::create_socket(sys::AF_SP, protocol)
    }

    /// The call that creates a raw socket of the given protocol, for use in
    /// a device.
    pub fn new_for_device(protocol: Protocol) -> (call: Call)
        ensures
            call == (Call::Socket { domain: sys::AF_SP_RAW, protocol: protocol.raw() }),
    {
        Socket::create_socket(sys::AF_SP_RAW, protocol)
    }

    fn create_socket(domain: i32, protocol: Protocol) -> (call: Call)
        ensures
            call == (Call::Socket { domain, protocol: protocol.raw() }),
    {
        Call::Socket { domain, protocol: protocol.to_raw() }
    }

    /// The socket that a create call gave, or the kind of its failure.
    pub fn finish_create(outcome: Outcome) -> (created: Result<Socket, Error>)
        ensures
            outcome.failed() ==> created == Err::<Socket, Error>(Error::of_code(outcome.errno)),
            !outcome.failed() ==> created is Ok && created->Ok_0.fd() == outcome.ret,
    {
        match outcome.check() {
            Ok(socket) => Ok(Socket { socket }),
            Err(kind) => Err(kind),
        }
    }

    /// The call that closes the socket. The value is given up with it:
    /// nothing can be done on a closed socket.
    pub fn close(self) -> (call: Call)
        ensures
            call == (Call::Close { socket: self.fd() }),
    {
        Call::Close { socket: self.socket }
    }

    /// The call that adds a local endpoint at `addr` to the socket.
    ///
    /// The address is passed on as a C string. One that holds a NUL byte
    /// cannot be passed on: it is refused as invalid input, without a call.
    pub fn bind(&self, addr: &str) -> (call: Result<Call, Error>)
        ensures
            has_nul(addr.spec_bytes()) ==> call == Err::<Call, Error>(Error::InvalidInput),
            !has_nul(addr.spec_bytes()) ==> call is Ok && call->Ok_0.binds(
                self.fd(),
                addr.spec_bytes().push(0u8),
            ),
    {
        match c_string(addr.as_bytes()) {
            Some(terminated) => Ok(Call::Bind { socket: self.socket, addr: terminated }),
            None => Err(Error::InvalidInput),
        }
    }

    /// The call that adds a remote endpoint at `addr` to the socket.
    ///
    /// The address is passed on as a C string. One that holds a NUL byte
    /// cannot be passed on: it is refused as invalid input, without a call.
    pub fn connect(&self, addr: &str) -> (call: Result<Call, Error>)
        ensures
            has_nul(addr.spec_bytes()) ==> call == Err::<Call, Error>(Error::InvalidInput),
            !has_nul(addr.spec_bytes()) ==> call is Ok && call->Ok_0.connects(
                self.fd(),
                addr.spec_bytes().push(0u8),
            ),
    {
        match c_string(addr.as_bytes()) {
            Some(terminated) => Ok(Call::Connect { socket: self.socket, addr: terminated }),
            None => Err(Error::InvalidInput),
        }
    }

    /// The endpoint that a bind or connect call made on this socket, or the
    /// kind of its failure.
    pub fn finish_endpoint<'a>(&'a self, outcome: Outcome) -> (endpoint: Result<
        Endpoint<'a>,
        Error,
    >)
        ensures
            outcome.failed() ==> endpoint == Err::<Endpoint<'a>, Error>(
                Error::of_code(outcome.errno),
            ),
            !outcome.failed() ==> endpoint is Ok && endpoint->Ok_0.id() == outcome.ret
                && endpoint->Ok_0.owner() == self.fd(),
    {
        match outcome.check() {
            Ok(id) => Ok(Endpoint::new(id, self)),
            Err(kind) => Err(kind),
        }
    }

    /// The call that receives a message into `buf` and blocks until one is
    /// there.
    pub fn read(&self, buf: &[u8]) -> (call: Call)
        ensures
            call == (Call::Recv { socket: self.fd(), len: buf.len(), flags: 0 }),
    {
        Call::Recv { socket: self.socket, len: buf.len(), flags: 0 }
    }

    /// The call that receives a message into `buf` if one is there, and
    /// fails at once with `TryAgain` if none is.
    pub fn nb_read(&self, buf: &[u8]) -> (call: Call)
        ensures
            call == (Call::Recv {
                socket: self.fd(),
                len: buf.len(),
                flags: sys::NN_DONTWAIT,
            }),
    {
        Call::Recv { socket: self.socket, len: buf.len(), flags: sys::NN_DONTWAIT }
    }

    /// What a receive into a buffer of `buf_len` bytes yields: the kind of
    /// its failure, or the number of bytes that it stored.
    pub open spec fn received(outcome: Outcome, buf_len: usize) -> Result<usize, Error> {
        if outcome.failed() {
            Err(Error::of_code(outcome.errno))
        } else {
            Ok(clamped(outcome.ret as int, buf_len as int) as usize)
        }
    }

    /// A receive that found no message yields no success, of whatever
    /// length: it yields the kind of the failure, which is `TryAgain` where
    /// the native library said that the call would have blocked. And a
    /// receive that found one never reports more bytes than the buffer
    /// holds.
    pub proof fn lemma_receive(outcome: Outcome, buf_len: usize)
        ensures
            outcome.failed() ==> Self::received(outcome, buf_len) is Err,
            outcome.failed() && outcome.errno == sys::EAGAIN ==> Self::received(outcome, buf_len)
                == Err::<usize, Error>(Error::TryAgain),
            !outcome.failed() ==> Self::received(outcome, buf_len) is Ok && Self::received(
                outcome,
                buf_len,
            )->Ok_0 <= buf_len && Self::received(outcome, buf_len)->Ok_0 <= outcome.ret,
    {
        Error::lemma_code_round_trip(Error::TryAgain);
    }

    /// The number of bytes that a receive stored in a buffer of `buf_len`
    /// bytes, or the kind of its failure.
    ///
    /// The native call reports the length of the message, which may be more
    /// than the buffer holds; the bytes beyond the buffer are lost. What is
    /// reported here is never more than `buf_len`.
    pub fn finish_nb_read(outcome: Outcome, buf_len: usize) -> (stored: Result<usize, Error>)
        ensures
            stored == Self::received(outcome, buf_len),
    {
        match outcome.check() {
            Ok(received) => {
                let received = received as usize;
                if received <= buf_len {
                    Ok(received)
                } else {
                    Ok(buf_len)
                }
            },
            Err(kind) => Err(kind),
        }
    }

    /// As `finish_nb_read`, with the failure as an error of `std::io` that
    /// shows `description`.
    pub fn finish_read(outcome: Outcome, buf_len: usize, description: String) -> (stored: Result<
        usize,
        std::io::Error,
    >)
        ensures
            outcome.failed() ==> stored is Err && io_error_kind(stored->Err_0) == Error::of_code(
                outcome.errno,
            ).io_kind() && io_error_text(stored->Err_0) == description@,
            !outcome.failed() ==> stored is Ok && stored->Ok_0 == clamped(
                outcome.ret as int,
                buf_len as int,
            ),
    {
        match Socket::finish_nb_read(outcome, buf_len) {
            Ok(stored) => Ok(stored),
            Err(kind) => Err(kind.into_io_error(description)),
        }
    }

    /// The call that receives a message of any size into a buffer of the
    /// native library, and blocks until one is there.
    pub fn read_to_end(&self) -> (call: Call)
        ensures
            call == (Call::Recv { socket: self.fd(), len: sys::NN_MSG, flags: 0 }),
    {
        Call::Recv { socket: self.socket, len: sys::NN_MSG, flags: 0 }
    }

    /// The call that receives a message of any size into a buffer of the
    /// native library if one is there, and fails at once with `TryAgain` if
    /// none is.
    pub fn nb_read_to_end(&self) -> (call: Call)
        ensures
            call == (Call::Recv { socket: self.fd(), len: sys::NN_MSG, flags: sys::NN_DONTWAIT }),
    {
        Call::Recv { socket: self.socket, len: sys::NN_MSG, flags: sys::NN_DONTWAIT }
    }

    /// Appends the message that a receive gave to `buf` and reports its
    /// length, or reports the kind of the failure and leaves `buf` as it is.
    ///
    /// `msg` is the message in the buffer of the native library, which is to
    /// be freed afterwards.
    pub fn finish_nb_read_to_end(outcome: Outcome, msg: &[u8], buf: &mut Vec<u8>) -> (received:
        Result<usize, Error>)
        ensures
            outcome.failed() ==> received == Err::<usize, Error>(Error::of_code(outcome.errno))
                && final(buf)@ == old(buf)@,
            !outcome.failed() ==> received == Ok::<usize, Error>(msg.len()) && final(buf)@
                == old(buf)@ + msg@,
    {
        match outcome.check() {
            Ok(_) => {
                buf.extend_from_slice(msg);
                Ok(msg.len())
            },
            Err(kind) => Err(kind),
        }
    }

    /// As `finish_nb_read_to_end`, with the failure as an error of `std::io`
    /// that shows `description`.
    pub fn finish_read_to_end(
        outcome: Outcome,
        msg: &[u8],
        buf: &mut Vec<u8>,
        description: String,
    ) -> (received: Result<usize, std::io::Error>)
        ensures
            outcome.failed() ==> received is Err && io_error_kind(received->Err_0)
                == Error::of_code(outcome.errno).io_kind() && io_error_text(received->Err_0)
                == description@ && final(buf)@ == old(buf)@,
            !outcome.failed() ==> received is Ok && received->Ok_0 == msg.len() && final(buf)@
                == old(buf)@ + msg@,
    {
        match Socket::finish_nb_read_to_end(outcome, msg, buf) {
            Ok(received) => Ok(received),
            Err(kind) => Err(kind.into_io_error(description)),
        }
    }

    /// The call that receives a message that is to be read as text: as
    /// `read_to_end`.
    pub fn read_to_string(&self) -> (call: Call)
        ensures
            call == (Call::Recv { socket: self.fd(), len: sys::NN_MSG, flags: 0 }),
    {
        self.read_to_end()
    }

    /// Appends the text of the message that a receive gave to `buf` and
    /// reports the length of the message.
    ///
    /// Where the call failed, the result is its failure as an error of
    /// `std::io` that shows `description`. Where the message is not UTF-8,
    /// the result is an error of the kind `Other`. In both cases `buf` stays
    /// as it is.
    pub fn finish_read_to_string(
        outcome: Outcome,
        msg: &[u8],
        buf: &mut String,
        description: String,
    ) -> (received: Result<usize, std::io::Error>)
        ensures
            outcome.failed() ==> received is Err && io_error_kind(received->Err_0)
                == Error::of_code(outcome.errno).io_kind() && io_error_text(received->Err_0)
                == description@ && final(buf)@ == old(buf)@,
            !outcome.failed() && !valid_utf8(msg@) ==> received is Err && io_error_kind(
                received->Err_0,
            ) == IoKind::Other && io_error_text(received->Err_0) == "UTF8 conversion failed !"@
                && final(buf)@ == old(buf)@,
            !outcome.failed() && valid_utf8(msg@) ==> received is Ok && received->Ok_0
                == msg.len() && final(buf)@ == old(buf)@ + decode_utf8(msg@),
    {
        match outcome.io_check(description) {
            Ok(_) => match string_from_utf8(slice_to_vec(msg)) {
                Some(text) => {
                    push_str(buf, text.as_str());
                    Ok(msg.len())
                },
                None => Err(
                    Error::Unknown.into_io_error("UTF8 conversion failed !".to_string()),
                ),
            },
            Err(failure) => Err(failure),
        }
    }

    /// The call that sends `buf` and blocks until the message is taken.
    pub fn write(&self, buf: &[u8]) -> (call: Call)
        ensures
            call == (Call::Send { socket: self.fd(), len: buf.len(), flags: 0 }),
    {
        Call::Send { socket: self.socket, len: buf.len(), flags: 0 }
    }

    /// The call that sends `buf` if the message can be taken, and fails at
    /// once with `TryAgain` if it cannot.
    pub fn nb_write(&self, buf: &[u8]) -> (call: Call)
        ensures
            call == (Call::Send {
                socket: self.fd(),
                len: buf.len(),
                flags: sys::NN_DONTWAIT,
            }),
    {
        Call::Send { socket: self.socket, len: buf.len(), flags: sys::NN_DONTWAIT }
    }

    /// The call that sends a message that `allocate_msg` made. The message
    /// passes to the native library with the call: it is not to be used or
    /// freed afterwards.
    pub fn zc_write(&self) -> (call: Call)
        ensures
            call == (Call::Send { socket: self.fd(), len: sys::NN_MSG, flags: 0 }),
    {
        Call::Send { socket: self.socket, len: sys::NN_MSG, flags: 0 }
    }

    /// The number of bytes that a send took, which is all of `buf`, or the
    /// kind of its failure.
    pub fn finish_nb_write(outcome: Outcome, buf: &[u8]) -> (sent: Result<usize, Error>)
        ensures
            outcome.failed() ==> sent == Err::<usize, Error>(Error::of_code(outcome.errno)),
            !outcome.failed() ==> sent == Ok::<usize, Error>(buf.len()),
    {
        match outcome.check() {
            Ok(_) => Ok(buf.len()),
            Err(kind) => Err(kind),
        }
    }

    /// As `finish_nb_write`, with the failure as an error of `std::io` that
    /// shows `description`.
    pub fn finish_write(outcome: Outcome, buf: &[u8], description: String) -> (sent: Result<
        usize,
        std::io::Error,
    >)
        ensures
            outcome.failed() ==> sent is Err && io_error_kind(sent->Err_0) == Error::of_code(
                outcome.errno,
            ).io_kind() && io_error_text(sent->Err_0) == description@,
            !outcome.failed() ==> sent is Ok && sent->Ok_0 == buf.len(),
    {
        match Socket::finish_nb_write(outcome, buf) {
            Ok(sent) => Ok(sent),
            Err(kind) => Err(kind.into_io_error(description)),
        }
    }

    /// The call that allocates a message of `len` bytes for a zero-copy
    /// send.
    pub fn allocate_msg(len: usize) -> (call: Call)
        ensures
            call == (Call::AllocMsg { size: len, ty: 0 }),
    {
        Call::AllocMsg { size: len, ty: 0 }
    }

    /// The length of the message that an allocation gave, or the kind of its
    /// failure. `allocated` says whether the call returned a message, `errno`
    /// what the native library named as the reason if it did not.
    pub fn finish_allocate_msg(len: usize, allocated: bool, errno: i32) -> (msg: Result<
        usize,
        Error,
    >)
        ensures
            allocated ==> msg == Ok::<usize, Error>(len),
            !allocated ==> msg == Err::<usize, Error>(Error::of_code(errno)),
    {
        if allocated {
            Ok(len)
        } else {
            Err(Error::from_raw(errno))
        }
    }

    /// The call that frees a message that `allocate_msg` made.
    pub fn free_msg() -> (call: Call)
        ensures
            call == Call::FreeMsg,
    {
        Call::FreeMsg
    }

    /// A request to poll this socket.
    pub fn new_pollfd(&self, pollinout: PollInOut) -> (request: PollFd)
        ensures
            request.fd() == self.fd(),
            request.interest() == pollinout,
            !request.readable(),
            !request.writable(),
    {
        PollFd::new(self.socket, pollinout)
    }

    /// The call that polls the sockets of `request`, for `timeout`
    /// milliseconds at most: one descriptor for each socket, in their order.
    pub fn poll(request: &PollRequest, timeout: isize) -> (call: Call)
        ensures
            call.polls(request.descriptors(), request@.len() as i32, timeout as i32),
    {
        Call::Poll {
            fds: request.get_nn_fds(),
            nfds: request.len() as i32,
            timeout: timeout as i32,
        }
    }

    /// The number of sockets on which a poll found something, with the
    /// results taken over into `request`; or the kind of its failure.
    ///
    /// `polled` are the descriptors after the call. A poll that found
    /// nothing before its time was up is a failure of the kind `TimedOut`.
    /// On failure, `request` stays as it is.
    pub fn finish_poll(request: &mut PollRequest, outcome: Outcome, polled: &[nn_pollfd]) -> (found:
        Result<usize, Error>)
        requires
            polled@.len() == old(request)@.len(),
        ensures
            outcome.failed() ==> found == Err::<usize, Error>(Error::of_code(outcome.errno))
                && final(request)@ == old(request)@,
            outcome.ret == 0 ==> found == Err::<usize, Error>(Error::TimedOut) && final(request)@
                == old(request)@,
            outcome.ret > 0 ==> found == Ok::<usize, Error>(outcome.ret as usize),
            outcome.ret > 0 ==> final(request)@.len() == old(request)@.len(),
            outcome.ret > 0 ==> forall|i: int|
                0 <= i < old(request)@.len() ==> old(request)@[i].answered(
                    polled@[i],
                    #[trigger] final(request)@[i],
                ),
    {
        match outcome.check() {
            Ok(found) => {
                if found == 0 {
                    return Err(Error::TimedOut);
                }
                request.copy_poll_result(polled);
                Ok(found as usize)
            },
            Err(kind) => Err(kind),
        }
    }

    /// The call that sets an option of the native `int` type.
    fn set_socket_options_c_int(&self, level: i32, option: i32, val: i32) -> (call: Call)
        ensures
            call == (Call::SetSockOpt {
                socket: self.fd(),
                level,
                option,
                optval: OptVal::Int(val),
                optvallen: 4,
            }),
    {
        Call::SetSockOpt {
            socket: self.socket,
            level,
            option,
            optval: OptVal::Int(val),
            optvallen: 4,
        }
    }

    /// The call that sets an option to a string: to its bytes, in their
    /// number, with no terminator counted.
    ///
    /// A string that holds a NUL byte is refused as invalid input, without a
    /// call.
    fn set_socket_options_str(&self, level: i32, option: i32, val: &str) -> (call: Result<
        Call,
        Error,
    >)
        ensures
            has_nul(val.spec_bytes()) ==> call == Err::<Call, Error>(Error::InvalidInput),
            !has_nul(val.spec_bytes()) ==> call is Ok && call->Ok_0.sets_bytes(
                self.fd(),
                level,
                option,
                val.spec_bytes(),
            ),
    {
        let bytes = val.as_bytes();
        if contains_nul(bytes) {
            return Err(Error::InvalidInput);
        }
        Ok(
            Call::SetSockOpt {
                socket: self.socket,
                level,
                option,
                optval: OptVal::Bytes(slice_to_vec(bytes)),
                optvallen: bytes.len(),
            },
        )
    }

    /// The call that gets an option of the native `int` type.
    fn get_socket_option_c_int(&self, level: i32, option: i32) -> (call: Call)
        ensures
            call == (Call::GetSockOpt { socket: self.fd(), level, option, optvallen: 4 }),
    {
        Call::GetSockOpt { socket: self.socket, level, option, optvallen: 4 }
    }

    /// The value of an option of the native `int` type, or the kind of the
    /// failure of the call that was to get it. `val` is what the call
    /// stored.
    pub fn finish_get_socket_option_c_int(outcome: Outcome, val: i32) -> (value: Result<i32, Error>)
        ensures
            outcome.failed() ==> value == Err::<i32, Error>(Error::of_code(outcome.errno)),
            !outcome.failed() ==> value == Ok::<i32, Error>(val),
    {
        match outcome.check() {
            Ok(_) => Ok(val),
            Err(kind) => Err(kind),
        }
    }

    /// The call that gets an option that is a string, into a buffer of `len`
    /// bytes.
    fn get_socket_option_str(&self, level: i32, option: i32, len: usize) -> (call: Call)
        ensures
            call == (Call::GetSockOpt { socket: self.fd(), level, option, optvallen: len }),
    {
        Call::GetSockOpt { socket: self.socket, level, option, optvallen: len }
    }

    /// The value of an option that is a string, or the kind of the failure
    /// of the call that was to get it. `val` is the buffer after the call;
    /// the value is the C string at its start.
    pub fn finish_get_socket_option_str(outcome: Outcome, val: &[u8]) -> (value: Result<
        Vec<u8>,
        Error,
    >)
        ensures
            outcome.failed() ==> value == Err::<Vec<u8>, Error>(Error::of_code(outcome.errno)),
            !outcome.failed() ==> value is Ok && value->Ok_0@ == before_nul(val@),
    {
        match outcome.check() {
            Ok(_) => Ok(until_nul(val)),
            Err(kind) => Err(kind),
        }
    }

    /// The call that sets how long the socket goes on trying to send what is
    /// pending after it was closed, in milliseconds. A negative value means
    /// for ever.
    pub fn set_linger(&self, linger: isize) -> (call: Call)
        ensures
            call == (Call::SetSockOpt {
                socket: self.fd(),
                level: sys::NN_SOL_SOCKET,
                option: sys::NN_LINGER,
                optval: OptVal::Int(linger as i32),
                optvallen: 4,
            }),
    {
        self.set_socket_options_c_int(sys::NN_SOL_SOCKET, sys::NN_LINGER, linger as i32)
    }

    /// The call that sets the size of the send buffer, in bytes.
    pub fn set_send_buffer_size(&self, size_in_bytes: usize) -> (call: Call)
        ensures
            call == (Call::SetSockOpt {
                socket: self.fd(),
                level: sys::NN_SOL_SOCKET,
                option: sys::NN_SNDBUF,
                optval: OptVal::Int(size_in_bytes as i32),
                optvallen: 4,
            }),
    {
        self.set_socket_options_c_int(sys::NN_SOL_SOCKET, sys::NN_SNDBUF, size_in_bytes as i32)
    }

    /// The call that sets the size of the receive buffer, in bytes.
    pub fn set_receive_buffer_size(&self, size_in_bytes: usize) -> (call: Call)
        ensures
            call == (Call::SetSockOpt {
                socket: self.fd(),
                level: sys::NN_SOL_SOCKET,
                option: sys::NN_RCVBUF,
                optval: OptVal::Int(size_in_bytes as i32),
                optvallen: 4,
            }),
    {
        self.set_socket_options_c_int(sys::NN_SOL_SOCKET, sys::NN_RCVBUF, size_in_bytes as i32)
    }

    /// The call that sets the timeout of a send, in milliseconds. A negative
    /// value means none.
    pub fn set_send_timeout(&self, timeout: isize) -> (call: Call)
        ensures
            call == (Call::SetSockOpt {
                socket: self.fd(),
                level: sys::NN_SOL_SOCKET,
                option: sys::NN_SNDTIMEO,
                optval: OptVal::Int(timeout as i32),
                optvallen: 4,
            }),
    {
        self.set_socket_options_c_int(sys::NN_SOL_SOCKET, sys::NN_SNDTIMEO, timeout as i32)
    }

    /// The call that sets the timeout of a receive, in milliseconds. A
    /// negative value means none.
    pub fn set_receive_timeout(&self, timeout: isize) -> (call: Call)
        ensures
            call == (Call::SetSockOpt {
                socket: self.fd(),
                level: sys::NN_SOL_SOCKET,
                option: sys::NN_RCVTIMEO,
                optval: OptVal::Int(timeout as i32),
                optvallen: 4,
            }),
    {
        self.set_socket_options_c_int(sys::NN_SOL_SOCKET, sys::NN_RCVTIMEO, timeout as i32)
    }

    /// The call that sets how long the socket waits before it tries to
    /// connect again, in milliseconds.
    pub fn set_reconnect_interval(&self, interval: isize) -> (call: Call)
        ensures
            call == (Call::SetSockOpt {
                socket: self.fd(),
                level: sys::NN_SOL_SOCKET,
                option: sys::NN_RECONNECT_IVL,
                optval: OptVal::Int(interval as i32),
                optvallen: 4,
            }),
    {
        self.set_socket_options_c_int(sys::NN_SOL_SOCKET, sys::NN_RECONNECT_IVL, interval as i32)
    }

    /// The call that sets the longest time that the socket waits before it
    /// tries to connect again, in milliseconds: the wait doubles with each
    /// attempt up to this time. Zero means that it does not grow.
    pub fn set_max_reconnect_interval(&self, interval: isize) -> (call: Call)
        ensures
            call == (Call::SetSockOpt {
                socket: self.fd(),
                level: sys::NN_SOL_SOCKET,
                option: sys::NN_RECONNECT_IVL_MAX,
                optval: OptVal::Int(interval as i32),
                optvallen: 4,
            }),
    {
        self.set_socket_options_c_int(
            sys::NN_SOL_SOCKET,
            sys::NN_RECONNECT_IVL_MAX,
            interval as i32,
        )
    }

    /// The call that sets the priority of the endpoints added from now on
    /// for sending, from 1, the highest, to 16.
    pub fn set_send_priority(&self, priority: u8) -> (call: Call)
        ensures
            call == (Call::SetSockOpt {
                socket: self.fd(),
                level: sys::NN_SOL_SOCKET,
                option: sys::NN_SNDPRIO,
                optval: OptVal::Int(priority as i32),
                optvallen: 4,
            }),
    {
        self.set_socket_options_c_int(sys::NN_SOL_SOCKET, sys::NN_SNDPRIO, priority as i32)
    }

    /// The call that sets the priority of the endpoints added from now on
    /// for receiving, from 1, the highest, to 16.
    pub fn set_receive_priority(&self, priority: u8) -> (call: Call)
        ensures
            call == (Call::SetSockOpt {
                socket: self.fd(),
                level: sys::NN_SOL_SOCKET,
                option: sys::NN_RCVPRIO,
                optval: OptVal::Int(priority as i32),
                optvallen: 4,
            }),
    {
        self.set_socket_options_c_int(sys::NN_SOL_SOCKET, sys::NN_RCVPRIO, priority as i32)
    }

    /// The call that sets whether the socket uses IPv4 addresses only.
    pub fn set_ipv4_only(&self, ipv4_only: bool) -> (call: Call)
        ensures
            call == (Call::SetSockOpt {
                socket: self.fd(),
                level: sys::NN_SOL_SOCKET,
                option: sys::NN_IPV4ONLY,
                optval: OptVal::Int(flag(ipv4_only)),
                optvallen: 4,
            }),
    {
        self.set_socket_options_c_int(
            sys::NN_SOL_SOCKET,
            sys::NN_IPV4ONLY,
            bool_to_c_int(ipv4_only),
        )
    }

    /// The call that sets the name of the socket, which error reports and
    /// statistics show.
    pub fn set_socket_name(&self, name: &str) -> (call: Result<Call, Error>)
        ensures
            has_nul(name.spec_bytes()) ==> call == Err::<Call, Error>(Error::InvalidInput),
            !has_nul(name.spec_bytes()) ==> call is Ok && call->Ok_0.sets_bytes(
                self.fd(),
                sys::NN_SOL_SOCKET,
                sys::NN_SOCKET_NAME,
                name.spec_bytes(),
            ),
    {
        self.set_socket_options_str(sys::NN_SOL_SOCKET, sys::NN_SOCKET_NAME, name)
    }

    /// The call that sets whether TCP sends small packets at once, without
    /// waiting to fill them.
    pub fn set_tcp_nodelay(&self, tcp_nodelay: bool) -> (call: Call)
        ensures
            call == (Call::SetSockOpt {
                socket: self.fd(),
                level: sys::NN_TCP,
                option: sys::NN_TCP_NODELAY,
                optval: OptVal::Int(flag(tcp_nodelay)),
                optvallen: 4,
            }),
    {
        self.set_socket_options_c_int(sys::NN_TCP, sys::NN_TCP_NODELAY, bool_to_c_int(tcp_nodelay))
    }

    /// The call that gets the file descriptor that is readable when a
    /// message can be received.
    pub fn get_receive_fd(&self) -> (call: Call)
        ensures
            call == (Call::GetSockOpt {
                socket: self.fd(),
                level: sys::NN_SOL_SOCKET,
                option: sys::NN_RCVFD,
                optvallen: 4,
            }),
    {
        self.get_socket_option_c_int(sys::NN_SOL_SOCKET, sys::NN_RCVFD)
    }

    /// The call that gets the file descriptor that is readable when a
    /// message can be sent.
    pub fn get_send_fd(&self) -> (call: Call)
        ensures
            call == (Call::GetSockOpt {
                socket: self.fd(),
                level: sys::NN_SOL_SOCKET,
                option: sys::NN_SNDFD,
                optvallen: 4,
            }),
    {
        self.get_socket_option_c_int(sys::NN_SOL_SOCKET, sys::NN_SNDFD)
    }

    /// The call that gets the name of the socket, into a buffer of `len`
    /// bytes.
    pub fn get_socket_name(&self, len: usize) -> (call: Call)
        ensures
            call == (Call::GetSockOpt {
                socket: self.fd(),
                level: sys::NN_SOL_SOCKET,
                option: sys::NN_SOCKET_NAME,
                optvallen: len,
            }),
    {
        self.get_socket_option_str(sys::NN_SOL_SOCKET, sys::NN_SOCKET_NAME, len)
    }

    /// The name of the socket, or the kind of the failure of the call that
    /// was to get it. `val` is the buffer after the call; the name is the C
    /// string at its start, read as text as `String::from_utf8_lossy` reads
    /// it.
    pub fn finish_get_socket_name(outcome: Outcome, val: &[u8]) -> (name: Result<String, Error>)
        ensures
            outcome.failed() ==> name == Err::<String, Error>(Error::of_code(outcome.errno)),
            !outcome.failed() ==> name is Ok && name->Ok_0@ == utf8_lossy(before_nul(val@)),
            !outcome.failed() && valid_utf8(before_nul(val@)) ==> name->Ok_0@ == decode_utf8(
                before_nul(val@),
            ),
    {
        match Socket::finish_get_socket_option_str(outcome, val) {
            Ok(content) => Ok(string_from_utf8_lossy(content.as_slice())),
            Err(kind) => Err(kind),
        }
    }

    /// The call that subscribes a `Sub` socket to a topic: it receives the
    /// messages that begin with the bytes of `topic`.
    pub fn subscribe(&self, topic: &str) -> (call: Result<Call, Error>)
        ensures
            has_nul(topic.spec_bytes()) ==> call == Err::<Call, Error>(Error::InvalidInput),
            !has_nul(topic.spec_bytes()) ==> call is Ok && call->Ok_0.sets_bytes(
                self.fd(),
                sys::NN_SUB,
                sys::NN_SUB_SUBSCRIBE,
                topic.spec_bytes(),
            ),
    {
        self.set_socket_options_str(sys::NN_SUB, sys::NN_SUB_SUBSCRIBE, topic)
    }

    /// The call that ends the subscription of a `Sub` socket to a topic.
    pub fn unsubscribe(&self, topic: &str) -> (call: Result<Call, Error>)
        ensures
            has_nul(topic.spec_bytes()) ==> call == Err::<Call, Error>(Error::InvalidInput),
            !has_nul(topic.spec_bytes()) ==> call is Ok && call->Ok_0.sets_bytes(
                self.fd(),
                sys::NN_SUB,
                sys::NN_SUB_UNSUBSCRIBE,
                topic.spec_bytes(),
            ),
    {
        self.set_socket_options_str(sys::NN_SUB, sys::NN_SUB_UNSUBSCRIBE, topic)
    }

    /// The call that sets how long a `Surveyor` socket waits for responses,
    /// in milliseconds.
    pub fn set_survey_deadline(&self, deadline: isize) -> (call: Call)
        ensures
            call == (Call::SetSockOpt {
                socket: self.fd(),
                level: sys::NN_SURVEYOR,
                option: sys::NN_SURVEYOR_DEADLINE,
                optval: OptVal::Int(deadline as i32),
                optvallen: 4,
            }),
    {
        self.set_socket_options_c_int(sys::NN_SURVEYOR, sys::NN_SURVEYOR_DEADLINE, deadline as i32)
    }

    /// The call that sets after how many milliseconds without a reply a
    /// `Req` socket sends its request again.
    pub fn set_request_resend_interval(&self, interval: isize) -> (call: Call)
        ensures
            call == (Call::SetSockOpt {
                socket: self.fd(),
                level: sys::NN_REQ,
                option: sys::NN_REQ_RESEND_IVL,
                optval: OptVal::Int(interval as i32),
                optvallen: 4,
            }),
    {
        self.set_socket_options_c_int(sys::NN_REQ, sys::NN_REQ_RESEND_IVL, interval as i32)
    }

    /// The call that starts a device between two raw sockets. It returns
    /// when the native library is terminated, or on an error.
    pub fn device(socket1: &Socket, socket2: &Socket) -> (call: Call)
        ensures
            call == (Call::Device { socket1: socket1.fd(), socket2: socket2.fd() }),
    {
        Call::Device { socket1: socket1.socket, socket2: socket2.socket }
    }

    /// The call that tells all sockets of the process that it is about to
    /// end: every blocked or later operation on any of them fails with
    /// `Terminating`.
    pub fn terminate() -> (call: Call)
        ensures
            call == Call::Term,
    {
        Call::Term
    }
}

} // verus!
