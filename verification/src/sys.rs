//! The native call surface: the numeric constants of the nanomsg C header, the
//! poll descriptor, and the calls into the native library as plain data.
//!
//! Nothing here touches the native library. A [`Call`] says which entry point
//! is to be called and with which scalar arguments; whoever holds the foreign
//! declarations performs it and hands back an [`Outcome`].

use vstd::prelude::*;

verus! {

/// Standard full-blown socket.
pub const AF_SP: i32 = 1;

/// Raw socket, as used by devices.
pub const AF_SP_RAW: i32 = 2;

pub const NN_PROTO_PAIR: i32 = 1;

pub const NN_PROTO_PUBSUB: i32 = 2;

pub const NN_PROTO_REQREP: i32 = 3;

pub const NN_PROTO_PIPELINE: i32 = 5;

pub const NN_PROTO_SURVEY: i32 = 6;

pub const NN_PROTO_BUS: i32 = 7;

pub const NN_PAIR: i32 = NN_PROTO_PAIR * 16;

pub const NN_PUB: i32 = NN_PROTO_PUBSUB * 16;

pub const NN_SUB: i32 = NN_PROTO_PUBSUB * 16 + 1;

pub const NN_REQ: i32 = NN_PROTO_REQREP * 16;

pub const NN_REP: i32 = NN_PROTO_REQREP * 16 + 1;

pub const NN_PUSH: i32 = NN_PROTO_PIPELINE * 16;

pub const NN_PULL: i32 = NN_PROTO_PIPELINE * 16 + 1;

pub const NN_SURVEYOR: i32 = NN_PROTO_SURVEY * 16 + 2;

pub const NN_RESPONDENT: i32 = NN_PROTO_SURVEY * 16 + 3;

pub const NN_BUS: i32 = NN_PROTO_BUS * 16;

/// The length that tells `nn_send` and `nn_recv` that the buffer argument is
/// a pointer to a library-managed message, not a buffer of fixed size.
pub const NN_MSG: usize = usize::MAX;

/// The flag that makes `nn_send` and `nn_recv` return at once.
pub const NN_DONTWAIT: i32 = 1;

pub const NN_SOCKADDR_MAX: i32 = 128;

/// The level of the generic socket options.
pub const NN_SOL_SOCKET: i32 = 0;

pub const NN_LINGER: i32 = 1;

pub const NN_SNDBUF: i32 = 2;

pub const NN_RCVBUF: i32 = 3;

pub const NN_SNDTIMEO: i32 = 4;

pub const NN_RCVTIMEO: i32 = 5;

pub const NN_RECONNECT_IVL: i32 = 6;

pub const NN_RECONNECT_IVL_MAX: i32 = 7;

pub const NN_SNDPRIO: i32 = 8;

pub const NN_RCVPRIO: i32 = 9;

pub const NN_SNDFD: i32 = 10;

pub const NN_RCVFD: i32 = 11;

pub const NN_DOMAIN: i32 = 12;

pub const NN_PROTOCOL: i32 = 13;

pub const NN_IPV4ONLY: i32 = 14;

pub const NN_SOCKET_NAME: i32 = 15;

pub const NN_RCVMAXSIZE: i32 = 16;

pub const NN_MAXTTL: i32 = 17;

pub const NN_REQ_RESEND_IVL: i32 = 1;

pub const NN_SUB_SUBSCRIBE: i32 = 1;

pub const NN_SUB_UNSUBSCRIBE: i32 = 2;

pub const NN_SURVEYOR_DEADLINE: i32 = 1;

pub const NN_INPROC: i32 = -1;

pub const NN_IPC: i32 = -2;

pub const NN_TCP: i32 = -3;

pub const NN_TCP_NODELAY: i32 = 1;

pub const NN_POLLIN: i16 = 1;

pub const NN_POLLOUT: i16 = 2;

pub const NN_POLL_IN_AND_OUT: i16 = NN_POLLIN + NN_POLLOUT;

/// The base of the error codes that the native library defines itself.
pub const NN_HAUSNUMERO: i32 = 156384712;

/// The library is terminating.
pub const ETERM: i32 = NN_HAUSNUMERO + 53;

/// The socket is not in a state in which the operation can be done.
pub const EFSM: i32 = NN_HAUSNUMERO + 54;

// The POSIX error codes, with the values that Linux gives them on its common
// architectures (x86, ARM, RISC-V).
pub const EINTR: i32 = 4;

pub const EBADF: i32 = 9;

pub const EAGAIN: i32 = 11;

/// The native library's spelling of `EACCES`.
pub const EACCESS: i32 = 13;

pub const EFAULT: i32 = 14;

pub const ENODEV: i32 = 19;

pub const EINVAL: i32 = 22;

pub const EMFILE: i32 = 24;

pub const ENAMETOOLONG: i32 = 36;

pub const EPROTO: i32 = 71;

pub const ENOTSOCK: i32 = 88;

pub const EMSGSIZE: i32 = 90;

pub const ENOPROTOOPT: i32 = 92;

pub const EPROTONOSUPPORT: i32 = 93;

pub const ESOCKTNOSUPPORT: i32 = 94;

pub const ENOTSUP: i32 = 95;

pub const EAFNOSUPPORT: i32 = 97;

pub const EADDRINUSE: i32 = 98;

pub const EADDRNOTAVAIL: i32 = 99;

pub const ENETDOWN: i32 = 100;

pub const ENETUNREACH: i32 = 101;

pub const ENETRESET: i32 = 102;

pub const ECONNABORTED: i32 = 103;

pub const ECONNRESET: i32 = 104;

pub const ENOBUFS: i32 = 105;

pub const EISCONN: i32 = 106;

pub const ENOTCONN: i32 = 107;

pub const ETIMEDOUT: i32 = 110;

pub const ECONNREFUSED: i32 = 111;

pub const EHOSTUNREACH: i32 = 113;

pub const EINPROGRESS: i32 = 115;

/// One entry of the array that `nn_poll` works on: the socket, the events
/// asked for, and the events that the native library reported.
#[allow(non_camel_case_types)]
#[derive(Clone, Copy, Debug, PartialEq, Eq, Structural)]
pub struct nn_pollfd {
    pub fd: i32,
    pub events: i16,
    pub revents: i16,
}

impl nn_pollfd {
    /// The event mask that asks for readability, writability, both or neither.
    pub open spec fn interest(pollin: bool, pollout: bool) -> i16 {
        if pollin && pollout {
            NN_POLL_IN_AND_OUT
        } else if pollout {
            NN_POLLOUT
        } else if pollin {
            NN_POLLIN
        } else {
            0
        }
    }

    /// Whether a reported mask says that a message can be received. Only the
    /// masks that the native library defines count; any other mask says no.
    pub open spec fn readable(revents: i16) -> bool {
        revents == NN_POLLIN || revents == NN_POLL_IN_AND_OUT
    }

    /// Whether a reported mask says that a message can be sent.
    pub open spec fn writable(revents: i16) -> bool {
        revents == NN_POLLOUT || revents == NN_POLL_IN_AND_OUT
    }

    /// A descriptor for `socket` that asks for the given events and reports
    /// none yet.
    pub fn new(socket: i32, pollin: bool, pollout: bool) -> (fd: nn_pollfd)
        ensures
            fd.fd == socket,
            fd.events == Self::interest(pollin, pollout),
            fd.revents == 0,
    {
        let ev: i16 = match (pollin, pollout) {
            (true, true) => NN_POLL_IN_AND_OUT,
            (false, true) => NN_POLLOUT,
            (true, false) => NN_POLLIN,
            (false, false) => 0,
        };
        nn_pollfd { fd: socket, events: ev, revents: 0 }
    }

    /// Whether the native library reported that a message can be received.
    pub fn pollin_result(&self) -> (ready: bool)
        ensures
            ready == Self::readable(self.revents),
    {
        self.revents == NN_POLLIN || self.revents == NN_POLL_IN_AND_OUT
    }

    /// Whether the native library reported that a message can be sent.
    pub fn pollout_result(&self) -> (ready: bool)
        ensures
            ready == Self::writable(self.revents),
    {
        self.revents == NN_POLLOUT || self.revents == NN_POLL_IN_AND_OUT
    }
}

/// The value that a socket option is set to.
#[derive(Debug, PartialEq, Eq)]
pub enum OptVal {
    /// An integer, passed in the width of the native `int`.
    Int(i32),
    /// Raw bytes. Their number is passed beside them; no terminator is
    /// asked for.
    Bytes(Vec<u8>),
}

/// One call into the native library: the entry point and its arguments, in
/// the order in which the C header declares them.
///
/// A buffer that belongs to the caller (the payload of a send, the target of
/// a receive) is not part of the call: only its length is, or [`NN_MSG`]
/// where a library-managed message is passed instead.
#[derive(Debug, PartialEq, Eq)]
pub enum Call {
    /// `nn_socket(domain, protocol)`
    Socket { domain: i32, protocol: i32 },
    /// `nn_close(socket)`
    Close { socket: i32 },
    /// `nn_setsockopt(socket, level, option, optval, optvallen)`
    SetSockOpt { socket: i32, level: i32, option: i32, optval: OptVal, optvallen: usize },
    /// `nn_getsockopt(socket, level, option, optval, &optvallen)`, with a
    /// buffer of `optvallen` bytes
    GetSockOpt { socket: i32, level: i32, option: i32, optvallen: usize },
    /// `nn_bind(socket, addr)`; `addr` ends in its NUL byte
    Bind { socket: i32, addr: Vec<u8> },
    /// `nn_connect(socket, addr)`; `addr` ends in its NUL byte
    Connect { socket: i32, addr: Vec<u8> },
    /// `nn_shutdown(socket, how)`
    Shutdown { socket: i32, how: i32 },
    /// `nn_send(socket, buf, len, flags)`
    Send { socket: i32, len: usize, flags: i32 },
    /// `nn_recv(socket, buf, len, flags)`
    Recv { socket: i32, len: usize, flags: i32 },
    /// `nn_allocmsg(size, ty)`
    AllocMsg { size: usize, ty: i32 },
    /// `nn_freemsg(msg)`
    FreeMsg,
    /// `nn_poll(fds, nfds, timeout)`
    Poll { fds: Vec<nn_pollfd>, nfds: i32, timeout: i32 },
    /// `nn_device(socket1, socket2)`
    Device { socket1: i32, socket2: i32 },
    /// `nn_term()`
    Term,
    /// `nn_strerror(errnum)`
    StrError { errnum: i32 },
    /// `nn_symbol(index, &value)`
    Symbol { index: i32 },
}

impl Call {
    /// Whether the call is `nn_bind` on `socket` with the C string `addr`.
    pub open spec fn binds(self, socket: i32, addr: Seq<u8>) -> bool {
        self matches Call::Bind { socket: s, addr: a } && s == socket && a@ == addr
    }

    /// Whether the call is `nn_connect` on `socket` with the C string
    /// `addr`.
    pub open spec fn connects(self, socket: i32, addr: Seq<u8>) -> bool {
        self matches Call::Connect { socket: s, addr: a } && s == socket && a@ == addr
    }

    /// Whether the call is `nn_setsockopt` on `socket` that sets the option
    /// to the bytes `value`, in their number.
    pub open spec fn sets_bytes(
        self,
        socket: i32,
        level: i32,
        option: i32,
        value: Seq<u8>,
    ) -> bool {
        &&& self matches Call::SetSockOpt { socket: s, level: l, option: o, optval, optvallen }
        &&& s == socket
        &&& l == level
        &&& o == option
        &&& optvallen == value.len()
        &&& optval matches OptVal::Bytes(bytes)
        &&& bytes@ == value
    }

    /// Whether the call is `nn_poll` on the descriptors `fds`.
    pub open spec fn polls(self, fds: Seq<nn_pollfd>, nfds: i32, timeout: i32) -> bool {
        self matches Call::Poll { fds: f, nfds: n, timeout: t } && f@ == fds && n == nfds && t
            == timeout
    }
}

/// What a native call handed back.
#[derive(Clone, Copy, Debug, PartialEq, Eq, Structural)]
pub struct Outcome {
    /// The value that the call returned.
    pub ret: i32,
    /// What `nn_errno` gave right after the call. It is read only where
    /// `ret` reports a failure.
    pub errno: i32,
}

impl Outcome {
    /// Whether the call failed: the native library reports every failure by
    /// a negative return value.
    pub open spec fn failure(&self) -> bool {
        self.ret < 0
    }

    /// Whether the call failed.
    #[verifier::when_used_as_spec(failure)]
    pub fn failed(&self) -> (failed: bool)
        ensures
            failed == self.failure(),
    {
        self.ret < 0
    }
}

} // verus!
