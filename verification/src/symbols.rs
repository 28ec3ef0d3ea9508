//! The constants of the native call surface under the names by which the
//! native library enumerates its own, to hold the two against each other.
//!
//! The values that this crate was written with are those of one version of
//! the native library on one platform. The native library can list its
//! constants by name at run time; [`symbol_agrees`] tells for each of them
//! whether this crate takes it to have the same value.

use crate::sys;
use crate::sys::Call;
use vstd::prelude::*;
use vstd::string::StringSliceAdditionalSpecFns;

verus! {

/// The constants of this crate with their names.
pub open spec fn symbols() -> Seq<(&'static str, i32)> {
    seq![
        ("AF_SP", sys::AF_SP),
        ("AF_SP_RAW", sys::AF_SP_RAW),
        ("NN_PROTO_PIPELINE", sys::NN_PROTO_PIPELINE),
        ("NN_PUSH", sys::NN_PUSH),
        ("NN_PULL", sys::NN_PULL),
        ("NN_PROTO_REQREP", sys::NN_PROTO_REQREP),
        ("NN_REQ", sys::NN_REQ),
        ("NN_REP", sys::NN_REP),
        ("NN_REQ_RESEND_IVL", sys::NN_REQ_RESEND_IVL),
        ("NN_PROTO_PAIR", sys::NN_PROTO_PAIR),
        ("NN_PAIR", sys::NN_PAIR),
        ("NN_PROTO_BUS", sys::NN_PROTO_BUS),
        ("NN_BUS", sys::NN_BUS),
        ("NN_PROTO_PUBSUB", sys::NN_PROTO_PUBSUB),
        ("NN_PUB", sys::NN_PUB),
        ("NN_SUB", sys::NN_SUB),
        ("NN_SUB_SUBSCRIBE", sys::NN_SUB_SUBSCRIBE),
        ("NN_SUB_UNSUBSCRIBE", sys::NN_SUB_UNSUBSCRIBE),
        ("NN_PROTO_SURVEY", sys::NN_PROTO_SURVEY),
        ("NN_SURVEYOR", sys::NN_SURVEYOR),
        ("NN_RESPONDENT", sys::NN_RESPONDENT),
        ("NN_SURVEYOR_DEADLINE", sys::NN_SURVEYOR_DEADLINE),
        ("NN_SOCKADDR_MAX", sys::NN_SOCKADDR_MAX),
        ("NN_SOL_SOCKET", sys::NN_SOL_SOCKET),
        ("NN_LINGER", sys::NN_LINGER),
        ("NN_SNDBUF", sys::NN_SNDBUF),
        ("NN_RCVBUF", sys::NN_RCVBUF),
        ("NN_SNDTIMEO", sys::NN_SNDTIMEO),
        ("NN_RCVTIMEO", sys::NN_RCVTIMEO),
        ("NN_RECONNECT_IVL", sys::NN_RECONNECT_IVL),
        ("NN_RECONNECT_IVL_MAX", sys::NN_RECONNECT_IVL_MAX),
        ("NN_SNDPRIO", sys::NN_SNDPRIO),
        ("NN_RCVPRIO", sys::NN_RCVPRIO),
        ("NN_SNDFD", sys::NN_SNDFD),
        ("NN_RCVFD", sys::NN_RCVFD),
        ("NN_DOMAIN", sys::NN_DOMAIN),
        ("NN_PROTOCOL", sys::NN_PROTOCOL),
        ("NN_IPV4ONLY", sys::NN_IPV4ONLY),
        ("NN_SOCKET_NAME", sys::NN_SOCKET_NAME),
        ("NN_RCVMAXSIZE", sys::NN_RCVMAXSIZE),
        ("NN_MAXTTL", sys::NN_MAXTTL),
        ("NN_DONTWAIT", sys::NN_DONTWAIT),
        ("NN_INPROC", sys::NN_INPROC),
        ("NN_IPC", sys::NN_IPC),
        ("NN_TCP", sys::NN_TCP),
        ("NN_TCP_NODELAY", sys::NN_TCP_NODELAY),
        ("NN_HAUSNUMERO", sys::NN_HAUSNUMERO),
        ("ETERM", sys::ETERM),
        ("EFSM", sys::EFSM),
        ("ENAMETOOLONG", sys::ENAMETOOLONG),
        ("ENODEV", sys::ENODEV),
        ("EINTR", sys::EINTR),
        ("ENOTSUP", sys::ENOTSUP),
        ("EPROTONOSUPPORT", sys::EPROTONOSUPPORT),
        ("ENOBUFS", sys::ENOBUFS),
        ("ENETDOWN", sys::ENETDOWN),
        ("EADDRINUSE", sys::EADDRINUSE),
        ("EADDRNOTAVAIL", sys::EADDRNOTAVAIL),
        ("ECONNREFUSED", sys::ECONNREFUSED),
        ("EINPROGRESS", sys::EINPROGRESS),
        ("ENOTSOCK", sys::ENOTSOCK),
        ("EAFNOSUPPORT", sys::EAFNOSUPPORT),
        ("EPROTO", sys::EPROTO),
        ("EAGAIN", sys::EAGAIN),
        ("EBADF", sys::EBADF),
        ("EINVAL", sys::EINVAL),
        ("EMFILE", sys::EMFILE),
        ("EFAULT", sys::EFAULT),
        ("EACCESS", sys::EACCESS),
        ("ENETRESET", sys::ENETRESET),
        ("ENETUNREACH", sys::ENETUNREACH),
        ("EHOSTUNREACH", sys::EHOSTUNREACH),
        ("ENOTCONN", sys::ENOTCONN),
        ("EMSGSIZE", sys::EMSGSIZE),
        ("ETIMEDOUT", sys::ETIMEDOUT),
        ("ECONNABORTED", sys::ECONNABORTED),
        ("ECONNRESET", sys::ECONNRESET),
        ("ENOPROTOOPT", sys::ENOPROTOOPT),
        ("EISCONN", sys::EISCONN),
        ("ESOCKTNOSUPPORT", sys::ESOCKTNOSUPPORT),
    ]
}

/// The value that the first entry of `table` under the name `name` gives.
pub open spec fn value_in(table: Seq<(&'static str, i32)>, name: Seq<u8>) -> Option<i32>
    decreases table.len(),
{
    if table.len() == 0 {
        None
    } else if table[0].0.spec_bytes() == name {
        Some(table[0].1)
    } else {
        value_in(table.drop_first(), name)
    }
}

/// The value that this crate has for the constant of the given name, if it
/// has that constant.
pub open spec fn value_of(name: Seq<u8>) -> Option<i32> {
    value_in(symbols(), name)
}

/// Whether this crate and the native library agree on a constant that the
/// native library lists under `name` with `value`: they do where this crate
/// has the same value for it, and where it does not have the constant at
/// all.
pub open spec fn agrees(name: Seq<u8>, value: i32) -> bool {
    match value_of(name) {
        Some(own) => own == value,
        None => true,
    }
}

/// Whether two byte strings are the same.
fn same_bytes(a: &[u8], b: &[u8]) -> (same: bool)
    ensures
        same == (a@ == b@),
{
    if a.len() != b.len() {
        return false;
    }
    let mut i: usize = 0;
    while i < a.len()
        invariant
            i <= a.len(),
            a@.len() == b@.len(),
            forall|j: int| 0 <= j < i ==> a@[j] == b@[j],
        decreases a.len() - i,
    {
        if a[i] != b[i] {
            return false;
        }
        i += 1;
    }
    assert(a@ =~= b@);
    true
}

/// The call that asks the native library for the constant at `index` of its
/// list. The list ends where the native library gives no name.
pub fn symbol(index: i32) -> (call: Call)
    ensures
        call == (Call::Symbol { index }),
{
    Call::Symbol { index }
}

/// The value that this crate has for the constant of the given name, if it
/// has that constant.
pub fn get_constant_value_by_name(name: &str) -> (value: Option<i32>)
    ensures
        value == value_of(name.spec_bytes()),
{
    let table: Vec<(&'static str, i32)> = vec![
        ("AF_SP", sys::AF_SP),
        ("AF_SP_RAW", sys::AF_SP_RAW),
        ("NN_PROTO_PIPELINE", sys::NN_PROTO_PIPELINE),
        ("NN_PUSH", sys::NN_PUSH),
        ("NN_PULL", sys::NN_PULL),
        ("NN_PROTO_REQREP", sys::NN_PROTO_REQREP),
        ("NN_REQ", sys::NN_REQ),
        ("NN_REP", sys::NN_REP),
        ("NN_REQ_RESEND_IVL", sys::NN_REQ_RESEND_IVL),
        ("NN_PROTO_PAIR", sys::NN_PROTO_PAIR),
        ("NN_PAIR", sys::NN_PAIR),
        ("NN_PROTO_BUS", sys::NN_PROTO_BUS),
        ("NN_BUS", sys::NN_BUS),
        ("NN_PROTO_PUBSUB", sys::NN_PROTO_PUBSUB),
        ("NN_PUB", sys::NN_PUB),
        ("NN_SUB", sys::NN_SUB),
        ("NN_SUB_SUBSCRIBE", sys::NN_SUB_SUBSCRIBE),
        ("NN_SUB_UNSUBSCRIBE", sys::NN_SUB_UNSUBSCRIBE),
        ("NN_PROTO_SURVEY", sys::NN_PROTO_SURVEY),
        ("NN_SURVEYOR", sys::NN_SURVEYOR),
        ("NN_RESPONDENT", sys::NN_RESPONDENT),
        ("NN_SURVEYOR_DEADLINE", sys::NN_SURVEYOR_DEADLINE),
        ("NN_SOCKADDR_MAX", sys::NN_SOCKADDR_MAX),
        ("NN_SOL_SOCKET", sys::NN_SOL_SOCKET),
        ("NN_LINGER", sys::NN_LINGER),
        ("NN_SNDBUF", sys::NN_SNDBUF),
        ("NN_RCVBUF", sys::NN_RCVBUF),
        ("NN_SNDTIMEO", sys::NN_SNDTIMEO),
        ("NN_RCVTIMEO", sys::NN_RCVTIMEO),
        ("NN_RECONNECT_IVL", sys::NN_RECONNECT_IVL),
        ("NN_RECONNECT_IVL_MAX", sys::NN_RECONNECT_IVL_MAX),
        ("NN_SNDPRIO", sys::NN_SNDPRIO),
        ("NN_RCVPRIO", sys::NN_RCVPRIO),
        ("NN_SNDFD", sys::NN_SNDFD),
        ("NN_RCVFD", sys::NN_RCVFD),
        ("NN_DOMAIN", sys::NN_DOMAIN),
        ("NN_PROTOCOL", sys::NN_PROTOCOL),
        ("NN_IPV4ONLY", sys::NN_IPV4ONLY),
        ("NN_SOCKET_NAME", sys::NN_SOCKET_NAME),
        ("NN_RCVMAXSIZE", sys::NN_RCVMAXSIZE),
        ("NN_MAXTTL", sys::NN_MAXTTL),
        ("NN_DONTWAIT", sys::NN_DONTWAIT),
        ("NN_INPROC", sys::NN_INPROC),
        ("NN_IPC", sys::NN_IPC),
        ("NN_TCP", sys::NN_TCP),
        ("NN_TCP_NODELAY", sys::NN_TCP_NODELAY),
        ("NN_HAUSNUMERO", sys::NN_HAUSNUMERO),
        ("ETERM", sys::ETERM),
        ("EFSM", sys::EFSM),
        ("ENAMETOOLONG", sys::ENAMETOOLONG),
        ("ENODEV", sys::ENODEV),
        ("EINTR", sys::EINTR),
        ("ENOTSUP", sys::ENOTSUP),
        ("EPROTONOSUPPORT", sys::EPROTONOSUPPORT),
        ("ENOBUFS", sys::ENOBUFS),
        ("ENETDOWN", sys::ENETDOWN),
        ("EADDRINUSE", sys::EADDRINUSE),
        ("EADDRNOTAVAIL", sys::EADDRNOTAVAIL),
        ("ECONNREFUSED", sys::ECONNREFUSED),
        ("EINPROGRESS", sys::EINPROGRESS),
        ("ENOTSOCK", sys::ENOTSOCK),
        ("EAFNOSUPPORT", sys::EAFNOSUPPORT),
        ("EPROTO", sys::EPROTO),
        ("EAGAIN", sys::EAGAIN),
        ("EBADF", sys::EBADF),
        ("EINVAL", sys::EINVAL),
        ("EMFILE", sys::EMFILE),
        ("EFAULT", sys::EFAULT),
        ("EACCESS", sys::EACCESS),
        ("ENETRESET", sys::ENETRESET),
        ("ENETUNREACH", sys::ENETUNREACH),
        ("EHOSTUNREACH", sys::EHOSTUNREACH),
        ("ENOTCONN", sys::ENOTCONN),
        ("EMSGSIZE", sys::EMSGSIZE),
        ("ETIMEDOUT", sys::ETIMEDOUT),
        ("ECONNABORTED", sys::ECONNABORTED),
        ("ECONNRESET", sys::ECONNRESET),
        ("ENOPROTOOPT", sys::ENOPROTOOPT),
        ("EISCONN", sys::EISCONN),
        ("ESOCKTNOSUPPORT", sys::ESOCKTNOSUPPORT),
    ];
    assert(table@ == symbols());
    let wanted = name.as_bytes();
    let mut i: usize = 0;
    assert(table@.subrange(0, table@.len() as int) == table@);
    while i < table.len()
        invariant
            i <= table.len(),
            table@ == symbols(),
            wanted@ == name.spec_bytes(),
            value_of(wanted@) == value_in(table@.subrange(i as int, table@.len() as int), wanted@),
        decreases table.len() - i,
    {
        let (known, value) = table[i];
        proof {
            let rest = table@.subrange(i as int, table@.len() as int);
            assert(rest[0] == table@[i as int]);
            assert(rest.drop_first() == table@.subrange(i + 1, table@.len() as int));
        }
        if same_bytes(known.as_bytes(), wanted) {
            return Some(value);
        }
        i += 1;
    }
    None
}

/// Whether this crate and the native library agree on a constant that the
/// native library lists under `name` with `value`.
pub fn symbol_agrees(name: &str, value: i32) -> (agree: bool)
    ensures
        agree == agrees(name.spec_bytes(), value),
{
    match get_constant_value_by_name(name) {
        Some(own) => own == value,
        None => true,
    }
}

} // verus!
