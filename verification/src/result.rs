//! The errors of the native library as a closed set of kinds, and their
//! relation to the error codes and to the error kinds of `std::io`.

use crate::sys;
use crate::sys::{Call, Outcome};
use crate::text::string_from_utf8;
use std::io::ErrorKind;
use vstd::prelude::*;
use vstd::slice::slice_to_vec;
use vstd::utf8::*;

verus! {

/// The kind of a failure that the native library reported.
#[derive(Clone, Copy, Eq, PartialEq, Debug, Structural)]
pub enum Error {
    /// A code that the native library does not define.
    Unknown,
    OperationNotSupported,
    ProtocolNotSupported,
    NoBufferSpace,
    NetworkDown,
    AddressInUse,
    AddressNotAvailable,
    ConnectionRefused,
    OperationNowInProgress,
    NotSocket,
    AddressFamilyNotSupported,
    WrongProtocol,
    TryAgain,
    BadFileDescriptor,
    InvalidInput,
    TooManyOpenFiles,
    BadAddress,
    PermissionDenied,
    NetworkReset,
    NetworkUnreachable,
    HostUnreachable,
    NotConnected,
    MessageTooLong,
    TimedOut,
    ConnectionAborted,
    ConnectionReset,
    ProtocolNotAvailable,
    AlreadyConnected,
    SocketTypeNotSupported,
    Terminating,
    NameTooLong,
    NoDevice,
    FileStateMismatch,
    Interrupted,
}

/// The error kinds of `std::io` that an [`Error`] can stand for, and `Other`
/// for everything else.
#[derive(Clone, Copy, Eq, PartialEq, Debug, Structural)]
pub enum IoKind {
    PermissionDenied,
    ConnectionRefused,
    ConnectionReset,
    ConnectionAborted,
    NotConnected,
    AddrInUse,
    AddrNotAvailable,
    AlreadyExists,
    WouldBlock,
    InvalidInput,
    TimedOut,
    Interrupted,
    Other,
}

#[verifier::external_type_specification]
#[verifier::external_body]
pub struct ExIoError(std::io::Error);

/// The kind that `std::io::Error::kind` reports of an error, as far as an
/// [`Error`] can stand for it.
pub uninterp spec fn io_error_kind(err: std::io::Error) -> IoKind;

/// The text that an error of `std::io` shows when it is displayed.
pub uninterp spec fn io_error_text(err: std::io::Error) -> Seq<char>;

/// `std::io::Error::kind`: the kind of the error, with `Other` for each kind
/// that [`IoKind`] does not name.
#[verifier::external_body]
fn io_kind_of(err: &std::io::Error) -> (kind: IoKind)
    ensures
        kind == io_error_kind(*err),
{
    match err.kind() {
        ErrorKind::PermissionDenied => IoKind::PermissionDenied,
        ErrorKind::ConnectionRefused => IoKind::ConnectionRefused,
        ErrorKind::ConnectionReset => IoKind::ConnectionReset,
        ErrorKind::ConnectionAborted => IoKind::ConnectionAborted,
        ErrorKind::NotConnected => IoKind::NotConnected,
        ErrorKind::AddrInUse => IoKind::AddrInUse,
        ErrorKind::AddrNotAvailable => IoKind::AddrNotAvailable,
        ErrorKind::AlreadyExists => IoKind::AlreadyExists,
        ErrorKind::WouldBlock => IoKind::WouldBlock,
        ErrorKind::InvalidInput => IoKind::InvalidInput,
        ErrorKind::TimedOut => IoKind::TimedOut,
        ErrorKind::Interrupted => IoKind::Interrupted,
        _ => IoKind::Other,
    }
}

/// `std::io::Error::new`: an error of the given kind that shows the given
/// text.
#[verifier::external_body]
fn new_io_error(kind: IoKind, description: String) -> (err: std::io::Error)
    ensures
        io_error_kind(err) == kind,
        io_error_text(err) == description@,
{
    std::io::Error::new(match kind {
        IoKind::PermissionDenied => ErrorKind::PermissionDenied,
        IoKind::ConnectionRefused => ErrorKind::ConnectionRefused,
        IoKind::ConnectionReset => ErrorKind::ConnectionReset,
        IoKind::ConnectionAborted => ErrorKind::ConnectionAborted,
        IoKind::NotConnected => ErrorKind::NotConnected,
        IoKind::AddrInUse => ErrorKind::AddrInUse,
        IoKind::AddrNotAvailable => ErrorKind::AddrNotAvailable,
        IoKind::AlreadyExists => ErrorKind::AlreadyExists,
        IoKind::WouldBlock => ErrorKind::WouldBlock,
        IoKind::InvalidInput => ErrorKind::InvalidInput,
        IoKind::TimedOut => ErrorKind::TimedOut,
        IoKind::Interrupted => ErrorKind::Interrupted,
        IoKind::Other => ErrorKind::Other,
    }, description)
}

/// The codes that the C library of the platform gives to the errors of POSIX
/// that [`Error`] names: the constants of `libc`, in the order of
/// [`Error::posix`]. Nothing is claimed of their values.
#[verifier::external_body]
fn platform_codes() -> (codes: Vec<i32>)
    ensures
        codes@.len() == 31,
{
    vec![
        libc::ENOTSUP, libc::EPROTONOSUPPORT, libc::ENOBUFS, libc::ENETDOWN, libc::EADDRINUSE,
        libc::EADDRNOTAVAIL, libc::ECONNREFUSED, libc::EINPROGRESS, libc::ENOTSOCK,
        libc::EAFNOSUPPORT, libc::EPROTO, libc::EAGAIN, libc::EBADF, libc::EINVAL,
        libc::EMFILE, libc::EFAULT, libc::EACCES, libc::ENETRESET, libc::ENETUNREACH,
        libc::EHOSTUNREACH, libc::ENOTCONN, libc::EMSGSIZE, libc::ETIMEDOUT,
        libc::ECONNABORTED, libc::ECONNRESET, libc::ENOPROTOOPT, libc::EISCONN,
        libc::ESOCKTNOSUPPORT, libc::ENAMETOOLONG, libc::ENODEV, libc::EINTR,
    ]
}

impl Error {
    /// The native code of each kind. `Unknown` has the code 0, which the
    /// native library gives to no error.
    pub open spec fn code(&self) -> i32 {
        match self {
            Error::Unknown => 0,
            Error::OperationNotSupported => sys::ENOTSUP,
            Error::ProtocolNotSupported => sys::EPROTONOSUPPORT,
            Error::NoBufferSpace => sys::ENOBUFS,
            Error::NetworkDown => sys::ENETDOWN,
            Error::AddressInUse => sys::EADDRINUSE,
            Error::AddressNotAvailable => sys::EADDRNOTAVAIL,
            Error::ConnectionRefused => sys::ECONNREFUSED,
            Error::OperationNowInProgress => sys::EINPROGRESS,
            Error::NotSocket => sys::ENOTSOCK,
            Error::AddressFamilyNotSupported => sys::EAFNOSUPPORT,
            Error::WrongProtocol => sys::EPROTO,
            Error::TryAgain => sys::EAGAIN,
            Error::BadFileDescriptor => sys::EBADF,
            Error::InvalidInput => sys::EINVAL,
            Error::TooManyOpenFiles => sys::EMFILE,
            Error::BadAddress => sys::EFAULT,
            Error::PermissionDenied => sys::EACCESS,
            Error::NetworkReset => sys::ENETRESET,
            Error::NetworkUnreachable => sys::ENETUNREACH,
            Error::HostUnreachable => sys::EHOSTUNREACH,
            Error::NotConnected => sys::ENOTCONN,
            Error::MessageTooLong => sys::EMSGSIZE,
            Error::TimedOut => sys::ETIMEDOUT,
            Error::ConnectionAborted => sys::ECONNABORTED,
            Error::ConnectionReset => sys::ECONNRESET,
            Error::ProtocolNotAvailable => sys::ENOPROTOOPT,
            Error::AlreadyConnected => sys::EISCONN,
            Error::SocketTypeNotSupported => sys::ESOCKTNOSUPPORT,
            Error::Terminating => sys::ETERM,
            Error::NameTooLong => sys::ENAMETOOLONG,
            Error::NoDevice => sys::ENODEV,
            Error::FileStateMismatch => sys::EFSM,
            Error::Interrupted => sys::EINTR,
        }
    }

    /// Whether `raw` is the code of one of the kinds that the native library
    /// defines.
    pub open spec fn known(raw: i32) -> bool {
        exists|kind: Error| kind != Error::Unknown && #[trigger] kind.code() == raw
    }

    /// The kind that a native code stands for: the one whose code it is, and
    /// `Unknown` where it is the code of none.
    pub open spec fn of_code(raw: i32) -> Error {
        if Self::known(raw) {
            choose|kind: Error| kind != Error::Unknown && #[trigger] kind.code() == raw
        } else {
            Error::Unknown
        }
    }

    /// The kind of `std::io` that is nearest to each kind; `Other` for those
    /// that have no counterpart there.
    pub open spec fn io_kind(&self) -> IoKind {
        match self {
            Error::PermissionDenied => IoKind::PermissionDenied,
            Error::ConnectionRefused => IoKind::ConnectionRefused,
            Error::ConnectionReset => IoKind::ConnectionReset,
            Error::ConnectionAborted => IoKind::ConnectionAborted,
            Error::NotConnected => IoKind::NotConnected,
            Error::AddressInUse => IoKind::AddrInUse,
            Error::AddressNotAvailable => IoKind::AddrNotAvailable,
            Error::AlreadyConnected => IoKind::AlreadyExists,
            Error::TryAgain => IoKind::WouldBlock,
            Error::InvalidInput => IoKind::InvalidInput,
            Error::TimedOut => IoKind::TimedOut,
            Error::Interrupted => IoKind::Interrupted,
            _ => IoKind::Other,
        }
    }

    /// The kind that an error kind of `std::io` stands for: the one that it
    /// is nearest to, and `Unknown` for `Other`, which is nearest to many.
    pub open spec fn of_io_kind(kind: IoKind) -> Error {
        if kind == IoKind::Other {
            Error::Unknown
        } else {
            choose|e: Error| #[trigger] e.io_kind() == kind
        }
    }

    /// The kinds that stand for errors of POSIX, in a fixed order. The two
    /// kinds that are left out have codes that the native library chose
    /// itself.
    pub open spec fn posix() -> Seq<Error> {
        seq![
            Error::OperationNotSupported, Error::ProtocolNotSupported, Error::NoBufferSpace,
            Error::NetworkDown, Error::AddressInUse, Error::AddressNotAvailable,
            Error::ConnectionRefused, Error::OperationNowInProgress, Error::NotSocket,
            Error::AddressFamilyNotSupported, Error::WrongProtocol, Error::TryAgain,
            Error::BadFileDescriptor, Error::InvalidInput, Error::TooManyOpenFiles,
            Error::BadAddress, Error::PermissionDenied, Error::NetworkReset,
            Error::NetworkUnreachable, Error::HostUnreachable, Error::NotConnected,
            Error::MessageTooLong, Error::TimedOut, Error::ConnectionAborted,
            Error::ConnectionReset, Error::ProtocolNotAvailable, Error::AlreadyConnected,
            Error::SocketTypeNotSupported, Error::NameTooLong, Error::NoDevice,
            Error::Interrupted,
        ]
    }

    /// Whether `codes` are the codes of the kinds of `posix`, one for one.
    pub open spec fn agree(codes: Seq<i32>) -> bool {
        &&& codes.len() == Self::posix().len()
        &&& forall|i: int| 0 <= i < codes.len() ==> codes[i] == (#[trigger] Self::posix()[i]).code()
    }

    /// Whether this library takes the errors of POSIX to have the codes
    /// `codes`, given in the order of `posix`.
    pub fn codes_agree(codes: &[i32]) -> (agree: bool)
        ensures
            agree == Self::agree(codes@),
    {
        let kinds: Vec<Error> = vec![
            Error::OperationNotSupported, Error::ProtocolNotSupported, Error::NoBufferSpace,
            Error::NetworkDown, Error::AddressInUse, Error::AddressNotAvailable,
            Error::ConnectionRefused, Error::OperationNowInProgress, Error::NotSocket,
            Error::AddressFamilyNotSupported, Error::WrongProtocol, Error::TryAgain,
            Error::BadFileDescriptor, Error::InvalidInput, Error::TooManyOpenFiles,
            Error::BadAddress, Error::PermissionDenied, Error::NetworkReset,
            Error::NetworkUnreachable, Error::HostUnreachable, Error::NotConnected,
            Error::MessageTooLong, Error::TimedOut, Error::ConnectionAborted,
            Error::ConnectionReset, Error::ProtocolNotAvailable, Error::AlreadyConnected,
            Error::SocketTypeNotSupported, Error::NameTooLong, Error::NoDevice,
            Error::Interrupted,
        ];
        assert(kinds@ == Self::posix());
        if codes.len() != kinds.len() {
            return false;
        }
        let mut i: usize = 0;
        while i < kinds.len()
            invariant
                i <= kinds.len(),
                kinds@ == Self::posix(),
                codes@.len() == kinds@.len(),
                forall|j: int| 0 <= j < i ==> codes@[j] == (#[trigger] Self::posix()[j]).code(),
            decreases kinds.len() - i,
        {
            if codes[i] != kinds[i].to_raw() {
                return false;
            }
            i += 1;
        }
        true
    }

    /// Whether the C library of the platform numbers the errors of POSIX as
    /// this library does. Where it does not, the kinds that this library
    /// reports are not to be relied on.
    pub fn platform_agrees() -> (agree: bool) {
        Self::codes_agree(platform_codes().as_slice())
    }

    /// The native code of this kind.
    #[verifier::when_used_as_spec(code)]
    pub fn to_raw(&self) -> (raw: i32)
        ensures
            raw == self.code(),
    {
        match self {
            Error::Unknown => 0,
            Error::OperationNotSupported => sys::ENOTSUP,
            Error::ProtocolNotSupported => sys::EPROTONOSUPPORT,
            Error::NoBufferSpace => sys::ENOBUFS,
            Error::NetworkDown => sys::ENETDOWN,
            Error::AddressInUse => sys::EADDRINUSE,
            Error::AddressNotAvailable => sys::EADDRNOTAVAIL,
            Error::ConnectionRefused => sys::ECONNREFUSED,
            Error::OperationNowInProgress => sys::EINPROGRESS,
            Error::NotSocket => sys::ENOTSOCK,
            Error::AddressFamilyNotSupported => sys::EAFNOSUPPORT,
            Error::WrongProtocol => sys::EPROTO,
            Error::TryAgain => sys::EAGAIN,
            Error::BadFileDescriptor => sys::EBADF,
            Error::InvalidInput => sys::EINVAL,
            Error::TooManyOpenFiles => sys::EMFILE,
            Error::BadAddress => sys::EFAULT,
            Error::PermissionDenied => sys::EACCESS,
            Error::NetworkReset => sys::ENETRESET,
            Error::NetworkUnreachable => sys::ENETUNREACH,
            Error::HostUnreachable => sys::EHOSTUNREACH,
            Error::NotConnected => sys::ENOTCONN,
            Error::MessageTooLong => sys::EMSGSIZE,
            Error::TimedOut => sys::ETIMEDOUT,
            Error::ConnectionAborted => sys::ECONNABORTED,
            Error::ConnectionReset => sys::ECONNRESET,
            Error::ProtocolNotAvailable => sys::ENOPROTOOPT,
            Error::AlreadyConnected => sys::EISCONN,
            Error::SocketTypeNotSupported => sys::ESOCKTNOSUPPORT,
            Error::Terminating => sys::ETERM,
            Error::NameTooLong => sys::ENAMETOOLONG,
            Error::NoDevice => sys::ENODEV,
            Error::FileStateMismatch => sys::EFSM,
            Error::Interrupted => sys::EINTR,
        }
    }

    /// The kind that a native code stands for.
    #[verifier::when_used_as_spec(of_code)]
    pub fn from_raw(raw: i32) -> (kind: Error)
        ensures
            kind == Self::of_code(raw),
    {
        let kind = if raw == sys::ENOTSUP {
            Error::OperationNotSupported
        } else if raw == sys::EPROTONOSUPPORT {
            Error::ProtocolNotSupported
        } else if raw == sys::ENOBUFS {
            Error::NoBufferSpace
        } else if raw == sys::ENETDOWN {
            Error::NetworkDown
        } else if raw == sys::EADDRINUSE {
            Error::AddressInUse
        } else if raw == sys::EADDRNOTAVAIL {
            Error::AddressNotAvailable
        } else if raw == sys::ECONNREFUSED {
            Error::ConnectionRefused
        } else if raw == sys::EINPROGRESS {
            Error::OperationNowInProgress
        } else if raw == sys::ENOTSOCK {
            Error::NotSocket
        } else if raw == sys::EAFNOSUPPORT {
            Error::AddressFamilyNotSupported
        } else if raw == sys::EPROTO {
            Error::WrongProtocol
        } else if raw == sys::EAGAIN {
            Error::TryAgain
        } else if raw == sys::EBADF {
            Error::BadFileDescriptor
        } else if raw == sys::EINVAL {
            Error::InvalidInput
        } else if raw == sys::EMFILE {
            Error::TooManyOpenFiles
        } else if raw == sys::EFAULT {
            Error::BadAddress
        } else if raw == sys::EACCESS {
            Error::PermissionDenied
        } else if raw == sys::ENETRESET {
            Error::NetworkReset
        } else if raw == sys::ENETUNREACH {
            Error::NetworkUnreachable
        } else if raw == sys::EHOSTUNREACH {
            Error::HostUnreachable
        } else if raw == sys::ENOTCONN {
            Error::NotConnected
        } else if raw == sys::EMSGSIZE {
            Error::MessageTooLong
        } else if raw == sys::ETIMEDOUT {
            Error::TimedOut
        } else if raw == sys::ECONNABORTED {
            Error::ConnectionAborted
        } else if raw == sys::ECONNRESET {
            Error::ConnectionReset
        } else if raw == sys::ENOPROTOOPT {
            Error::ProtocolNotAvailable
        } else if raw == sys::EISCONN {
            Error::AlreadyConnected
        } else if raw == sys::ESOCKTNOSUPPORT {
            Error::SocketTypeNotSupported
        } else if raw == sys::ETERM {
            Error::Terminating
        } else if raw == sys::ENAMETOOLONG {
            Error::NameTooLong
        } else if raw == sys::ENODEV {
            Error::NoDevice
        } else if raw == sys::EFSM {
            Error::FileStateMismatch
        } else if raw == sys::EINTR {
            Error::Interrupted
        } else {
            Error::Unknown
        };
        proof {
            if kind != Error::Unknown {
                assert(kind.code() == raw);
                Self::lemma_codes_differ(kind, Self::of_code(raw));
            }
        }
        kind
    }

    /// No two kinds share a code.
    pub proof fn lemma_codes_differ(a: Error, b: Error)
        ensures
            a.code() == b.code() ==> a == b,
    {
    }

    /// The kind of a code is the kind again: no kind is lost on the way
    /// through its native code.
    pub proof fn lemma_code_round_trip(kind: Error)
        ensures
            Self::of_code(kind.code()) == kind,
    {
        if kind != Error::Unknown {
            assert(kind.code() == kind.code());
            Self::lemma_codes_differ(kind, Self::of_code(kind.code()));
        } else {
            assert forall|k: Error| k != Error::Unknown implies #[trigger] k.code() != 0 by {}
        }
    }

    /// A code is the code of its kind exactly where the native library
    /// defines it; every other code, 0 aside, is lost in `Unknown`.
    pub proof fn lemma_kind_round_trip(raw: i32)
        ensures
            Self::known(raw) ==> Self::of_code(raw).code() == raw,
            !Self::known(raw) ==> Self::of_code(raw) == Error::Unknown,
            Self::of_code(raw).code() == raw <==> Self::known(raw) || raw == 0,
    {
        assert forall|k: Error| k != Error::Unknown implies #[trigger] k.code() != 0 by {}
    }

    /// The kind of `std::io` that is nearest to this kind.
    #[verifier::when_used_as_spec(io_kind)]
    pub fn to_io_kind(&self) -> (kind: IoKind)
        ensures
            kind == self.io_kind(),
    {
        match self {
            Error::PermissionDenied => IoKind::PermissionDenied,
            Error::ConnectionRefused => IoKind::ConnectionRefused,
            Error::ConnectionReset => IoKind::ConnectionReset,
            Error::ConnectionAborted => IoKind::ConnectionAborted,
            Error::NotConnected => IoKind::NotConnected,
            Error::AddressInUse => IoKind::AddrInUse,
            Error::AddressNotAvailable => IoKind::AddrNotAvailable,
            Error::AlreadyConnected => IoKind::AlreadyExists,
            Error::TryAgain => IoKind::WouldBlock,
            Error::InvalidInput => IoKind::InvalidInput,
            Error::TimedOut => IoKind::TimedOut,
            Error::Interrupted => IoKind::Interrupted,
            _ => IoKind::Other,
        }
    }

    /// The kind that an error kind of `std::io` stands for.
    #[verifier::when_used_as_spec(of_io_kind)]
    pub fn from_io_kind(kind: IoKind) -> (e: Error)
        ensures
            e == Self::of_io_kind(kind),
    {
        let e = match kind {
            IoKind::PermissionDenied => Error::PermissionDenied,
            IoKind::ConnectionRefused => Error::ConnectionRefused,
            IoKind::ConnectionReset => Error::ConnectionReset,
            IoKind::ConnectionAborted => Error::ConnectionAborted,
            IoKind::NotConnected => Error::NotConnected,
            IoKind::AddrInUse => Error::AddressInUse,
            IoKind::AddrNotAvailable => Error::AddressNotAvailable,
            IoKind::AlreadyExists => Error::AlreadyConnected,
            IoKind::WouldBlock => Error::TryAgain,
            IoKind::InvalidInput => Error::InvalidInput,
            IoKind::TimedOut => Error::TimedOut,
            IoKind::Interrupted => Error::Interrupted,
            IoKind::Other => Error::Unknown,
        };
        proof {
            if kind != IoKind::Other {
                assert(e.io_kind() == kind);
            }
        }
        e
    }

    /// An error of `std::io` that stands for this one: of the nearest kind,
    /// and showing the given description.
    pub fn into_io_error(self, description: String) -> (err: std::io::Error)
        ensures
            io_error_kind(err) == self.io_kind(),
            io_error_text(err) == description@,
    {
        new_io_error(self.to_io_kind(), description)
    }

    /// The call that asks the native library to render this error as text.
    pub fn strerror(&self) -> (call: Call)
        ensures
            call == (Call::StrError { errnum: self.code() }),
    {
        Call::StrError { errnum: self.to_raw() }
    }

    /// The description of an error, from the bytes that the native library
    /// rendered it to: their text, or the word `Error` where they are not
    /// UTF-8.
    pub fn description(rendered: &[u8]) -> (text: String)
        ensures
            valid_utf8(rendered@) ==> text@ == decode_utf8(rendered@),
            !valid_utf8(rendered@) ==> text@ == "Error"@,
    {
        match string_from_utf8(slice_to_vec(rendered)) {
            Some(text) => text,
            None => "Error".to_string(),
        }
    }

    /// Each kind that has a counterpart in `std::io` comes back from it
    /// unchanged; every other kind comes back as `Unknown`.
    pub proof fn lemma_io_round_trip(kind: Error)
        ensures
            kind.io_kind() != IoKind::Other ==> Self::of_io_kind(kind.io_kind()) == kind,
            kind.io_kind() == IoKind::Other ==> Self::of_io_kind(kind.io_kind()) == Error::Unknown,
    {
        if kind.io_kind() != IoKind::Other {
            assert(kind.io_kind() == kind.io_kind());
        }
    }

    /// Each kind of `std::io` comes back unchanged from the kind that stands
    /// for it.
    pub proof fn lemma_io_kind_round_trip(kind: IoKind)
        ensures
            Self::of_io_kind(kind).io_kind() == kind,
    {
        let e = Self::from_io_kind_witness(kind);
        assert(e.io_kind() == kind);
    }

    /// A kind that stands for the given kind of `std::io`.
    spec fn from_io_kind_witness(kind: IoKind) -> Error {
        match kind {
            IoKind::PermissionDenied => Error::PermissionDenied,
            IoKind::ConnectionRefused => Error::ConnectionRefused,
            IoKind::ConnectionReset => Error::ConnectionReset,
            IoKind::ConnectionAborted => Error::ConnectionAborted,
            IoKind::NotConnected => Error::NotConnected,
            IoKind::AddrInUse => Error::AddressInUse,
            IoKind::AddrNotAvailable => Error::AddressNotAvailable,
            IoKind::AlreadyExists => Error::AlreadyConnected,
            IoKind::WouldBlock => Error::TryAgain,
            IoKind::InvalidInput => Error::InvalidInput,
            IoKind::TimedOut => Error::TimedOut,
            IoKind::Interrupted => Error::Interrupted,
            IoKind::Other => Error::Unknown,
        }
    }
}

impl From<std::io::Error> for Error {
    /// The kind that an error of `std::io` stands for.
    fn from(err: std::io::Error) -> (e: Error) {
        Error::from_io_kind(io_kind_of(&err))
    }
}

impl vstd::std_specs::convert::FromSpecImpl<std::io::Error> for Error {
    open spec fn obeys_from_spec() -> bool {
        true
    }

    open spec fn from_spec(err: std::io::Error) -> Error {
        Error::of_io_kind(io_error_kind(err))
    }
}

impl Outcome {
    /// The value that the call returned, or the kind of its failure.
    pub fn check(&self) -> (checked: Result<i32, Error>)
        ensures
            self.failed() ==> checked == Err::<i32, Error>(Error::of_code(self.errno)),
            !self.failed() ==> checked == Ok::<i32, Error>(self.ret),
    {
        if self.failed() {
            Err(Error::from_raw(self.errno))
        } else {
            Ok(self.ret)
        }
    }

    /// Success, or the kind of the call's failure, for a call that yields
    /// nothing else.
    pub fn done(&self) -> (checked: Result<(), Error>)
        ensures
            self.failed() ==> checked == Err::<(), Error>(Error::of_code(self.errno)),
            !self.failed() ==> checked == Ok::<(), Error>(()),
    {
        if self.failed() {
            Err(Error::from_raw(self.errno))
        } else {
            Ok(())
        }
    }

    /// The value that the call returned, or its failure as an error of
    /// `std::io` that shows `description`.
    pub fn io_check(&self, description: String) -> (checked: Result<i32, std::io::Error>)
        ensures
            self.failed() ==> checked is Err
                && io_error_kind(checked->Err_0) == Error::of_code(self.errno).io_kind()
                && io_error_text(checked->Err_0) == description@,
            !self.failed() ==> checked is Ok && checked->Ok_0 == self.ret,
    {
        if self.failed() {
            Err(Error::from_raw(self.errno).into_io_error(description))
        } else {
            Ok(self.ret)
        }
    }
}

} // verus!
