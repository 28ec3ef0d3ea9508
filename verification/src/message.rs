//! A received message and the ownership of its buffer.
//!
//! A message is received in one of two ways, and its buffer is released in
//! the way that matches: a buffer that the native library allocated goes back
//! to the native library, a buffer from the process heap goes back to the
//! heap. A [`NanoMsg`] keeps a tag that says which of the two it holds, if
//! any, and every step that gives the buffer up says which release is due.

use crate::nanosocket::NanoErr;
use crate::sys::{Call, Outcome, NN_MSG};
use crate::text::{decimal, push_str, string_from_utf8_lossy, u64_to_string, utf8_lossy};
use vstd::prelude::*;

verus! {

/// How the buffer that a message holds is to be released.
#[derive(Clone, Copy, PartialEq, Eq, Debug, Structural)]
pub enum HowToCleanup {
    /// No buffer is held: there is nothing to release.
    DoNothing,
    /// The buffer was allocated on the process heap for a bounded receive:
    /// it is released to the heap.
    Free,
    /// The buffer was allocated by the native library: it is released by
    /// `nn_freemsg`.
    CallNnFreemsg,
}

/// What a message wrapper holds: the bytes stored, the number of bytes that
/// the message had, and the release that its buffer is due.
#[verifier::ext_equal]
pub struct MsgState {
    pub bytes: Seq<u8>,
    pub available: nat,
    pub cleanup: HowToCleanup,
}

impl MsgState {
    /// Nothing is held.
    pub open spec fn empty() -> MsgState {
        MsgState { bytes: Seq::empty(), available: 0, cleanup: HowToCleanup::DoNothing }
    }

    /// No more bytes are stored than the message had, and where no buffer is
    /// held there are none.
    pub open spec fn wf(self) -> bool {
        &&& self.bytes.len() <= self.available
        &&& self.cleanup is DoNothing ==> self.available == 0
    }

    /// A bounded receive is under way: its heap buffer is allocated and
    /// nothing is stored in it yet.
    pub open spec fn awaiting_bounded() -> MsgState {
        MsgState { bytes: Seq::empty(), available: 0, cleanup: HowToCleanup::Free }
    }

    /// The state after a receive into a buffer of the native library: the
    /// whole message where the call succeeded, nothing where it failed.
    pub open spec fn after_any_size(outcome: Outcome, data: Seq<u8>) -> MsgState {
        if outcome.failed() {
            Self::empty()
        } else {
            MsgState {
                bytes: data,
                available: data.len(),
                cleanup: HowToCleanup::CallNnFreemsg,
            }
        }
    }

    /// The number of bytes that a bounded receive stores: all that the
    /// message has, up to the size of the buffer.
    pub open spec fn stored(capacity: nat, available: nat) -> nat {
        if available <= capacity {
            available
        } else {
            capacity
        }
    }

    /// The state after a bounded receive into `buffer`: where the call
    /// succeeded, the start of the buffer as far as the message filled it,
    /// beside the length that the message really had; nothing where the call
    /// failed, the buffer being released at once.
    pub open spec fn after_bounded(outcome: Outcome, buffer: Seq<u8>) -> MsgState {
        if outcome.failed() {
            Self::empty()
        } else {
            MsgState {
                bytes: buffer.subrange(0, Self::stored(buffer.len(), outcome.ret as nat) as int),
                available: outcome.ret as nat,
                cleanup: HowToCleanup::Free,
            }
        }
    }
}

/// One use of a message wrapper: a release, or a whole receive with what the
/// native call gave.
pub enum Use {
    /// `cleanup`
    Cleanup,
    /// `recv_any_size`, then `finish_recv_any_size` with this outcome and
    /// message.
    RecvAnySize(Outcome, Seq<u8>),
    /// `recv_no_more_than_maxlen`, then `finish_recv_no_more_than_maxlen`
    /// with this outcome and buffer.
    RecvNoMoreThanMaxlen(Outcome, Seq<u8>),
}

/// The account of the buffers that passed through a message wrapper: how
/// many each allocator gave, and how many went back to each.
pub struct Ledger {
    pub heap_acquired: nat,
    pub heap_released: nat,
    pub library_acquired: nat,
    pub library_released: nat,
}

impl Ledger {
    /// The account with one release entered.
    pub open spec fn release(self, release: HowToCleanup) -> Ledger {
        match release {
            HowToCleanup::DoNothing => self,
            HowToCleanup::Free => Ledger { heap_released: self.heap_released + 1, ..self },
            HowToCleanup::CallNnFreemsg => Ledger {
                library_released: self.library_released + 1,
                ..self
            },
        }
    }

    /// Every buffer that an allocator gave has gone back to that allocator,
    /// but for the one that `held` still holds.
    pub open spec fn balanced(self, held: MsgState) -> bool {
        &&& self.heap_acquired == self.heap_released + if held.cleanup is Free {
            1nat
        } else {
            0nat
        }
        &&& self.library_acquired == self.library_released + if held.cleanup is CallNnFreemsg {
            1nat
        } else {
            0nat
        }
    }
}

impl MsgState {
    /// The state and the account after one use of the wrapper.
    pub open spec fn after_use(self, ledger: Ledger, step: Use) -> (MsgState, Ledger) {
        let given_up = ledger.release(self.cleanup);
        match step {
            Use::Cleanup => (Self::empty(), given_up),
            Use::RecvAnySize(outcome, data) => (
                Self::after_any_size(outcome, data),
                if outcome.failed() {
                    given_up
                } else {
                    Ledger { library_acquired: given_up.library_acquired + 1, ..given_up }
                },
            ),
            Use::RecvNoMoreThanMaxlen(outcome, buffer) => {
                let allocated = Ledger { heap_acquired: given_up.heap_acquired + 1, ..given_up };
                (
                    Self::after_bounded(outcome, buffer),
                    if outcome.failed() {
                        allocated.release(Self::awaiting_bounded().cleanup)
                    } else {
                        allocated
                    },
                )
            },
        }
    }

    /// The state and the account after a sequence of uses.
    pub open spec fn after_uses(self, ledger: Ledger, steps: Seq<Use>) -> (MsgState, Ledger)
        decreases steps.len(),
    {
        if steps.len() == 0 {
            (self, ledger)
        } else {
            let (held, account) = self.after_uses(ledger, steps.drop_last());
            held.after_use(account, steps.last())
        }
    }

    /// However a wrapper is used, and whatever the native calls give, no
    /// buffer is lost and none is released twice or to the wrong allocator:
    /// after every sequence of receives and releases, each allocator has
    /// back all that it gave, but for the one buffer that the wrapper holds.
    /// A receive on a wrapper that still holds a message is no exception.
    pub proof fn lemma_every_buffer_released_once(self, ledger: Ledger, steps: Seq<Use>)
        requires
            ledger.balanced(self),
        ensures
            self.after_uses(ledger, steps).1.balanced(self.after_uses(ledger, steps).0),
        decreases steps.len(),
    {
        if steps.len() > 0 {
            self.lemma_every_buffer_released_once(ledger, steps.drop_last());
        }
    }

    /// Whatever a native call gives, what a wrapper holds after a receive is
    /// well formed, and a bounded receive never stores more than its buffer
    /// holds.
    pub proof fn lemma_well_formed(outcome: Outcome, data: Seq<u8>)
        ensures
            Self::empty().wf(),
            Self::awaiting_bounded().wf(),
            Self::after_any_size(outcome, data).wf(),
            Self::after_bounded(outcome, data).wf(),
            Self::after_bounded(outcome, data).bytes.len() <= data.len(),
    {
    }

    /// A wrapper that gave its buffer up has nothing left to release:
    /// releasing is idempotent.
    pub proof fn lemma_cleanup_idempotent(self, ledger: Ledger)
        ensures
            self.after_use(ledger, Use::Cleanup).0 == Self::empty(),
            Self::empty().after_use(ledger, Use::Cleanup) == (Self::empty(), ledger),
    {
    }

    /// A bounded receive stores the start of what was sent, as far as the
    /// bound allows and no further, and keeps the real length of the message
    /// beside it.
    ///
    /// `sent` is the message, `buffer` the buffer of the receive after the
    /// native call, which reported the length of the message and wrote the
    /// start of the message into the buffer.
    pub proof fn lemma_bounded_round_trip(sent: Seq<u8>, outcome: Outcome, buffer: Seq<u8>)
        requires
            outcome.ret == sent.len(),
            buffer.subrange(0, Self::stored(buffer.len(), sent.len()) as int) == sent.subrange(
                0,
                Self::stored(buffer.len(), sent.len()) as int,
            ),
        ensures
            Self::after_bounded(outcome, buffer).bytes == sent.subrange(
                0,
                Self::stored(buffer.len(), sent.len()) as int,
            ),
            Self::after_bounded(outcome, buffer).bytes.len() <= buffer.len(),
            Self::after_bounded(outcome, buffer).available == sent.len(),
            Self::after_bounded(outcome, buffer).wf(),
    {
    }

    /// Where the bytes that a bounded receive stores are UTF-8, the text that
    /// `copy_to_string` makes of them has exactly those bytes.
    pub proof fn lemma_bounded_round_trip_text(sent: Seq<u8>, outcome: Outcome, buffer: Seq<u8>)
        requires
            outcome.ret == sent.len(),
            buffer.subrange(0, Self::stored(buffer.len(), sent.len()) as int) == sent.subrange(
                0,
                Self::stored(buffer.len(), sent.len()) as int,
            ),
            vstd::utf8::valid_utf8(sent.subrange(0, Self::stored(buffer.len(), sent.len()) as int)),
        ensures
            vstd::utf8::encode_utf8(
                vstd::utf8::decode_utf8(Self::after_bounded(outcome, buffer).bytes),
            ) == sent.subrange(0, Self::stored(buffer.len(), sent.len()) as int),
    {
        Self::lemma_bounded_round_trip(sent, outcome, buffer);
        vstd::utf8::decode_utf8_encode_utf8(Self::after_bounded(outcome, buffer).bytes);
    }
}

/// A message that was received from a socket, and the buffer that holds it.
pub struct NanoMsg {
    buf: Vec<u8>,
    bytes_available: u64,
    cleanup: HowToCleanup,
}

impl View for NanoMsg {
    type V = MsgState;

    closed spec fn view(&self) -> MsgState {
        MsgState {
            bytes: self.buf@,
            available: self.bytes_available as nat,
            cleanup: self.cleanup,
        }
    }
}

impl NanoMsg {
    /// A wrapper that holds no message.
    pub fn new() -> (msg: NanoMsg)
        ensures
            msg@ == MsgState::empty(),
    {
        NanoMsg { buf: Vec::new(), bytes_available: 0, cleanup: HowToCleanup::DoNothing }
    }

    /// The number of bytes that are stored.
    pub fn len(&self) -> (n: u64)
        ensures
            n == self@.bytes.len(),
    {
        self.buf.len() as u64
    }

    /// The number of bytes that the message had when it was received. It is
    /// more than `len` where a bounded receive cut the message short.
    pub fn actual_msg_bytes_avail(&self) -> (n: u64)
        ensures
            n == self@.available,
    {
        self.bytes_available
    }

    /// The release that the buffer is due.
    pub fn how_to_cleanup(&self) -> (cleanup: HowToCleanup)
        ensures
            cleanup == self@.cleanup,
    {
        self.cleanup
    }

    /// Whether the message had more bytes than are stored.
    pub fn truncated(&self) -> (cut: bool)
        ensures
            cut == (self@.available > self@.bytes.len()),
    {
        self.bytes_available > self.buf.len() as u64
    }

    /// The bytes that are stored.
    pub fn as_bytes(&self) -> (bytes: &[u8])
        ensures
            bytes@ == self@.bytes,
    {
        self.buf.as_slice()
    }

    /// Gives the buffer up. The result is the release that is now due for
    /// it; the wrapper holds nothing afterwards, so that a second call finds
    /// nothing to release.
    pub fn cleanup(&mut self) -> (release: HowToCleanup)
        ensures
            release == old(self)@.cleanup,
            final(self)@ == MsgState::empty(),
    {
        let release = self.cleanup;
        self.buf = Vec::new();
        self.bytes_available = 0;
        self.cleanup = HowToCleanup::DoNothing;
        release
    }

    /// Gives the wrapper up and hands out the stored bytes. No release
    /// becomes due by this: whoever unwraps a message answers for its buffer.
    pub fn unwrap(self) -> (bytes: Vec<u8>)
        ensures
            bytes@ == self@.bytes,
    {
        self.buf
    }

    /// Starts a receive into a buffer that the native library allocates.
    ///
    /// The buffer held so far is given up first: `release` is what is due
    /// for it. The call is a receive on `sock` that asks for a message of
    /// any size.
    pub fn recv_any_size(&mut self, sock: i32, flags: i32) -> (step: (HowToCleanup, Call))
        ensures
            step.0 == old(self)@.cleanup,
            step.1 == (Call::Recv { socket: sock, len: NN_MSG, flags }),
            final(self)@ == MsgState::empty(),
    {
        let release = self.cleanup();
        (release, Call::Recv { socket: sock, len: NN_MSG, flags })
    }

    /// Ends a receive that `recv_any_size` started. `data` is the message
    /// that the native library handed over, `errstr` the text of the error
    /// if the call failed.
    ///
    /// On success the whole message is stored and its buffer is due to the
    /// native library; on failure nothing is held.
    pub fn finish_recv_any_size(
        &mut self,
        outcome: Outcome,
        errstr: String,
        data: Vec<u8>,
    ) -> (received: Result<u64, NanoErr>)
        requires
            old(self)@ == MsgState::empty(),
        ensures
            final(self)@ == MsgState::after_any_size(outcome, data@),
            outcome.failed() ==> received is Err && received->Err_0.rc == outcome.errno
                && received->Err_0.errstr@ == errstr@,
            !outcome.failed() ==> received == Ok::<u64, NanoErr>(data.len() as u64),
    {
        if outcome.failed() {
            return Err(NanoErr { rc: outcome.errno, errstr });
        }
        let stored = data.len() as u64;
        self.buf = data;
        self.bytes_available = stored;
        self.cleanup = HowToCleanup::CallNnFreemsg;
        Ok(stored)
    }

    /// Starts a receive of at most `maxlen` bytes into a buffer from the
    /// process heap.
    ///
    /// The buffer held so far is given up first: the first part of the
    /// result is the release that is due for it. Then a buffer of exactly
    /// `maxlen` bytes is allocated, the last part of the result, and the
    /// wrapper is tagged for the heap before the call is made. The call is a
    /// receive on `sock` into that buffer. No buffer can have more bytes
    /// than `isize::MAX`.
    pub fn recv_no_more_than_maxlen(&mut self, sock: i32, maxlen: u64, flags: i32) -> (step: (
        HowToCleanup,
        Call,
        Vec<u8>,
    ))
        requires
            maxlen <= isize::MAX,
        ensures
            step.0 == old(self)@.cleanup,
            step.1 == (Call::Recv { socket: sock, len: maxlen as usize, flags }),
            step.2@.len() == maxlen,
            final(self)@ == MsgState::awaiting_bounded(),
    {
        let release = self.cleanup();
        let buffer: Vec<u8> = vec![0u8; maxlen as usize];
        self.cleanup = HowToCleanup::Free;
        (release, Call::Recv { socket: sock, len: maxlen as usize, flags }, buffer)
    }

    /// Ends a receive that `recv_no_more_than_maxlen` started. `buffer` is
    /// the buffer that the call was made on, `errstr` the text of the error
    /// if the call failed.
    ///
    /// On success the bytes that fit are stored, and the length that the
    /// message really had is kept beside them. On failure the buffer is
    /// released and nothing is held.
    pub fn finish_recv_no_more_than_maxlen(
        &mut self,
        outcome: Outcome,
        errstr: String,
        buffer: Vec<u8>,
    ) -> (received: Result<u64, NanoErr>)
        requires
            old(self)@ == MsgState::awaiting_bounded(),
        ensures
            final(self)@ == MsgState::after_bounded(outcome, buffer@),
            outcome.failed() ==> received is Err && received->Err_0.rc == outcome.errno
                && received->Err_0.errstr@ == errstr@,
            !outcome.failed() ==> received == Ok::<u64, NanoErr>(
                MsgState::stored(buffer@.len(), outcome.ret as nat) as u64,
            ),
    {
        if outcome.failed() {
            self.cleanup();
            return Err(NanoErr { rc: outcome.errno, errstr });
        }
        let available = outcome.ret as u64;
        let capacity = buffer.len() as u64;
        let stored = if available <= capacity {
            available
        } else {
            capacity
        };
        let mut buffer = buffer;
        buffer.truncate(stored as usize);
        self.buf = buffer;
        self.bytes_available = available;
        Ok(stored)
    }

    /// The stored bytes as text. Bytes that are not UTF-8 are replaced as
    /// `String::from_utf8_lossy` replaces them.
    pub fn copy_to_string(&self) -> (text: String)
        ensures
            text@ == utf8_lossy(self@.bytes),
            vstd::utf8::valid_utf8(self@.bytes) ==> text@ == vstd::utf8::decode_utf8(self@.bytes),
    {
        string_from_utf8_lossy(self.buf.as_slice())
    }

    /// The line that shows the message for debugging: its length and its
    /// text.
    pub fn printbuf(&self) -> (line: String)
        ensures
            line@ == "NanoMsg contains message of length "@ + decimal(self@.bytes.len()) + ": '"@
                + utf8_lossy(self@.bytes) + "'"@,
    {
        let mut line = "NanoMsg contains message of length ".to_string();
        let length = u64_to_string(self.len());
        push_str(&mut line, length.as_str());
        push_str(&mut line, ": '");
        let text = self.copy_to_string();
        push_str(&mut line, text.as_str());
        push_str(&mut line, "'");
        line
    }
}

} // verus!
