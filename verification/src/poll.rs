//! Requests to poll sockets, and what the poll found.

use crate::sys::nn_pollfd;
use vstd::prelude::*;

verus! {

/// What a socket is polled for.
#[derive(Clone, Copy, Debug, PartialEq, Eq, Structural)]
pub enum PollInOut {
    /// Whether a message can be received without blocking.
    In,
    /// Whether a message can be sent without blocking.
    Out,
    /// Whether a message can be received or sent without blocking.
    InOut,
}

impl PollInOut {
    /// Whether readability is asked for.
    pub open spec fn pollin(&self) -> bool {
        self is In || self is InOut
    }

    /// Whether writability is asked for.
    pub open spec fn pollout(&self) -> bool {
        self is Out || self is InOut
    }
}

/// A request to poll one socket, and the result of the last successful poll.
#[derive(Clone, Copy, Debug)]
pub struct PollFd {
    socket: i32,
    check_pollinout: PollInOut,
    check_pollin_result: bool,
    check_pollout_result: bool,
}

impl PollFd {
    /// The handle of the socket.
    pub closed spec fn fd(&self) -> i32 {
        self.socket
    }

    /// What the socket is polled for.
    pub closed spec fn interest(&self) -> PollInOut {
        self.check_pollinout
    }

    /// Whether the last poll found that a message can be received.
    pub closed spec fn readable(&self) -> bool {
        self.check_pollin_result
    }

    /// Whether the last poll found that a message can be sent.
    pub closed spec fn writable(&self) -> bool {
        self.check_pollout_result
    }

    /// The descriptor that the native poll takes for this request.
    pub open spec fn descriptor(&self) -> nn_pollfd {
        nn_pollfd {
            fd: self.fd(),
            events: nn_pollfd::interest(self.interest().pollin(), self.interest().pollout()),
            revents: 0,
        }
    }

    /// The request with the results that a polled descriptor reports.
    pub open spec fn answered(&self, polled: nn_pollfd, answer: PollFd) -> bool {
        &&& answer.fd() == self.fd()
        &&& answer.interest() == self.interest()
        &&& answer.readable() == nn_pollfd::readable(polled.revents)
        &&& answer.writable() == nn_pollfd::writable(polled.revents)
    }

    /// A request to poll `socket` for `pollinout`, with no result yet.
    pub(crate) fn new(socket: i32, pollinout: PollInOut) -> (request: PollFd)
        ensures
            request.fd() == socket,
            request.interest() == pollinout,
            !request.readable(),
            !request.writable(),
    {
        PollFd {
            socket,
            check_pollinout: pollinout,
            check_pollin_result: false,
            check_pollout_result: false,
        }
    }

    /// The descriptor that the native poll takes for this request.
    pub(crate) fn convert(&self) -> (descriptor: nn_pollfd)
        ensures
            descriptor == self.descriptor(),
    {
        let (pollin, pollout) = match self.check_pollinout {
            PollInOut::In => (true, false),
            PollInOut::Out => (false, true),
            PollInOut::InOut => (true, true),
        };
        nn_pollfd::new(self.socket, pollin, pollout)
    }

    /// Whether the last poll found that a message can be received.
    #[verifier::when_used_as_spec(readable)]
    pub fn can_read(&self) -> (ready: bool)
        ensures
            ready == self.readable(),
    {
        self.check_pollin_result
    }

    /// Whether the last poll found that a message can be sent.
    #[verifier::when_used_as_spec(writable)]
    pub fn can_write(&self) -> (ready: bool)
        ensures
            ready == self.writable(),
    {
        self.check_pollout_result
    }

    /// Takes the results over from a polled descriptor.
    fn copy_result(&mut self, polled: &nn_pollfd)
        ensures
            old(self).answered(*polled, *final(self)),
    {
        self.check_pollin_result = polled.pollin_result();
        self.check_pollout_result = polled.pollout_result();
    }
}

/// A request to poll a set of sockets at once, and the results of the last
/// successful poll.
pub struct PollRequest {
    fds: Vec<PollFd>,
}

impl View for PollRequest {
    type V = Seq<PollFd>;

    closed spec fn view(&self) -> Seq<PollFd> {
        self.fds@
    }
}

impl PollRequest {
    /// A request made of the requests for the single sockets.
    pub fn new(fds: Vec<PollFd>) -> (request: PollRequest)
        ensures
            request@ == fds@,
    {
        PollRequest { fds }
    }

    /// The number of sockets.
    pub(crate) fn len(&self) -> (n: usize)
        ensures
            n == self@.len(),
    {
        self.fds.len()
    }

    /// The requests for the single sockets, with their results.
    pub fn get_fds(&self) -> (fds: &[PollFd])
        ensures
            fds@ == self@,
    {
        self.fds.as_slice()
    }

    /// The descriptors that the native poll takes, one for each socket and
    /// in the same order.
    pub open spec fn descriptors(&self) -> Seq<nn_pollfd> {
        Seq::new(self@.len(), |i: int| self@[i].descriptor())
    }

    /// The descriptors that the native poll takes, one for each socket and
    /// in the same order.
    pub(crate) fn get_nn_fds(&self) -> (descriptors: Vec<nn_pollfd>)
        ensures
            descriptors@ == self.descriptors(),
    {
        let mut descriptors: Vec<nn_pollfd> = Vec::with_capacity(self.fds.len());
        let mut i: usize = 0;
        while i < self.fds.len()
            invariant
                i <= self.fds.len(),
                descriptors@.len() == i,
                forall|j: int| 0 <= j < i ==> descriptors@[j] == self.fds@[j].descriptor(),
            decreases self.fds.len() - i,
        {
            descriptors.push(self.fds[i].convert());
            i += 1;
        }
        descriptors
    }

    /// Takes the results over from the polled descriptors, each into the
    /// request at the same place.
    pub(crate) fn copy_poll_result(&mut self, polled: &[nn_pollfd])
        requires
            polled@.len() == old(self)@.len(),
        ensures
            final(self)@.len() == old(self)@.len(),
            forall|i: int|
                0 <= i < old(self)@.len() ==> old(self)@[i].answered(
                    polled@[i],
                    #[trigger] final(self)@[i],
                ),
    {
        let mut i: usize = 0;
        while i < self.fds.len()
            invariant
                i <= self.fds.len(),
                self.fds@.len() == old(self)@.len(),
                polled@.len() == self.fds@.len(),
                forall|j: int| 0 <= j < i ==> old(self)@[j].answered(polled@[j], self.fds@[j]),
                forall|j: int| i <= j < self.fds@.len() ==> self.fds@[j] == old(self)@[j],
            decreases self.fds.len() - i,
        {
            let mut fd = self.fds[i];
            fd.copy_result(&polled[i]);
            self.fds.set(i, fd);
            i += 1;
        }
    }
}

} // verus!
