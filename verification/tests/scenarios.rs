//! Whole exchanges between sockets, run against a stand-in for the native
//! library that keeps its sockets and their messages in memory.

use nanomsg::endpoint::Endpoint;
use nanomsg::message::{HowToCleanup, NanoMsg};
use nanomsg::nanosocket::NanoSocket;
use nanomsg::poll::{PollFd, PollInOut, PollRequest};
use nanomsg::result::Error;
use nanomsg::socket::Protocol::{Bus, Pair, Pub, Pull, Push, Rep, Req, Respondent, Sub, Surveyor};
use nanomsg::socket::{Protocol, Socket};
use nanomsg::sys;
use nanomsg::sys::{nn_pollfd, Call, OptVal, Outcome};
use std::collections::VecDeque;

struct Peer {
    protocol: i32,
    open: bool,
    inbox: VecDeque<Vec<u8>>,
    endpoints: Vec<(Vec<u8>, bool, bool)>,
    topics: Vec<Vec<u8>>,
    name: Vec<u8>,
    options: Vec<(i32, i32, i32)>,
}

struct Native {
    peers: Vec<Peer>,
    messages: usize,
    terminated: bool,
}

fn fine(ret: i32) -> Outcome {
    Outcome { ret, errno: 0 }
}

fn fails(errno: i32) -> Outcome {
    Outcome { ret: -1, errno }
}

fn takes(from: i32, to: i32) -> bool {
    matches!(
        (from, to),
        (sys::NN_PUSH, sys::NN_PULL)
            | (sys::NN_PAIR, sys::NN_PAIR)
            | (sys::NN_BUS, sys::NN_BUS)
            | (sys::NN_PUB, sys::NN_SUB)
            | (sys::NN_REQ, sys::NN_REP)
            | (sys::NN_REP, sys::NN_REQ)
            | (sys::NN_SURVEYOR, sys::NN_RESPONDENT)
            | (sys::NN_RESPONDENT, sys::NN_SURVEYOR)
    )
}

fn reaches_all(protocol: i32) -> bool {
    protocol == sys::NN_BUS || protocol == sys::NN_PUB || protocol == sys::NN_SURVEYOR
}

impl Native {
    fn new() -> Native {
        Native { peers: Vec::new(), messages: 0, terminated: false }
    }

    fn peer(&mut self, socket: i32) -> Option<&mut Peer> {
        self.peers.get_mut(socket as usize).filter(|peer| peer.open)
    }

    fn linked(&self, a: usize, b: usize) -> bool {
        let (a, b) = (&self.peers[a], &self.peers[b]);
        a.open && b.open && a.endpoints.iter().any(|(at, bound, up)| {
            *up && b.endpoints.iter().any(|(other, b_bound, b_up)| {
                *b_up && at == other && bound != b_bound
            })
        })
    }

    fn targets(&self, from: usize, payload: Option<&[u8]>) -> Vec<usize> {
        let protocol = self.peers[from].protocol;
        let mut targets: Vec<usize> = (0..self.peers.len())
            .filter(|&to| to != from && self.linked(from, to))
            .filter(|&to| takes(protocol, self.peers[to].protocol))
            .filter(|&to| match payload {
                Some(payload) if protocol == sys::NN_PUB => {
                    self.peers[to].topics.iter().any(|topic| payload.starts_with(topic))
                }
                _ => true,
            })
            .collect();
        if !reaches_all(protocol) {
            targets.truncate(1);
        }
        targets
    }

    fn perform(&mut self, call: &Call) -> Outcome {
        if self.terminated && !matches!(call, Call::Close { .. } | Call::Term) {
            return fails(sys::ETERM);
        }
        match call {
            Call::Socket { domain, protocol } => {
                if *domain != sys::AF_SP && *domain != sys::AF_SP_RAW {
                    return fails(sys::EAFNOSUPPORT);
                }
                self.peers.push(Peer {
                    protocol: *protocol,
                    open: true,
                    inbox: VecDeque::new(),
                    endpoints: Vec::new(),
                    topics: Vec::new(),
                    name: Vec::new(),
                    options: Vec::new(),
                });
                fine(self.peers.len() as i32 - 1)
            }
            Call::Close { socket } => match self.peer(*socket) {
                Some(peer) => {
                    peer.open = false;
                    fine(0)
                }
                None => fails(sys::EBADF),
            },
            Call::Bind { socket, addr } | Call::Connect { socket, addr } => {
                let bound = matches!(call, Call::Bind { .. });
                assert_eq!(addr.last(), Some(&0u8));
                assert!(!addr[..addr.len() - 1].contains(&0u8));
                match self.peer(*socket) {
                    Some(peer) => {
                        peer.endpoints.push((addr.clone(), bound, true));
                        fine(peer.endpoints.len() as i32)
                    }
                    None => fails(sys::EBADF),
                }
            }
            Call::Shutdown { socket, how } => match self.peer(*socket) {
                Some(peer) if *how >= 1 && *how as usize <= peer.endpoints.len() => {
                    peer.endpoints[*how as usize - 1].2 = false;
                    fine(0)
                }
                Some(_) => fails(sys::EINVAL),
                None => fails(sys::EBADF),
            },
            Call::SetSockOpt { socket, level, option, optval, optvallen } => {
                match self.peer(*socket) {
                    Some(peer) => match optval {
                        OptVal::Int(value) => {
                            assert_eq!(*optvallen, 4);
                            peer.options.push((*level, *option, *value));
                            fine(0)
                        }
                        OptVal::Bytes(bytes) => {
                            assert_eq!(*optvallen, bytes.len());
                            if *level == sys::NN_SUB && *option == sys::NN_SUB_SUBSCRIBE {
                                peer.topics.push(bytes.clone());
                            } else if *level == sys::NN_SUB && *option == sys::NN_SUB_UNSUBSCRIBE {
                                peer.topics.retain(|topic| topic != bytes);
                            } else if *level == sys::NN_SOL_SOCKET
                                && *option == sys::NN_SOCKET_NAME
                            {
                                peer.name = bytes.clone();
                            } else {
                                return fails(sys::ENOPROTOOPT);
                            }
                            fine(0)
                        }
                    },
                    None => fails(sys::EBADF),
                }
            }
            Call::AllocMsg { .. } => {
                self.messages += 1;
                fine(0)
            }
            Call::FreeMsg => {
                if self.messages == 0 {
                    return fails(sys::EFAULT);
                }
                self.messages -= 1;
                fine(0)
            }
            Call::Term => {
                self.terminated = true;
                fine(0)
            }
            _ => fails(sys::ENOTSUP),
        }
    }

    fn send(&mut self, call: &Call, payload: &[u8]) -> Outcome {
        let Call::Send { socket, len, flags } = call else {
            return fails(sys::ENOTSUP);
        };
        assert!(*flags == 0 || *flags == sys::NN_DONTWAIT);
        if *len == sys::NN_MSG {
            assert!(self.messages > 0);
            self.messages -= 1;
        } else {
            assert_eq!(*len, payload.len());
        }
        if self.terminated {
            return fails(sys::ETERM);
        }
        if self.peer(*socket).is_none() {
            return fails(sys::EBADF);
        }
        let protocol = self.peers[*socket as usize].protocol;
        if protocol == sys::NN_PULL || protocol == sys::NN_SUB {
            return fails(sys::ENOTSUP);
        }
        if self.targets(*socket as usize, None).is_empty() {
            return fails(sys::EAGAIN);
        }
        for to in self.targets(*socket as usize, Some(payload)) {
            self.peers[to].inbox.push_back(payload.to_vec());
        }
        fine(payload.len() as i32)
    }

    fn take(&mut self, call: &Call) -> Result<Vec<u8>, Outcome> {
        let Call::Recv { socket, flags, .. } = call else {
            return Err(fails(sys::ENOTSUP));
        };
        assert!(*flags == 0 || *flags == sys::NN_DONTWAIT);
        if self.terminated {
            return Err(fails(sys::ETERM));
        }
        match self.peer(*socket) {
            Some(peer) if peer.protocol == sys::NN_PUSH || peer.protocol == sys::NN_PUB => {
                Err(fails(sys::ENOTSUP))
            }
            Some(peer) => peer.inbox.pop_front().ok_or(fails(sys::EAGAIN)),
            None => Err(fails(sys::EBADF)),
        }
    }

    fn recv(&mut self, call: &Call, buf: &mut [u8]) -> Outcome {
        match call {
            Call::Recv { len, .. } => assert_eq!(*len, buf.len()),
            _ => return fails(sys::ENOTSUP),
        }
        match self.take(call) {
            Ok(message) => {
                let fits = message.len().min(buf.len());
                buf[..fits].copy_from_slice(&message[..fits]);
                fine(message.len() as i32)
            }
            Err(failure) => failure,
        }
    }

    fn recv_msg(&mut self, call: &Call) -> (Outcome, Vec<u8>) {
        match call {
            Call::Recv { len, .. } => assert_eq!(*len, sys::NN_MSG),
            _ => return (fails(sys::ENOTSUP), Vec::new()),
        }
        match self.take(call) {
            Ok(message) => (fine(message.len() as i32), message),
            Err(failure) => (failure, Vec::new()),
        }
    }

    fn poll(&mut self, call: &Call) -> (Outcome, Vec<nn_pollfd>) {
        let Call::Poll { fds, nfds, .. } = call else {
            return (fails(sys::ENOTSUP), Vec::new());
        };
        assert_eq!(*nfds as usize, fds.len());
        let mut polled = fds.clone();
        let mut found = 0;
        for fd in polled.iter_mut() {
            if self.peer(fd.fd).is_none() {
                return (fails(sys::EBADF), fds.clone());
            }
            let readable = !self.peers[fd.fd as usize].inbox.is_empty();
            let writable = !self.targets(fd.fd as usize, None).is_empty();
            fd.revents = 0;
            if readable && fd.events & sys::NN_POLLIN != 0 {
                fd.revents |= sys::NN_POLLIN;
            }
            if writable && fd.events & sys::NN_POLLOUT != 0 {
                fd.revents |= sys::NN_POLLOUT;
            }
            if fd.revents != 0 {
                found += 1;
            }
        }
        (fine(found), polled)
    }

    fn get_int(&mut self, call: &Call) -> (Outcome, i32) {
        let Call::GetSockOpt { socket, level, option, optvallen } = call else {
            return (fails(sys::ENOTSUP), 0);
        };
        assert_eq!(*optvallen, 4);
        assert_eq!(*level, sys::NN_SOL_SOCKET);
        match self.peer(*socket) {
            Some(_) if *option == sys::NN_RCVFD => (fine(0), 100 + 2 * *socket),
            Some(_) if *option == sys::NN_SNDFD => (fine(0), 101 + 2 * *socket),
            Some(_) => (fails(sys::ENOPROTOOPT), 0),
            None => (fails(sys::EBADF), 0),
        }
    }

    fn get_bytes(&mut self, call: &Call) -> (Outcome, Vec<u8>) {
        let Call::GetSockOpt { socket, level, option, optvallen } = call else {
            return (fails(sys::ENOTSUP), Vec::new());
        };
        assert_eq!((*level, *option), (sys::NN_SOL_SOCKET, sys::NN_SOCKET_NAME));
        match self.peer(*socket) {
            Some(peer) => {
                let mut value = peer.name.clone();
                value.resize(*optvallen, 0);
                (fine(0), value)
            }
            None => (fails(sys::EBADF), Vec::new()),
        }
    }

    fn option(&self, socket: &Socket, level: i32, option: i32) -> Option<i32> {
        self.peers[socket.raw() as usize]
            .options
            .iter()
            .rev()
            .find(|(l, o, _)| (*l, *o) == (level, option))
            .map(|(_, _, value)| *value)
    }
}

fn test_create_socket(native: &mut Native, protocol: Protocol) -> Socket {
    let outcome = native.perform(&Socket::new(protocol));
    match Socket::finish_create(outcome) {
        Ok(socket) => socket,
        Err(err) => panic!("{:?}", err),
    }
}

fn test_bind<'a>(native: &mut Native, socket: &'a Socket, addr: &str) -> Endpoint<'a> {
    let call = socket.bind(addr).unwrap();
    let outcome = native.perform(&call);
    match socket.finish_endpoint(outcome) {
        Ok(endpoint) => endpoint,
        Err(err) => panic!("{:?}", err),
    }
}

fn test_connect<'a>(native: &mut Native, socket: &'a Socket, addr: &str) -> Endpoint<'a> {
    let call = socket.connect(addr).unwrap();
    let outcome = native.perform(&call);
    match socket.finish_endpoint(outcome) {
        Ok(endpoint) => endpoint,
        Err(err) => panic!("{:?}", err),
    }
}

fn test_shutdown(native: &mut Native, endpoint: Endpoint) -> Result<(), Error> {
    let call = endpoint.shutdown();
    native.perform(&call).done()
}

fn test_close(native: &mut Native, socket: Socket) {
    let call = socket.close();
    match native.perform(&call).done() {
        Ok(()) => {}
        Err(err) => panic!("{:?}", err),
    }
}

fn test_write(native: &mut Native, socket: &Socket, buf: &[u8]) {
    let call = socket.write(buf);
    let outcome = native.send(&call, buf);
    match Socket::finish_write(outcome, buf, String::from("Failed")) {
        Ok(sent) => assert_eq!(sent, buf.len()),
        Err(err) => panic!("Failed to write to the socket: {}", err),
    }
}

fn test_zc_write(native: &mut Native, socket: &Socket, buf: &[u8]) {
    let outcome = native.perform(&Socket::allocate_msg(buf.len()));
    let len = Socket::finish_allocate_msg(buf.len(), outcome.ret >= 0, outcome.errno).unwrap();
    let mut msg = vec![0u8; len];
    for i in 0..buf.len() {
        msg[i] = buf[i];
    }
    let call = socket.zc_write();
    assert_eq!(call, Call::Send { socket: socket.raw(), len: sys::NN_MSG, flags: 0 });
    let outcome = native.send(&call, &msg);
    match Socket::finish_nb_write(outcome, &msg) {
        Ok(sent) => assert_eq!(sent, buf.len()),
        Err(err) => panic!("Failed to write to the socket: {:?}", err),
    }
}

fn test_read(native: &mut Native, socket: &Socket, expected: &[u8]) {
    let mut buf = [0u8; 6];
    let call = socket.read(&buf);
    let outcome = native.recv(&call, &mut buf);
    match Socket::finish_read(outcome, buf.len(), String::from("Failed")) {
        Ok(len) => {
            assert_eq!(len, 6);
            assert_eq!(buf.as_ref(), expected)
        }
        Err(err) => panic!("{}", err),
    }
}

fn test_nb_read(native: &mut Native, socket: &Socket, buf: &mut [u8]) -> Result<usize, Error> {
    let call = socket.nb_read(buf);
    let outcome = native.recv(&call, buf);
    Socket::finish_nb_read(outcome, buf.len())
}

fn test_read_to_string(native: &mut Native, socket: &Socket, expected: &str) {
    let mut text = String::new();
    let call = socket.read_to_string();
    let (outcome, msg) = native.recv_msg(&call);
    match Socket::finish_read_to_string(outcome, &msg, &mut text, String::from("Failed")) {
        Ok(_) => assert_eq!(text, expected),
        Err(err) => panic!("{}", err),
    }
}

fn test_subscribe(native: &mut Native, socket: &Socket, topic: &str) {
    let call = socket.subscribe(topic).unwrap();
    match native.perform(&call).done() {
        Ok(_) => {}
        Err(err) => panic!("{:?}", err),
    }
}

fn test_poll(
    native: &mut Native,
    request: &mut PollRequest,
    timeout: isize,
) -> Result<usize, Error> {
    let call = Socket::poll(request, timeout);
    let (outcome, polled) = native.poll(&call);
    Socket::finish_poll(request, outcome, &polled)
}

#[test]
fn check_allocate() {
    let mut native = Native::new();
    let call = Socket::allocate_msg(10);
    assert_eq!(call, Call::AllocMsg { size: 10, ty: 0 });
    let outcome = native.perform(&call);
    let allocated_len =
        Socket::finish_allocate_msg(10, outcome.ret >= 0, outcome.errno).unwrap();

    native.perform(&Socket::free_msg()).done().unwrap();

    assert_eq!(10, allocated_len)
}

#[test]
fn initialize_socket() {
    let mut native = Native::new();
    let outcome = native.perform(&Socket::new(Pull));
    let socket = match Socket::finish_create(outcome) {
        Ok(socket) => socket,
        Err(err) => panic!("{:?}", err),
    };

    assert!(socket.raw() >= 0);

    test_close(&mut native, socket)
}

#[test]
fn bind_socket() {
    let mut native = Native::new();
    let socket = test_create_socket(&mut native, Pull);

    let call = socket.bind("ipc:///tmp/bind_socket.ipc").unwrap();
    match socket.finish_endpoint(native.perform(&call)) {
        Ok(_) => {}
        Err(err) => panic!("{:?}", err),
    }

    test_close(&mut native, socket);
}

#[test]
fn bind_and_shutdown() {
    let mut native = Native::new();
    let socket = test_create_socket(&mut native, Pull);

    let endpoint = test_bind(&mut native, &socket, "ipc:///tmp/bind_and_shutdown.ipc");

    assert_eq!(test_shutdown(&mut native, endpoint), Ok(()));

    test_close(&mut native, socket);
}

#[test]
fn connect_and_shutdown() {
    let mut native = Native::new();
    let socket = test_create_socket(&mut native, Push);

    let endpoint = test_connect(&mut native, &socket, "ipc:///tmp/bind_and_shutdown.ipc");

    assert_eq!(test_shutdown(&mut native, endpoint), Ok(()));

    test_close(&mut native, socket);
}

#[test]
fn pipeline() {
    let mut native = Native::new();
    let url = "ipc:///tmp/pipeline.ipc";

    let push_socket = test_create_socket(&mut native, Push);
    let push_endpoint = test_bind(&mut native, &push_socket, url);

    let pull_socket = test_create_socket(&mut native, Pull);
    test_connect(&mut native, &pull_socket, url);

    test_write(&mut native, &push_socket, b"foobar");
    test_read(&mut native, &pull_socket, b"foobar");

    test_shutdown(&mut native, push_endpoint).unwrap();

    test_close(&mut native, pull_socket);
    test_close(&mut native, push_socket);
}

#[test]
fn pull_bound_push_connected() {
    let mut native = Native::new();
    let pull_socket = test_create_socket(&mut native, Pull);
    test_bind(&mut native, &pull_socket, "ipc:///tmp/t1.ipc");
    let push_socket = test_create_socket(&mut native, Push);
    test_connect(&mut native, &push_socket, "ipc:///tmp/t1.ipc");

    test_write(&mut native, &push_socket, b"foobar");

    let mut buf = [0u8; 16];
    let call = pull_socket.read(&buf);
    assert_eq!(call, Call::Recv { socket: pull_socket.raw(), len: 16, flags: 0 });
    let outcome = native.recv(&call, &mut buf);
    let len = Socket::finish_read(outcome, buf.len(), String::new()).unwrap();
    assert_eq!(len, 6);
    assert_eq!(&buf[..len], b"foobar");
}

#[test]
fn read_when_buffer_is_smaller_than_msg_return_buffer_size() {
    let mut native = Native::new();
    let url = "ipc:///tmp/pipeline_truncate.ipc";

    let push_socket = test_create_socket(&mut native, Push);
    let push_endpoint = test_bind(&mut native, &push_socket, url);

    let pull_socket = test_create_socket(&mut native, Pull);
    test_connect(&mut native, &pull_socket, url);

    test_write(&mut native, &push_socket, b"foobarbar");
    test_read(&mut native, &pull_socket, b"foobar");

    test_shutdown(&mut native, push_endpoint).unwrap();

    test_close(&mut native, pull_socket);
    test_close(&mut native, push_socket);
}

#[test]
fn zero_copy_works() {
    let mut native = Native::new();
    let url = "ipc:///tmp/zero_copy_works.ipc";

    let push_socket = test_create_socket(&mut native, Push);
    let push_endpoint = test_bind(&mut native, &push_socket, url);

    let pull_socket = test_create_socket(&mut native, Pull);
    test_connect(&mut native, &pull_socket, url);

    test_zc_write(&mut native, &push_socket, b"foobar");
    test_read(&mut native, &pull_socket, b"foobar");
    assert_eq!(native.messages, 0);

    test_shutdown(&mut native, push_endpoint).unwrap();

    test_close(&mut native, pull_socket);
    test_close(&mut native, push_socket);
}

fn test_multithread_pipeline(url: &'static str) {
    let mut native = Native::new();
    let push_socket = test_create_socket(&mut native, Push);
    test_bind(&mut native, &push_socket, url);

    let pull_socket = test_create_socket(&mut native, Pull);
    test_connect(&mut native, &pull_socket, url);

    test_write(&mut native, &push_socket, b"foobar");
    test_read(&mut native, &pull_socket, b"foobar");
}

#[test]
fn pipeline_mt1() {
    test_multithread_pipeline("ipc:///tmp/pipeline_mt1.ipc")
}

#[test]
fn pipeline_mt2() {
    test_multithread_pipeline("ipc:///tmp/pipeline_mt2.ipc")
}

#[test]
fn pair() {
    let mut native = Native::new();
    let url = "ipc:///tmp/pair.ipc";

    let left_socket = test_create_socket(&mut native, Pair);
    test_bind(&mut native, &left_socket, url);

    let right_socket = test_create_socket(&mut native, Pair);
    test_connect(&mut native, &right_socket, url);

    test_write(&mut native, &right_socket, b"foobar");
    test_read(&mut native, &left_socket, b"foobar");

    test_write(&mut native, &left_socket, b"foobaz");
    test_read(&mut native, &right_socket, b"foobaz");

    test_close(&mut native, left_socket);
    test_close(&mut native, right_socket);
}

#[test]
fn pair_in_either_order() {
    let mut native = Native::new();
    let url = "inproc://pair_in_either_order";
    let left_socket = test_create_socket(&mut native, Pair);
    test_bind(&mut native, &left_socket, url);
    let right_socket = test_create_socket(&mut native, Pair);
    test_connect(&mut native, &right_socket, url);

    test_write(&mut native, &left_socket, b"foobaz");
    test_write(&mut native, &right_socket, b"foobar");
    test_read(&mut native, &right_socket, b"foobaz");
    test_read(&mut native, &left_socket, b"foobar");
}

#[test]
fn connect_push_to_multi_ep() {
    let mut native = Native::new();
    let url1 = "ipc:///tmp/connect_push_to_multi_ep_1.ipc";
    let url2 = "ipc:///tmp/connect_push_to_multi_ep_2.ipc";

    let server1 = test_create_socket(&mut native, Pull);
    test_bind(&mut native, &server1, url1);

    let server2 = test_create_socket(&mut native, Pull);
    test_bind(&mut native, &server2, url2);

    let client = test_create_socket(&mut native, Push);
    test_connect(&mut native, &client, url1);
    test_connect(&mut native, &client, url2);

    test_write(&mut native, &client, b"foobar");

    let mut read_count = 0;
    let mut block_count = 0;
    let mut buf = [0u8; 6];
    match test_nb_read(&mut native, &server1, &mut buf) {
        Ok(count) => {
            assert_eq!(count, 6);
            read_count = read_count + 1;
        }
        Err(err) => {
            assert_eq!(err, Error::TryAgain);
            block_count = block_count + 1;
        }
    }
    match test_nb_read(&mut native, &server2, &mut buf) {
        Ok(count) => {
            assert_eq!(count, 6);
            read_count = read_count + 1;
        }
        Err(err) => {
            assert_eq!(err, Error::TryAgain);
            block_count = block_count + 1;
        }
    }
    assert_eq!(read_count, 1);
    assert_eq!(block_count, 1);
}

#[test]
fn bind_pull_to_multi_ep() {
    let mut native = Native::new();
    let url1 = "ipc:///tmp/bind_pull_to_multi_ep_1.ipc";
    let url2 = "ipc:///tmp/bind_pull_to_multi_ep_2.ipc";

    let server = test_create_socket(&mut native, Pull);
    test_bind(&mut native, &server, url1);
    test_bind(&mut native, &server, url2);

    let client1 = test_create_socket(&mut native, Push);
    test_connect(&mut native, &client1, url1);

    let client2 = test_create_socket(&mut native, Push);
    test_connect(&mut native, &client2, url2);

    test_write(&mut native, &client1, b"foobar");
    test_write(&mut native, &client2, b"foobaz");

    test_read(&mut native, &server, b"foobar");
    test_read(&mut native, &server, b"foobaz");
}

#[test]
fn bus() {
    let mut native = Native::new();
    let url = "ipc:///tmp/bus.ipc";

    let sock1 = test_create_socket(&mut native, Bus);
    test_bind(&mut native, &sock1, url);

    let sock2 = test_create_socket(&mut native, Bus);
    test_connect(&mut native, &sock2, url);

    let sock3 = test_create_socket(&mut native, Bus);
    test_connect(&mut native, &sock3, url);

    let msg = b"foobar";
    test_write(&mut native, &sock1, msg);
    test_read(&mut native, &sock2, msg);
    test_read(&mut native, &sock3, msg);

    test_close(&mut native, sock3);
    test_close(&mut native, sock2);
    test_close(&mut native, sock1);
}

#[test]
fn pubsub() {
    let mut native = Native::new();
    let url = "ipc:///tmp/pubsub.ipc";

    let sock1 = test_create_socket(&mut native, Pub);
    test_bind(&mut native, &sock1, url);

    let sock2 = test_create_socket(&mut native, Sub);
    test_subscribe(&mut native, &sock2, "foo");
    test_connect(&mut native, &sock2, url);

    let sock3 = test_create_socket(&mut native, Sub);
    test_subscribe(&mut native, &sock3, "bar");
    test_connect(&mut native, &sock3, url);

    let msg1 = b"foobar";
    test_write(&mut native, &sock1, msg1);
    test_read(&mut native, &sock2, msg1);

    let msg2 = b"barfoo";
    test_write(&mut native, &sock1, msg2);
    test_read(&mut native, &sock3, msg2);

    test_close(&mut native, sock3);
    test_close(&mut native, sock2);
    test_close(&mut native, sock1);
}

#[test]
fn pubsub_passes_by_who_did_not_subscribe() {
    let mut native = Native::new();
    let url = "inproc://pubsub_filter";
    let publisher = test_create_socket(&mut native, Pub);
    test_bind(&mut native, &publisher, url);
    let foo = test_create_socket(&mut native, Sub);
    test_subscribe(&mut native, &foo, "foo");
    test_connect(&mut native, &foo, url);
    let bar = test_create_socket(&mut native, Sub);
    test_subscribe(&mut native, &bar, "bar");
    test_connect(&mut native, &bar, url);

    test_write(&mut native, &publisher, b"foobar");

    let mut buf = [0u8; 6];
    assert_eq!(test_nb_read(&mut native, &bar, &mut buf), Err(Error::TryAgain));
    assert_eq!(test_nb_read(&mut native, &foo, &mut buf), Ok(6));
    assert_eq!(&buf, b"foobar");

    let call = foo.unsubscribe("foo").unwrap();
    native.perform(&call).done().unwrap();
    test_write(&mut native, &publisher, b"foobaz");
    assert_eq!(test_nb_read(&mut native, &foo, &mut buf), Err(Error::TryAgain));
}

#[test]
fn survey() {
    let mut native = Native::new();
    let url = "ipc:///tmp/survey.ipc";

    let sock1 = test_create_socket(&mut native, Surveyor);
    test_bind(&mut native, &sock1, url);

    let sock2 = test_create_socket(&mut native, Respondent);
    test_connect(&mut native, &sock2, url);

    let sock3 = test_create_socket(&mut native, Respondent);
    test_connect(&mut native, &sock3, url);

    for socket in [&sock1, &sock2, &sock3] {
        native.perform(&socket.set_send_timeout(250)).done().unwrap();
        native.perform(&socket.set_receive_timeout(250)).done().unwrap();
    }

    match native.perform(&sock1.set_survey_deadline(500)).done() {
        Ok(socket) => socket,
        Err(err) => panic!("{:?}", err),
    };
    assert_eq!(native.option(&sock1, sys::NN_SURVEYOR, sys::NN_SURVEYOR_DEADLINE), Some(500));

    let question = b"yesno?";
    test_write(&mut native, &sock1, question);
    test_read(&mut native, &sock2, question);
    test_read(&mut native, &sock3, question);

    let vote = b"may be";
    test_write(&mut native, &sock2, vote);
    test_write(&mut native, &sock3, vote);
    test_read(&mut native, &sock1, vote);
    test_read(&mut native, &sock1, vote);

    test_close(&mut native, sock3);
    test_close(&mut native, sock2);
    test_close(&mut native, sock1);
}

#[test]
fn request_and_reply() {
    let mut native = Native::new();
    let url = "tcp://127.0.0.1:5555";
    let server = test_create_socket(&mut native, Rep);
    test_bind(&mut native, &server, url);
    let client = test_create_socket(&mut native, Req);
    test_connect(&mut native, &client, url);

    test_write(&mut native, &client, b"hello?");
    test_read(&mut native, &server, b"hello?");
    test_write(&mut native, &server, b"hello!");
    test_read(&mut native, &client, b"hello!");
}

#[test]
fn should_change_linger() {
    let mut native = Native::new();
    let socket = test_create_socket(&mut native, Pair);

    match native.perform(&socket.set_linger(1024)).done() {
        Ok(..) => {}
        Err(err) => panic!("Failed to change linger on the socket: {:?}", err),
    }
    assert_eq!(native.option(&socket, sys::NN_SOL_SOCKET, sys::NN_LINGER), Some(1024));

    test_close(&mut native, socket)
}

#[test]
fn should_change_send_buffer_size() {
    let mut native = Native::new();
    let socket = test_create_socket(&mut native, Pair);

    let size = 64 * 1024;
    match native.perform(&socket.set_send_buffer_size(size)).done() {
        Ok(..) => {}
        Err(err) => panic!("Failed to change send buffer size on the socket: {:?}", err),
    }
    assert_eq!(native.option(&socket, sys::NN_SOL_SOCKET, sys::NN_SNDBUF), Some(65536));

    test_close(&mut native, socket)
}

#[test]
fn should_change_receive_buffer_size() {
    let mut native = Native::new();
    let socket = test_create_socket(&mut native, Pair);

    let size = 64 * 1024;
    match native.perform(&socket.set_receive_buffer_size(size)).done() {
        Ok(..) => {}
        Err(err) => panic!("Failed to change receive buffer size on the socket: {:?}", err),
    }
    assert_eq!(native.option(&socket, sys::NN_SOL_SOCKET, sys::NN_RCVBUF), Some(65536));

    test_close(&mut native, socket)
}

#[test]
fn should_change_send_timeout() {
    let mut native = Native::new();
    let socket = test_create_socket(&mut native, Pair);

    match native.perform(&socket.set_send_timeout(-2)).done() {
        Ok(..) => {}
        Err(err) => panic!("Failed to change send timeout on the socket: {:?}", err),
    }
    assert_eq!(native.option(&socket, sys::NN_SOL_SOCKET, sys::NN_SNDTIMEO), Some(-2));

    test_close(&mut native, socket)
}

#[test]
fn should_change_receive_timeout() {
    let mut native = Native::new();
    let socket = test_create_socket(&mut native, Pair);

    match native.perform(&socket.set_receive_timeout(200)).done() {
        Ok(..) => {}
        Err(err) => panic!("Failed to change receive timeout on the socket: {:?}", err),
    }
    assert_eq!(native.option(&socket, sys::NN_SOL_SOCKET, sys::NN_RCVTIMEO), Some(200));

    test_close(&mut native, socket)
}

#[test]
fn should_change_reconnect_interval() {
    let mut native = Native::new();
    let socket = test_create_socket(&mut native, Pair);

    match native.perform(&socket.set_reconnect_interval(142)).done() {
        Ok(..) => {}
        Err(err) => panic!("Failed to change reconnect interval on the socket: {:?}", err),
    }
    assert_eq!(native.option(&socket, sys::NN_SOL_SOCKET, sys::NN_RECONNECT_IVL), Some(142));

    test_close(&mut native, socket)
}

#[test]
fn should_change_max_reconnect_interval() {
    let mut native = Native::new();
    let socket = test_create_socket(&mut native, Pair);

    match native.perform(&socket.set_max_reconnect_interval(666)).done() {
        Ok(..) => {}
        Err(err) => panic!("Failed to change reconnect interval on the socket: {:?}", err),
    }
    assert_eq!(native.option(&socket, sys::NN_SOL_SOCKET, sys::NN_RECONNECT_IVL_MAX), Some(666));

    test_close(&mut native, socket)
}

#[test]
fn should_change_send_priority() {
    let mut native = Native::new();
    let socket = test_create_socket(&mut native, Pair);

    match native.perform(&socket.set_send_priority(15u8)).done() {
        Ok(..) => {}
        Err(err) => panic!("Failed to change send priority on the socket: {:?}", err),
    }
    assert_eq!(native.option(&socket, sys::NN_SOL_SOCKET, sys::NN_SNDPRIO), Some(15));

    test_close(&mut native, socket)
}

#[test]
fn should_change_receive_priority() {
    let mut native = Native::new();
    let socket = test_create_socket(&mut native, Pair);

    match native.perform(&socket.set_receive_priority(2u8)).done() {
        Ok(..) => {}
        Err(err) => panic!("Failed to change receive priority on the socket: {:?}", err),
    }
    assert_eq!(native.option(&socket, sys::NN_SOL_SOCKET, sys::NN_RCVPRIO), Some(2));

    test_close(&mut native, socket)
}

#[test]
fn should_change_ipv4_only() {
    let mut native = Native::new();
    let socket = test_create_socket(&mut native, Pair);

    match native.perform(&socket.set_ipv4_only(true)).done() {
        Ok(..) => {}
        Err(err) => panic!("Failed to change ipv4 only on the socket: {:?}", err),
    }
    assert_eq!(native.option(&socket, sys::NN_SOL_SOCKET, sys::NN_IPV4ONLY), Some(1));

    test_close(&mut native, socket)
}

#[test]
fn should_change_socket_name() {
    let mut native = Native::new();
    let socket = test_create_socket(&mut native, Pair);

    match native.perform(&socket.set_socket_name("bob").unwrap()).done() {
        Ok(..) => {}
        Err(err) => panic!("Failed to change the socket name: {:?}", err),
    }
    assert_eq!(native.peers[socket.raw() as usize].name, b"bob");

    test_close(&mut native, socket)
}

#[test]
fn should_change_request_resend_interval() {
    let mut native = Native::new();
    let socket = test_create_socket(&mut native, Req);

    match native.perform(&socket.set_request_resend_interval(60042)).done() {
        Ok(..) => {}
        Err(err) => panic!("Failed to change request resend interval on the socket: {:?}", err),
    }
    assert_eq!(native.option(&socket, sys::NN_REQ, sys::NN_REQ_RESEND_IVL), Some(60042));

    test_close(&mut native, socket)
}

#[test]
fn should_change_tcp_nodelay() {
    let mut native = Native::new();
    let socket = test_create_socket(&mut native, Pair);

    match native.perform(&socket.set_tcp_nodelay(true)).done() {
        Ok(..) => {}
        Err(err) => panic!("Failed to change tcp nodelay only on the socket: {:?}", err),
    }
    assert_eq!(native.option(&socket, sys::NN_TCP, sys::NN_TCP_NODELAY), Some(1));

    test_close(&mut native, socket)
}

#[test]
fn should_get_receive_fd() {
    let mut native = Native::new();
    let socket = test_create_socket(&mut native, Pair);

    let (outcome, value) = native.get_int(&socket.get_receive_fd());
    match Socket::finish_get_socket_option_c_int(outcome, value) {
        Ok(fd) => assert_eq!(fd, 100),
        Err(err) => panic!("Failed to get receive file descriptor: {:?}", err),
    }
}

#[test]
fn should_get_send_fd() {
    let mut native = Native::new();
    let socket = test_create_socket(&mut native, Pair);

    let (outcome, value) = native.get_int(&socket.get_send_fd());
    match Socket::finish_get_socket_option_c_int(outcome, value) {
        Ok(fd) => assert_eq!(fd, 101),
        Err(err) => panic!("Failed to get send file descriptor: {:?}", err),
    }
}

#[test]
fn should_get_socket_name() {
    let mut native = Native::new();
    let socket = test_create_socket(&mut native, Pair);

    match native.perform(&socket.set_socket_name("bob").unwrap()).done() {
        Ok(..) => {}
        Err(err) => panic!("Failed to change the socket name: {:?}", err),
    }

    let (outcome, value) = native.get_bytes(&socket.get_socket_name(1024));
    assert_eq!(value.len(), 1024);
    match Socket::finish_get_socket_name(outcome, &value) {
        Ok(name) => assert_eq!(name, "bob"),
        Err(err) => panic!("Failed to get socket name: {:?}", err),
    }
}

#[test]
fn test_read_to_end() {
    let mut native = Native::new();
    let url = "ipc:///tmp/read_to_end.ipc";

    let left_socket = test_create_socket(&mut native, Pair);
    test_bind(&mut native, &left_socket, url);

    let right_socket = test_create_socket(&mut native, Pair);
    test_connect(&mut native, &right_socket, url);

    test_write(&mut native, &right_socket, b"ok");
    test_read_to_string(&mut native, &left_socket, "ok".as_ref());

    test_write(&mut native, &left_socket, b"not ok");
    test_read_to_string(&mut native, &right_socket, "not ok".as_ref());

    test_close(&mut native, left_socket);
    test_close(&mut native, right_socket);
}

#[test]
fn read_to_end_appends_the_message() {
    let mut native = Native::new();
    let url = "inproc://read_to_end_appends";
    let left_socket = test_create_socket(&mut native, Pair);
    test_bind(&mut native, &left_socket, url);
    let right_socket = test_create_socket(&mut native, Pair);
    test_connect(&mut native, &right_socket, url);

    test_write(&mut native, &right_socket, b"foo");
    test_write(&mut native, &right_socket, b"barbaz");

    let mut buffer = b">".to_vec();
    let (outcome, msg) = native.recv_msg(&left_socket.read_to_end());
    let read = Socket::finish_read_to_end(outcome, &msg, &mut buffer, String::new());
    assert_eq!(read.unwrap(), 3);
    let (outcome, msg) = native.recv_msg(&left_socket.read_to_end());
    let read = Socket::finish_read_to_end(outcome, &msg, &mut buffer, String::new());
    assert_eq!(read.unwrap(), 6);
    assert_eq!(buffer, b">foobarbaz");
}

#[test]
fn nb_read_works_in_both_cases() {
    let mut native = Native::new();
    let url = "ipc:///tmp/nb_read_works_in_both_cases.ipc";

    let push_socket = test_create_socket(&mut native, Push);
    test_bind(&mut native, &push_socket, url);

    let pull_socket = test_create_socket(&mut native, Pull);
    test_connect(&mut native, &pull_socket, url);

    let mut buf = [0u8; 6];
    match test_nb_read(&mut native, &pull_socket, &mut buf) {
        Ok(_) => panic!("Nothing should have been received !"),
        Err(err) => assert_eq!(err, Error::TryAgain),
    }

    test_write(&mut native, &push_socket, b"foobar");

    let mut buf = [0u8; 6];
    match test_nb_read(&mut native, &pull_socket, &mut buf) {
        Ok(len) => {
            assert_eq!(len, 6);
            assert_eq!(buf.as_ref(), b"foobar")
        }
        Err(err) => panic!("{:?}", err),
    }

    test_close(&mut native, pull_socket);
    test_close(&mut native, push_socket);
}

#[test]
fn nb_read_to_end_works_in_both_cases() {
    let mut native = Native::new();
    let url = "ipc:///tmp/nb_read_to_end_works_in_both_cases.ipc";

    let push_socket = test_create_socket(&mut native, Push);
    test_bind(&mut native, &push_socket, url);

    let pull_socket = test_create_socket(&mut native, Pull);
    test_connect(&mut native, &pull_socket, url);

    let mut buffer = Vec::new();
    let (outcome, msg) = native.recv_msg(&pull_socket.nb_read_to_end());
    match Socket::finish_nb_read_to_end(outcome, &msg, &mut buffer) {
        Ok(_) => panic!("Nothing should have been received !"),
        Err(err) => assert_eq!(err, Error::TryAgain),
    }
    assert!(buffer.is_empty());

    test_write(&mut native, &push_socket, b"foobar");

    let mut buffer = Vec::new();
    let (outcome, msg) = native.recv_msg(&pull_socket.nb_read_to_end());
    match Socket::finish_nb_read_to_end(outcome, &msg, &mut buffer) {
        Ok(_) => {
            assert_eq!(buffer.len(), 6);
            assert_eq!(AsRef::<[u8]>::as_ref(&buffer), b"foobar")
        }
        Err(err) => panic!("{:?}", err),
    }

    test_close(&mut native, pull_socket);
    test_close(&mut native, push_socket);
}

#[test]
fn nb_write_works_in_both_cases() {
    let mut native = Native::new();
    let url = "ipc:///tmp/nb_write_works_in_both_cases.ipc";

    let push_socket = test_create_socket(&mut native, Push);
    test_bind(&mut native, &push_socket, url);

    let call = push_socket.nb_write(b"barfoo");
    assert_eq!(call, Call::Send { socket: push_socket.raw(), len: 6, flags: sys::NN_DONTWAIT });
    let outcome = native.send(&call, b"barfoo");
    match Socket::finish_nb_write(outcome, b"barfoo") {
        Ok(_) => panic!("Nothing should have been sent !"),
        Err(err) => assert_eq!(err, Error::TryAgain),
    }

    let pull_socket = test_create_socket(&mut native, Pull);
    test_connect(&mut native, &pull_socket, url);
    let outcome = native.send(&push_socket.nb_write(b"barfoo"), b"barfoo");
    assert_eq!(Socket::finish_nb_write(outcome, b"barfoo"), Ok(6));

    test_close(&mut native, push_socket);
}

#[test]
fn poll_works() {
    let mut native = Native::new();
    let url = "ipc:///tmp/poll_works_.ipc";

    let left_socket = test_create_socket(&mut native, Pair);
    test_bind(&mut native, &left_socket, url);

    let right_socket = test_create_socket(&mut native, Pair);
    test_connect(&mut native, &right_socket, url);

    let pollfd1 = left_socket.new_pollfd(PollInOut::InOut);
    let pollfd2 = right_socket.new_pollfd(PollInOut::InOut);

    let pollreq_vector: Vec<PollFd> = vec![pollfd1, pollfd2];
    let mut request = PollRequest::new(pollreq_vector);
    let timeout = 10;
    {
        let poll_result = test_poll(&mut native, &mut request, timeout);

        match poll_result {
            Ok(count) => assert_eq!(2, count),
            Err(err) => panic!("Failed to poll: {:?}", err),
        }

        let fds = request.get_fds();
        assert_eq!(true, fds[0].can_write());
        assert_eq!(false, fds[0].can_read());
        assert_eq!(true, fds[1].can_write());
        assert_eq!(false, fds[1].can_read());
    }

    test_write(&mut native, &right_socket, b"foobar");
    {
        let poll_result = test_poll(&mut native, &mut request, timeout);

        match poll_result {
            Ok(count) => assert_eq!(2, count),
            Err(err) => panic!("Failed to poll: {:?}", err),
        }

        let fds = request.get_fds();
        assert_eq!(true, fds[0].can_write());
        assert_eq!(true, fds[0].can_read());
        assert_eq!(true, fds[1].can_write());
        assert_eq!(false, fds[1].can_read());
    }
}

#[test]
fn poll_that_finds_nothing_times_out() {
    let mut native = Native::new();
    let socket = test_create_socket(&mut native, Pair);
    let mut request = PollRequest::new(vec![socket.new_pollfd(PollInOut::InOut)]);

    let call = Socket::poll(&request, 0);
    assert_eq!(
        call,
        Call::Poll {
            fds: vec![nn_pollfd { fd: socket.raw(), events: 3, revents: 0 }],
            nfds: 1,
            timeout: 0
        }
    );
    assert_eq!(test_poll(&mut native, &mut request, 0), Err(Error::TimedOut));
    assert!(!request.get_fds()[0].can_read());
    assert!(!request.get_fds()[0].can_write());
}

#[test]
fn poll_should_work() {
    let mut native = Native::new();
    let s1 = native.perform(&Call::Socket { domain: sys::AF_SP, protocol: sys::NN_PAIR }).ret;
    let s2 = native.perform(&Call::Socket { domain: sys::AF_SP, protocol: sys::NN_PAIR }).ret;
    let pollfd1 = nn_pollfd { fd: s1, events: 3i16, revents: 0i16 };
    let pollfd2 = nn_pollfd { fd: s2, events: 3i16, revents: 0i16 };
    let fd_vector: Vec<nn_pollfd> = vec![pollfd1, pollfd2];
    let poll = |native: &mut Native, timeout: i32| {
        native.poll(&Call::Poll { fds: fd_vector.clone(), nfds: 2, timeout })
    };

    let (poll_result, fd_slice) = poll(&mut native, 0);
    assert_eq!(0, poll_result.ret);
    assert_eq!(0, fd_slice[0].revents);
    assert_eq!(0, fd_slice[1].revents);
    assert!(!fd_slice[0].pollin_result() && !fd_slice[0].pollout_result());

    let url = b"ipc:///tmp/poll_should_work.ipc\0".to_vec();
    assert!(native.perform(&Call::Bind { socket: s1, addr: url.clone() }).ret >= 0);
    assert!(native.perform(&Call::Connect { socket: s2, addr: url }).ret >= 0);

    let (poll_result2, fd_slice) = poll(&mut native, 10);
    assert_eq!(2, poll_result2.ret);
    assert_eq!(sys::NN_POLLOUT, fd_slice[0].revents);
    assert_eq!(sys::NN_POLLOUT, fd_slice[1].revents);
    assert!(!fd_slice[0].pollin_result() && fd_slice[0].pollout_result());

    let msg = "foobar";
    let sent = native.send(&Call::Send { socket: s2, len: 6, flags: 0 }, msg.as_bytes());
    assert_eq!(sent.ret, 6);

    let (poll_result3, fd_slice) = poll(&mut native, 10);
    assert_eq!(2, poll_result3.ret);
    assert_eq!(sys::NN_POLLOUT + sys::NN_POLLIN, fd_slice[0].revents);
    assert_eq!(sys::NN_POLLOUT, fd_slice[1].revents);
    assert!(fd_slice[0].pollin_result() && fd_slice[0].pollout_result());
    assert!(!fd_slice[1].pollin_result() && fd_slice[1].pollout_result());
}

#[test]
fn close_with_a_message_on_its_way() {
    let mut native = Native::new();
    let url = "tcp://127.0.0.1:6000";
    let receiver = test_create_socket(&mut native, Pull);
    test_bind(&mut native, &receiver, url);
    let sender = test_create_socket(&mut native, Push);
    test_connect(&mut native, &sender, url);

    native.perform(&sender.set_linger(250)).done().unwrap();
    assert_eq!(native.option(&sender, sys::NN_SOL_SOCKET, sys::NN_LINGER), Some(250));
    test_write(&mut native, &sender, b"foobar");

    let fd = sender.raw();
    let call = sender.close();
    assert_eq!(call, Call::Close { socket: fd });
    assert_eq!(native.perform(&call).done(), Ok(()));
    test_read(&mut native, &receiver, b"foobar");
}

#[test]
fn terminate_fails_every_socket() {
    let mut native = Native::new();
    let url = "inproc://terminate";
    let left_socket = test_create_socket(&mut native, Pair);
    test_bind(&mut native, &left_socket, url);
    let right_socket = test_create_socket(&mut native, Pair);
    test_connect(&mut native, &right_socket, url);

    assert_eq!(Socket::terminate(), Call::Term);
    native.perform(&Socket::terminate());

    let mut buf = [0u8; 6];
    assert_eq!(test_nb_read(&mut native, &left_socket, &mut buf), Err(Error::Terminating));
    assert_eq!(test_nb_read(&mut native, &right_socket, &mut buf), Err(Error::Terminating));
    let outcome = native.send(&left_socket.write(b"foobar"), b"foobar");
    assert_eq!(Socket::finish_nb_write(outcome, b"foobar"), Err(Error::Terminating));
    let device = Socket::device(&left_socket, &right_socket);
    assert_eq!(device, Call::Device { socket1: left_socket.raw(), socket2: right_socket.raw() });
    assert_eq!(native.perform(&device).done(), Err(Error::Terminating));
    test_close(&mut native, left_socket);
    test_close(&mut native, right_socket);
}

fn nano_socket(native: &mut Native) -> NanoSocket {
    let call = NanoSocket::new(sys::AF_SP, sys::NN_PAIR);
    match NanoSocket::finish_new(native.perform(&call), String::new()) {
        Ok(sock) => sock,
        Err(e) => panic!("Failed with err:{:?} {:?}", e.rc, e.errstr),
    }
}

fn nano_sendstr(native: &mut Native, sock: &NanoSocket, b: &str) {
    let call = sock.sendstr(b).unwrap();
    let outcome = native.send(&call, b.as_bytes());
    match NanoSocket::finish(outcome, String::new()) {
        Ok(_) => {}
        Err(e) => panic!("send failed with err:{:?} {:?}", e.rc, e.errstr),
    }
}

fn nano_release(native: &mut Native, release: HowToCleanup) {
    if release == HowToCleanup::CallNnFreemsg {
        assert!(native.messages > 0);
        native.messages -= 1;
    }
}

fn nano_recv_any_size(native: &mut Native, msg: &mut NanoMsg, sock: &NanoSocket) -> u64 {
    let (release, call) = msg.recv_any_size(sock.sock, 0);
    nano_release(native, release);
    let (outcome, data) = native.recv_msg(&call);
    if outcome.ret >= 0 {
        native.messages += 1;
    }
    match msg.finish_recv_any_size(outcome, String::new(), data) {
        Err(e) => panic!("recv_any_size -> nn_recv failed with errno: {:?} '{:?}'", e.rc, e.errstr),
        Ok(sz) => sz,
    }
}

#[test]
fn smoke_test_readerwriter() {
    let mut native = Native::new();
    let addr = "tcp://127.0.0.1:1234";

    let server = nano_socket(&mut native);
    native.perform(&server.bind(addr).unwrap());

    let client = nano_socket(&mut native);
    native.perform(&client.connect(addr).unwrap());
    let call = client.write(&[1, 2, 3, 4]).unwrap();
    native.send(&call, &[1, 2, 3, 4]);

    let mut buf = [0, 0, 0, 0, 0];
    let (outcome, msg) = native.recv_msg(&server.read());
    assert_eq!(NanoSocket::finish_read(outcome, &msg, &mut buf), Some(4));
    assert!(buf[2] == 3);
    assert_eq!(buf, [1, 2, 3, 4, 0]);
}

#[test]
fn smoke_test_msg_client_msg_server() {
    let mut native = Native::new();
    let socket_address = "tcp://127.0.0.1:5432";

    let server = nano_socket(&mut native);
    let ret = NanoSocket::finish(native.perform(&server.bind(socket_address).unwrap()), String::new());
    match ret {
        Ok(_) => {}
        Err(e) => panic!("Bind failed with err:{:?} {:?}", e.rc, e.errstr),
    }

    let mut msg = NanoMsg::new();
    {
        let sock = nano_socket(&mut native);
        native.perform(&sock.connect(socket_address).unwrap());

        let b = "WHY";
        nano_sendstr(&mut native, &sock, b);

        let mut request = NanoMsg::new();
        let sz = nano_recv_any_size(&mut native, &mut request, &server);
        assert_eq!(sz, 3);
        let m = request.copy_to_string();
        assert!(m.as_str() == "WHY");
        nano_release(&mut native, request.cleanup());

        nano_sendstr(&mut native, &server, "LUV");
        nano_sendstr(&mut native, &server, "CAT");

        let sz = nano_recv_any_size(&mut native, &mut msg, &sock);
        assert_eq!(sz, 3);
        let m = msg.copy_to_string();
        assert!(m.as_str() == "LUV");
        assert_eq!(msg.actual_msg_bytes_avail(), 3);

        let (release, call, mut buffer) = msg.recv_no_more_than_maxlen(sock.sock, 2, 0);
        assert_eq!(release, HowToCleanup::CallNnFreemsg);
        nano_release(&mut native, release);
        let outcome = native.recv(&call, &mut buffer);
        let recd = msg.finish_recv_no_more_than_maxlen(outcome, String::new(), buffer);
        match recd {
            Err(e) => panic!(
                "recv_no_more_than_maxlen -> nn_recv failed with errno: {:?} '{:?}'",
                e.rc, e.errstr
            ),
            Ok(sz) => {
                assert_eq!(sz, 2);
                let m = msg.copy_to_string();
                assert!(m.as_str() == "CA");
                assert_eq!(msg.actual_msg_bytes_avail(), 3);
            }
        }
        native.perform(&sock.close());
    }

    assert_eq!(msg.printbuf(), "NanoMsg contains message of length 2: 'CA'");
    nano_release(&mut native, msg.cleanup());
    assert_eq!(native.messages, 0);
}
