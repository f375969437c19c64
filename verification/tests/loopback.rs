use std::collections::VecDeque;

use zmq::{
    bind, close, connect, getsockopt_i64, getsockopt_vec, init, recv, recv_str, resume, send,
    send_str, setsockopt_i64, setsockopt_vec, socket, term,
};
use zmq::{
    Call, Context, Error, OptionShape, OptionValue, Outcome, Reply, SendOptions, Socket,
    SocketKind, SocketOption, Step,
};

const EINVAL: i32 = 22;
const EAGAIN: i32 = 11;
const EADDRINUSE: i32 = 156384717;
const ENOTSOCK: i32 = 156384721;
const EFSM: i32 = 156384763;

struct Peer {
    addr: usize,
    linger: i64,
    identity: Vec<u8>,
    more: bool,
    endpoint: Option<String>,
}

/// An engine within the test: sockets joined by one queue for each endpoint.
struct Loopback {
    last_addr: usize,
    contexts: Vec<usize>,
    peers: Vec<Peer>,
    bound: Vec<String>,
    queues: Vec<(String, VecDeque<(Vec<u8>, bool)>)>,
    buffer: Option<Vec<u8>>,
    errno: i32,
    initialised: usize,
    released: usize,
    calls: Vec<Call>,
}

impl Loopback {
    fn new() -> Loopback {
        Loopback {
            last_addr: 0x1000,
            contexts: Vec::new(),
            peers: Vec::new(),
            bound: Vec::new(),
            queues: Vec::new(),
            buffer: None,
            errno: 0,
            initialised: 0,
            released: 0,
            calls: Vec::new(),
        }
    }

    fn fail(&mut self, errno: i32) -> Reply {
        self.errno = errno;
        Reply::Code(-1)
    }

    fn peer(&mut self, addr: usize) -> Option<&mut Peer> {
        self.peers.iter_mut().find(|peer| peer.addr == addr)
    }

    fn queue(&mut self, endpoint: &str) -> &mut VecDeque<(Vec<u8>, bool)> {
        if !self.queues.iter().any(|(name, _)| name == endpoint) {
            self.queues.push((endpoint.to_string(), VecDeque::new()));
        }
        let at = self.queues.iter().position(|(name, _)| name == endpoint).unwrap();
        &mut self.queues[at].1
    }

    fn perform(&mut self, call: Call) -> Reply {
        self.calls.push(call.clone());
        match call {
            Call::Version => Reply::Version { major: 2, minor: 1, patch: 11 },
            Call::Init { io_threads } => {
                if io_threads < 0 {
                    self.errno = EINVAL;
                    return Reply::Handle(0);
                }
                self.last_addr += 0x10;
                self.contexts.push(self.last_addr);
                Reply::Handle(self.last_addr)
            }
            Call::Term { context } => {
                self.contexts.retain(|addr| *addr != context);
                Reply::Code(0)
            }
            Call::Socket { context, kind } => {
                if !self.contexts.contains(&context) || !(0..=10).contains(&kind) {
                    self.errno = EINVAL;
                    return Reply::Handle(0);
                }
                self.last_addr += 0x10;
                self.peers.push(Peer {
                    addr: self.last_addr,
                    linger: -1,
                    identity: Vec::new(),
                    more: false,
                    endpoint: None,
                });
                Reply::Handle(self.last_addr)
            }
            Call::Close { socket } => {
                if self.peer(socket).is_none() {
                    return self.fail(ENOTSOCK);
                }
                self.peers.retain(|peer| peer.addr != socket);
                Reply::Code(0)
            }
            Call::Bind { socket, endpoint } => {
                if !endpoint.contains("://") {
                    return self.fail(EINVAL);
                }
                if self.bound.contains(&endpoint) {
                    return self.fail(EADDRINUSE);
                }
                self.bound.push(endpoint.clone());
                self.peer(socket).unwrap().endpoint = Some(endpoint);
                Reply::Code(0)
            }
            Call::Connect { socket, endpoint } => {
                if !endpoint.contains("://") {
                    return self.fail(EINVAL);
                }
                self.peer(socket).unwrap().endpoint = Some(endpoint);
                Reply::Code(0)
            }
            Call::SetOption { socket, option, value, size } => match (option, value) {
                (17, OptionValue::Int64(linger)) if size == 8 => {
                    self.peer(socket).unwrap().linger = linger;
                    Reply::Code(0)
                }
                (5, OptionValue::Bytes(identity)) if size == identity.len() && size <= 255 => {
                    self.peer(socket).unwrap().identity = identity;
                    Reply::Code(0)
                }
                _ => self.fail(EINVAL),
            },
            Call::GetOption { socket, option, shape, size } => {
                let peer = self.peer(socket).unwrap();
                match (option, shape) {
                    (17, OptionShape::Int64) if size == 8 => {
                        Reply::Slot { rc: 0, value: OptionValue::Int64(peer.linger), size: 8 }
                    }
                    (13, OptionShape::Int64) if size == 8 => {
                        Reply::Slot { rc: 0, value: OptionValue::Int64(peer.more as i64), size: 8 }
                    }
                    (5, OptionShape::Bytes) if size >= peer.identity.len() => {
                        let written = peer.identity.len();
                        let mut slot = vec![0xaa; size];
                        slot[..written].copy_from_slice(&peer.identity);
                        Reply::Slot { rc: 0, value: OptionValue::Bytes(slot), size: written }
                    }
                    (_, shape) => {
                        self.errno = EINVAL;
                        let value = match shape {
                            OptionShape::Int64 => OptionValue::Int64(0),
                            OptionShape::UInt64 => OptionValue::UInt64(0),
                            OptionShape::Bytes => OptionValue::Bytes(vec![0; size]),
                        };
                        Reply::Slot { rc: -1, value, size }
                    }
                }
            }
            Call::MsgInit => {
                assert!(self.buffer.is_none(), "a buffer is initialised twice");
                self.buffer = Some(Vec::new());
                self.initialised += 1;
                Reply::Code(0)
            }
            Call::MsgInitSize { size } => {
                assert!(self.buffer.is_none(), "a buffer is initialised twice");
                self.buffer = Some(vec![0; size]);
                self.initialised += 1;
                Reply::Code(0)
            }
            Call::MsgFill { bytes } => {
                let buffer = self.buffer.as_mut().expect("no buffer to copy into");
                assert_eq!(buffer.len(), bytes.len(), "the buffer is not of the payload's size");
                buffer.copy_from_slice(&bytes);
                Reply::Nothing
            }
            Call::MsgSend { socket, flags } => {
                let message = self.buffer.clone().expect("no buffer to send");
                match self.peer(socket).unwrap().endpoint.clone() {
                    Some(endpoint) => {
                        self.queue(&endpoint).push_back((message, flags & 2 != 0));
                        Reply::Code(0)
                    }
                    None => self.fail(EFSM),
                }
            }
            Call::MsgRecv { socket, flags: _ } => {
                assert!(self.buffer.is_some(), "no buffer to receive into");
                let endpoint = self.peer(socket).unwrap().endpoint.clone().unwrap_or_default();
                match self.queue(&endpoint).pop_front() {
                    Some((message, more)) => {
                        self.buffer = Some(message);
                        self.peer(socket).unwrap().more = more;
                        Reply::Code(0)
                    }
                    None => self.fail(EAGAIN),
                }
            }
            Call::MsgSize => Reply::Size(self.buffer.as_ref().expect("no buffer to measure").len()),
            Call::MsgRead { len } => {
                Reply::Bytes(self.buffer.as_ref().expect("no buffer to read")[..len].to_vec())
            }
            Call::MsgClose => {
                assert!(self.buffer.is_some(), "no buffer to release");
                self.buffer = None;
                self.released += 1;
                Reply::Code(0)
            }
            Call::Errno => Reply::Code(self.errno),
            Call::Strerror { code } => Reply::Text(Some(format!("error {}", code))),
        }
    }

    /// Performs the calls of one operation until it returns.
    fn run(&mut self, first: Step) -> Outcome {
        let mut step = first;
        loop {
            match step {
                Step::Done(outcome) => {
                    assert!(self.buffer.is_none(), "a buffer outlives its operation");
                    assert_eq!(self.initialised, self.released);
                    return outcome;
                }
                Step::Ask(call, exchange) => {
                    let reply = self.perform(call);
                    step = resume(exchange, reply).expect("the reply does not answer the call");
                }
            }
        }
    }

    fn context(&mut self) -> Context {
        match self.run(init(1)) {
            Outcome::Context(Ok(context)) => context,
            other => panic!("no context: {:?}", other),
        }
    }

    fn socket(&mut self, context: &Context, kind: SocketKind) -> Socket {
        match self.run(socket(context, kind)) {
            Outcome::Socket(Ok(socket)) => socket,
            other => panic!("no socket: {:?}", other),
        }
    }

    /// A PUSH socket connected to a PULL socket bound at `endpoint`.
    fn pipe(&mut self, context: &Context, endpoint: &str) -> (Socket, Socket) {
        let pull = self.socket(context, SocketKind::PULL);
        assert_eq!(self.run(bind(&pull, endpoint.to_string())), Outcome::Unit(Ok(())));
        let push = self.socket(context, SocketKind::PUSH);
        assert_eq!(self.run(connect(&push, endpoint.to_string())), Outcome::Unit(Ok(())));
        (push, pull)
    }
}

#[test]
fn every_kind_opens_and_closes_on_a_fresh_context() {
    let kinds = [
        SocketKind::PAIR,
        SocketKind::PUB,
        SocketKind::SUB,
        SocketKind::REQ,
        SocketKind::REP,
        SocketKind::DEALER,
        SocketKind::ROUTER,
        SocketKind::PULL,
        SocketKind::PUSH,
        SocketKind::XPUB,
        SocketKind::XSUB,
    ];
    for kind in kinds {
        let mut engine = Loopback::new();
        let context = engine.context();
        let opened = engine.socket(&context, kind);
        assert_eq!(opened.kind(), kind);
        assert_eq!(engine.run(close(opened)), Outcome::Unit(Ok(())));
        assert_eq!(engine.run(term(context)), Outcome::Unit(Ok(())));
    }
}

#[test]
fn what_is_pushed_is_pulled_unchanged() {
    let mut engine = Loopback::new();
    let context = engine.context();
    let (push, pull) = engine.pipe(&context, "inproc://pipe");
    let payloads: Vec<Vec<u8>> = vec![
        vec![],
        vec![0],
        vec![0xff; 30],
        (0..31).collect(),
        (0..=255).collect(),
        (0..1000).map(|i| (i * 7 % 256) as u8).collect(),
    ];
    for payload in payloads {
        assert_eq!(engine.run(send(&push, payload.clone(), 0)), Outcome::Unit(Ok(())));
        assert_eq!(engine.run(recv(&pull, 0)), Outcome::Bytes(Ok(payload)));
    }
}

#[test]
fn a_text_that_is_pushed_is_pulled_unchanged() {
    let mut engine = Loopback::new();
    let context = engine.context();
    let (push, pull) = engine.pipe(&context, "inproc://text");
    for text in ["", "hello", "gr\u{fc}\u{df}e", "\u{1f980} and \u{4e16}\u{754c}"] {
        assert_eq!(engine.run(send_str(&push, text.to_string(), 0)), Outcome::Unit(Ok(())));
        assert_eq!(engine.run(recv_str(&pull, 0)), Outcome::Text(Ok(text.to_string())));
    }
}

#[test]
fn the_parts_of_a_message_are_told_apart_by_rcvmore() {
    let mut engine = Loopback::new();
    let context = engine.context();
    let (push, pull) = engine.pipe(&context, "inproc://parts");
    let more = SendOptions::SNDMORE.code();
    assert_eq!(engine.run(send(&push, vec![1], more)), Outcome::Unit(Ok(())));
    assert_eq!(engine.run(send(&push, vec![2, 2], more)), Outcome::Unit(Ok(())));
    assert_eq!(engine.run(send(&push, vec![3, 3, 3], 0)), Outcome::Unit(Ok(())));
    let mut seen = Vec::new();
    for _ in 0..3 {
        let part = match engine.run(recv(&pull, 0)) {
            Outcome::Bytes(Ok(part)) => part,
            other => panic!("no part: {:?}", other),
        };
        let more = match engine.run(getsockopt_i64(&pull, SocketOption::RCVMORE)) {
            Outcome::Int64(Ok(more)) => more != 0,
            other => panic!("no flag: {:?}", other),
        };
        seen.push((part, more));
    }
    assert_eq!(seen, vec![(vec![1], true), (vec![2, 2], true), (vec![3, 3, 3], false)]);
}

#[test]
fn linger_is_read_as_it_was_written() {
    let mut engine = Loopback::new();
    let context = engine.context();
    let sock = engine.socket(&context, SocketKind::PUSH);
    assert_eq!(engine.run(setsockopt_i64(&sock, SocketOption::LINGER, 500)), Outcome::Unit(Ok(())));
    assert_eq!(engine.run(getsockopt_i64(&sock, SocketOption::LINGER)), Outcome::Int64(Ok(500)));
}

#[test]
fn the_identity_is_read_as_it_was_written() {
    let mut engine = Loopback::new();
    let context = engine.context();
    let sock = engine.socket(&context, SocketKind::DEALER);
    assert_eq!(
        engine.run(setsockopt_vec(&sock, SocketOption::IDENTITY, vec![0x01, 0x02, 0x03])),
        Outcome::Unit(Ok(()))
    );
    assert_eq!(
        engine.run(getsockopt_vec(&sock, SocketOption::IDENTITY)),
        Outcome::Bytes(Ok(vec![0x01, 0x02, 0x03]))
    );
    let longest: Vec<u8> = (0..255).map(|i| i as u8).collect();
    assert_eq!(
        engine.run(setsockopt_vec(&sock, SocketOption::IDENTITY, longest.clone())),
        Outcome::Unit(Ok(()))
    );
    assert_eq!(
        engine.run(getsockopt_vec(&sock, SocketOption::IDENTITY)),
        Outcome::Bytes(Ok(longest))
    );
}

#[test]
fn a_receive_that_would_wait_fails_at_once_and_releases_its_buffer() {
    let mut engine = Loopback::new();
    let context = engine.context();
    let (_push, pull) = engine.pipe(&context, "inproc://idle");
    let outcome = engine.run(recv(&pull, SendOptions::DONTWAIT.code()));
    assert_eq!(outcome, Outcome::Bytes(Err(Error::UNKNOWN(EAGAIN))));
    assert_eq!(engine.initialised, 1);
    assert_eq!(engine.released, 1);
    let tail: Vec<Call> = engine.calls[engine.calls.len() - 2..].to_vec();
    assert_eq!(tail, vec![Call::Errno, Call::MsgClose]);
}

#[test]
fn a_send_that_fails_releases_its_buffer() {
    let mut engine = Loopback::new();
    let context = engine.context();
    let lonely = engine.socket(&context, SocketKind::PUSH);
    let outcome = engine.run(send(&lonely, vec![1, 2, 3], 0));
    assert_eq!(outcome, Outcome::Unit(Err(Error::EFSM)));
    assert_eq!(engine.initialised, 1);
    assert_eq!(engine.released, 1);
    let tail: Vec<Call> = engine.calls[engine.calls.len() - 2..].to_vec();
    assert_eq!(tail, vec![Call::Errno, Call::MsgClose]);
}

#[test]
fn binding_twice_to_one_address_fails_with_eaddrinuse() {
    let mut engine = Loopback::new();
    let context = engine.context();
    let first = engine.socket(&context, SocketKind::REP);
    let second = engine.socket(&context, SocketKind::REP);
    let endpoint = "tcp://127.0.0.1:5555";
    assert_eq!(engine.run(bind(&first, endpoint.to_string())), Outcome::Unit(Ok(())));
    assert_eq!(
        engine.run(bind(&second, endpoint.to_string())),
        Outcome::Unit(Err(Error::EADDRINUSE))
    );
}

#[test]
fn connecting_to_a_malformed_endpoint_fails_with_an_error() {
    let mut engine = Loopback::new();
    let context = engine.context();
    let sock = engine.socket(&context, SocketKind::REQ);
    assert_eq!(
        engine.run(connect(&sock, "not an endpoint".to_string())),
        Outcome::Unit(Err(Error::UNKNOWN(EINVAL)))
    );
}

#[test]
fn closing_a_socket_twice_is_the_engine_to_refuse() {
    let mut engine = Loopback::new();
    let context = engine.context();
    let sock = engine.socket(&context, SocketKind::PAIR);
    let addr = sock.addr();
    assert_eq!(engine.run(close(sock)), Outcome::Unit(Ok(())));
    let reply = engine.perform(Call::Close { socket: addr });
    assert_eq!(reply, Reply::Code(-1));
    assert_eq!(engine.perform(Call::Errno), Reply::Code(ENOTSOCK));
}
