use vstd::prelude::*;
use vstd::utf8::{decode_utf8, valid_utf8};
use crate::error::ProxyError;
use crate::ipv6::{ipv6_string, ipv6_text};
use crate::net::be_u16;
use crate::text::{ipv4_string, ipv4_text, string_from_utf8};

verus! {

/// Where a SOCKS5 session stands.
#[derive(Clone, Copy, Debug, PartialEq, Eq, Structural)]
pub enum SessionPhase {
    /// Waiting for the version and the number of methods.
    Greeting,
    /// Waiting for the method list.
    Methods,
    /// Waiting for the method choice to be sent.
    MethodReply,
    /// Waiting for the request header (version, command, reserved, address type).
    Header,
    /// Waiting for the length of a domain name.
    DomainLen,
    /// Waiting for the destination address.
    Address,
    /// Waiting for the destination port.
    Port,
    /// Waiting for the reply to the request to be sent.
    Reply,
    /// The session has handed over or ended.
    Finished,
}

/// The server side of a SOCKS5 handshake (no authentication) and request, driven by the
/// bytes its caller reads and the replies its caller sends.
pub struct Socks5Session {
    phase: SessionPhase,
    pending: usize,
    cmd: u8,
    atyp: u8,
    addr: Vec<u8>,
    host: Option<String>,
    port: Option<u16>,
}

/// What a session knows, as values.
pub struct SessionModel {
    pub phase: SessionPhase,
    /// How many bytes the current read asks for.
    pub pending: nat,
    pub cmd: u8,
    pub atyp: u8,
    pub addr: Seq<u8>,
    pub host: Option<Seq<char>>,
    pub port: Option<u16>,
}

/// What the caller of a session did last.
pub enum SessionEvent {
    /// These bytes were read, exactly as many as asked for.
    Received(Vec<u8>),
    /// The bytes handed over to be sent were written.
    Sent,
}

/// A session event, as values.
pub enum EventModel {
    Received(Seq<u8>),
    Sent,
}

/// What a session asks its caller to do next.
#[derive(Debug)]
pub enum SessionAction {
    /// Read exactly this many bytes and report them.
    Read(usize),
    /// Write these bytes and report when done.
    Send(Vec<u8>),
    /// The request was a CONNECT and has been answered: relay to this destination.
    Connect { host: Option<String>, port: Option<u16> },
    /// The request was a UDP ASSOCIATE: set up the UDP relay.
    UdpAssociate,
    /// End the session with this error.
    Fail(ProxyError),
    /// The requested domain name is not UTF-8; the session cannot go on.
    InvalidDomain,
}

/// A session action, as values.
pub enum ActionModel {
    Read(nat),
    Send(Seq<u8>),
    Connect(Option<Seq<char>>, Option<u16>),
    UdpAssociate,
    Fail(ProxyError),
    InvalidDomain,
}

pub open spec fn opt_string_view(o: Option<String>) -> Option<Seq<char>> {
    match o {
        Some(s) => Some(s@),
        None => None,
    }
}

impl View for Socks5Session {
    type V = SessionModel;

    closed spec fn view(&self) -> SessionModel {
        SessionModel {
            phase: self.phase,
            pending: self.pending as nat,
            cmd: self.cmd,
            atyp: self.atyp,
            addr: self.addr@,
            host: opt_string_view(self.host),
            port: self.port,
        }
    }
}

impl View for SessionEvent {
    type V = EventModel;

    open spec fn view(&self) -> EventModel {
        match self {
            SessionEvent::Received(b) => EventModel::Received(b@),
            SessionEvent::Sent => EventModel::Sent,
        }
    }
}

impl View for SessionAction {
    type V = ActionModel;

    open spec fn view(&self) -> ActionModel {
        match self {
            SessionAction::Read(n) => ActionModel::Read(*n as nat),
            SessionAction::Send(b) => ActionModel::Send(b@),
            SessionAction::Connect { host, port } => ActionModel::Connect(opt_string_view(*host), *port),
            SessionAction::UdpAssociate => ActionModel::UdpAssociate,
            SessionAction::Fail(e) => ActionModel::Fail(*e),
            SessionAction::InvalidDomain => ActionModel::InvalidDomain,
        }
    }
}

/// The reply that grants a CONNECT request (bound address 0.0.0.0:0).
pub open spec fn connect_granted_reply() -> Seq<u8> {
    seq![5u8, 0u8, 0u8, 1u8, 0u8, 0u8, 0u8, 0u8, 0u8, 0u8]
}

/// The reply that refuses an unsupported command (REP 7).
pub open spec fn command_refused_reply() -> Seq<u8> {
    seq![5u8, 7u8, 0u8, 1u8, 0u8, 0u8, 0u8, 0u8, 0u8, 0u8]
}

/// The method choice: version 5, no authentication.
pub open spec fn no_auth_choice() -> Seq<u8> {
    seq![5u8, 0u8]
}

/// A session that has not read anything yet.
pub open spec fn initial_session() -> SessionModel {
    SessionModel {
        phase: SessionPhase::Greeting,
        pending: 2,
        cmd: 0,
        atyp: 0,
        addr: Seq::empty(),
        host: None,
        port: None,
    }
}

/// The event is one that the session waits for: the bytes it asked for, or the end of a send.
pub open spec fn accepts(s: SessionModel, e: EventModel) -> bool {
    match s.phase {
        SessionPhase::MethodReply | SessionPhase::Reply => e is Sent,
        SessionPhase::Finished => false,
        _ => e matches EventModel::Received(b) && b.len() == s.pending,
    }
}

pub open spec fn received(e: EventModel) -> Seq<u8> {
    match e {
        EventModel::Received(b) => b,
        EventModel::Sent => Seq::empty(),
    }
}

pub open spec fn finished(s: SessionModel) -> SessionModel {
    SessionModel { phase: SessionPhase::Finished, pending: 0, ..s }
}

/// Answers a request once its destination is known: a CONNECT is granted, a UDP ASSOCIATE
/// is handed over, any other command is refused.
pub open spec fn dispatch(s: SessionModel, host: Option<Seq<char>>, port: Option<u16>) -> (SessionModel, ActionModel) {
    let s2 = SessionModel { host, port, ..s };
    if s.cmd == 1 {
        (SessionModel { phase: SessionPhase::Reply, pending: 0, ..s2 }, ActionModel::Send(connect_granted_reply()))
    } else if s.cmd == 3 {
        (finished(s2), ActionModel::UdpAssociate)
    } else {
        (SessionModel { phase: SessionPhase::Reply, pending: 0, ..s2 }, ActionModel::Send(command_refused_reply()))
    }
}

/// The next state of a session and what it asks for, after an event it accepts.
pub open spec fn session_step(s: SessionModel, e: EventModel) -> (SessionModel, ActionModel) {
    let b = received(e);
    match s.phase {
        SessionPhase::Greeting => if b[0] != 5 {
            (finished(s), ActionModel::Fail(ProxyError::InvalidSocksVersion))
        } else {
            (SessionModel { phase: SessionPhase::Methods, pending: b[1] as nat, ..s }, ActionModel::Read(b[1] as nat))
        },
        SessionPhase::Methods => (SessionModel { phase: SessionPhase::MethodReply, pending: 0, ..s }, ActionModel::Send(no_auth_choice())),
        SessionPhase::MethodReply => (SessionModel { phase: SessionPhase::Header, pending: 4, ..s }, ActionModel::Read(4)),
        SessionPhase::Header => {
            let s2 = SessionModel { cmd: b[1], atyp: b[3], ..s };
            if b[3] == 1 {
                (SessionModel { phase: SessionPhase::Address, pending: 4, ..s2 }, ActionModel::Read(4))
            } else if b[3] == 4 {
                (SessionModel { phase: SessionPhase::Address, pending: 16, ..s2 }, ActionModel::Read(16))
            } else if b[3] == 3 {
                (SessionModel { phase: SessionPhase::DomainLen, pending: 1, ..s2 }, ActionModel::Read(1))
            } else {
                dispatch(s2, None, None)
            }
        },
        SessionPhase::DomainLen => (SessionModel { phase: SessionPhase::Address, pending: b[0] as nat, ..s }, ActionModel::Read(b[0] as nat)),
        SessionPhase::Address => (SessionModel { phase: SessionPhase::Port, pending: 2, addr: b, ..s }, ActionModel::Read(2)),
        SessionPhase::Port => {
            let port = be_u16(b[0], b[1]);
            if s.atyp == 1 {
                dispatch(s, Some(ipv4_text(s.addr[0], s.addr[1], s.addr[2], s.addr[3])), Some(port))
            } else if s.atyp == 4 {
                dispatch(s, Some(ipv6_text(s.addr)), Some(port))
            } else if valid_utf8(s.addr) {
                dispatch(s, Some(decode_utf8(s.addr)), Some(port))
            } else {
                (finished(s), ActionModel::InvalidDomain)
            }
        },
        SessionPhase::Reply => if s.cmd == 1 {
            (finished(s), ActionModel::Connect(s.host, s.port))
        } else {
            (finished(s), ActionModel::Fail(ProxyError::UnsupportedCommand))
        },
        SessionPhase::Finished => (s, ActionModel::Fail(ProxyError::InvalidSocksVersion)),
    }
}

/// A session's well-formedness: each read is sized for what it waits for; while it waits
/// for an address its type is known, and while it waits for the port the address has the
/// size of that type.
pub open spec fn session_wf(s: SessionModel) -> bool {
    &&& s.phase == SessionPhase::Address ==> (s.atyp == 1 && s.pending == 4) || (s.atyp == 4 && s.pending == 16) || s.atyp == 3
    &&& s.phase == SessionPhase::Port ==> (s.atyp == 1 && s.addr.len() == 4) || (s.atyp == 4 && s.addr.len() == 16) || s.atyp == 3
    &&& s.phase == SessionPhase::DomainLen ==> s.atyp == 3 && s.pending == 1
    &&& s.phase == SessionPhase::Greeting ==> s.pending == 2
    &&& s.phase == SessionPhase::Header ==> s.pending == 4
    &&& s.phase == SessionPhase::Port ==> s.pending == 2
    &&& s.pending <= 0xffff
}

impl Socks5Session {
    pub closed spec fn wf(&self) -> bool {
        session_wf(self@)
    }

    /// A new session and its first request: read the greeting's two bytes.
    pub fn start() -> (r: (Socks5Session, SessionAction))
        ensures
            r.0@ == initial_session(),
            r.0.wf(),
            r.1@ == ActionModel::Read(2),
    {
        let s = Socks5Session { phase: SessionPhase::Greeting, pending: 2, cmd: 0, atyp: 0, addr: Vec::new(), host: None, port: None };
        assert(s@.addr =~= Seq::<u8>::empty());
        (s, SessionAction::Read(2))
    }

    /// The phase the session stands in.
    pub fn phase(&self) -> (p: SessionPhase)
        ensures
            p == self@.phase,
    {
        self.phase
    }

    fn dispatch(&mut self, host: Option<String>, port: Option<u16>) -> (a: SessionAction)
        ensures
            (final(self)@, a@) == dispatch(old(self)@, opt_string_view(host), port),
    {
        self.host = host;
        self.port = port;
        if self.cmd == 1 {
            self.phase = SessionPhase::Reply;
            self.pending = 0;
            SessionAction::Send(vec![5u8, 0u8, 0u8, 1u8, 0u8, 0u8, 0u8, 0u8, 0u8, 0u8])
        } else if self.cmd == 3 {
            self.phase = SessionPhase::Finished;
            self.pending = 0;
            SessionAction::UdpAssociate
        } else {
            self.phase = SessionPhase::Reply;
            self.pending = 0;
            SessionAction::Send(vec![5u8, 7u8, 0u8, 1u8, 0u8, 0u8, 0u8, 0u8, 0u8, 0u8])
        }
    }

    /// Takes in what the caller did and answers with what to do next.
    pub fn step(&mut self, event: SessionEvent) -> (a: SessionAction)
        requires
            old(self).wf(),
            accepts(old(self)@, event@),
        ensures
            final(self).wf(),
            (final(self)@, a@) == session_step(old(self)@, event@),
    {
        let bytes = match event {
            SessionEvent::Received(b) => b,
            SessionEvent::Sent => Vec::new(),
        };
        match self.phase {
            SessionPhase::Greeting => {
                if bytes[0] != 5 {
                    self.phase = SessionPhase::Finished;
                    self.pending = 0;
                    SessionAction::Fail(ProxyError::InvalidSocksVersion)
                } else {
                    self.phase = SessionPhase::Methods;
                    self.pending = bytes[1] as usize;
                    SessionAction::Read(bytes[1] as usize)
                }
            },
            SessionPhase::Methods => {
                self.phase = SessionPhase::MethodReply;
                self.pending = 0;
                SessionAction::Send(vec![5u8, 0u8])
            },
            SessionPhase::MethodReply => {
                self.phase = SessionPhase::Header;
                self.pending = 4;
                SessionAction::Read(4)
            },
            SessionPhase::Header => {
                self.cmd = bytes[1];
                self.atyp = bytes[3];
                if bytes[3] == 1 {
                    self.phase = SessionPhase::Address;
                    self.pending = 4;
                    SessionAction::Read(4)
                } else if bytes[3] == 4 {
                    self.phase = SessionPhase::Address;
                    self.pending = 16;
                    SessionAction::Read(16)
                } else if bytes[3] == 3 {
                    self.phase = SessionPhase::DomainLen;
                    self.pending = 1;
                    SessionAction::Read(1)
                } else {
                    self.dispatch(None, None)
                }
            },
            SessionPhase::DomainLen => {
                self.phase = SessionPhase::Address;
                self.pending = bytes[0] as usize;
                SessionAction::Read(bytes[0] as usize)
            },
            SessionPhase::Address => {
                self.phase = SessionPhase::Port;
                self.pending = 2;
                self.addr = bytes;
                SessionAction::Read(2)
            },
            SessionPhase::Port => {
                let port: u16 = (bytes[0] as u16) * 256 + (bytes[1] as u16);
                if self.atyp == 1 {
                    let host = ipv4_string(self.addr[0], self.addr[1], self.addr[2], self.addr[3]);
                    self.dispatch(Some(host), Some(port))
                } else if self.atyp == 4 {
                    let host = ipv6_string(self.addr.as_slice());
                    self.dispatch(Some(host), Some(port))
                } else {
                    let raw = self.addr.clone();
                    match string_from_utf8(raw) {
                        Some(host) => self.dispatch(Some(host), Some(port)),
                        None => {
                            self.phase = SessionPhase::Finished;
                            self.pending = 0;
                            SessionAction::InvalidDomain
                        },
                    }
                }
            },
            SessionPhase::Reply => {
                self.phase = SessionPhase::Finished;
                self.pending = 0;
                if self.cmd == 1 {
                    let host = self.host.clone();
                    SessionAction::Connect { host, port: self.port }
                } else {
                    SessionAction::Fail(ProxyError::UnsupportedCommand)
                }
            },
            SessionPhase::Finished => SessionAction::Fail(ProxyError::InvalidSocksVersion),
        }
    }
}


/// Runs a session through the events from index `i` on, collecting what it asks for.
pub open spec fn run_session_from(s: SessionModel, es: Seq<EventModel>, i: int) -> (SessionModel, Seq<ActionModel>)
    decreases es.len() - i,
{
    if i < 0 || i >= es.len() {
        (s, Seq::empty())
    } else {
        let (s1, a) = session_step(s, es[i]);
        let (s2, rest) = run_session_from(s1, es, i + 1);
        (s2, seq![a] + rest)
    }
}

/// Runs a session through a sequence of events, collecting what it asks for.
pub open spec fn run_session(s: SessionModel, es: Seq<EventModel>) -> (SessionModel, Seq<ActionModel>) {
    run_session_from(s, es, 0)
}

/// The host text a request names: dotted decimal for IPv4, the standard text for IPv6,
/// the decoded name for a domain.
pub open spec fn requested_host(atyp: u8, addr: Seq<u8>) -> Seq<char> {
    if atyp == 1 {
        ipv4_text(addr[0], addr[1], addr[2], addr[3])
    } else if atyp == 4 {
        ipv6_text(addr)
    } else {
        decode_utf8(addr)
    }
}

/// A well-formed address of the given type.
pub open spec fn well_formed_address(atyp: u8, addr: Seq<u8>) -> bool {
    ||| atyp == 1 && addr.len() == 4
    ||| atyp == 4 && addr.len() == 16
    ||| atyp == 3 && addr.len() <= 255 && valid_utf8(addr)
}

/// What a client does in a complete exchange: greets with version 5 and its methods, reads
/// the method choice, sends a request for `cmd` to `addr` and `port`, and reads the reply.
pub open spec fn client_exchange(methods: Seq<u8>, ver: u8, cmd: u8, rsv: u8, atyp: u8, addr: Seq<u8>, port: Seq<u8>) -> Seq<EventModel> {
    let head = seq![
        EventModel::Received(seq![5u8, methods.len() as u8]),
        EventModel::Received(methods),
        EventModel::Sent,
        EventModel::Received(seq![ver, cmd, rsv, atyp]),
    ];
    if atyp == 3 {
        head + seq![
            EventModel::Received(seq![addr.len() as u8]),
            EventModel::Received(addr),
            EventModel::Received(port),
            EventModel::Sent,
        ]
    } else {
        head + seq![EventModel::Received(addr), EventModel::Received(port), EventModel::Sent]
    }
}

/// What a session asks for, read by read, while it takes in a request up to its reply.
pub open spec fn exchange_reads(methods: Seq<u8>, atyp: u8, addr: Seq<u8>) -> Seq<ActionModel> {
    let head = seq![ActionModel::Read(methods.len()), ActionModel::Send(no_auth_choice()), ActionModel::Read(4)];
    if atyp == 3 {
        head + seq![ActionModel::Read(1), ActionModel::Read(addr.len()), ActionModel::Read(2)]
    } else {
        head + seq![ActionModel::Read(addr.len()), ActionModel::Read(2)]
    }
}

/// Where the port comes in an exchange: after the request header and the address, and,
/// for a domain name, its length.
pub open spec fn port_event_index(atyp: u8) -> int {
    if atyp == 3 {
        6
    } else {
        5
    }
}

/// A session that has read a request for `cmd` up to its address and waits for the port.
pub open spec fn awaiting_port(cmd: u8, atyp: u8, addr: Seq<u8>) -> SessionModel {
    SessionModel { phase: SessionPhase::Port, pending: 2, cmd, atyp, addr, host: None, port: None }
}

/// Running a session through events that begin as a client's exchange does, up to its port:
/// the session asks for the reads of `exchange_reads`, then goes on from `awaiting_port`.
proof fn lemma_request_read(methods: Seq<u8>, ver: u8, cmd: u8, rsv: u8, atyp: u8, addr: Seq<u8>, port: Seq<u8>, es: Seq<EventModel>)
    requires
        methods.len() <= 255,
        well_formed_address(atyp, addr),
        port_event_index(atyp) <= es.len(),
        es.subrange(0, port_event_index(atyp)) == client_exchange(methods, ver, cmd, rsv, atyp, addr, port).subrange(0, port_event_index(atyp)),
    ensures
        run_session_from(initial_session(), es, 0).0
            == run_session_from(awaiting_port(cmd, atyp, addr), es, port_event_index(atyp)).0,
        run_session_from(initial_session(), es, 0).1
            == exchange_reads(methods, atyp, addr) + run_session_from(awaiting_port(cmd, atyp, addr), es, port_event_index(atyp)).1,
{
    let full = client_exchange(methods, ver, cmd, rsv, atyp, addr, port);
    let k = port_event_index(atyp);
    assert forall|j: int| 0 <= j < k implies es[j] == full[j] by {
        assert(es[j] == es.subrange(0, k)[j]);
    }
    let n = methods.len();
    let s0 = initial_session();
    let (s1, a1) = session_step(s0, es[0]);
    assert(a1 == ActionModel::Read(n));
    let (s2, a2) = session_step(s1, es[1]);
    let (s3, a3) = session_step(s2, es[2]);
    let (s4, a4) = session_step(s3, es[3]);
    let rest = run_session_from(awaiting_port(cmd, atyp, addr), es, k);
    if atyp == 3 {
        let (s5, a5) = session_step(s4, es[4]);
        let (s6, a6) = session_step(s5, es[5]);
        assert(s6 == awaiting_port(cmd, atyp, addr));
        assert(run_session_from(s5, es, 5).1 =~= seq![a6] + rest.1);
        assert(run_session_from(s4, es, 4).1 =~= seq![a5, a6] + rest.1);
        assert(run_session_from(s3, es, 3).1 =~= seq![a4, a5, a6] + rest.1);
        assert(run_session_from(s2, es, 2).1 =~= seq![a3, a4, a5, a6] + rest.1);
        assert(run_session_from(s1, es, 1).1 =~= seq![a2, a3, a4, a5, a6] + rest.1);
        assert(run_session_from(s0, es, 0).1 =~= seq![a1, a2, a3, a4, a5, a6] + rest.1);
    } else {
        let (s5, a5) = session_step(s4, es[4]);
        assert(s5 == awaiting_port(cmd, atyp, addr));
        assert(run_session_from(s4, es, 4).1 =~= seq![a5] + rest.1);
        assert(run_session_from(s3, es, 3).1 =~= seq![a4, a5] + rest.1);
        assert(run_session_from(s2, es, 2).1 =~= seq![a3, a4, a5] + rest.1);
        assert(run_session_from(s1, es, 1).1 =~= seq![a2, a3, a4, a5] + rest.1);
        assert(run_session_from(s0, es, 0).1 =~= seq![a1, a2, a3, a4, a5] + rest.1);
    }
}

/// A CONNECT request to a well-formed address is answered with "no authentication", then
/// granted with the reply 05 00 00 01 0.0.0.0:0, and the session hands over the requested host
/// as text and the port read in network byte order.
pub proof fn lemma_connect_request_is_granted(methods: Seq<u8>, ver: u8, rsv: u8, atyp: u8, addr: Seq<u8>, port: Seq<u8>)
    requires
        methods.len() <= 255,
        port.len() == 2,
        well_formed_address(atyp, addr),
    ensures
        run_session(initial_session(), client_exchange(methods, ver, 1, rsv, atyp, addr, port)).1
            == exchange_reads(methods, atyp, addr) + seq![
                ActionModel::Send(connect_granted_reply()),
                ActionModel::Connect(Some(requested_host(atyp, addr)), Some(be_u16(port[0], port[1]))),
            ],
        run_session(initial_session(), client_exchange(methods, ver, 1, rsv, atyp, addr, port)).0.phase
            == SessionPhase::Finished,
{
    let es = client_exchange(methods, ver, 1, rsv, atyp, addr, port);
    let k = port_event_index(atyp);
    lemma_request_read(methods, ver, 1, rsv, atyp, addr, port, es);
    let (s1, a1) = session_step(awaiting_port(1, atyp, addr), es[k]);
    assert(a1 == ActionModel::Send(connect_granted_reply()));
    let (s2, a2) = session_step(s1, es[k + 1]);
    assert(a2 == ActionModel::Connect(Some(requested_host(atyp, addr)), Some(be_u16(port[0], port[1]))));
    assert(run_session_from(s2, es, k + 2).1 =~= Seq::<ActionModel>::empty());
    assert(run_session_from(s1, es, k + 1).1 =~= seq![a2]);
    assert(run_session_from(awaiting_port(1, atyp, addr), es, k).1 =~= seq![a1, a2]);
}

/// A UDP ASSOCIATE request to a well-formed address is answered with "no authentication",
/// then handed over to the UDP relay without the session sending a reply of its own.
pub proof fn lemma_udp_associate_is_handed_over(methods: Seq<u8>, ver: u8, rsv: u8, atyp: u8, addr: Seq<u8>, port: Seq<u8>)
    requires
        methods.len() <= 255,
        port.len() == 2,
        well_formed_address(atyp, addr),
    ensures
        run_session(initial_session(), client_exchange(methods, ver, 3, rsv, atyp, addr, port).drop_last()).1
            == exchange_reads(methods, atyp, addr) + seq![ActionModel::UdpAssociate],
        run_session(initial_session(), client_exchange(methods, ver, 3, rsv, atyp, addr, port).drop_last()).0.phase
            == SessionPhase::Finished,
{
    let full = client_exchange(methods, ver, 3, rsv, atyp, addr, port);
    let es = full.drop_last();
    let k = port_event_index(atyp);
    assert(es.subrange(0, k) =~= full.subrange(0, k));
    lemma_request_read(methods, ver, 3, rsv, atyp, addr, port, es);
    let (s1, a1) = session_step(awaiting_port(3, atyp, addr), es[k]);
    assert(a1 == ActionModel::UdpAssociate);
    assert(run_session_from(s1, es, k + 1).1 =~= Seq::<ActionModel>::empty());
    assert(run_session_from(awaiting_port(3, atyp, addr), es, k).1 =~= seq![a1]);
}

/// A request for a command other than CONNECT and UDP ASSOCIATE, to a well-formed
/// address, is answered with "no authentication", then refused with the reply
/// 05 07 00 01 0.0.0.0:0, and the session ends with an unsupported-command error.
pub proof fn lemma_other_command_is_refused(methods: Seq<u8>, ver: u8, cmd: u8, rsv: u8, atyp: u8, addr: Seq<u8>, port: Seq<u8>)
    requires
        methods.len() <= 255,
        cmd != 1,
        cmd != 3,
        port.len() == 2,
        well_formed_address(atyp, addr),
    ensures
        run_session(initial_session(), client_exchange(methods, ver, cmd, rsv, atyp, addr, port)).1
            == exchange_reads(methods, atyp, addr) + seq![
                ActionModel::Send(command_refused_reply()),
                ActionModel::Fail(ProxyError::UnsupportedCommand),
            ],
        run_session(initial_session(), client_exchange(methods, ver, cmd, rsv, atyp, addr, port)).0.phase
            == SessionPhase::Finished,
{
    let es = client_exchange(methods, ver, cmd, rsv, atyp, addr, port);
    let k = port_event_index(atyp);
    lemma_request_read(methods, ver, cmd, rsv, atyp, addr, port, es);
    let (s1, a1) = session_step(awaiting_port(cmd, atyp, addr), es[k]);
    assert(a1 == ActionModel::Send(command_refused_reply()));
    let (s2, a2) = session_step(s1, es[k + 1]);
    assert(a2 == ActionModel::Fail(ProxyError::UnsupportedCommand));
    assert(run_session_from(s2, es, k + 2).1 =~= Seq::<ActionModel>::empty());
    assert(run_session_from(s1, es, k + 1).1 =~= seq![a2]);
    assert(run_session_from(awaiting_port(cmd, atyp, addr), es, k).1 =~= seq![a1, a2]);
}

/// A greeting of another SOCKS version is refused at once, before anything is sent.
pub proof fn lemma_other_version_is_refused(greeting: Seq<u8>)
    requires
        greeting.len() == 2,
        greeting[0] != 5,
    ensures
        session_step(initial_session(), EventModel::Received(greeting))
            == (finished(initial_session()), ActionModel::Fail(ProxyError::InvalidSocksVersion)),
{
}

} // verus!
