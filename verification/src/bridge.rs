//! The life of one bridged connection, as a state machine.
//!
//! The machine performs no I/O.  At every moment it awaits one thing of its
//! driver, the [`Action`] that [`HptsContext::action`] names; the driver
//! carries it out and reports the outcome as an [`Event`] to
//! [`HptsContext::step`], which moves the machine on.

use vstd::prelude::*;
use vstd::utf8::encode_utf8;
use crate::error::BridgeError;
use crate::head::{
    head_target, parse_head, parsed_head, target_of_head, HeadModel, HeadParse, MAX_HEADERS,
};
use crate::socks5::{
    build_socks5_cmd, command_bytes, encodable, greeting_bytes, push_all, socks5_greeting,
    IpLiteral,
};

verus! {

/// How many bytes of a request are buffered at most.
pub const BUF_CAPACITY: usize = 4096;

/// One of the two ways in which bytes are forwarded.
#[derive(Clone, Copy, Debug, PartialEq, Eq, Structural)]
pub enum Direction {
    /// From the client's read side to the relay's write side.
    ClientToRelay,
    /// From the relay's read side to the client's write side.
    RelayToClient,
}

/// The steps of the negotiation with the relay, each named by what it
/// waits for.
#[derive(Clone, Copy, Debug, PartialEq, Eq, Structural)]
pub enum Handshake {
    /// The connection to the relay is being opened.
    Connecting,
    /// The greeting is being written.
    Greeting,
    /// The relay's choice of method is being read.
    MethodReply,
    /// The CONNECT command is being written.
    Command,
    /// The relay's reply to the command is being read.
    CommandReply,
    /// The first payload is being written: the buffered request to the
    /// relay, or the tunnel response to the client.
    FirstPayload,
}

/// Where a connection stands.
#[derive(Clone, Copy, Debug, PartialEq, Eq, Structural)]
pub enum BridgeState {
    /// The one read from the client is awaited.
    Reading,
    /// The request head was parsed and its target is known; what its host
    /// denotes is being found out.
    Parsed,
    /// The relay is being talked into connecting to the target.
    Negotiating(Handshake),
    /// Bytes flow both ways; each flag says that its direction has reached
    /// the end of its stream and shut its write side down.
    Forwarding { client_done: bool, relay_done: bool },
    /// Both directions ended in order, or the client left before sending.
    Closed,
    /// The connection was given up.
    Failed(BridgeError),
}

/// What the driver reports to the machine.
#[derive(Debug, PartialEq, Eq)]
pub enum Event {
    /// The read from the client returned these bytes; none means that the
    /// client closed the connection.
    ClientRead(Vec<u8>),
    /// The host was examined: it is this IP literal, or a name.
    HostClassified(Option<IpLiteral>),
    /// The connection to the relay stands.
    RelayConnected,
    /// The bytes to be sent were written in full.
    Sent,
    /// A reply of the relay was read.  What it holds is not looked at.
    RelayReplied,
    /// A direction reached the end of its stream and shut its write side
    /// down.
    DirectionFinished(Direction),
    /// What the machine was waiting for failed.
    Failed,
}

/// The mathematical content of an [`Event`].
pub enum EventModel {
    ClientRead(Seq<u8>),
    HostClassified(Option<IpLiteral>),
    RelayConnected,
    Sent,
    RelayReplied,
    DirectionFinished(Direction),
    Failed,
}

impl View for Event {
    type V = EventModel;

    open spec fn view(&self) -> EventModel {
        match self {
            Event::ClientRead(data) => EventModel::ClientRead(data@),
            Event::HostClassified(ip) => EventModel::HostClassified(*ip),
            Event::RelayConnected => EventModel::RelayConnected,
            Event::Sent => EventModel::Sent,
            Event::RelayReplied => EventModel::RelayReplied,
            Event::DirectionFinished(d) => EventModel::DirectionFinished(*d),
            Event::Failed => EventModel::Failed,
        }
    }
}

/// What the machine asks of its driver.
#[derive(Debug, PartialEq, Eq)]
pub enum Action {
    /// Read once from the client, at most this many bytes.
    ReadClient(usize),
    /// Find out whether this host is an IP literal.
    ClassifyHost(String),
    /// Open a connection to the relay.
    ConnectRelay,
    /// Write these bytes to the relay.
    SendRelay(Vec<u8>),
    /// Read a reply from the relay.
    ReadRelay,
    /// Write these bytes to the client.
    SendClient(Vec<u8>),
    /// Copy in both directions until each reaches the end of its stream,
    /// shutting down the write side of a direction when it ends.
    Forward,
    /// Release both sockets: the connection ended in order.
    Close,
    /// Release both sockets and report the failure.
    Fail(BridgeError),
}

/// The mathematical content of an [`Action`].
pub enum ActionModel {
    ReadClient(nat),
    ClassifyHost(Seq<char>),
    ConnectRelay,
    SendRelay(Seq<u8>),
    ReadRelay,
    SendClient(Seq<u8>),
    Forward,
    Close,
    Fail(BridgeError),
}

impl View for Action {
    type V = ActionModel;

    open spec fn view(&self) -> ActionModel {
        match self {
            Action::ReadClient(max) => ActionModel::ReadClient(*max as nat),
            Action::ClassifyHost(host) => ActionModel::ClassifyHost(host@),
            Action::ConnectRelay => ActionModel::ConnectRelay,
            Action::SendRelay(bytes) => ActionModel::SendRelay(bytes@),
            Action::ReadRelay => ActionModel::ReadRelay,
            Action::SendClient(bytes) => ActionModel::SendClient(bytes@),
            Action::Forward => ActionModel::Forward,
            Action::Close => ActionModel::Close,
            Action::Fail(e) => ActionModel::Fail(*e),
        }
    }
}

/// The response that tells the client that its tunnel stands:
/// `HTTP/1.1 200 OK`, then an empty line.
pub open spec fn tunnel_ready_bytes() -> Seq<u8> {
    seq![
        0x48u8, 0x54u8, 0x54u8, 0x50u8, 0x2fu8, 0x31u8, 0x2eu8, 0x31u8, 0x20u8, 0x32u8, 0x30u8,
        0x30u8, 0x20u8, 0x4fu8, 0x4bu8, 0x0du8, 0x0au8, 0x0du8, 0x0au8,
    ]
}

/// The mathematical content of a connection's context.
pub struct ContextModel {
    /// Where the connection stands.
    pub state: BridgeState,
    /// The bytes read from the client so far.
    pub buffered: Seq<u8>,
    /// Whether the buffered request is passed on to the target.
    pub resend: bool,
    /// The target host.
    pub host: Seq<char>,
    /// The target port.
    pub port: u16,
    /// The address that the host denotes, when it is an IP literal.
    pub ip: Option<IpLiteral>,
}

impl ContextModel {
    /// A connection that was just accepted.
    pub open spec fn initial() -> ContextModel {
        ContextModel {
            state: BridgeState::Reading,
            buffered: Seq::empty(),
            resend: true,
            host: Seq::empty(),
            port: 0,
            ip: None,
        }
    }

    /// The state is final: nothing more happens on this connection.
    pub open spec fn is_terminal(self) -> bool {
        self.state is Closed || self.state is Failed
    }

    /// The bytes of the target host.
    pub open spec fn host_bytes(self) -> Seq<u8> {
        encode_utf8(self.host)
    }

    /// The kind of failure that an unsuccessful action means in this
    /// state.
    pub open spec fn failure(self) -> BridgeError {
        match self.state {
            BridgeState::Negotiating(Handshake::Connecting) => BridgeError::ConnectFailure,
            BridgeState::Forwarding { .. } => BridgeError::CopyError,
            _ => BridgeError::Io,
        }
    }

    /// The same connection in another state.
    pub open spec fn at(self, state: BridgeState) -> ContextModel {
        ContextModel { state, ..self }
    }

    /// The connection after the client's bytes arrived and `head` is what
    /// parsing everything buffered gave.  No bytes: the client has left and
    /// the connection is closed.  Otherwise the bytes are buffered and the
    /// head decides: its target is recorded, or the connection fails.
    pub open spec fn after_read(self, data: Seq<u8>, head: HeadModel) -> ContextModel {
        if data.len() == 0 {
            self.at(BridgeState::Closed)
        } else {
            let buffered = self.buffered + data;
            match head_target(head) {
                Ok(target) => ContextModel {
                    state: BridgeState::Parsed,
                    buffered,
                    resend: target.resend,
                    host: target.host,
                    port: target.port,
                    ip: self.ip,
                },
                Err(e) => ContextModel { state: BridgeState::Failed(e), buffered, ..self },
            }
        }
    }

    /// The connection after a direction has ended: closed once both have.
    pub open spec fn after_direction(self, direction: Direction) -> ContextModel {
        match self.state {
            BridgeState::Forwarding { client_done, relay_done } => {
                let client_done = client_done || direction == Direction::ClientToRelay;
                let relay_done = relay_done || direction == Direction::RelayToClient;
                if client_done && relay_done {
                    self.at(BridgeState::Closed)
                } else {
                    self.at(BridgeState::Forwarding { client_done, relay_done })
                }
            },
            _ => self,
        }
    }

    /// The connection after `event`, where `head` is what parsing the
    /// buffered bytes gives once the event's bytes have joined them.
    ///
    /// An event that the state does not await changes nothing, and nothing
    /// changes a final state.
    pub open spec fn next(self, event: EventModel, head: HeadModel) -> ContextModel {
        match (self.state, event) {
            (BridgeState::Closed, _) => self,
            (BridgeState::Failed(_), _) => self,
            (_, EventModel::Failed) => self.at(BridgeState::Failed(self.failure())),
            (BridgeState::Reading, EventModel::ClientRead(data)) => self.after_read(data, head),
            (BridgeState::Parsed, EventModel::HostClassified(ip)) => ContextModel {
                state: BridgeState::Negotiating(Handshake::Connecting),
                ip,
                ..self
            },
            (BridgeState::Negotiating(Handshake::Connecting), EventModel::RelayConnected) => self.at(
                BridgeState::Negotiating(Handshake::Greeting),
            ),
            (BridgeState::Negotiating(Handshake::Greeting), EventModel::Sent) => self.at(
                BridgeState::Negotiating(Handshake::MethodReply),
            ),
            (BridgeState::Negotiating(Handshake::MethodReply), EventModel::RelayReplied) => {
                if encodable(self.ip, self.host_bytes()) {
                    self.at(BridgeState::Negotiating(Handshake::Command))
                } else {
                    self.at(BridgeState::Failed(BridgeError::HostTooLong))
                }
            },
            (BridgeState::Negotiating(Handshake::Command), EventModel::Sent) => self.at(
                BridgeState::Negotiating(Handshake::CommandReply),
            ),
            (BridgeState::Negotiating(Handshake::CommandReply), EventModel::RelayReplied) => self.at(
                BridgeState::Negotiating(Handshake::FirstPayload),
            ),
            (BridgeState::Negotiating(Handshake::FirstPayload), EventModel::Sent) => self.at(
                BridgeState::Forwarding { client_done: false, relay_done: false },
            ),
            (BridgeState::Forwarding { .. }, EventModel::DirectionFinished(direction)) => {
                self.after_direction(direction)
            },
            _ => self,
        }
    }

    /// The event does not bring more bytes than the buffer has room for.
    /// Only the bytes that the awaited read returns are buffered, so only
    /// they are bound by this.
    pub open spec fn awaits_no_more_than_fits(self, event: EventModel) -> bool {
        self.state is Reading ==> (event matches EventModel::ClientRead(data)
            ==> self.buffered.len() + data.len() <= BUF_CAPACITY)
    }

    /// What the parser makes of the buffered bytes once the bytes of
    /// `event` have joined them.
    pub open spec fn head_on(self, event: EventModel) -> HeadModel {
        match event {
            EventModel::ClientRead(data) => parsed_head(self.buffered + data, MAX_HEADERS),
            _ => HeadModel::Partial,
        }
    }

    /// What the connection awaits of its driver.
    pub open spec fn pending(self) -> ActionModel {
        match self.state {
            BridgeState::Reading => ActionModel::ReadClient(
                (BUF_CAPACITY - self.buffered.len()) as nat,
            ),
            BridgeState::Parsed => ActionModel::ClassifyHost(self.host),
            BridgeState::Negotiating(Handshake::Connecting) => ActionModel::ConnectRelay,
            BridgeState::Negotiating(Handshake::Greeting) => ActionModel::SendRelay(
                greeting_bytes(),
            ),
            BridgeState::Negotiating(Handshake::MethodReply) => ActionModel::ReadRelay,
            BridgeState::Negotiating(Handshake::Command) => ActionModel::SendRelay(
                command_bytes(self.ip, self.host_bytes(), self.port),
            ),
            BridgeState::Negotiating(Handshake::CommandReply) => ActionModel::ReadRelay,
            BridgeState::Negotiating(Handshake::FirstPayload) => if self.resend {
                ActionModel::SendRelay(self.buffered)
            } else {
                ActionModel::SendClient(tunnel_ready_bytes())
            },
            BridgeState::Forwarding { .. } => ActionModel::Forward,
            BridgeState::Closed => ActionModel::Close,
            BridgeState::Failed(e) => ActionModel::Fail(e),
        }
    }
}

/// The steps that a connection may take: from the read to a parsed request
/// or to the end, from there through the negotiation, one step after the
/// other, into forwarding, where directions end but never resume, and on
/// to the end; and from any state that is not final to a failure.
pub open spec fn may_follow(before: BridgeState, after: BridgeState) -> bool {
    match (before, after) {
        (BridgeState::Closed, _) => false,
        (BridgeState::Failed(_), _) => false,
        (_, BridgeState::Failed(_)) => true,
        (BridgeState::Reading, BridgeState::Parsed) => true,
        (BridgeState::Reading, BridgeState::Closed) => true,
        (BridgeState::Parsed, BridgeState::Negotiating(Handshake::Connecting)) => true,
        (BridgeState::Negotiating(a), BridgeState::Negotiating(b)) => match (a, b) {
            (Handshake::Connecting, Handshake::Greeting) => true,
            (Handshake::Greeting, Handshake::MethodReply) => true,
            (Handshake::MethodReply, Handshake::Command) => true,
            (Handshake::Command, Handshake::CommandReply) => true,
            (Handshake::CommandReply, Handshake::FirstPayload) => true,
            _ => false,
        },
        (
            BridgeState::Negotiating(Handshake::FirstPayload),
            BridgeState::Forwarding { client_done, relay_done },
        ) => !client_done && !relay_done,
        (
            BridgeState::Forwarding { client_done: c1, relay_done: r1 },
            BridgeState::Forwarding { client_done: c2, relay_done: r2 },
        ) => (c1 ==> c2) && (r1 ==> r2),
        (BridgeState::Forwarding { .. }, BridgeState::Closed) => true,
        _ => false,
    }
}

/// Whatever is reported, a connection stays where it is or takes one of
/// the steps that [`may_follow`] allows.
pub proof fn steps_follow_the_order(s: ContextModel, event: EventModel, head: HeadModel)
    ensures
        s.next(event, head).state == s.state || may_follow(s.state, s.next(event, head).state),
{
}

/// The relay is contacted only for a request whose target is known: a
/// connection comes to await the relay only from a parsed request, and a
/// request counts as parsed only when its head led to a target.
pub proof fn relay_needs_a_target(s: ContextModel, event: EventModel, head: HeadModel)
    ensures
        s.next(event, head).pending() is ConnectRelay ==> s.pending() is ConnectRelay
            || s.state is Parsed,
        s.next(event, head).state is Parsed ==> s.state is Parsed || (s.state is Reading
            && event is ClientRead && head_target(head) is Ok),
{
}

/// The buffer never grows beyond its capacity, as long as no read hands
/// over more than there is room for.
pub proof fn buffer_stays_within_capacity(s: ContextModel, event: EventModel, head: HeadModel)
    requires
        s.buffered.len() <= BUF_CAPACITY,
        s.awaits_no_more_than_fits(event),
    ensures
        s.next(event, head).buffered.len() <= BUF_CAPACITY,
{
}

/// Nothing more happens on a connection that is closed or has failed:
/// whatever is reported, it stays as it is.
pub proof fn final_states_stay(s: ContextModel, event: EventModel, head: HeadModel)
    requires
        s.is_terminal(),
    ensures
        s.next(event, head) == s,
{
}

/// The client is read from once.  No event leads back to the state that
/// awaits the read, and the arrival of the client's bytes always leaves it.
pub proof fn client_is_read_once(s: ContextModel, event: EventModel, head: HeadModel)
    ensures
        s.state !is Reading ==> s.next(event, head).state !is Reading,
        event is ClientRead ==> s.next(event, head).state !is Reading,
        s.next(event, head).pending() is ReadClient ==> s.pending() is ReadClient,
{
}

/// A client that leaves before sending anything closes the connection
/// without an error: the next thing asked of the driver is to close, and
/// nothing else about the connection has changed.
pub proof fn client_leaving_closes(s: ContextModel, head: HeadModel)
    requires
        s.state is Reading,
    ensures
        s.next(EventModel::ClientRead(Seq::empty()), head) == s.at(BridgeState::Closed),
        s.next(EventModel::ClientRead(Seq::empty()), head).pending() == ActionModel::Close,
{
}

/// Bytes that do not hold a complete head fail the connection as an
/// incomplete request, and no further read is asked for.
pub proof fn unfinished_head_fails(s: ContextModel, data: Seq<u8>, head: HeadModel)
    requires
        s.state is Reading,
        data.len() > 0,
        head !is Complete,
    ensures
        s.next(EventModel::ClientRead(data), head).state == BridgeState::Failed(
            BridgeError::IncompleteRequest,
        ),
        s.next(EventModel::ClientRead(data), head).pending() == ActionModel::Fail(
            BridgeError::IncompleteRequest,
        ),
{
}

/// What the head leads to is what the connection records: once the
/// client's bytes are in, they are buffered behind what was there, and
/// the target is the one that inspecting the head gives.
pub proof fn head_decides_target(s: ContextModel, data: Seq<u8>, head: HeadModel)
    requires
        s.state is Reading,
        data.len() > 0,
    ensures
        ({
            let after = s.next(EventModel::ClientRead(data), head);
            &&& after.buffered == s.buffered + data
            &&& match head_target(head) {
                Ok(target) => {
                    &&& after.state == BridgeState::Parsed
                    &&& after.host == target.host
                    &&& after.port == target.port
                    &&& after.resend == target.resend
                },
                Err(e) => after.state == BridgeState::Failed(e),
            }
        }),
{
}

/// Once the client's bytes are in, what is buffered never changes; once
/// the negotiation has begun, neither does the target.
pub proof fn request_is_kept(s: ContextModel, event: EventModel, head: HeadModel)
    ensures
        s.state !is Reading ==> s.next(event, head).buffered == s.buffered,
        s.state !is Reading ==> {
            &&& s.next(event, head).host == s.host
            &&& s.next(event, head).port == s.port
            &&& s.next(event, head).resend == s.resend
        },
        s.state !is Reading && s.state !is Parsed ==> s.next(event, head).ip == s.ip,
{
}

/// From a parsed request whose target can be encoded, the exchange runs in
/// one order: the relay is connected to, the greeting is written, a reply
/// is read, the command for the target is written, a reply is read, the
/// first payload is written, and forwarding begins.  What the replies hold
/// plays no part.
pub proof fn negotiation_runs_in_order(s: ContextModel, ip: Option<IpLiteral>, head: HeadModel)
    requires
        s.state is Parsed,
        encodable(ip, s.host_bytes()),
    ensures
        ({
            let s1 = s.next(EventModel::HostClassified(ip), head);
            let s2 = s1.next(EventModel::RelayConnected, head);
            let s3 = s2.next(EventModel::Sent, head);
            let s4 = s3.next(EventModel::RelayReplied, head);
            let s5 = s4.next(EventModel::Sent, head);
            let s6 = s5.next(EventModel::RelayReplied, head);
            let s7 = s6.next(EventModel::Sent, head);
            &&& s1.pending() == ActionModel::ConnectRelay
            &&& s2.pending() == ActionModel::SendRelay(greeting_bytes())
            &&& s3.pending() == ActionModel::ReadRelay
            &&& s4.pending() == ActionModel::SendRelay(command_bytes(ip, s.host_bytes(), s.port))
            &&& s5.pending() == ActionModel::ReadRelay
            &&& s6.pending() == if s.resend {
                ActionModel::SendRelay(s.buffered)
            } else {
                ActionModel::SendClient(tunnel_ready_bytes())
            }
            &&& s7.pending() == ActionModel::Forward
            &&& s7.state == BridgeState::Forwarding { client_done: false, relay_done: false }
        }),
{
}

/// A target that cannot be encoded fails the connection when its command
/// is due, after the greeting was exchanged, and never earlier.
pub proof fn overlong_host_fails_at_the_command(
    s: ContextModel,
    ip: Option<IpLiteral>,
    head: HeadModel,
)
    requires
        s.state is Parsed,
        !encodable(ip, s.host_bytes()),
    ensures
        ({
            let s1 = s.next(EventModel::HostClassified(ip), head);
            let s2 = s1.next(EventModel::RelayConnected, head);
            let s3 = s2.next(EventModel::Sent, head);
            let s4 = s3.next(EventModel::RelayReplied, head);
            &&& s3.state == BridgeState::Negotiating(Handshake::MethodReply)
            &&& s4.state == BridgeState::Failed(BridgeError::HostTooLong)
        }),
{
}

/// The first payload is the request as it was read, sent to the relay,
/// when the request is resent; otherwise it is the tunnel response, sent
/// to the client.
pub proof fn first_payload_follows_resend(s: ContextModel)
    requires
        s.state == BridgeState::Negotiating(Handshake::FirstPayload),
    ensures
        s.resend ==> s.pending() == ActionModel::SendRelay(s.buffered),
        !s.resend ==> s.pending() == ActionModel::SendClient(tunnel_ready_bytes()),
{
}

/// Forwarding ends in order only when both directions have ended: the
/// connection closes on the end of one direction exactly when the other
/// had ended before.
pub proof fn closes_after_both_directions(s: ContextModel, event: EventModel, head: HeadModel)
    requires
        s.state is Forwarding,
    ensures
        s.next(event, head).state is Closed <==> ({
            &&& event matches EventModel::DirectionFinished(direction)
            &&& s.state matches BridgeState::Forwarding { client_done, relay_done }
            &&& (direction == Direction::ClientToRelay ==> relay_done)
            &&& (direction == Direction::RelayToClient ==> client_done)
        }),
{
}

/// A failure while forwarding fails the connection at once with a copy
/// error, whatever the other direction has done; and what is reported
/// afterwards changes nothing.
pub proof fn first_copy_error_wins(s: ContextModel, later: EventModel, head: HeadModel)
    requires
        s.state is Forwarding,
    ensures
        s.next(EventModel::Failed, head).state == BridgeState::Failed(BridgeError::CopyError),
        s.next(EventModel::Failed, head).next(later, head) == s.next(EventModel::Failed, head),
{
}

/// A failure fails the connection from every state that is not final: as
/// a connect failure while the relay is being connected to, as a copy
/// error while forwarding, as an I/O failure otherwise.
pub proof fn failure_is_reachable_everywhere(s: ContextModel, head: HeadModel)
    requires
        !s.is_terminal(),
    ensures
        s.next(EventModel::Failed, head).state == BridgeState::Failed(s.failure()),
        s.failure() == BridgeError::ConnectFailure <==> s.state == BridgeState::Negotiating(
            Handshake::Connecting,
        ),
        s.failure() == BridgeError::CopyError <==> s.state is Forwarding,
{
}

/// The state of one bridged connection: what was read from the client,
/// the target that the request names, and how far the exchange has come.
pub struct HptsContext {
    state: BridgeState,
    buf: Vec<u8>,
    resend: bool,
    host: String,
    port: u16,
    ip: Option<IpLiteral>,
    command: Vec<u8>,
}

impl View for HptsContext {
    type V = ContextModel;

    closed spec fn view(&self) -> ContextModel {
        ContextModel {
            state: self.state,
            buffered: self.buf@,
            resend: self.resend,
            host: self.host@,
            port: self.port,
            ip: self.ip,
        }
    }
}

/// Copies bytes into a vector of their own.
fn copy_of(bytes: &[u8]) -> (out: Vec<u8>)
    ensures
        out@ == bytes@,
{
    let mut out: Vec<u8> = Vec::new();
    push_all(&mut out, bytes);
    assert(out@ =~= bytes@);
    out
}

/// Builds the response that tells the client that its tunnel stands.
pub fn tunnel_ready() -> (out: Vec<u8>)
    ensures
        out@ == tunnel_ready_bytes(),
{
    let text: [u8; 19] = [
        0x48, 0x54, 0x54, 0x50, 0x2f, 0x31, 0x2e, 0x31, 0x20, 0x32, 0x30, 0x30, 0x20, 0x4f, 0x4b,
        0x0d, 0x0a, 0x0d, 0x0a,
    ];
    assert(text@ =~= tunnel_ready_bytes());
    copy_of(text.as_slice())
}

impl HptsContext {
    /// The buffer never holds more than its capacity, and while the
    /// command is being written the stored command is the encoding of the
    /// target.
    #[verifier::type_invariant]
    spec fn well_formed(self) -> bool {
        &&& self.buf@.len() <= BUF_CAPACITY
        &&& self.state == BridgeState::Negotiating(Handshake::Command) ==> self.command@
            == command_bytes(self.ip, encode_utf8(self.host@), self.port)
    }

    /// The context of a connection that was just accepted: nothing is
    /// buffered, the read is awaited, and `resend` is set.
    pub fn new() -> (ctx: Self)
        ensures
            ctx@ == ContextModel::initial(),
    {
        HptsContext {
            state: BridgeState::Reading,
            buf: Vec::new(),
            resend: true,
            host: String::new(),
            port: 0,
            ip: None,
            command: Vec::new(),
        }
    }

    /// Where the connection stands.
    pub fn state(&self) -> (state: BridgeState)
        ensures
            state == self@.state,
    {
        self.state
    }

    /// The cursor: how many bytes are buffered.
    pub fn pos(&self) -> (pos: usize)
        ensures
            pos == self@.buffered.len(),
            pos <= BUF_CAPACITY,
    {
        proof {
            use_type_invariant(self);
        }
        self.buf.len()
    }

    /// The bytes buffered so far.
    pub fn buffered(&self) -> (bytes: &[u8])
        ensures
            bytes@ == self@.buffered,
    {
        self.buf.as_slice()
    }

    /// Whether the buffered request is to be passed on to the target.
    pub fn resend(&self) -> (resend: bool)
        ensures
            resend == self@.resend,
    {
        self.resend
    }

    /// The target host; empty until a request was parsed.
    pub fn host(&self) -> (host: &str)
        ensures
            host@ == self@.host,
    {
        self.host.as_str()
    }

    /// The target port; zero until a request was parsed.
    pub fn port(&self) -> (port: u16)
        ensures
            port == self@.port,
    {
        self.port
    }

    /// What the driver is to do next.
    pub fn action(&self) -> (action: Action)
        ensures
            action@ == self@.pending(),
    {
        proof {
            use_type_invariant(self);
        }
        match self.state {
            BridgeState::Reading => Action::ReadClient(BUF_CAPACITY - self.buf.len()),
            BridgeState::Parsed => Action::ClassifyHost(self.host.clone()),
            BridgeState::Negotiating(Handshake::Connecting) => Action::ConnectRelay,
            BridgeState::Negotiating(Handshake::Greeting) => Action::SendRelay(socks5_greeting()),
            BridgeState::Negotiating(Handshake::MethodReply) => Action::ReadRelay,
            BridgeState::Negotiating(Handshake::Command) => Action::SendRelay(
                copy_of(self.command.as_slice()),
            ),
            BridgeState::Negotiating(Handshake::CommandReply) => Action::ReadRelay,
            BridgeState::Negotiating(Handshake::FirstPayload) => if self.resend {
                Action::SendRelay(copy_of(self.buf.as_slice()))
            } else {
                Action::SendClient(tunnel_ready())
            },
            BridgeState::Forwarding { .. } => Action::Forward,
            BridgeState::Closed => Action::Close,
            BridgeState::Failed(e) => Action::Fail(e),
        }
    }

    /// Puts the bytes that were read behind those already buffered.
    fn buffer(&mut self, data: &[u8])
        requires
            old(self).state == BridgeState::Reading,
            old(self)@.buffered.len() + data@.len() <= BUF_CAPACITY,
        ensures
            final(self)@ == (ContextModel {
                buffered: old(self)@.buffered + data@,
                ..old(self)@
            }),
    {
        proof {
            use_type_invariant(&*self);
        }
        let mut joined = copy_of(self.buf.as_slice());
        push_all(&mut joined, data);
        self.buf = joined;
    }

    /// Records what the head of the buffered request leads to.
    fn settle(&mut self, head: &HeadParse)
        requires
            old(self).state == BridgeState::Reading,
        ensures
            final(self)@ == (match head_target(head@) {
                Ok(target) => ContextModel {
                    state: BridgeState::Parsed,
                    buffered: old(self)@.buffered,
                    resend: target.resend,
                    host: target.host,
                    port: target.port,
                    ip: old(self)@.ip,
                },
                Err(e) => old(self)@.at(BridgeState::Failed(e)),
            }),
    {
        proof {
            use_type_invariant(&*self);
        }
        match target_of_head(head) {
            Ok(target) => {
                self.resend = target.resend;
                self.host = target.host;
                self.port = target.port;
                self.state = BridgeState::Parsed;
            },
            Err(e) => {
                self.state = BridgeState::Failed(e);
            },
        }
    }

    /// Encodes the command for the recorded target, or fails.
    fn prepare_command(&mut self)
        requires
            old(self).state == BridgeState::Negotiating(Handshake::MethodReply),
        ensures
            final(self)@ == (if encodable(old(self)@.ip, old(self)@.host_bytes()) {
                old(self)@.at(BridgeState::Negotiating(Handshake::Command))
            } else {
                old(self)@.at(BridgeState::Failed(BridgeError::HostTooLong))
            }),
    {
        proof {
            use_type_invariant(&*self);
        }
        match build_socks5_cmd(self.host.as_str(), self.ip, self.port) {
            Ok(command) => {
                self.command = command;
                self.state = BridgeState::Negotiating(Handshake::Command);
            },
            Err(_) => {
                self.state = BridgeState::Failed(BridgeError::HostTooLong);
            },
        }
    }

    /// Moves on by an event other than the arrival of the client's bytes.
    fn advance(&mut self, event: &Event)
        requires
            !(old(self).state == BridgeState::Reading && event is ClientRead),
        ensures
            final(self)@ == old(self)@.next(event@, HeadModel::Partial),
    {
        proof {
            use_type_invariant(&*self);
        }
        match (self.state, event) {
            (BridgeState::Closed, _) => {},
            (BridgeState::Failed(_), _) => {},
            (BridgeState::Negotiating(Handshake::Connecting), Event::Failed) => {
                self.state = BridgeState::Failed(BridgeError::ConnectFailure);
            },
            (BridgeState::Forwarding { .. }, Event::Failed) => {
                self.state = BridgeState::Failed(BridgeError::CopyError);
            },
            (_, Event::Failed) => {
                self.state = BridgeState::Failed(BridgeError::Io);
            },
            (BridgeState::Parsed, Event::HostClassified(ip)) => {
                self.ip = *ip;
                self.state = BridgeState::Negotiating(Handshake::Connecting);
            },
            (BridgeState::Negotiating(Handshake::Connecting), Event::RelayConnected) => {
                self.state = BridgeState::Negotiating(Handshake::Greeting);
            },
            (BridgeState::Negotiating(Handshake::Greeting), Event::Sent) => {
                self.state = BridgeState::Negotiating(Handshake::MethodReply);
            },
            (BridgeState::Negotiating(Handshake::MethodReply), Event::RelayReplied) => {
                self.prepare_command();
            },
            (BridgeState::Negotiating(Handshake::Command), Event::Sent) => {
                self.state = BridgeState::Negotiating(Handshake::CommandReply);
            },
            (BridgeState::Negotiating(Handshake::CommandReply), Event::RelayReplied) => {
                self.state = BridgeState::Negotiating(Handshake::FirstPayload);
            },
            (BridgeState::Negotiating(Handshake::FirstPayload), Event::Sent) => {
                self.state = BridgeState::Forwarding { client_done: false, relay_done: false };
            },
            (BridgeState::Forwarding { client_done, relay_done }, Event::DirectionFinished(d)) => {
                let client_done = client_done || *d == Direction::ClientToRelay;
                let relay_done = relay_done || *d == Direction::RelayToClient;
                if client_done && relay_done {
                    self.state = BridgeState::Closed;
                } else {
                    self.state = BridgeState::Forwarding { client_done, relay_done };
                }
            },
            _ => {},
        }
    }

    /// Moves the connection on by `event`, with `head` standing for what
    /// parsing the buffered bytes gives.
    ///
    /// `head` is looked at only when the client's bytes arrive; at any
    /// other event it may be anything.
    pub fn step_with(&mut self, event: Event, head: &HeadParse)
        requires
            old(self)@.awaits_no_more_than_fits(event@),
        ensures
            final(self)@ == old(self)@.next(event@, head@),
    {
        proof {
            use_type_invariant(&*self);
        }
        match (self.state, &event) {
            (BridgeState::Reading, Event::ClientRead(data)) => {
                if data.len() == 0 {
                    self.state = BridgeState::Closed;
                } else {
                    self.buffer(data.as_slice());
                    self.settle(head);
                }
            },
            _ => {
                self.advance(&event);
            },
        }
    }

    /// Moves the connection on by `event`.
    ///
    /// When the client's bytes arrive they are buffered and everything
    /// buffered is parsed, once: whatever the parser makes of it decides.
    /// The bytes of the awaited read must fit the buffer, as they do when
    /// the driver read no more than it was asked to.
    pub fn step(&mut self, event: Event)
        requires
            old(self)@.awaits_no_more_than_fits(event@),
        ensures
            final(self)@ == old(self)@.next(event@, old(self)@.head_on(event@)),
    {
        proof {
            use_type_invariant(&*self);
        }
        match (self.state, &event) {
            (BridgeState::Reading, Event::ClientRead(data)) => {
                if data.len() == 0 {
                    self.state = BridgeState::Closed;
                } else {
                    self.buffer(data.as_slice());
                    let head = parse_head(self.buf.as_slice(), MAX_HEADERS);
                    self.settle(&head);
                }
            },
            _ => {
                self.advance(&event);
            },
        }
    }
}

} // verus!
