//! How a session is established: the decisions between the socket work.
//!
//! A driver opens sockets and runs handshakes; after each it reports what
//! happened, and the step function of its side says what to do next. Every
//! failure is final, as is an interrupt: nothing is retried, and once an
//! interrupt has been seen no later report can turn it into an error.

use vstd::prelude::*;
use tokio_rustls::rustls::Error;
use tokio_rustls::rustls::ServerName;
use crate::error::TunnelError;
use crate::trust::{Role, TrustConfig};

verus! {

/// `rustls::ServerName`, carried through as an opaque value.
#[verifier::external_type_specification]
#[verifier::external_body]
pub struct ExServerName(ServerName);

/// True where `ServerName::try_from` makes a server name of the host: where
/// the host is a DNS name or an IP address, as rustls reads them.
pub uninterp spec fn server_name_valid(host: Seq<char>) -> bool;

/// Calls `ServerName::try_from` on the host.
///
/// Not proved: that it yields a name exactly where `server_name_valid`
/// holds, which only gives the call's outcome a name. Nothing is claimed of
/// the name itself.
#[verifier::external_body]
fn parse_server_name(host: &str) -> (name: Option<ServerName>)
    ensures
        name is Some <==> server_name_valid(host@),
{
    ServerName::try_from(host).ok()
}

/// What a `rustls::Error` reports, as far as the tunnel treats TLS errors
/// differently.
enum TlsFault {
    /// `Error::InvalidCertificate`, whatever its reason.
    InvalidCertificate,
    /// `Error::NoCertificatesPresented`.
    NoCertificatesPresented,
    /// Any other variant.
    Protocol,
}

/// Tells the variants of a `rustls::Error` apart, as far as the tunnel
/// treats them differently. Nothing is claimed of the result.
#[verifier::external_body]
fn tls_fault(error: &Error) -> (kind: TlsFault) {
    match error {
        Error::InvalidCertificate(_) => TlsFault::InvalidCertificate,
        Error::NoCertificatesPresented => TlsFault::NoCertificatesPresented,
        _ => TlsFault::Protocol,
    }
}

/// Why a handshake did not complete.
#[derive(Clone, Copy, Debug, PartialEq, Eq, Structural)]
pub enum HandshakeFault {
    /// The peer's certificate did not pass verification: it chains to no
    /// trusted root, is not valid for the name asked for, is expired, or is
    /// otherwise unacceptable.
    InvalidCertificate,
    /// The peer presented no certificate at all.
    NoCertificatesPresented,
    /// Any other breach of the TLS protocol, an alert from the peer included.
    Protocol,
    /// The transport under the handshake failed or timed out.
    Transport,
}

impl HandshakeFault {
    /// True of the faults that TLS itself reports; false of the one fault of
    /// the transport under it.
    pub open spec fn reported_by_tls(self) -> bool {
        self != HandshakeFault::Transport
    }
}

/// The error a client reports for a handshake fault: a fault of the server's
/// certificate is `CertificateRejected`, anything else `HandshakeFailed`.
pub open spec fn client_handshake_error(fault: HandshakeFault) -> TunnelError {
    match fault {
        HandshakeFault::InvalidCertificate => TunnelError::CertificateRejected,
        HandshakeFault::NoCertificatesPresented => TunnelError::CertificateRejected,
        HandshakeFault::Protocol => TunnelError::HandshakeFailed,
        HandshakeFault::Transport => TunnelError::HandshakeFailed,
    }
}

/// Where a client stands on its way to a session.
#[derive(Clone, Copy, Debug, PartialEq, Eq, Structural)]
pub enum ConnectState {
    /// The TCP connection is being opened.
    Connecting,
    /// The socket is open and the TLS handshake is running.
    Handshaking,
    /// The session is established.
    Established,
    /// The attempt ended with this error.
    Failed(TunnelError),
    /// An interrupt ended the attempt.
    Cancelled,
}

/// What the driver of a client reports.
#[derive(Clone, Copy, Debug, PartialEq, Eq, Structural)]
pub enum ConnectEvent {
    /// The TCP connection is open.
    SocketOpened,
    /// The TCP connection could not be opened; a host that does not resolve
    /// counts.
    SocketFailed,
    /// The TLS handshake completed.
    HandshakeCompleted,
    /// The TLS handshake broke down.
    HandshakeFailed(HandshakeFault),
    /// The process was interrupted.
    Interrupted,
}

/// What the driver of a client is to do next.
pub enum ConnectAction {
    /// Open a TCP connection to the host and port.
    OpenSocket,
    /// Run the TLS client handshake on the open socket, checking the
    /// server's certificate against this name.
    StartHandshake(ServerName),
    /// Hand the established session to the pump.
    Ready,
    /// Close what is open and report this error.
    Report(TunnelError),
    /// Drop what is open and leave without reporting an error.
    Abort,
    /// Nothing: the report changed nothing.
    Wait,
}

impl ConnectState {
    /// True once the attempt is over, one way or another.
    pub open spec fn settled(self) -> bool {
        self != ConnectState::Connecting && self != ConnectState::Handshaking
    }
}

/// The state after a report. `named` says whether the host is a server
/// name, which counts when the socket has just opened: if it is none the
/// attempt fails with `InvalidServerName` before any handshake is tried.
pub open spec fn connect_next(
    state: ConnectState,
    event: ConnectEvent,
    named: bool,
) -> ConnectState {
    match state {
        ConnectState::Connecting => match event {
            ConnectEvent::Interrupted => ConnectState::Cancelled,
            ConnectEvent::SocketFailed => ConnectState::Failed(TunnelError::ConnectFailed),
            ConnectEvent::SocketOpened => if named {
                ConnectState::Handshaking
            } else {
                ConnectState::Failed(TunnelError::InvalidServerName)
            },
            _ => state,
        },
        ConnectState::Handshaking => match event {
            ConnectEvent::Interrupted => ConnectState::Cancelled,
            ConnectEvent::HandshakeCompleted => ConnectState::Established,
            ConnectEvent::HandshakeFailed(fault) => ConnectState::Failed(
                client_handshake_error(fault),
            ),
            _ => state,
        },
        _ => state,
    }
}

/// True when `action` is what the driver is told after a report that led
/// from `state` to `next`. The state decides the action but for the server
/// name that goes with the start of the handshake.
pub open spec fn connect_action_fits(
    state: ConnectState,
    next: ConnectState,
    action: ConnectAction,
) -> bool {
    if next == state {
        action is Wait
    } else {
        match next {
            ConnectState::Connecting => action is Wait,
            ConnectState::Handshaking => action is StartHandshake,
            ConnectState::Established => action is Ready,
            ConnectState::Failed(error) => action == ConnectAction::Report(error),
            ConnectState::Cancelled => action is Abort,
        }
    }
}

/// Starts a client's attempt: the first thing to do is to open the socket.
pub fn connect(trust: &TrustConfig) -> (start: (ConnectState, ConnectAction))
    requires
        trust.spec_role() == Role::Client,
    ensures
        start.0 == ConnectState::Connecting,
        start.1 == ConnectAction::OpenSocket,
{
    (ConnectState::Connecting, ConnectAction::OpenSocket)
}

/// Takes one report of a client's driver and decides what follows.
///
/// The host is checked as a server name when the socket has opened, not
/// before; the name made of a host that passes is handed out with the start
/// of the handshake.
pub fn connect_step(state: ConnectState, event: ConnectEvent, host: &str) -> (step: (
    ConnectState,
    ConnectAction,
))
    ensures
        step.0 == connect_next(state, event, server_name_valid(host@)),
        connect_action_fits(state, step.0, step.1),
{
    match state {
        ConnectState::Connecting => match event {
            ConnectEvent::Interrupted => (ConnectState::Cancelled, ConnectAction::Abort),
            ConnectEvent::SocketFailed => (
                ConnectState::Failed(TunnelError::ConnectFailed),
                ConnectAction::Report(TunnelError::ConnectFailed),
            ),
            ConnectEvent::SocketOpened => match parse_server_name(host) {
                Some(name) => (ConnectState::Handshaking, ConnectAction::StartHandshake(name)),
                None => (
                    ConnectState::Failed(TunnelError::InvalidServerName),
                    ConnectAction::Report(TunnelError::InvalidServerName),
                ),
            },
            _ => (state, ConnectAction::Wait),
        },
        ConnectState::Handshaking => match event {
            ConnectEvent::Interrupted => (ConnectState::Cancelled, ConnectAction::Abort),
            ConnectEvent::HandshakeCompleted => (ConnectState::Established, ConnectAction::Ready),
            ConnectEvent::HandshakeFailed(fault) => {
                let error = client_error_for(fault);
                (ConnectState::Failed(error), ConnectAction::Report(error))
            },
            _ => (state, ConnectAction::Wait),
        },
        _ => (state, ConnectAction::Wait),
    }
}

/// The error a client reports for a handshake fault.
pub fn client_error_for(fault: HandshakeFault) -> (error: TunnelError)
    ensures
        error == client_handshake_error(fault),
{
    match fault {
        HandshakeFault::InvalidCertificate => TunnelError::CertificateRejected,
        HandshakeFault::NoCertificatesPresented => TunnelError::CertificateRejected,
        HandshakeFault::Protocol => TunnelError::HandshakeFailed,
        HandshakeFault::Transport => TunnelError::HandshakeFailed,
    }
}

/// Names the fault behind a failed handshake, given the TLS error that the
/// failure carried, if it carried one. A failure without a TLS error is the
/// transport's, and no other is: a failure with a TLS error is named after
/// what that error reports.
pub fn handshake_fault(error: Option<&Error>) -> (fault: HandshakeFault)
    ensures
        error is None ==> fault == HandshakeFault::Transport,
        error is Some ==> fault.reported_by_tls(),
{
    match error {
        Some(tls) => match tls_fault(tls) {
            TlsFault::InvalidCertificate => HandshakeFault::InvalidCertificate,
            TlsFault::NoCertificatesPresented => HandshakeFault::NoCertificatesPresented,
            TlsFault::Protocol => HandshakeFault::Protocol,
        },
        None => HandshakeFault::Transport,
    }
}

/// Where a server stands on its way to a session.
#[derive(Clone, Copy, Debug, PartialEq, Eq, Structural)]
pub enum ListenState {
    /// The listening socket is being bound.
    Binding,
    /// The listener is bound and waits for its one connection.
    Accepting,
    /// A connection is accepted and the TLS handshake is running.
    Handshaking,
    /// The session is established.
    Established,
    /// The attempt ended with this error.
    Failed(TunnelError),
    /// An interrupt ended the attempt.
    Cancelled,
}

/// What the driver of a server reports.
#[derive(Clone, Copy, Debug, PartialEq, Eq, Structural)]
pub enum ListenEvent {
    /// The listener is bound.
    Bound,
    /// The listener could not be bound.
    BindFailed,
    /// An inbound connection was accepted.
    Accepted,
    /// Accepting a connection failed.
    AcceptFailed,
    /// The TLS handshake completed.
    HandshakeCompleted,
    /// The TLS handshake broke down.
    HandshakeFailed(HandshakeFault),
    /// The process was interrupted.
    Interrupted,
}

/// What the driver of a server is to do next.
#[derive(Clone, Copy, Debug, PartialEq, Eq, Structural)]
pub enum ListenAction {
    /// Bind the listener to the host and port.
    Bind,
    /// Accept one inbound connection.
    Accept,
    /// Stop listening and run the TLS server handshake on the accepted
    /// socket, presenting the bound identity.
    StartHandshake,
    /// Hand the established session to the pump.
    Ready,
    /// Close what is open and report this error.
    Report(TunnelError),
    /// Drop what is open and leave without reporting an error.
    Abort,
    /// Nothing: the report changed nothing.
    Wait,
}

impl ListenState {
    /// True once the attempt is over, one way or another.
    pub open spec fn settled(self) -> bool {
        self != ListenState::Binding && self != ListenState::Accepting && self
            != ListenState::Handshaking
    }
}

/// The state after a report. Only the first accepted connection counts:
/// once the handshake runs, a further `Accepted` changes nothing. Whatever
/// breaks a server's handshake, the error is `HandshakeFailed`.
pub open spec fn listen_next(state: ListenState, event: ListenEvent) -> ListenState {
    match state {
        ListenState::Binding => match event {
            ListenEvent::Interrupted => ListenState::Cancelled,
            ListenEvent::BindFailed => ListenState::Failed(TunnelError::BindFailed),
            ListenEvent::Bound => ListenState::Accepting,
            _ => state,
        },
        ListenState::Accepting => match event {
            ListenEvent::Interrupted => ListenState::Cancelled,
            ListenEvent::AcceptFailed => ListenState::Failed(TunnelError::AcceptFailed),
            ListenEvent::Accepted => ListenState::Handshaking,
            _ => state,
        },
        ListenState::Handshaking => match event {
            ListenEvent::Interrupted => ListenState::Cancelled,
            ListenEvent::HandshakeCompleted => ListenState::Established,
            ListenEvent::HandshakeFailed(_) => ListenState::Failed(TunnelError::HandshakeFailed),
            _ => state,
        },
        _ => state,
    }
}

/// What the driver is told after a report that led from `state` to `next`.
pub open spec fn listen_action(state: ListenState, next: ListenState) -> ListenAction {
    if next == state {
        ListenAction::Wait
    } else {
        match next {
            ListenState::Binding => ListenAction::Wait,
            ListenState::Accepting => ListenAction::Accept,
            ListenState::Handshaking => ListenAction::StartHandshake,
            ListenState::Established => ListenAction::Ready,
            ListenState::Failed(error) => ListenAction::Report(error),
            ListenState::Cancelled => ListenAction::Abort,
        }
    }
}

/// Starts a server's attempt: the first thing to do is to bind the listener.
pub fn listen_and_accept(trust: &TrustConfig) -> (start: (ListenState, ListenAction))
    requires
        trust.spec_role() == Role::Server,
    ensures
        start == (ListenState::Binding, ListenAction::Bind),
{
    (ListenState::Binding, ListenAction::Bind)
}

/// Takes one report of a server's driver and decides what follows.
pub fn listen_step(state: ListenState, event: ListenEvent) -> (step: (ListenState, ListenAction))
    ensures
        step.0 == listen_next(state, event),
        step.1 == listen_action(state, step.0),
{
    match state {
        ListenState::Binding => match event {
            ListenEvent::Interrupted => (ListenState::Cancelled, ListenAction::Abort),
            ListenEvent::BindFailed => (
                ListenState::Failed(TunnelError::BindFailed),
                ListenAction::Report(TunnelError::BindFailed),
            ),
            ListenEvent::Bound => (ListenState::Accepting, ListenAction::Accept),
            _ => (state, ListenAction::Wait),
        },
        ListenState::Accepting => match event {
            ListenEvent::Interrupted => (ListenState::Cancelled, ListenAction::Abort),
            ListenEvent::AcceptFailed => (
                ListenState::Failed(TunnelError::AcceptFailed),
                ListenAction::Report(TunnelError::AcceptFailed),
            ),
            ListenEvent::Accepted => (ListenState::Handshaking, ListenAction::StartHandshake),
            _ => (state, ListenAction::Wait),
        },
        ListenState::Handshaking => match event {
            ListenEvent::Interrupted => (ListenState::Cancelled, ListenAction::Abort),
            ListenEvent::HandshakeCompleted => (ListenState::Established, ListenAction::Ready),
            ListenEvent::HandshakeFailed(_) => (
                ListenState::Failed(TunnelError::HandshakeFailed),
                ListenAction::Report(TunnelError::HandshakeFailed),
            ),
            _ => (state, ListenAction::Wait),
        },
        _ => (state, ListenAction::Wait),
    }
}

/// The state a client reaches from `state` through a sequence of reports.
pub open spec fn connect_run(
    state: ConnectState,
    events: Seq<ConnectEvent>,
    named: bool,
) -> ConnectState
    decreases events.len(),
{
    if events.len() == 0 {
        state
    } else {
        connect_run(connect_next(state, events[0], named), events.drop_first(), named)
    }
}

/// The state a server reaches from `state` through a sequence of reports.
pub open spec fn listen_run(state: ListenState, events: Seq<ListenEvent>) -> ListenState
    decreases events.len(),
{
    if events.len() == 0 {
        state
    } else {
        listen_run(listen_next(state, events[0]), events.drop_first())
    }
}

/// What can be true of a client's state on the way from `Connecting`: the
/// handshake is reached only under a valid server name, and a failure is one
/// of the four errors of the client side, `InvalidServerName` only where
/// the host is no server name.
pub open spec fn connect_possible(state: ConnectState, named: bool) -> bool {
    match state {
        ConnectState::Connecting => true,
        ConnectState::Handshaking => named,
        ConnectState::Established => named,
        ConnectState::Cancelled => true,
        ConnectState::Failed(error) => {
            ||| error == TunnelError::ConnectFailed
            ||| error == TunnelError::InvalidServerName && !named
            ||| (error == TunnelError::HandshakeFailed || error == TunnelError::CertificateRejected)
                && named
        },
    }
}

/// What can be true of a server's state on the way from `Binding`: a
/// failure is one of the three errors of the server side.
pub open spec fn listen_possible(state: ListenState) -> bool {
    state matches ListenState::Failed(error) ==> error == TunnelError::BindFailed || error
        == TunnelError::AcceptFailed || error == TunnelError::HandshakeFailed
}

/// A run over two sequences of reports, one after the other, is the run
/// over the second from where the first ended.
pub proof fn lemma_connect_run_split(
    state: ConnectState,
    first: Seq<ConnectEvent>,
    second: Seq<ConnectEvent>,
    named: bool,
)
    ensures
        connect_run(state, first + second, named) == connect_run(
            connect_run(state, first, named),
            second,
            named,
        ),
    decreases first.len(),
{
    if first.len() == 0 {
        assert(first + second == second);
    } else {
        assert((first + second)[0] == first[0]);
        assert((first + second).drop_first() == first.drop_first() + second);
        lemma_connect_run_split(
            connect_next(state, first[0], named),
            first.drop_first(),
            second,
            named,
        );
    }
}

/// A run over two sequences of reports, one after the other, is the run
/// over the second from where the first ended.
pub proof fn lemma_listen_run_split(
    state: ListenState,
    first: Seq<ListenEvent>,
    second: Seq<ListenEvent>,
)
    ensures
        listen_run(state, first + second) == listen_run(listen_run(state, first), second),
    decreases first.len(),
{
    if first.len() == 0 {
        assert(first + second == second);
    } else {
        assert((first + second)[0] == first[0]);
        assert((first + second).drop_first() == first.drop_first() + second);
        lemma_listen_run_split(listen_next(state, first[0]), first.drop_first(), second);
    }
}

/// Every outcome of a client is final: once the attempt has settled, no
/// report changes the state. Nothing is retried.
pub proof fn lemma_connect_settled_is_final(
    state: ConnectState,
    events: Seq<ConnectEvent>,
    named: bool,
)
    requires
        state.settled(),
    ensures
        connect_run(state, events, named) == state,
    decreases events.len(),
{
    if events.len() > 0 {
        lemma_connect_settled_is_final(state, events.drop_first(), named);
    }
}

/// Every outcome of a server is final: once the attempt has settled, no
/// report changes the state. Nothing is retried.
pub proof fn lemma_listen_settled_is_final(state: ListenState, events: Seq<ListenEvent>)
    requires
        state.settled(),
    ensures
        listen_run(state, events) == state,
    decreases events.len(),
{
    if events.len() > 0 {
        lemma_listen_settled_is_final(state, events.drop_first());
    }
}

/// Cancellation wins the race on the client side: an interrupt that arrives
/// while the attempt is still open ends it as `Cancelled`, and whatever is
/// reported afterwards, a failed handshake included, no error comes of it.
pub proof fn lemma_connect_interrupt_wins(
    start: ConnectState,
    before: Seq<ConnectEvent>,
    after: Seq<ConnectEvent>,
    named: bool,
)
    requires
        !connect_run(start, before, named).settled(),
    ensures
        connect_run(start, before + seq![ConnectEvent::Interrupted] + after, named)
            == ConnectState::Cancelled,
{
    let reached = connect_run(start, before, named);
    let interrupt = seq![ConnectEvent::Interrupted];
    lemma_connect_run_split(start, before + interrupt, after, named);
    lemma_connect_run_split(start, before, interrupt, named);
    assert(interrupt.drop_first() == Seq::<ConnectEvent>::empty());
    assert(connect_run(reached, interrupt, named) == connect_run(
        connect_next(reached, ConnectEvent::Interrupted, named),
        interrupt.drop_first(),
        named,
    ));
    lemma_connect_settled_is_final(ConnectState::Cancelled, after, named);
}

/// Cancellation wins the race on the server side: an interrupt that arrives
/// while the attempt is still open ends it as `Cancelled`, and whatever is
/// reported afterwards, no error comes of it.
pub proof fn lemma_listen_interrupt_wins(
    start: ListenState,
    before: Seq<ListenEvent>,
    after: Seq<ListenEvent>,
)
    requires
        !listen_run(start, before).settled(),
    ensures
        listen_run(start, before + seq![ListenEvent::Interrupted] + after)
            == ListenState::Cancelled,
{
    let reached = listen_run(start, before);
    let interrupt = seq![ListenEvent::Interrupted];
    lemma_listen_run_split(start, before + interrupt, after);
    lemma_listen_run_split(start, before, interrupt);
    assert(interrupt.drop_first() == Seq::<ListenEvent>::empty());
    assert(listen_run(reached, interrupt) == listen_run(
        listen_next(reached, ListenEvent::Interrupted),
        interrupt.drop_first(),
    ));
    lemma_listen_settled_is_final(ListenState::Cancelled, after);
}

/// Whatever is reported to a client, the state it reaches from `Connecting`
/// is a possible one: a session is established only under a valid server
/// name, and a failure carries an error of the client side.
pub proof fn lemma_connect_outcomes(
    state: ConnectState,
    events: Seq<ConnectEvent>,
    named: bool,
)
    requires
        connect_possible(state, named),
    ensures
        connect_possible(connect_run(state, events, named), named),
    decreases events.len(),
{
    if events.len() > 0 {
        lemma_connect_outcomes(connect_next(state, events[0], named), events.drop_first(), named);
    }
}

/// Whatever is reported to a server, a failure it reaches from `Binding`
/// carries an error of the server side.
pub proof fn lemma_listen_outcomes(state: ListenState, events: Seq<ListenEvent>)
    requires
        listen_possible(state),
    ensures
        listen_possible(listen_run(state, events)),
    decreases events.len(),
{
    if events.len() > 0 {
        lemma_listen_outcomes(listen_next(state, events[0]), events.drop_first());
    }
}

} // verus!
