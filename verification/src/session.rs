//! The order of steps of a session, as decisions: what to do next, given
//! what has just happened.  The program around this library performs each
//! step on its sockets and reports the outcome as the next event.

use crate::error::RelayError;
use vstd::prelude::*;

verus! {

/// Method byte of "no authentication required".
pub const METHOD_NONE: u8 = 0x00;

/// Method byte of "no acceptable methods".
pub const METHOD_UNACCEPTABLE: u8 = 0xff;

/// What a SOCKS5 request asks for.
#[derive(Clone, Copy, Debug, PartialEq, Eq, Structural)]
pub enum Command {
    Connect,
    Bind,
    Associate,
}

/// The answer to a SOCKS5 request.
#[derive(Clone, Copy, Debug, PartialEq, Eq, Structural)]
pub enum Reply {
    Succeeded,
    GeneralFailure,
    ConnectionNotAllowed,
    NetworkUnreachable,
    HostUnreachable,
    ConnectionRefused,
    TtlExpired,
    CommandNotSupported,
    AddressTypeNotSupported,
}

/// How a task of a session ended.
#[derive(Clone, Copy, Debug, PartialEq, Eq, Structural)]
pub enum TaskEnd {
    /// It returned without error.
    Finished,
    /// Its stream ended where more was expected.
    EndOfStream,
    /// It met any other error.
    Failed,
}

/// How loud the end of a session is reported.
#[derive(Clone, Copy, Debug, PartialEq, Eq, Structural)]
pub enum Severity {
    Quiet,
    Info,
    Error,
}

/// Why opening a connection through the downstream proxy failed.
#[derive(Clone, Copy, Debug, PartialEq, Eq, Structural)]
pub enum DialError {
    /// The proxy could not be reached, or an exchange with it broke.
    Unreachable,
    /// The proxy chose another method than "no authentication".
    AuthUnsupported,
    /// The proxy answered the CONNECT with this reply.
    Refused(Reply),
}

/// The method that answers a client's offer: "no authentication" if the
/// client offers it, else "no acceptable methods".
pub open spec fn method_for(offered: Seq<u8>) -> u8 {
    if offered.contains(METHOD_NONE) {
        METHOD_NONE
    } else {
        METHOD_UNACCEPTABLE
    }
}

/// Chooses the method that answers a client's offer.
pub fn select_method(offered: &[u8]) -> (method: u8)
    ensures
        method == method_for(offered@),
{
    let mut i: usize = 0;
    while i < offered.len()
        invariant
            i <= offered.len(),
            forall|k: int| 0 <= k < i ==> offered@[k] != METHOD_NONE,
        decreases offered.len() - i,
    {
        if offered[i] == METHOD_NONE {
            return METHOD_NONE;
        }
        i += 1;
    }
    METHOD_UNACCEPTABLE
}

/// The reply that tells the client of a failed dial: a refusal by the
/// proxy is passed on as a refused connection, anything else is a general
/// failure.
pub open spec fn reply_for(error: DialError) -> Reply {
    match error {
        DialError::Refused(_) => Reply::ConnectionRefused,
        _ => Reply::GeneralFailure,
    }
}

/// How a pump's own error counts as the end of its task: a datagram that
/// ends too early is an end of stream, anything else a failure.
pub open spec fn task_end_of(error: RelayError) -> TaskEnd {
    match error {
        RelayError::Truncated => TaskEnd::EndOfStream,
        _ => TaskEnd::Failed,
    }
}

/// Says how a pump's own error counts as the end of its task.
pub fn classify(error: RelayError) -> (end: TaskEnd)
    ensures
        end == task_end_of(error),
{
    match error {
        RelayError::Truncated => TaskEnd::EndOfStream,
        _ => TaskEnd::Failed,
    }
}

/// How loud the front agent reports the end of an association: a clean end
/// is not reported, an end of stream is noted, any other error is an error.
pub open spec fn front_severity(end: TaskEnd) -> Severity {
    match end {
        TaskEnd::Finished => Severity::Quiet,
        TaskEnd::EndOfStream => Severity::Info,
        TaskEnd::Failed => Severity::Error,
    }
}

/// How loud the back agent reports the end of a tunnel: only an error that
/// is no end of stream is reported.
pub open spec fn back_severity(end: TaskEnd) -> Severity {
    match end {
        TaskEnd::Failed => Severity::Error,
        _ => Severity::Quiet,
    }
}

/// Chooses the reply that tells the client of a failed dial.
pub fn failure_reply(error: DialError) -> (reply: Reply)
    ensures
        reply == reply_for(error),
{
    match error {
        DialError::Refused(_) => Reply::ConnectionRefused,
        _ => Reply::GeneralFailure,
    }
}

/// Says how loud the front agent reports the end of an association.
pub fn front_report(end: TaskEnd) -> (severity: Severity)
    ensures
        severity == front_severity(end),
{
    match end {
        TaskEnd::Finished => Severity::Quiet,
        TaskEnd::EndOfStream => Severity::Info,
        TaskEnd::Failed => Severity::Error,
    }
}

/// Says how loud the back agent reports the end of a tunnel.
pub fn back_report(end: TaskEnd) -> (severity: Severity)
    ensures
        severity == back_severity(end),
{
    match end {
        TaskEnd::Failed => Severity::Error,
        _ => Severity::Quiet,
    }
}

/// Where the opening of a connection through the downstream proxy stands.
#[derive(Clone, Copy, Debug, PartialEq, Eq, Structural)]
pub enum DialStage {
    /// The TCP connection to the proxy is being opened.
    Connecting,
    /// The offer of methods is sent; the proxy's choice is awaited.
    Greeting,
    /// The CONNECT is sent; the proxy's reply is awaited.
    Requesting,
    /// The proxy granted the CONNECT: the stream is the caller's.
    Established,
    /// The dial failed.
    Failed(DialError),
}

/// What happened while dialing.
#[derive(Clone, Copy, Debug, PartialEq, Eq, Structural)]
pub enum DialEvent {
    /// The TCP connection to the proxy is open.
    Connected,
    /// The proxy chose this method.
    Method(u8),
    /// The proxy answered the CONNECT with this reply.
    Replied(Reply),
    /// The proxy could not be reached, or a read or write failed.
    Broken,
}

/// What to do next while dialing.
#[derive(Clone, Copy, Debug, PartialEq, Eq, Structural)]
pub enum DialAction {
    /// Offer the one method "no authentication" and read the proxy's choice.
    Greet,
    /// Send a CONNECT for the target and read the proxy's reply.
    Request,
    /// Hand the stream over, with the address of the proxy's reply.
    Finish,
    /// Give up with this error.
    Abort(DialError),
}

/// One step of a dial.  The proxy must choose "no authentication" and must
/// grant the CONNECT; an event that the stage does not wait for ends the
/// dial like a broken exchange.
pub open spec fn dial_step(stage: DialStage, event: DialEvent) -> (DialStage, DialAction) {
    match stage {
        DialStage::Established => (DialStage::Established, DialAction::Finish),
        DialStage::Failed(error) => (DialStage::Failed(error), DialAction::Abort(error)),
        DialStage::Connecting => match event {
            DialEvent::Connected => (DialStage::Greeting, DialAction::Greet),
            _ => dial_failure(DialError::Unreachable),
        },
        DialStage::Greeting => match event {
            DialEvent::Method(method) => if method == METHOD_NONE {
                (DialStage::Requesting, DialAction::Request)
            } else {
                dial_failure(DialError::AuthUnsupported)
            },
            _ => dial_failure(DialError::Unreachable),
        },
        DialStage::Requesting => match event {
            DialEvent::Replied(reply) => if reply == Reply::Succeeded {
                (DialStage::Established, DialAction::Finish)
            } else {
                dial_failure(DialError::Refused(reply))
            },
            _ => dial_failure(DialError::Unreachable),
        },
    }
}

/// The end of a dial that failed with `error`.
pub open spec fn dial_failure(error: DialError) -> (DialStage, DialAction) {
    (DialStage::Failed(error), DialAction::Abort(error))
}

/// The opening of one connection through the downstream proxy.
#[derive(Debug)]
pub struct Dial {
    stage: DialStage,
}

impl View for Dial {
    type V = DialStage;

    closed spec fn view(&self) -> DialStage {
        self.stage
    }
}

impl Dial {
    /// A dial at its start: the TCP connection is to be opened.
    pub fn new() -> (dial: Dial)
        ensures
            dial@ == DialStage::Connecting,
    {
        Dial { stage: DialStage::Connecting }
    }

    /// Where the dial stands.
    pub fn stage(&self) -> (stage: DialStage)
        ensures
            stage == self@,
    {
        self.stage
    }

    /// The methods that a dial offers to the proxy: "no authentication" alone.
    pub fn offer() -> (methods: Vec<u8>)
        ensures
            methods@ == seq![METHOD_NONE],
    {
        let mut methods: Vec<u8> = Vec::new();
        methods.push(METHOD_NONE);
        assert(methods@ =~= seq![METHOD_NONE]);
        methods
    }

    /// Takes what happened and says what to do next.
    pub fn step(&mut self, event: DialEvent) -> (action: DialAction)
        ensures
            (final(self)@, action) == dial_step(old(self)@, event),
    {
        let (stage, action) = match self.stage {
            DialStage::Established => (DialStage::Established, DialAction::Finish),
            DialStage::Failed(error) => (DialStage::Failed(error), DialAction::Abort(error)),
            DialStage::Connecting => match event {
                DialEvent::Connected => (DialStage::Greeting, DialAction::Greet),
                _ => Self::failure(DialError::Unreachable),
            },
            DialStage::Greeting => match event {
                DialEvent::Method(method) => if method == METHOD_NONE {
                    (DialStage::Requesting, DialAction::Request)
                } else {
                    Self::failure(DialError::AuthUnsupported)
                },
                _ => Self::failure(DialError::Unreachable),
            },
            DialStage::Requesting => match event {
                DialEvent::Replied(reply) => match reply {
                    Reply::Succeeded => (DialStage::Established, DialAction::Finish),
                    _ => Self::failure(DialError::Refused(reply)),
                },
                _ => Self::failure(DialError::Unreachable),
            },
        };
        self.stage = stage;
        action
    }

    fn failure(error: DialError) -> (end: (DialStage, DialAction))
        ensures
            end == dial_failure(error),
    {
        (DialStage::Failed(error), DialAction::Abort(error))
    }
}

/// How a session ended.
#[derive(Clone, Copy, Debug, PartialEq, Eq, Structural)]
pub enum Ending {
    /// All that the client asked for was done, or answered.
    Completed,
    /// The client's request could not be read.
    BadRequest,
    /// The downstream proxy could not be dialed.
    Dial(DialError),
    /// A read or write failed, or no socket could be had.
    Broken,
}

/// Where a session of the front agent stands.
#[derive(Clone, Copy, Debug, PartialEq, Eq, Structural)]
pub enum Stage {
    /// The client's offer of methods is awaited.
    Negotiating,
    /// "No authentication" is agreed; the client's request is awaited.
    Negotiated,
    /// The client offered no acceptable method.  Final.
    Rejected,
    /// A CONNECT was read: the downstream proxy is dialed for its target.
    Connecting,
    /// The CONNECT is granted: bytes are copied both ways.
    Piping,
    /// An ASSOCIATE was read: the downstream proxy is dialed for the tunnel.
    Associating,
    /// The tunnel is open: a UDP socket is being bound.
    Allocating,
    /// The ASSOCIATE is granted: the watchdog and the two pumps race.
    Relaying,
    /// The session is over.  Final.
    Closed(Ending),
}

/// What happened in a session of the front agent.
#[derive(Debug, PartialEq, Eq)]
pub enum Event {
    /// The client offered these methods.
    Handshake(Vec<u8>),
    /// The client sent a request with this command.
    Request(Command),
    /// The client's request could not be read.
    BadRequest,
    /// The downstream proxy granted the CONNECT.
    Dialed,
    /// The downstream proxy could not be dialed.
    DialFailed(DialError),
    /// The UDP socket is bound.
    Bound,
    /// The copying, or the first task of the race, ended.
    Ended(TaskEnd),
    /// A read or write on the client's connection failed, or no socket
    /// could be had.
    Broken,
}

/// What a session of the front agent does next.
#[derive(Clone, Copy, Debug, PartialEq, Eq, Structural)]
pub enum Action {
    /// Answer "no authentication", then read the request.
    AcceptMethod,
    /// Answer "no acceptable methods", then close the connection.
    RejectMethods,
    /// Dial the downstream proxy for the address of the request.
    DialTarget,
    /// Dial the downstream proxy for the tunnel's far end.
    DialTunnel,
    /// Bind the UDP socket of the association.
    BindSocket,
    /// Reply success with the address that the proxy reported, then copy
    /// bytes both ways until either side ends.
    GrantConnect,
    /// Reply success with the address of the UDP socket, then run the
    /// watchdog and the two pumps until the first of them ends.
    GrantAssociate,
    /// Reply with this failure and no address.  With `shutdown`, shut the
    /// connection down at once; without, it closes when the session is
    /// released.
    Refuse { reply: Reply, shutdown: bool },
    /// Release what the session holds; report its end this loud.
    Finish(Severity),
}

/// The end of a session without a word to the client.
pub open spec fn front_close(ending: Ending, severity: Severity) -> (Stage, Action) {
    (Stage::Closed(ending), Action::Finish(severity))
}

/// One step of a session of the front agent.
pub open spec fn front_step(stage: Stage, event: Event) -> (Stage, Action) {
    match stage {
        Stage::Rejected => (Stage::Rejected, Action::Finish(Severity::Quiet)),
        Stage::Closed(ending) => front_close(ending, Severity::Quiet),
        Stage::Negotiating => match event {
            Event::Handshake(offered) => if method_for(offered@) == METHOD_NONE {
                (Stage::Negotiated, Action::AcceptMethod)
            } else {
                (Stage::Rejected, Action::RejectMethods)
            },
            _ => front_close(Ending::Broken, Severity::Quiet),
        },
        Stage::Negotiated => match event {
            Event::Request(Command::Connect) => (Stage::Connecting, Action::DialTarget),
            Event::Request(Command::Associate) => (Stage::Associating, Action::DialTunnel),
            Event::Request(Command::Bind) => (
                Stage::Closed(Ending::Completed),
                Action::Refuse { reply: Reply::CommandNotSupported, shutdown: false },
            ),
            Event::BadRequest => (
                Stage::Closed(Ending::BadRequest),
                Action::Refuse { reply: Reply::GeneralFailure, shutdown: true },
            ),
            _ => front_close(Ending::Broken, Severity::Quiet),
        },
        Stage::Connecting => match event {
            Event::Dialed => (Stage::Piping, Action::GrantConnect),
            Event::DialFailed(error) => (
                Stage::Closed(Ending::Dial(error)),
                Action::Refuse { reply: reply_for(error), shutdown: false },
            ),
            _ => front_close(Ending::Broken, Severity::Quiet),
        },
        Stage::Piping => match event {
            Event::Ended(TaskEnd::Finished) => front_close(Ending::Completed, Severity::Quiet),
            _ => front_close(Ending::Broken, Severity::Quiet),
        },
        Stage::Associating => match event {
            Event::Dialed => (Stage::Allocating, Action::BindSocket),
            Event::DialFailed(error) => (
                Stage::Closed(Ending::Dial(error)),
                Action::Refuse { reply: reply_for(error), shutdown: false },
            ),
            _ => front_close(Ending::Broken, Severity::Quiet),
        },
        Stage::Allocating => match event {
            Event::Bound => (Stage::Relaying, Action::GrantAssociate),
            _ => front_close(Ending::Broken, Severity::Quiet),
        },
        Stage::Relaying => match event {
            Event::Ended(end) => front_close(Ending::Completed, front_severity(end)),
            _ => front_close(Ending::Broken, Severity::Quiet),
        },
    }
}

/// One session of the front agent: one client connection, from its
/// handshake to its end.
#[derive(Debug)]
pub struct Session {
    stage: Stage,
}

impl View for Session {
    type V = Stage;

    closed spec fn view(&self) -> Stage {
        self.stage
    }
}

impl Session {
    /// A session at its start: the client's offer of methods is awaited.
    pub fn new() -> (session: Session)
        ensures
            session@ == Stage::Negotiating,
    {
        Session { stage: Stage::Negotiating }
    }

    /// Where the session stands.
    pub fn stage(&self) -> (stage: Stage)
        ensures
            stage == self@,
    {
        self.stage
    }

    /// Whether the session is over.
    pub fn is_over(&self) -> (over: bool)
        ensures
            over == (self@ is Rejected || self@ is Closed),
    {
        match self.stage {
            Stage::Rejected => true,
            Stage::Closed(_) => true,
            _ => false,
        }
    }

    /// Takes what happened and says what to do next.
    pub fn step(&mut self, event: Event) -> (action: Action)
        ensures
            (final(self)@, action) == front_step(old(self)@, event),
    {
        let (stage, action) = match self.stage {
            Stage::Rejected => (Stage::Rejected, Action::Finish(Severity::Quiet)),
            Stage::Closed(ending) => Self::close(ending, Severity::Quiet),
            Stage::Negotiating => match event {
                Event::Handshake(offered) => if select_method(offered.as_slice())
                    == METHOD_NONE {
                    (Stage::Negotiated, Action::AcceptMethod)
                } else {
                    (Stage::Rejected, Action::RejectMethods)
                },
                _ => Self::close(Ending::Broken, Severity::Quiet),
            },
            Stage::Negotiated => match event {
                Event::Request(command) => match command {
                    Command::Connect => (Stage::Connecting, Action::DialTarget),
                    Command::Associate => (Stage::Associating, Action::DialTunnel),
                    Command::Bind => (
                        Stage::Closed(Ending::Completed),
                        Action::Refuse { reply: Reply::CommandNotSupported, shutdown: false },
                    ),
                },
                Event::BadRequest => (
                    Stage::Closed(Ending::BadRequest),
                    Action::Refuse { reply: Reply::GeneralFailure, shutdown: true },
                ),
                _ => Self::close(Ending::Broken, Severity::Quiet),
            },
            Stage::Connecting => match event {
                Event::Dialed => (Stage::Piping, Action::GrantConnect),
                Event::DialFailed(error) => (
                    Stage::Closed(Ending::Dial(error)),
                    Action::Refuse { reply: failure_reply(error), shutdown: false },
                ),
                _ => Self::close(Ending::Broken, Severity::Quiet),
            },
            Stage::Piping => match event {
                Event::Ended(end) => match end {
                    TaskEnd::Finished => Self::close(Ending::Completed, Severity::Quiet),
                    _ => Self::close(Ending::Broken, Severity::Quiet),
                },
                _ => Self::close(Ending::Broken, Severity::Quiet),
            },
            Stage::Associating => match event {
                Event::Dialed => (Stage::Allocating, Action::BindSocket),
                Event::DialFailed(error) => (
                    Stage::Closed(Ending::Dial(error)),
                    Action::Refuse { reply: failure_reply(error), shutdown: false },
                ),
                _ => Self::close(Ending::Broken, Severity::Quiet),
            },
            Stage::Allocating => match event {
                Event::Bound => (Stage::Relaying, Action::GrantAssociate),
                _ => Self::close(Ending::Broken, Severity::Quiet),
            },
            Stage::Relaying => match event {
                Event::Ended(end) => Self::close(Ending::Completed, front_report(end)),
                _ => Self::close(Ending::Broken, Severity::Quiet),
            },
        };
        self.stage = stage;
        action
    }

    fn close(ending: Ending, severity: Severity) -> (end: (Stage, Action))
        ensures
            end == front_close(ending, severity),
    {
        (Stage::Closed(ending), Action::Finish(severity))
    }
}

/// Where a session of the back agent stands.
#[derive(Clone, Copy, Debug, PartialEq, Eq, Structural)]
pub enum BackStage {
    /// A tunnel connection was accepted: a UDP socket is being bound.
    Allocating,
    /// The two pumps race.
    Relaying,
    /// The session is over.  Final.
    Closed(Ending),
}

/// What happened in a session of the back agent.
#[derive(Clone, Copy, Debug, PartialEq, Eq, Structural)]
pub enum BackEvent {
    /// The UDP socket is bound.
    Bound,
    /// The first pump of the race ended.
    Ended(TaskEnd),
    /// No socket could be had.
    Broken,
}

/// What a session of the back agent does next.
#[derive(Clone, Copy, Debug, PartialEq, Eq, Structural)]
pub enum BackAction {
    /// Run the two pumps until the first of them ends.
    Relay,
    /// Release what the session holds; report its end this loud.
    Finish(Severity),
}

/// One step of a session of the back agent.
pub open spec fn back_step(stage: BackStage, event: BackEvent) -> (BackStage, BackAction) {
    match stage {
        BackStage::Closed(ending) => (
            BackStage::Closed(ending),
            BackAction::Finish(Severity::Quiet),
        ),
        BackStage::Allocating => match event {
            BackEvent::Bound => (BackStage::Relaying, BackAction::Relay),
            _ => (BackStage::Closed(Ending::Broken), BackAction::Finish(Severity::Quiet)),
        },
        BackStage::Relaying => match event {
            BackEvent::Ended(end) => (
                BackStage::Closed(Ending::Completed),
                BackAction::Finish(back_severity(end)),
            ),
            _ => (BackStage::Closed(Ending::Broken), BackAction::Finish(Severity::Quiet)),
        },
    }
}

/// One session of the back agent: one tunnel connection.
#[derive(Debug)]
pub struct BackSession {
    stage: BackStage,
}

impl View for BackSession {
    type V = BackStage;

    closed spec fn view(&self) -> BackStage {
        self.stage
    }
}

impl BackSession {
    /// A session at its start: a UDP socket is to be bound.
    pub fn new() -> (session: BackSession)
        ensures
            session@ == BackStage::Allocating,
    {
        BackSession { stage: BackStage::Allocating }
    }

    /// Where the session stands.
    pub fn stage(&self) -> (stage: BackStage)
        ensures
            stage == self@,
    {
        self.stage
    }

    /// Takes what happened and says what to do next.
    pub fn step(&mut self, event: BackEvent) -> (action: BackAction)
        ensures
            (final(self)@, action) == back_step(old(self)@, event),
    {
        let (stage, action) = match self.stage {
            BackStage::Closed(ending) => (
                BackStage::Closed(ending),
                BackAction::Finish(Severity::Quiet),
            ),
            BackStage::Allocating => match event {
                BackEvent::Bound => (BackStage::Relaying, BackAction::Relay),
                _ => (BackStage::Closed(Ending::Broken), BackAction::Finish(Severity::Quiet)),
            },
            BackStage::Relaying => match event {
                BackEvent::Ended(end) => (
                    BackStage::Closed(Ending::Completed),
                    BackAction::Finish(back_report(end)),
                ),
                _ => (BackStage::Closed(Ending::Broken), BackAction::Finish(Severity::Quiet)),
            },
        };
        self.stage = stage;
        action
    }
}

/// Whether a session of the front agent is over.
pub open spec fn is_final(stage: Stage) -> bool {
    stage is Rejected || stage is Closed
}

/// The stage that a session of the front agent reaches from `stage` when
/// `events` happen in order.
pub open spec fn front_run(stage: Stage, events: Seq<Event>) -> Stage
    decreases events.len(),
{
    if events.len() == 0 {
        stage
    } else {
        front_step(front_run(stage, events.drop_last()), events.last()).0
    }
}

/// A session that is over stays as it is, and asks for nothing but its
/// release, whatever happens and however much.
pub proof fn lemma_final_stage_absorbs(stage: Stage, events: Seq<Event>)
    requires
        is_final(stage),
    ensures
        front_run(stage, events) == stage,
        forall|event: Event| #[trigger]
            front_step(stage, event) == (stage, Action::Finish(Severity::Quiet)),
    decreases events.len(),
{
    if events.len() > 0 {
        lemma_final_stage_absorbs(stage, events.drop_last());
    }
}

/// A client that does not offer "no authentication" is rejected, and a
/// rejected session never reads a request.
pub proof fn lemma_unacceptable_offer_rejected(offered: Vec<u8>, later: Seq<Event>)
    requires
        !offered@.contains(METHOD_NONE),
    ensures
        front_step(Stage::Negotiating, Event::Handshake(offered)) == (
            Stage::Rejected,
            Action::RejectMethods,
        ),
        front_run(Stage::Rejected, later) == Stage::Rejected,
{
    lemma_final_stage_absorbs(Stage::Rejected, later);
}

/// Success is told to the client only when it is true: a CONNECT is
/// granted only on the step that learns of a successful dial, an ASSOCIATE
/// only on the step that learns of a bound socket behind an open tunnel.
pub proof fn lemma_grant_only_after_success(stage: Stage, event: Event)
    ensures
        front_step(stage, event).1 == Action::GrantConnect ==> stage == Stage::Connecting
            && event == Event::Dialed,
        front_step(stage, event).1 == Action::GrantAssociate ==> stage == Stage::Allocating
            && event == Event::Bound,
        front_step(stage, event).0 == Stage::Allocating ==> stage == Stage::Associating
            && event == Event::Dialed,
{
}

/// A BIND is never served: whenever a request with that command is read,
/// the answer is "command not supported", and the session is over.
pub proof fn lemma_bind_never_served(stage: Stage)
    ensures
        is_final(front_step(stage, Event::Request(Command::Bind)).0),
        stage == Stage::Negotiated ==> front_step(stage, Event::Request(Command::Bind)).1
            == (Action::Refuse { reply: Reply::CommandNotSupported, shutdown: false }),
{
}

/// The tasks of an association fail together: whatever happens while they
/// race, be it the end of the watchdog, of a pump, or anything else, the
/// session is over at once and its resources are released.
pub proof fn lemma_race_ends_at_first_end(event: Event)
    ensures
        front_step(Stage::Relaying, event).0 is Closed,
        front_step(Stage::Relaying, event).1 is Finish,
        event matches Event::Ended(end) ==> front_step(Stage::Relaying, event) == (
            Stage::Closed(Ending::Completed),
            Action::Finish(front_severity(end)),
        ),
{
}

/// An end of stream is no fault: the front agent reports it below an
/// error, and the back agent not at all.
pub proof fn lemma_end_of_stream_is_no_error(end: TaskEnd)
    ensures
        front_severity(end) == Severity::Error <==> end == TaskEnd::Failed,
        back_severity(end) == Severity::Error <==> end == TaskEnd::Failed,
        front_severity(TaskEnd::EndOfStream) == Severity::Info,
        back_severity(TaskEnd::EndOfStream) == Severity::Quiet,
{
}

/// A dial succeeds only through the whole exchange: the stream is handed
/// over only on the step that reads a reply of success to the CONNECT,
/// which is sent only on the step that reads the method "no authentication".
pub proof fn lemma_dial_succeeds_only_when_granted(stage: DialStage, event: DialEvent)
    ensures
        dial_step(stage, event).0 == DialStage::Established ==> stage == DialStage::Established
            || (stage == DialStage::Requesting && event == DialEvent::Replied(Reply::Succeeded)),
        dial_step(stage, event).0 == DialStage::Requesting ==> stage == DialStage::Greeting
            && event == DialEvent::Method(METHOD_NONE),
        dial_step(stage, event).1 == DialAction::Finish <==> dial_step(stage, event).0
            == DialStage::Established,
{
}

/// A dial that has ended stays as it ended, whatever is reported to it.
pub proof fn lemma_dial_end_absorbs(stage: DialStage, event: DialEvent)
    requires
        stage is Established || stage is Failed,
    ensures
        dial_step(stage, event).0 == stage,
{
}

/// The tunnel's session on the back agent ends with the first pump that
/// ends, and a session that is over stays over.
pub proof fn lemma_back_race_ends_at_first_end(event: BackEvent, later: BackEvent)
    ensures
        back_step(BackStage::Relaying, event).0 is Closed,
        back_step(back_step(BackStage::Relaying, event).0, later).0 == back_step(
            BackStage::Relaying,
            event,
        ).0,
{
}

} // verus!
