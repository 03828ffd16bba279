//! The connection supervisor: the retry loop around the sessions, as a
//! machine that says what to do next and is told how it went.

use vstd::prelude::*;
use crate::twitch::channels::RequestedChannels;
use crate::twitch::decode::{decode_line, decoded_line, ServerMessage, ServerMessageView};
use crate::twitch::session::{
    message_reaction,
    request_reaction,
    Effect,
    EffectView,
    Flow,
    Session,
    SessionView,
};
use crate::twitch::types::{Config, Request, RequestView, Response, ResponseView};
use crate::twitch::wire::{WireCommand, WireCommandView};

verus! {

/// How long the supervisor waits after a connection ended or could not be
/// made, in seconds. The wait does not grow.
pub const BACKOFF_SECONDS: u64 = 3;

/// Where the supervisor stands: what it last asked for.
#[derive(Copy, Clone, Debug, PartialEq, Eq, Structural)]
pub enum Phase {
    /// It told the consumer that it is connecting.
    Announcing,
    /// It asked for a transport.
    Opening,
    /// It sent the registration.
    Registering,
    /// It waits for a line of the server or a request of the consumer.
    Polling,
    /// It sent commands that must arrive.
    Sending,
    /// It sent commands that need not arrive.
    SendingBestEffort,
    /// It handed an event of the session to the consumer.
    Emitting,
    /// It told the consumer that the connection is gone.
    Closing,
    /// It sleeps before the next attempt.
    Backoff,
    /// It has stopped for good.
    Halted,
}

/// What the supervisor asks its driver to do next.
#[derive(Debug)]
pub enum Command {
    /// Hand the event to the consumer.
    Emit(Response),
    /// Open a transport to the server.
    Connect,
    /// Encode the commands into one write, write it and flush.
    Send(Vec<WireCommand>),
    /// As `Send`, where it does not matter whether it works.
    SendBestEffort(Vec<WireCommand>),
    /// Wait.
    Sleep { seconds: u64 },
    /// Wait for the next line of the server or the next request of the
    /// consumer, whichever comes first.
    Poll,
    /// Stop: the engine is done.
    Halt,
}

/// What a [`Command`] is, with its text as character sequences.
#[verifier::ext_equal]
pub enum CommandView {
    Emit(ResponseView),
    Connect,
    Send(Seq<WireCommandView>),
    SendBestEffort(Seq<WireCommandView>),
    Sleep { seconds: u64 },
    Poll,
    Halt,
}

impl View for Command {
    type V = CommandView;

    open spec fn view(&self) -> CommandView {
        match *self {
            Command::Emit(response) => CommandView::Emit(response@),
            Command::Connect => CommandView::Connect,
            Command::Send(batch) => CommandView::Send(batch.deep_view()),
            Command::SendBestEffort(batch) => CommandView::SendBestEffort(batch.deep_view()),
            Command::Sleep { seconds } => CommandView::Sleep { seconds },
            Command::Poll => CommandView::Poll,
            Command::Halt => CommandView::Halt,
        }
    }
}

/// How the last command went.
#[derive(Debug)]
pub enum Outcome {
    /// The consumer has the event.
    Delivered,
    /// The consumer is gone.
    SinkClosed,
    /// The transport is open.
    Opened,
    /// The transport could not be opened.
    ConnectFailed,
    /// The commands are written and flushed.
    Sent,
    /// The commands could not be encoded, written or flushed.
    SendFailed,
    /// The wait is over.
    Elapsed,
    /// The server sent a line.
    Line(String),
    /// The transport failed or ended.
    ReadFailed,
    /// The consumer made a request.
    Request(Request),
    /// The source of the consumer's requests ended. That ends the session,
    /// not the engine.
    RequestsClosed,
}

/// What an [`Outcome`] is, with its text as character sequences.
#[verifier::ext_equal]
pub enum OutcomeView {
    Delivered,
    SinkClosed,
    Opened,
    ConnectFailed,
    Sent,
    SendFailed,
    Elapsed,
    Line(Seq<char>),
    ReadFailed,
    Request(RequestView),
    RequestsClosed,
}

impl View for Outcome {
    type V = OutcomeView;

    open spec fn view(&self) -> OutcomeView {
        match *self {
            Outcome::Delivered => OutcomeView::Delivered,
            Outcome::SinkClosed => OutcomeView::SinkClosed,
            Outcome::Opened => OutcomeView::Opened,
            Outcome::ConnectFailed => OutcomeView::ConnectFailed,
            Outcome::Sent => OutcomeView::Sent,
            Outcome::SendFailed => OutcomeView::SendFailed,
            Outcome::Elapsed => OutcomeView::Elapsed,
            Outcome::Line(line) => OutcomeView::Line(line@),
            Outcome::ReadFailed => OutcomeView::ReadFailed,
            Outcome::Request(request) => OutcomeView::Request(request@),
            Outcome::RequestsClosed => OutcomeView::RequestsClosed,
        }
    }
}

/// What a [`Supervisor`] holds.
#[verifier::ext_equal]
pub struct SupervisorView {
    /// The login name it registers with.
    pub name: Seq<char>,
    /// The auth token it registers with.
    pub oauth: Seq<char>,
    /// The channels that the server confirmed, in the order of
    /// confirmation. They outlive the sessions.
    pub requested: Seq<Seq<char>>,
    /// The state of the current connection.
    pub session: SessionView,
    pub phase: Phase,
    /// The effects of the last reaction that are still to be carried out.
    pub queue: Seq<EffectView>,
    /// The messages of the last line that are still to be handled.
    pub inbox: Seq<ServerMessageView>,
    /// What becomes of the session once the queue is empty.
    pub after: Flow,
}

/// The supervisor at rest in `phase`: nothing queued, nothing in the inbox.
pub open spec fn settled(s: SupervisorView, phase: Phase) -> SupervisorView {
    SupervisorView {
        phase,
        queue: Seq::empty(),
        inbox: Seq::empty(),
        after: Flow::Continue,
        ..s
    }
}

/// The supervisor stops for good.
pub open spec fn halt(s: SupervisorView) -> (SupervisorView, CommandView) {
    (settled(s, Phase::Halted), CommandView::Halt)
}

/// The connection is gone: what was queued is dropped, with the rest of
/// the line, and the consumer is told.
pub open spec fn close(s: SupervisorView) -> (SupervisorView, CommandView) {
    (settled(s, Phase::Closing), CommandView::Emit(ResponseView::Disconnected))
}

/// What the supervisor asks for next once the last command is done: the
/// next queued effect; then what the reaction said should become of the
/// session; then the reaction to the next message of the line; and a poll
/// where nothing is left.
pub open spec fn advance(s: SupervisorView) -> (SupervisorView, CommandView)
    decreases s.inbox.len(),
{
    if s.queue.len() > 0 {
        let rest = SupervisorView { queue: s.queue.drop_first(), ..s };
        match s.queue[0] {
            EffectView::Send(batch) => (
                SupervisorView { phase: Phase::Sending, ..rest },
                CommandView::Send(batch),
            ),
            EffectView::SendBestEffort(batch) => (
                SupervisorView { phase: Phase::SendingBestEffort, ..rest },
                CommandView::SendBestEffort(batch),
            ),
            EffectView::Emit(response) => (
                SupervisorView { phase: Phase::Emitting, ..rest },
                CommandView::Emit(response),
            ),
        }
    } else {
        match s.after {
            Flow::Stop => halt(s),
            Flow::Reconnect => close(s),
            Flow::Continue => if s.inbox.len() > 0 {
                let (session, requested, reaction) = message_reaction(
                    s.session,
                    s.requested,
                    s.inbox[0],
                );
                advance(
                    SupervisorView {
                        session,
                        requested,
                        queue: reaction.effects,
                        after: reaction.flow,
                        inbox: s.inbox.drop_first(),
                        ..s
                    },
                )
            } else {
                (settled(s, Phase::Polling), CommandView::Poll)
            },
        }
    }
}

/// The supervisor's next state and command, given how its last command
/// went. An outcome that does not answer the last command stops it.
pub open spec fn step(s: SupervisorView, outcome: OutcomeView) -> (SupervisorView, CommandView) {
    match s.phase {
        Phase::Announcing => match outcome {
            OutcomeView::Delivered => (settled(s, Phase::Opening), CommandView::Connect),
            _ => halt(s),
        },
        Phase::Opening => match outcome {
            OutcomeView::Opened => (
                settled(s, Phase::Registering),
                CommandView::Send(
                    seq![WireCommandView::Register { name: s.name, oauth: s.oauth }],
                ),
            ),
            OutcomeView::ConnectFailed => close(s),
            _ => halt(s),
        },
        Phase::Registering => match outcome {
            OutcomeView::Sent => (
                SupervisorView { session: SessionView::fresh(), ..settled(s, Phase::Polling) },
                CommandView::Poll,
            ),
            OutcomeView::SendFailed => close(s),
            _ => halt(s),
        },
        Phase::Polling => match outcome {
            OutcomeView::Line(line) => advance(
                SupervisorView { inbox: decoded_line(line), ..settled(s, Phase::Polling) },
            ),
            OutcomeView::Request(request) => {
                let (session, reaction) = request_reaction(s.session, request);
                advance(
                    SupervisorView {
                        session,
                        queue: reaction.effects,
                        after: reaction.flow,
                        ..settled(s, Phase::Polling)
                    },
                )
            },
            OutcomeView::ReadFailed => close(s),
            OutcomeView::RequestsClosed => close(s),
            _ => halt(s),
        },
        Phase::Sending => match outcome {
            OutcomeView::Sent => advance(s),
            OutcomeView::SendFailed => close(s),
            _ => halt(s),
        },
        Phase::SendingBestEffort => match outcome {
            OutcomeView::Sent => advance(s),
            OutcomeView::SendFailed => advance(s),
            _ => halt(s),
        },
        Phase::Emitting => match outcome {
            OutcomeView::Delivered => advance(s),
            _ => halt(s),
        },
        Phase::Closing => match outcome {
            OutcomeView::Delivered => (
                settled(s, Phase::Backoff),
                CommandView::Sleep { seconds: BACKOFF_SECONDS },
            ),
            _ => halt(s),
        },
        Phase::Backoff => match outcome {
            OutcomeView::Elapsed => (
                settled(s, Phase::Announcing),
                CommandView::Emit(ResponseView::Connecting),
            ),
            _ => halt(s),
        },
        Phase::Halted => halt(s),
    }
}

/// The supervisor as it starts: about to tell the consumer that it is
/// connecting, with no channel requested.
pub open spec fn started(name: Seq<char>, oauth: Seq<char>) -> SupervisorView {
    SupervisorView {
        name,
        oauth,
        requested: Seq::empty(),
        session: SessionView::fresh(),
        phase: Phase::Announcing,
        queue: Seq::empty(),
        inbox: Seq::empty(),
        after: Flow::Continue,
    }
}

/// The retry loop around the sessions. It never touches the network: it
/// hands out one [`Command`] at a time and takes the [`Outcome`] of each.
pub struct Supervisor {
    config: Config,
    requested: RequestedChannels,
    session: Session,
    phase: Phase,
    queue: Vec<Effect>,
    inbox: Vec<ServerMessage>,
    after: Flow,
}

impl View for Supervisor {
    type V = SupervisorView;

    closed spec fn view(&self) -> SupervisorView {
        SupervisorView {
            name: self.config.name@,
            oauth: self.config.oauth@,
            requested: self.requested@,
            session: self.session@,
            phase: self.phase,
            queue: self.queue.deep_view(),
            inbox: self.inbox.deep_view(),
            after: self.after,
        }
    }
}

impl Supervisor {
    /// No channel is requested twice.
    pub open spec fn wf(&self) -> bool {
        self@.requested.no_duplicates()
    }

    /// Starts the supervisor. The first thing to do is to tell the consumer
    /// that the engine is connecting.
    pub fn new(config: Config) -> (start: (Supervisor, Command))
        ensures
            start.0.wf(),
            start.0@ == started(config.name@, config.oauth@),
            start.1@ == CommandView::Emit(ResponseView::Connecting),
    {
        let supervisor = Supervisor {
            config,
            requested: RequestedChannels::new(),
            session: Session::new(),
            phase: Phase::Announcing,
            queue: Vec::new(),
            inbox: Vec::new(),
            after: Flow::Continue,
        };
        (supervisor, Command::Emit(Response::Connecting))
    }

    /// Where the supervisor stands.
    pub fn phase(&self) -> (phase: Phase)
        ensures
            phase == self@.phase,
    {
        self.phase
    }

    /// Whether the supervisor has stopped for good.
    pub fn is_halted(&self) -> (halted: bool)
        ensures
            halted == (self@.phase == Phase::Halted),
    {
        match self.phase {
            Phase::Halted => true,
            _ => false,
        }
    }

    /// The channels that the server confirmed and that a new connection
    /// joins again.
    pub fn requested(&self) -> (channels: &RequestedChannels)
        ensures
            channels@ == self@.requested,
            channels.wf() == self.wf(),
    {
        &self.requested
    }

    /// Comes to rest in `phase`, dropping what was queued.
    fn settle(&mut self, phase: Phase)
        ensures
            final(self)@ == settled(old(self)@, phase),
    {
        self.phase = phase;
        self.queue = Vec::new();
        self.inbox = Vec::new();
        self.after = Flow::Continue;
    }

    /// Stops for good.
    fn halt(&mut self) -> (command: Command)
        ensures
            (final(self)@, command@) == halt(old(self)@),
    {
        self.settle(Phase::Halted);
        Command::Halt
    }

    /// Gives the connection up and tells the consumer.
    fn close(&mut self) -> (command: Command)
        ensures
            (final(self)@, command@) == close(old(self)@),
    {
        self.settle(Phase::Closing);
        Command::Emit(Response::Disconnected)
    }

    /// Finds the next command once the last one is done.
    fn advance(&mut self) -> (command: Command)
        requires
            old(self).wf(),
        ensures
            final(self).wf(),
            (final(self)@, command@) == advance(old(self)@),
    {
        loop
            invariant
                self.wf(),
                advance(self@) == advance(old(self)@),
            decreases self.inbox.len(),
        {
            if self.queue.len() > 0 {
                let effect = self.queue.remove(0);
                match effect {
                    Effect::Send(batch) => {
                        self.phase = Phase::Sending;
                        return Command::Send(batch);
                    },
                    Effect::SendBestEffort(batch) => {
                        self.phase = Phase::SendingBestEffort;
                        return Command::SendBestEffort(batch);
                    },
                    Effect::Emit(response) => {
                        self.phase = Phase::Emitting;
                        return Command::Emit(response);
                    },
                }
            }
            match self.after {
                Flow::Stop => {
                    return self.halt();
                },
                Flow::Reconnect => {
                    return self.close();
                },
                Flow::Continue => {},
            }
            if self.inbox.len() == 0 {
                self.settle(Phase::Polling);
                return Command::Poll;
            }
            let ghost before = self@;
            let message = self.inbox.remove(0);
            assert(self.inbox.deep_view() == before.inbox.drop_first());
            let reaction = self.session.handle_message(&mut self.requested, message);
            self.queue = reaction.effects;
            self.after = reaction.flow;
        }
    }

    /// Takes the outcome of the last command and says what to do next.
    pub fn step(&mut self, outcome: Outcome) -> (command: Command)
        requires
            old(self).wf(),
        ensures
            final(self).wf(),
            (final(self)@, command@) == step(old(self)@, outcome@),
    {
        match self.phase {
            Phase::Announcing => match outcome {
                Outcome::Delivered => {
                    self.settle(Phase::Opening);
                    Command::Connect
                },
                _ => self.halt(),
            },
            Phase::Opening => match outcome {
                Outcome::Opened => {
                    self.settle(Phase::Registering);
                    let register = WireCommand::Register {
                        name: self.config.name.clone(),
                        oauth: self.config.oauth.clone(),
                    };
                    let mut batch: Vec<WireCommand> = Vec::new();
                    batch.push(register);
                    Command::Send(batch)
                },
                Outcome::ConnectFailed => self.close(),
                _ => self.halt(),
            },
            Phase::Registering => match outcome {
                Outcome::Sent => {
                    self.settle(Phase::Polling);
                    self.session = Session::new();
                    Command::Poll
                },
                Outcome::SendFailed => self.close(),
                _ => self.halt(),
            },
            Phase::Polling => match outcome {
                Outcome::Line(line) => {
                    self.settle(Phase::Polling);
                    self.inbox = decode_line(line.as_str());
                    self.advance()
                },
                Outcome::Request(request) => {
                    self.settle(Phase::Polling);
                    let reaction = self.session.handle_request(request);
                    self.queue = reaction.effects;
                    self.after = reaction.flow;
                    self.advance()
                },
                Outcome::ReadFailed => self.close(),
                Outcome::RequestsClosed => self.close(),
                _ => self.halt(),
            },
            Phase::Sending => match outcome {
                Outcome::Sent => self.advance(),
                Outcome::SendFailed => self.close(),
                _ => self.halt(),
            },
            Phase::SendingBestEffort => match outcome {
                Outcome::Sent => self.advance(),
                Outcome::SendFailed => self.advance(),
                _ => self.halt(),
            },
            Phase::Emitting => match outcome {
                Outcome::Delivered => self.advance(),
                _ => self.halt(),
            },
            Phase::Closing => match outcome {
                Outcome::Delivered => {
                    self.settle(Phase::Backoff);
                    Command::Sleep { seconds: BACKOFF_SECONDS }
                },
                _ => self.halt(),
            },
            Phase::Backoff => match outcome {
                Outcome::Elapsed => {
                    self.settle(Phase::Announcing);
                    Command::Emit(Response::Connecting)
                },
                _ => self.halt(),
            },
            Phase::Halted => self.halt(),
        }
    }
}

/// A supervisor that has stopped stays stopped, whatever it is told: it
/// asks for nothing but to halt.
pub proof fn lemma_halted_is_final(s: SupervisorView, outcome: OutcomeView)
    requires
        s.phase == Phase::Halted,
    ensures
        step(s, outcome).0.phase == Phase::Halted,
        step(s, outcome).1 == CommandView::Halt,
{
}

/// A consumer that is gone stops the supervisor, wherever it stands.
pub proof fn lemma_closed_sink_halts(s: SupervisorView)
    ensures
        step(s, OutcomeView::SinkClosed) == halt(s),
{
}

/// A disconnect that asks for no reconnect stops the supervisor for good:
/// it says farewell, and whether or not that reaches the server, the next
/// thing it asks for is to halt.
pub proof fn lemma_terminal_disconnect(s: SupervisorView, farewell: OutcomeView)
    requires
        s.phase == Phase::Polling,
    ensures
        ({
            let asked = step(
                s,
                OutcomeView::Request(RequestView::Disconnect { reconnect: false }),
            );
            let done = step(asked.0, farewell);
            &&& asked.1 == CommandView::SendBestEffort(seq![WireCommandView::Quit])
            &&& done.1 == CommandView::Halt
            &&& done.0.phase == Phase::Halted
        }),
{
    reveal_with_fuel(advance, 2);
}

/// A disconnect that asks for a reconnect ends the session and starts the
/// next attempt: farewell, the news that the connection is gone, the fixed
/// wait, the news that the engine is connecting, once, and then the
/// request for a transport. The requested channels are the same at the
/// end as at the start.
pub proof fn lemma_reconnecting_disconnect(s: SupervisorView, farewell: OutcomeView)
    requires
        s.phase == Phase::Polling,
        farewell == OutcomeView::Sent || farewell == OutcomeView::SendFailed,
    ensures
        ({
            let asked = step(s, OutcomeView::Request(RequestView::Disconnect { reconnect: true }));
            let closed = step(asked.0, farewell);
            let waiting = step(closed.0, OutcomeView::Delivered);
            let announced = step(waiting.0, OutcomeView::Elapsed);
            let opening = step(announced.0, OutcomeView::Delivered);
            &&& asked.1 == CommandView::SendBestEffort(seq![WireCommandView::Quit])
            &&& closed.1 == CommandView::Emit(ResponseView::Disconnected)
            &&& waiting.1 == CommandView::Sleep { seconds: BACKOFF_SECONDS }
            &&& announced.1 == CommandView::Emit(ResponseView::Connecting)
            &&& opening.1 == CommandView::Connect
            &&& opening.0.requested == s.requested
        }),
{
    reveal_with_fuel(advance, 2);
}

/// Every failure of a connection is met in the same way, and so is a
/// request source that closed: the consumer is told that the connection is
/// gone, and the supervisor waits the fixed time before it tries again.
/// The requested channels outlive it.
pub proof fn lemma_failures_are_retried(s: SupervisorView, outcome: OutcomeView)
    requires
        ({
            ||| s.phase == Phase::Opening && outcome == OutcomeView::ConnectFailed
            ||| s.phase == Phase::Registering && outcome == OutcomeView::SendFailed
            ||| s.phase == Phase::Sending && outcome == OutcomeView::SendFailed
            ||| s.phase == Phase::Polling && outcome == OutcomeView::ReadFailed
            ||| s.phase == Phase::Polling && outcome == OutcomeView::RequestsClosed
        }),
    ensures
        ({
            let closed = step(s, outcome);
            let waiting = step(closed.0, OutcomeView::Delivered);
            let announced = step(waiting.0, OutcomeView::Elapsed);
            &&& closed.1 == CommandView::Emit(ResponseView::Disconnected)
            &&& waiting.1 == CommandView::Sleep { seconds: BACKOFF_SECONDS }
            &&& announced.1 == CommandView::Emit(ResponseView::Connecting)
            &&& announced.0.requested == s.requested
        }),
{
}

/// Only a message of the server changes the requested channels: while the
/// inbox is empty, no step touches them, and so they are never cleared by
/// a disconnect.
pub proof fn lemma_requested_outlive_sessions(s: SupervisorView, outcome: OutcomeView)
    requires
        s.inbox.len() == 0,
        !(s.phase == Phase::Polling && outcome is Line),
    ensures
        step(s, outcome).0.requested == s.requested,
{
    reveal_with_fuel(advance, 2);
}

/// No step makes a channel stand among the requested channels twice.
pub proof fn lemma_advance_keeps_channels_distinct(s: SupervisorView)
    requires
        s.requested.no_duplicates(),
    ensures
        advance(s).0.requested.no_duplicates(),
    decreases s.inbox.len(),
{
    if s.queue.len() == 0 && s.after == Flow::Continue && s.inbox.len() > 0 {
        let (session, requested, reaction) = message_reaction(s.session, s.requested, s.inbox[0]);
        match s.inbox[0] {
            ServerMessageView::Joined { who, channel } => {
                crate::twitch::channels::lemma_with_channel(s.requested, channel);
            },
            ServerMessageView::Parted { who, channel } => {
                crate::twitch::channels::lemma_without_channel(s.requested, channel);
            },
            _ => {},
        }
        lemma_advance_keeps_channels_distinct(
            SupervisorView {
                session,
                requested,
                queue: reaction.effects,
                after: reaction.flow,
                inbox: s.inbox.drop_first(),
                ..s
            },
        );
    }
}

/// No step makes a channel stand among the requested channels twice.
pub proof fn lemma_step_keeps_channels_distinct(s: SupervisorView, outcome: OutcomeView)
    requires
        s.requested.no_duplicates(),
    ensures
        step(s, outcome).0.requested.no_duplicates(),
{
    lemma_advance_keeps_channels_distinct(s);
    match outcome {
        OutcomeView::Line(line) => {
            lemma_advance_keeps_channels_distinct(
                SupervisorView { inbox: decoded_line(line), ..settled(s, Phase::Polling) },
            );
        },
        OutcomeView::Request(request) => {
            let (session, reaction) = request_reaction(s.session, request);
            lemma_advance_keeps_channels_distinct(
                SupervisorView {
                    session,
                    queue: reaction.effects,
                    after: reaction.flow,
                    ..settled(s, Phase::Polling)
                },
            );
        },
        _ => {},
    }
}

/// After a reconnect the channels are joined again before the consumer
/// hears that the engine is connected: when the server states the local
/// user, the supervisor first sends a join for every requested channel,
/// and only when that is written hands out the news.
pub proof fn lemma_rejoin_on_reconnect(
    s: SupervisorView,
    line: Seq<char>,
    color: crate::twitch::types::Color,
    user_id: Seq<char>,
)
    requires
        s.phase == Phase::Polling,
        s.requested.len() > 0,
        s.session.our_name is Some,
        decoded_line(line) == seq![ServerMessageView::CapabilityReady { color, user_id }],
    ensures
        ({
            let user = crate::twitch::types::UserView {
                color,
                user_id,
                name: s.session.our_name->0,
            };
            let joining = step(s, OutcomeView::Line(line));
            let telling = step(joining.0, OutcomeView::Sent);
            let polling = step(telling.0, OutcomeView::Delivered);
            &&& joining.1 == CommandView::Send(crate::twitch::session::rejoin_batch(s.requested))
            &&& telling.1 == CommandView::Emit(ResponseView::Connected { user })
            &&& polling.1 == CommandView::Poll
            &&& polling.0.requested == s.requested
        }),
{
    reveal_with_fuel(advance, 3);
    crate::twitch::session::lemma_rejoin_precedes_connected(s.session, s.requested, color, user_id);
}

} // verus!
