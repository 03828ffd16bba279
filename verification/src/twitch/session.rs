//! One connection's protocol state, and what it does with each request of
//! the consumer and each message of the server.

use vstd::prelude::*;
use crate::twitch::channels::{
    lemma_with_channel,
    with_channel,
    without_channel,
    RequestedChannels,
};
use crate::twitch::decode::{ServerMessage, ServerMessageView};
use crate::twitch::ledger::{
    entries_after,
    queue_of,
    without_first,
    EntryView,
    Ledger,
    LedgerOp,
    PendingSend,
    PendingSendView,
};
use crate::text::same_text;
use crate::twitch::types::{
    Message,
    MessageView,
    Request,
    RequestView,
    Response,
    ResponseView,
    User,
    UserView,
};
use crate::twitch::wire::{WireCommand, WireCommandView};

verus! {

/// What becomes of the session after a reaction.
#[derive(Copy, Clone, Debug, PartialEq, Eq, Structural)]
pub enum Flow {
    /// The session goes on.
    Continue,
    /// The session ends, and a new connection is to be made.
    Reconnect,
    /// The session ends, and the engine with it.
    Stop,
}

/// Something the session asks the outside world to do.
#[derive(Debug)]
pub enum Effect {
    /// Write these commands in one go and flush. A failure ends the session.
    Send(Vec<WireCommand>),
    /// Write these commands in one go and flush, and go on whether or not
    /// that worked.
    SendBestEffort(Vec<WireCommand>),
    /// Hand this event to the consumer. A consumer that is gone ends the
    /// engine.
    Emit(Response),
}

/// What an [`Effect`] is, with its text as character sequences.
#[verifier::ext_equal]
pub enum EffectView {
    Send(Seq<WireCommandView>),
    SendBestEffort(Seq<WireCommandView>),
    Emit(ResponseView),
}

impl View for Effect {
    type V = EffectView;

    open spec fn view(&self) -> EffectView {
        match *self {
            Effect::Send(batch) => EffectView::Send(batch.deep_view()),
            Effect::SendBestEffort(batch) => EffectView::SendBestEffort(batch.deep_view()),
            Effect::Emit(response) => EffectView::Emit(response@),
        }
    }
}

impl DeepView for Effect {
    type V = EffectView;

    open spec fn deep_view(&self) -> EffectView {
        self@
    }
}

/// What the session does in answer to one request or one message: the
/// effects to carry out, in order, and what becomes of the session once
/// they are done.
#[derive(Debug)]
pub struct Reaction {
    pub effects: Vec<Effect>,
    pub flow: Flow,
}

/// What a [`Reaction`] is, with its text as character sequences.
#[verifier::ext_equal]
pub struct ReactionView {
    pub effects: Seq<EffectView>,
    pub flow: Flow,
}

impl View for Reaction {
    type V = ReactionView;

    open spec fn view(&self) -> ReactionView {
        ReactionView { effects: self.effects.deep_view(), flow: self.flow }
    }
}

/// The state of one connection.
pub struct Session {
    our_name: Option<String>,
    our_user: Option<User>,
    ledger: Ledger,
}

/// What a [`Session`] holds.
#[verifier::ext_equal]
pub struct SessionView {
    /// The login name as the server gave it, once it has.
    pub our_name: Option<Seq<char>>,
    /// The local user, once the server has stated its id and colour.
    pub our_user: Option<UserView>,
    /// The sends that await acknowledgment, oldest first.
    pub ledger: Seq<EntryView>,
}

impl View for Session {
    type V = SessionView;

    closed spec fn view(&self) -> SessionView {
        SessionView {
            our_name: self.our_name.deep_view(),
            our_user: self.our_user.deep_view(),
            ledger: self.ledger@,
        }
    }
}

impl SessionView {
    /// The state of a connection that has just been opened.
    pub open spec fn fresh() -> SessionView {
        SessionView { our_name: None, our_user: None, ledger: Seq::empty() }
    }
}

/// A reaction that asks for nothing.
pub open spec fn quiet(flow: Flow) -> ReactionView {
    ReactionView { effects: Seq::empty(), flow }
}

/// A reaction that sends one command and lets the session go on.
pub open spec fn sending(command: WireCommandView) -> ReactionView {
    ReactionView { effects: seq![EffectView::Send(seq![command])], flow: Flow::Continue }
}

/// A reaction that hands one event to the consumer and lets the session go
/// on.
pub open spec fn emitting(response: ResponseView) -> ReactionView {
    ReactionView { effects: seq![EffectView::Emit(response)], flow: Flow::Continue }
}

/// What a session in state `session` does with `request`, and the state it
/// is in afterwards.
///
/// A join or a part goes to the server and changes nothing here: the set of
/// requested channels follows the server's confirmation. A chat line goes
/// to the server and into the ledger, under the local user; before the
/// local user is known it is dropped. A disconnect says farewell, for what
/// that is worth, and ends the session: for good unless a reconnect was
/// asked for.
pub open spec fn request_reaction(session: SessionView, request: RequestView) -> (
    SessionView,
    ReactionView,
) {
    match request {
        RequestView::JoinChannel { channel } => (
            session,
            sending(WireCommandView::Join { channel }),
        ),
        RequestView::PartChannel { channel } => (
            session,
            sending(WireCommandView::Part { channel }),
        ),
        RequestView::SendMesage { channel, data } => match session.our_user {
            Some(user) => (
                SessionView {
                    ledger: session.ledger.push(
                        EntryView { channel, pending: PendingSendView { user, data } },
                    ),
                    ..session
                },
                sending(WireCommandView::Privmsg { channel, data }),
            ),
            None => (session, quiet(Flow::Continue)),
        },
        RequestView::Disconnect { reconnect } => (
            session,
            ReactionView {
                effects: seq![EffectView::SendBestEffort(seq![WireCommandView::Quit])],
                flow: if reconnect {
                    Flow::Reconnect
                } else {
                    Flow::Stop
                },
            },
        ),
    }
}

/// The commands that ask to join each of `channels` again, in order.
pub open spec fn rejoin_batch(channels: Seq<Seq<char>>) -> Seq<WireCommandView> {
    channels.map_values(|channel: Seq<char>| WireCommandView::Join { channel })
}

/// The effects of the server's statement of the local user: the joins for
/// the requested channels, if there are any, and then the news that the
/// engine is connected as `user`, if the user can be told.
pub open spec fn ready_effects(requested: Seq<Seq<char>>, user: Option<UserView>) -> Seq<
    EffectView,
> {
    let rejoin = if requested.len() > 0 {
        seq![EffectView::Send(rejoin_batch(requested))]
    } else {
        Seq::<EffectView>::empty()
    };
    match user {
        Some(user) => rejoin.push(EffectView::Emit(ResponseView::Connected { user })),
        None => rejoin,
    }
}

/// What a session in state `session`, with the channels `requested`, does
/// with `message`; the state and the requested channels afterwards.
pub open spec fn message_reaction(
    session: SessionView,
    requested: Seq<Seq<char>>,
    message: ServerMessageView,
) -> (SessionView, Seq<Seq<char>>, ReactionView) {
    match message {
        ServerMessageView::AuthenticationFailed => (
            session,
            requested,
            emitting(ResponseView::AuthenticationFailed),
        ),
        ServerMessageView::Reconnect => (session, requested, quiet(Flow::Reconnect)),
        ServerMessageView::Ping { token } => (
            session,
            requested,
            sending(WireCommandView::Pong { token }),
        ),
        ServerMessageView::Ready { name } => (
            SessionView { our_name: Some(name), ..session },
            requested,
            quiet(Flow::Continue),
        ),
        ServerMessageView::CapabilityReady { color, user_id } => {
            let user = match session.our_name {
                Some(name) => Some(UserView { color, user_id, name }),
                None => None,
            };
            (
                SessionView {
                    our_user: if user is Some {
                        user
                    } else {
                        session.our_user
                    },
                    ..session
                },
                requested,
                ReactionView { effects: ready_effects(requested, user), flow: Flow::Continue },
            )
        },
        ServerMessageView::Chat { color, user_id, sender, channel, data } => (
            session,
            requested,
            emitting(
                ResponseView::Message {
                    message: MessageView {
                        sender: UserView { color, user_id, name: sender },
                        channel,
                        data,
                    },
                },
            ),
        ),
        ServerMessageView::Joined { who, channel } => if who == session.our_name {
            (
                session,
                with_channel(requested, channel),
                if requested.contains(channel) {
                    quiet(Flow::Continue)
                } else {
                    emitting(ResponseView::JoinChannel { channel })
                },
            )
        } else {
            (session, requested, quiet(Flow::Continue))
        },
        ServerMessageView::Parted { who, channel } => if who == session.our_name {
            (
                session,
                without_channel(requested, channel),
                emitting(ResponseView::PartChannel { channel }),
            )
        } else {
            (session, requested, quiet(Flow::Continue))
        },
        ServerMessageView::Acknowledged { channel } => {
            let queue = queue_of(session.ledger, channel);
            (
                SessionView { ledger: without_first(session.ledger, channel), ..session },
                requested,
                if queue.len() > 0 {
                    emitting(
                        ResponseView::Message {
                            message: MessageView {
                                sender: queue[0].user,
                                channel,
                                data: queue[0].data,
                            },
                        },
                    )
                } else {
                    quiet(Flow::Continue)
                },
            )
        },
        ServerMessageView::Ignored => (session, requested, quiet(Flow::Continue)),
    }
}

/// Builds the reaction that asks for nothing.
fn be_quiet(flow: Flow) -> (reaction: Reaction)
    ensures
        reaction@ == quiet(flow),
{
    let reaction = Reaction { effects: Vec::new(), flow };
    reaction
}

/// Builds the batch that holds one command.
fn batch_of(command: WireCommand) -> (batch: Vec<WireCommand>)
    ensures
        batch.deep_view() == seq![command@],
{
    let mut batch: Vec<WireCommand> = Vec::new();
    batch.push(command);
    batch
}

/// Builds the reaction that carries out one effect.
fn react(effect: Effect, flow: Flow) -> (reaction: Reaction)
    ensures
        reaction@ == (ReactionView { effects: seq![effect@], flow }),
{
    let mut effects: Vec<Effect> = Vec::new();
    effects.push(effect);
    Reaction { effects, flow }
}

/// Builds the reaction that sends one command.
fn send(command: WireCommand) -> (reaction: Reaction)
    ensures
        reaction@ == sending(command@),
{
    react(Effect::Send(batch_of(command)), Flow::Continue)
}

/// Builds the reaction that hands one event to the consumer.
fn emit(response: Response) -> (reaction: Reaction)
    ensures
        reaction@ == emitting(response@),
{
    react(Effect::Emit(response), Flow::Continue)
}

/// Builds the joins for every requested channel.
fn rejoin(requested: &RequestedChannels) -> (batch: Vec<WireCommand>)
    ensures
        batch.deep_view() == rejoin_batch(requested@),
{
    let n = requested.len();
    let mut batch: Vec<WireCommand> = Vec::new();
    let mut at: usize = 0;
    while at < n
        invariant
            n == requested@.len(),
            at <= n,
            batch.deep_view() == rejoin_batch(requested@.take(at as int)),
        decreases n - at,
    {
        let ghost before = batch.deep_view();
        let channel = requested.get(at).clone();
        batch.push(WireCommand::Join { channel });
        proof {
            let joined = WireCommandView::Join { channel: requested@[at as int] };
            assert(batch.deep_view() == before.push(joined));
        }
        at += 1;
    }
    batch
}

impl Session {
    /// The state of a connection that has just been opened: no name, no
    /// user, nothing sent.
    pub fn new() -> (session: Session)
        ensures
            session@ == SessionView::fresh(),
    {
        Session { our_name: None, our_user: None, ledger: Ledger::new() }
    }

    /// Whether the local user is known, so that chat lines can be sent.
    pub fn is_connected(&self) -> (known: bool)
        ensures
            known == self@.our_user is Some,
    {
        self.our_user.is_some()
    }

    /// Handles one request of the consumer.
    pub fn handle_request(&mut self, request: Request) -> (reaction: Reaction)
        ensures
            (final(self)@, reaction@) == request_reaction(old(self)@, request@),
    {
        match request {
            Request::JoinChannel { channel } => send(WireCommand::Join { channel }),
            Request::PartChannel { channel } => send(WireCommand::Part { channel }),
            Request::SendMesage { channel, data } => {
                let sender = match &self.our_user {
                    Some(user) => Some(user.clone()),
                    None => None,
                };
                match sender {
                    Some(user) => {
                        let pending = PendingSend { user, data: data.clone() };
                        self.ledger.push(channel.clone(), pending);
                        send(WireCommand::Privmsg { channel, data })
                    },
                    None => be_quiet(Flow::Continue),
                }
            },
            Request::Disconnect { reconnect } => {
                let flow = if reconnect {
                    Flow::Reconnect
                } else {
                    Flow::Stop
                };
                react(Effect::SendBestEffort(batch_of(WireCommand::Quit)), flow)
            },
        }
    }

    /// Handles one message of the server. `requested` is the set of
    /// channels that outlives the session.
    pub fn handle_message(
        &mut self,
        requested: &mut RequestedChannels,
        message: ServerMessage,
    ) -> (reaction: Reaction)
        requires
            old(requested).wf(),
        ensures
            final(requested).wf(),
            (final(self)@, final(requested)@, reaction@) == message_reaction(
                old(self)@,
                old(requested)@,
                message@,
            ),
    {
        match message {
            ServerMessage::AuthenticationFailed => emit(Response::AuthenticationFailed),
            ServerMessage::Reconnect => be_quiet(Flow::Reconnect),
            ServerMessage::Ping { token } => send(WireCommand::Pong { token }),
            ServerMessage::Ready { name } => {
                self.our_name = Some(name);
                be_quiet(Flow::Continue)
            },
            ServerMessage::CapabilityReady { color, user_id } => {
                let mut effects: Vec<Effect> = Vec::new();
                if requested.len() > 0 {
                    effects.push(Effect::Send(rejoin(requested)));
                }
                let name = match &self.our_name {
                    Some(name) => Some(name.clone()),
                    None => None,
                };
                match name {
                    Some(name) => {
                        let user = User { color, user_id, name };
                        effects.push(Effect::Emit(Response::Connected { user: user.clone() }));
                        self.our_user = Some(user);
                    },
                    None => {},
                }
                Reaction { effects, flow: Flow::Continue }
            },
            ServerMessage::Chat { color, user_id, sender, channel, data } => {
                let message = Message { sender: User { color, user_id, name: sender }, channel, data };
                emit(Response::Message { message })
            },
            ServerMessage::Joined { who, channel } => {
                if same_text(&who, &self.our_name) {
                    if requested.insert(channel.clone()) {
                        emit(Response::JoinChannel { channel })
                    } else {
                        be_quiet(Flow::Continue)
                    }
                } else {
                    be_quiet(Flow::Continue)
                }
            },
            ServerMessage::Parted { who, channel } => {
                if same_text(&who, &self.our_name) {
                    requested.remove(channel.as_str());
                    emit(Response::PartChannel { channel })
                } else {
                    be_quiet(Flow::Continue)
                }
            },
            ServerMessage::Acknowledged { channel } => {
                match self.ledger.pop(channel.as_str()) {
                    Some(pending) => {
                        let message = Message { sender: pending.user, channel, data: pending.data };
                        emit(Response::Message { message })
                    },
                    None => be_quiet(Flow::Continue),
                }
            },
            ServerMessage::Ignored => be_quiet(Flow::Continue),
        }
    }
}

/// Whether an effect that writes has something to write.
pub open spec fn carries_commands(effect: EffectView) -> bool {
    match effect {
        EffectView::Send(batch) => batch.len() > 0,
        EffectView::SendBestEffort(batch) => batch.len() > 0,
        EffectView::Emit(_) => true,
    }
}

/// The session never asks for an empty write: every effect of a reaction
/// that writes carries at least one command.
pub proof fn lemma_writes_carry_commands(
    session: SessionView,
    requested: Seq<Seq<char>>,
    request: RequestView,
    message: ServerMessageView,
)
    ensures
        forall|at: int|
            0 <= at < request_reaction(session, request).1.effects.len() ==> carries_commands(
                #[trigger] request_reaction(session, request).1.effects[at],
            ),
        forall|at: int|
            0 <= at < message_reaction(session, requested, message).2.effects.len()
                ==> carries_commands(
                #[trigger] message_reaction(session, requested, message).2.effects[at],
            ),
{
}

/// The requested channels grow only by a join of the local user that the
/// server confirms, and shrink only by such a part: every other message
/// leaves them as they are, and so does a join or a part of somebody else.
pub proof fn lemma_only_confirmations_change_channels(
    session: SessionView,
    requested: Seq<Seq<char>>,
    message: ServerMessageView,
)
    ensures
        message_reaction(session, requested, message).1 == match message {
            ServerMessageView::Joined { who, channel } => if who == session.our_name {
                with_channel(requested, channel)
            } else {
                requested
            },
            ServerMessageView::Parted { who, channel } => if who == session.our_name {
                without_channel(requested, channel)
            } else {
                requested
            },
            _ => requested,
        },
{
}

/// A join that the server confirms twice is announced at most once, and the
/// channel stands among the requested channels once. The second
/// confirmation may reach another session than the first, as it does after
/// a reconnect: it is passed over in silence and changes nothing.
pub proof fn lemma_join_is_idempotent(
    first: SessionView,
    second: SessionView,
    requested: Seq<Seq<char>>,
    channel: Seq<char>,
)
    requires
        requested.no_duplicates(),
    ensures
        ({
            let confirmed = message_reaction(
                first,
                requested,
                ServerMessageView::Joined { who: first.our_name, channel },
            );
            let again = message_reaction(
                second,
                confirmed.1,
                ServerMessageView::Joined { who: second.our_name, channel },
            );
            &&& confirmed.1.no_duplicates()
            &&& confirmed.1.contains(channel)
            &&& confirmed.2 == if requested.contains(channel) {
                quiet(Flow::Continue)
            } else {
                emitting(ResponseView::JoinChannel { channel })
            }
            &&& again.1 == confirmed.1
            &&& again.2 == quiet(Flow::Continue)
        }),
{
    lemma_with_channel(requested, channel);
}

/// The server's statement of the local user makes the session ask to join
/// every requested channel again, in one write that comes before the
/// consumer is told that the engine is connected; the requested channels
/// stay as they are.
pub proof fn lemma_rejoin_precedes_connected(
    session: SessionView,
    requested: Seq<Seq<char>>,
    color: crate::twitch::types::Color,
    user_id: Seq<char>,
)
    requires
        requested.len() > 0,
        session.our_name is Some,
    ensures
        ({
            let user = UserView { color, user_id, name: session.our_name->0 };
            let ready = message_reaction(
                session,
                requested,
                ServerMessageView::CapabilityReady { color, user_id },
            );
            &&& ready.1 == requested
            &&& ready.0.our_user == Some(user)
            &&& ready.2.flow == Flow::Continue
            &&& ready.2.effects == seq![
                EffectView::Send(rejoin_batch(requested)),
                EffectView::Emit(ResponseView::Connected { user }),
            ]
            &&& rejoin_batch(requested).len() == requested.len()
            &&& forall|at: int|
                0 <= at < requested.len() ==> rejoin_batch(requested)[at] == (
                WireCommandView::Join { channel: requested[at] })
        }),
{
}

/// A chat line that is sent while the local user is known comes back as
/// that user's message on the first acknowledgment for its channel, if
/// nothing else waits there; a second acknowledgment brings nothing.
pub proof fn lemma_send_then_acknowledge(
    session: SessionView,
    requested: Seq<Seq<char>>,
    channel: Seq<char>,
    data: Seq<char>,
)
    requires
        session.our_user is Some,
        queue_of(session.ledger, channel).len() == 0,
    ensures
        ({
            let sent = request_reaction(session, RequestView::SendMesage { channel, data });
            let acknowledged = message_reaction(
                sent.0,
                requested,
                ServerMessageView::Acknowledged { channel },
            );
            let again = message_reaction(
                acknowledged.0,
                requested,
                ServerMessageView::Acknowledged { channel },
            );
            &&& sent.1 == sending(WireCommandView::Privmsg { channel, data })
            &&& acknowledged.2 == emitting(
                ResponseView::Message {
                    message: MessageView { sender: session.our_user->0, channel, data },
                },
            )
            &&& again.2 == quiet(Flow::Continue)
        }),
{
    let entry = EntryView {
        channel,
        pending: PendingSendView { user: session.our_user->0, data },
    };
    let ledger = session.ledger.push(entry);
    assert(ledger.drop_last() == session.ledger);
    crate::twitch::ledger::lemma_without_first(ledger, channel, channel);
}

/// Something that happens to a session: a request of the consumer, or a
/// message of the server.
pub enum SessionEvent {
    Request(RequestView),
    Message(ServerMessageView),
}

/// The session and the requested channels after `event`.
pub open spec fn session_step(state: (SessionView, Seq<Seq<char>>), event: SessionEvent) -> (
    SessionView,
    Seq<Seq<char>>,
) {
    match event {
        SessionEvent::Request(request) => (request_reaction(state.0, request).0, state.1),
        SessionEvent::Message(message) => {
            let next = message_reaction(state.0, state.1, message);
            (next.0, next.1)
        },
    }
}

/// The session and the requested channels after `events`, in order.
pub open spec fn session_after(start: (SessionView, Seq<Seq<char>>), events: Seq<SessionEvent>) -> (
    SessionView,
    Seq<Seq<char>>,
)
    decreases events.len(),
{
    if events.len() == 0 {
        start
    } else {
        session_step(session_after(start, events.drop_last()), events.last())
    }
}

/// What `event` does to the ledger of a session in state `session`: a chat
/// line of a known user enters it, an acknowledgment takes one out, and
/// nothing else touches it.
pub open spec fn ledger_op(session: SessionView, event: SessionEvent) -> Option<LedgerOp> {
    match event {
        SessionEvent::Request(RequestView::SendMesage { channel, data }) => match session.our_user {
            Some(user) => Some(
                LedgerOp::Send { channel, pending: PendingSendView { user, data } },
            ),
            None => None,
        },
        SessionEvent::Message(ServerMessageView::Acknowledged { channel }) => Some(
            LedgerOp::Ack { channel },
        ),
        _ => None,
    }
}

/// What `events` do to the ledger, in order.
pub open spec fn ledger_ops(start: (SessionView, Seq<Seq<char>>), events: Seq<SessionEvent>) -> Seq<
    LedgerOp,
>
    decreases events.len(),
{
    if events.len() == 0 {
        Seq::<LedgerOp>::empty()
    } else {
        let before = session_after(start, events.drop_last());
        let ops = ledger_ops(start, events.drop_last());
        match ledger_op(before.0, events.last()) {
            Some(op) => ops.push(op),
            None => ops,
        }
    }
}

/// The ledger of a session is what the sends and the acknowledgments made
/// it: a session that starts with an empty ledger holds, after any events,
/// the entries that the events' sends and acknowledgments leave. So what
/// the ledger's laws say of sends and acknowledgments holds of every
/// session: the messages come back first in, first out, and channel by
/// channel.
pub proof fn lemma_session_ledger(start: (SessionView, Seq<Seq<char>>), events: Seq<SessionEvent>)
    requires
        start.0.ledger == Seq::<EntryView>::empty(),
    ensures
        session_after(start, events).0.ledger == entries_after(ledger_ops(start, events)),
    decreases events.len(),
{
    if events.len() > 0 {
        lemma_session_ledger(start, events.drop_last());
        let ops = ledger_ops(start, events.drop_last());
        let before = session_after(start, events.drop_last());
        match ledger_op(before.0, events.last()) {
            Some(op) => {
                assert(ops.push(op).drop_last() == ops);
            },
            None => {},
        }
    }
}

} // verus!
