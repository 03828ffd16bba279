use twitch_chat::twitch::channels::RequestedChannels;
use twitch_chat::twitch::decode::ServerMessage;
use twitch_chat::twitch::ledger::{Ledger, PendingSend};
use twitch_chat::twitch::select::{poll_first, poll_order, select2, Either, Side};
use twitch_chat::twitch::session::{Effect, Flow, Reaction, Session};
use twitch_chat::twitch::supervisor::{Command, Outcome, Phase, Supervisor, BACKOFF_SECONDS};
use twitch_chat::twitch::wire::WireCommand;
use twitch_chat::twitch::{Color, Config, MissingCredential, Request, Response, User};

fn text(s: &str) -> String {
    s.to_string()
}

fn bob() -> User {
    User { color: Color(1, 2, 3), user_id: text("42"), name: text("bob") }
}

fn pending(data: &str) -> PendingSend {
    PendingSend { user: bob(), data: text(data) }
}

fn line(s: &str) -> Outcome {
    Outcome::Line(text(s))
}

fn config() -> Config {
    Config { name: text("bob"), oauth: text("oauth:secret") }
}

const READY: &str = ":tmi.twitch.tv 376 bob :>\r\n";
const GLOBAL: &str = "@color=#010203;user-id=42 :tmi.twitch.tv GLOBALUSERSTATE\r\n";
const ACK_FOO: &str = "@id=abc;color=#010203 :tmi.twitch.tv USERSTATE #foo\r\n";

/// Brings a new supervisor to the poll of a registered connection.
fn registered() -> Supervisor {
    let (mut supervisor, first) = Supervisor::new(config());
    assert!(matches!(first, Command::Emit(Response::Connecting)));
    assert!(matches!(supervisor.step(Outcome::Delivered), Command::Connect));
    assert!(matches!(supervisor.step(Outcome::Opened), Command::Send(_)));
    assert!(matches!(supervisor.step(Outcome::Sent), Command::Poll));
    supervisor
}

/// Brings a new supervisor to the poll of a connection on which the local
/// user is known.
fn connected() -> Supervisor {
    let mut supervisor = registered();
    assert!(matches!(supervisor.step(line(READY)), Command::Poll));
    match supervisor.step(line(GLOBAL)) {
        Command::Emit(Response::Connected { user }) => {
            assert_eq!(user.name, "bob");
            assert_eq!(user.user_id, "42");
            assert_eq!(user.color, Color(1, 2, 3));
        }
        other => panic!("not connected: {other:?}"),
    }
    assert!(matches!(supervisor.step(Outcome::Delivered), Command::Poll));
    supervisor
}

fn is_join(command: &WireCommand, name: &str) -> bool {
    matches!(command, WireCommand::Join { channel } if channel == name)
}

#[test]
fn ledger_matches_acknowledgments_first_in_first_out() {
    let mut ledger = Ledger::new();
    ledger.push(text("#foo"), pending("one"));
    ledger.push(text("#foo"), pending("two"));
    ledger.push(text("#foo"), pending("three"));
    assert_eq!(ledger.len(), 3);
    assert_eq!(ledger.pop("#foo").unwrap().data, "one");
    ledger.push(text("#foo"), pending("four"));
    assert_eq!(ledger.pop("#foo").unwrap().data, "two");
    assert_eq!(ledger.pop("#foo").unwrap().data, "three");
    assert_eq!(ledger.pop("#foo").unwrap().data, "four");
    assert!(ledger.pop("#foo").is_none());
    assert_eq!(ledger.len(), 0);
}

#[test]
fn ledger_keeps_channels_apart() {
    let mut ledger = Ledger::new();
    ledger.push(text("#a"), pending("a1"));
    ledger.push(text("#b"), pending("b1"));
    ledger.push(text("#a"), pending("a2"));
    assert_eq!(ledger.pop("#b").unwrap().data, "b1");
    assert!(ledger.pop("#b").is_none());
    assert_eq!(ledger.pop("#a").unwrap().data, "a1");
    assert_eq!(ledger.pop("#a").unwrap().data, "a2");
    assert!(ledger.pop("#a").is_none());
}

#[test]
fn ledger_ignores_an_acknowledgment_for_an_unknown_channel() {
    let mut ledger = Ledger::new();
    ledger.push(text("#a"), pending("a1"));
    assert!(ledger.pop("#c").is_none());
    assert!(ledger.pop("a").is_none());
    assert_eq!(ledger.len(), 1);
}

#[test]
fn ledger_keeps_the_sender_with_the_text() {
    let mut ledger = Ledger::new();
    ledger.push(text("#a"), pending("a1"));
    let popped = ledger.pop("#a").unwrap();
    assert_eq!(popped.user.name, "bob");
    assert_eq!(popped.user.user_id, "42");
    assert_eq!(popped.user.color, Color(1, 2, 3));
}

#[test]
fn requested_channels_hold_each_channel_once() {
    let mut channels = RequestedChannels::new();
    assert!(channels.insert(text("#x")));
    assert!(channels.insert(text("#y")));
    assert!(!channels.insert(text("#x")));
    assert_eq!(channels.len(), 2);
    assert!(channels.contains("#x"));
    assert!(channels.contains("#y"));
    assert!(!channels.contains("#z"));
    assert_eq!(channels.get(0), "#x");
    assert_eq!(channels.get(1), "#y");
}

#[test]
fn requested_channels_shrink_by_removal() {
    let mut channels = RequestedChannels::new();
    channels.insert(text("#x"));
    channels.insert(text("#y"));
    channels.insert(text("#z"));
    assert!(channels.remove("#y"));
    assert!(!channels.remove("#y"));
    assert_eq!(channels.len(), 2);
    assert_eq!(channels.get(0), "#x");
    assert_eq!(channels.get(1), "#z");
    assert!(channels.insert(text("#y")));
    assert_eq!(channels.get(2), "#y");
}

#[test]
fn session_join_request_sends_and_changes_nothing() {
    let mut session = Session::new();
    let Reaction { effects, flow } =
        session.handle_request(Request::JoinChannel { channel: text("#foo") });
    assert_eq!(flow, Flow::Continue);
    assert_eq!(effects.len(), 1);
    assert!(matches!(&effects[0], Effect::Send(batch)
        if batch.len() == 1 && is_join(&batch[0], "#foo")));
}

#[test]
fn session_part_request_sends_a_part() {
    let mut session = Session::new();
    let reaction = session.handle_request(Request::PartChannel { channel: text("#foo") });
    assert_eq!(reaction.flow, Flow::Continue);
    assert!(matches!(&reaction.effects[..], [Effect::Send(batch)]
        if matches!(&batch[..], [WireCommand::Part { channel }] if channel == "#foo")));
}

#[test]
fn session_drops_a_send_before_the_user_is_known() {
    let mut session = Session::new();
    assert!(!session.is_connected());
    let reaction = session
        .handle_request(Request::SendMesage { channel: text("#foo"), data: text("hi") });
    assert_eq!(reaction.flow, Flow::Continue);
    assert!(reaction.effects.is_empty());
    let mut requested = RequestedChannels::new();
    let ack = session
        .handle_message(&mut requested, ServerMessage::Acknowledged { channel: text("#foo") });
    assert!(ack.effects.is_empty());
}

#[test]
fn session_disconnect_says_farewell() {
    let mut session = Session::new();
    let stay = session.handle_request(Request::Disconnect { reconnect: true });
    assert_eq!(stay.flow, Flow::Reconnect);
    assert!(matches!(&stay.effects[..], [Effect::SendBestEffort(batch)]
        if matches!(&batch[..], [WireCommand::Quit])));
    let leave = session.handle_request(Request::Disconnect { reconnect: false });
    assert_eq!(leave.flow, Flow::Stop);
    assert!(matches!(&leave.effects[..], [Effect::SendBestEffort(batch)]
        if matches!(&batch[..], [WireCommand::Quit])));
}

#[test]
fn session_answers_a_ping_with_its_token() {
    let mut session = Session::new();
    let mut requested = RequestedChannels::new();
    let reaction =
        session.handle_message(&mut requested, ServerMessage::Ping { token: text("tok") });
    assert_eq!(reaction.flow, Flow::Continue);
    assert!(matches!(&reaction.effects[..], [Effect::Send(batch)]
        if matches!(&batch[..], [WireCommand::Pong { token }] if token == "tok")));
}

#[test]
fn session_reports_a_failed_login_and_goes_on() {
    let mut session = Session::new();
    let mut requested = RequestedChannels::new();
    let reaction = session.handle_message(&mut requested, ServerMessage::AuthenticationFailed);
    assert_eq!(reaction.flow, Flow::Continue);
    assert!(matches!(&reaction.effects[..], [Effect::Emit(Response::AuthenticationFailed)]));
}

#[test]
fn session_ends_on_the_servers_reconnect() {
    let mut session = Session::new();
    let mut requested = RequestedChannels::new();
    let reaction = session.handle_message(&mut requested, ServerMessage::Reconnect);
    assert_eq!(reaction.flow, Flow::Reconnect);
    assert!(reaction.effects.is_empty());
}

#[test]
fn session_passes_a_chat_line_on() {
    let mut session = Session::new();
    let mut requested = RequestedChannels::new();
    let reaction = session.handle_message(
        &mut requested,
        ServerMessage::Chat {
            color: Color(9, 8, 7),
            user_id: text("5"),
            sender: text("alice"),
            channel: text("#foo"),
            data: text("hello"),
        },
    );
    match &reaction.effects[..] {
        [Effect::Emit(Response::Message { message })] => {
            assert_eq!(message.sender.name, "alice");
            assert_eq!(message.sender.user_id, "5");
            assert_eq!(message.sender.color, Color(9, 8, 7));
            assert_eq!(message.channel, "#foo");
            assert_eq!(message.data, "hello");
        }
        other => panic!("not a message: {other:?}"),
    }
}

#[test]
fn session_ignores_the_joins_of_others() {
    let mut session = Session::new();
    let mut requested = RequestedChannels::new();
    session.handle_message(&mut requested, ServerMessage::Ready { name: text("bob") });
    let reaction = session.handle_message(
        &mut requested,
        ServerMessage::Joined { who: Some(text("alice")), channel: text("#foo") },
    );
    assert!(reaction.effects.is_empty());
    assert_eq!(requested.len(), 0);
}

#[test]
fn session_confirms_a_join_once() {
    let mut session = Session::new();
    let mut requested = RequestedChannels::new();
    session.handle_message(&mut requested, ServerMessage::Ready { name: text("bob") });
    let first = session.handle_message(
        &mut requested,
        ServerMessage::Joined { who: Some(text("bob")), channel: text("#foo") },
    );
    assert!(matches!(&first.effects[..],
        [Effect::Emit(Response::JoinChannel { channel })] if channel == "#foo"));
    let second = session.handle_message(
        &mut requested,
        ServerMessage::Joined { who: Some(text("bob")), channel: text("#foo") },
    );
    assert!(second.effects.is_empty());
    assert_eq!(requested.len(), 1);
    assert!(requested.contains("#foo"));
}

#[test]
fn session_confirms_a_part_and_forgets_the_channel() {
    let mut session = Session::new();
    let mut requested = RequestedChannels::new();
    session.handle_message(&mut requested, ServerMessage::Ready { name: text("bob") });
    session.handle_message(
        &mut requested,
        ServerMessage::Joined { who: Some(text("bob")), channel: text("#foo") },
    );
    let reaction = session.handle_message(
        &mut requested,
        ServerMessage::Parted { who: Some(text("bob")), channel: text("#foo") },
    );
    assert!(matches!(&reaction.effects[..],
        [Effect::Emit(Response::PartChannel { channel })] if channel == "#foo"));
    assert!(!requested.contains("#foo"));
}

#[test]
fn session_without_a_name_joins_again_but_is_not_connected() {
    let mut session = Session::new();
    let mut requested = RequestedChannels::new();
    requested.insert(text("#x"));
    let reaction = session.handle_message(
        &mut requested,
        ServerMessage::CapabilityReady { color: Color(1, 2, 3), user_id: text("42") },
    );
    assert!(matches!(&reaction.effects[..], [Effect::Send(batch)]
        if batch.len() == 1 && is_join(&batch[0], "#x")));
    assert!(!session.is_connected());
}

#[test]
fn sent_message_comes_back_on_its_acknowledgment_only_once() {
    let mut supervisor = connected();
    let request = Request::SendMesage { channel: text("#foo"), data: text("hi") };
    match supervisor.step(Outcome::Request(request)) {
        Command::Send(batch) => assert!(matches!(&batch[..],
            [WireCommand::Privmsg { channel, data }] if channel == "#foo" && data == "hi")),
        other => panic!("not a send: {other:?}"),
    }
    assert!(matches!(supervisor.step(Outcome::Sent), Command::Poll));
    match supervisor.step(line(ACK_FOO)) {
        Command::Emit(Response::Message { message }) => {
            assert_eq!(message.sender.name, "bob");
            assert_eq!(message.sender.user_id, "42");
            assert_eq!(message.sender.color, Color(1, 2, 3));
            assert_eq!(message.channel, "#foo");
            assert_eq!(message.data, "hi");
        }
        other => panic!("not a message: {other:?}"),
    }
    assert!(matches!(supervisor.step(Outcome::Delivered), Command::Poll));
    assert!(matches!(supervisor.step(line(ACK_FOO)), Command::Poll));
}

#[test]
fn acknowledgments_of_one_channel_leave_another_alone() {
    let mut supervisor = connected();
    let to_a = Request::SendMesage { channel: text("#a"), data: text("for a") };
    assert!(matches!(supervisor.step(Outcome::Request(to_a)), Command::Send(_)));
    assert!(matches!(supervisor.step(Outcome::Sent), Command::Poll));
    let ack_b = "@id=1 :tmi.twitch.tv USERSTATE #b\r\n";
    assert!(matches!(supervisor.step(line(ack_b)), Command::Poll));
    let ack_a = "@id=2 :tmi.twitch.tv USERSTATE #a\r\n";
    assert!(matches!(supervisor.step(line(ack_a)),
        Command::Emit(Response::Message { message }) if message.data == "for a"));
}

#[test]
fn supervisor_registers_with_the_credentials() {
    let (mut supervisor, _) = Supervisor::new(config());
    assert_eq!(supervisor.phase(), Phase::Announcing);
    supervisor.step(Outcome::Delivered);
    assert_eq!(supervisor.phase(), Phase::Opening);
    match supervisor.step(Outcome::Opened) {
        Command::Send(batch) => assert!(matches!(&batch[..],
            [WireCommand::Register { name, oauth }] if name == "bob" && oauth == "oauth:secret")),
        other => panic!("not a registration: {other:?}"),
    }
    assert_eq!(supervisor.phase(), Phase::Registering);
}

#[test]
fn supervisor_retries_after_a_failed_connect() {
    let (mut supervisor, _) = Supervisor::new(config());
    assert!(matches!(supervisor.step(Outcome::Delivered), Command::Connect));
    assert!(matches!(
        supervisor.step(Outcome::ConnectFailed),
        Command::Emit(Response::Disconnected)
    ));
    assert!(matches!(
        supervisor.step(Outcome::Delivered),
        Command::Sleep { seconds } if seconds == 3 && seconds == BACKOFF_SECONDS
    ));
    assert!(matches!(supervisor.step(Outcome::Elapsed), Command::Emit(Response::Connecting)));
    assert!(matches!(supervisor.step(Outcome::Delivered), Command::Connect));
}

#[test]
fn supervisor_retries_after_a_failed_registration() {
    let (mut supervisor, _) = Supervisor::new(config());
    supervisor.step(Outcome::Delivered);
    supervisor.step(Outcome::Opened);
    assert!(matches!(
        supervisor.step(Outcome::SendFailed),
        Command::Emit(Response::Disconnected)
    ));
    assert!(matches!(supervisor.step(Outcome::Delivered), Command::Sleep { seconds: 3 }));
}

#[test]
fn supervisor_retries_after_the_transport_fails() {
    let mut supervisor = connected();
    assert!(matches!(
        supervisor.step(Outcome::ReadFailed),
        Command::Emit(Response::Disconnected)
    ));
    assert!(matches!(supervisor.step(Outcome::Delivered), Command::Sleep { seconds: 3 }));
    assert!(matches!(supervisor.step(Outcome::Elapsed), Command::Emit(Response::Connecting)));
}

#[test]
fn supervisor_stops_when_the_consumer_is_gone() {
    let (mut supervisor, _) = Supervisor::new(config());
    assert!(matches!(supervisor.step(Outcome::SinkClosed), Command::Halt));
    assert!(supervisor.is_halted());
    let mut supervisor = connected();
    assert!(matches!(supervisor.step(Outcome::SinkClosed), Command::Halt));
    assert!(supervisor.is_halted());
    assert!(matches!(supervisor.step(Outcome::Delivered), Command::Halt));
    assert!(matches!(supervisor.step(line(READY)), Command::Halt));
}

#[test]
fn supervisor_retries_when_the_request_source_closes() {
    let mut supervisor = connected();
    assert!(matches!(
        supervisor.step(Outcome::RequestsClosed),
        Command::Emit(Response::Disconnected)
    ));
    assert!(!supervisor.is_halted());
    assert!(matches!(supervisor.step(Outcome::Delivered), Command::Sleep { seconds: 3 }));
    assert!(matches!(supervisor.step(Outcome::Elapsed), Command::Emit(Response::Connecting)));
    assert!(matches!(supervisor.step(Outcome::Delivered), Command::Connect));
    assert!(matches!(supervisor.step(Outcome::Opened), Command::Send(_)));
    assert!(matches!(supervisor.step(Outcome::Sent), Command::Poll));
    assert!(matches!(
        supervisor.step(Outcome::RequestsClosed),
        Command::Emit(Response::Disconnected)
    ));
    assert!(matches!(supervisor.step(Outcome::SinkClosed), Command::Halt));
    assert!(supervisor.is_halted());
}

#[test]
fn supervisor_stops_on_an_outcome_that_answers_nothing() {
    let mut supervisor = connected();
    assert!(matches!(supervisor.step(Outcome::Opened), Command::Halt));
    assert!(supervisor.is_halted());
}

#[test]
fn terminal_disconnect_stops_for_good() {
    let mut supervisor = connected();
    let request = Request::Disconnect { reconnect: false };
    assert!(matches!(supervisor.step(Outcome::Request(request)),
        Command::SendBestEffort(batch) if matches!(&batch[..], [WireCommand::Quit])));
    assert!(matches!(supervisor.step(Outcome::SendFailed), Command::Halt));
    assert!(supervisor.is_halted());
    assert!(matches!(supervisor.step(Outcome::Elapsed), Command::Halt));
}

#[test]
fn reconnecting_disconnect_connects_once_more_after_the_backoff() {
    let mut supervisor = connected();
    let request = Request::Disconnect { reconnect: true };
    assert!(matches!(supervisor.step(Outcome::Request(request)), Command::SendBestEffort(_)));
    assert!(matches!(supervisor.step(Outcome::Sent), Command::Emit(Response::Disconnected)));
    assert!(matches!(supervisor.step(Outcome::Delivered), Command::Sleep { seconds: 3 }));
    assert!(matches!(supervisor.step(Outcome::Elapsed), Command::Emit(Response::Connecting)));
    assert!(matches!(supervisor.step(Outcome::Delivered), Command::Connect));
}

#[test]
fn forced_reconnect_joins_the_requested_channels_before_connected() {
    let mut supervisor = connected();
    let joined = ":bob!bob@bob.tmi.twitch.tv JOIN #x\r\n:bob!bob@bob.tmi.twitch.tv JOIN #y\r\n";
    assert!(matches!(supervisor.step(line(joined)),
        Command::Emit(Response::JoinChannel { channel }) if channel == "#x"));
    assert!(matches!(supervisor.step(Outcome::Delivered),
        Command::Emit(Response::JoinChannel { channel }) if channel == "#y"));
    assert!(matches!(supervisor.step(Outcome::Delivered), Command::Poll));

    let reconnect = ":tmi.twitch.tv RECONNECT\r\n";
    assert!(matches!(supervisor.step(line(reconnect)), Command::Emit(Response::Disconnected)));
    assert!(matches!(supervisor.step(Outcome::Delivered), Command::Sleep { seconds: 3 }));
    assert!(matches!(supervisor.step(Outcome::Elapsed), Command::Emit(Response::Connecting)));
    assert!(matches!(supervisor.step(Outcome::Delivered), Command::Connect));
    assert!(matches!(supervisor.step(Outcome::Opened), Command::Send(_)));
    assert!(matches!(supervisor.step(Outcome::Sent), Command::Poll));
    assert_eq!(supervisor.requested().len(), 2);

    assert!(matches!(supervisor.step(line(READY)), Command::Poll));
    match supervisor.step(line(GLOBAL)) {
        Command::Send(batch) => {
            assert_eq!(batch.len(), 2);
            assert!(is_join(&batch[0], "#x"));
            assert!(is_join(&batch[1], "#y"));
        }
        other => panic!("not the joins: {other:?}"),
    }
    assert!(matches!(supervisor.step(Outcome::Sent), Command::Emit(Response::Connected { .. })));
    assert!(matches!(supervisor.step(Outcome::Delivered), Command::Poll));

    let again = ":bob!bob@bob.tmi.twitch.tv JOIN #x\r\n";
    assert!(matches!(supervisor.step(line(again)), Command::Poll));
    assert_eq!(supervisor.requested().len(), 2);
}

#[test]
fn the_rest_of_a_line_is_dropped_when_the_server_asks_for_a_reconnect() {
    let mut supervisor = connected();
    let both = ":tmi.twitch.tv RECONNECT\r\nPING :1\r\n";
    assert!(matches!(supervisor.step(line(both)), Command::Emit(Response::Disconnected)));
    assert!(matches!(supervisor.step(Outcome::Delivered), Command::Sleep { seconds: 3 }));
}

#[test]
fn a_failed_send_ends_the_session_and_drops_the_rest_of_the_line() {
    let mut supervisor = connected();
    let both = "PING :1\r\n:bob!bob@bob.tmi.twitch.tv JOIN #x\r\n";
    assert!(matches!(supervisor.step(line(both)), Command::Send(_)));
    assert!(matches!(
        supervisor.step(Outcome::SendFailed),
        Command::Emit(Response::Disconnected)
    ));
    assert_eq!(supervisor.requested().len(), 0);
}

#[test]
fn the_messages_of_a_line_are_handled_in_order() {
    let mut supervisor = connected();
    let both = "PING :1\r\n:bob!bob@bob.tmi.twitch.tv JOIN #x\r\n";
    assert!(matches!(supervisor.step(line(both)), Command::Send(batch)
        if matches!(&batch[..], [WireCommand::Pong { token }] if token == "1")));
    assert!(matches!(supervisor.step(Outcome::Sent),
        Command::Emit(Response::JoinChannel { channel }) if channel == "#x"));
    assert!(matches!(supervisor.step(Outcome::Delivered), Command::Poll));
}

#[test]
fn a_failed_login_is_reported_and_the_session_goes_on() {
    let mut supervisor = registered();
    let notice = ":tmi.twitch.tv NOTICE * :Login authentication failed\r\n";
    assert!(matches!(
        supervisor.step(line(notice)),
        Command::Emit(Response::AuthenticationFailed)
    ));
    assert!(matches!(supervisor.step(Outcome::Delivered), Command::Poll));
}

#[test]
fn config_needs_both_credentials() {
    let both = Config::from_values(Some(text("bob")), Some(text("tok"))).ok().unwrap();
    assert_eq!(both.name, "bob");
    assert_eq!(both.oauth, "tok");
    assert_eq!(Config::from_values(None, Some(text("tok"))).err(), Some(MissingCredential::Name));
    assert_eq!(Config::from_values(Some(text("bob")), None).err(), Some(MissingCredential::Oauth));
    assert_eq!(Config::from_values(None, None).err(), Some(MissingCredential::Name));
    assert_eq!(MissingCredential::Name.key(), "TWITCH_NAME");
    assert_eq!(MissingCredential::Oauth.key(), "TWITCH_OAUTH");
}

#[test]
fn color_defaults_to_white() {
    assert_eq!(Color::default(), Color(0xFF, 0xFF, 0xFF));
    assert_eq!(Color::unwrap_or_default(None), Color(0xFF, 0xFF, 0xFF));
    assert_eq!(Color::unwrap_or_default(Some(Color(1, 2, 3))), Color(1, 2, 3));
}

#[test]
fn select2_asks_the_side_of_the_coin_first() {
    assert_eq!(poll_first(true), Side::Left);
    assert_eq!(poll_first(false), Side::Right);
    assert_eq!(Side::Left.other(), Side::Right);
    assert_eq!(Side::Right.other(), Side::Left);
    assert!(matches!(select2(true, Some(1), Some("r")), Some(Either::Left(1))));
    assert!(matches!(select2(false, Some(1), Some("r")), Some(Either::Right("r"))));
    assert!(matches!(select2(true, None::<u8>, Some("r")), Some(Either::Right("r"))));
    assert!(matches!(select2(false, Some(1), None::<u8>), Some(Either::Left(1))));
    assert!(select2(true, None::<u8>, None::<u8>).is_none());
    assert!(select2(false, None::<u8>, None::<u8>).is_none());
}

#[test]
fn poll_order_serves_both_sides_over_many_flips() {
    let mut left = 0;
    let mut right = 0;
    for _ in 0..2000 {
        match poll_order() {
            Side::Left => left += 1,
            Side::Right => right += 1,
        }
    }
    assert!(left > 0);
    assert!(right > 0);
}
