//! The outbound half of the codec: the commands the engine sends, as the
//! bytes that go on the wire.

use vstd::prelude::*;
use vstd::utf8::encode_utf8;

verus! {

/// A command that the engine sends to the server.
#[derive(Debug)]
pub enum WireCommand {
    /// Opens the connection: capabilities, token and login name.
    Register { name: String, oauth: String },
    Join { channel: String },
    Part { channel: String },
    Privmsg { channel: String, data: String },
    /// Answers a ping with its token.
    Pong { token: String },
    /// Ends the connection.
    Quit,
}

/// What a [`WireCommand`] is, with its text as character sequences.
#[verifier::ext_equal]
pub enum WireCommandView {
    Register { name: Seq<char>, oauth: Seq<char> },
    Join { channel: Seq<char> },
    Part { channel: Seq<char> },
    Privmsg { channel: Seq<char>, data: Seq<char> },
    Pong { token: Seq<char> },
    Quit,
}

impl View for WireCommand {
    type V = WireCommandView;

    open spec fn view(&self) -> WireCommandView {
        match *self {
            WireCommand::Register { name, oauth } => WireCommandView::Register {
                name: name@,
                oauth: oauth@,
            },
            WireCommand::Join { channel } => WireCommandView::Join { channel: channel@ },
            WireCommand::Part { channel } => WireCommandView::Part { channel: channel@ },
            WireCommand::Privmsg { channel, data } => WireCommandView::Privmsg {
                channel: channel@,
                data: data@,
            },
            WireCommand::Pong { token } => WireCommandView::Pong { token: token@ },
            WireCommand::Quit => WireCommandView::Quit,
        }
    }
}

impl DeepView for WireCommand {
    type V = WireCommandView;

    open spec fn deep_view(&self) -> WireCommandView {
        self@
    }
}

/// The `#` that a channel name lacks: one where the name does not start
/// with `#`, none where it does.
pub open spec fn octo(channel: Seq<char>) -> Seq<char> {
    if channel.len() > 0 && channel[0] == '#' {
        Seq::<char>::empty()
    } else {
        "#"@
    }
}

/// The line that asks to join `channel`.
pub open spec fn join_line(channel: Seq<char>) -> Seq<char> {
    "JOIN "@ + octo(channel) + channel + "\r\n"@
}

/// The line that asks to leave `channel`.
pub open spec fn part_line(channel: Seq<char>) -> Seq<char> {
    "PART "@ + octo(channel) + channel + "\r\n"@
}

/// The line that says `data` in `channel`.
pub open spec fn privmsg_line(channel: Seq<char>, data: Seq<char>) -> Seq<char> {
    "PRIVMSG "@ + octo(channel) + channel + " :"@ + data + "\r\n"@
}

/// The line that answers a ping carrying `token`.
pub open spec fn pong_line(token: Seq<char>) -> Seq<char> {
    "PONG :"@ + token + "\r\n"@
}

/// A line sent as it is.
pub open spec fn raw_line(raw: Seq<char>) -> Seq<char> {
    raw + "\r\n"@
}

/// The lines that open a connection: the three capability requests, then
/// the token, then the login name.
pub open spec fn register_lines(name: Seq<char>, oauth: Seq<char>) -> Seq<char> {
    "CAP REQ twitch.tv/commands\r\n"@ + "CAP REQ twitch.tv/membership\r\n"@
        + "CAP REQ twitch.tv/tags\r\n"@ + "PASS "@ + oauth + "\r\n"@ + "NICK "@ + name + "\r\n"@
}

/// The text that `command` puts on the wire.
pub open spec fn command_text(command: WireCommandView) -> Seq<char> {
    match command {
        WireCommandView::Register { name, oauth } => register_lines(name, oauth),
        WireCommandView::Join { channel } => join_line(channel),
        WireCommandView::Part { channel } => part_line(channel),
        WireCommandView::Privmsg { channel, data } => privmsg_line(channel, data),
        WireCommandView::Pong { token } => pong_line(token),
        WireCommandView::Quit => raw_line("QUIT"@),
    }
}

/// The bytes that carry `text` on the wire.
pub open spec fn wire_bytes(text: Seq<char>) -> Seq<u8> {
    encode_utf8(text)
}

/// Calls `twitch_message::encode::join` and encodes the command into a
/// buffer of its own. The bytes are the UTF-8 bytes of `JOIN`, a space, the
/// channel with a `#` put before it if it had none, and a line end.
/// The encoder writes into a vector of its own, which std documents as
/// written to by appending, and formats nothing but text, so it has
/// nothing to fail on: the result is always `Some`.
#[verifier::external_body]
fn encode_join(channel: &str) -> (bytes: Option<Vec<u8>>)
    ensures
        bytes is Some,
        bytes matches Some(b) ==> b@ == wire_bytes(join_line(channel@)),
{
    let mut buf: Vec<u8> = Vec::new();
    let msg = twitch_message::encode::join(channel);
    match twitch_message::encode::Encode::encode_msg(&mut buf, msg) {
        Ok(()) => Some(buf),
        Err(_) => None,
    }
}

/// Calls `twitch_message::encode::part` and encodes the command into a
/// buffer of its own. The bytes are the UTF-8 bytes of `PART`, a space, the
/// channel with a `#` put before it if it had none, and a line end.
/// The encoder writes into a vector of its own, which std documents as
/// written to by appending, and formats nothing but text, so it has
/// nothing to fail on: the result is always `Some`.
#[verifier::external_body]
fn encode_part(channel: &str) -> (bytes: Option<Vec<u8>>)
    ensures
        bytes is Some,
        bytes matches Some(b) ==> b@ == wire_bytes(part_line(channel@)),
{
    let mut buf: Vec<u8> = Vec::new();
    let msg = twitch_message::encode::part(channel);
    match twitch_message::encode::Encode::encode_msg(&mut buf, msg) {
        Ok(()) => Some(buf),
        Err(_) => None,
    }
}

/// Calls `twitch_message::encode::privmsg` and encodes the command into a
/// buffer of its own. The bytes are the UTF-8 bytes of `PRIVMSG`, a space,
/// the channel with a `#` put before it if it had none, a space and a
/// colon, the text, and a line end.
/// The encoder writes into a vector of its own, which std documents as
/// written to by appending, and formats nothing but text, so it has
/// nothing to fail on: the result is always `Some`.
#[verifier::external_body]
fn encode_privmsg(channel: &str, data: &str) -> (bytes: Option<Vec<u8>>)
    ensures
        bytes is Some,
        bytes matches Some(b) ==> b@ == wire_bytes(privmsg_line(channel@, data@)),
{
    let mut buf: Vec<u8> = Vec::new();
    let msg = twitch_message::encode::privmsg(channel, data);
    match twitch_message::encode::Encode::encode_msg(&mut buf, msg) {
        Ok(()) => Some(buf),
        Err(_) => None,
    }
}

/// Calls `twitch_message::encode::pong` and encodes the command into a
/// buffer of its own. The bytes are the UTF-8 bytes of `PONG`, a space and
/// a colon, the token, and a line end.
/// The encoder writes into a vector of its own, which std documents as
/// written to by appending, and formats nothing but text, so it has
/// nothing to fail on: the result is always `Some`.
#[verifier::external_body]
fn encode_pong(token: &str) -> (bytes: Option<Vec<u8>>)
    ensures
        bytes is Some,
        bytes matches Some(b) ==> b@ == wire_bytes(pong_line(token@)),
{
    let mut buf: Vec<u8> = Vec::new();
    let msg = twitch_message::encode::pong(token);
    match twitch_message::encode::Encode::encode_msg(&mut buf, msg) {
        Ok(()) => Some(buf),
        Err(_) => None,
    }
}

/// Calls `twitch_message::encode::raw` and encodes the command into a
/// buffer of its own. The bytes are the UTF-8 bytes of the text and a line
/// end.
/// The encoder writes into a vector of its own, which std documents as
/// written to by appending, and formats nothing but text, so it has
/// nothing to fail on: the result is always `Some`.
#[verifier::external_body]
fn encode_raw(raw: &str) -> (bytes: Option<Vec<u8>>)
    ensures
        bytes is Some,
        bytes matches Some(b) ==> b@ == wire_bytes(raw_line(raw@)),
{
    let mut buf: Vec<u8> = Vec::new();
    let msg = twitch_message::encode::raw(raw);
    match twitch_message::encode::Encode::encode_msg(&mut buf, msg) {
        Ok(()) => Some(buf),
        Err(_) => None,
    }
}

/// Calls `twitch_message::encode::register` with every capability the
/// outside crate knows and encodes the command into a buffer of its own.
/// The bytes are the UTF-8 bytes of one `CAP REQ` line for each of
/// commands, membership and tags, in that order, then a `PASS` line with
/// the token and a `NICK` line with the name.
/// The encoder writes into a vector of its own, which std documents as
/// written to by appending, and formats nothing but text, so it has
/// nothing to fail on: the result is always `Some`.
#[verifier::external_body]
fn encode_register(name: &str, oauth: &str) -> (bytes: Option<Vec<u8>>)
    ensures
        bytes is Some,
        bytes matches Some(b) ==> b@ == wire_bytes(register_lines(name@, oauth@)),
{
    let mut buf: Vec<u8> = Vec::new();
    let caps = twitch_message::encode::ALL_CAPABILITIES;
    let msg = twitch_message::encode::register(name, oauth, caps);
    match twitch_message::encode::Encode::encode_msg(&mut buf, msg) {
        Ok(()) => Some(buf),
        Err(_) => None,
    }
}

/// The bytes that carry `batch` on the wire: each command's bytes, one
/// after the other.
pub open spec fn batch_bytes(batch: Seq<WireCommandView>) -> Seq<u8>
    decreases batch.len(),
{
    if batch.len() == 0 {
        Seq::<u8>::empty()
    } else {
        batch_bytes(batch.drop_last()) + wire_bytes(command_text(batch.last()))
    }
}

/// Encodes `command` and puts its bytes at the end of `buf`. Says whether
/// the encoder succeeded, which it always does.
fn put(buf: &mut Vec<u8>, command: &WireCommand) -> (ok: bool)
    ensures
        ok,
        final(buf)@ == old(buf)@ + wire_bytes(command_text(command@)),
{
    let encoded = match command {
        WireCommand::Register { name, oauth } => encode_register(name.as_str(), oauth.as_str()),
        WireCommand::Join { channel } => encode_join(channel.as_str()),
        WireCommand::Part { channel } => encode_part(channel.as_str()),
        WireCommand::Privmsg { channel, data } => encode_privmsg(channel.as_str(), data.as_str()),
        WireCommand::Pong { token } => encode_pong(token.as_str()),
        WireCommand::Quit => encode_raw("QUIT"),
    };
    match encoded {
        Some(mut bytes) => {
            buf.append(&mut bytes);
            true
        },
        None => false,
    }
}

/// Encodes the commands of `batch`, in order, into the bytes of one write.
/// Every batch encodes: the result is `Some` of the commands' bytes, one
/// after the other, and of no bytes for a batch that holds no command.
pub fn encode(batch: &Vec<WireCommand>) -> (bytes: Option<Vec<u8>>)
    ensures
        bytes is Some,
        bytes matches Some(b) ==> b@ == batch_bytes(batch.deep_view()),
{
    let mut buf: Vec<u8> = Vec::new();
    let n = batch.len();
    let mut done: usize = 0;
    while done < n
        invariant
            n == batch.len(),
            done <= n,
            buf@ == batch_bytes(batch.deep_view().take(done as int)),
        decreases n - done,
    {
        let ok = put(&mut buf, &batch[done]);
        if !ok {
            return None;
        }
        proof {
            let views = batch.deep_view();
            assert(views.take(done + 1).drop_last() == views.take(done as int));
        }
        done += 1;
    }
    proof {
        assert(batch.deep_view().take(n as int) == batch.deep_view());
    }
    Some(buf)
}

} // verus!
