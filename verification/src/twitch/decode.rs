//! The inbound half of the codec: from a line of the server to the
//! protocol messages the session acts on.

use vstd::prelude::*;
use vstd::utf8::{encode_utf8, is_char_boundary};
use crate::text::{clone_text, is_text};
use crate::twitch::types::Color;

verus! {

/// The parts of a frame that every message has.
#[derive(Debug)]
pub struct Fields {
    /// The command word, where the parser has no name for it, as it has
    /// none for `JOIN` and `PART`.
    pub command: Option<String>,
    /// The name in the prefix: a user's nick, or a server's host.
    pub sender: Option<String>,
    /// The arguments between the command and the trailing text.
    pub args: Vec<String>,
}

/// What [`Fields`] holds, with its text as character sequences.
#[verifier::ext_equal]
pub struct FieldsView {
    pub command: Option<Seq<char>>,
    pub sender: Option<Seq<char>>,
    pub args: Seq<Seq<char>>,
}

impl View for Fields {
    type V = FieldsView;

    open spec fn view(&self) -> FieldsView {
        FieldsView {
            command: self.command.deep_view(),
            sender: self.sender.deep_view(),
            args: self.args.deep_view(),
        }
    }
}

impl DeepView for Fields {
    type V = FieldsView;

    open spec fn deep_view(&self) -> FieldsView {
        self@
    }
}

/// The parts of a chat line that somebody said in a channel.
#[derive(Debug)]
pub struct ChatParts {
    /// The id of the one who said it, where the server tagged the line
    /// with it.
    pub user_id: Option<String>,
    pub sender: String,
    pub channel: String,
    pub data: String,
}

/// What [`ChatParts`] holds, with its text as character sequences.
#[verifier::ext_equal]
pub struct ChatPartsView {
    pub user_id: Option<Seq<char>>,
    pub sender: Seq<char>,
    pub channel: Seq<char>,
    pub data: Seq<char>,
}

impl View for ChatParts {
    type V = ChatPartsView;

    open spec fn view(&self) -> ChatPartsView {
        ChatPartsView {
            user_id: self.user_id.deep_view(),
            sender: self.sender@,
            channel: self.channel@,
            data: self.data@,
        }
    }
}

impl DeepView for ChatParts {
    type V = ChatPartsView;

    open spec fn deep_view(&self) -> ChatPartsView {
        self@
    }
}

/// A protocol message, reduced to what the session does with it.
#[derive(Debug)]
pub enum ServerMessage {
    /// The server refused the credentials.
    AuthenticationFailed,
    /// The server asks the client to connect anew.
    Reconnect,
    /// A ping, to be answered with its token.
    Ping { token: String },
    /// The end of the welcome, which carries the login name as the server
    /// has it.
    Ready { name: String },
    /// The server's statement of the local user's id and colour.
    CapabilityReady { color: Color, user_id: String },
    /// A chat line that somebody said in a channel.
    Chat { color: Color, user_id: String, sender: String, channel: String, data: String },
    /// Somebody, or nobody in particular, joined a channel.
    Joined { who: Option<String>, channel: String },
    /// Somebody, or nobody in particular, left a channel.
    Parted { who: Option<String>, channel: String },
    /// The server took a message that the local user sent to a channel.
    Acknowledged { channel: String },
    /// Anything else, and whatever did not decode.
    Ignored,
}

/// What a [`ServerMessage`] is, with its text as character sequences.
#[verifier::ext_equal]
pub enum ServerMessageView {
    AuthenticationFailed,
    Reconnect,
    Ping { token: Seq<char> },
    Ready { name: Seq<char> },
    CapabilityReady { color: Color, user_id: Seq<char> },
    Chat {
        color: Color,
        user_id: Seq<char>,
        sender: Seq<char>,
        channel: Seq<char>,
        data: Seq<char>,
    },
    Joined { who: Option<Seq<char>>, channel: Seq<char> },
    Parted { who: Option<Seq<char>>, channel: Seq<char> },
    Acknowledged { channel: Seq<char> },
    Ignored,
}

impl View for ServerMessage {
    type V = ServerMessageView;

    open spec fn view(&self) -> ServerMessageView {
        match *self {
            ServerMessage::AuthenticationFailed => ServerMessageView::AuthenticationFailed,
            ServerMessage::Reconnect => ServerMessageView::Reconnect,
            ServerMessage::Ping { token } => ServerMessageView::Ping { token: token@ },
            ServerMessage::Ready { name } => ServerMessageView::Ready { name: name@ },
            ServerMessage::CapabilityReady { color, user_id } => ServerMessageView::CapabilityReady {
                color,
                user_id: user_id@,
            },
            ServerMessage::Chat { color, user_id, sender, channel, data } => ServerMessageView::Chat {
                color,
                user_id: user_id@,
                sender: sender@,
                channel: channel@,
                data: data@,
            },
            ServerMessage::Joined { who, channel } => ServerMessageView::Joined {
                who: who.deep_view(),
                channel: channel@,
            },
            ServerMessage::Parted { who, channel } => ServerMessageView::Parted {
                who: who.deep_view(),
                channel: channel@,
            },
            ServerMessage::Acknowledged { channel } => ServerMessageView::Acknowledged {
                channel: channel@,
            },
            ServerMessage::Ignored => ServerMessageView::Ignored,
        }
    }
}

impl DeepView for ServerMessage {
    type V = ServerMessageView;

    open spec fn deep_view(&self) -> ServerMessageView {
        self@
    }
}

/// The text of the notice that the outside parser reads the frame `text`
/// as, if it reads it as a notice.
pub uninterp spec fn frame_notice(text: Seq<char>) -> Option<Seq<char>>;

/// Whether the outside parser reads the frame `text` as the server's
/// request to connect anew.
pub uninterp spec fn frame_reconnect(text: Seq<char>) -> bool;

/// The token of the ping that the outside parser reads the frame `text`
/// as, if it reads it as a ping.
pub uninterp spec fn frame_ping(text: Seq<char>) -> Option<Seq<char>>;

/// The login name in the end of the welcome that the outside parser reads
/// the frame `text` as, if it reads it as that.
pub uninterp spec fn frame_ready(text: Seq<char>) -> Option<Seq<char>>;

/// The message id in the user state that the outside parser reads the
/// frame `text` as, if it reads it as a user state and finds the id.
pub uninterp spec fn frame_ack_id(text: Seq<char>) -> Option<Seq<char>>;

/// The user id in the global user state that the outside parser reads the
/// frame `text` as, if it reads it as a global user state and finds the id.
pub uninterp spec fn frame_user_id(text: Seq<char>) -> Option<Seq<char>>;

/// The parts of the chat line that the outside parser reads the frame
/// `text` as, if it reads it as a chat line.
pub uninterp spec fn frame_chat(text: Seq<char>) -> Option<ChatPartsView>;

/// The parts that the outside parser finds in the frame `text`, whatever
/// it reads it as.
pub uninterp spec fn frame_fields(text: Seq<char>) -> Option<FieldsView>;

/// The value that the outside parser finds under the tag `key` of the frame
/// `text`.
pub uninterp spec fn frame_tag(text: Seq<char>, key: Seq<char>) -> Option<Seq<char>>;

/// The colour that the outside parser reads from a tag's value.
pub uninterp spec fn color_value(value: Seq<char>) -> Option<Color>;

/// Calls `twitch_message::parse_as` for a `Notice` on `text` and copies out
/// the notice's text. The result is a function of `text` alone, named
/// [`frame_notice`]; `None` stands for the parser's error, which is also
/// what it gives for a frame that is no notice.
#[allow(deprecated)]
#[verifier::external_body]
fn notice_of(text: &str) -> (message: Option<String>)
    ensures
        message.deep_view() == frame_notice(text@),
{
    let notice = twitch_message::parse_as::<twitch_message::messages::Notice>(text).ok()?;
    Some(notice.message.to_string())
}

/// Calls `twitch_message::parse_as` for a `Reconnect` on `text` and tells
/// whether the parser gave one. The result is a function of `text` alone,
/// named [`frame_reconnect`].
#[verifier::external_body]
fn is_reconnect(text: &str) -> (asked: bool)
    ensures
        asked == frame_reconnect(text@),
{
    twitch_message::parse_as::<twitch_message::messages::Reconnect>(text).is_ok()
}

/// Calls `twitch_message::parse_as` for a `Ping` on `text` and copies out
/// the ping's token. The result is a function of `text` alone, named
/// [`frame_ping`]; `None` stands for the parser's error.
#[verifier::external_body]
fn ping_of(text: &str) -> (token: Option<String>)
    ensures
        token.deep_view() == frame_ping(text@),
{
    let ping = twitch_message::parse_as::<twitch_message::messages::Ping>(text).ok()?;
    Some(ping.token.to_string())
}

/// Calls `twitch_message::parse_as` for a `Ready` on `text` and copies out
/// the login name. The result is a function of `text` alone, named
/// [`frame_ready`]; `None` stands for the parser's error.
#[verifier::external_body]
fn ready_of(text: &str) -> (name: Option<String>)
    ensures
        name.deep_view() == frame_ready(text@),
{
    let ready = twitch_message::parse_as::<twitch_message::messages::Ready>(text).ok()?;
    Some(ready.name.to_string())
}

/// Calls `twitch_message::parse_as` for a `UserState` on `text` and its
/// `msg_id`. The result is a function of `text` alone, named
/// [`frame_ack_id`]; `None` stands for the parser's error as well as for a
/// user state without the id.
#[verifier::external_body]
fn ack_id_of(text: &str) -> (id: Option<String>)
    ensures
        id.deep_view() == frame_ack_id(text@),
{
    let state = twitch_message::parse_as::<twitch_message::messages::UserState>(text).ok()?;
    state.msg_id().map(String::from)
}

/// Calls `twitch_message::parse_as` for a `GlobalUserState` on `text` and
/// its `user_id`. The result is a function of `text` alone, named
/// [`frame_user_id`]; `None` stands for the parser's error as well as for a
/// global user state without the id.
#[verifier::external_body]
fn user_id_of(text: &str) -> (id: Option<String>)
    ensures
        id.deep_view() == frame_user_id(text@),
{
    let state = twitch_message::parse_as::<twitch_message::messages::GlobalUserState>(text).ok()?;
    state.user_id().map(String::from)
}

/// Calls `twitch_message::parse_as` for a `Privmsg` on `text` and copies
/// out the line's sender, channel and text, and what `user_id` gives. The
/// result is a function of `text` alone, named [`frame_chat`]; `None`
/// stands for the parser's error.
#[verifier::external_body]
fn chat_of(text: &str) -> (chat: Option<ChatParts>)
    ensures
        chat.deep_view() == frame_chat(text@),
{
    let line = twitch_message::parse_as::<twitch_message::messages::Privmsg>(text).ok()?;
    Some(ChatParts {
        user_id: line.user_id().map(String::from),
        sender: line.sender.to_string(),
        channel: line.channel.to_string(),
        data: line.data.to_string(),
    })
}

/// Calls `twitch_message::parse` on `text` and copies out the parts of the
/// message: the command word of an unknown command, the prefix's name, and
/// the arguments. The result is a function of `text` alone, named
/// [`frame_fields`]; `None` stands for the parser's error.
#[verifier::external_body]
fn fields_of(text: &str) -> (fields: Option<Fields>)
    ensures
        fields.deep_view() == frame_fields(text@),
{
    let m = twitch_message::parse(text).ok()?.message;
    let command = match &m.kind {
        twitch_message::messages::MessageKind::Unknown(word) => Some(word.to_string()),
        _ => None,
    };
    Some(Fields {
        command,
        sender: m.prefix.as_name_str().map(String::from),
        args: m.args.iter().map(|a| a.to_string()).collect(),
    })
}

/// Calls `twitch_message::parse` on `text` and `Tags::get` on the message's
/// tags. The result is a function of `text` and `key` alone, named
/// [`frame_tag`]; `None` stands for the parser's error as well as for a tag
/// that is absent or empty.
#[verifier::external_body]
fn tag_of(text: &str, key: &str) -> (value: Option<String>)
    ensures
        value.deep_view() == frame_tag(text@, key@),
{
    let m = twitch_message::parse(text).ok()?.message;
    m.tags.get(key).map(String::from)
}

/// Calls the `FromStr` impl of `twitch_message::Color` on `value`. The
/// result is a function of `value` alone, named [`color_value`]; `None`
/// stands for the parser's error. The outside parser cuts a value of seven
/// bytes after its first byte, and panics where that is inside a character:
/// such a value is left out.
#[verifier::external_body]
fn color_of(value: &str) -> (color: Option<Color>)
    requires
        color_readable(value@),
    ensures
        color == color_value(value@),
{
    let parsed: Result<twitch_message::Color, _> = value.parse();
    parsed.ok().map(|c| Color(c.0, c.1, c.2))
}

/// Whether the outside colour parser can be given `value`: a value of seven
/// bytes has a first character of one byte.
pub open spec fn color_readable(value: Seq<char>) -> bool {
    encode_utf8(value).len() == 7 ==> is_char_boundary(encode_utf8(value), 1)
}

/// The colour of a tag's value: what the outside parser reads from it, and
/// none where the tag is absent or cannot be given to that parser.
pub open spec fn color_read(tag: Option<Seq<char>>) -> Option<Color> {
    match tag {
        Some(value) => if color_readable(value) {
            color_value(value)
        } else {
            None
        },
        None => None,
    }
}

/// Reads the colour of a tag's value.
pub fn read_color(tag: &Option<String>) -> (color: Option<Color>)
    ensures
        color == color_read(tag.deep_view()),
{
    match tag {
        Some(value) => {
            let text = value.as_str();
            if text.as_bytes().len() != 7 || text.is_char_boundary(1) {
                color_of(text)
            } else {
                None
            }
        },
        None => None,
    }
}

/// What a notice stands for: the news that the server refused the
/// credentials, where it says so in these words, and nothing else.
pub open spec fn notice_read(message: Seq<char>) -> ServerMessageView {
    if message == "Login authentication failed"@ {
        ServerMessageView::AuthenticationFailed
    } else {
        ServerMessageView::Ignored
    }
}

/// What a chat line stands for: the line, under the colour of its sender
/// or white, where the server tagged it with the sender's id, and nothing
/// where it did not.
pub open spec fn chat_read(chat: ChatPartsView, color: Option<Color>) -> ServerMessageView {
    match chat.user_id {
        Some(user_id) => ServerMessageView::Chat {
            color: Color::or_white(color),
            user_id,
            sender: chat.sender,
            channel: chat.channel,
            data: chat.data,
        },
        None => ServerMessageView::Ignored,
    }
}

/// What a tagged user state stands for: the acknowledgment of a send to
/// the channel that its last argument names, and nothing where it has no
/// argument.
pub open spec fn acknowledgment_read(fields: Option<FieldsView>) -> ServerMessageView {
    match fields {
        Some(fields) => if fields.args.len() > 0 {
            ServerMessageView::Acknowledged { channel: fields.args.last() }
        } else {
            ServerMessageView::Ignored
        },
        None => ServerMessageView::Ignored,
    }
}

/// What a frame stands for that the parser has no typed reading of: a
/// join of its first argument where its command is `JOIN`, a part where
/// it is `PART`, and nothing else.
pub open spec fn membership_read(fields: Option<FieldsView>) -> ServerMessageView {
    match fields {
        Some(fields) => if fields.args.len() > 0 && fields.command == Some("JOIN"@) {
            ServerMessageView::Joined { who: fields.sender, channel: fields.args[0] }
        } else if fields.args.len() > 0 && fields.command == Some("PART"@) {
            ServerMessageView::Parted { who: fields.sender, channel: fields.args[0] }
        } else {
            ServerMessageView::Ignored
        },
        None => ServerMessageView::Ignored,
    }
}

/// Reads a notice by its text.
pub fn read_notice(message: &String) -> (read: ServerMessage)
    ensures
        read@ == notice_read(message@),
{
    if is_text(message, "Login authentication failed") {
        ServerMessage::AuthenticationFailed
    } else {
        ServerMessage::Ignored
    }
}

/// Reads a chat line by its parts and the colour of its sender.
pub fn read_chat(chat: ChatParts, color: Option<Color>) -> (read: ServerMessage)
    ensures
        read@ == chat_read(chat@, color),
{
    match chat.user_id {
        Some(user_id) => ServerMessage::Chat {
            color: Color::unwrap_or_default(color),
            user_id,
            sender: chat.sender,
            channel: chat.channel,
            data: chat.data,
        },
        None => ServerMessage::Ignored,
    }
}

/// Reads a tagged user state by the parts of its frame.
pub fn read_acknowledgment(fields: &Option<Fields>) -> (read: ServerMessage)
    ensures
        read@ == acknowledgment_read(fields.deep_view()),
{
    match fields {
        Some(fields) => {
            let argc = fields.args.len();
            if argc > 0 {
                ServerMessage::Acknowledged { channel: fields.args[argc - 1].clone() }
            } else {
                ServerMessage::Ignored
            }
        },
        None => ServerMessage::Ignored,
    }
}

/// Whether an optional text is there and reads exactly as `literal`.
fn reads(text: &Option<String>, literal: &str) -> (same: bool)
    ensures
        same == (text.deep_view() == Some(literal@)),
{
    match text {
        Some(t) => is_text(t, literal),
        None => false,
    }
}

/// Reads a frame that the parser has no typed reading of by its parts.
pub fn read_membership(fields: &Option<Fields>) -> (read: ServerMessage)
    ensures
        read@ == membership_read(fields.deep_view()),
{
    match fields {
        Some(fields) => {
            if fields.args.len() > 0 && reads(&fields.command, "JOIN") {
                ServerMessage::Joined {
                    who: clone_text(&fields.sender),
                    channel: fields.args[0].clone(),
                }
            } else if fields.args.len() > 0 && reads(&fields.command, "PART") {
                ServerMessage::Parted {
                    who: clone_text(&fields.sender),
                    channel: fields.args[0].clone(),
                }
            } else {
                ServerMessage::Ignored
            }
        },
        None => ServerMessage::Ignored,
    }
}

/// The colour that the frame `text` is tagged with, as far as it reads.
pub open spec fn frame_color(text: Seq<char>) -> Option<Color> {
    color_read(frame_tag(text, "color"@))
}

/// The protocol message that the frame `text` stands for: the session's
/// dispatch table, read off what the outside parser makes of the frame.
pub open spec fn decoded(text: Seq<char>) -> ServerMessageView {
    if frame_notice(text) is Some {
        notice_read(frame_notice(text)->0)
    } else if frame_reconnect(text) {
        ServerMessageView::Reconnect
    } else if frame_ping(text) is Some {
        ServerMessageView::Ping { token: frame_ping(text)->0 }
    } else if frame_ready(text) is Some {
        ServerMessageView::Ready { name: frame_ready(text)->0 }
    } else if frame_ack_id(text) is Some {
        acknowledgment_read(frame_fields(text))
    } else if frame_user_id(text) is Some {
        ServerMessageView::CapabilityReady {
            color: Color::or_white(frame_color(text)),
            user_id: frame_user_id(text)->0,
        }
    } else if frame_chat(text) is Some {
        chat_read(frame_chat(text)->0, frame_color(text))
    } else {
        membership_read(frame_fields(text))
    }
}

/// Reads the colour that the frame `text` is tagged with.
fn color_in(text: &str) -> (color: Option<Color>)
    ensures
        color == frame_color(text@),
{
    read_color(&tag_of(text, "color"))
}

/// Decodes one frame: a single message, without its line end. A frame
/// that the outside parser rejects, or reads as something that the session
/// has no use for, stands for nothing.
pub fn decode_frame(text: &str) -> (message: ServerMessage)
    ensures
        message@ == decoded(text@),
{
    if let Some(notice) = notice_of(text) {
        return read_notice(&notice);
    }
    if is_reconnect(text) {
        return ServerMessage::Reconnect;
    }
    if let Some(token) = ping_of(text) {
        return ServerMessage::Ping { token };
    }
    if let Some(name) = ready_of(text) {
        return ServerMessage::Ready { name };
    }
    if ack_id_of(text).is_some() {
        return read_acknowledgment(&fields_of(text));
    }
    if let Some(user_id) = user_id_of(text) {
        let color = Color::unwrap_or_default(color_in(text));
        return ServerMessage::CapabilityReady { color, user_id };
    }
    if let Some(chat) = chat_of(text) {
        return read_chat(chat, color_in(text));
    }
    read_membership(&fields_of(text))
}

/// Whether a line end, a carriage return and a line feed, stands at `at`.
pub open spec fn breaks_at(line: Seq<char>, at: int) -> bool {
    0 <= at && at + 1 < line.len() && line[at] == '\r' && line[at + 1] == '\n'
}

/// Where the first line end at or after `from` stands; the length of the
/// line where there is none.
pub open spec fn next_break(line: Seq<char>, from: int) -> int
    decreases line.len() - from,
{
    if from < 0 || from + 1 >= line.len() {
        line.len() as int
    } else if breaks_at(line, from) {
        from
    } else {
        next_break(line, from + 1)
    }
}

/// Whether nothing is left to decode from `from` on: the rest is empty, a
/// line end, or a lone line feed.
pub open spec fn rest_is_blank(line: Seq<char>, from: int) -> bool {
    ||| from >= line.len()
    ||| (from + 1 == line.len() && line[from] == '\n')
    ||| (from + 2 == line.len() && breaks_at(line, from))
}

/// Where the frame after the one that ends at `end` starts.
pub open spec fn after_break(line: Seq<char>, from: int, end: int) -> int {
    if from <= end && end + 2 <= line.len() {
        end + 2
    } else {
        line.len() as int
    }
}

/// The frames of `line` from `from` on: the stretches between line ends,
/// up to where nothing is left.
pub open spec fn frames_from(line: Seq<char>, from: int) -> Seq<Seq<char>>
    decreases line.len() - from,
{
    if from < 0 || rest_is_blank(line, from) {
        Seq::<Seq<char>>::empty()
    } else {
        let end = next_break(line, from);
        seq![line.subrange(from, end)] + frames_from(line, after_break(line, from, end))
    }
}

/// The protocol messages of `line`, one for each of its frames, in order. A
/// frame that does not decode stands in the sequence as `Ignored`, and the
/// frames after it are still decoded.
pub open spec fn decoded_line(line: Seq<char>) -> Seq<ServerMessageView> {
    frames_from(line, 0).map_values(|frame: Seq<char>| decoded(frame))
}

/// The first line end at or after `from` is not before `from` and not
/// beyond the line, and no line end stands between the two.
pub proof fn lemma_next_break(line: Seq<char>, from: int)
    requires
        0 <= from <= line.len(),
    ensures
        from <= next_break(line, from) <= line.len(),
        next_break(line, from) < line.len() ==> breaks_at(line, next_break(line, from)),
        forall|at: int| from <= at < next_break(line, from) ==> !breaks_at(line, at),
    decreases line.len() - from,
{
    if from + 1 < line.len() && !breaks_at(line, from) {
        lemma_next_break(line, from + 1);
    }
}

/// Finds the first line end at or after `from`.
fn find_break(chars: &Vec<char>, from: usize) -> (end: usize)
    requires
        from <= chars.len(),
    ensures
        end == next_break(chars@, from as int),
        from <= end <= chars.len(),
{
    let n = chars.len();
    let mut at = from;
    while at < n && at + 1 < n && !(chars[at] == '\r' && chars[at + 1] == '\n')
        invariant
            n == chars.len(),
            from <= at <= n,
            next_break(chars@, from as int) == next_break(chars@, at as int),
        decreases n - at,
    {
        at += 1;
    }
    proof {
        lemma_next_break(chars@, at as int);
    }
    if at < n && at + 1 < n {
        at
    } else {
        n
    }
}

/// Tells whether nothing is left to decode from `from` on.
fn blank_from(chars: &Vec<char>, from: usize) -> (blank: bool)
    requires
        from <= chars.len(),
    ensures
        blank == rest_is_blank(chars@, from as int),
{
    let n = chars.len();
    let left = n - from;
    if left == 0 {
        true
    } else if left == 1 {
        chars[from] == '\n'
    } else if left == 2 {
        chars[from] == '\r' && chars[from + 1] == '\n'
    } else {
        false
    }
}

/// Decodes a line of the server into its protocol messages, in order. The
/// line is cut at its line ends, and each stretch is decoded by itself:
/// one that does not decode is there as `Ignored`, and those after it are
/// decoded all the same.
pub fn decode_line(line: &str) -> (messages: Vec<ServerMessage>)
    ensures
        messages.deep_view() == decoded_line(line@),
{
    let chars = crate::text::chars_of(line);
    let n = chars.len();
    let mut messages: Vec<ServerMessage> = Vec::new();
    let mut from: usize = 0;
    let ghost mut done: Seq<Seq<char>> = Seq::empty();
    while !blank_from(&chars, from)
        invariant
            chars@ == line@,
            n == chars.len(),
            from <= n,
            done + frames_from(line@, from as int) == frames_from(line@, 0),
            messages.deep_view() == done.map_values(|frame: Seq<char>| decoded(frame)),
        decreases n - from,
    {
        let end = find_break(&chars, from);
        let frame = line.substring_char(from, end);
        let message = decode_frame(frame);
        let ghost before = messages.deep_view();
        messages.push(message);
        proof {
            assert(messages.deep_view() == before.push(decoded(frame@)));
            done = done.push(frame@);
        }
        from = if n - end >= 2 {
            end + 2
        } else {
            n
        };
    }
    messages
}

} // verus!
