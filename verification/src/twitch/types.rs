//! The values that cross the boundary between the engine and its consumer.

use vstd::prelude::*;

verus! {

/// An RGB colour, as the server tags a user's name with.
#[derive(Copy, Clone, Debug, PartialEq, Eq, Structural, Hash)]
pub struct Color(pub u8, pub u8, pub u8);

impl Color {
    /// White, the colour of a user who never chose one.
    pub open spec fn white() -> Color {
        Color(0xFF, 0xFF, 0xFF)
    }

    /// The colour itself where the server sent one, white otherwise.
    pub open spec fn or_white(color: Option<Color>) -> Color {
        match color {
            Some(c) => c,
            None => Color::white(),
        }
    }

    /// Picks `color` where the server sent one, white otherwise.
    pub fn unwrap_or_default(color: Option<Color>) -> (c: Color)
        ensures
            c == Color::or_white(color),
    {
        match color {
            Some(c) => c,
            None => Color::default(),
        }
    }
}

impl Default for Color {
    fn default() -> (c: Color)
        ensures
            c == Color::white(),
    {
        Color(0xFF, 0xFF, 0xFF)
    }
}

/// A chat participant.
#[derive(Debug)]
pub struct User {
    pub color: Color,
    pub user_id: String,
    pub name: String,
}

/// What a [`User`] is, with its text as character sequences.
#[verifier::ext_equal]
pub struct UserView {
    pub color: Color,
    pub user_id: Seq<char>,
    pub name: Seq<char>,
}

impl View for User {
    type V = UserView;

    open spec fn view(&self) -> UserView {
        UserView { color: self.color, user_id: self.user_id@, name: self.name@ }
    }
}

impl DeepView for User {
    type V = UserView;

    open spec fn deep_view(&self) -> UserView {
        self@
    }
}

impl Clone for User {
    fn clone(&self) -> (copy: User)
        ensures
            copy@ == self@,
    {
        User { color: self.color, user_id: self.user_id.clone(), name: self.name.clone() }
    }
}

/// A chat line.
#[derive(Debug)]
pub struct Message {
    pub sender: User,
    pub channel: String,
    pub data: String,
}

/// What a [`Message`] is, with its text as character sequences.
#[verifier::ext_equal]
pub struct MessageView {
    pub sender: UserView,
    pub channel: Seq<char>,
    pub data: Seq<char>,
}

impl View for Message {
    type V = MessageView;

    open spec fn view(&self) -> MessageView {
        MessageView { sender: self.sender@, channel: self.channel@, data: self.data@ }
    }
}

impl DeepView for Message {
    type V = MessageView;

    open spec fn deep_view(&self) -> MessageView {
        self@
    }
}

impl Clone for Message {
    fn clone(&self) -> (copy: Message)
        ensures
            copy@ == self@,
    {
        Message {
            sender: self.sender.clone(),
            channel: self.channel.clone(),
            data: self.data.clone(),
        }
    }
}

/// A command from the consumer to the engine.
#[derive(Debug)]
pub enum Request {
    JoinChannel { channel: String },
    PartChannel { channel: String },
    SendMesage { channel: String, data: String },
    Disconnect { reconnect: bool },
}

/// What a [`Request`] is, with its text as character sequences.
#[verifier::ext_equal]
pub enum RequestView {
    JoinChannel { channel: Seq<char> },
    PartChannel { channel: Seq<char> },
    SendMesage { channel: Seq<char>, data: Seq<char> },
    Disconnect { reconnect: bool },
}

impl View for Request {
    type V = RequestView;

    open spec fn view(&self) -> RequestView {
        match *self {
            Request::JoinChannel { channel } => RequestView::JoinChannel { channel: channel@ },
            Request::PartChannel { channel } => RequestView::PartChannel { channel: channel@ },
            Request::SendMesage { channel, data } => RequestView::SendMesage {
                channel: channel@,
                data: data@,
            },
            Request::Disconnect { reconnect } => RequestView::Disconnect { reconnect },
        }
    }
}

impl DeepView for Request {
    type V = RequestView;

    open spec fn deep_view(&self) -> RequestView {
        self@
    }
}

/// An event from the engine to the consumer.
#[derive(Debug)]
pub enum Response {
    Connecting,
    Connected { user: User },
    JoinChannel { channel: String },
    PartChannel { channel: String },
    Message { message: Message },
    Disconnected,
    AuthenticationFailed,
}

/// What a [`Response`] is, with its text as character sequences.
#[verifier::ext_equal]
pub enum ResponseView {
    Connecting,
    Connected { user: UserView },
    JoinChannel { channel: Seq<char> },
    PartChannel { channel: Seq<char> },
    Message { message: MessageView },
    Disconnected,
    AuthenticationFailed,
}

impl View for Response {
    type V = ResponseView;

    open spec fn view(&self) -> ResponseView {
        match *self {
            Response::Connecting => ResponseView::Connecting,
            Response::Connected { user } => ResponseView::Connected { user: user@ },
            Response::JoinChannel { channel } => ResponseView::JoinChannel { channel: channel@ },
            Response::PartChannel { channel } => ResponseView::PartChannel { channel: channel@ },
            Response::Message { message } => ResponseView::Message { message: message@ },
            Response::Disconnected => ResponseView::Disconnected,
            Response::AuthenticationFailed => ResponseView::AuthenticationFailed,
        }
    }
}

impl DeepView for Response {
    type V = ResponseView;

    open spec fn deep_view(&self) -> ResponseView {
        self@
    }
}

/// The credentials the engine registers with.
pub struct Config {
    pub name: String,
    pub oauth: String,
}

impl Config {
    /// Builds the credentials from a login name and an auth token, each of
    /// which may be absent; both must be there.
    pub fn from_values(name: Option<String>, oauth: Option<String>) -> (config: Result<
        Config,
        MissingCredential,
    >)
        ensures
            match config {
                Ok(c) => name == Some(c.name) && oauth == Some(c.oauth),
                Err(MissingCredential::Name) => name is None,
                Err(MissingCredential::Oauth) => name is Some && oauth is None,
            },
    {
        match name {
            None => Err(MissingCredential::Name),
            Some(name) => match oauth {
                None => Err(MissingCredential::Oauth),
                Some(oauth) => Ok(Config { name, oauth }),
            },
        }
    }
}

/// The credential that was not supplied.
#[derive(Copy, Clone, Debug, PartialEq, Eq, Structural)]
pub enum MissingCredential {
    Name,
    Oauth,
}

impl MissingCredential {
    /// The name under which the environment holds this credential.
    pub fn key(&self) -> (key: &'static str)
        ensures
            key@ == match *self {
                MissingCredential::Name => "TWITCH_NAME"@,
                MissingCredential::Oauth => "TWITCH_OAUTH"@,
            },
    {
        match self {
            MissingCredential::Name => "TWITCH_NAME",
            MissingCredential::Oauth => "TWITCH_OAUTH",
        }
    }
}

} // verus!
