//! What the front end does with a line of input, a key, a click and an
//! event of the engine.

use vstd::prelude::*;
use vstd::string::StringExecFns;
use crate::channel::{ChannelState, ChannelView};
use crate::display_channel::{DisplayChannel, DisplayChannelView, Status};
use crate::geometry::{pos2, Pos2};
use crate::tab::{covering_at, name_at, RegionView, TabRegions};
use crate::tabs::{
    after_join,
    after_next,
    after_part,
    after_previous,
    after_switch_to,
    channel_at,
    next_is_safe,
    part_is_safe,
    previous_is_safe,
    redrawn,
    switch_is_safe,
    with_status,
    Tabs,
    TabsView,
};
use crate::text::{char_at_or_end, chars_of, find_char, str_is};
use crate::twitch::types::{
    Color,
    Message,
    MessageView,
    Request,
    RequestView,
    Response,
    ResponseView,
    User,
    UserView,
};

verus! {

/// What the screen says of the connection.
#[derive(Copy, Clone, Debug, PartialEq, Eq, Structural)]
pub enum ConnectionStatus {
    /// Nothing was heard of the engine yet.
    Unset,
    Connecting,
    Connected,
    Reconnecting,
    InvalidAuth,
    /// Connected, with no channel joined.
    OnNoChannels,
}

impl ConnectionStatus {
    /// The word under which the screen's template knows the status.
    pub fn as_str(&self) -> (word: &'static str)
        ensures
            word@ == match *self {
                ConnectionStatus::Unset => ""@,
                ConnectionStatus::Connecting => "connecting"@,
                ConnectionStatus::Connected => "connected"@,
                ConnectionStatus::Reconnecting => "reconnecting"@,
                ConnectionStatus::InvalidAuth => "invalid_auth"@,
                ConnectionStatus::OnNoChannels => "on_no_channels"@,
            },
    {
        match self {
            ConnectionStatus::Unset => "",
            ConnectionStatus::Connecting => "connecting",
            ConnectionStatus::Connected => "connected",
            ConnectionStatus::Reconnecting => "reconnecting",
            ConnectionStatus::InvalidAuth => "invalid_auth",
            ConnectionStatus::OnNoChannels => "on_no_channels",
        }
    }
}

/// What the screen shows.
#[derive(Debug)]
pub struct RootState {
    pub status: ConnectionStatus,
    pub our_user: User,
    /// The line that is being typed.
    pub input: String,
    /// The tab bar.
    pub channels: Vec<DisplayChannel>,
    /// The messages of the channel that is shown.
    pub output: Vec<Message>,
}

/// What a [`RootState`] is, with its text as character sequences.
#[verifier::ext_equal]
pub struct RootStateView {
    pub status: ConnectionStatus,
    pub our_user: UserView,
    pub input: Seq<char>,
    pub channels: Seq<DisplayChannelView>,
    pub output: Seq<MessageView>,
}

impl View for RootState {
    type V = RootStateView;

    open spec fn view(&self) -> RootStateView {
        RootStateView {
            status: self.status,
            our_user: self.our_user@,
            input: self.input@,
            channels: self.channels.deep_view(),
            output: self.output.deep_view(),
        }
    }
}

impl RootStateView {
    /// The screen before anything happened: no status, a nameless white
    /// user, nothing typed, no tab, no message.
    pub open spec fn blank() -> RootStateView {
        RootStateView {
            status: ConnectionStatus::Unset,
            our_user: UserView { color: Color::white(), user_id: Seq::empty(), name: Seq::empty() },
            input: Seq::empty(),
            channels: Seq::empty(),
            output: Seq::empty(),
        }
    }
}

impl RootState {
    /// The screen before anything happened.
    pub fn new() -> (state: RootState)
        ensures
            state@ == RootStateView::blank(),
    {
        let state = RootState {
            status: ConnectionStatus::Unset,
            our_user: User { color: Color::default(), user_id: String::new(), name: String::new() },
            input: String::new(),
            channels: Vec::new(),
            output: Vec::new(),
        };
        state
    }
}

/// What a line of input asks for.
#[derive(Debug)]
pub enum Command<'a> {
    /// `/join` with the channels to join, separated by commas.
    Join { channel: &'a str },
    /// `/part` with the channel to leave.
    Part { channel: &'a str },
    /// `/part` alone: leave the channel of the active tab.
    PartCurrent,
    /// `/reconnect`.
    Reconnect,
    /// `/quit`.
    Quit,
    /// No command: the line is something to say.
    Say,
    /// A command that is not known, or that lacks its argument.
    Error { msg: String },
}

/// What a [`Command`] is, with its text as character sequences.
#[verifier::ext_equal]
pub enum CommandView {
    Join { channel: Seq<char> },
    Part { channel: Seq<char> },
    PartCurrent,
    Reconnect,
    Quit,
    Say,
    Error { msg: Seq<char> },
}

impl<'a> View for Command<'a> {
    type V = CommandView;

    open spec fn view(&self) -> CommandView {
        match *self {
            Command::Join { channel } => CommandView::Join { channel: channel@ },
            Command::Part { channel } => CommandView::Part { channel: channel@ },
            Command::PartCurrent => CommandView::PartCurrent,
            Command::Reconnect => CommandView::Reconnect,
            Command::Quit => CommandView::Quit,
            Command::Say => CommandView::Say,
            Command::Error { msg } => CommandView::Error { msg: msg@ },
        }
    }
}

/// The text that `{:?}` gives for an optional text.
pub uninterp spec fn debug_text(value: Option<Seq<char>>) -> Seq<char>;

/// Formats an optional text with `format!` and `{:?}`, as std's `Debug`
/// for `Option<&str>` writes it. The result is a function of the value
/// alone, named [`debug_text`].
#[verifier::external_body]
fn debug_of(value: Option<&str>) -> (text: String)
    ensures
        text@ == debug_text(value.deep_view()),
{
    format!("{value:?}")
}

/// The complaint about the unknown command `key` with the argument `val`.
pub open spec fn unknown_command(key: Seq<char>, val: Option<Seq<char>>) -> Seq<char> {
    "unknown command: '"@ + key + "' (args: ["@ + debug_text(val) + "]"@
}

/// The word of a command line: what stands between the slash and the
/// first space.
pub open spec fn command_key(input: Seq<char>) -> Seq<char> {
    input.subrange(1, char_at_or_end(input, ' ', 1))
}

/// The argument of a command line: what stands after the first space, if
/// there is one.
pub open spec fn command_val(input: Seq<char>) -> Option<Seq<char>> {
    let space = char_at_or_end(input, ' ', 1);
    if space < input.len() {
        Some(input.subrange(space + 1, input.len() as int))
    } else {
        None
    }
}

/// What the line `input` asks for. A line that starts with a slash is a
/// command, made of a word and, after the first space, an argument.
pub open spec fn parsed_command(input: Seq<char>) -> CommandView {
    if input.len() == 0 || input[0] != '/' {
        CommandView::Say
    } else {
        let key = command_key(input);
        let val = command_val(input);
        if key == "join"@ && val is Some {
            CommandView::Join { channel: val->0 }
        } else if key == "part"@ && val is Some {
            CommandView::Part { channel: val->0 }
        } else if key == "part"@ {
            CommandView::PartCurrent
        } else if key == "reconnect"@ {
            CommandView::Reconnect
        } else if key == "quit"@ {
            CommandView::Quit
        } else {
            CommandView::Error { msg: unknown_command(key, val) }
        }
    }
}

/// Writes the complaint about an unknown command.
fn complain(key: &str, val: Option<&str>) -> (msg: String)
    ensures
        msg@ == unknown_command(key@, val.deep_view()),
{
    let mut msg = String::from_str("unknown command: '");
    msg.append(key);
    msg.append("' (args: [");
    let shown = debug_of(val);
    msg.append(shown.as_str());
    msg.append("]");
    msg
}

/// Reads a line of input as a command.
pub fn process_input_for_commands<'a>(input: &'a str) -> (command: Command<'a>)
    ensures
        command@ == parsed_command(input@),
{
    let chars = chars_of(input);
    let n = chars.len();
    if n == 0 || chars[0] != '/' {
        return Command::Say;
    }
    let space = find_char(&chars, ' ', 1);
    let key = input.substring_char(1, space);
    let val = if space < n {
        Some(input.substring_char(space + 1, n))
    } else {
        None
    };
    if str_is(key, "join") && val.is_some() {
        Command::Join { channel: val.unwrap() }
    } else if str_is(key, "part") && val.is_some() {
        Command::Part { channel: val.unwrap() }
    } else if str_is(key, "part") {
        Command::PartCurrent
    } else if str_is(key, "reconnect") {
        Command::Reconnect
    } else if str_is(key, "quit") {
        Command::Quit
    } else {
        Command::Error { msg: complain(key, val) }
    }
}

/// The front end's state: what the screen shows and what the tabs hold.
#[derive(Debug)]
pub struct RootView {
    pub state: RootState,
    pub tabs: Tabs,
}

/// What a [`RootView`] holds.
#[verifier::ext_equal]
pub struct RootViewView {
    pub state: RootStateView,
    pub tabs: TabsView,
}

impl View for RootView {
    type V = RootViewView;

    open spec fn view(&self) -> RootViewView {
        RootViewView { state: self.state@, tabs: self.tabs@ }
    }
}

/// The status of a connected engine: it depends on whether a tab is there.
pub open spec fn connected_status(display: Seq<DisplayChannelView>) -> ConnectionStatus {
    if display.len() == 0 {
        ConnectionStatus::OnNoChannels
    } else {
        ConnectionStatus::Connected
    }
}

/// Whether the channel `name` is the one shown.
pub open spec fn shows(tabs: TabsView, name: Seq<char>) -> bool {
    0 <= tabs.active < tabs.channels.len() && tabs.channels[tabs.active].name == name
}

/// Whether `response` can be applied: a message for a tab that is not
/// shown finds that tab in the tab bar, and a part can be carried out.
pub open spec fn response_is_safe(view: RootViewView, response: ResponseView) -> bool {
    match response {
        ResponseView::Message { message } => {
            let pos = channel_at(view.tabs.channels, message.channel, 0);
            pos < view.tabs.channels.len() && !shows(view.tabs, message.channel) ==> pos
                < view.state.channels.len()
        },
        ResponseView::PartChannel { channel } => part_is_safe(view.tabs, view.state, channel),
        _ => true,
    }
}

/// The front end after an event of the engine.
///
/// A message goes on the screen, unless its channel has a tab that is not
/// shown: then it waits in that tab, which is marked as unread. The other
/// events set the status; a join and a part also change the tabs.
pub open spec fn after_response(view: RootViewView, response: ResponseView) -> RootViewView {
    match response {
        ResponseView::Message { message } => {
            let pos = channel_at(view.tabs.channels, message.channel, 0);
            if pos < view.tabs.channels.len() && !shows(view.tabs, message.channel) {
                let tab = view.tabs.channels[pos];
                RootViewView {
                    tabs: TabsView {
                        channels: view.tabs.channels.update(
                            pos,
                            ChannelView {
                                messages: tab.messages.push(message),
                                state: ChannelState::UnreadMessages,
                                ..tab
                            },
                        ),
                        ..view.tabs
                    },
                    state: RootStateView {
                        channels: with_status(view.state.channels, pos, Status::Unread),
                        ..view.state
                    },
                }
            } else {
                RootViewView {
                    state: RootStateView {
                        output: view.state.output.push(message),
                        ..view.state
                    },
                    ..view
                }
            }
        },
        ResponseView::Connecting => RootViewView {
            state: RootStateView { status: ConnectionStatus::Connecting, ..view.state },
            ..view
        },
        ResponseView::Connected { user } => RootViewView {
            state: RootStateView {
                our_user: user,
                status: connected_status(view.state.channels),
                ..view.state
            },
            ..view
        },
        ResponseView::Disconnected => RootViewView {
            state: RootStateView { status: ConnectionStatus::Reconnecting, ..view.state },
            ..view
        },
        ResponseView::AuthenticationFailed => RootViewView {
            state: RootStateView { status: ConnectionStatus::InvalidAuth, ..view.state },
            ..view
        },
        ResponseView::JoinChannel { channel } => {
            let (tabs, state) = after_join(view.tabs, view.state, channel);
            RootViewView {
                tabs,
                state: RootStateView { status: connected_status(state.channels), ..state },
            }
        },
        ResponseView::PartChannel { channel } => {
            let (tabs, state) = after_part(view.tabs, view.state, channel);
            RootViewView {
                tabs,
                state: RootStateView { status: connected_status(state.channels), ..state },
            }
        },
    }
}

/// Something the user did.
#[derive(Copy, Clone, Debug, PartialEq, Eq, Structural)]
pub enum Input {
    /// A character typed with the control key held.
    Control(char),
    /// A character typed.
    Char(char),
    Backspace,
    Enter,
    /// A mouse button pressed at a cell of the screen.
    MouseDown { x: u16, y: u16 },
    /// Anything else.
    Other,
}

/// What the front end asks of the engine after something the user did, and
/// whether the front end is to stop.
#[derive(Debug)]
pub struct Reply {
    pub requests: Vec<Request>,
    pub stop: bool,
}

/// What a [`Reply`] is, with its text as character sequences.
#[verifier::ext_equal]
pub struct ReplyView {
    pub requests: Seq<RequestView>,
    pub stop: bool,
}

impl View for Reply {
    type V = ReplyView;

    open spec fn view(&self) -> ReplyView {
        ReplyView { requests: self.requests.deep_view(), stop: self.stop }
    }
}

/// The pieces of `text` between its commas, from `from` on. There is always
/// at least one, and a piece may be empty.
pub open spec fn pieces_from(text: Seq<char>, from: int) -> Seq<Seq<char>>
    decreases text.len() - from,
{
    let end = char_at_or_end(text, ',', from);
    if from <= end < text.len() {
        seq![text.subrange(from, end)] + pieces_from(text, end + 1)
    } else {
        seq![text.subrange(from, text.len() as int)]
    }
}

/// The requests to join each of `channels`.
pub open spec fn joins_of(channels: Seq<Seq<char>>) -> Seq<RequestView> {
    channels.map_values(|channel: Seq<char>| RequestView::JoinChannel { channel })
}

/// The tab that control and the digit `digit` select: the first for `1`,
/// the ninth for `9`, the tenth for `0`.
pub open spec fn digit_tab(digit: char) -> int {
    if digit == '0' {
        9
    } else {
        digit as int - '1' as int
    }
}

/// The tabs and the tab bar after control and `key`: a digit shows the tab
/// of that number, `f` the next tab, `g` the previous one.
pub open spec fn after_control(tabs: TabsView, display: Seq<DisplayChannelView>, key: char) -> (
    TabsView,
    Seq<DisplayChannelView>,
) {
    if '0' <= key <= '9' {
        after_switch_to(tabs, display, digit_tab(key))
    } else if key == 'f' {
        after_next(tabs, display)
    } else if key == 'g' {
        after_previous(tabs, display)
    } else {
        (tabs, display)
    }
}

/// Whether control and `key` can be carried out: the tabs that it leaves
/// and enters are in the tabs and in the tab bar.
pub open spec fn control_is_safe(tabs: TabsView, display: Seq<DisplayChannelView>, key: char) -> bool {
    if '0' <= key <= '9' {
        switch_is_safe(tabs, display, digit_tab(key))
    } else if key == 'f' {
        next_is_safe(tabs, display)
    } else if key == 'g' {
        previous_is_safe(tabs, display)
    } else {
        true
    }
}

/// The tab that a click at `pos` hits: the one of the first region that
/// holds `pos`, if that tab's channel is among the tabs.
pub open spec fn clicked_tab(tabs: TabsView, regions: Seq<RegionView>, pos: Pos2) -> Option<int> {
    match name_at(regions, covering_at(regions, pos, 0)) {
        Some(name) => if channel_at(tabs.channels, name, 0) < tabs.channels.len() {
            Some(channel_at(tabs.channels, name, 0))
        } else {
            None
        },
        None => None,
    }
}

/// Whether `input` can be carried out.
pub open spec fn input_is_safe(view: RootViewView, regions: Seq<RegionView>, input: Input) -> bool {
    match input {
        Input::Control(key) => control_is_safe(view.tabs, view.state.channels, key),
        Input::MouseDown { x, y } => match clicked_tab(view.tabs, regions, Pos2 { x, y }) {
            Some(to) => switch_is_safe(view.tabs, view.state.channels, to),
            None => true,
        },
        _ => true,
    }
}

/// What a line that was entered asks of the engine, where `shown` is the
/// name of the shown channel.
pub open spec fn requests_for(line: Seq<char>, shown: Option<Seq<char>>) -> ReplyView {
    match parsed_command(line) {
        CommandView::Join { channel } => ReplyView {
            requests: joins_of(pieces_from(channel, 0)),
            stop: false,
        },
        CommandView::Part { channel } => ReplyView {
            requests: seq![RequestView::PartChannel { channel }],
            stop: false,
        },
        CommandView::PartCurrent => ReplyView {
            requests: match shown {
                Some(channel) => seq![RequestView::PartChannel { channel }],
                None => Seq::empty(),
            },
            stop: false,
        },
        CommandView::Reconnect => ReplyView {
            requests: seq![RequestView::Disconnect { reconnect: true }],
            stop: false,
        },
        CommandView::Quit => ReplyView {
            requests: seq![RequestView::Disconnect { reconnect: false }],
            stop: true,
        },
        CommandView::Say => ReplyView {
            requests: match shown {
                Some(channel) => seq![RequestView::SendMesage { channel, data: line }],
                None => Seq::empty(),
            },
            stop: false,
        },
        CommandView::Error { .. } => ReplyView { requests: Seq::empty(), stop: false },
    }
}

/// The name of the shown channel, if there is one.
pub open spec fn shown_name(tabs: TabsView) -> Option<Seq<char>> {
    if 0 <= tabs.active < tabs.channels.len() {
        Some(tabs.channels[tabs.active].name)
    } else {
        None
    }
}

/// The front end after something the user did, and what it asks of the
/// engine.
pub open spec fn after_input(view: RootViewView, regions: Seq<RegionView>, input: Input) -> (
    RootViewView,
    ReplyView,
) {
    let silent = ReplyView { requests: Seq::empty(), stop: false };
    match input {
        Input::Control(key) => {
            let (tabs, display) = after_control(view.tabs, view.state.channels, key);
            let (tabs, state) = redrawn(
                tabs,
                RootStateView { channels: display, ..view.state },
                view.tabs.active,
            );
            (RootViewView { tabs, state }, silent)
        },
        Input::Char(c) => (
            RootViewView {
                state: RootStateView { input: view.state.input.push(c), ..view.state },
                ..view
            },
            silent,
        ),
        Input::Backspace => (
            RootViewView {
                state: RootStateView {
                    input: if view.state.input.len() > 0 {
                        view.state.input.drop_last()
                    } else {
                        view.state.input
                    },
                    ..view.state
                },
                ..view
            },
            silent,
        ),
        Input::Enter => (
            RootViewView { state: RootStateView { input: Seq::empty(), ..view.state }, ..view },
            requests_for(view.state.input, shown_name(view.tabs)),
        ),
        Input::MouseDown { x, y } => match clicked_tab(view.tabs, regions, Pos2 { x, y }) {
            Some(to) => {
                let (tabs, display) = after_switch_to(view.tabs, view.state.channels, to);
                let (tabs, state) = redrawn(
                    tabs,
                    RootStateView { channels: display, ..view.state },
                    view.tabs.active,
                );
                (RootViewView { tabs, state }, silent)
            },
            None => (view, silent),
        },
        Input::Other => (view, silent),
    }
}

/// Builds the reply that asks for nothing.
fn silence() -> (reply: Reply)
    ensures
        reply@ == (ReplyView { requests: Seq::empty(), stop: false }),
{
    let reply = Reply { requests: Vec::new(), stop: false };
    reply
}

/// Builds the reply that makes one request.
fn ask(request: Request, stop: bool) -> (reply: Reply)
    ensures
        reply@ == (ReplyView { requests: seq![request@], stop }),
{
    let mut requests: Vec<Request> = Vec::new();
    requests.push(request);
    Reply { requests, stop }
}

/// The requests to join each of the channels that `channels` names between
/// its commas.
pub fn join_requests(channels: &str) -> (requests: Vec<Request>)
    ensures
        requests.deep_view() == joins_of(pieces_from(channels@, 0)),
{
    let chars = chars_of(channels);
    let n = chars.len();
    let mut requests: Vec<Request> = Vec::new();
    let mut from: usize = 0;
    let ghost mut done: Seq<Seq<char>> = Seq::empty();
    loop
        invariant_except_break
            from <= n,
            done + pieces_from(channels@, from as int) == pieces_from(channels@, 0),
            requests.deep_view() == joins_of(done),
        invariant
            chars@ == channels@,
            n == chars.len(),
        ensures
            requests.deep_view() == joins_of(pieces_from(channels@, 0)),
        decreases n - from,
    {
        let end = find_char(&chars, ',', from);
        let last = end >= n;
        let piece = channels.substring_char(from, end);
        let ghost before = requests.deep_view();
        requests.push(Request::JoinChannel { channel: piece.to_owned() });
        proof {
            let joined = RequestView::JoinChannel { channel: piece@ };
            assert(requests.deep_view() == before.push(joined));
            done = done.push(piece@);
        }
        if last {
            break ;
        }
        from = end + 1;
    }
    requests
}

impl RootView {
    /// The front end before anything happened.
    pub fn new() -> (view: RootView)
        ensures
            view@ == (RootViewView {
                state: RootStateView::blank(),
                tabs: TabsView { channels: Seq::empty(), active: 0 },
            }),
    {
        RootView { state: RootState::new(), tabs: Tabs::default() }
    }

    /// Sets the status of a connected engine.
    fn mark_connected(&mut self)
        ensures
            final(self)@ == (RootViewView {
                state: RootStateView {
                    status: connected_status(old(self)@.state.channels),
                    ..old(self)@.state
                },
                ..old(self)@
            }),
    {
        self.state.status = if self.state.channels.len() == 0 {
            ConnectionStatus::OnNoChannels
        } else {
            ConnectionStatus::Connected
        };
    }

    /// Takes one event of the engine.
    pub fn apply_response(&mut self, response: Response)
        requires
            response_is_safe(old(self)@, response@),
        ensures
            final(self)@ == after_response(old(self)@, response@),
    {
        match response {
            Response::Message { message } => {
                let shown = match self.tabs.active() {
                    Some(channel) => channel.name == message.channel,
                    None => false,
                };
                match self.tabs.find_index_by_name(message.channel.as_str()) {
                    Some(pos) if !shown => {
                        self.tabs.channels[pos].push_message(message);
                        self.state.channels[pos].set_unread_messages();
                        self.tabs.channels[pos].set_unread_messages();
                    },
                    _ => {
                        self.state.output.push(message);
                    },
                }
            },
            Response::Connecting => {
                self.state.status = ConnectionStatus::Connecting;
            },
            Response::Connected { user } => {
                self.state.our_user = user;
                self.mark_connected();
            },
            Response::Disconnected => {
                self.state.status = ConnectionStatus::Reconnecting;
            },
            Response::AuthenticationFailed => {
                self.state.status = ConnectionStatus::InvalidAuth;
            },
            Response::JoinChannel { channel } => {
                self.tabs.join_channel(channel.as_str(), &mut self.state);
                self.mark_connected();
            },
            Response::PartChannel { channel } => {
                self.tabs.part_channel(channel.as_str(), &mut self.state);
                self.mark_connected();
            },
        }
    }

    /// Carries out control and `key`.
    fn control(&mut self, key: char)
        requires
            control_is_safe(old(self)@.tabs, old(self)@.state.channels, key),
        ensures
            (final(self)@.tabs, final(self)@.state.channels) == after_control(
                old(self)@.tabs,
                old(self)@.state.channels,
                key,
            ),
            final(self)@.state == (RootStateView {
                channels: final(self)@.state.channels,
                ..old(self)@.state
            }),
    {
        if '0' <= key && key <= '9' {
            let index = Self::tab_of_digit(key);
            self.tabs.switch_to_channel(index, &mut self.state.channels);
        } else if key == 'f' {
            self.tabs.next_channel(&mut self.state.channels);
        } else if key == 'g' {
            self.tabs.previous_channel(&mut self.state.channels);
        }
    }

    /// Reads the line that was entered.
    fn enter(&mut self) -> (reply: Reply)
        ensures
            final(self)@ == (RootViewView {
                state: RootStateView { input: Seq::empty(), ..old(self)@.state },
                ..old(self)@
            }),
            reply@ == requests_for(old(self)@.state.input, shown_name(old(self)@.tabs)),
    {
        let mut data = String::new();
        std::mem::swap(&mut self.state.input, &mut data);
        let shown = match self.tabs.active() {
            Some(channel) => Some(channel.name.clone()),
            None => None,
        };
        match process_input_for_commands(data.as_str()) {
            Command::Join { channel } => Reply { requests: join_requests(channel), stop: false },
            Command::Part { channel } => ask(
                Request::PartChannel { channel: channel.to_owned() },
                false,
            ),
            Command::PartCurrent => match shown {
                Some(channel) => ask(Request::PartChannel { channel }, false),
                None => silence(),
            },
            Command::Reconnect => ask(Request::Disconnect { reconnect: true }, false),
            Command::Quit => ask(Request::Disconnect { reconnect: false }, true),
            Command::Say => match shown {
                Some(channel) => ask(Request::SendMesage { channel, data: data.clone() }, false),
                None => silence(),
            },
            Command::Error { msg } => silence(),
        }
    }

    /// Takes something the user did. `regions` says where the tabs were
    /// last painted.
    pub fn on_event(&mut self, regions: &TabRegions, input: Input) -> (reply: Reply)
        requires
            input_is_safe(old(self)@, regions@, input),
        ensures
            (final(self)@, reply@) == after_input(old(self)@, regions@, input),
    {
        match input {
            Input::Control(key) => {
                let before = self.tabs.active;
                self.control(key);
                self.tabs.redraw_messages(before, &mut self.state);
                silence()
            },
            Input::Char(c) => {
                self.state.input.push(c);
                silence()
            },
            Input::Backspace => {
                let _ = self.state.input.pop();
                silence()
            },
            Input::Enter => self.enter(),
            Input::MouseDown { x, y } => {
                let before = self.tabs.active;
                match regions.containing_point(pos2(x, y)) {
                    Some(name) => match self.tabs.find_index_by_name(name.as_str()) {
                        Some(index) => {
                            self.tabs.switch_to_channel(index, &mut self.state.channels);
                            self.tabs.redraw_messages(before, &mut self.state);
                        },
                        None => {},
                    },
                    None => {},
                }
                silence()
            },
            Input::Other => silence(),
        }
    }

    /// The tab that control and the digit `digit` select.
    fn tab_of_digit(digit: char) -> (index: usize)
        requires
            '0' <= digit <= '9',
        ensures
            index == digit_tab(digit),
    {
        if digit == '0' {
            9
        } else {
            (digit as u8 - 49u8) as usize
        }
    }

    /// Tests whether `response` can be applied.
    pub fn response_fits(&self, response: &Response) -> (fits: bool)
        ensures
            fits == response_is_safe(self@, response@),
    {
        match response {
            Response::Message { message } => {
                let shown = match self.tabs.active() {
                    Some(channel) => channel.name == message.channel,
                    None => false,
                };
                match self.tabs.find_index_by_name(message.channel.as_str()) {
                    Some(pos) => shown || pos < self.state.channels.len(),
                    None => true,
                }
            },
            Response::PartChannel { channel } => self.tabs.part_fits(
                &self.state,
                channel.as_str(),
            ),
            _ => true,
        }
    }

    /// Tests whether `input` can be carried out.
    pub fn input_fits(&self, regions: &TabRegions, input: Input) -> (fits: bool)
        ensures
            fits == input_is_safe(self@, regions@, input),
    {
        match input {
            Input::Control(key) => {
                if '0' <= key && key <= '9' {
                    self.tabs.switch_fits(&self.state.channels, Self::tab_of_digit(key))
                } else if key == 'f' {
                    self.tabs.next_fits(&self.state.channels)
                } else if key == 'g' {
                    self.tabs.previous_fits(&self.state.channels)
                } else {
                    true
                }
            },
            Input::MouseDown { x, y } => match regions.containing_point(pos2(x, y)) {
                Some(name) => match self.tabs.find_index_by_name(name.as_str()) {
                    Some(to) => self.tabs.switch_fits(&self.state.channels, to),
                    None => true,
                },
                None => true,
            },
            _ => true,
        }
    }
}

} // verus!
