//! A channel as a tab holds it while it is not shown.

use vstd::prelude::*;
use crate::twitch::types::{Message, MessageView};

verus! {

/// What a tab knows of its channel's news.
#[derive(Copy, Clone, Debug, PartialEq, Eq, Structural)]
pub enum ChannelState {
    Active,
    Inactive,
    UnreadMessages,
    UnreadMentions,
}

/// A joined channel: its name, the input that was being typed when its tab
/// was left, and the messages that came in since.
#[derive(Debug)]
pub struct Channel {
    pub name: String,
    pub buffer: Option<String>,
    pub messages: Vec<Message>,
    pub state: ChannelState,
}

/// What a [`Channel`] is, with its text as character sequences.
#[verifier::ext_equal]
pub struct ChannelView {
    pub name: Seq<char>,
    pub buffer: Option<Seq<char>>,
    pub messages: Seq<MessageView>,
    pub state: ChannelState,
}

impl View for Channel {
    type V = ChannelView;

    open spec fn view(&self) -> ChannelView {
        ChannelView {
            name: self.name@,
            buffer: self.buffer.deep_view(),
            messages: self.messages.deep_view(),
            state: self.state,
        }
    }
}

impl DeepView for Channel {
    type V = ChannelView;

    open spec fn deep_view(&self) -> ChannelView {
        self@
    }
}

impl Channel {
    /// A channel that was just joined: shown, with nothing typed and
    /// nothing received.
    pub fn new(name: &str) -> (channel: Channel)
        ensures
            channel@ == (ChannelView {
                name: name@,
                buffer: None,
                messages: Seq::empty(),
                state: ChannelState::Active,
            }),
    {
        let channel = Channel {
            name: name.to_owned(),
            buffer: None,
            messages: Vec::new(),
            state: ChannelState::Active,
        };
        channel
    }

    /// What the tab knows of the channel's news.
    pub fn state(&self) -> (state: ChannelState)
        ensures
            state == self@.state,
    {
        self.state
    }

    /// Notes that the channel is not shown and has nothing new.
    pub fn set_inactive(&mut self)
        ensures
            final(self)@ == (ChannelView { state: ChannelState::Inactive, ..old(self)@ }),
            final(self).name == old(self).name,
            final(self).buffer == old(self).buffer,
            final(self).messages == old(self).messages,
    {
        self.state = ChannelState::Inactive;
    }

    /// Notes that the channel is shown.
    pub fn set_active(&mut self)
        ensures
            final(self)@ == (ChannelView { state: ChannelState::Active, ..old(self)@ }),
            final(self).name == old(self).name,
            final(self).buffer == old(self).buffer,
            final(self).messages == old(self).messages,
    {
        self.state = ChannelState::Active;
    }

    /// Notes that messages came in that were not seen.
    pub fn set_unread_messages(&mut self)
        ensures
            final(self)@ == (ChannelView { state: ChannelState::UnreadMessages, ..old(self)@ }),
            final(self).name == old(self).name,
            final(self).buffer == old(self).buffer,
            final(self).messages == old(self).messages,
    {
        self.state = ChannelState::UnreadMessages;
    }

    /// Notes that mentions came in that were not seen.
    pub fn set_unread_mentions(&mut self)
        ensures
            final(self)@ == (ChannelView { state: ChannelState::UnreadMentions, ..old(self)@ }),
            final(self).name == old(self).name,
            final(self).buffer == old(self).buffer,
            final(self).messages == old(self).messages,
    {
        self.state = ChannelState::UnreadMentions;
    }

    /// Puts a message at the end of those that wait to be shown.
    pub fn push_message(&mut self, msg: Message)
        ensures
            final(self)@ == (ChannelView {
                messages: old(self)@.messages.push(msg@),
                ..old(self)@
            }),
            final(self).name == old(self).name,
            final(self).buffer == old(self).buffer,
    {
        self.messages.push(msg);
    }
}

} // verus!
