//! A channel as the tab bar shows it.

use vstd::prelude::*;

verus! {

/// How a tab is drawn: each status has its own colour.
#[derive(Copy, Clone, Debug, PartialEq, Eq, Structural)]
pub enum Status {
    /// The tab that is shown.
    Active,
    /// A tab with nothing new.
    Inactive,
    /// A tab with messages that were not seen.
    Unread,
    /// A tab with mentions that were not seen.
    Mentions,
}

/// A channel as the tab bar shows it.
#[derive(Debug)]
pub struct DisplayChannel {
    pub status: Status,
    pub name: String,
}

/// What a [`DisplayChannel`] is, with its name as a character sequence.
#[verifier::ext_equal]
pub struct DisplayChannelView {
    pub status: Status,
    pub name: Seq<char>,
}

impl View for DisplayChannel {
    type V = DisplayChannelView;

    open spec fn view(&self) -> DisplayChannelView {
        DisplayChannelView { status: self.status, name: self.name@ }
    }
}

impl DeepView for DisplayChannel {
    type V = DisplayChannelView;

    open spec fn deep_view(&self) -> DisplayChannelView {
        self@
    }
}

impl DisplayChannel {
    /// A tab for `name`, shown.
    pub fn new(name: &str) -> (channel: DisplayChannel)
        ensures
            channel@ == (DisplayChannelView { status: Status::Active, name: name@ }),
    {
        DisplayChannel { status: Status::Active, name: name.to_owned() }
    }

    /// Whether the tab is the one shown.
    pub fn is_active(&self) -> (active: bool)
        ensures
            active == (self.status == Status::Active),
    {
        self.status == Status::Active
    }

    /// Whether the tab has nothing new.
    pub fn is_inactive(&self) -> (inactive: bool)
        ensures
            inactive == (self.status == Status::Inactive),
    {
        self.status == Status::Inactive
    }

    /// Draws the tab as one with nothing new.
    pub fn set_inactive(&mut self)
        ensures
            final(self)@ == (DisplayChannelView { status: Status::Inactive, ..old(self)@ }),
    {
        self.status = Status::Inactive;
    }

    /// Draws the tab as the one shown.
    pub fn set_active(&mut self)
        ensures
            final(self)@ == (DisplayChannelView { status: Status::Active, ..old(self)@ }),
    {
        self.status = Status::Active;
    }

    /// Draws the tab as one with messages that were not seen.
    pub fn set_unread_messages(&mut self)
        ensures
            final(self)@ == (DisplayChannelView { status: Status::Unread, ..old(self)@ }),
    {
        self.status = Status::Unread;
    }

    /// Draws the tab as one with mentions that were not seen.
    pub fn set_unread_mentions(&mut self)
        ensures
            final(self)@ == (DisplayChannelView { status: Status::Mentions, ..old(self)@ }),
    {
        self.status = Status::Mentions;
    }
}

} // verus!
