//! The tabs of the joined channels, and the swap of input and messages
//! between the screen and the tab that is left or entered.

use vstd::prelude::*;
use crate::channel::{Channel, ChannelState, ChannelView};
use crate::display_channel::{DisplayChannel, DisplayChannelView, Status};
use crate::root_view::{RootState, RootStateView};
use crate::text::is_text;
use crate::twitch::types::MessageView;

verus! {

/// The joined channels and which of them is shown.
#[derive(Debug)]
pub struct Tabs {
    pub channels: Vec<Channel>,
    pub active: usize,
}

/// What [`Tabs`] holds.
#[verifier::ext_equal]
pub struct TabsView {
    pub channels: Seq<ChannelView>,
    pub active: int,
}

impl View for Tabs {
    type V = TabsView;

    open spec fn view(&self) -> TabsView {
        TabsView { channels: self.channels.deep_view(), active: self.active as int }
    }
}

impl Default for Tabs {
    fn default() -> (tabs: Tabs)
        ensures
            tabs@ == (TabsView { channels: Seq::empty(), active: 0 }),
    {
        let tabs = Tabs { channels: Vec::new(), active: 0 };
        tabs
    }
}

/// Where the channel `name` first stands at or after `from`; the number of
/// channels where it does not.
pub open spec fn channel_at(channels: Seq<ChannelView>, name: Seq<char>, from: int) -> int
    decreases channels.len() - from,
{
    if from < 0 || from >= channels.len() {
        channels.len() as int
    } else if channels[from].name == name {
        from
    } else {
        channel_at(channels, name, from + 1)
    }
}

/// Where the tab `name` first stands in the tab bar at or after `from`; the
/// number of tabs where it does not.
pub open spec fn display_at(display: Seq<DisplayChannelView>, name: Seq<char>, from: int) -> int
    decreases display.len() - from,
{
    if from < 0 || from >= display.len() {
        display.len() as int
    } else if display[from].name == name {
        from
    } else {
        display_at(display, name, from + 1)
    }
}

/// `channel_at` stays within the channels and finds one of that name.
pub proof fn lemma_channel_at(channels: Seq<ChannelView>, name: Seq<char>, from: int)
    requires
        0 <= from <= channels.len(),
    ensures
        from <= channel_at(channels, name, from) <= channels.len(),
        channel_at(channels, name, from) < channels.len() ==> channels[channel_at(
            channels,
            name,
            from,
        )].name == name,
        forall|at: int|
            from <= at < channel_at(channels, name, from) ==> (#[trigger] channels[at]).name
                != name,
    decreases channels.len() - from,
{
    if from < channels.len() && channels[from].name != name {
        lemma_channel_at(channels, name, from + 1);
    }
}

/// `display_at` stays within the tab bar and finds a tab of that name.
pub proof fn lemma_display_at(display: Seq<DisplayChannelView>, name: Seq<char>, from: int)
    requires
        0 <= from <= display.len(),
    ensures
        from <= display_at(display, name, from) <= display.len(),
        display_at(display, name, from) < display.len() ==> display[display_at(
            display,
            name,
            from,
        )].name == name,
        forall|at: int|
            from <= at < display_at(display, name, from) ==> (#[trigger] display[at]).name
                != name,
    decreases display.len() - from,
{
    if from < display.len() && display[from].name != name {
        lemma_display_at(display, name, from + 1);
    }
}

/// The tab bar with the tab at `at` drawn as `status`.
pub open spec fn with_status(display: Seq<DisplayChannelView>, at: int, status: Status) -> Seq<
    DisplayChannelView,
> {
    display.update(at, DisplayChannelView { status, ..display[at] })
}

/// The channels with the one at `at` in `state`.
pub open spec fn with_state(channels: Seq<ChannelView>, at: int, state: ChannelState) -> Seq<
    ChannelView,
> {
    channels.update(at, ChannelView { state, ..channels[at] })
}

/// The tab bar after the shown tab went from `from` to `to`: the one that
/// was left is no longer drawn as shown, if it was, and the one that was
/// entered is.
pub open spec fn moved(display: Seq<DisplayChannelView>, from: int, to: int) -> Seq<
    DisplayChannelView,
> {
    let left = if display[from].status == Status::Active {
        with_status(display, from, Status::Inactive)
    } else {
        display
    };
    with_status(left, to, Status::Active)
}

/// The channels after the shown one went from `from` to `to`.
pub open spec fn entered(channels: Seq<ChannelView>, from: int, to: int) -> Seq<ChannelView> {
    with_state(with_state(channels, from, ChannelState::Inactive), to, ChannelState::Active)
}

/// The tab after the shown one, going round at the end.
pub open spec fn next_index(tabs: TabsView) -> int {
    (tabs.active + 1) % (tabs.channels.len() as int)
}

/// The tab before the shown one, going round at the start.
pub open spec fn previous_index(tabs: TabsView) -> int {
    if tabs.active == 0 {
        tabs.channels.len() - 1
    } else {
        tabs.active - 1
    }
}

/// Whether a step to the next tab can be carried out: the tab that is left
/// and the one that is entered are in the tab bar.
pub open spec fn next_is_safe(tabs: TabsView, display: Seq<DisplayChannelView>) -> bool {
    tabs.channels.len() > 0 ==> tabs.active < usize::MAX && tabs.active < display.len()
        && next_index(tabs) < display.len()
}

/// Whether a step to the previous tab can be carried out: the tab that is
/// left is among the tabs, and it and the one that is entered are in the tab
/// bar.
pub open spec fn previous_is_safe(tabs: TabsView, display: Seq<DisplayChannelView>) -> bool {
    tabs.channels.len() > 0 ==> tabs.active < tabs.channels.len() && tabs.active < display.len()
        && previous_index(tabs) < display.len()
}

/// Whether a switch to the tab `to` can be carried out: where there is such
/// a tab, the tab that is left is among the tabs, and it and the one that
/// is entered are in the tab bar.
pub open spec fn switch_is_safe(tabs: TabsView, display: Seq<DisplayChannelView>, to: int) -> bool {
    to < tabs.channels.len() ==> tabs.active < tabs.channels.len() && tabs.active < display.len()
        && to < display.len()
}

/// The tabs and the tab bar after a step to the next tab.
pub open spec fn after_next(tabs: TabsView, display: Seq<DisplayChannelView>) -> (
    TabsView,
    Seq<DisplayChannelView>,
) {
    if tabs.channels.len() == 0 {
        (tabs, display)
    } else {
        (
            TabsView { active: next_index(tabs), ..tabs },
            moved(display, tabs.active, next_index(tabs)),
        )
    }
}

/// The tabs and the tab bar after a switch from the shown tab to `to`.
pub open spec fn after_switch(tabs: TabsView, display: Seq<DisplayChannelView>, to: int) -> (
    TabsView,
    Seq<DisplayChannelView>,
) {
    (
        TabsView { active: to, channels: entered(tabs.channels, tabs.active, to) },
        moved(display, tabs.active, to),
    )
}

/// The tabs and the tab bar after a step to the previous tab.
pub open spec fn after_previous(tabs: TabsView, display: Seq<DisplayChannelView>) -> (
    TabsView,
    Seq<DisplayChannelView>,
) {
    if tabs.channels.len() == 0 {
        (tabs, display)
    } else {
        after_switch(tabs, display, previous_index(tabs))
    }
}

/// The tabs and the tab bar after a switch to the tab `n`, which does
/// nothing where there is no such tab.
pub open spec fn after_switch_to(tabs: TabsView, display: Seq<DisplayChannelView>, n: int) -> (
    TabsView,
    Seq<DisplayChannelView>,
) {
    if n >= tabs.channels.len() {
        (tabs, display)
    } else {
        after_switch(tabs, display, n)
    }
}

/// The tabs and the screen after the shown channel took the screen over:
/// the input that was left in its tab is the line being typed again, and
/// the messages that waited in its tab follow those on the screen.
pub open spec fn synced(tabs: TabsView, state: RootStateView) -> (TabsView, RootStateView) {
    if 0 <= tabs.active < tabs.channels.len() {
        let shown = tabs.channels[tabs.active];
        (
            TabsView {
                channels: tabs.channels.update(
                    tabs.active,
                    ChannelView { buffer: None, messages: Seq::empty(), ..shown },
                ),
                ..tabs
            },
            RootStateView {
                input: match shown.buffer {
                    Some(buffer) => buffer,
                    None => Seq::empty(),
                },
                output: state.output + shown.messages,
                ..state
            },
        )
    } else {
        (tabs, state)
    }
}

/// The tabs and the screen after the channel at `before` gave the screen up:
/// the line being typed is kept in its tab, and the messages on the screen
/// follow those that waited there.
pub open spec fn stashed(tabs: TabsView, state: RootStateView, before: int) -> (
    TabsView,
    RootStateView,
) {
    if 0 <= before < tabs.channels.len() {
        let left = tabs.channels[before];
        (
            TabsView {
                channels: tabs.channels.update(
                    before,
                    ChannelView {
                        buffer: Some(state.input),
                        messages: left.messages + state.output,
                        ..left
                    },
                ),
                ..tabs
            },
            RootStateView { input: Seq::empty(), output: Seq::empty(), ..state },
        )
    } else {
        (tabs, state)
    }
}

/// The tabs and the screen after the shown tab changed from `before`: nothing
/// where it did not change; else the old channel gives the screen up and
/// the shown one takes it over.
pub open spec fn redrawn(tabs: TabsView, state: RootStateView, before: int) -> (
    TabsView,
    RootStateView,
) {
    if tabs.active == before {
        (tabs, state)
    } else {
        let (left, cleared) = stashed(tabs, state, before);
        synced(left, cleared)
    }
}

/// The tab bar with no tab drawn as shown.
pub open spec fn all_left(display: Seq<DisplayChannelView>) -> Seq<DisplayChannelView> {
    Seq::new(
        display.len(),
        |at: int|
            if display[at].status == Status::Active {
                DisplayChannelView { status: Status::Inactive, ..display[at] }
            } else {
                display[at]
            },
    )
}

/// A channel that was just joined.
pub open spec fn joined_channel(name: Seq<char>) -> ChannelView {
    ChannelView { name, buffer: None, messages: Seq::empty(), state: ChannelState::Active }
}

/// The tabs and the screen after the channel `name` was joined: nothing
/// where it has a tab already; else it gets a tab at the end, which is
/// shown, and the screen goes over to it.
pub open spec fn after_join(tabs: TabsView, state: RootStateView, name: Seq<char>) -> (
    TabsView,
    RootStateView,
) {
    if channel_at(tabs.channels, name, 0) < tabs.channels.len() {
        (tabs, state)
    } else {
        redrawn(
            TabsView {
                channels: tabs.channels.push(joined_channel(name)),
                active: tabs.channels.len() as int,
            },
            RootStateView {
                channels: all_left(state.channels).push(
                    DisplayChannelView { status: Status::Active, name },
                ),
                ..state
            },
            tabs.active,
        )
    }
}

/// The tabs after the channel `name` lost its tab. Where it was the shown
/// one, the tab before it is shown.
pub open spec fn parted(tabs: TabsView, name: Seq<char>) -> TabsView {
    let pos = channel_at(tabs.channels, name, 0);
    if pos < tabs.channels.len() {
        TabsView {
            active: if tabs.active == pos && tabs.active > 0 {
                tabs.active - 1
            } else {
                tabs.active
            },
            channels: tabs.channels.remove(pos),
        }
    } else {
        tabs
    }
}

/// Whether the channel `name` can be parted: where its tab leaves others
/// behind in the tab bar, the one to draw as shown is among them.
pub open spec fn part_is_safe(tabs: TabsView, state: RootStateView, name: Seq<char>) -> bool {
    let found = display_at(state.channels, name, 0);
    found < state.channels.len() && state.channels.len() > 1 ==> parted(tabs, name).active
        < state.channels.len() - 1
}

/// The tabs and the screen after the channel `name` was parted: its tab is
/// gone from the tabs and from the tab bar, the screen is cleared, and the
/// shown channel takes it over.
pub open spec fn after_part(tabs: TabsView, state: RootStateView, name: Seq<char>) -> (
    TabsView,
    RootStateView,
) {
    let left = parted(tabs, name);
    let found = display_at(state.channels, name, 0);
    let display = if found < state.channels.len() {
        let rest = state.channels.remove(found);
        if rest.len() > 0 {
            with_status(rest, left.active, Status::Active)
        } else {
            rest
        }
    } else {
        state.channels
    };
    synced(left, RootStateView { channels: display, output: Seq::empty(), ..state })
}

/// Finds where the tab `name` stands in the tab bar.
pub fn find_display(display: &Vec<DisplayChannel>, name: &str) -> (at: usize)
    ensures
        at == display_at(display.deep_view(), name@, 0),
        at <= display.len(),
        at < display.len() ==> display[at as int].name@ == name@,
{
    let n = display.len();
    let mut at: usize = 0;
    while at < n && !is_text(&display[at].name, name)
        invariant
            n == display.len(),
            at <= n,
            display_at(display.deep_view(), name@, 0) == display_at(
                display.deep_view(),
                name@,
                at as int,
            ),
        decreases n - at,
    {
        at += 1;
    }
    proof {
        lemma_display_at(display.deep_view(), name@, at as int);
    }
    at
}

/// Marks the tab that was left and the one that was entered.
fn move_display(display: &mut Vec<DisplayChannel>, from: usize, to: usize)
    requires
        from < old(display).len(),
        to < old(display).len(),
    ensures
        final(display).deep_view() == moved(old(display).deep_view(), from as int, to as int),
{
    if display[from].is_active() {
        display[from].set_inactive();
    }
    display[to].set_active();
}

impl Tabs {
    /// The channel that is shown, if there is one.
    pub fn active(&self) -> (channel: Option<&Channel>)
        ensures
            channel == if self.active < self.channels.len() {
                Some(&self.channels[self.active as int])
            } else {
                None
            },
    {
        if self.active < self.channels.len() {
            Some(&self.channels[self.active])
        } else {
            None
        }
    }

    /// The channel that is shown, if there is one, to be changed in place.
    pub fn active_mut(&mut self) -> (channel: Option<&mut Channel>)
        ensures
            match channel {
                Some(shown) => {
                    &&& old(self).active < old(self).channels.len()
                    &&& *shown == old(self).channels[old(self).active as int]
                    &&& final(self).active == old(self).active
                    &&& final(self).channels@ == old(self).channels@.update(
                        old(self).active as int,
                        *final(shown),
                    )
                },
                None => old(self).active >= old(self).channels.len() && *final(self) == *old(self),
            },
    {
        if self.active < self.channels.len() {
            Some(&mut self.channels[self.active])
        } else {
            None
        }
    }

    /// Where the channel `name` stands among the tabs.
    pub fn find_index_by_name(&self, name: &str) -> (index: Option<usize>)
        ensures
            index == if channel_at(self@.channels, name@, 0) < self.channels.len() {
                Some(channel_at(self@.channels, name@, 0) as usize)
            } else {
                None
            },
            index matches Some(at) ==> at < self.channels.len() && at == channel_at(
                self@.channels,
                name@,
                0,
            ),
    {
        let n = self.channels.len();
        let mut at: usize = 0;
        while at < n && !is_text(&self.channels[at].name, name)
            invariant
                n == self.channels.len(),
                at <= n,
                channel_at(self@.channels, name@, 0) == channel_at(self@.channels, name@, at as int),
            decreases n - at,
        {
            at += 1;
        }
        proof {
            lemma_channel_at(self@.channels, name@, at as int);
            lemma_channel_at(self@.channels, name@, 0);
        }
        if at < n {
            Some(at)
        } else {
            None
        }
    }

    /// Marks the channel that was left and the one that was entered, and
    /// shows the latter.
    fn enter(&mut self, to: usize)
        requires
            old(self).active < old(self).channels.len(),
            to < old(self).channels.len(),
        ensures
            final(self)@ == (TabsView {
                active: to as int,
                channels: entered(old(self)@.channels, old(self).active as int, to as int),
            }),
    {
        let old_active = self.active;
        self.active = to;
        self.channels[old_active].set_inactive();
        self.channels[to].set_active();
    }

    /// Shows the next tab, going round at the end. Only the tab bar is
    /// redrawn; the channels keep what they knew.
    pub fn next_channel(&mut self, display: &mut Vec<DisplayChannel>)
        requires
            next_is_safe(old(self)@, old(display).deep_view()),
        ensures
            (final(self)@, final(display).deep_view()) == after_next(
                old(self)@,
                old(display).deep_view(),
            ),
    {
        if self.channels.len() == 0 {
            return ;
        }
        let old_active = self.active;
        self.active = (self.active + 1) % self.channels.len();
        move_display(display, old_active, self.active);
    }

    /// Shows the previous tab, going round at the start.
    pub fn previous_channel(&mut self, display: &mut Vec<DisplayChannel>)
        requires
            previous_is_safe(old(self)@, old(display).deep_view()),
        ensures
            (final(self)@, final(display).deep_view()) == after_previous(
                old(self)@,
                old(display).deep_view(),
            ),
    {
        if self.channels.len() == 0 {
            return ;
        }
        let old_active = self.active;
        let to = if self.active == 0 {
            self.channels.len() - 1
        } else {
            self.active - 1
        };
        self.enter(to);
        move_display(display, old_active, to);
    }

    /// Shows the tab `n`, if there is one.
    pub fn switch_to_channel(&mut self, n: usize, display: &mut Vec<DisplayChannel>)
        requires
            switch_is_safe(old(self)@, old(display).deep_view(), n as int),
        ensures
            (final(self)@, final(display).deep_view()) == after_switch_to(
                old(self)@,
                old(display).deep_view(),
                n as int,
            ),
    {
        if self.channels.len() == 0 || n >= self.channels.len() {
            return ;
        }
        let old_active = self.active;
        self.enter(n);
        move_display(display, old_active, n);
    }

    /// Hands the screen to the shown channel: what was typed there is the
    /// line being typed again, and what came in for it goes on the screen.
    pub fn synchronize_input_buffer(&mut self, state: &mut RootState)
        ensures
            (final(self)@, final(state)@) == synced(old(self)@, old(state)@),
    {
        if self.active < self.channels.len() {
            let at = self.active;
            let ghost shown = self@.channels[at as int];
            let buffer = self.channels[at].buffer.take();
            state.input = match buffer {
                Some(buffer) => buffer,
                None => String::new(),
            };
            state.output.append(&mut self.channels[at].messages);
            proof {
                assert(self.channels[at as int]@ == (ChannelView {
                    buffer: None,
                    messages: Seq::empty(),
                    ..shown
                }));
            }
        }
    }

    /// Takes the screen from the channel at `before`: what is being typed and
    /// what is on the screen is kept in its tab.
    fn stash(&mut self, before: usize, state: &mut RootState)
        ensures
            (final(self)@, final(state)@) == stashed(old(self)@, old(state)@, before as int),
    {
        if before < self.channels.len() {
            let ghost left = self@.channels[before as int];
            let mut input = String::new();
            std::mem::swap(&mut state.input, &mut input);
            self.channels[before].buffer = Some(input);
            self.channels[before].messages.append(&mut state.output);
            proof {
                assert(self.channels[before as int].messages.deep_view() == left.messages + old(
                    state,
                ).output.deep_view());
            }
        }
    }

    /// Swaps the screen over after the shown tab changed from `before`.
    pub fn redraw_messages(&mut self, before: usize, state: &mut RootState)
        ensures
            (final(self)@, final(state)@) == redrawn(old(self)@, old(state)@, before as int),
    {
        if self.active == before {
            return ;
        }
        self.stash(before, state);
        self.synchronize_input_buffer(state);
    }

    /// Gives the channel `channel` a tab, unless it has one, and shows it.
    pub fn join_channel(&mut self, channel: &str, state: &mut RootState)
        ensures
            (final(self)@, final(state)@) == after_join(old(self)@, old(state)@, channel@),
    {
        if self.find_index_by_name(channel).is_some() {
            return ;
        }
        let old_active = self.active;
        let len = self.channels.len();
        self.channels.push(Channel::new(channel));
        self.active = len;

        let shown = state.channels.len();
        let mut at: usize = 0;
        while at < shown
            invariant
                shown == state.channels.len(),
                shown == old(state).channels.len(),
                at <= shown,
                state.status == old(state).status,
                state.our_user == old(state).our_user,
                state.input == old(state).input,
                state.output == old(state).output,
                forall|i: int|
                    0 <= i < at ==> (#[trigger] state.channels[i])@ == all_left(
                        old(state)@.channels,
                    )[i],
                forall|i: int|
                    at <= i < shown ==> (#[trigger] state.channels[i]) == old(state).channels[i],
            decreases shown - at,
        {
            if state.channels[at].is_active() {
                state.channels[at].set_inactive();
            }
            at += 1;
        }
        state.channels.push(DisplayChannel::new(channel));
        self.redraw_messages(old_active, state);
    }

    /// Takes the tab of the channel `channel` away and clears the screen
    /// for the channel that is shown then.
    pub fn part_channel(&mut self, channel: &str, state: &mut RootState)
        requires
            part_is_safe(old(self)@, old(state)@, channel@),
        ensures
            (final(self)@, final(state)@) == after_part(old(self)@, old(state)@, channel@),
    {
        match self.find_index_by_name(channel) {
            Some(pos) => {
                if self.active == pos && self.active > 0 {
                    self.active = self.active - 1;
                }
                self.channels.remove(pos);
            },
            None => {},
        }

        let shown = state.channels.len();
        let found = find_display(&state.channels, channel);
        if found < shown {
            state.channels.remove(found);
            if state.channels.len() > 0 {
                state.channels[self.active].set_active();
            }
        }
        state.output.clear();
        self.synchronize_input_buffer(state);
    }

    /// Tests whether a step to the next tab can be carried out.
    pub fn next_fits(&self, display: &Vec<DisplayChannel>) -> (fits: bool)
        ensures
            fits == next_is_safe(self@, display.deep_view()),
    {
        let n = self.channels.len();
        n == 0 || (self.active < usize::MAX && self.active < display.len() && (self.active + 1)
            % n < display.len())
    }

    /// Tests whether a step to the previous tab can be carried out.
    pub fn previous_fits(&self, display: &Vec<DisplayChannel>) -> (fits: bool)
        ensures
            fits == previous_is_safe(self@, display.deep_view()),
    {
        let n = self.channels.len();
        if n == 0 {
            true
        } else if self.active == 0 {
            n - 1 < display.len()
        } else {
            self.active < n && self.active < display.len()
        }
    }

    /// Tests whether a switch to the tab `to` can be carried out.
    pub fn switch_fits(&self, display: &Vec<DisplayChannel>, to: usize) -> (fits: bool)
        ensures
            fits == switch_is_safe(self@, display.deep_view(), to as int),
    {
        to >= self.channels.len() || (self.active < self.channels.len() && self.active
            < display.len() && to < display.len())
    }

    /// Tests whether the channel `channel` can be parted.
    pub fn part_fits(&self, state: &RootState, channel: &str) -> (fits: bool)
        ensures
            fits == part_is_safe(self@, state@, channel@),
    {
        let active_after = match self.find_index_by_name(channel) {
            Some(pos) => if self.active == pos && self.active > 0 {
                self.active - 1
            } else {
                self.active
            },
            None => self.active,
        };
        let shown = state.channels.len();
        let found = find_display(&state.channels, channel);
        !(found < shown && shown > 1) || active_after < shown - 1
    }
}

} // verus!
