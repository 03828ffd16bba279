//! The channels that the local user means to be joined to.

use vstd::prelude::*;
use crate::text::is_text;

verus! {

/// Where `channel` first stands in `names` at or after `from`; the length
/// of `names` where it does not.
pub open spec fn position(names: Seq<Seq<char>>, channel: Seq<char>, from: int) -> int
    decreases names.len() - from,
{
    if from < 0 || from >= names.len() {
        names.len() as int
    } else if names[from] == channel {
        from
    } else {
        position(names, channel, from + 1)
    }
}

/// `names` with `channel` at its end, unless it is among them already.
pub open spec fn with_channel(names: Seq<Seq<char>>, channel: Seq<char>) -> Seq<Seq<char>> {
    if names.contains(channel) {
        names
    } else {
        names.push(channel)
    }
}

/// `names` without `channel`.
pub open spec fn without_channel(names: Seq<Seq<char>>, channel: Seq<char>) -> Seq<Seq<char>> {
    let at = position(names, channel, 0);
    if at < names.len() {
        names.remove(at)
    } else {
        names
    }
}

/// `position` finds `channel` exactly where it is among `names`.
pub proof fn lemma_position(names: Seq<Seq<char>>, channel: Seq<char>, from: int)
    requires
        0 <= from <= names.len(),
    ensures
        from <= position(names, channel, from) <= names.len(),
        position(names, channel, from) < names.len() ==> names[position(names, channel, from)]
            == channel,
        forall|at: int| from <= at < position(names, channel, from) ==> names[at] != channel,
        from == 0 ==> (position(names, channel, from) < names.len() <==> names.contains(channel)),
    decreases names.len() - from,
{
    if from < names.len() && names[from] != channel {
        lemma_position(names, channel, from + 1);
    }
}

/// Adding a channel keeps the names distinct, holds the channel, and
/// neither adds nor loses any other.
pub proof fn lemma_with_channel(names: Seq<Seq<char>>, channel: Seq<char>)
    requires
        names.no_duplicates(),
    ensures
        with_channel(names, channel).no_duplicates(),
        with_channel(names, channel).contains(channel),
        forall|other: Seq<char>|
            other != channel ==> (#[trigger] with_channel(names, channel).contains(other)
                <==> names.contains(other)),
{
    let after = with_channel(names, channel);
    if !names.contains(channel) {
        assert(after[names.len() as int] == channel);
        assert forall|other: Seq<char>| other != channel implies (#[trigger] after.contains(other)
            <==> names.contains(other)) by {
            if names.contains(other) {
                let at = choose|at: int| 0 <= at < names.len() && names[at] == other;
                assert(after[at] == other);
            }
        }
    }
}

/// Removing a channel keeps the names distinct, no longer holds the
/// channel, and neither adds nor loses any other.
pub proof fn lemma_without_channel(names: Seq<Seq<char>>, channel: Seq<char>)
    requires
        names.no_duplicates(),
    ensures
        without_channel(names, channel).no_duplicates(),
        !without_channel(names, channel).contains(channel),
        forall|other: Seq<char>|
            other != channel ==> (#[trigger] without_channel(names, channel).contains(other)
                <==> names.contains(other)),
{
    lemma_position(names, channel, 0);
    let at = position(names, channel, 0);
    let after = without_channel(names, channel);
    if at < names.len() {
        assert forall|other: Seq<char>| other != channel implies (#[trigger] after.contains(other)
            <==> names.contains(other)) by {
            if names.contains(other) {
                let i = choose|i: int| 0 <= i < names.len() && names[i] == other;
                if i >= at {
                    assert(after[i - 1] == other);
                }
            }
        }
    }
}

/// The set of channels that the server has confirmed the local user
/// joined, and not yet confirmed left. It holds each channel once, in the
/// order in which they were confirmed.
pub struct RequestedChannels {
    names: Vec<String>,
}

impl View for RequestedChannels {
    type V = Seq<Seq<char>>;

    closed spec fn view(&self) -> Seq<Seq<char>> {
        self.names.deep_view()
    }
}

impl RequestedChannels {
    /// No channel stands in the set twice.
    pub open spec fn wf(&self) -> bool {
        self@.no_duplicates()
    }

    /// The empty set.
    pub fn new() -> (channels: RequestedChannels)
        ensures
            channels@ == Seq::<Seq<char>>::empty(),
            channels.wf(),
    {
        let channels = RequestedChannels { names: Vec::new() };
        channels
    }

    /// How many channels the set holds.
    pub fn len(&self) -> (n: usize)
        ensures
            n == self@.len(),
    {
        self.names.len()
    }

    /// The channel at `at`, counting in the order of confirmation.
    pub fn get(&self, at: usize) -> (name: &String)
        requires
            at < self@.len(),
        ensures
            name@ == self@[at as int],
    {
        &self.names[at]
    }

    /// Finds where `channel` stands.
    fn find(&self, channel: &str) -> (at: usize)
        ensures
            at == position(self@, channel@, 0),
            at <= self@.len(),
    {
        let n = self.names.len();
        let mut at: usize = 0;
        while at < n && !is_text(&self.names[at], channel)
            invariant
                n == self.names.len(),
                at <= n,
                position(self@, channel@, 0) == position(self@, channel@, at as int),
            decreases n - at,
        {
            at += 1;
        }
        proof {
            lemma_position(self@, channel@, at as int);
        }
        at
    }

    /// Whether the set holds `channel`.
    pub fn contains(&self, channel: &str) -> (held: bool)
        ensures
            held == self@.contains(channel@),
    {
        let at = self.find(channel);
        proof {
            lemma_position(self@, channel@, 0);
        }
        at < self.names.len()
    }

    /// Puts `channel` into the set. Says whether it was new.
    pub fn insert(&mut self, channel: String) -> (fresh: bool)
        requires
            old(self).wf(),
        ensures
            final(self).wf(),
            fresh == !old(self)@.contains(channel@),
            final(self)@ == with_channel(old(self)@, channel@),
    {
        proof {
            lemma_with_channel(self@, channel@);
        }
        if self.contains(channel.as_str()) {
            false
        } else {
            let ghost name = channel@;
            self.names.push(channel);
            assert(self.names.deep_view() == old(self).names.deep_view().push(name));
            true
        }
    }

    /// Takes `channel` out of the set. Says whether it was there.
    pub fn remove(&mut self, channel: &str) -> (held: bool)
        requires
            old(self).wf(),
        ensures
            final(self).wf(),
            held == old(self)@.contains(channel@),
            final(self)@ == without_channel(old(self)@, channel@),
    {
        proof {
            lemma_without_channel(self@, channel@);
            lemma_position(self@, channel@, 0);
        }
        let at = self.find(channel);
        if at < self.names.len() {
            self.names.remove(at);
            assert(self.names.deep_view() == old(self).names.deep_view().remove(at as int));
            true
        } else {
            false
        }
    }
}

} // verus!
