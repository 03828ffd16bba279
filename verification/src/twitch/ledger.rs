//! The ledger of sent messages that the server has not yet acknowledged,
//! one first-in-first-out queue for each channel.

use vstd::prelude::*;
use crate::twitch::types::{User, UserView};

verus! {

/// A message that was sent and awaits its acknowledgment.
#[derive(Debug)]
pub struct PendingSend {
    pub user: User,
    pub data: String,
}

/// What a [`PendingSend`] is, with its text as character sequences.
#[verifier::ext_equal]
pub struct PendingSendView {
    pub user: UserView,
    pub data: Seq<char>,
}

impl View for PendingSend {
    type V = PendingSendView;

    open spec fn view(&self) -> PendingSendView {
        PendingSendView { user: self.user@, data: self.data@ }
    }
}

impl DeepView for PendingSend {
    type V = PendingSendView;

    open spec fn deep_view(&self) -> PendingSendView {
        self@
    }
}

/// One send in the ledger: the channel it went to and what was sent.
struct Entry {
    channel: String,
    pending: PendingSend,
}

/// A send as the ledger's model holds it.
#[verifier::ext_equal]
pub struct EntryView {
    pub channel: Seq<char>,
    pub pending: PendingSendView,
}

impl View for Entry {
    type V = EntryView;

    closed spec fn view(&self) -> EntryView {
        EntryView { channel: self.channel@, pending: self.pending@ }
    }
}

impl DeepView for Entry {
    type V = EntryView;

    closed spec fn deep_view(&self) -> EntryView {
        self@
    }
}

/// The sends of `entries` that went to `channel`, oldest first.
pub open spec fn queue_of(entries: Seq<EntryView>, channel: Seq<char>) -> Seq<PendingSendView>
    decreases entries.len(),
{
    if entries.len() == 0 {
        Seq::<PendingSendView>::empty()
    } else if entries.last().channel == channel {
        queue_of(entries.drop_last(), channel).push(entries.last().pending)
    } else {
        queue_of(entries.drop_last(), channel)
    }
}

/// Where the oldest send to `channel` at or after `from` stands in
/// `entries`; the length of `entries` where there is none.
pub open spec fn first_on(entries: Seq<EntryView>, channel: Seq<char>, from: int) -> int
    decreases entries.len() - from,
{
    if from < 0 || from >= entries.len() {
        entries.len() as int
    } else if entries[from].channel == channel {
        from
    } else {
        first_on(entries, channel, from + 1)
    }
}

/// The entries after the oldest send to `channel` has been taken out; the
/// entries unchanged where there is none.
pub open spec fn without_first(entries: Seq<EntryView>, channel: Seq<char>) -> Seq<EntryView> {
    let at = first_on(entries, channel, 0);
    if at < entries.len() {
        entries.remove(at)
    } else {
        entries
    }
}

/// The oldest send at or after `from` that went to `channel` stands where
/// `first_on` says, and none stands before it.
pub proof fn lemma_first_on(entries: Seq<EntryView>, channel: Seq<char>, from: int)
    requires
        0 <= from <= entries.len(),
    ensures
        from <= first_on(entries, channel, from) <= entries.len(),
        first_on(entries, channel, from) < entries.len() ==> entries[first_on(
            entries,
            channel,
            from,
        )].channel == channel,
        forall|at: int|
            from <= at < first_on(entries, channel, from) ==> (#[trigger] entries[at]).channel
                != channel,
    decreases entries.len() - from,
{
    if from < entries.len() && entries[from].channel != channel {
        lemma_first_on(entries, channel, from + 1);
    }
}

/// Entries none of which went to `channel` hold an empty queue for it.
pub proof fn lemma_queue_empty(entries: Seq<EntryView>, channel: Seq<char>)
    requires
        forall|at: int| 0 <= at < entries.len() ==> (#[trigger] entries[at]).channel != channel,
    ensures
        queue_of(entries, channel) == Seq::<PendingSendView>::empty(),
    decreases entries.len(),
{
    if entries.len() > 0 {
        lemma_queue_empty(entries.drop_last(), channel);
    }
}

/// Taking out the entry at `at` leaves the queue of every other channel as
/// it was.
pub proof fn lemma_remove_other(entries: Seq<EntryView>, at: int, channel: Seq<char>)
    requires
        0 <= at < entries.len(),
        entries[at].channel != channel,
    ensures
        queue_of(entries.remove(at), channel) == queue_of(entries, channel),
    decreases entries.len(),
{
    let init = entries.drop_last();
    if at != entries.len() - 1 {
        lemma_remove_other(init, at, channel);
        assert(entries.remove(at).drop_last() == init.remove(at));
    }
}

/// Taking out the oldest send to `channel`, which stands at `at`, takes the
/// head off that channel's queue.
pub proof fn lemma_remove_first(entries: Seq<EntryView>, at: int, channel: Seq<char>)
    requires
        0 <= at < entries.len(),
        entries[at].channel == channel,
        forall|before: int| 0 <= before < at ==> (#[trigger] entries[before]).channel != channel,
    ensures
        queue_of(entries, channel).len() > 0,
        queue_of(entries, channel)[0] == entries[at].pending,
        queue_of(entries.remove(at), channel) == queue_of(entries, channel).drop_first(),
    decreases entries.len(),
{
    let init = entries.drop_last();
    if at == entries.len() - 1 {
        lemma_queue_empty(init, channel);
    } else {
        lemma_remove_first(init, at, channel);
        assert(entries.remove(at).drop_last() == init.remove(at));
    }
}

/// The per-channel queues of sends that await acknowledgment.
pub struct Ledger {
    entries: Vec<Entry>,
}

impl View for Ledger {
    type V = Seq<EntryView>;

    closed spec fn view(&self) -> Seq<EntryView> {
        self.entries.deep_view()
    }
}

impl Ledger {
    /// The sends to `channel` that await acknowledgment, oldest first.
    pub open spec fn pending(&self, channel: Seq<char>) -> Seq<PendingSendView> {
        queue_of(self@, channel)
    }

    /// A ledger that holds nothing.
    pub fn new() -> (ledger: Ledger)
        ensures
            ledger@ == Seq::<EntryView>::empty(),
    {
        let ledger = Ledger { entries: Vec::new() };
        ledger
    }

    /// How many sends await acknowledgment, over all channels.
    pub fn len(&self) -> (n: usize)
        ensures
            n == self@.len(),
    {
        self.entries.len()
    }

    /// Puts a send to `channel` at the end of that channel's queue.
    pub fn push(&mut self, channel: String, pending: PendingSend)
        ensures
            final(self)@ == old(self)@.push(EntryView { channel: channel@, pending: pending@ }),
            final(self).pending(channel@) == old(self).pending(channel@).push(pending@),
            forall|other: Seq<char>|
                other != channel@ ==> final(self).pending(other) == old(self).pending(other),
    {
        self.entries.push(Entry { channel, pending });
        proof {
            assert(self@.drop_last() == old(self)@);
        }
    }

    /// Takes the oldest send to `channel` out of the ledger. `None` where
    /// none awaits acknowledgment on that channel.
    pub fn pop(&mut self, channel: &str) -> (popped: Option<PendingSend>)
        ensures
            final(self)@ == without_first(old(self)@, channel@),
            popped is Some == (old(self).pending(channel@).len() > 0),
            popped matches Some(p) ==> p@ == old(self).pending(channel@)[0],
            final(self).pending(channel@) == if popped is Some {
                old(self).pending(channel@).drop_first()
            } else {
                old(self).pending(channel@)
            },
            forall|other: Seq<char>|
                other != channel@ ==> final(self).pending(other) == old(self).pending(other),
    {
        let n = self.entries.len();
        let mut at: usize = 0;
        while at < n && !crate::text::is_text(&self.entries[at].channel, channel)
            invariant
                n == self.entries.len(),
                at <= n,
                *self == *old(self),
                first_on(self@, channel@, 0) == first_on(self@, channel@, at as int),
            decreases n - at,
        {
            at += 1;
        }
        proof {
            lemma_first_on(self@, channel@, 0);
        }
        if at < n {
            let entry = self.entries.remove(at);
            proof {
                let before = old(self)@;
                lemma_remove_first(before, at as int, channel@);
                assert forall|other: Seq<char>| other != channel@ implies queue_of(
                    before.remove(at as int),
                    other,
                ) == queue_of(before, other) by {
                    lemma_remove_other(before, at as int, other);
                }
            }
            Some(entry.pending)
        } else {
            proof {
                lemma_queue_empty(self@, channel@);
            }
            None
        }
    }
}

/// Taking the oldest send to `channel` out of `entries` takes the head off
/// that channel's queue, if it has one, and leaves every other queue alone.
pub proof fn lemma_without_first(entries: Seq<EntryView>, channel: Seq<char>, other: Seq<char>)
    ensures
        queue_of(without_first(entries, channel), channel) == if queue_of(entries, channel).len()
            > 0 {
            queue_of(entries, channel).drop_first()
        } else {
            queue_of(entries, channel)
        },
        other != channel ==> queue_of(without_first(entries, channel), other) == queue_of(
            entries,
            other,
        ),
        first_on(entries, channel, 0) < entries.len() <==> queue_of(entries, channel).len() > 0,
        queue_of(entries, channel).len() > 0 ==> queue_of(entries, channel)[0]
            == entries[first_on(entries, channel, 0)].pending,
{
    lemma_first_on(entries, channel, 0);
    let at = first_on(entries, channel, 0);
    if at < entries.len() {
        lemma_remove_first(entries, at, channel);
        if other != channel {
            lemma_remove_other(entries, at, other);
        }
    } else {
        lemma_queue_empty(entries, channel);
    }
}

/// One step in the life of a ledger: a send that enters it, or an
/// acknowledgment that takes the oldest send of its channel out.
pub enum LedgerOp {
    Send { channel: Seq<char>, pending: PendingSendView },
    Ack { channel: Seq<char> },
}

/// The ledger's entries after `ops`, starting from nothing.
pub open spec fn entries_after(ops: Seq<LedgerOp>) -> Seq<EntryView>
    decreases ops.len(),
{
    if ops.len() == 0 {
        Seq::<EntryView>::empty()
    } else {
        let before = entries_after(ops.drop_last());
        match ops.last() {
            LedgerOp::Send { channel, pending } => before.push(EntryView { channel, pending }),
            LedgerOp::Ack { channel } => without_first(before, channel),
        }
    }
}

/// What `ops` sent to `channel`, in order.
pub open spec fn sent_on(ops: Seq<LedgerOp>, channel: Seq<char>) -> Seq<PendingSendView>
    decreases ops.len(),
{
    if ops.len() == 0 {
        Seq::<PendingSendView>::empty()
    } else {
        let before = sent_on(ops.drop_last(), channel);
        match ops.last() {
            LedgerOp::Send { channel: to, pending } => if to == channel {
                before.push(pending)
            } else {
                before
            },
            LedgerOp::Ack { .. } => before,
        }
    }
}

/// What the acknowledgments among `ops` that name `channel` took out of
/// the ledger, in order.
pub open spec fn delivered_on(ops: Seq<LedgerOp>, channel: Seq<char>) -> Seq<PendingSendView>
    decreases ops.len(),
{
    if ops.len() == 0 {
        Seq::<PendingSendView>::empty()
    } else {
        let before = delivered_on(ops.drop_last(), channel);
        let queue = queue_of(entries_after(ops.drop_last()), channel);
        match ops.last() {
            LedgerOp::Ack { channel: of } => if of == channel && queue.len() > 0 {
                before.push(queue[0])
            } else {
                before
            },
            LedgerOp::Send { .. } => before,
        }
    }
}

/// The steps among `ops` that name `channel`, in order.
pub open spec fn ops_on(ops: Seq<LedgerOp>, channel: Seq<char>) -> Seq<LedgerOp>
    decreases ops.len(),
{
    if ops.len() == 0 {
        Seq::<LedgerOp>::empty()
    } else {
        let before = ops_on(ops.drop_last(), channel);
        let names = match ops.last() {
            LedgerOp::Send { channel: to, .. } => to == channel,
            LedgerOp::Ack { channel: of } => of == channel,
        };
        if names {
            before.push(ops.last())
        } else {
            before
        }
    }
}

/// Acknowledgments are matched first in, first out: on every channel, what
/// the acknowledgments took out, followed by what still waits, is what was
/// sent to that channel, in the order in which it was sent.
pub proof fn lemma_fifo(ops: Seq<LedgerOp>, channel: Seq<char>)
    ensures
        delivered_on(ops, channel) + queue_of(entries_after(ops), channel) == sent_on(
            ops,
            channel,
        ),
    decreases ops.len(),
{
    if ops.len() > 0 {
        let init = ops.drop_last();
        lemma_fifo(init, channel);
        let before = entries_after(init);
        match ops.last() {
            LedgerOp::Send { channel: to, pending } => {
                let entry = EntryView { channel: to, pending };
                assert(before.push(entry).drop_last() == before);
            },
            LedgerOp::Ack { channel: of } => {
                lemma_without_first(before, of, channel);
            },
        }
    }
}

/// The `n`th acknowledgment that a channel's queue answers takes out the
/// `n`th send to that channel.
pub proof fn lemma_nth_ack_takes_nth_send(ops: Seq<LedgerOp>, channel: Seq<char>, n: int)
    requires
        0 <= n < delivered_on(ops, channel).len(),
    ensures
        n < sent_on(ops, channel).len(),
        delivered_on(ops, channel)[n] == sent_on(ops, channel)[n],
{
    lemma_fifo(ops, channel);
}

/// Channels do not touch each other: what waits on a channel, and what its
/// acknowledgments took out, is the same as if the steps that name other
/// channels had never happened.
pub proof fn lemma_channels_independent(ops: Seq<LedgerOp>, channel: Seq<char>)
    ensures
        queue_of(entries_after(ops), channel) == queue_of(
            entries_after(ops_on(ops, channel)),
            channel,
        ),
        delivered_on(ops, channel) == delivered_on(ops_on(ops, channel), channel),
    decreases ops.len(),
{
    if ops.len() > 0 {
        let init = ops.drop_last();
        lemma_channels_independent(init, channel);
        let before = entries_after(init);
        let kept = ops_on(init, channel);
        let kept_before = entries_after(kept);
        match ops.last() {
            LedgerOp::Send { channel: to, pending } => {
                let entry = EntryView { channel: to, pending };
                assert(before.push(entry).drop_last() == before);
                if to == channel {
                    assert(kept_before.push(entry).drop_last() == kept_before);
                }
            },
            LedgerOp::Ack { channel: of } => {
                lemma_without_first(before, of, channel);
                if of == channel {
                    assert(kept.push(ops.last()).drop_last() == kept);
                    lemma_without_first(kept_before, of, channel);
                }
            },
        }
    }
}

} // verus!
