//! The bounded in-memory history of recent entries.

use vstd::prelude::*;
use std::collections::VecDeque;
use crate::entry::{entry_views, LogEntry, LogEntryView};

verus! {

/// The last `count` items of a sequence, or all of them where it has fewer.
pub open spec fn last_entries<T>(items: Seq<T>, count: nat) -> Seq<T> {
    if items.len() <= count {
        items
    } else {
        items.subrange(items.len() - count, items.len() as int)
    }
}

/// The contents after one entry is added under a capacity: the entry goes to
/// the end, and the oldest entries leave until the capacity is met.
pub open spec fn added<T>(contents: Seq<T>, capacity: nat, entry: T) -> Seq<T> {
    last_entries(contents.push(entry), capacity)
}

/// The contents after a run of entries is added one by one.
pub open spec fn added_all<T>(contents: Seq<T>, capacity: nat, entries: Seq<T>) -> Seq<T>
    decreases entries.len(),
{
    if entries.len() == 0 {
        contents
    } else {
        added(added_all(contents, capacity, entries.drop_last()), capacity, entries.last())
    }
}

/// However many entries are added to a buffer within its capacity, it stays
/// within its capacity and holds the last `capacity` of all that it held and
/// was given, in the order of arrival.
pub proof fn lemma_adds_keep_the_latest<T>(contents: Seq<T>, capacity: nat, entries: Seq<T>)
    requires
        contents.len() <= capacity,
    ensures
        added_all(contents, capacity, entries).len() <= capacity,
        added_all(contents, capacity, entries) == last_entries(contents + entries, capacity),
    decreases entries.len(),
{
    if entries.len() == 0 {
        assert(contents + entries =~= contents);
    } else {
        let earlier = entries.drop_last();
        lemma_adds_keep_the_latest(contents, capacity, earlier);
        assert((contents + earlier).push(entries.last()) =~= contents + entries);
        assert(added_all(contents, capacity, entries) =~= last_entries(
            contents + entries,
            capacity,
        ));
    }
}

/// Added to an empty buffer, a run of entries leaves its last `capacity`
/// entries, and after each single addition the buffer is within its capacity.
pub proof fn lemma_adds_from_empty<T>(capacity: nat, entries: Seq<T>)
    ensures
        added_all(Seq::<T>::empty(), capacity, entries) == last_entries(entries, capacity),
        forall|n: int|
            0 <= n <= entries.len() ==> (#[trigger] added_all(
                Seq::<T>::empty(),
                capacity,
                entries.take(n),
            )).len() <= capacity,
{
    lemma_adds_keep_the_latest(Seq::<T>::empty(), capacity, entries);
    assert(Seq::<T>::empty() + entries =~= entries);
    assert forall|n: int| 0 <= n <= entries.len() implies (#[trigger] added_all(
        Seq::<T>::empty(),
        capacity,
        entries.take(n),
    )).len() <= capacity by {
        lemma_adds_keep_the_latest(Seq::<T>::empty(), capacity, entries.take(n));
    }
}

/// Asked for `count` entries, a buffer with fewer hands out all it has, in
/// order; one with at least `count` hands out exactly its last `count`.
pub proof fn lemma_recent_entries<T>(contents: Seq<T>, count: nat)
    ensures
        contents.len() < count ==> last_entries(contents, count) == contents,
        contents.len() >= count ==> last_entries(contents, count).len() == count,
        contents.len() >= count ==> forall|i: int|
            0 <= i < count ==> #[trigger] last_entries(contents, count)[i] == contents[
                contents.len() - count + i
            ],
{
}

/// A first-in, first-out store of the most recent entries, bounded by a
/// capacity fixed at creation.
pub struct LogBuffer {
    logs: VecDeque<LogEntry>,
    max_size: usize,
}

impl View for LogBuffer {
    type V = Seq<LogEntryView>;

    /// The entries held, oldest first.
    closed spec fn view(&self) -> Seq<LogEntryView> {
        entry_views(self.logs@)
    }
}

impl LogBuffer {
    #[verifier::type_invariant]
    spec fn within_capacity(self) -> bool {
        self.logs@.len() <= self.max_size
    }

    /// The largest number of entries the buffer holds.
    pub closed spec fn capacity(&self) -> nat {
        self.max_size as nat
    }

    /// An empty buffer for at most `max_size` entries.
    pub fn new(max_size: usize) -> (buffer: Self)
        ensures
            buffer@ == Seq::<LogEntryView>::empty(),
            buffer.capacity() == max_size,
    {
        let buffer = LogBuffer { logs: VecDeque::new(), max_size };
        assert(buffer@ =~= Seq::<LogEntryView>::empty());
        buffer
    }

    /// Appends an entry, then drops entries from the front until the buffer is
    /// within its capacity again.
    pub fn add_log(&mut self, entry: LogEntry)
        ensures
            final(self)@ == added(old(self)@, old(self).capacity(), entry@),
            final(self)@.len() <= final(self).capacity(),
            final(self).capacity() == old(self).capacity(),
    {
        let mut logs: VecDeque<LogEntry> = VecDeque::new();
        std::mem::swap(&mut self.logs, &mut logs);
        logs.push_back(entry);
        let ghost pushed = logs@;
        assert(entry_views(pushed) =~= old(self)@.push(entry@));
        while logs.len() > self.max_size
            invariant
                logs@.len() <= pushed.len(),
                pushed.len() <= self.max_size ==> logs@.len() == pushed.len(),
                pushed.len() > self.max_size ==> logs@.len() >= self.max_size,
                logs@ == pushed.subrange(pushed.len() - logs@.len(), pushed.len() as int),
                self.max_size == old(self).max_size,
                self.logs@.len() == 0,
            decreases logs@.len(),
        {
            logs.pop_front();
            assert(logs@ =~= pushed.subrange(pushed.len() - logs@.len(), pushed.len() as int));
        }
        assert(logs@ =~= last_entries(pushed, self.max_size as nat));
        assert(entry_views(logs@) =~= last_entries(entry_views(pushed), self.max_size as nat));
        self.logs = logs;
    }

    /// A copy of every entry held, oldest first.
    pub fn get_logs(&self) -> (entries: Vec<LogEntry>)
        ensures
            entry_views(entries@) == self@,
            entries@.len() == self@.len(),
    {
        let entries = self.copy_from(0);
        assert(self.logs@.subrange(0, self.logs@.len() as int) =~= self.logs@);
        entries
    }

    /// A copy of the last `count` entries, oldest first; of all entries where
    /// the buffer holds fewer.
    pub fn get_logs_recent(&self, count: usize) -> (entries: Vec<LogEntry>)
        ensures
            entry_views(entries@) == last_entries(self@, count as nat),
            entries@.len() == if self@.len() <= count {
                self@.len()
            } else {
                count as nat
            },
    {
        let start: usize = if self.logs.len() > count {
            self.logs.len() - count
        } else {
            0
        };
        let entries = self.copy_from(start);
        assert(entry_views(entries@) =~= last_entries(self@, count as nat));
        entries
    }

    fn copy_from(&self, start: usize) -> (entries: Vec<LogEntry>)
        requires
            start <= self.logs@.len(),
        ensures
            entry_views(entries@) == entry_views(
                self.logs@.subrange(start as int, self.logs@.len() as int),
            ),
    {
        let mut entries: Vec<LogEntry> = Vec::new();
        let mut i: usize = start;
        while i < self.logs.len()
            invariant
                start <= i <= self.logs@.len(),
                entries@.len() == i - start,
                forall|j: int| 0 <= j < entries@.len() ==> entries@[j]@ == self.logs@[start + j]@,
            decreases self.logs@.len() - i,
        {
            entries.push(self.logs[i].clone());
            i += 1;
        }
        assert(entry_views(entries@) =~= entry_views(
            self.logs@.subrange(start as int, self.logs@.len() as int),
        ));
        entries
    }

    /// Drops every entry at once.
    pub fn clear(&mut self)
        ensures
            final(self)@ == Seq::<LogEntryView>::empty(),
            final(self)@.len() == 0,
            final(self).capacity() == old(self).capacity(),
    {
        let mut logs: VecDeque<LogEntry> = VecDeque::new();
        std::mem::swap(&mut self.logs, &mut logs);
        logs.clear();
        self.logs = logs;
        assert(self@ =~= Seq::<LogEntryView>::empty());
    }

    /// The number of entries held.
    pub fn len(&self) -> (count: usize)
        ensures
            count == self@.len(),
            count <= self.capacity(),
    {
        proof {
            use_type_invariant(self);
        }
        self.logs.len()
    }

    /// Whether no entry is held.
    pub fn is_empty(&self) -> (empty: bool)
        ensures
            empty == (self@.len() == 0),
    {
        self.logs.len() == 0
    }

    /// The capacity that the buffer was made with.
    pub fn max_size(&self) -> (capacity: usize)
        ensures
            capacity == self.capacity(),
    {
        self.max_size
    }
}

} // verus!
