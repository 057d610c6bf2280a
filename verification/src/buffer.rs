//! The bounded line buffer: a first-in, first-out window over the lines a
//! session has printed.

use std::collections::VecDeque;
use vstd::prelude::*;

verus! {

/// Number of lines a buffer keeps unless told otherwise.
pub const DEFAULT_LINE_LIMIT: usize = 100;

/// The last `limit` elements of `lines`, or all of them if there are fewer.
pub open spec fn tail<T>(lines: Seq<T>, limit: nat) -> Seq<T> {
    if lines.len() <= limit {
        lines
    } else {
        lines.subrange(lines.len() - limit, lines.len() as int)
    }
}

/// What a buffer of `limit` lines holds after `line` is appended to `held`.
pub open spec fn after_append<T>(held: Seq<T>, line: T, limit: nat) -> Seq<T> {
    tail(held.push(line), limit)
}

/// What a buffer of `limit` lines holds after every line of `lines` has been
/// appended, in order, to `held`.
pub open spec fn after_appends<T>(held: Seq<T>, lines: Seq<T>, limit: nat) -> Seq<T>
    decreases lines.len(),
{
    if lines.len() == 0 {
        held
    } else {
        after_append(after_appends(held, lines.drop_last(), limit), lines.last(), limit)
    }
}

/// A window never holds more than its limit, and holds exactly its limit
/// once that many elements have been seen.
pub proof fn lemma_tail_len<T>(lines: Seq<T>, limit: nat)
    ensures
        tail(lines, limit).len() <= limit,
        tail(lines, limit).len() <= lines.len(),
        lines.len() >= limit ==> tail(lines, limit).len() == limit,
{
}

/// Appending a run of lines one by one leaves the newest `limit` lines of
/// everything the buffer has seen, in the order in which they arrived.
pub proof fn lemma_appends_keep_newest<T>(held: Seq<T>, lines: Seq<T>, limit: nat)
    requires
        held.len() <= limit,
    ensures
        after_appends(held, lines, limit) == tail(held + lines, limit),
    decreases lines.len(),
{
    if lines.len() == 0 {
        assert(held + lines =~= held);
    } else {
        let front = lines.drop_last();
        lemma_appends_keep_newest(held, front, limit);
        assert((held + front).push(lines.last()) =~= held + lines);
        assert(tail(tail(held + front, limit).push(lines.last()), limit) =~= tail(
            held + lines,
            limit,
        ));
    }
}

/// Every state that a buffer passes through while `lines` are appended to an
/// empty buffer is one unbroken run of those lines: after the first `count`
/// appends it holds the lines up to `count`, starting where the limit cuts
/// off, with no line missing, repeated or out of order. A snapshot taken
/// between two appends is such a run.
pub proof fn lemma_states_are_contiguous<T>(lines: Seq<T>, limit: nat, count: int)
    requires
        0 <= count <= lines.len(),
    ensures
        after_appends(Seq::<T>::empty(), lines.take(count), limit) == lines.subrange(
            if count <= limit {
                0
            } else {
                count - limit
            },
            count,
        ),
{
    let seen = lines.take(count);
    lemma_appends_keep_newest(Seq::<T>::empty(), seen, limit);
    assert(Seq::<T>::empty() + seen =~= seen);
    assert(tail(seen, limit) =~= lines.subrange(
        if count <= limit {
            0
        } else {
            count - limit
        },
        count,
    ));
}

/// Eviction: after more appends than the limit, the buffer holds exactly
/// `limit` lines, and they are the last `limit` lines appended, in their
/// order of arrival.
pub proof fn lemma_eviction<T>(held: Seq<T>, lines: Seq<T>, limit: nat)
    requires
        held.len() <= limit,
        lines.len() > limit,
    ensures
        after_appends(held, lines, limit).len() == limit,
        after_appends(held, lines, limit) == lines.subrange(
            lines.len() - limit,
            lines.len() as int,
        ),
{
    lemma_appends_keep_newest(held, lines, limit);
    assert(tail(held + lines, limit) =~= lines.subrange(lines.len() - limit, lines.len() as int));
}

/// First in, first out: one more line on a full buffer removes exactly the
/// oldest line and puts the new one at the end, so the length stays at the
/// limit.
pub proof fn lemma_full_append_is_fifo<T>(held: Seq<T>, line: T, limit: nat)
    requires
        limit > 0,
        held.len() == limit,
    ensures
        after_append(held, line, limit) == held.subrange(1, held.len() as int).push(line),
        after_append(held, line, limit).len() == limit,
{
    assert(after_append(held, line, limit) =~= held.subrange(1, held.len() as int).push(line));
}

/// Below the limit nothing is evicted: the new line is added at the end.
pub proof fn lemma_append_below_limit<T>(held: Seq<T>, line: T, limit: nat)
    requires
        held.len() < limit,
    ensures
        after_append(held, line, limit) == held.push(line),
{
}

/// A buffer that keeps at least one line is never empty again once a line
/// has reached it: eviction makes room for a line, it never clears.
pub proof fn lemma_output_is_never_lost<T>(held: Seq<T>, lines: Seq<T>, limit: nat)
    requires
        limit > 0,
        held.len() > 0 || lines.len() > 0,
    ensures
        after_appends(held, lines, limit).len() > 0,
    decreases lines.len(),
{
    if lines.len() > 0 {
        let before = after_appends(held, lines.drop_last(), limit);
        assert(after_append(before, lines.last(), limit).len() > 0);
    }
}

/// An ordered sequence of text lines with a fixed maximum length. Appending
/// to a full buffer evicts the single oldest line.
pub struct LineBuffer {
    lines: VecDeque<String>,
    limit: usize,
}

impl LineBuffer {
    /// The lines held, oldest first, each as its sequence of characters.
    pub closed spec fn view(&self) -> Seq<Seq<char>> {
        self.lines.deep_view()
    }

    /// The maximum number of lines held.
    pub closed spec fn spec_limit(&self) -> nat {
        self.limit as nat
    }

    /// The buffer never holds more lines than its limit.
    #[verifier::type_invariant]
    pub closed spec fn well_formed(&self) -> bool {
        self.lines.len() <= self.limit
    }

    /// An empty buffer that keeps at most `limit` lines.
    pub fn new(limit: usize) -> (buffer: LineBuffer)
        ensures
            buffer@ == Seq::<Seq<char>>::empty(),
            buffer.spec_limit() == limit,
    {
        let buffer = LineBuffer { lines: VecDeque::new(), limit };
        assert(buffer.lines.deep_view() =~= Seq::<Seq<char>>::empty());
        buffer
    }

    /// The maximum number of lines held.
    pub fn limit(&self) -> (limit: usize)
        ensures
            limit == self.spec_limit(),
    {
        self.limit
    }

    /// The number of lines held.
    pub fn len(&self) -> (len: usize)
        ensures
            len == self@.len(),
            len <= self.spec_limit(),
    {
        proof {
            use_type_invariant(self);
        }
        self.lines.len()
    }

    /// Whether no line is held.
    pub fn is_empty(&self) -> (empty: bool)
        ensures
            empty <==> self@.len() == 0,
    {
        self.lines.len() == 0
    }

    /// Adds `line` at the end. If the buffer was full, the oldest line leaves
    /// first, so the length never exceeds the limit.
    pub fn append(&mut self, line: String)
        ensures
            final(self)@ == after_append(old(self)@, line@, old(self).spec_limit()),
            final(self).spec_limit() == old(self).spec_limit(),
    {
        proof {
            use_type_invariant(&*self);
        }
        let ghost before = self.lines.deep_view();
        if self.limit == 0 {
            assert(after_append(before, line@, 0) =~= before);
            return ;
        }
        let mut lines: VecDeque<String> = VecDeque::new();
        std::mem::swap(&mut lines, &mut self.lines);
        if lines.len() == self.limit {
            let _oldest = lines.pop_front();
        }
        lines.push_back(line);
        assert(lines.deep_view() =~= after_append(before, line@, self.limit as nat));
        self.lines = lines;
    }

    /// The lines held, oldest first, as they stand at this moment.
    pub fn snapshot(&self) -> (lines: Vec<String>)
        ensures
            lines.deep_view() == self@,
    {
        let mut lines: Vec<String> = Vec::new();
        let mut i: usize = 0;
        while i < self.lines.len()
            invariant
                i <= self.lines.len(),
                lines.len() == i,
                forall|k: int| 0 <= k < i ==> lines@[k]@ == self.lines@[k]@,
            decreases self.lines.len() - i,
        {
            lines.push(self.lines[i].clone());
            i = i + 1;
        }
        assert(lines.deep_view() =~= self.lines.deep_view());
        lines
    }
}

} // verus!
