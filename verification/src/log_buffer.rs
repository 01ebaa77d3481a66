//! Bounded, append-only, FIFO-evicting sequence of captured output lines.

use vstd::prelude::*;

verus! {

use std::collections::VecDeque;

/// The last `cap` elements of `s`; all of `s` if it is shorter.
pub open spec fn bounded_suffix(s: Seq<Seq<char>>, cap: nat) -> Seq<Seq<char>> {
    if s.len() <= cap {
        s
    } else {
        s.skip(s.len() - cap)
    }
}

/// What one append does to a bounded log: the new line goes on the end and
/// the oldest line is dropped if the bound would be exceeded.
pub open spec fn append_model(s: Seq<Seq<char>>, cap: nat, line: Seq<char>) -> Seq<Seq<char>> {
    bounded_suffix(s.push(line), cap)
}

/// A task's captured output: at most `cap()` lines, oldest first.
///
/// Shared (behind a host-side lock) between the task's I/O pump, which
/// appends, and the render path, which reads. Every mutation keeps the
/// length at or under the configured capacity.
pub struct LogBuffer {
    lines: VecDeque<String>,
    capacity: usize,
}

impl View for LogBuffer {
    type V = Seq<Seq<char>>;

    closed spec fn view(&self) -> Seq<Seq<char>> {
        self.lines.deep_view()
    }
}

impl LogBuffer {
    /// The configured capacity.
    pub closed spec fn cap(&self) -> nat {
        self.capacity as nat
    }

    /// The length never exceeds the capacity.
    pub open spec fn wf(&self) -> bool {
        self@.len() <= self.cap()
    }

    pub fn new(capacity: usize) -> (r: LogBuffer)
        ensures
            r@ == Seq::<Seq<char>>::empty(),
            r.cap() == capacity,
            r.wf(),
    {
        let lines: VecDeque<String> = VecDeque::new();
        proof {
            assert(lines.deep_view() =~= Seq::<Seq<char>>::empty());
        }
        LogBuffer { lines, capacity }
    }

    pub fn capacity(&self) -> (r: usize)
        ensures
            r == self.cap(),
    {
        self.capacity
    }

    pub fn len(&self) -> (r: usize)
        ensures
            r == self@.len(),
    {
        self.lines.len()
    }

    /// The line at position `i`, oldest first.
    pub fn line(&self, i: usize) -> (r: &String)
        requires
            i < self@.len(),
        ensures
            r@ == self@[i as int],
    {
        &self.lines[i]
    }

    /// Append one line, dropping the oldest line if the buffer is full.
    pub fn append(&mut self, line: String)
        requires
            old(self).wf(),
        ensures
            final(self)@ == append_model(old(self)@, old(self).cap(), line@),
            final(self).cap() == old(self).cap(),
            final(self).wf(),
    {
        let ghost pre = self.lines.deep_view();
        self.lines.push_back(line);
        proof {
            assert(self.lines.deep_view() =~= pre.push(line.deep_view()));
        }
        if self.lines.len() > self.capacity {
            let ghost grown = self.lines.deep_view();
            let _ = self.lines.pop_front();
            proof {
                assert(self.lines.deep_view() =~= grown.skip(1));
                assert(grown.skip(1) =~= bounded_suffix(pre.push(line@), self.capacity as nat));
            }
        }
    }

    /// Append each line in order, with the same eviction as `append`.
    ///
    /// Afterwards the buffer holds exactly the last `cap()` of the old
    /// contents followed by the new lines: appending more lines than the
    /// capacity leaves exactly the most recently appended ones, in order.
    pub fn append_lines(&mut self, lines: Vec<String>)
        requires
            old(self).wf(),
        ensures
            final(self)@ == bounded_suffix(old(self)@ + lines.deep_view(), old(self).cap()),
            final(self).cap() == old(self).cap(),
            final(self).wf(),
    {
        let ghost pre = self@;
        let ghost all = lines.deep_view();
        let ghost cap = self.cap();
        let mut i: usize = 0;
        while i < lines.len()
            invariant
                i <= lines.len(),
                all == lines.deep_view(),
                self@ == bounded_suffix(pre + all.take(i as int), cap),
                self.cap() == cap,
                self.wf(),
            decreases lines.len() - i,
        {
            let line = lines[i].clone();
            proof {
                assert(line@ == all[i as int]);
                lemma_append_step(pre, all, cap, i as int);
            }
            self.append(line);
            i = i + 1;
        }
        proof {
            assert(all.take(lines.len() as int) =~= all);
        }
    }
}

/// One more append moves the bounded suffix forward by one line.
proof fn lemma_append_step(pre: Seq<Seq<char>>, all: Seq<Seq<char>>, cap: nat, i: int)
    requires
        0 <= i < all.len(),
    ensures
        append_model(bounded_suffix(pre + all.take(i), cap), cap, all[i])
            == bounded_suffix(pre + all.take(i + 1), cap),
{
    let cur = bounded_suffix(pre + all.take(i), cap);
    let next_whole = pre + all.take(i + 1);
    assert(cur.push(all[i]) =~= bounded_suffix(next_whole, cap + 1));
    let grown = bounded_suffix(next_whole, cap + 1);
    if grown.len() <= cap {
        assert(bounded_suffix(grown, cap) =~= bounded_suffix(next_whole, cap));
    } else {
        assert(grown.skip(grown.len() - cap) =~= bounded_suffix(next_whole, cap));
    }
}

/// The log-length bound: whatever stood in a well-formed buffer and whatever
/// is appended, the result of one append never exceeds the capacity.
pub proof fn lemma_append_bounded(s: Seq<Seq<char>>, cap: nat, line: Seq<char>)
    requires
        s.len() <= cap,
    ensures
        append_model(s, cap, line).len() <= cap,
        s.len() < cap ==> append_model(s, cap, line) == s.push(line),
{
}

} // verus!
