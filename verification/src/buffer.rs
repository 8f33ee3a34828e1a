//! The bounded, append-only line buffer that an output relay writes and any
//! number of pollers read.
//!
//! Offsets are absolute: the first line ever appended has offset 0, and an
//! eviction moves the buffer's base forward without renumbering what stays.

use vstd::prelude::*;

verus! {

/// Number of lines a buffer may hold; one more triggers an eviction.
pub const HIGH_WATER: usize = 10000;

/// Number of lines dropped from the front by one eviction.
pub const EVICT_BATCH: usize = 1000;

/// What an output buffer stands for: the retained lines and the number of
/// lines that were dropped in front of them.
pub struct BufferModel {
    pub base: nat,
    pub lines: Seq<Seq<char>>,
}

impl BufferModel {
    pub open spec fn empty() -> BufferModel {
        BufferModel { base: 0, lines: Seq::empty() }
    }

    /// Offset just past the newest line: the count of all lines ever appended.
    pub open spec fn end(self) -> nat {
        self.base + self.lines.len()
    }

    pub open spec fn bounded(self) -> bool {
        self.lines.len() <= HIGH_WATER
    }

    /// The buffer after one more line: the line goes to the back, and if that
    /// overfills the buffer the oldest block leaves.
    pub open spec fn append(self, line: Seq<char>) -> BufferModel {
        if self.lines.len() + 1 > HIGH_WATER {
            BufferModel {
                base: self.base + EVICT_BATCH as nat,
                lines: self.lines.push(line).skip(EVICT_BATCH as int),
            }
        } else {
            BufferModel { base: self.base, lines: self.lines.push(line) }
        }
    }

    /// The buffer after the lines of `lines`, appended first to last.
    pub open spec fn append_all(self, lines: Seq<Seq<char>>) -> BufferModel
        decreases lines.len(),
    {
        if lines.len() == 0 {
            self
        } else {
            self.append_all(lines.drop_last()).append(lines.last())
        }
    }

    /// The retained lines whose offset is `offset` or later.
    pub open spec fn since(self, offset: nat) -> Seq<Seq<char>> {
        if offset >= self.end() {
            Seq::empty()
        } else if offset <= self.base {
            self.lines
        } else {
            self.lines.skip(offset - self.base)
        }
    }

    /// `history` is everything that was ever appended, and the buffer holds
    /// exactly its tail.
    pub open spec fn retains_tail_of(self, history: Seq<Seq<char>>) -> bool {
        &&& self.bounded()
        &&& self.end() == history.len()
        &&& self.lines == history.skip(self.base as int)
    }
}

/// One append keeps the bound, counts one more line and retains the tail of
/// the longer history.
pub proof fn lemma_append_retains_tail(m: BufferModel, history: Seq<Seq<char>>, line: Seq<char>)
    requires
        m.retains_tail_of(history),
    ensures
        m.append(line).retains_tail_of(history.push(line)),
        m.append(line).end() == m.end() + 1,
        m.append(line).base == m.base || m.append(line).base == m.base + EVICT_BATCH,
{
    let after = m.append(line);
    let longer = history.push(line);
    assert(after.lines =~= longer.skip(after.base as int));
}

/// However many lines are appended, the buffer never holds more than
/// `HIGH_WATER` of them, and what it holds is the tail of everything
/// appended, in the order of appending.
pub proof fn lemma_append_all_retains_tail(
    m: BufferModel,
    history: Seq<Seq<char>>,
    lines: Seq<Seq<char>>,
)
    requires
        m.retains_tail_of(history),
    ensures
        m.append_all(lines).retains_tail_of(history + lines),
        m.append_all(lines).base >= m.base,
    decreases lines.len(),
{
    if lines.len() > 0 {
        let front = lines.drop_last();
        lemma_append_all_retains_tail(m, history, front);
        lemma_append_retains_tail(m.append_all(front), history + front, lines.last());
        assert((history + front).push(lines.last()) =~= history + lines);
    }
}

/// A buffer filled from empty holds at most `HIGH_WATER` lines, and they are
/// the last lines of the input in the order in which they came.
pub proof fn lemma_filled_from_empty(lines: Seq<Seq<char>>)
    ensures
        BufferModel::empty().append_all(lines).retains_tail_of(lines),
        BufferModel::empty().append_all(lines).lines.len() <= HIGH_WATER,
        lines.len() <= HIGH_WATER ==> BufferModel::empty().append_all(lines) == (BufferModel {
            base: 0,
            lines,
        }),
{
    let none = Seq::<Seq<char>>::empty();
    assert(none.skip(0) =~= none);
    lemma_append_all_retains_tail(BufferModel::empty(), none, lines);
    if lines.len() <= HIGH_WATER {
        lemma_no_eviction_below_bound(BufferModel::empty(), lines);
    }
}

/// Appending lines that still fit evicts nothing.
pub proof fn lemma_no_eviction_below_bound(m: BufferModel, lines: Seq<Seq<char>>)
    requires
        m.lines.len() + lines.len() <= HIGH_WATER,
    ensures
        m.append_all(lines) == (BufferModel { base: m.base, lines: m.lines + lines }),
    decreases lines.len(),
{
    if lines.len() > 0 {
        let front = lines.drop_last();
        lemma_no_eviction_below_bound(m, front);
        assert((m.lines + front).push(lines.last()) =~= m.lines + lines);
    }
}

/// A poller that resumes at the offset its last poll returned gets exactly
/// the lines appended since, none twice, and misses only those that were
/// already evicted again.
pub proof fn lemma_poll_resumes(m: BufferModel, lines: Seq<Seq<char>>)
    requires
        m.bounded(),
    ensures
        ({
            let after = m.append_all(lines);
            let lost = if after.base > m.end() {
                after.base - m.end()
            } else {
                0
            };
            &&& after.end() == m.end() + lines.len()
            &&& after.since(m.end()) == lines.skip(lost)
            &&& after.since(after.end()) == Seq::<Seq<char>>::empty()
        }),
{
    let history = Seq::new(m.base, |i: int| Seq::<char>::empty()) + m.lines;
    assert(m.lines =~= history.skip(m.base as int));
    lemma_append_all_retains_tail(m, history, lines);
    let after = m.append_all(lines);
}

/// The output of one supervised process, as its relay appended it.
pub struct OutputBuffer {
    lines: Vec<String>,
    base: usize,
}

impl View for OutputBuffer {
    type V = BufferModel;

    closed spec fn view(&self) -> BufferModel {
        BufferModel { base: self.base as nat, lines: self.lines.deep_view() }
    }
}

impl OutputBuffer {
    #[verifier::type_invariant]
    spec fn inv(self) -> bool {
        &&& self.lines.len() <= HIGH_WATER
        &&& self.base + self.lines.len() <= usize::MAX
    }

    pub fn new() -> (buffer: OutputBuffer)
        ensures
            buffer@ == BufferModel::empty(),
    {
        let buffer = OutputBuffer { lines: Vec::new(), base: 0 };
        assert(buffer.lines.deep_view() =~= Seq::<Seq<char>>::empty());
        buffer
    }

    /// Number of lines held now.
    pub fn len(&self) -> (n: usize)
        ensures
            n == self@.lines.len(),
            n <= HIGH_WATER,
    {
        proof {
            use_type_invariant(self);
        }
        self.lines.len()
    }

    /// Offset of the oldest line still held.
    pub fn base(&self) -> (n: usize)
        ensures
            n == self@.base,
    {
        self.base
    }

    /// Offset that the next appended line will get.
    pub fn end_offset(&self) -> (n: usize)
        ensures
            n == self@.end(),
            self@.bounded(),
    {
        proof {
            use_type_invariant(self);
        }
        self.base + self.lines.len()
    }

    /// Appends one line, evicting the oldest block when the buffer overfills.
    pub fn push(&mut self, line: String)
        requires
            old(self)@.end() < usize::MAX,
        ensures
            final(self)@ == old(self)@.append(line@),
            final(self)@.bounded(),
    {
        proof {
            use_type_invariant(&*self);
        }
        let mut lines: Vec<String> = Vec::new();
        std::mem::swap(&mut lines, &mut self.lines);
        lines.push(line);
        if lines.len() > HIGH_WATER {
            let kept = lines.split_off(EVICT_BATCH);
            assert(kept.deep_view() =~= old(self)@.lines.push(line@).skip(EVICT_BATCH as int));
            *self = OutputBuffer { lines: kept, base: self.base + EVICT_BATCH };
        } else {
            assert(lines.deep_view() =~= old(self)@.lines.push(line@));
            *self = OutputBuffer { lines, base: self.base };
        }
    }

    /// The lines at `offset` and later, with the offset to resume from.
    /// Nothing in the buffer changes.
    pub fn read_from(&self, offset: usize) -> (out: (Vec<String>, usize))
        ensures
            out.0.deep_view() == self@.since(offset as nat),
            out.1 == self@.end(),
    {
        proof {
            use_type_invariant(self);
        }
        let end = self.base + self.lines.len();
        let mut out: Vec<String> = Vec::new();
        if offset >= end {
            return (out, end);
        }
        let start: usize = if offset <= self.base {
            0
        } else {
            offset - self.base
        };
        let mut i: usize = start;
        while i < self.lines.len()
            invariant
                start <= i <= self.lines.len(),
                out.len() == i - start,
                forall|k: int| 0 <= k < out.len() ==> out[k]@ == self.lines[start + k]@,
            decreases self.lines.len() - i,
        {
            out.push(self.lines[i].clone());
            i = i + 1;
        }
        (out, end)
    }
}

} // verus!
