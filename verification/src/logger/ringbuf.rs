//! The ring of log entries between the emulator and the log printer: the
//! writer pushes at its position, the reader pops at its own, both positions
//! counting up (wrapping at 2^32) and taken modulo the ring's size.
use vstd::prelude::*;

verus! {

pub struct RingBuffer<T> {
    read_pos: u32,
    write_pos: u32,
    entries: Vec<T>,
}

/// The slots of the ring and the two positions.
pub struct RingView<T> {
    pub entries: Seq<T>,
    pub read_pos: u32,
    pub write_pos: u32,
}

impl<T> View for RingBuffer<T> {
    type V = RingView<T>;

    closed spec fn view(&self) -> RingView<T> {
        RingView { entries: self.entries@, read_pos: self.read_pos, write_pos: self.write_pos }
    }
}

/// A position one step on, wrapping at 2^32.
pub open spec fn next_pos(pos: u32) -> u32 {
    ((pos + 1) % 0x1_0000_0000) as u32
}

/// The slot of a position.
pub open spec fn slot<T>(r: RingView<T>, pos: u32) -> int {
    (pos as int) % (r.entries.len() as int)
}

/// The ring after a push.
pub open spec fn pushed<T>(r: RingView<T>, entry: T) -> RingView<T> {
    RingView { entries: r.entries.update(slot(r, r.write_pos), entry), write_pos: next_pos(r.write_pos), ..r }
}

/// The ring after a pop, and the entry popped: nothing when both positions meet.
pub open spec fn popped<T>(r: RingView<T>) -> (RingView<T>, Option<T>) {
    if r.read_pos == r.write_pos {
        (r, None)
    } else {
        (RingView { read_pos: next_pos(r.read_pos), ..r }, Some(r.entries[slot(r, r.read_pos)]))
    }
}

impl<T: Copy> RingBuffer<T> {
    /// A ring of `size` slots, each holding `fill`, with both positions at 0.
    pub fn new(size: usize, fill: T) -> (r: Self)
        requires
            size > 0,
        ensures
            r@.entries == Seq::new(size as nat, |i: int| fill),
            r@.read_pos == 0,
            r@.write_pos == 0,
    {
        let mut entries: Vec<T> = Vec::with_capacity(size);
        for i in 0..size
            invariant
                entries@ == Seq::new(i as nat, |j: int| fill),
        {
            entries.push(fill);
            assert(entries@ =~= Seq::new((i + 1) as nat, |j: int| fill));
        }
        Self { read_pos: 0, write_pos: 0, entries }
    }

    /// Stores an entry at the write position and moves it on. A full ring
    /// overwrites its oldest entry.
    pub fn push(&mut self, entry: T)
        requires
            old(self)@.entries.len() > 0,
        ensures
            final(self)@ == pushed(old(self)@, entry),
    {
        let write_pos = self.write_pos;
        self.write_pos = write_pos.wrapping_add(1);
        let index = (write_pos as usize) % self.entries.len();

        self.entries.set(index, entry);
    }

    /// Takes the entry at the read position, if the reader has not caught up.
    pub fn pop(&mut self) -> (entry: Option<T>)
        requires
            old(self)@.entries.len() > 0,
        ensures
            (final(self)@, entry) == popped(old(self)@),
    {
        let read_pos = self.read_pos;
        let write_pos = self.write_pos;

        if read_pos == write_pos {
            return None;
        }

        let index = (read_pos as usize) % self.entries.len();
        let entry = self.entries[index];

        self.read_pos = read_pos.wrapping_add(1);

        Some(entry)
    }

    pub fn is_empty(&self) -> (empty: bool)
        ensures
            empty == (self@.read_pos == self@.write_pos),
    {
        self.read_pos == self.write_pos
    }
}

/// The ring after pushing each entry in turn.
pub open spec fn push_all<T>(r: RingView<T>, entries: Seq<T>) -> RingView<T>
    decreases entries.len(),
{
    if entries.len() == 0 {
        r
    } else {
        push_all(pushed(r, entries[0]), entries.drop_first())
    }
}

/// The ring after `n` pops, and the entries popped.
pub open spec fn pop_n<T>(r: RingView<T>, n: nat) -> (RingView<T>, Seq<Option<T>>)
    decreases n,
{
    if n == 0 {
        (r, Seq::empty())
    } else {
        let (r1, e) = popped(r);
        let (r2, es) = pop_n(r1, (n - 1) as nat);
        (r2, seq![e] + es)
    }
}

/// The slot that the `k`-th push from here writes.
pub open spec fn write_slot<T>(r: RingView<T>, k: int) -> int {
    (r.write_pos + k) % (r.entries.len() as int)
}

proof fn lemma_push_all_shape<T>(r: RingView<T>, entries: Seq<T>)
    requires
        r.entries.len() > 0,
        r.write_pos + entries.len() < 0x1_0000_0000,
    ensures
        push_all(r, entries).read_pos == r.read_pos,
        push_all(r, entries).write_pos == r.write_pos + entries.len(),
        push_all(r, entries).entries.len() == r.entries.len(),
        forall|i: int|
            0 <= i < r.entries.len() && (forall|k: int| 0 <= k < entries.len() ==> #[trigger] write_slot(r, k) != i)
                ==> #[trigger] push_all(r, entries).entries[i] == r.entries[i],
        entries.len() <= r.entries.len() ==> forall|k: int|
            0 <= k < entries.len() ==> push_all(r, entries).entries[#[trigger] write_slot(r, k)] == entries[k],
    decreases entries.len(),
{
    if entries.len() > 0 {
        let r1 = pushed(r, entries[0]);
        let rest = entries.drop_first();
        let n = r.entries.len() as int;
        lemma_push_all_shape(r1, rest);
        assert forall|i: int|
            0 <= i < r.entries.len() && (forall|k: int| 0 <= k < entries.len() ==> #[trigger] write_slot(r, k) != i)
                implies #[trigger] push_all(r, entries).entries[i] == r.entries[i] by {
            assert(write_slot(r, 0) != i);
            assert forall|k: int| 0 <= k < rest.len() implies #[trigger] write_slot(r1, k) != i by {
                assert(write_slot(r1, k) == write_slot(r, k + 1));
            }
        }
        if entries.len() <= r.entries.len() {
            assert forall|k: int| 0 <= k < entries.len() implies push_all(r, entries).entries[#[trigger] write_slot(
                r,
                k,
            )] == entries[k] by {
                if k > 0 {
                    assert(rest[k - 1] == entries[k]);
                    assert(write_slot(r1, k - 1) == write_slot(r, k));
                } else {
                    assert forall|j: int| 0 <= j < rest.len() implies #[trigger] write_slot(r1, j) != write_slot(r, 0) by {
                        let w = r.write_pos as int;
                        assert(write_slot(r1, j) == (w + (j + 1)) % n);
                        assert((w + (j + 1)) % n != w % n) by (nonlinear_arith)
                            requires
                                0 <= j,
                                j + 1 < n,
                                n > 0,
                                w >= 0,
                        ;
                    }
                }
            }
        }
    }
}

/// Entries pushed into an empty ring come out in the order they went in, as
/// long as they fit in the ring and the positions do not wrap around 2^32.
pub proof fn lemma_fifo<T>(r: RingView<T>, entries: Seq<T>)
    requires
        r.entries.len() > 0,
        r.read_pos == r.write_pos,
        entries.len() <= r.entries.len(),
        r.write_pos + entries.len() < 0x1_0000_0000,
    ensures
        ({
            let (after, out) = pop_n(push_all(r, entries), entries.len());
            &&& out == entries.map_values(|e: T| Some(e))
            &&& after.read_pos == after.write_pos
        }),
{
    let full = push_all(r, entries);
    lemma_push_all_shape(r, entries);
    assert forall|j: int| 0 <= j < entries.len() - 0 implies full.entries[#[trigger] read_slot(full, j)] == entries[0 + j] by {
        assert(read_slot(full, j) == write_slot(r, j));
    }
    lemma_pop_n(full, entries, 0);
    assert(entries.skip(0) =~= entries);
}

/// The slot that the `k`-th pop from here reads.
pub open spec fn read_slot<T>(r: RingView<T>, k: int) -> int {
    (r.read_pos + k) % (r.entries.len() as int)
}

proof fn lemma_pop_n<T>(full: RingView<T>, entries: Seq<T>, done: nat)
    requires
        full.entries.len() > 0,
        entries.len() <= full.entries.len(),
        done <= entries.len(),
        full.write_pos == full.read_pos + entries.len() - done,
        full.write_pos < 0x1_0000_0000,
        forall|j: int|
            0 <= j < entries.len() - done ==> full.entries[#[trigger] read_slot(full, j)] == entries[done + j],
    ensures
        ({
            let (after, out) = pop_n(full, (entries.len() - done) as nat);
            &&& out == entries.skip(done as int).map_values(|e: T| Some(e))
            &&& after.read_pos == after.write_pos
        }),
    decreases entries.len() - done,
{
    let n = (entries.len() - done) as nat;
    if n == 0 {
        assert(entries.skip(done as int).map_values(|e: T| Some(e)) =~= Seq::empty());
    } else {
        let (r1, e) = popped(full);
        assert(full.read_pos != full.write_pos);
        assert(read_slot(full, 0) == slot(full, full.read_pos));
        assert(full.entries[read_slot(full, 0)] == entries[done + 0int]);
        assert(e == Some(entries[done as int]));
        assert forall|j: int| 0 <= j < entries.len() - (done + 1) implies r1.entries[#[trigger] read_slot(r1, j)]
            == entries[(done + 1) + j] by {
            assert(read_slot(r1, j) == read_slot(full, j + 1));
            assert(full.entries[read_slot(full, j + 1)] == entries[done + (j + 1)]);
        }
        lemma_pop_n(r1, entries, done + 1);
        let (after, rest) = pop_n(r1, (n - 1) as nat);
        assert(seq![e] + rest =~= entries.skip(done as int).map_values(|x: T| Some(x)));
    }
}

} // verus!
