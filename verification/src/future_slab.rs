//! Slots for a set of futures that one parent task drives.
use vstd::prelude::*;

verus! {

/// Slots per chunk. One `u64` of ready bits covers exactly one chunk.
pub const CHUNK: usize = 64;

/// How many times a poll sweeps for futures that were woken meanwhile before it
/// hands control back.
pub const MAX_SWEEPS: u32 = 8;

/// Which slots are taken. Slots come in chunks and are used again.
#[derive(Debug)]
pub struct FutureSlab {
    occupied: Vec<bool>,
    /// The slots that are not taken; the last one is the next to be taken.
    free: Vec<usize>,
    len: usize,
}

/// Model of a slab.
#[verifier::ext_equal]
pub struct SlabModel {
    pub occupied: Seq<bool>,
    pub free: Seq<usize>,
}

/// How many slots are taken.
pub open spec fn taken(occupied: Seq<bool>) -> nat
    decreases occupied.len(),
{
    if occupied.len() == 0 {
        0
    } else {
        taken(occupied.drop_last()) + if occupied.last() {
            1nat
        } else {
            0nat
        }
    }
}

proof fn taken_after_update(occupied: Seq<bool>, i: int, v: bool)
    requires
        0 <= i < occupied.len(),
    ensures
        taken(occupied.update(i, v)) == taken(occupied) + (if v {
            1int
        } else {
            0int
        }) - (if occupied[i] {
            1int
        } else {
            0int
        }),
    decreases occupied.len(),
{
    let after = occupied.update(i, v);
    if i == occupied.len() - 1 {
        assert(after.drop_last() =~= occupied.drop_last());
    } else {
        assert(after.drop_last() =~= occupied.drop_last().update(i, v));
        taken_after_update(occupied.drop_last(), i, v);
    }
}

proof fn taken_bound(occupied: Seq<bool>)
    ensures
        taken(occupied) <= occupied.len(),
        (exists|i: int| 0 <= i < occupied.len() && #[trigger] occupied[i]) ==> taken(occupied) > 0,
    decreases occupied.len(),
{
    if occupied.len() > 0 {
        taken_bound(occupied.drop_last());
        if exists|i: int| 0 <= i < occupied.len() && #[trigger] occupied[i] {
            let i = choose|i: int| 0 <= i < occupied.len() && #[trigger] occupied[i];
            if i < occupied.len() - 1 {
                assert(occupied.drop_last()[i]);
            }
        }
    }
}

proof fn taken_of_more(occupied: Seq<bool>, n: nat)
    ensures
        taken(occupied + Seq::new(n, |i: int| false)) == taken(occupied),
    decreases n,
{
    if n == 0 {
        assert(occupied + Seq::new(n, |i: int| false) =~= occupied);
    } else {
        let more = occupied + Seq::new(n, |i: int| false);
        assert(more.drop_last() =~= occupied + Seq::new((n - 1) as nat, |i: int| false));
        taken_of_more(occupied, (n - 1) as nat);
    }
}

impl SlabModel {
    /// The free slots are the slots that are not taken, each once.
    pub open spec fn wf(self) -> bool {
        &&& self.occupied.len() % 64 == 0
        &&& forall|i: int|
            0 <= i < self.free.len() ==> (#[trigger] self.free[i]) < self.occupied.len()
                && !self.occupied[self.free[i] as int]
        &&& forall|i: int, j: int|
            0 <= i < j < self.free.len() ==> #[trigger] self.free[i] != #[trigger] self.free[j]
        &&& forall|s: int|
            0 <= s < self.occupied.len() && !(#[trigger] self.occupied[s]) ==> exists|i: int|
                0 <= i < self.free.len() && #[trigger] self.free[i] == s
    }

    pub open spec fn chunks(self) -> nat {
        self.occupied.len() / 64
    }

    /// With a chunk more, whose slots are free, so that the lowest is taken
    /// first.
    pub open spec fn grown(self) -> SlabModel {
        let base = self.occupied.len();
        SlabModel {
            occupied: self.occupied + Seq::new(64, |i: int| false),
            free: self.free + Seq::new(64, |i: int| (base + 63 - i) as usize),
        }
    }

    /// The slot that is taken next, if there is one.
    pub open spec fn pushed(self) -> SlabModel {
        SlabModel {
            occupied: self.occupied.update(self.free.last() as int, true),
            free: self.free.drop_last(),
        }
    }

    /// The slab once a future has completed.
    pub open spec fn completed(self, slot: usize) -> SlabModel {
        SlabModel {
            occupied: self.occupied.update(slot as int, false),
            free: self.free.push(slot),
        }
    }

    /// The slab from which a slot is taken: one with a free slot.
    pub open spec fn with_room(self) -> SlabModel {
        if self.free.len() > 0 {
            self
        } else {
            self.grown()
        }
    }
}

impl View for FutureSlab {
    type V = SlabModel;

    closed spec fn view(&self) -> SlabModel {
        SlabModel { occupied: self.occupied@, free: self.free@ }
    }
}

impl FutureSlab {
    pub closed spec fn wf(&self) -> bool {
        &&& self@.wf()
        &&& self.len == taken(self.occupied@)
    }

    pub fn new() -> (r: Self)
        ensures
            r.wf(),
            r@ == (SlabModel { occupied: Seq::empty(), free: Seq::empty() }),
    {
        let r = FutureSlab { occupied: Vec::new(), free: Vec::new(), len: 0 };
        assert(r@ =~= (SlabModel { occupied: Seq::empty(), free: Seq::empty() }));
        r
    }

    /// How many slots are taken.
    pub fn len(&self) -> (r: usize)
        requires
            self.wf(),
        ensures
            r == taken(self@.occupied),
    {
        self.len
    }

    /// Whether every future that was added has completed.
    pub fn is_empty(&self) -> (r: bool)
        requires
            self.wf(),
        ensures
            r == (taken(self@.occupied) == 0),
    {
        self.len == 0
    }

    /// How many chunks there are.
    pub fn num_chunks(&self) -> (r: usize)
        ensures
            r == self@.chunks(),
    {
        self.occupied.len() / CHUNK
    }

    pub fn is_occupied(&self, slot: usize) -> (r: bool)
        ensures
            r == (slot < self@.occupied.len() && self@.occupied[slot as int]),
    {
        slot < self.occupied.len() && self.occupied[slot]
    }

    /// Takes a slot for a future, which is then ready to be polled.
    pub fn push(&mut self) -> (slot: usize)
        requires
            old(self).wf(),
            old(self)@.occupied.len() + CHUNK <= usize::MAX,
        ensures
            final(self).wf(),
            slot == old(self)@.with_room().free.last(),
            final(self)@ == old(self)@.with_room().pushed(),
    {
        if self.free.len() == 0 {
            self.grow();
        }
        let ghost m = self@;
        let slot: usize = match self.free.pop() {
            Some(s) => s,
            None => 0,
        };
        proof {
            assert(slot == m.free[m.free.len() - 1]);
            taken_after_update(m.occupied, slot as int, true);
            taken_bound(self.occupied@);
            taken_bound(m.occupied.update(slot as int, true));
        }
        let slots: usize = self.occupied.len();
        self.occupied.set(slot, true);
        assert(self.len + 1 <= slots);
        self.len = self.len + 1;
        proof {
            assert(self@ =~= m.pushed());
            let t = self@;
            assert forall|i: int| 0 <= i < t.free.len() implies (#[trigger] t.free[i])
                < t.occupied.len() && !t.occupied[t.free[i] as int] by {
                assert(t.free[i] == m.free[i]);
                assert(m.free[i] != m.free[m.free.len() - 1]);
            }
            assert forall|s: int| 0 <= s < t.occupied.len() && !(
            #[trigger] t.occupied[s]) implies exists|i: int|
                0 <= i < t.free.len() && #[trigger] t.free[i] == s by {
                assert(!m.occupied[s]);
                let i = choose|i: int| 0 <= i < m.free.len() && #[trigger] m.free[i] == s;
                assert(i != m.free.len() - 1);
                assert(t.free[i] == s);
            }
        }
        slot
    }

    /// Adds a chunk.
    fn grow(&mut self)
        requires
            old(self).wf(),
            old(self)@.free.len() == 0,
            old(self)@.occupied.len() + CHUNK <= usize::MAX,
        ensures
            final(self).wf(),
            final(self)@ == old(self)@.grown(),
    {
        let base: usize = self.occupied.len();
        let ghost m = self@;
        let mut n: usize = 0;
        while n < CHUNK
            invariant
                n <= CHUNK,
                base + CHUNK <= usize::MAX,
                base == m.occupied.len(),
                m.free.len() == 0,
                self.occupied@ == m.occupied + Seq::new(n as nat, |i: int| false),
                self.free@ == m.free + Seq::new(n as nat, |i: int| (base + 63 - i) as usize),
                self.len == old(self).len,
            decreases CHUNK - n,
        {
            self.occupied.push(false);
            self.free.push(base + (CHUNK - 1 - n));
            n = n + 1;
            assert(self.occupied@ =~= m.occupied + Seq::new(n as nat, |i: int| false));
            assert(self.free@ =~= m.free + Seq::new(
                n as nat,
                |i: int| (base + 63 - i) as usize,
            ));
        }
        proof {
            assert(self@ =~= m.grown());
            taken_of_more(m.occupied, 64);
            let t = self@;
            assert forall|s: int| 0 <= s < t.occupied.len() && !(
            #[trigger] t.occupied[s]) implies exists|i: int|
                0 <= i < t.free.len() && #[trigger] t.free[i] == s by {
                if s < base {
                    assert(!m.occupied[s]);
                } else {
                    assert(t.free[base + 63 - s] == s);
                }
            }
        }
    }

    /// A future has completed: its slot can be taken again.
    pub fn complete(&mut self, slot: usize)
        requires
            old(self).wf(),
            slot < old(self)@.occupied.len(),
            old(self)@.occupied[slot as int],
        ensures
            final(self).wf(),
            final(self)@ == old(self)@.completed(slot),
    {
        let ghost m = self@;
        proof {
            taken_after_update(m.occupied, slot as int, false);
            taken_bound(m.occupied);
        }
        self.occupied.set(slot, false);
        self.free.push(slot);
        self.len = self.len - 1;
        proof {
            assert(self@ =~= m.completed(slot));
            let t = self@;
            assert forall|i: int| 0 <= i < t.free.len() implies (#[trigger] t.free[i])
                < t.occupied.len() && !t.occupied[t.free[i] as int] by {
                if i < m.free.len() {
                    assert(t.free[i] == m.free[i]);
                }
            }
            assert forall|i: int, j: int| 0 <= i < j < t.free.len() implies #[trigger] t.free[i]
                != #[trigger] t.free[j] by {
                assert(t.free[i] == m.free[i]);
                if j < m.free.len() {
                    assert(t.free[j] == m.free[j]);
                } else {
                    assert(!m.occupied[m.free[i] as int]);
                }
            }
            assert forall|s: int| 0 <= s < t.occupied.len() && !(
            #[trigger] t.occupied[s]) implies exists|i: int|
                0 <= i < t.free.len() && #[trigger] t.free[i] == s by {
                if s == slot {
                    assert(t.free[m.free.len() as int] == s);
                } else {
                    assert(!m.occupied[s]);
                    let i = choose|i: int| 0 <= i < m.free.len() && #[trigger] m.free[i] == s;
                    assert(t.free[i] == s);
                }
            }
        }
    }
}

/// Whether bit `i` is set.
pub open spec fn bit(x: u64, i: nat) -> bool {
    (x >> (i as u64)) & 1 == 1
}

/// The bits that are set.
pub open spec fn set_bits(x: u64) -> Set<nat> {
    Set::new(|i: nat| i < 64 && bit(x, i))
}

/// The ready bit of a slot in its chunk.
pub fn slot_bit(slot: usize) -> (r: u64)
    ensures
        set_bits(r) == set![(slot % 64) as nat],
{
    let n: u64 = (slot % CHUNK) as u64;
    let r: u64 = 1u64 << n;
    proof {
        assert forall|i: nat| i < 64 implies bit(r, i) == (i == n) by {
            let j = i as u64;
            assert(((1u64 << n) >> j) & 1 == (if j == n {
                1u64
            } else {
                0u64
            })) by (bit_vector)
                requires
                    n < 64,
                    j < 64,
            ;
        }
        assert(set_bits(r) =~= set![(slot % 64) as nat]);
    }
    r
}

/// The chunk of a slot.
pub fn slot_chunk(slot: usize) -> (r: usize)
    ensures
        r == slot / 64,
{
    slot / CHUNK
}

/// What a poll of the slab does next.
#[derive(Clone, Copy, Debug, PartialEq, Eq, Structural)]
pub enum SweepStep {
    /// Take the ready bits of a chunk, which clears them.
    TakeReady(usize),
    /// Poll the future in a slot, if there is one.
    Poll(usize),
    /// Nothing is ready any more.
    Finished,
    /// There is still something ready. The parent is to be woken at once.
    Yield,
}

/// A poll of the slab.
#[derive(Clone, Copy, Debug, PartialEq, Eq, Structural)]
pub struct Sweep {
    /// How many sweeps may still end with progress.
    pub left: u32,
    /// The next chunk.
    pub chunk: usize,
    /// What is ready in the chunk before.
    pub ready: u64,
    pub progressed: bool,
}

impl Sweep {
    pub open spec fn wf(self, chunks: usize) -> bool {
        &&& self.left > 0
        &&& self.chunk <= chunks
        &&& self.ready != 0 ==> self.chunk > 0
        &&& chunks == 0 ==> !self.progressed
    }

    pub fn new() -> (r: Self)
        ensures
            r == (Sweep { left: MAX_SWEEPS, chunk: 0, ready: 0, progressed: false }),
            forall|chunks: usize| #[trigger] r.wf(chunks),
    {
        Sweep { left: MAX_SWEEPS, chunk: 0, ready: 0, progressed: false }
    }

    /// The bits of a chunk were taken.
    pub fn took(&mut self, ready: u64)
        ensures
            *final(self) == (Sweep { ready, ..*old(self) }),
    {
        self.ready = ready;
    }

    /// What is done once nothing of the chunk is ready any more.
    pub open spec fn advanced(self, chunks: usize) -> (Sweep, SweepStep) {
        if self.chunk < chunks {
            (
                Sweep { chunk: (self.chunk + 1) as usize, ..self },
                SweepStep::TakeReady(self.chunk),
            )
        } else if !self.progressed {
            (self, SweepStep::Finished)
        } else if self.left == 1 {
            (self, SweepStep::Yield)
        } else {
            (
                Sweep { left: (self.left - 1) as u32, chunk: 1, ready: 0, progressed: false },
                SweepStep::TakeReady(0),
            )
        }
    }

    /// What is done next, in a slab with so many chunks: each ready slot is
    /// polled, the lowest first, then the next chunk is looked at. A sweep that
    /// found something is followed by another one, as long as there may be
    /// more.
    pub fn next(&mut self, chunks: usize) -> (r: SweepStep)
        requires
            old(self).wf(chunks),
            chunks * 64 <= usize::MAX,
        ensures
            old(self).ready != 0 ==> {
                &&& r matches SweepStep::Poll(slot) && {
                    let i = slot - (old(self).chunk - 1) * 64;
                    &&& 0 <= i < 64
                    &&& bit(old(self).ready, i as nat)
                    &&& forall|j: nat| j < i ==> !#[trigger] bit(old(self).ready, j)
                    &&& set_bits(final(self).ready) == set_bits(old(self).ready).remove(i as nat)
                }
                &&& *final(self) == (Sweep {
                    ready: final(self).ready,
                    progressed: true,
                    ..*old(self)
                })
            },
            old(self).ready == 0 ==> (*final(self), r) == old(self).advanced(chunks),
            final(self).wf(chunks),
    {
        if self.ready != 0 {
            let ready: u64 = self.ready;
            let t: u32 = ready.trailing_zeros();
            let slot: usize = (self.chunk - 1) * CHUNK + t as usize;
            self.ready = ready & (ready - 1);
            self.progressed = true;
            proof {
                lowest_bit_cleared(ready, t as nat);
                assert(slot - (self.chunk - 1) * 64 == t);
                assert forall|j: nat| j < t implies !#[trigger] bit(ready, j) by {
                    let k = j as u64;
                    assert((ready >> k) & 1u64 == 0u64);
                }
            }
            SweepStep::Poll(slot)
        } else if self.chunk < chunks {
            let chunk: usize = self.chunk;
            self.chunk = chunk + 1;
            SweepStep::TakeReady(chunk)
        } else if !self.progressed {
            SweepStep::Finished
        } else if self.left == 1 {
            SweepStep::Yield
        } else {
            self.left = self.left - 1;
            self.chunk = 1;
            self.progressed = false;
            SweepStep::TakeReady(0)
        }
    }
}

proof fn low_bits_zero(x: u64, k: nat)
    requires
        k < 64,
        forall|j: u64| 0 <= j < k ==> #[trigger] (x >> j) & 1u64 == 0u64,
    ensures
        x & (((1u64 << (k as u64)) - 1) as u64) == 0,
    decreases k,
{
    if k == 0 {
        assert(x & (((1u64 << 0u64) - 1) as u64) == 0) by (bit_vector);
    } else {
        low_bits_zero(x, (k - 1) as nat);
        let j = (k - 1) as u64;
        let n = k as u64;
        assert((x >> j) & 1u64 == 0u64);
        assert(x & (((1u64 << n) - 1) as u64) == 0) by (bit_vector)
            requires
                n == j + 1,
                n < 64,
                x & (((1u64 << j) - 1) as u64) == 0,
                (x >> j) & 1u64 == 0,
        ;
    }
}

proof fn lowest_bit_cleared(x: u64, t: nat)
    requires
        t < 64,
        bit(x, t),
        forall|j: u64| 0 <= j < t ==> #[trigger] (x >> j) & 1u64 == 0u64,
        x != 0,
    ensures
        set_bits(x & ((x - 1) as u64)) == set_bits(x).remove(t),
{
    low_bits_zero(x, t);
    let y = x & ((x - 1) as u64);
    let n = t as u64;
    assert forall|i: nat| i < 64 implies bit(y, i) == (bit(x, i) && i != t) by {
        let j = i as u64;
        assert(((x & ((x - 1) as u64)) >> j) & 1 == (if j == n {
            0u64
        } else {
            (x >> j) & 1
        })) by (bit_vector)
            requires
                n < 64,
                j < 64,
                x != 0,
                (x >> n) & 1 == 1,
                x & (((1u64 << n) - 1) as u64) == 0,
        ;
    }
    assert(set_bits(y) =~= set_bits(x).remove(t));
}

/// A slot that was not taken is taken, and no other slot changes.
pub proof fn push_takes_one_free_slot(m: SlabModel)
    requires
        m.wf(),
        m.free.len() > 0,
    ensures
        !m.occupied[m.free.last() as int],
        taken(m.pushed().occupied) == taken(m.occupied) + 1,
        forall|s: int|
            0 <= s < m.occupied.len() && s != m.free.last() ==> m.pushed().occupied[s]
                == #[trigger] m.occupied[s],
{
    let last = m.free[m.free.len() - 1];
    assert(!m.occupied[last as int]);
    taken_after_update(m.occupied, last as int, true);
}

/// A slot that was freed is the next to be taken, which leaves the slab as it
/// was.
pub proof fn freed_slot_is_reused(m: SlabModel, slot: usize)
    requires
        slot < m.occupied.len(),
        m.occupied[slot as int],
    ensures
        m.completed(slot).with_room().free.last() == slot,
        m.completed(slot).with_room().pushed() == m,
{
    assert(m.completed(slot).with_room().pushed() =~= m);
}

/// The slab only grows where all slots are taken.
pub proof fn grows_only_when_full(m: SlabModel)
    requires
        m.wf(),
        m.with_room() != m,
    ensures
        taken(m.occupied) == m.occupied.len(),
{
    assert(m.free.len() == 0);
    assert forall|s: int| 0 <= s < m.occupied.len() implies #[trigger] m.occupied[s] by {}
    all_taken(m.occupied);
}

proof fn all_taken(occupied: Seq<bool>)
    requires
        forall|s: int| 0 <= s < occupied.len() ==> #[trigger] occupied[s],
    ensures
        taken(occupied) == occupied.len(),
    decreases occupied.len(),
{
    if occupied.len() > 0 {
        let rest = occupied.drop_last();
        assert forall|s: int| 0 <= s < rest.len() implies #[trigger] rest[s] by {
            assert(rest[s] == occupied[s]);
        }
        all_taken(rest);
        assert(occupied[occupied.len() - 1]);
    }
}

/// A poll takes the bits of each chunk at most once in a sweep, and there are
/// at most as many sweeps as were left.
pub proof fn sweeps_are_bounded(s: Sweep, chunks: usize)
    requires
        s.wf(chunks),
        s.ready == 0,
        s.advanced(chunks).1 is TakeReady,
    ensures
        ({
            let next = s.advanced(chunks).0;
            &&& next.left > 0
            &&& next.left < s.left || next.left == s.left && next.chunk > s.chunk
            &&& next.chunk <= chunks
        }),
{
}

/// A full slab grows by 64 slots, which are all free and are taken from the lowest
/// up; the slots that were taken stay taken.
pub proof fn new_slots_are_taken_from_the_lowest(m: SlabModel, i: int)
    requires
        m.wf(),
        m.free.len() == 0,
        0 <= i < 64,
        m.occupied.len() + 64 <= usize::MAX,
    ensures
        m.with_room().occupied.len() == m.occupied.len() + 64,
        m.with_room().occupied.take(m.occupied.len() as int) == m.occupied,
        !m.with_room().occupied[m.occupied.len() + i],
        m.with_room().free.len() == 64,
        m.with_room().free[63 - i] == m.occupied.len() + i,
        m.with_room().chunks() == m.chunks() + 1,
{
    assert(m.with_room().occupied.take(m.occupied.len() as int) =~= m.occupied);
}

/// A future that completes frees its slot, and no other slot changes.
pub proof fn completion_frees_one_slot(m: SlabModel, slot: usize, other: int)
    requires
        slot < m.occupied.len(),
        m.occupied[slot as int],
        0 <= other < m.occupied.len(),
        other != slot,
    ensures
        !m.completed(slot).occupied[slot as int],
        m.completed(slot).occupied[other] == m.occupied[other],
        m.completed(slot).occupied.len() == m.occupied.len(),
        taken(m.completed(slot).occupied) == taken(m.occupied) - 1,
        m.completed(slot).free.contains(slot),
{
    taken_after_update(m.occupied, slot as int, false);
    assert(m.completed(slot).free[m.free.len() as int] == slot);
}

/// A sweep looks at each chunk once, in their order. The poll ends after a sweep
/// that found nothing; one that found something is followed by another from the
/// first chunk on, until there were enough, and then the parent is woken.
pub proof fn sweep_visits_every_chunk(s: Sweep, chunks: usize)
    requires
        s.wf(chunks),
    ensures
        s.chunk < chunks ==> s.advanced(chunks).1 == SweepStep::TakeReady(s.chunk) && s.advanced(
            chunks,
        ).0.chunk == s.chunk + 1 && s.advanced(chunks).0.progressed == s.progressed && s.advanced(
            chunks,
        ).0.left == s.left,
        s.advanced(chunks).1 == SweepStep::Finished <==> s.chunk == chunks && !s.progressed,
        s.advanced(chunks).1 == SweepStep::Yield <==> s.chunk == chunks && s.progressed && s.left
            == 1,
        s.chunk == chunks && s.progressed && s.left > 1 ==> s.advanced(chunks).1
            == SweepStep::TakeReady(0) && s.advanced(chunks).0.chunk == 1 && !s.advanced(
            chunks,
        ).0.progressed && s.advanced(chunks).0.left == s.left - 1,
{
}

/// A slot can always be taken: a full slab gets a chunk of free slots, and one that
/// is not full stays as it is.
pub proof fn room_is_made_when_full(m: SlabModel)
    ensures
        m.with_room().free.len() > 0,
        m.free.len() > 0 ==> m.with_room() == m,
        m.free.len() == 0 ==> m.with_room().occupied.len() == m.occupied.len() + 64
            && m.with_room().free.len() == 64,
        forall|i: int|
            0 <= i < m.occupied.len() ==> #[trigger] m.with_room().occupied[i] == m.occupied[i],
{
}

} // verus!
