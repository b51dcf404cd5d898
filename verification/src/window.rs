//! The windowed transcription buffer.
//!
//! A `WindowBuffer` accumulates converted samples into fixed-capacity
//! windows. When an accepted block reaches or exceeds the remaining
//! capacity, the filled window is handed back to the caller for dispatch to
//! the transcription engine, and the buffer resets to empty at once so the
//! real-time callback is never stalled. Samples of a block beyond the
//! window's capacity are dropped, not carried into the next window: this
//! asymmetric overflow policy is deliberate and is pinned down by
//! `lemma_overflow_drop`.

use vstd::prelude::*;

use crate::sample::Sample;

verus! {

/// The written prefix after one `accept` of `block` on a window of capacity
/// `cap` holding `w`: the block is appended, unless it reaches capacity, in
/// which case the buffer resets to empty.
pub open spec fn step_written(w: Seq<Sample>, cap: nat, block: Seq<Sample>) -> Seq<Sample> {
    if w.len() + block.len() < cap {
        w + block
    } else {
        Seq::empty()
    }
}

/// The window dispatched by one `accept`, if any: exactly the first `cap`
/// samples of the old contents followed by the block. Whatever the block
/// holds beyond that is lost.
pub open spec fn step_dispatch(w: Seq<Sample>, cap: nat, block: Seq<Sample>) -> Option<Seq<Sample>> {
    if w.len() + block.len() < cap {
        None
    } else {
        Some((w + block).take(cap as int))
    }
}

/// A fixed-capacity fill-and-flush buffer: storage of length `capacity`, a
/// write cursor, and zeroed slots above the cursor. There is no sliding
/// window: a dispatch clears the whole buffer and restarts it.
pub struct WindowBuffer {
    data: Vec<Sample>,
    pos: usize,
}

impl WindowBuffer {
    /// The fixed window size in samples.
    pub closed spec fn capacity(self) -> nat {
        self.data@.len()
    }

    /// The samples written since the last reset, in arrival order.
    pub closed spec fn written(self) -> Seq<Sample> {
        self.data@.take(self.pos as int)
    }

    /// Well-formedness: positive capacity, cursor strictly inside the
    /// storage, and every slot at or above the cursor still cleared.
    pub closed spec fn wf(self) -> bool {
        &&& 0 < self.data@.len()
        &&& self.pos < self.data@.len()
        &&& forall|i: int| self.pos <= i < self.data@.len() ==> self.data@[i] == Sample::spec_zero()
    }

    /// Creates an empty window of the given capacity, fully cleared.
    pub fn new(capacity: usize) -> (r: WindowBuffer)
        requires
            1 <= capacity,
        ensures
            r.wf(),
            r.capacity() == capacity,
            r.written() == Seq::<Sample>::empty(),
    {
        let mut data: Vec<Sample> = Vec::new();
        let mut i: usize = 0;
        while i < capacity
            invariant
                i <= capacity,
                data@.len() == i,
                forall|j: int| 0 <= j < i ==> data@[j] == Sample::spec_zero(),
            decreases capacity - i,
        {
            data.push(Sample::zero());
            i = i + 1;
        }
        let r = WindowBuffer { data, pos: 0 };
        proof {
            assert(r.written() =~= Seq::<Sample>::empty());
        }
        r
    }

    /// Accepts one converted sample. Returns the filled window when this
    /// sample completes it; the buffer is then already reset and accepting.
    pub fn push(&mut self, s: Sample) -> (r: Option<Vec<Sample>>)
        requires
            old(self).wf(),
        ensures
            final(self).wf(),
            final(self).capacity() == old(self).capacity(),
            final(self).written() == step_written(old(self).written(), old(self).capacity(), seq![s]),
            (match r {
                None => step_dispatch(old(self).written(), old(self).capacity(), seq![s]) is None,
                Some(v) => step_dispatch(old(self).written(), old(self).capacity(), seq![s])
                    == Some(v@),
            }),
    {
        let cap = self.data.len();
        self.data.set(self.pos, s);
        self.pos = self.pos + 1;
        proof {
            assert(self.data@.take(self.pos as int) =~= old(self).written() + seq![s]);
        }
        if self.pos == cap {
            let window = self.take_filled();
            proof {
                assert((old(self).written() + seq![s]).take(old(self).capacity() as int)
                    =~= old(self).written() + seq![s]);
            }
            Some(window)
        } else {
            None
        }
    }

    /// Accepts one converted block. If the block reaches or exceeds the
    /// remaining capacity, the filled window comes back for dispatch, the
    /// buffer resets, and the block's samples beyond capacity are dropped.
    pub fn accept(&mut self, block: &Vec<Sample>) -> (r: Option<Vec<Sample>>)
        requires
            old(self).wf(),
        ensures
            final(self).wf(),
            final(self).capacity() == old(self).capacity(),
            final(self).written() == step_written(old(self).written(), old(self).capacity(), block@),
            (match r {
                None => step_dispatch(old(self).written(), old(self).capacity(), block@) is None,
                Some(v) => step_dispatch(old(self).written(), old(self).capacity(), block@)
                    == Some(v@),
            }),
    {
        let cap = self.data.len();
        let room = cap - self.pos;
        if block.len() < room {
            let mut i: usize = 0;
            while i < block.len()
                invariant
                    old(self).wf(),
                    self.pos == old(self).pos,
                    self.data@.len() == old(self).data@.len(),
                    self.data@.len() == cap,
                    self.pos + block@.len() < self.data@.len(),
                    i <= block@.len(),
                    forall|k: int| 0 <= k < self.pos ==> self.data@[k] == old(self).data@[k],
                    forall|k: int| 0 <= k < i ==> self.data@[self.pos + k] == block@[k],
                    forall|k: int| self.pos + i <= k < self.data@.len()
                        ==> self.data@[k] == Sample::spec_zero(),
                decreases block@.len() - i,
            {
                self.data.set(self.pos + i, block[i]);
                i = i + 1;
            }
            self.pos = self.pos + block.len();
            proof {
                assert(self.data@.take(self.pos as int)
                    =~= old(self).written() + block@);
            }
            None
        } else {
            let mut i: usize = 0;
            while i < room
                invariant
                    old(self).wf(),
                    self.pos == old(self).pos,
                    self.data@.len() == old(self).data@.len(),
                    self.data@.len() == cap,
                    room == self.data@.len() - self.pos,
                    room <= block@.len(),
                    i <= room,
                    forall|k: int| 0 <= k < self.pos ==> self.data@[k] == old(self).data@[k],
                    forall|k: int| 0 <= k < i ==> self.data@[self.pos + k] == block@[k],
                decreases room - i,
            {
                self.data.set(self.pos + i, block[i]);
                i = i + 1;
            }
            self.pos = self.data.len();
            let window = self.take_filled();
            proof {
                assert((old(self).written() + block@).take(old(self).capacity() as int)
                    =~= window@);
            }
            Some(window)
        }
    }

    /// Hands out the whole storage as the completed window and resets the
    /// buffer to cleared-and-empty.
    fn take_filled(&mut self) -> (r: Vec<Sample>)
        requires
            0 < old(self).data@.len(),
            old(self).pos == old(self).data@.len(),
        ensures
            final(self).wf(),
            final(self).capacity() == old(self).capacity(),
            final(self).written() == Seq::<Sample>::empty(),
            r@ == old(self).data@,
    {
        let mut window: Vec<Sample> = Vec::new();
        let mut i: usize = 0;
        while i < self.data.len()
            invariant
                self == old(self),
                i <= self.data@.len(),
                window@.len() == i,
                forall|k: int| 0 <= k < i ==> window@[k] == self.data@[k],
            decreases self.data@.len() - i,
        {
            window.push(self.data[i]);
            i = i + 1;
        }
        let mut j: usize = 0;
        while j < self.data.len()
            invariant
                j <= self.data@.len(),
                self.data@.len() == old(self).data@.len(),
                forall|k: int| 0 <= k < j ==> self.data@[k] == Sample::spec_zero(),
            decreases self.data@.len() - j,
        {
            self.data.set(j, Sample::zero());
            j = j + 1;
        }
        self.pos = 0;
        proof {
            assert(window@ =~= old(self).data@);
            assert(self.written() =~= Seq::<Sample>::empty());
        }
        window
    }
}

/// All the samples of a run of blocks, in delivery order.
pub open spec fn concat_blocks(blocks: Seq<Seq<Sample>>) -> Seq<Sample>
    decreases blocks.len(),
{
    if blocks.len() == 0 {
        Seq::empty()
    } else {
        blocks[0] + concat_blocks(blocks.drop_first())
    }
}

/// The written prefix after accepting each block of `blocks` in order,
/// starting from contents `w`.
pub open spec fn run_written(w: Seq<Sample>, cap: nat, blocks: Seq<Seq<Sample>>) -> Seq<Sample>
    decreases blocks.len(),
{
    if blocks.len() == 0 {
        w
    } else {
        run_written(step_written(w, cap, blocks[0]), cap, blocks.drop_first())
    }
}

/// The windows dispatched while accepting each block of `blocks` in order,
/// starting from contents `w`, in dispatch order.
pub open spec fn run_dispatched(w: Seq<Sample>, cap: nat, blocks: Seq<Seq<Sample>>) -> Seq<Seq<Sample>>
    decreases blocks.len(),
{
    if blocks.len() == 0 {
        Seq::empty()
    } else {
        let rest = run_dispatched(step_written(w, cap, blocks[0]), cap, blocks.drop_first());
        match step_dispatch(w, cap, blocks[0]) {
            Some(d) => seq![d] + rest,
            None => rest,
        }
    }
}

/// A run whose blocks hold no samples at all neither dispatches nor writes.
proof fn lemma_run_all_empty(cap: nat, blocks: Seq<Seq<Sample>>)
    requires
        1 <= cap,
        concat_blocks(blocks).len() == 0,
    ensures
        run_written(Seq::empty(), cap, blocks) == Seq::<Sample>::empty(),
        run_dispatched(Seq::empty(), cap, blocks) == Seq::<Seq<Sample>>::empty(),
    decreases blocks.len(),
{
    if blocks.len() > 0 {
        assert(concat_blocks(blocks) == blocks[0] + concat_blocks(blocks.drop_first()));
        assert(step_written(Seq::empty(), cap, blocks[0]) =~= Seq::<Sample>::empty());
        lemma_run_all_empty(cap, blocks.drop_first());
    }
}

/// Partition-fill law, generalized to a window already holding `w`: when the
/// run's samples bring the contents to exactly `cap`, exactly one window is
/// dispatched, it holds the old contents followed by every delivered sample
/// in order, and the buffer ends empty.
pub proof fn lemma_partition_fill(w: Seq<Sample>, cap: nat, blocks: Seq<Seq<Sample>>)
    requires
        1 <= cap,
        w.len() < cap,
        w.len() + concat_blocks(blocks).len() == cap,
    ensures
        run_written(w, cap, blocks) == Seq::<Sample>::empty(),
        run_dispatched(w, cap, blocks) == seq![w + concat_blocks(blocks)],
    decreases blocks.len(),
{
    let b0 = blocks[0];
    let rest = blocks.drop_first();
    assert(concat_blocks(blocks) == b0 + concat_blocks(rest));
    if w.len() + b0.len() < cap {
        lemma_partition_fill(w + b0, cap, rest);
        assert((w + b0) + concat_blocks(rest) =~= w + concat_blocks(blocks));
        assert(run_dispatched(w, cap, blocks) =~= seq![w + concat_blocks(blocks)]);
    } else {
        assert(w.len() + b0.len() == cap);
        assert((w + b0).take(cap as int) =~= w + b0);
        assert(concat_blocks(rest).len() == 0);
        lemma_run_all_empty(cap, rest);
        assert(w + b0 =~= w + concat_blocks(blocks));
        assert(run_dispatched(w, cap, blocks) =~= seq![w + concat_blocks(blocks)]);
    }
}

/// Exact-fill law: pushing exactly `cap` samples into an empty window, under
/// any partition into blocks, dispatches exactly one window, equal to those
/// `cap` samples in delivery order, and leaves the buffer accepting from the
/// empty state again.
pub proof fn lemma_exact_fill_partition(cap: nat, blocks: Seq<Seq<Sample>>)
    requires
        1 <= cap,
        concat_blocks(blocks).len() == cap,
    ensures
        run_written(Seq::empty(), cap, blocks) == Seq::<Sample>::empty(),
        run_dispatched(Seq::empty(), cap, blocks) == seq![concat_blocks(blocks)],
{
    lemma_partition_fill(Seq::empty(), cap, blocks);
    assert(Seq::empty() + concat_blocks(blocks) =~= concat_blocks(blocks));
    assert(seq![Seq::empty() + concat_blocks(blocks)] =~= seq![concat_blocks(blocks)]);
}

/// Overflow-drop law: one block that overshoots an empty window's capacity
/// dispatches exactly the first `cap` samples of the block; the buffer is
/// empty afterward, so the overflow samples stand in neither the dispatched
/// window nor the one built next.
pub proof fn lemma_overflow_drop(cap: nat, block: Seq<Sample>)
    requires
        1 <= cap,
        cap < block.len(),
    ensures
        step_dispatch(Seq::empty(), cap, block) == Some(block.take(cap as int)),
        step_written(Seq::empty(), cap, block) == Seq::<Sample>::empty(),
{
    assert((Seq::<Sample>::empty() + block).take(cap as int) =~= block.take(cap as int));
}

} // verus!
