//! The execution context: the shared heap that backs boxed storage, and the
//! channel through which capability code reports script-level conditions.
//!
//! The heap is a vector of reference-counted cells.  Every cell is either
//! *live* (at least one handle owns it, the payload is present) or *freed*
//! (no handle owns it, the payload has been released).  The count is an
//! ordinary integer: this substrate is single-threaded by design, so all
//! clone/drop traffic on one cell is totally ordered and the count is an
//! accurate live-handle tally between any two operations.

use vstd::prelude::*;

verus! {

/// One reference-counted heap cell: the live-handle count and the boxed
/// payload.  The payload is dropped exactly once, when the count reaches
/// zero; afterwards the cell stays behind as a freed marker so that the
/// indices of other cells remain stable.
pub struct HeapCell {
    pub count: usize,
    pub payload: Option<String>,
}

impl HeapCell {
    /// At least one handle owns the cell and the payload is still there.
    pub open spec fn live(&self) -> bool {
        self.count >= 1 && self.payload is Some
    }

    /// No handle owns the cell and the payload has been released.
    pub open spec fn freed(&self) -> bool {
        self.count == 0 && self.payload is None
    }

    pub open spec fn wf(&self) -> bool {
        self.live() || self.freed()
    }
}

/// The allocation substrate for boxed storage.
pub struct Heap {
    cells: Vec<HeapCell>,
}

impl Heap {
    pub closed spec fn cells(&self) -> Seq<HeapCell> {
        self.cells@
    }

    /// Every cell is live or freed; nothing is half-released.
    pub open spec fn wf(&self) -> bool {
        forall|i: int|
            0 <= i < self.cells().len() ==> (#[trigger] self.cells()[i]).wf()
    }

    pub open spec fn live_at(&self, ix: int) -> bool {
        0 <= ix < self.cells().len() && self.cells()[ix].live()
    }

    pub fn new() -> (h: Heap)
        ensures
            h.cells() == Seq::<HeapCell>::empty(),
    {
        Heap { cells: Vec::new() }
    }

    pub fn len(&self) -> (n: usize)
        ensures
            n == self.cells().len(),
    {
        self.cells.len()
    }

    /// Place a payload in a fresh cell whose count starts at one.
    pub fn alloc_cell(&mut self, payload: String) -> (ix: usize)
        ensures
            ix == old(self).cells().len(),
            final(self).cells() == old(self).cells().push(
                HeapCell { count: 1, payload: Some(payload) },
            ),
    {
        let ix = self.cells.len();
        self.cells.push(HeapCell { count: 1, payload: Some(payload) });
        ix
    }

    pub fn count(&self, ix: usize) -> (c: usize)
        requires
            ix < self.cells().len(),
        ensures
            c == self.cells()[ix as int].count,
    {
        self.cells[ix].count
    }

    /// Borrow the count of a cell.
    pub fn count_ref(&self, ix: usize) -> (c: &usize)
        requires
            ix < self.cells().len(),
        ensures
            *c == self.cells()[ix as int].count,
    {
        &self.cells[ix].count
    }

    /// Has the cell been finalized and released?
    pub fn freed(&self, ix: usize) -> (b: bool)
        requires
            ix < self.cells().len(),
        ensures
            b == self.cells()[ix as int].freed(),
    {
        self.cells[ix].count == 0 && self.cells[ix].payload.is_none()
    }

    /// Read the payload of a live cell.
    pub fn payload(&self, ix: usize) -> (p: &String)
        requires
            self.live_at(ix as int),
        ensures
            Some(*p) == self.cells()[ix as int].payload,
    {
        match &self.cells[ix].payload {
            Some(p) => p,
            None => vstd::pervasive::unreached(),
        }
    }

    /// One more handle owns the cell.
    pub fn incr(&mut self, ix: usize)
        requires
            old(self).live_at(ix as int),
            old(self).cells()[ix as int].count < usize::MAX,
        ensures
            final(self).cells() == spec_incr(old(self).cells(), ix as int),
    {
        let c = self.cells[ix].count;
        let p = self.cells.remove(ix);
        self.cells.insert(ix, HeapCell { count: c + 1, payload: p.payload });
        proof {
            assert(self.cells() =~= spec_incr(old(self).cells(), ix as int));
        }
    }

    /// One fewer handle owns the cell; at least one remains.
    pub fn decr(&mut self, ix: usize)
        requires
            old(self).live_at(ix as int),
            old(self).cells()[ix as int].count >= 2,
        ensures
            final(self).cells() == spec_decr(old(self).cells(), ix as int),
    {
        let c = self.cells[ix].count;
        let p = self.cells.remove(ix);
        self.cells.insert(ix, HeapCell { count: c - 1, payload: p.payload });
        proof {
            assert(self.cells() =~= spec_decr(old(self).cells(), ix as int));
        }
    }

    /// Release the payload of a cell whose last handle is going away.  This
    /// is the finalize step: it runs exactly when the count goes from one to
    /// zero, and a freed cell can never be freed again.
    pub fn free(&mut self, ix: usize)
        requires
            old(self).live_at(ix as int),
            old(self).cells()[ix as int].count == 1,
        ensures
            final(self).cells() == spec_free(old(self).cells(), ix as int),
    {
        let _ = self.cells.remove(ix);
        self.cells.insert(ix, HeapCell { count: 0, payload: None });
        proof {
            assert(self.cells() =~= spec_free(old(self).cells(), ix as int));
        }
    }
}

/// The heap after one clone of a handle of cell `ix`.
pub open spec fn spec_incr(h: Seq<HeapCell>, ix: int) -> Seq<HeapCell> {
    h.update(
        ix,
        HeapCell { count: (h[ix].count + 1) as usize, payload: h[ix].payload },
    )
}

/// The heap after one drop of a handle of cell `ix` that was not the last.
pub open spec fn spec_decr(h: Seq<HeapCell>, ix: int) -> Seq<HeapCell> {
    h.update(
        ix,
        HeapCell { count: (h[ix].count - 1) as usize, payload: h[ix].payload },
    )
}

/// The heap after the last drop of cell `ix`: the payload is finalized.
pub open spec fn spec_free(h: Seq<HeapCell>, ix: int) -> Seq<HeapCell> {
    h.update(ix, HeapCell { count: 0, payload: None })
}

/// The heap after one drop of a handle of cell `ix`, whichever of the two
/// cases applies.
pub open spec fn spec_drop_step(h: Seq<HeapCell>, ix: int) -> Seq<HeapCell> {
    if h[ix].count == 1 {
        spec_free(h, ix)
    } else {
        spec_decr(h, ix)
    }
}

/// What a capability call may do to the heap it was handed: it may add
/// cells and it may retain extra owners of existing live cells, but every
/// cell that was live stays live with the same payload, so every handle the
/// caller still holds remains valid.
pub open spec fn heap_preserved(h0: Heap, h1: Heap) -> bool {
    &&& h1.cells().len() >= h0.cells().len()
    &&& forall|i: int|
        0 <= i < h0.cells().len() && (#[trigger] h0.cells()[i]).live() ==> {
            &&& h1.cells()[i].live()
            &&& h1.cells()[i].payload == h0.cells()[i].payload
        }
}

/// A stronger frame: the heap may gain fresh cells and existing cells may
/// gain owners, but no existing cell changes its payload or loses an owner.
pub open spec fn heap_extends(h0: Heap, h1: Heap) -> bool {
    &&& h1.cells().len() >= h0.cells().len()
    &&& forall|i: int|
        0 <= i < h0.cells().len() ==> {
            &&& (#[trigger] h1.cells()[i]).payload == h0.cells()[i].payload
            &&& h1.cells()[i].count >= h0.cells()[i].count
        }
}

/// The execution context handed to every capability call.  It owns the
/// heap, and it is the place where this layer reports script-level
/// conditions; deciding what a condition means for the running script is
/// the interpreter's business, not this layer's.
pub struct Vm {
    pub heap: Heap,
    /// How many not-implemented conditions have been reported.
    pub not_implemented: usize,
}

impl Vm {
    pub open spec fn wf(&self) -> bool {
        self.heap.wf()
    }

    pub fn new() -> (vm: Vm)
        ensures
            vm.wf(),
            vm.heap.cells() == Seq::<HeapCell>::empty(),
            vm.not_implemented == 0,
    {
        Vm { heap: Heap::new(), not_implemented: 0 }
    }

    /// Report that a capability operation is not implemented for the
    /// receiver's type.  The report is recorded and control returns to the
    /// caller; this layer never aborts the process over a script-level
    /// condition.
    pub fn raise_not_implemented(&mut self)
        ensures
            final(self).heap == old(self).heap,
            final(self).not_implemented == sat_inc(old(self).not_implemented),
    {
        if self.not_implemented < usize::MAX {
            self.not_implemented = self.not_implemented + 1;
        }
    }
}

/// A saturating increment: condition reports never wrap around.
pub open spec fn sat_inc(n: usize) -> usize {
    if n < usize::MAX {
        (n + 1) as usize
    } else {
        n
    }
}


/// The heap after `k` clones of a handle of cell `ix`.
pub open spec fn spec_clones(h: Seq<HeapCell>, ix: int, k: nat) -> Seq<HeapCell>
    decreases k,
{
    if k == 0 {
        h
    } else {
        spec_incr(spec_clones(h, ix, (k - 1) as nat), ix)
    }
}

/// The heap after `k` drops of handles of cell `ix`.
pub open spec fn spec_drops(h: Seq<HeapCell>, ix: int, k: nat) -> Seq<HeapCell>
    decreases k,
{
    if k == 0 {
        h
    } else {
        spec_drop_step(spec_drops(h, ix, (k - 1) as nat), ix)
    }
}

proof fn lemma_clones_at(h: Seq<HeapCell>, ix: int, k: nat)
    requires
        0 <= ix < h.len(),
        h[ix].count + k <= usize::MAX,
    ensures
        spec_clones(h, ix, k).len() == h.len(),
        spec_clones(h, ix, k)[ix].count == h[ix].count + k,
        spec_clones(h, ix, k)[ix].payload == h[ix].payload,
    decreases k,
{
    if k > 0 {
        lemma_clones_at(h, ix, (k - 1) as nat);
    }
}

proof fn lemma_drops_live(h: Seq<HeapCell>, ix: int, j: nat)
    requires
        0 <= ix < h.len(),
        j < h[ix].count,
    ensures
        spec_drops(h, ix, j).len() == h.len(),
        spec_drops(h, ix, j)[ix].count == h[ix].count - j,
        spec_drops(h, ix, j)[ix].payload == h[ix].payload,
    decreases j,
{
    if j > 0 {
        lemma_drops_live(h, ix, (j - 1) as nat);
    }
}

/// Clone/drop balance.  A value placed on the heap once and cloned `k`
/// times has a count of `k + 1`; through the first `k` drops the payload
/// stays untouched — the finalize step never runs early — and the last
/// drop, and only it, releases the payload and leaves the cell freed, so
/// finalization happens exactly once.
pub proof fn lemma_clone_drop_balance(h0: Seq<HeapCell>, p: String, k: nat)
    requires
        k + 1 <= usize::MAX,
    ensures
        ({
            let ix = h0.len() as int;
            let h1 = h0.push(HeapCell { count: 1, payload: Some(p) });
            let h2 = spec_clones(h1, ix, k);
            &&& h2[ix].count == k + 1
            &&& h2[ix].payload == Some(p)
            &&& forall|j: nat|
                j <= k ==> (#[trigger] spec_drops(h2, ix, j))[ix].count == k + 1 - j
                    && spec_drops(h2, ix, j)[ix].payload == Some(p)
            &&& spec_drops(h2, ix, (k + 1) as nat)[ix].count == 0
            &&& spec_drops(h2, ix, (k + 1) as nat)[ix].payload is None
        }),
{
    let ix = h0.len() as int;
    let h1 = h0.push(HeapCell { count: 1, payload: Some(p) });
    lemma_clones_at(h1, ix, k);
    let h2 = spec_clones(h1, ix, k);
    assert forall|j: nat| j <= k implies (#[trigger] spec_drops(h2, ix, j))[ix].count == k + 1
        - j && spec_drops(h2, ix, j)[ix].payload == Some(p) by {
        lemma_drops_live(h2, ix, j);
    }
    lemma_drops_live(h2, ix, k);
    assert(spec_drops(h2, ix, (k + 1) as nat) == spec_drop_step(
        spec_drops(h2, ix, k),
        ix,
    ));
}


} // verus!
