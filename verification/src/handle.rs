//! A reference-counted value handle for a single-threaded program.
//!
//! A group of handles that all descend from one construction logically
//! co-own a shared counter cell; the counter tracks how many handles of the
//! group are still alive. Each handle carries its own independent copy of
//! the payload value, so the counter governs only lifetime accounting, not
//! the value itself.
//!
//! The counter cells live in an explicit [`Heap`]. Constructing a handle
//! allocates a fresh cell with count one; cloning a handle increments its
//! cell; destroying a handle decrements its cell, except that destroying
//! the last handle of a group releases the cell instead and reports the
//! release, after which the cell accepts no further operation.

use vstd::prelude::*;

verus! {

/// The abstract lifetime state of one counter cell: live with a number of
/// co-owning handles, or released for good.
pub enum CellState {
    Live { count: nat },
    Released,
}

/// An operation that a live handle can perform on its counter cell.
pub enum Op {
    Clone,
    Destroy,
}

/// The state of a freshly constructed counter cell: one live handle.
pub open spec fn init() -> CellState {
    CellState::Live { count: 1 }
}

/// Whether `op` may be applied in state `s`: both cloning and destroying
/// are acts of a live handle, so they demand a cell that is still live.
pub open spec fn op_allowed(s: CellState, op: Op) -> bool {
    s is Live
}

/// The state a counter cell moves to when a handle of its group performs
/// `op`: a clone adds an owner; a destroy removes one, and removing the
/// last owner releases the cell.
pub open spec fn step(s: CellState, op: Op) -> CellState
    recommends
        op_allowed(s, op),
{
    match op {
        Op::Clone => CellState::Live { count: s->count + 1 },
        Op::Destroy => if s->count == 1 {
            CellState::Released
        } else {
            CellState::Live { count: (s->count - 1) as nat }
        },
    }
}

/// Whether applying `op` in state `s` emits the release signal: only the
/// destroy of the last live handle does.
pub open spec fn step_emits(s: CellState, op: Op) -> bool {
    &&& op is Destroy
    &&& s matches CellState::Live { count }
    &&& count == 1
}

/// The state of one counter cell after the operations `ops`, performed in
/// order, starting from a fresh construction.
pub open spec fn run(ops: Seq<Op>) -> CellState
    decreases ops.len(),
{
    if ops.len() == 0 {
        init()
    } else {
        step(run(ops.drop_last()), ops.last())
    }
}

/// Whether every operation of `ops` is allowed in the state it meets.
pub open spec fn valid_ops(ops: Seq<Op>) -> bool
    decreases ops.len(),
{
    ops.len() == 0 || (valid_ops(ops.drop_last()) && op_allowed(run(ops.drop_last()), ops.last()))
}

/// The number of clones among `ops`.
pub open spec fn clones(ops: Seq<Op>) -> nat
    decreases ops.len(),
{
    if ops.len() == 0 {
        0
    } else {
        clones(ops.drop_last()) + if ops.last() is Clone {
            1nat
        } else {
            0nat
        }
    }
}

/// The number of destroys among `ops`.
pub open spec fn destroys(ops: Seq<Op>) -> nat
    decreases ops.len(),
{
    if ops.len() == 0 {
        0
    } else {
        destroys(ops.drop_last()) + if ops.last() is Destroy {
            1nat
        } else {
            0nat
        }
    }
}

/// The number of release signals emitted over the course of `ops`.
pub open spec fn releases(ops: Seq<Op>) -> nat
    decreases ops.len(),
{
    if ops.len() == 0 {
        0
    } else {
        releases(ops.drop_last()) + if step_emits(run(ops.drop_last()), ops.last()) {
            1nat
        } else {
            0nat
        }
    }
}

/// After any allowed sequence of clones and destroys following one
/// construction, a cell that is still live has a count of exactly one (for
/// the construction) plus the clones so far minus the destroys so far, and
/// that count is never zero; a cell that has been released has seen every
/// one of its handles destroyed.
pub proof fn lemma_count_balance(ops: Seq<Op>)
    requires
        valid_ops(ops),
    ensures
        run(ops) matches CellState::Live { count } ==> count + destroys(ops) == 1 + clones(ops)
            && count >= 1,
        run(ops) is Released ==> destroys(ops) == 1 + clones(ops),
    decreases ops.len(),
{
    if ops.len() > 0 {
        lemma_count_balance(ops.drop_last());
    }
}

/// The release signal is emitted exactly once per counter cell: an allowed
/// run that ends with the cell released has emitted it exactly once, and a
/// run after which the cell is still live has not emitted it at all. By
/// definition of the transitions, the one emission happens at the destroy
/// that removes the last live handle.
pub proof fn lemma_release_exactly_once(ops: Seq<Op>)
    requires
        valid_ops(ops),
    ensures
        releases(ops) == if run(ops) is Released {
            1nat
        } else {
            0nat
        },
    decreases ops.len(),
{
    if ops.len() > 0 {
        lemma_release_exactly_once(ops.drop_last());
    }
}

/// A counter cell is released exactly when every handle derived from its
/// one construction has been destroyed — destroys balance the construction
/// plus the clones — and while some handle is still undestroyed the cell
/// stays live, so an early release never happens. Which order the handles
/// are destroyed in plays no role.
pub proof fn lemma_release_iff_all_destroyed(ops: Seq<Op>)
    requires
        valid_ops(ops),
    ensures
        run(ops) is Released <==> destroys(ops) == 1 + clones(ops),
        destroys(ops) < 1 + clones(ops) ==> run(ops) is Live,
        destroys(ops) <= 1 + clones(ops),
{
    lemma_count_balance(ops);
}

/// One counter cell as stored: the shared counter of one group of handles,
/// or the mark that the cell has been released.
#[derive(Clone, Copy)]
pub enum CounterCell {
    Live { count: u64 },
    Released,
}

impl View for CounterCell {
    type V = CellState;

    open spec fn view(&self) -> CellState {
        match *self {
            CounterCell::Live { count } => CellState::Live { count: count as nat },
            CounterCell::Released => CellState::Released,
        }
    }
}

/// The arena of counter cells. All handles of one program share one heap;
/// a handle names its cell by position. The view of a heap is the sequence
/// of the abstract states of its cells, released cells included, so cell
/// positions stay stable for the whole run.
pub struct Heap {
    cells: Vec<CounterCell>,
}

impl View for Heap {
    type V = Seq<CellState>;

    closed spec fn view(&self) -> Seq<CellState> {
        self.cells@.map(|i: int, c: CounterCell| c@)
    }
}

/// A handle: an independent copy of the payload value, coupled to the
/// other handles of its group only through the shared counter cell.
pub struct Handle<T: Copy> {
    payload: T,
    cell: usize,
}

impl<T: Copy> Handle<T> {
    /// The handle's own copy of the payload value.
    pub closed spec fn payload(self) -> T {
        self.payload
    }

    /// The position of the handle's counter cell in the heap.
    pub closed spec fn cell_id(self) -> int {
        self.cell as int
    }

    /// Whether the handle may still be used against a heap in state `h`:
    /// its cell exists and has not been released. Every handle returned by
    /// a construction or a clone is valid, and stays valid until the
    /// destroy that releases its cell.
    pub open spec fn valid(self, h: Seq<CellState>) -> bool {
        0 <= self.cell_id() < h.len() && h[self.cell_id()] is Live
    }

    /// Returns a read-only view of the handle's own copy of the payload.
    pub fn access(&self) -> (v: &T)
        ensures
            *v == self.payload(),
    {
        &self.payload
    }

    /// Returns the position of the handle's counter cell, for looking up
    /// the count through [`Heap::count`].
    pub fn cell(&self) -> (c: usize)
        ensures
            c as int == self.cell_id(),
    {
        self.cell
    }
}

impl Heap {
    /// Every live cell of a well-formed heap counts at least one handle.
    /// Construction establishes this and every operation preserves it.
    pub open spec fn wf(self) -> bool {
        forall|i: int|
            0 <= i < self@.len() ==> ((#[trigger] self@[i]) matches CellState::Live { count }
                ==> count >= 1)
    }

    /// Returns an empty heap with no counter cells.
    pub fn new() -> (h: Heap)
        ensures
            h@ == Seq::<CellState>::empty(),
            h.wf(),
    {
        Heap { cells: Vec::new() }
    }

    /// Constructs a fresh handle for `value`: allocates a new counter cell
    /// with count one and returns a handle that copies `value` and names
    /// the new cell. This is the only operation that allocates a cell.
    pub fn construct<T: Copy>(&mut self, value: T) -> (h: Handle<T>)
        requires
            old(self).wf(),
        ensures
            final(self).wf(),
            final(self)@ == old(self)@.push(init()),
            h.cell_id() == old(self)@.len(),
            h.payload() == value,
            h.valid(final(self)@),
    {
        let cell = self.cells.len();
        self.cells.push(CounterCell::Live { count: 1 });
        proof {
            assert(self@ =~= old(self)@.push(init()));
        }
        Handle { payload: value, cell }
    }

    /// Clones `h`: increments the count of its counter cell and returns a
    /// new handle that copies the payload and names the same cell. The
    /// original handle is untouched — it is read through a shared
    /// reference — and no other cell of the heap changes.
    pub fn clone_handle<T: Copy>(&mut self, h: &Handle<T>) -> (h2: Handle<T>)
        requires
            old(self).wf(),
            h.valid(old(self)@),
            old(self)@[h.cell_id()]->count < u64::MAX,
        ensures
            final(self).wf(),
            final(self)@ == old(self)@.update(h.cell_id(), step(old(self)@[h.cell_id()], Op::Clone)),
            h2.cell_id() == h.cell_id(),
            h2.payload() == h.payload(),
            h.valid(final(self)@),
            h2.valid(final(self)@),
    {
        let id = h.cell;
        if let CounterCell::Live { count } = self.cells[id] {
            self.cells[id] = CounterCell::Live { count: count + 1 };
        }
        proof {
            assert(self@ =~= old(self)@.update(
                h.cell_id(),
                step(old(self)@[h.cell_id()], Op::Clone),
            ));
        }
        Handle { payload: h.payload, cell: id }
    }

    /// Destroys `h`, giving up its share of the counter cell. When `h` is
    /// the last live handle of its group — the count is exactly one — the
    /// cell is released for good and the call returns `true`, the release
    /// signal, which is emitted exactly once per cell; otherwise the count
    /// goes down by one and the call returns `false`. No other cell of the
    /// heap changes. The handle is consumed, so it cannot be destroyed
    /// twice nor used after its cell may have been released.
    pub fn destroy<T: Copy>(&mut self, h: Handle<T>) -> (released: bool)
        requires
            old(self).wf(),
            h.valid(old(self)@),
        ensures
            final(self).wf(),
            final(self)@ == old(self)@.update(
                h.cell_id(),
                step(old(self)@[h.cell_id()], Op::Destroy),
            ),
            released == step_emits(old(self)@[h.cell_id()], Op::Destroy),
            released <==> old(self)@[h.cell_id()] == init(),
    {
        let id = h.cell;
        let released: bool;
        if let CounterCell::Live { count } = self.cells[id] {
            if count == 1 {
                self.cells[id] = CounterCell::Released;
                released = true;
            } else {
                self.cells[id] = CounterCell::Live { count: count - 1 };
                released = false;
            }
        } else {
            released = false;
        }
        proof {
            assert(self@ =~= old(self)@.update(
                h.cell_id(),
                step(old(self)@[h.cell_id()], Op::Destroy),
            ));
        }
        released
    }

    /// Reports the count of the cell at position `cell`, for diagnostics:
    /// `Some` of the number of live handles of the cell's group, or `None`
    /// when the cell has been released or `cell` names no cell.
    pub fn count(&self, cell: usize) -> (c: Option<u64>)
        ensures
            match c {
                Some(n) => self@[cell as int] == (CellState::Live { count: n as nat })
                    && 0 <= cell < self@.len(),
                None => !(0 <= (cell as int) < self@.len() && self@[cell as int] is Live),
            },
    {
        if cell < self.cells.len() {
            match self.cells[cell] {
                CounterCell::Live { count } => Some(count),
                CounterCell::Released => None,
            }
        } else {
            None
        }
    }
}

} // verus!
