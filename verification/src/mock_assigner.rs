//! The mock core assigner of the relay chain: a FIFO queue of assignments
//! that tests fill, which the scheduler drains one assignment per request,
//! and a core count that tests may override.

use vstd::prelude::*;
use std::collections::VecDeque;

verus! {

/// Identifier of a parachain.
pub type ParaId = u32;

/// Index of an availability core.
pub type CoreIndex = u32;

/// Core count reported when no test has set one.
pub const DEFAULT_CORE_COUNT: u32 = 5;

/// Which parachain may occupy a core.
#[derive(Clone, Copy, Debug, PartialEq, Eq, Structural)]
pub enum Assignment {
    /// An on-demand assignment from the pool, for a given core.
    Pool { para_id: ParaId, core_index: CoreIndex },
    /// A bulk (coretime) assignment.
    Bulk(ParaId),
}

/// What the assigner holds: the queued assignments, front first, and the
/// core count that a test set, if any.
pub ghost struct AssignerState {
    pub queue: Seq<Assignment>,
    pub core_count: Option<u32>,
}

/// The result of popping the front of `queue`, and the queue that is left.
pub open spec fn spec_pop_front(queue: Seq<Assignment>) -> (Option<Assignment>, Seq<Assignment>) {
    if queue.len() == 0 {
        (None, queue)
    } else {
        (Some(queue[0]), queue.drop_first())
    }
}

/// The assignments that `n` pops in a row return from `queue`, in order.
pub open spec fn spec_pop_n(queue: Seq<Assignment>, n: nat) -> Seq<Option<Assignment>>
    decreases n,
{
    if n == 0 {
        Seq::empty()
    } else {
        let (first, rest) = spec_pop_front(queue);
        seq![first] + spec_pop_n(rest, (n - 1) as nat)
    }
}

/// The core count the assigner reports for a session.
pub open spec fn spec_session_core_count(core_count: Option<u32>) -> u32 {
    match core_count {
        Some(c) => c,
        None => DEFAULT_CORE_COUNT,
    }
}

/// The mock assigner pallet's state.
pub struct Pallet {
    queue: VecDeque<Assignment>,
    core_count: Option<u32>,
}

impl View for Pallet {
    type V = AssignerState;

    closed spec fn view(&self) -> AssignerState {
        AssignerState { queue: self.queue@, core_count: self.core_count }
    }
}

impl Pallet {
    /// An assigner with an empty queue and no core count set.
    pub fn new() -> (p: Pallet)
        ensures
            p@.queue == Seq::<Assignment>::empty(),
            p@.core_count == None::<u32>,
    {
        Pallet { queue: VecDeque::new(), core_count: None }
    }

    /// An assigner holding `queue` (front first) and `core_count`.
    pub fn from_parts(queue: Vec<Assignment>, core_count: Option<u32>) -> (p: Pallet)
        ensures
            p@.queue == queue@,
            p@.core_count == core_count,
    {
        let mut q: VecDeque<Assignment> = VecDeque::new();
        let n = queue.len();
        for i in 0..n
            invariant
                n == queue@.len(),
                q@ == queue@.take(i as int),
        {
            q.push_back(queue[i]);
            assert(queue@.take(i + 1) =~= queue@.take(i as int).push(queue@[i as int]));
        }
        assert(queue@.take(n as int) =~= queue@);
        Pallet { queue: q, core_count }
    }

    /// The queued assignments, front first.
    pub fn queued(&self) -> (v: Vec<Assignment>)
        ensures
            v@ == self@.queue,
    {
        let mut v: Vec<Assignment> = Vec::new();
        let n = self.queue.len();
        for i in 0..n
            invariant
                n == self@.queue.len(),
                self@.queue == self.queue@,
                v@ == self@.queue.take(i as int),
        {
            v.push(self.queue[i]);
            assert(self@.queue.take(i + 1) =~= self@.queue.take(i as int).push(self@.queue[i as int]));
        }
        assert(self@.queue.take(n as int) =~= self@.queue);
        v
    }

    /// The core count that a test set, if any.
    pub fn core_count(&self) -> (c: Option<u32>)
        ensures
            c == self@.core_count,
    {
        self.core_count
    }

    /// Adds a claim at the back of the queue; the scheduler pops it later
    /// when it fills the claim queue.
    pub fn add_test_assignment(&mut self, assignment: Assignment)
        ensures
            final(self)@.queue == old(self)@.queue.push(assignment),
            final(self)@.core_count == old(self)@.core_count,
    {
        self.queue.push_back(assignment);
    }

    /// Sets the core count that the scheduler sees, in place of the default.
    pub fn set_core_count(&mut self, count: u32)
        ensures
            final(self)@.queue == old(self)@.queue,
            final(self)@.core_count == Some(count),
    {
        self.core_count = Some(count);
    }

    /// Pops the front assignment, whatever core asks; `None` when the queue
    /// is empty.
    pub fn pop_assignment_for_core(&mut self, core_idx: CoreIndex) -> (front: Option<Assignment>)
        ensures
            (front, final(self)@.queue) == spec_pop_front(old(self)@.queue),
            final(self)@.core_count == old(self)@.core_count,
    {
        let front = self.queue.pop_front();
        proof {
            if old(self)@.queue.len() > 0 {
                assert(old(self)@.queue.subrange(1, old(self)@.queue.len() as int)
                    =~= old(self)@.queue.drop_first());
            }
        }
        front
    }

    /// A bulk assignment of `para_id`, whatever core is asked for.
    pub fn get_mock_assignment(core_idx: CoreIndex, para_id: ParaId) -> (a: Assignment)
        ensures
            a == Assignment::Bulk(para_id),
    {
        Assignment::Bulk(para_id)
    }

    /// The core count that a test set, or the default of five.
    pub fn session_core_count(&self) -> (c: u32)
        ensures
            c == spec_session_core_count(self@.core_count),
    {
        match self.core_count {
            Some(c) => c,
            None => DEFAULT_CORE_COUNT,
        }
    }
}

/// Adding an assignment and popping serves the queue first in, first out:
/// an empty queue gives back what was added, any other queue its front, with
/// the new assignment kept at the back.
pub proof fn lemma_add_then_pop(queue: Seq<Assignment>, a: Assignment)
    ensures
        spec_pop_front(queue.push(a)) == (if queue.len() == 0 {
            (Some(a), Seq::<Assignment>::empty())
        } else {
            (Some(queue[0]), queue.drop_first().push(a))
        }),
{
    if queue.len() == 0 {
        assert(queue.push(a).drop_first() =~= Seq::<Assignment>::empty());
    } else {
        assert(queue.push(a).drop_first() =~= queue.drop_first().push(a));
    }
}

/// Popping `k` times from a queue that holds at least `k` assignments returns
/// its first `k` assignments in queue order.
pub proof fn lemma_pops_return_queue_order(queue: Seq<Assignment>, k: nat)
    requires
        k <= queue.len(),
    ensures
        spec_pop_n(queue, k) == queue.take(k as int).map_values(|a: Assignment| Some(a)),
    decreases k,
{
    if k == 0 {
        assert(queue.take(0).map_values(|a: Assignment| Some(a)) =~= Seq::<Option<Assignment>>::empty());
    } else {
        lemma_pops_return_queue_order(queue.drop_first(), (k - 1) as nat);
        assert(queue.take(k as int).map_values(|a: Assignment| Some(a)) =~= seq![Some(queue[0])]
            + queue.drop_first().take(k - 1).map_values(|a: Assignment| Some(a)));
    }
}

/// Popping an empty queue gives `None` however often it is asked.
pub proof fn lemma_pops_of_empty_queue(n: nat)
    ensures
        spec_pop_n(Seq::<Assignment>::empty(), n) == Seq::new(n, |_i: int| None::<Assignment>),
    decreases n,
{
    if n > 0 {
        lemma_pops_of_empty_queue((n - 1) as nat);
        assert(spec_pop_n(Seq::<Assignment>::empty(), n) =~= Seq::new(n, |_i: int| None::<Assignment>));
    } else {
        assert(spec_pop_n(Seq::<Assignment>::empty(), n) =~= Seq::new(n, |_i: int| None::<Assignment>));
    }
}

/// After a test sets the core count, that count is what a session sees.
pub proof fn lemma_session_core_count_after_set(count: u32)
    ensures
        spec_session_core_count(Some(count)) == count,
        spec_session_core_count(None) == DEFAULT_CORE_COUNT,
{
}

} // verus!
