//! The run queue of the cooperative scheduler: threads that gave up the
//! processor of their own accord wait here, first in, first out. The
//! thread that is running is not in the queue.
use std::collections::VecDeque;
use vstd::prelude::*;

verus! {

/// What taking the front of a queue gives: the front thread, if any, and
/// the queue that is left.
pub open spec fn take_front<T>(queue: Seq<T>) -> (Option<T>, Seq<T>) {
    if queue.len() == 0 {
        (None, queue)
    } else {
        (Some(queue[0]), queue.drop_first())
    }
}

/// The queue after a thread that was switched away from is put back at
/// its end; `None` stands for no such thread.
pub open spec fn requeued<T>(queue: Seq<T>, previous: Option<T>) -> Seq<T> {
    match previous {
        Some(thread) => queue.push(thread),
        None => queue,
    }
}

/// Threads waiting to run, in the order they will run.
pub struct Scheduler<T> {
    run_queue: VecDeque<T>,
}

impl<T> View for Scheduler<T> {
    type V = Seq<T>;

    closed spec fn view(&self) -> Seq<T> {
        self.run_queue@
    }
}

impl<T> Scheduler<T> {
    pub fn new() -> (scheduler: Scheduler<T>)
        ensures
            scheduler@ == Seq::<T>::empty(),
    {
        Scheduler { run_queue: VecDeque::new() }
    }

    /// Queues a newly created thread behind every waiting one.
    pub fn spawn(&mut self, thread: T)
        ensures
            final(self)@ == old(self)@.push(thread),
    {
        self.run_queue.push_back(thread);
    }

    /// Picks the thread to yield to: the front of the queue, which leaves
    /// it. With nothing waiting the running thread keeps the processor and
    /// the queue stays as it is.
    pub fn yield_cur(&mut self) -> (next: Option<T>)
        ensures
            (next, final(self)@) == take_front(old(self)@),
    {
        let next = self.run_queue.pop_front();
        proof {
            assert(self.run_queue@ =~= take_front(old(self)@).1);
        }
        next
    }

    /// Picks the thread to continue with when the running one ends: the
    /// front of the queue, which leaves it. `None` means nothing is left
    /// to run and the machine shuts down.
    pub fn exit(&mut self) -> (next: Option<T>)
        ensures
            (next, final(self)@) == take_front(old(self)@),
    {
        let next = self.run_queue.pop_front();
        proof {
            assert(self.run_queue@ =~= take_front(old(self)@).1);
        }
        next
    }
}

/// Puts the thread that was switched away from, if there is one, at the
/// end of the run queue.
pub fn put_back<T>(previous: Option<T>, scheduler: &mut Scheduler<T>)
    ensures
        final(scheduler)@ == requeued(old(scheduler)@, previous),
        previous is None ==> final(scheduler)@ == old(scheduler)@,
        previous matches Some(t) ==> {
            &&& final(scheduler)@.len() == old(scheduler)@.len() + 1
            &&& final(scheduler)@.last() == t
            &&& final(scheduler)@.subrange(0, old(scheduler)@.len() as int) == old(scheduler)@
        },
{
    match previous {
        None => {},
        Some(ctx) => scheduler.run_queue.push_back(ctx),
    }
}

/// Putting back nothing leaves the queue as it is; putting back a thread
/// adds it behind every waiting thread and leaves their order alone.
pub proof fn law_put_back_appends<T>(queue: Seq<T>, previous: Option<T>)
    ensures
        previous is None ==> requeued(queue, previous) == queue,
        previous matches Some(t) ==> {
            &&& requeued(queue, previous).len() == queue.len() + 1
            &&& requeued(queue, previous).last() == t
            &&& requeued(queue, previous).subrange(0, queue.len() as int) == queue
        },
{
    if let Some(t) = previous {
        assert(queue.push(t).subrange(0, queue.len() as int) =~= queue);
    }
}

/// Yielding and then putting the yielding thread back rotates the queue:
/// the front thread runs, and the one that yielded waits behind all the
/// others.
pub proof fn law_yield_rotates<T>(queue: Seq<T>, current: T)
    requires
        queue.len() > 0,
    ensures
        take_front(queue).0 == Some(queue[0]),
        requeued(take_front(queue).1, Some(current)) == queue.drop_first().push(current),
{
}

/// A yield loses no thread and makes none twice: the running thread and
/// the waiting ones are the same threads before and after.
pub proof fn law_yield_conserves_threads<T>(queue: Seq<T>, current: T)
    requires
        queue.len() > 0,
    ensures
        requeued(take_front(queue).1, Some(current)).to_multiset().insert(queue[0])
            == queue.to_multiset().insert(current),
{
    broadcast use vstd::seq_lib::group_to_multiset_ensures;

    let rest = queue.drop_first();
    assert(queue =~= seq![queue[0]] + rest);
    vstd::seq_lib::lemma_multiset_commutative(seq![queue[0]], rest);
    assert(seq![queue[0]] =~= Seq::<T>::empty().push(queue[0]));
    assert(rest.push(current).to_multiset() == rest.to_multiset().insert(current));
    assert(seq![queue[0]].to_multiset() =~= Seq::<T>::empty().to_multiset().insert(queue[0]));
    assert(requeued(take_front(queue).1, Some(current)).to_multiset().insert(queue[0])
        =~= queue.to_multiset().insert(current));
}

/// A thread spawned behind `n` waiting threads is picked after exactly
/// `n` others: after `n` picks from the front it stands at the front.
pub proof fn law_spawn_waits_behind<T>(queue: Seq<T>, thread: T, n: nat)
    requires
        n == queue.len(),
    ensures
        queue.push(thread).skip(n as int)[0] == thread,
{
}

/// Every thread is in one place only: the handles in the queue are
/// distinct and the running thread is not among them.
pub open spec fn running_not_queued<T>(running: T, queue: Seq<T>) -> bool {
    &&& queue.no_duplicates()
    &&& !queue.contains(running)
}

/// Distinct elements stay distinct when the sequence is rearranged
/// without losing or adding any.
pub(crate) proof fn lemma_distinct_by_multiset<T>(a: Seq<T>, b: Seq<T>)
    requires
        a.no_duplicates(),
        a.to_multiset() == b.to_multiset(),
    ensures
        b.no_duplicates(),
{
    a.lemma_multiset_has_no_duplicates();
    b.lemma_multiset_has_no_duplicates_conv();
}

/// `running_not_queued` says that the queue with the running thread at
/// its end holds no thread twice.
proof fn lemma_running_not_queued_push<T>(running: T, queue: Seq<T>)
    ensures
        running_not_queued(running, queue) <==> queue.push(running).no_duplicates(),
{
    let s = queue.push(running);
    if running_not_queued(running, queue) {
        assert forall|i: int, j: int| 0 <= i < s.len() && 0 <= j < s.len() && i != j implies s[i]
            != s[j] by {
            if i < queue.len() && j < queue.len() {
                assert(s[i] == queue[i] && s[j] == queue[j]);
            } else if i < queue.len() {
                assert(s[i] == queue[i]);
            } else {
                assert(s[j] == queue[j]);
            }
        }
    }
    if s.no_duplicates() {
        assert forall|i: int, j: int|
            0 <= i < queue.len() && 0 <= j < queue.len() && i != j implies queue[i] != queue[j] by {
            assert(s[i] == queue[i] && s[j] == queue[j]);
        }
        assert forall|i: int| 0 <= i < queue.len() implies queue[i] != running by {
            assert(s[i] == queue[i]);
            assert(s[queue.len() as int] == running);
        }
    }
}

/// The running thread is never in the run queue, and no thread is queued
/// twice: a yield that hands the processor to the front thread and puts
/// the yielding one back keeps this so.
pub proof fn law_yield_keeps_running_unqueued<T>(running: T, queue: Seq<T>)
    requires
        running_not_queued(running, queue),
        queue.len() > 0,
    ensures
        running_not_queued(queue[0], requeued(take_front(queue).1, Some(running))),
{
    broadcast use vstd::seq_lib::group_to_multiset_ensures;

    let after = requeued(take_front(queue).1, Some(running));
    lemma_running_not_queued_push(running, queue);
    law_yield_conserves_threads(queue, running);
    lemma_distinct_by_multiset(queue.push(running), after.push(queue[0]));
    lemma_running_not_queued_push(queue[0], after);
}

/// A thread that ends hands the processor to the front thread, which
/// leaves the queue: the new running thread is not queued and no thread
/// is queued twice.
pub proof fn law_exit_keeps_running_unqueued<T>(running: T, queue: Seq<T>)
    requires
        running_not_queued(running, queue),
        queue.len() > 0,
    ensures
        running_not_queued(queue[0], take_front(queue).1),
{
    let rest = take_front(queue).1;
    assert forall|i: int, j: int| 0 <= i < rest.len() && 0 <= j < rest.len() && i != j implies rest[i]
        != rest[j] by {
        assert(rest[i] == queue[i + 1] && rest[j] == queue[j + 1]);
    }
    assert forall|i: int| 0 <= i < rest.len() implies rest[i] != queue[0] by {
        assert(rest[i] == queue[i + 1]);
    }
}

/// Spawning a thread that is neither running nor queued keeps every
/// thread in one place.
pub proof fn law_spawn_keeps_running_unqueued<T>(running: T, queue: Seq<T>, thread: T)
    requires
        running_not_queued(running, queue),
        thread != running,
        !queue.contains(thread),
    ensures
        running_not_queued(running, queue.push(thread)),
{
    lemma_running_not_queued_push(thread, queue);
    assert(queue.push(thread).no_duplicates());
    assert(!queue.push(thread).contains(running)) by {
        if queue.push(thread).contains(running) {
            let i = choose|i: int| 0 <= i < queue.push(thread).len() && queue.push(thread)[i] == running;
            if i < queue.len() {
                assert(queue[i] == running);
            }
        }
    }
}

} // verus!
