//! Thread queue of the preemptive scheduler. The running thread is the
//! front of the queue; a switch hands the processor to the back of the
//! queue and puts the running thread there. Threads are opaque handles
//! `T`; their saved register contexts live with the caller.
use std::collections::VecDeque;
use crate::sync::scheduler::lemma_distinct_by_multiset;
use vstd::prelude::*;

verus! {

/// The queue after a switch: the back thread comes to the front and the
/// front thread goes to the back. Fewer than two threads stay as they are.
pub open spec fn swap_ends<T>(queue: Seq<T>) -> Seq<T> {
    if queue.len() < 2 {
        queue
    } else {
        seq![queue.last()] + queue.subrange(1, queue.len() - 1) + seq![queue[0]]
    }
}

/// The queue after the running (front) thread leaves it: the back thread
/// takes the front.
pub open spec fn without_current<T>(queue: Seq<T>) -> Seq<T> {
    seq![queue.last()] + queue.subrange(1, queue.len() - 1)
}

/// Threads of the machine; the front one is running.
pub struct Scheduler<T> {
    queue: VecDeque<T>,
}

impl<T> View for Scheduler<T> {
    type V = Seq<T>;

    closed spec fn view(&self) -> Seq<T> {
        self.queue@
    }
}

impl<T> Scheduler<T> {
    /// A scheduler whose only thread is the idle thread, running.
    pub fn new(idle: T) -> (scheduler: Scheduler<T>)
        ensures
            scheduler@ == seq![idle],
    {
        let mut queue = VecDeque::new();
        queue.push_front(idle);
        let s = Scheduler { queue };
        proof {
            assert(s@ =~= seq![idle]);
        }
        s
    }

    /// The thread the processor starts on: the front of the queue.
    pub fn bootstrap_start(&self) -> (first: &T)
        requires
            self@.len() > 0,
        ensures
            *first == self@[0],
    {
        &self.queue[0]
    }

    /// The number of threads, the running one included.
    pub fn len(&self) -> (n: usize)
        ensures
            n == self@.len(),
    {
        self.queue.len()
    }

    /// Makes a thread runnable: it waits at the back of the queue.
    pub fn schedule_tcb(&mut self, tcb: T)
        ensures
            final(self)@ == old(self)@.push(tcb),
    {
        self.queue.push_back(tcb);
    }

    /// Takes the running thread off the queue and gives the processor to
    /// the back thread, which becomes the front. Gives back the thread
    /// that was running, for the caller to park or drop.
    pub fn do_and_unschedule(&mut self) -> (current: T)
        requires
            old(self)@.len() >= 2,
        ensures
            current == old(self)@[0],
            final(self)@ == without_current(old(self)@),
    {
        let current = self.queue.pop_front().unwrap();
        let next = self.queue.pop_back().unwrap();
        self.queue.push_front(next);
        proof {
            assert(self.queue@ =~= without_current(old(self)@));
        }
        current
    }

    /// Round-robin switch: with two threads or more, the back thread comes
    /// to the front to run and the running thread goes to the back. Tells
    /// whether a switch took place.
    pub fn switch(&mut self) -> (switched: bool)
        requires
            old(self)@.len() >= 1,
        ensures
            switched == (old(self)@.len() >= 2),
            final(self)@ == swap_ends(old(self)@),
            final(self)@.len() == old(self)@.len(),
            old(self)@.len() < 2 ==> final(self)@ == old(self)@,
            old(self)@.len() >= 2 ==> final(self)@[0] == old(self)@.last() && final(self)@.last()
                == old(self)@[0],
            forall|i: int| 0 < i < old(self)@.len() - 1 ==> #[trigger] final(self)@[i] == old(self)@[i],
    {
        if self.queue.len() < 2 {
            return false;
        }
        let running = self.queue.pop_front().unwrap();
        let next = self.queue.pop_back().unwrap();
        self.queue.push_front(next);
        self.queue.push_back(running);
        proof {
            assert(self.queue@ =~= swap_ends(old(self)@));
        }
        true
    }
}

/// A switch moves only the two ends: the back thread comes to the front,
/// the front thread goes to the back, and every thread between them keeps
/// its place. Fewer than two threads are left alone.
pub proof fn law_switch_moves_only_the_ends<T>(queue: Seq<T>)
    ensures
        swap_ends(queue).len() == queue.len(),
        queue.len() < 2 ==> swap_ends(queue) == queue,
        queue.len() >= 2 ==> swap_ends(queue)[0] == queue.last() && swap_ends(queue).last()
            == queue[0],
        forall|i: int| 0 < i < queue.len() - 1 ==> #[trigger] swap_ends(queue)[i] == queue[i],
{
}

/// Two switches in a row give the queue back as it was.
pub proof fn law_switch_twice_restores<T>(queue: Seq<T>)
    ensures
        swap_ends(swap_ends(queue)) == queue,
{
    if queue.len() >= 2 {
        let s = swap_ends(queue);
        assert(s.len() == queue.len());
        assert(s[0] == queue.last());
        assert(s.last() == queue[0]);
        assert(s.subrange(1, s.len() - 1) =~= queue.subrange(1, queue.len() - 1));
        assert(swap_ends(s) =~= queue);
    }
}

/// A switch moves threads around but keeps exactly the same threads.
pub proof fn law_switch_conserves_threads<T>(queue: Seq<T>)
    ensures
        swap_ends(queue).to_multiset() == queue.to_multiset(),
        swap_ends(queue).len() == queue.len(),
{
    broadcast use vstd::seq_lib::group_to_multiset_ensures;

    if queue.len() >= 2 {
        let mid = queue.subrange(1, queue.len() - 1);
        let a = seq![queue[0]];
        let z = seq![queue.last()];
        assert(queue =~= a + mid + z);
        vstd::seq_lib::lemma_multiset_commutative(a + mid, z);
        vstd::seq_lib::lemma_multiset_commutative(a, mid);
        vstd::seq_lib::lemma_multiset_commutative(z + mid, a);
        vstd::seq_lib::lemma_multiset_commutative(z, mid);
        assert(swap_ends(queue).to_multiset() =~= queue.to_multiset());
    }
}

/// Unscheduling takes out exactly the running thread: the threads left
/// together with it are the threads there were.
pub proof fn law_unschedule_conserves_threads<T>(queue: Seq<T>)
    requires
        queue.len() >= 2,
    ensures
        without_current(queue).to_multiset().insert(queue[0]) == queue.to_multiset(),
        without_current(queue).len() == queue.len() - 1,
{
    broadcast use vstd::seq_lib::group_to_multiset_ensures;

    let mid = queue.subrange(1, queue.len() - 1);
    let a = seq![queue[0]];
    let z = seq![queue.last()];
    assert(queue =~= a + mid + z);
    vstd::seq_lib::lemma_multiset_commutative(a + mid, z);
    vstd::seq_lib::lemma_multiset_commutative(a, mid);
    vstd::seq_lib::lemma_multiset_commutative(z, mid);
    assert(a =~= Seq::<T>::empty().push(queue[0]));
    assert(without_current(queue).to_multiset().insert(queue[0]) =~= queue.to_multiset());
}

/// A lock whose waiters give up the processor and sleep, first in, first
/// out, until the holder lets go.
pub struct Mutex<T> {
    taken: bool,
    sleepers: VecDeque<T>,
}

impl<T> Mutex<T> {
    /// Whether some thread holds the lock.
    pub closed spec fn is_taken(&self) -> bool {
        self.taken
    }

    /// The threads asleep on the lock, longest waiting first.
    pub closed spec fn sleepers(&self) -> Seq<T> {
        self.sleepers@
    }

    /// A free lock with no one waiting.
    pub fn new() -> (mutex: Mutex<T>)
        ensures
            !mutex.is_taken(),
            mutex.sleepers() == Seq::<T>::empty(),
    {
        Mutex { taken: false, sleepers: VecDeque::new() }
    }

    /// One attempt of the running thread (the front of `scheduler`) to take
    /// the lock. A free lock is taken and `true` comes back. A taken lock
    /// puts the running thread to sleep at the back of the waiters, hands
    /// the processor on as `do_and_unschedule` does, and gives `false`: the
    /// caller switches threads and tries again once woken.
    pub fn lock(&mut self, scheduler: &mut Scheduler<T>) -> (acquired: bool)
        requires
            old(self).is_taken() ==> old(scheduler)@.len() >= 2,
        ensures
            acquired == !old(self).is_taken(),
            final(self).is_taken(),
            acquired ==> final(self).sleepers() == old(self).sleepers() && final(scheduler)@
                == old(scheduler)@,
            !acquired ==> final(self).sleepers() == old(self).sleepers().push(old(scheduler)@[0])
                && final(scheduler)@ == without_current(old(scheduler)@),
    {
        if self.taken {
            let me = scheduler.do_and_unschedule();
            self.sleepers.push_back(me);
            false
        } else {
            self.taken = true;
            true
        }
    }

    /// Whether some thread holds the lock.
    pub fn is_locked(&self) -> (taken: bool)
        ensures
            taken == self.is_taken(),
    {
        self.taken
    }

    /// Takes the lock if it is free; never sleeps.
    pub fn try_lock(&mut self) -> (acquired: bool)
        ensures
            acquired == !old(self).is_taken(),
            final(self).is_taken(),
            final(self).sleepers() == old(self).sleepers(),
    {
        let ret;
        if self.taken {
            ret = false;
        } else {
            self.taken = true;
            ret = true;
        }
        return ret;
    }

    /// Lets go of a held lock and wakes the longest waiting sleeper, who
    /// becomes runnable at the back of `scheduler`.
    pub fn unlock(&mut self, scheduler: &mut Scheduler<T>)
        requires
            old(self).is_taken(),
        ensures
            !final(self).is_taken(),
            old(self).sleepers().len() == 0 ==> final(self).sleepers() == old(self).sleepers()
                && final(scheduler)@ == old(scheduler)@,
            old(self).sleepers().len() > 0 ==> final(self).sleepers()
                == old(self).sleepers().drop_first() && final(scheduler)@ == old(scheduler)@.push(
                old(self).sleepers()[0],
            ),
    {
        self.taken = false;
        match self.sleepers.pop_front() {
            Some(tcb) => scheduler.schedule_tcb(tcb),
            None => {},
        }
        proof {
            assert(old(self).sleepers().len() > 0 ==> self.sleepers@ =~= old(self).sleepers().drop_first());
        }
    }

    /// Retires the lock; nothing is left to release.
    pub fn destroy(&mut self)
        ensures
            *final(self) == *old(self),
    {
    }
}

/// A lock attempt that puts the running thread to sleep loses no thread
/// and makes none twice: the runnable and the sleeping threads together
/// are the same before and after.
pub proof fn law_lock_conserves_threads<T>(queue: Seq<T>, sleepers: Seq<T>)
    requires
        queue.len() >= 2,
    ensures
        without_current(queue).to_multiset().add(sleepers.push(queue[0]).to_multiset())
            == queue.to_multiset().add(sleepers.to_multiset()),
{
    broadcast use vstd::seq_lib::group_to_multiset_ensures;
    broadcast use vstd::multiset::group_multiset_axioms;

    law_unschedule_conserves_threads(queue);
    assert(without_current(queue).to_multiset().add(sleepers.push(queue[0]).to_multiset())
        =~= queue.to_multiset().add(sleepers.to_multiset()));
}

/// Waking a sleeper on unlock moves it from the waiters to the runnable
/// threads: the two together are the same before and after.
pub proof fn law_unlock_conserves_threads<T>(queue: Seq<T>, sleepers: Seq<T>)
    requires
        sleepers.len() > 0,
    ensures
        queue.push(sleepers[0]).to_multiset().add(sleepers.drop_first().to_multiset())
            == queue.to_multiset().add(sleepers.to_multiset()),
{
    broadcast use vstd::seq_lib::group_to_multiset_ensures;
    broadcast use vstd::multiset::group_multiset_axioms;

    let rest = sleepers.drop_first();
    assert(sleepers =~= seq![sleepers[0]] + rest);
    vstd::seq_lib::lemma_multiset_commutative(seq![sleepers[0]], rest);
    assert(seq![sleepers[0]] =~= Seq::<T>::empty().push(sleepers[0]));
    assert(queue.push(sleepers[0]).to_multiset().add(rest.to_multiset())
        =~= queue.to_multiset().add(sleepers.to_multiset()));
}

/// Sleepers wake in the order they fell asleep: a thread that blocks
/// behind `n` sleepers is the one woken by the `n + 1`-th unlock.
pub proof fn law_sleepers_wake_in_order<T>(sleepers: Seq<T>, thread: T, n: nat)
    requires
        n == sleepers.len(),
    ensures
        sleepers.push(thread).skip(n as int)[0] == thread,
{
}

/// Every thread is in one place only: no handle occurs twice among the
/// runnable threads and the sleepers together.
pub open spec fn threads_distinct<T>(queue: Seq<T>, sleepers: Seq<T>) -> bool {
    (queue + sleepers).no_duplicates()
}

/// A switch keeps every thread in one place.
pub proof fn law_switch_keeps_distinct<T>(queue: Seq<T>, sleepers: Seq<T>)
    requires
        threads_distinct(queue, sleepers),
    ensures
        threads_distinct(swap_ends(queue), sleepers),
{
    law_switch_conserves_threads(queue);
    vstd::seq_lib::lemma_multiset_commutative(queue, sleepers);
    vstd::seq_lib::lemma_multiset_commutative(swap_ends(queue), sleepers);
    lemma_distinct_by_multiset(queue + sleepers, swap_ends(queue) + sleepers);
}

/// A lock attempt that puts the running thread to sleep keeps every
/// thread in one place.
pub proof fn law_lock_keeps_distinct<T>(queue: Seq<T>, sleepers: Seq<T>)
    requires
        queue.len() >= 2,
        threads_distinct(queue, sleepers),
    ensures
        threads_distinct(without_current(queue), sleepers.push(queue[0])),
{
    law_lock_conserves_threads(queue, sleepers);
    vstd::seq_lib::lemma_multiset_commutative(queue, sleepers);
    vstd::seq_lib::lemma_multiset_commutative(without_current(queue), sleepers.push(queue[0]));
    lemma_distinct_by_multiset(queue + sleepers, without_current(queue) + sleepers.push(queue[0]));
}

/// Waking a sleeper on unlock keeps every thread in one place.
pub proof fn law_unlock_keeps_distinct<T>(queue: Seq<T>, sleepers: Seq<T>)
    requires
        sleepers.len() > 0,
        threads_distinct(queue, sleepers),
    ensures
        threads_distinct(queue.push(sleepers[0]), sleepers.drop_first()),
{
    law_unlock_conserves_threads(queue, sleepers);
    vstd::seq_lib::lemma_multiset_commutative(queue, sleepers);
    vstd::seq_lib::lemma_multiset_commutative(queue.push(sleepers[0]), sleepers.drop_first());
    lemma_distinct_by_multiset(queue + sleepers, queue.push(sleepers[0]) + sleepers.drop_first());
}

/// Making runnable a thread that is nowhere yet keeps every thread in one
/// place.
pub proof fn law_schedule_keeps_distinct<T>(queue: Seq<T>, sleepers: Seq<T>, tcb: T)
    requires
        threads_distinct(queue, sleepers),
        !(queue + sleepers).contains(tcb),
    ensures
        threads_distinct(queue.push(tcb), sleepers),
{
    broadcast use vstd::seq_lib::group_to_multiset_ensures;
    broadcast use vstd::multiset::group_multiset_axioms;

    let all = queue + sleepers;
    let after = queue.push(tcb) + sleepers;
    vstd::seq_lib::lemma_multiset_commutative(queue, sleepers);
    vstd::seq_lib::lemma_multiset_commutative(queue.push(tcb), sleepers);
    assert(after.to_multiset() =~= all.push(tcb).to_multiset());
    assert(all.push(tcb).no_duplicates()) by {
        let s = all.push(tcb);
        assert forall|i: int, j: int| 0 <= i < s.len() && 0 <= j < s.len() && i != j implies s[i]
            != s[j] by {
            if i < all.len() && j < all.len() {
                assert(s[i] == all[i] && s[j] == all[j]);
            } else if i < all.len() {
                assert(s[i] == all[i]);
            } else {
                assert(s[j] == all[j]);
            }
        }
    }
    lemma_distinct_by_multiset(all.push(tcb), after);
}

} // verus!
