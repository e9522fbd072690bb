//! Bookkeeping for the table of condition variables that stands in for a
//! native futex on platforms without one.

use vstd::prelude::*;
use vstd::multiset::Multiset;

use crate::FutexError;

verus! {

/// The number of entries in the table.
pub const TABLE_SIZE: usize = 256;

/// The entry index of an address, as a fold of its bits.
pub open spec fn entry_index(x_64: u64) -> u8 {
    let x_32 = ((x_64 >> 32u64) as u32) ^ (x_64 as u32);
    let x_16 = ((x_32 >> 16u32) as u16) ^ (x_32 as u16);
    ((x_16 >> 8u16) as u8) ^ ((x_16 >> 2u16) as u8)
}

/// Gets the entry index to use for the given address.
pub fn entry_for_ptr(ptr: usize) -> (r: u8)
    ensures
        r == entry_index(ptr as u64),
        (r as usize) < TABLE_SIZE,
{
    let x_64 = ptr as u64;
    let x_32 = ((x_64 >> 32u64) as u32) ^ (x_64 as u32);
    let x_16 = ((x_32 >> 16u32) as u16) ^ (x_32 as u16);
    ((x_16 >> 8u16) as u8) ^ ((x_16 >> 2u16) as u8)
}


/// Below 256 the entry of an address is its index as a 4-byte slot.
pub proof fn lemma_entry_of_low_addresses(ptr: u64)
    requires
        ptr < 256,
    ensures
        entry_index(ptr) == ptr / 4,
{
    assert(ptr < 256 ==> entry_index(ptr) == ptr / 4) by (bit_vector);
}

/// The 64 four-byte slots of a 256-byte-aligned block all use different
/// entries, so neighbouring atomics do not share a condition variable.
pub proof fn lemma_entries_spread_over_a_block(base: u64, i: u64, j: u64)
    requires
        base % 256 == 0,
        i < 64,
        j < 64,
        i != j,
    ensures
        entry_index((base + 4 * i) as u64) != entry_index((base + 4 * j) as u64),
{
    assert(base % 256 == 0 && i < 64 && j < 64 && i != j ==> entry_index((base + 4 * i) as u64)
        != entry_index((base + 4 * j) as u64)) by (bit_vector);
}

/// Holds metadata that gets written while the entry's lock is held.
#[derive(Debug, Clone, Copy, PartialEq, Eq, Structural)]
pub struct WaitMetadata {
    /// The address upon which all threads are waiting, or `0` (the null
    /// address) if the addresses may differ between the waiting threads.
    pub address: usize,
    /// The number of threads waiting on this table entry.
    pub waiting_count: usize,
}

impl WaitMetadata {
    /// The metadata of an entry that no thread waits on.
    pub open spec fn idle() -> WaitMetadata {
        WaitMetadata { address: 0, waiting_count: 0 }
    }

    /// The metadata after one more thread starts waiting on `ptr`.
    pub open spec fn registered(self, ptr: usize) -> WaitMetadata {
        WaitMetadata {
            address: if self.waiting_count == 0 {
                ptr
            } else if self.address != ptr {
                0
            } else {
                self.address
            },
            waiting_count: (self.waiting_count + 1) as usize,
        }
    }

    /// The metadata after one waiting thread stops waiting.
    pub open spec fn unregistered(self) -> WaitMetadata {
        WaitMetadata { address: self.address, waiting_count: (self.waiting_count - 1) as usize }
    }

    /// The starting value for metadata: nobody waits.
    pub fn new() -> (m: WaitMetadata)
        ensures
            m == WaitMetadata::idle(),
    {
        WaitMetadata { address: 0, waiting_count: 0 }
    }
}

/// The first half of a wait on `ptr`, taken with the entry's lock held, once
/// the caller has evaluated its wait condition.
///
/// When the condition does not hold the wait ends at once with
/// [`FutexError::NotEqual`] and nothing changes. Otherwise the caller is
/// registered as a waiter and `Ok(())` tells it to sleep on the entry's
/// condition variable, then to call [`finish_wait`].
pub fn wait(meta: &mut WaitMetadata, ptr: usize, condition_holds: bool) -> (r: Result<(), FutexError>)
    requires
        condition_holds ==> old(meta).waiting_count < usize::MAX,
    ensures
        condition_holds ==> r == Ok::<(), FutexError>(()) && *final(meta) == old(meta).registered(ptr),
        !condition_holds ==> r == Err::<(), FutexError>(FutexError::NotEqual) && *final(meta) == *old(meta),
        condition_holds ==> final(meta).waiting_count == old(meta).waiting_count + 1,
        condition_holds && (old(meta).waiting_count == 0 || old(meta).address == ptr) ==> final(meta).address == ptr,
        condition_holds && old(meta).waiting_count > 0 && old(meta).address != ptr ==> final(meta).address == 0,
{
    if condition_holds {
        if meta.waiting_count == 0 {
            meta.address = ptr;
        } else if meta.address != ptr {
            meta.address = 0;
        }
        meta.waiting_count = meta.waiting_count + 1;
        Ok(())
    } else {
        Err(FutexError::NotEqual)
    }
}

/// The second half of a wait, taken with the entry's lock held again after
/// the sleep ended: the caller stops counting as a waiter, and the wait
/// reports whether the sleep ended by its timeout.
pub fn finish_wait(meta: &mut WaitMetadata, timed_out: bool) -> (r: Result<(), FutexError>)
    requires
        old(meta).waiting_count > 0,
    ensures
        *final(meta) == old(meta).unregistered(),
        final(meta).waiting_count == old(meta).waiting_count - 1,
        final(meta).address == old(meta).address,
        r == (if timed_out { Err::<(), FutexError>(FutexError::Timeout) } else { Ok(()) }),
{
    meta.waiting_count = meta.waiting_count - 1;
    if timed_out {
        Err(FutexError::Timeout)
    } else {
        Ok(())
    }
}

/// What a notification does to the entry's condition variable.
#[derive(Debug, Clone, Copy, PartialEq, Eq, Structural)]
pub enum NotifyAction {
    /// Nothing to wake.
    Skip,
    /// Wake every thread waiting on the entry.
    WakeAll,
    /// Wake one waiting thread, `times` times over.
    WakeOne { times: usize },
}

/// The action a notification takes and the number it reports as woken.
#[derive(Debug, Clone, Copy, PartialEq, Eq, Structural)]
pub struct NotifyPlan {
    pub action: NotifyAction,
    pub woken: usize,
}

/// How many of an entry's `waiting` threads an action on its condition
/// variable wakes: none, all of them, or one per signal while any are left.
pub open spec fn threads_woken(action: NotifyAction, waiting: int) -> int {
    match action {
        NotifyAction::Skip => 0,
        NotifyAction::WakeAll => waiting,
        NotifyAction::WakeOne { times } => if times <= waiting { times as int } else { waiting },
    }
}

/// The smaller of two numbers.
pub open spec fn at_most(a: int, b: int) -> int {
    if a <= b { a } else { b }
}

/// The plan of a notification of every waiter on `ptr`: the whole entry is
/// woken unless the address is null or nobody waits on the entry.
pub open spec fn notify_all_plan(ptr: usize, meta: WaitMetadata) -> NotifyPlan {
    if ptr == 0 || meta.waiting_count == 0 {
        NotifyPlan { action: NotifyAction::Skip, woken: 0 }
    } else {
        NotifyPlan { action: NotifyAction::WakeAll, woken: meta.waiting_count }
    }
}

/// The plan of a notification of `count` waiters on `ptr`: nothing when the
/// address is null, nobody is asked for or nobody waits on the entry; the
/// whole entry when it holds fewer waiters than asked for or waiters on mixed
/// addresses, reporting no more than `count`; otherwise `count` single
/// wakeups.
pub open spec fn notify_many_plan(ptr: usize, meta: WaitMetadata, count: usize) -> NotifyPlan {
    if ptr == 0 || count == 0 || meta.waiting_count == 0 {
        NotifyPlan { action: NotifyAction::Skip, woken: 0 }
    } else if meta.waiting_count < count {
        NotifyPlan { action: NotifyAction::WakeAll, woken: meta.waiting_count }
    } else if meta.address == 0 {
        NotifyPlan { action: NotifyAction::WakeAll, woken: count }
    } else {
        NotifyPlan { action: NotifyAction::WakeOne { times: count }, woken: count }
    }
}

/// Wakes all threads waiting on `ptr`, given a copy of the metadata of the
/// entry of `ptr`; returns what to do and the number of threads woken.
pub fn notify_all(ptr: usize, meta: &WaitMetadata) -> (plan: NotifyPlan)
    ensures
        plan == notify_all_plan(ptr, *meta),
        ptr != 0 ==> threads_woken(plan.action, meta.waiting_count as int) == meta.waiting_count,
        plan.woken == threads_woken(plan.action, meta.waiting_count as int),
        ptr == 0 || meta.waiting_count == 0 ==> plan == (NotifyPlan { action: NotifyAction::Skip, woken: 0 }),
{
    if ptr == 0 || meta.waiting_count == 0 {
        NotifyPlan { action: NotifyAction::Skip, woken: 0 }
    } else {
        NotifyPlan { action: NotifyAction::WakeAll, woken: meta.waiting_count }
    }
}

/// Wakes at least `count` threads waiting on `ptr` (all of the entry's
/// threads if there are fewer, or if the entry also holds waiters on other
/// addresses), given a copy of the metadata of the entry of `ptr`; returns
/// what to do and the number of threads woken, which is at most `count`.
pub fn notify_many(ptr: usize, meta: &WaitMetadata, count: usize) -> (plan: NotifyPlan)
    ensures
        plan == notify_many_plan(ptr, *meta, count),
        plan.woken <= count,
        ptr == 0 || count == 0 || meta.waiting_count == 0 ==> plan == (NotifyPlan {
            action: NotifyAction::Skip,
            woken: 0,
        }),
        ptr != 0 ==> plan.woken == at_most(count as int, meta.waiting_count as int),
        plan.action is WakeOne ==> meta.address != 0,
        ptr != 0 ==> threads_woken(plan.action, meta.waiting_count as int) >= at_most(
            count as int,
            meta.waiting_count as int,
        ),
        threads_woken(plan.action, meta.waiting_count as int) > count ==> meta.address == 0,
        meta.address != 0 ==> plan.woken == threads_woken(plan.action, meta.waiting_count as int),
        ptr != 0 && meta.address == ptr ==> threads_woken(plan.action, meta.waiting_count as int)
            == at_most(count as int, meta.waiting_count as int),
        ptr != 0 && meta.address == ptr && 0 < count <= meta.waiting_count ==> plan == (NotifyPlan {
            action: NotifyAction::WakeOne { times: count },
            woken: count,
        }),
{
    if ptr == 0 || count == 0 || meta.waiting_count == 0 {
        NotifyPlan { action: NotifyAction::Skip, woken: 0 }
    } else if meta.waiting_count < count {
        NotifyPlan { action: NotifyAction::WakeAll, woken: meta.waiting_count }
    } else if meta.address == 0 {
        NotifyPlan { action: NotifyAction::WakeAll, woken: count }
    } else {
        NotifyPlan { action: NotifyAction::WakeOne { times: count }, woken: count }
    }
}


/// `meta` describes the threads registered on an entry, `waiters` being the
/// multiset of the addresses they wait on: it counts them, and a non-null
/// `address` is the address of every one of them.
pub open spec fn describes(meta: WaitMetadata, waiters: Multiset<usize>) -> bool {
    &&& waiters.len() == meta.waiting_count
    &&& meta.address != 0 ==> forall|w: usize| #[trigger] waiters.count(w) > 0 ==> w == meta.address
}

/// The metadata of a fresh entry describes an entry that nobody waits on.
pub proof fn lemma_idle_describes_no_waiters()
    ensures
        describes(WaitMetadata::idle(), Multiset::empty()),
{
    broadcast use vstd::multiset::group_multiset_axioms;
}

/// A thread that starts waiting on `ptr` keeps the metadata a true
/// description of the entry's waiters.
pub proof fn lemma_register_keeps_description(meta: WaitMetadata, waiters: Multiset<usize>, ptr: usize)
    requires
        describes(meta, waiters),
        meta.waiting_count < usize::MAX,
    ensures
        describes(meta.registered(ptr), waiters.insert(ptr)),
{
    broadcast use vstd::multiset::group_multiset_axioms, vstd::multiset::group_multiset_properties;

    let after = meta.registered(ptr);
    if meta.waiting_count == 0 {
        assert(waiters =~= Multiset::empty());
    }
    if after.address != 0 {
        assert forall|w: usize| #[trigger] waiters.insert(ptr).count(w) > 0 implies w == after.address by {
            if w != ptr {
                assert(waiters.count(w) > 0);
            }
        }
    }
}

/// A thread waiting on `ptr` that stops waiting keeps the metadata a true
/// description of the entry's waiters.
pub proof fn lemma_unregister_keeps_description(meta: WaitMetadata, waiters: Multiset<usize>, ptr: usize)
    requires
        describes(meta, waiters),
        waiters.count(ptr) > 0,
    ensures
        meta.waiting_count > 0,
        describes(meta.unregistered(), waiters.remove(ptr)),
{
    broadcast use vstd::multiset::group_multiset_axioms, vstd::multiset::group_multiset_properties;

    assert(Multiset::singleton(ptr).subset_of(waiters));
    assert(waiters.remove(ptr) =~= waiters.sub(Multiset::singleton(ptr)));
    assert(waiters.remove(ptr).len() == waiters.len() - 1);
    if meta.address != 0 {
        assert forall|w: usize| #[trigger] waiters.remove(ptr).count(w) > 0 implies w == meta.address by {
            assert(waiters.count(w) > 0);
        }
    }
}

/// A wait that starts and finishes leaves the number of waiters as it was,
/// and leaves the address as it was when every waiter already waited on it.
pub proof fn lemma_wait_then_finish_restores(meta: WaitMetadata, ptr: usize)
    requires
        meta.waiting_count < usize::MAX,
    ensures
        meta.registered(ptr).unregistered().waiting_count == meta.waiting_count,
        meta.waiting_count > 0 && meta.address == ptr ==> meta.registered(ptr).unregistered() == meta,
{
}

/// Waking all waiters of a non-null address misses none of them: either the
/// whole entry is woken, with its size reported, or nobody waits on the entry
/// and nothing is reported.
pub proof fn lemma_notify_all_wakes_every_waiter(meta: WaitMetadata, waiters: Multiset<usize>, ptr: usize)
    requires
        describes(meta, waiters),
        ptr != 0,
    ensures
        ({
            let plan = notify_all_plan(ptr, meta);
            &&& plan.action == NotifyAction::WakeAll ==> plan.woken == waiters.len()
            &&& plan.action == NotifyAction::Skip ==> plan.woken == 0 && waiters.len() == 0
            &&& plan.action == (if waiters.len() > 0 { NotifyAction::WakeAll } else { NotifyAction::Skip })
        }),
{
    broadcast use vstd::multiset::group_multiset_axioms;

    if meta.waiting_count == 0 {
        assert(waiters.count(ptr) <= waiters.len());
    }
}

/// Waking `count` waiters of a non-null address misses none that it owes and
/// never reports more than `count`: it wakes the whole entry, or it wakes
/// `count` threads one by one, which are no more than the entry holds and all
/// wait on `ptr` as soon as any does, or it wakes nobody because nobody was
/// asked for or nobody waits.
pub proof fn lemma_notify_many_misses_no_waiter(
    meta: WaitMetadata,
    waiters: Multiset<usize>,
    ptr: usize,
    count: usize,
)
    requires
        describes(meta, waiters),
        ptr != 0,
    ensures
        ({
            let plan = notify_many_plan(ptr, meta, count);
            &&& plan.woken <= count
            &&& plan.action == NotifyAction::Skip ==> plan.woken == 0 && (count == 0 || waiters.len() == 0)
            &&& plan.action == NotifyAction::WakeAll ==> plan.woken == (if waiters.len() < count {
                waiters.len() as int
            } else {
                count as int
            })
            &&& plan.action matches NotifyAction::WakeOne { times } ==> {
                &&& times == count
                &&& plan.woken == count
                &&& count <= waiters.len()
                &&& waiters.count(ptr) > 0 ==> forall|w: usize| #[trigger] waiters.count(w) > 0 ==> w == ptr
            }
        }),
{
    broadcast use vstd::multiset::group_multiset_axioms;

    if meta.waiting_count == 0 {
        assert(waiters.count(ptr) <= waiters.len());
    }
}

/// A notification of `count` waiters of a non-null address wakes at least
/// as many of the entry's threads as were asked for (or all, if fewer wait);
/// it wakes more than `count` only when the entry's waiters are on mixed
/// addresses; it always reports the smaller of `count` and the number of
/// waiters, and outside that case the number reported is the number woken.
/// Single wakeups are used only when one address is shared by every waiter,
/// so they land on waiters of `ptr` whenever it has any. When
/// every waiter of the entry waits on `ptr`, exactly the smaller of `count`
/// and their number wake, by single wakeups when there are enough of them.
pub proof fn lemma_notify_many_wakes_what_was_asked(
    meta: WaitMetadata,
    waiters: Multiset<usize>,
    ptr: usize,
    count: usize,
)
    requires
        describes(meta, waiters),
        ptr != 0,
    ensures
        ({
            let plan = notify_many_plan(ptr, meta, count);
            let woke = threads_woken(plan.action, waiters.len() as int);
            &&& woke >= at_most(count as int, waiters.len() as int)
            &&& plan.woken == at_most(count as int, waiters.len() as int)
            &&& woke > count ==> meta.address == 0
            &&& plan.action is WakeOne ==> meta.address != 0
                && (waiters.count(ptr) > 0 ==> waiters.count(ptr) == waiters.len())
            &&& meta.address != 0 ==> plan.woken == woke
            &&& meta.address == ptr ==> woke == at_most(count as int, waiters.len() as int)
                && woke == at_most(count as int, waiters.count(ptr) as int)
            &&& meta.address == ptr && 0 < count <= waiters.len() ==> plan.action == (NotifyAction::WakeOne { times: count })
        }),
{
    broadcast use vstd::multiset::group_multiset_axioms;

    if meta.address != 0 && waiters.count(ptr) > 0 {
        assert(ptr == meta.address);
        lemma_all_on_one_address(waiters, ptr);
    }
    if meta.address == ptr && waiters.len() > 0 {
        lemma_all_on_one_address(waiters, ptr);
    }
    if meta.address == ptr && waiters.len() == 0 {
        assert(waiters.count(ptr) <= waiters.len());
    }
}

/// A notification of every waiter of a non-null address wakes every thread of
/// its entry and reports exactly that number.
pub proof fn lemma_notify_all_reports_what_it_wakes(meta: WaitMetadata, waiters: Multiset<usize>, ptr: usize)
    requires
        describes(meta, waiters),
        ptr != 0,
    ensures
        threads_woken(notify_all_plan(ptr, meta).action, waiters.len() as int) == waiters.len(),
        notify_all_plan(ptr, meta).woken == waiters.len(),
{
}

/// When every element of `waiters` is `ptr`, `ptr` occurs as often as the
/// multiset is long.
proof fn lemma_all_on_one_address(waiters: Multiset<usize>, ptr: usize)
    requires
        forall|w: usize| #[trigger] waiters.count(w) > 0 ==> w == ptr,
    ensures
        waiters.count(ptr) == waiters.len(),
    decreases waiters.len(),
{
    broadcast use vstd::multiset::group_multiset_axioms, vstd::multiset::group_multiset_properties;

    if waiters.len() == 0 {
        assert(waiters.count(ptr) <= waiters.len());
    } else {
        let x = waiters.choose();
        assert(waiters.count(x) > 0);
        assert(x == ptr);
        let rest = waiters.remove(ptr);
        assert(Multiset::singleton(ptr).subset_of(waiters));
        assert(rest =~= waiters.sub(Multiset::singleton(ptr)));
        assert(rest.len() == waiters.len() - 1);
        assert forall|w: usize| #[trigger] rest.count(w) > 0 implies w == ptr by {
            assert(waiters.count(w) > 0);
        }
        lemma_all_on_one_address(rest, ptr);
        assert(rest.count(ptr) == waiters.count(ptr) - 1);
    }
}

/// With nobody waiting, a notification wakes nobody and reports zero.
pub proof fn lemma_notify_without_waiters(meta: WaitMetadata, ptr: usize, count: usize)
    requires
        describes(meta, Multiset::empty()),
    ensures
        notify_all_plan(ptr, meta) == (NotifyPlan { action: NotifyAction::Skip, woken: 0 }),
        notify_many_plan(ptr, meta, count) == (NotifyPlan { action: NotifyAction::Skip, woken: 0 }),
{
    broadcast use vstd::multiset::group_multiset_axioms;
}

} // verus!
