//! A pool of reusable items. The pool keeps up to a fixed number of idle
//! items; a caller that finds none idle gets a fresh one, so the number of
//! items in use is not capped, only the number that rest in the pool.

use std::sync::Arc;
use vstd::multiset::Multiset;
use vstd::prelude::*;
use vstd::rwlock::RwLock;
use vstd::rwlock::RwLockPredicate;
use vstd::seq_lib::*;

verus! {

/// The idle items after one is taken: the last one leaves, if there is one.
pub open spec fn after_acquire<A>(free: Seq<A>) -> Seq<A> {
    if free.len() > 0 {
        free.drop_last()
    } else {
        free
    }
}

/// The idle items after `item` comes back: it is kept while fewer than
/// `limit` items are idle, and discarded otherwise.
pub open spec fn after_release<A>(free: Seq<A>, limit: nat, item: A) -> Seq<A> {
    if free.len() < limit {
        free.push(item)
    } else {
        free
    }
}

/// Makes the items of a pool.
pub trait Creator<T: Send + ?Sized> {
    /// What keeps the creator from making an item.
    type Error;

    /// A fresh item, or the reason why none can be made.
    fn create_item(&self) -> Result<Box<T>, Self::Error>;

    /// The item that is leased where no fresh one can be made. A lease is
    /// never refused, so this item has to tell its user what went wrong.
    fn stand_in(&self, cause: Self::Error) -> Box<T>;
}

/// The idle items of a pool and the number of them that may rest there.
pub struct InnerPool<T: Send + ?Sized> {
    free: Vec<Box<T>>,
    limit: usize,
}

impl<T: Send + ?Sized> InnerPool<T> {
    /// The idle items; the last one is handed out first.
    pub closed spec fn items(&self) -> Seq<Box<T>> {
        self.free@
    }

    /// The number of items that may rest in the pool.
    pub closed spec fn limit(&self) -> nat {
        self.limit as nat
    }

    /// No more items are idle than may rest in the pool.
    pub open spec fn wf(&self) -> bool {
        self.items().len() <= self.limit()
    }

    /// A pool without an idle item.
    pub fn new(limit: usize) -> (pool: Self)
        ensures
            pool.wf(),
            pool.items() == Seq::<Box<T>>::empty(),
            pool.limit() == limit,
    {
        InnerPool { free: Vec::new(), limit }
    }

    /// Takes the last idle item, or fails with `false` when none is idle.
    pub fn acquire(&mut self) -> (r: Result<Box<T>, bool>)
        ensures
            final(self).limit() == old(self).limit(),
            final(self).items() == after_acquire(old(self).items()),
            old(self).wf() ==> final(self).wf(),
            match r {
                Ok(item) => old(self).items().len() > 0 && item == old(self).items().last(),
                Err(e) => old(self).items().len() == 0 && !e,
            },
    {
        match self.free.pop() {
            Some(item) => Ok(item),
            None => Err(false),
        }
    }

    /// Takes an item back. It is kept while fewer items are idle than may
    /// rest in the pool, and dropped otherwise.
    pub fn release(&mut self, item: Box<T>)
        ensures
            final(self).limit() == old(self).limit(),
            final(self).items() == after_release(old(self).items(), old(self).limit(), item),
            old(self).wf() ==> final(self).wf(),
    {
        if self.free.len() < self.limit {
            self.free.push(item);
        }
    }

    /// The number of idle items.
    pub fn len(&self) -> (n: usize)
        ensures
            n == self.items().len(),
    {
        self.free.len()
    }
}

/// Whether `item` is an item that `creator` made.
pub open spec fn made_by<T: Send + ?Sized, F: Creator<T>>(creator: &F, item: Box<T>) -> bool {
    call_ensures(F::create_item, (creator,), Ok::<Box<T>, F::Error>(item))
}

/// Whether `cause` is a reason that `creator` gave for making no item.
pub open spec fn failed_with<T: Send + ?Sized, F: Creator<T>>(creator: &F, cause: F::Error) -> bool {
    call_ensures(F::create_item, (creator,), Err::<Box<T>, F::Error>(cause))
}

/// Whether `item` is what `creator` hands out in place of an item that it
/// could not make.
pub open spec fn stands_in<T: Send + ?Sized, F: Creator<T>>(creator: &F, item: Box<T>) -> bool {
    exists|cause: F::Error|
        failed_with::<T, F>(creator, cause) && call_ensures(F::stand_in, (creator, cause), item)
}

/// The item of a lease: the idle item that was taken from the pool, or,
/// where none was idle, a fresh item of the creator, or the creator's
/// stand-in where it cannot make one.
pub fn leased_item<T: Send + ?Sized, F: Creator<T>>(taken: Result<Box<T>, bool>, creator: &F) -> (item:
    Box<T>)
    ensures
        match taken {
            Ok(idle) => item == idle,
            Err(_) => made_by(creator, item) || stands_in(creator, item),
        },
{
    match taken {
        Ok(idle) => idle,
        Err(_) => match creator.create_item() {
            Ok(fresh) => fresh,
            Err(cause) => {
                let item = creator.stand_in(cause);
                assert(failed_with::<T, F>(creator, cause) && call_ensures(
                    F::stand_in,
                    (creator, cause),
                    item,
                ));
                item
            },
        },
    }
}

/// Makes `min_pool` items with `creator`, all of them idle in a pool that
/// lets `min_pool` items rest. The first item that the creator cannot make
/// ends the work, and the creator's reason is handed on. A pool in which
/// nothing may rest asks nothing of the creator, and is always made.
pub fn seed<T: Send + ?Sized, F: Creator<T>>(min_pool: usize, creator: &F) -> (r: Result<
    InnerPool<T>,
    F::Error,
>)
    ensures
        min_pool == 0 ==> r is Ok,
        match r {
            Ok(inner) => {
                &&& inner.wf()
                &&& inner.limit() == min_pool
                &&& inner.items().len() == min_pool
                &&& forall|i: int|
                    0 <= i < inner.items().len() ==> made_by(creator, #[trigger] inner.items()[i])
            },
            Err(cause) => failed_with::<T, F>(creator, cause),
        },
{
    let mut inner: InnerPool<T> = InnerPool::new(min_pool);
    let mut i: usize = 0;
    while i < min_pool
        invariant
            i <= min_pool,
            inner.limit() == min_pool,
            inner.items().len() == i,
            forall|k: int| 0 <= k < i ==> made_by(creator, #[trigger] inner.items()[k]),
        decreases min_pool - i,
    {
        let item = creator.create_item()?;
        inner.release(item);
        i = i + 1;
    }
    Ok(inner)
}

/// What holds of the idle items whenever nobody is changing them: they are
/// no more than `limit`.
pub struct Capacity {
    pub limit: usize,
}

impl<T: Send + ?Sized> RwLockPredicate<InnerPool<T>> for Capacity {
    open spec fn inv(self, v: InnerPool<T>) -> bool {
        v.wf() && v.limit() == self.limit
    }
}

/// A pool that many threads may share. It is seeded with `min_pool` items
/// and never lets more than `min_pool` items rest in it.
pub struct PoolManager<T: Send + ?Sized, F: Creator<T>> {
    creator: F,
    pool: Arc<RwLock<InnerPool<T>, Capacity>>,
    min_pool: usize,
}

/// A lease on one item of a pool. `release` gives the item back.
pub struct PoolItem<T: Send + ?Sized> {
    item: Box<T>,
    home: Arc<RwLock<InnerPool<T>, Capacity>>,
}

impl<T: Send + ?Sized, F: Creator<T>> PoolManager<T, F> {
    #[verifier::type_invariant]
    spec fn limit_is_known(self) -> bool {
        self.pool.pred().limit == self.min_pool
    }

    /// The number of items that may rest in the pool.
    pub closed spec fn min_size(&self) -> nat {
        self.min_pool as nat
    }

    /// The lock that guards the idle items.
    pub closed spec fn shared(&self) -> RwLock<InnerPool<T>, Capacity> {
        *self.pool
    }

    /// Makes `min_pool` items with `creator` and seeds the pool with them,
    /// as [`seed`] does. Where the creator cannot make one of them no pool
    /// is made, and the creator's reason is handed on.
    pub fn new(min_pool: usize, creator: F) -> (r: Result<PoolManager<T, F>, F::Error>)
        ensures
            min_pool == 0 ==> r is Ok,
            match r {
                Ok(manager) => manager.min_size() == min_pool && manager.shared().pred().limit
                    == min_pool,
                Err(cause) => failed_with::<T, F>(&creator, cause),
            },
    {
        let inner = seed(min_pool, &creator)?;
        let pool = Arc::new(RwLock::new(inner, Ghost(Capacity { limit: min_pool })));
        Ok(PoolManager { creator, pool, min_pool })
    }

    /// Leases an item: an idle one if there is one, else a fresh one. The
    /// call does not wait for an item to come back, and it does not fail:
    /// where the creator cannot make the fresh item, its stand-in is leased.
    /// The pool is locked while the idle item is taken and no longer; which
    /// item is leased is said by [`InnerPool::acquire`] and [`leased_item`].
    pub fn get_pool_item(&self) -> (lease: PoolItem<T>)
        ensures
            lease.home() == self.shared(),
    {
        let (mut inner, handle) = self.pool.acquire_write();
        let taken = inner.acquire();
        handle.release_write(inner);
        PoolItem { item: leased_item(taken, &self.creator), home: Arc::clone(&self.pool) }
    }

    /// Leases an item for the time of `work` and gives it back afterwards,
    /// whatever `work` returns: the caller cannot forget to end the lease.
    /// What comes back is what `work` made of the item. Where `work` does
    /// not return, the item is lost to the pool.
    pub fn with_item<R, G: FnOnce(&mut T) -> R>(&self, work: G) -> (out: R)
        requires
            forall|item: &mut T| call_requires(work, (item,)),
        ensures
            exists|item: &mut T| call_ensures(work, (item,), out),
    {
        let mut lease = self.get_pool_item();
        let out = work(lease.get_mut());
        lease.release();
        out
    }

    /// The number of idle items at the moment of the call.
    pub fn available_items(&self) -> (n: usize)
        ensures
            n <= self.min_size(),
    {
        proof {
            use_type_invariant(self);
        }
        let handle = self.pool.acquire_read();
        let n = handle.borrow().len();
        handle.release_read();
        n
    }
}

impl<T: Send + ?Sized> PoolItem<T> {
    /// The leased item.
    pub closed spec fn item(&self) -> &T {
        &*self.item
    }

    /// The lock of the pool that the item goes back to.
    pub closed spec fn home(&self) -> RwLock<InnerPool<T>, Capacity> {
        *self.home
    }

    /// The leased item, to read.
    pub fn get(&self) -> (item: &T)
        ensures
            item == self.item(),
    {
        &*self.item
    }

    /// The leased item, to change.
    pub fn get_mut(&mut self) -> (item: &mut T)
        ensures
            &*item == old(self).item(),
            &*final(item) == final(self).item(),
            final(self).home() == old(self).home(),
    {
        &mut *self.item
    }

    /// Ends the lease. The item rests in the pool again unless the pool is
    /// full, in which case it is dropped.
    pub fn release(self) {
        let PoolItem { item, home } = self;
        let (mut inner, handle) = home.acquire_write();
        inner.release(item);
        handle.release_write(inner);
    }
}

/// What happens at a pool: an item is leased, where `fresh` is the item
/// that the creator makes if none is idle, or a leased item comes back.
pub enum PoolEvent<A> {
    Acquire { fresh: A },
    Release { item: A },
}

/// Where the items of a pool are.
pub struct PoolState<A> {
    /// The idle items.
    pub free: Seq<A>,
    /// The items on lease.
    pub out: Multiset<A>,
    /// The items that came back to a full pool and were dropped.
    pub dropped: Multiset<A>,
    /// Every item that was ever made for the pool.
    pub made: Multiset<A>,
}

impl<A> PoolState<A> {
    /// Every item that was made is idle, on lease or dropped, and each as
    /// often as it was made; and no more than `limit` items are idle.
    pub open spec fn accounted(self, limit: nat) -> bool {
        &&& self.free.len() <= limit
        &&& self.free.to_multiset().add(self.out).add(self.dropped) =~= self.made
    }

    /// The state of a pool that was just seeded with `free`.
    pub open spec fn seeded(free: Seq<A>) -> PoolState<A> {
        PoolState {
            free,
            out: Multiset::empty(),
            dropped: Multiset::empty(),
            made: free.to_multiset(),
        }
    }

    /// Whether an event can happen: only an item on lease can come back.
    pub open spec fn admits(self, event: PoolEvent<A>) -> bool {
        match event {
            PoolEvent::Acquire { fresh } => true,
            PoolEvent::Release { item } => self.out.count(item) > 0,
        }
    }

    /// The state after one event.
    pub open spec fn step(self, limit: nat, event: PoolEvent<A>) -> PoolState<A> {
        match event {
            PoolEvent::Acquire { fresh } => if self.free.len() > 0 {
                PoolState {
                    free: after_acquire(self.free),
                    out: self.out.insert(self.free.last()),
                    ..self
                }
            } else {
                PoolState { out: self.out.insert(fresh), made: self.made.insert(fresh), ..self }
            },
            PoolEvent::Release { item } => if self.free.len() < limit {
                PoolState {
                    free: after_release(self.free, limit, item),
                    out: self.out.remove(item),
                    ..self
                }
            } else {
                PoolState {
                    out: self.out.remove(item),
                    dropped: self.dropped.insert(item),
                    ..self
                }
            },
        }
    }

    /// Whether a run of events can happen one after the other.
    pub open spec fn admits_all(self, limit: nat, events: Seq<PoolEvent<A>>) -> bool
        decreases events.len(),
    {
        if events.len() == 0 {
            true
        } else {
            self.admits(events[0]) && self.step(limit, events[0]).admits_all(
                limit,
                events.skip(1),
            )
        }
    }

    /// The state after a run of events.
    pub open spec fn run(self, limit: nat, events: Seq<PoolEvent<A>>) -> PoolState<A>
        decreases events.len(),
    {
        if events.len() == 0 {
            self
        } else {
            self.step(limit, events[0]).run(limit, events.skip(1))
        }
    }
}

/// A pool that was just seeded with no more items than may rest in it has
/// all its items in account.
pub proof fn seeded_pool_is_accounted<A>(free: Seq<A>, limit: nat)
    requires
        free.len() <= limit,
    ensures
        PoolState::seeded(free).accounted(limit),
{
}

/// One event keeps the account of the items: none is lost and none appears
/// twice, and the idle items stay within the limit.
pub proof fn step_keeps_account<A>(state: PoolState<A>, limit: nat, event: PoolEvent<A>)
    requires
        state.accounted(limit),
        state.admits(event),
    ensures
        state.step(limit, event).accounted(limit),
{
    broadcast use group_to_multiset_ensures;

    let next = state.step(limit, event);
    match event {
        PoolEvent::Acquire { fresh } => {
            if state.free.len() > 0 {
                let rest = state.free.drop_last();
                assert(state.free =~= rest.push(state.free.last()));
                to_multiset_build(rest, state.free.last());
                assert(state.free.to_multiset() =~= rest.to_multiset().insert(state.free.last()));
                assert(next.free.to_multiset().add(next.out).add(next.dropped) =~= next.made);
            } else {
                assert(next.free.to_multiset().add(next.out).add(next.dropped) =~= next.made);
            }
        },
        PoolEvent::Release { item } => {
            if state.free.len() < limit {
                to_multiset_build(state.free, item);
                assert(next.free.to_multiset().add(next.out).add(next.dropped) =~= next.made);
            } else {
                assert(next.free.to_multiset().add(next.out).add(next.dropped) =~= next.made);
            }
        },
    }
}

/// Capacity of the pool: after any run of leases and returns, no more than
/// `limit` items are idle; that holds in particular when no item is on
/// lease. The number of idle items is a length, so it is never negative.
pub proof fn idle_items_stay_within_limit<A>(
    state: PoolState<A>,
    limit: nat,
    events: Seq<PoolEvent<A>>,
)
    requires
        state.accounted(limit),
        state.admits_all(limit, events),
    ensures
        state.run(limit, events).free.len() <= limit,
        state.run(limit, events).accounted(limit),
    decreases events.len(),
{
    if events.len() > 0 {
        step_keeps_account(state, limit, events[0]);
        idle_items_stay_within_limit(state.step(limit, events[0]), limit, events.skip(1));
    }
}

/// No item is lost or doubled: after any run of leases and returns, an item
/// that was made once is in exactly one place, idle once, or on lease once,
/// or dropped once.
pub proof fn every_item_is_in_one_place<A>(
    state: PoolState<A>,
    limit: nat,
    events: Seq<PoolEvent<A>>,
    item: A,
)
    requires
        state.accounted(limit),
        state.admits_all(limit, events),
    ensures
        ({
            let last = state.run(limit, events);
            last.free.to_multiset().count(item) + last.out.count(item) + last.dropped.count(item)
                == last.made.count(item)
        }),
{
    idle_items_stay_within_limit(state, limit, events);
    let last = state.run(limit, events);
    assert(last.free.to_multiset().add(last.out).add(last.dropped).count(item) == last.made.count(
        item,
    ));
}

} // verus!
