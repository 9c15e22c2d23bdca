use vstd::prelude::*;

verus! {

/// The largest number of clients that a pool may hold.
pub const MAX_POOL_SIZE: usize = 100;

/// The failures of building a pool and of taking a client from it.
#[derive(Clone, Copy, Debug, PartialEq, Eq, Structural)]
pub enum ReqwestPoolError {
    /// The requested size is zero or above `MAX_POOL_SIZE`.
    SizeNotValid(usize),
    /// The pool no longer hands out permits: it has been closed.
    Semaphore,
    /// A permit was granted but no slot was free; the accounting forbids it.
    AllMutexLocked,
}

/// The size of a pool to be built, checked on creation.
#[derive(Debug)]
pub struct ReqwestPoolBuilder {
    size: usize,
}

impl ReqwestPoolBuilder {
    /// The number of clients of the pool.
    pub closed spec fn spec_size(&self) -> nat {
        self.size as nat
    }

    #[verifier::type_invariant]
    spec fn inv(self) -> bool {
        1 <= self.size <= MAX_POOL_SIZE
    }

    /// A builder for a pool of `size` clients; sizes from 1 to `MAX_POOL_SIZE` are accepted.
    pub fn new(size: usize) -> (r: Result<ReqwestPoolBuilder, ReqwestPoolError>)
        ensures
            r is Ok <==> 1 <= size <= MAX_POOL_SIZE,
            r matches Ok(b) ==> b.spec_size() == size,
            r is Err ==> r == Err::<ReqwestPoolBuilder, _>(ReqwestPoolError::SizeNotValid(size)),
    {
        if size == 0 || size > MAX_POOL_SIZE {
            return Err(ReqwestPoolError::SizeNotValid(size));
        }
        Ok(ReqwestPoolBuilder { size })
    }

    /// The number of clients of the pool.
    pub fn size(&self) -> (r: usize)
        ensures
            r == self.spec_size(),
            1 <= r <= MAX_POOL_SIZE,
    {
        proof {
            use_type_invariant(self);
        }
        self.size
    }

    /// The accounting of a new pool: every slot free, a permit for each.
    pub fn slots(&self) -> (r: PoolSlots)
        ensures
            r.wf(),
            r@.locked.len() == self.spec_size(),
            forall|i: int| 0 <= i < r@.locked.len() ==> !(#[trigger] r@.locked[i]),
            r@.permits == self.spec_size(),
            r@.reserved == 0,
            !r@.closed,
    {
        let n = self.size();
        let mut locked: Vec<bool> = Vec::new();
        let mut i: usize = 0;
        while i < n
            invariant
                i <= n,
                locked@.len() == i,
                forall|j: int| 0 <= j < i ==> !(#[trigger] locked@[j]),
                free_count(locked@) == i,
            decreases n - i,
        {
            proof {
                assert(locked@.push(false).drop_last() =~= locked@);
            }
            locked.push(false);
            i = i + 1;
        }
        PoolSlots { locked, permits: n, reserved: 0, closed: false }
    }
}

/// The state of a pool's accounting: which slots are locked, how many permits
/// are available, how many granted permits wait for their slot, and whether
/// the pool is closed.
pub struct PoolView {
    pub locked: Seq<bool>,
    pub permits: nat,
    pub reserved: nat,
    pub closed: bool,
}

/// The number of free slots.
pub open spec fn free_count(s: Seq<bool>) -> nat
    decreases s.len(),
{
    if s.len() == 0 {
        0
    } else {
        free_count(s.drop_last()) + if s.last() {
            0nat
        } else {
            1nat
        }
    }
}

/// The permits, available or granted and waiting, match the free slots one for one.
pub open spec fn pool_wf(v: PoolView) -> bool {
    &&& 1 <= v.locked.len() <= MAX_POOL_SIZE
    &&& v.permits + v.reserved == free_count(v.locked)
}

/// `i` is the first free slot.
pub open spec fn first_free(s: Seq<bool>, i: int) -> bool {
    &&& 0 <= i < s.len()
    &&& !s[i]
    &&& forall|j: int| 0 <= j < i ==> #[trigger] s[j]
}

/// A request for a permit: refused once closed, granted while one is
/// available, and otherwise told to wait.
pub open spec fn acquire_step(v: PoolView) -> (PoolView, Result<bool, ReqwestPoolError>) {
    if v.closed {
        (v, Err(ReqwestPoolError::Semaphore))
    } else if v.permits > 0 {
        (PoolView { permits: (v.permits - 1) as nat, reserved: v.reserved + 1, ..v }, Ok(true))
    } else {
        (v, Ok(false))
    }
}

/// The release of a locked slot, which returns its permit.
pub open spec fn release_step(v: PoolView, slot: int) -> PoolView {
    PoolView { locked: v.locked.update(slot, false), permits: v.permits + 1, ..v }
}

/// Setting one slot changes the count of free slots by what it was and what it becomes.
proof fn lemma_free_count_update(s: Seq<bool>, i: int, b: bool)
    requires
        0 <= i < s.len(),
    ensures
        free_count(s.update(i, b)) + (if s[i] {
            0int
        } else {
            1int
        }) == free_count(s) + (if b {
            0int
        } else {
            1int
        }),
    decreases s.len(),
{
    let t = s.update(i, b);
    if i == s.len() - 1 {
        assert(t.drop_last() =~= s.drop_last());
    } else {
        assert(t.drop_last() =~= s.drop_last().update(i, b));
        lemma_free_count_update(s.drop_last(), i, b);
    }
}

/// With every slot locked, none is free.
proof fn lemma_none_free(s: Seq<bool>)
    requires
        forall|j: int| 0 <= j < s.len() ==> #[trigger] s[j],
    ensures
        free_count(s) == 0,
    decreases s.len(),
{
    if s.len() > 0 {
        lemma_none_free(s.drop_last());
    }
}

/// The accounting of a bounded pool of clients: a caller first takes a
/// permit, then locks the first free slot with it, and releasing the slot
/// returns the permit.
#[derive(Debug)]
pub struct PoolSlots {
    locked: Vec<bool>,
    permits: usize,
    reserved: usize,
    closed: bool,
}

impl View for PoolSlots {
    type V = PoolView;

    closed spec fn view(&self) -> PoolView {
        PoolView {
            locked: self.locked@,
            permits: self.permits as nat,
            reserved: self.reserved as nat,
            closed: self.closed,
        }
    }
}

impl PoolSlots {
    pub open spec fn wf(&self) -> bool {
        pool_wf(self@)
    }

    /// The number of slots.
    pub fn size(&self) -> (r: usize)
        ensures
            r == self@.locked.len(),
    {
        self.locked.len()
    }

    /// The number of permits available.
    pub fn available_permits(&self) -> (r: usize)
        ensures
            r == self@.permits,
    {
        self.permits
    }

    /// Asks for a permit: an error once the pool is closed, `true` when one was
    /// taken, `false` when the caller has to wait for a release.
    pub fn try_acquire_permit(&mut self) -> (r: Result<bool, ReqwestPoolError>)
        requires
            old(self).wf(),
        ensures
            final(self).wf(),
            (final(self)@, r) == acquire_step(old(self)@),
    {
        if self.closed {
            Err(ReqwestPoolError::Semaphore)
        } else if self.permits > 0 {
            proof {
                lemma_free_count_bound(self.locked@);
            }
            self.permits = self.permits - 1;
            self.reserved = self.reserved + 1;
            Ok(true)
        } else {
            Ok(false)
        }
    }

    /// Locks the first free slot for a granted permit and returns its index.
    pub fn lock_free_slot(&mut self) -> (r: Result<usize, ReqwestPoolError>)
        requires
            old(self).wf(),
            old(self)@.reserved > 0,
        ensures
            final(self).wf(),
            r is Ok,
            r matches Ok(i) && first_free(old(self)@.locked, i as int) && final(self)@ == (
            PoolView {
                locked: old(self)@.locked.update(i as int, true),
                reserved: (old(self)@.reserved - 1) as nat,
                ..old(self)@
            }),
    {
        let mut i: usize = 0;
        while i < self.locked.len()
            invariant
                self.wf(),
                self@ == old(self)@,
                self@.reserved > 0,
                i <= self.locked@.len(),
                forall|j: int| 0 <= j < i ==> #[trigger] self.locked@[j],
            decreases self.locked@.len() - i,
        {
            if !self.locked[i] {
                proof {
                    lemma_free_count_update(self.locked@, i as int, true);
                }
                self.locked.set(i, true);
                self.reserved = self.reserved - 1;
                return Ok(i);
            }
            i = i + 1;
        }
        proof {
            lemma_none_free(self.locked@);
        }
        Err(ReqwestPoolError::AllMutexLocked)
    }

    /// Unlocks a slot and returns its permit.
    pub fn release(&mut self, slot: usize)
        requires
            old(self).wf(),
            slot < old(self)@.locked.len(),
            old(self)@.locked[slot as int],
        ensures
            final(self).wf(),
            final(self)@ == release_step(old(self)@, slot as int),
    {
        proof {
            lemma_free_count_update(self.locked@, slot as int, false);
            lemma_free_count_bound(self.locked@.update(slot as int, false));
        }
        self.locked.set(slot, false);
        self.permits = self.permits + 1;
    }

    /// Stops handing out permits; slots in use may still be released.
    pub fn close(&mut self)
        requires
            old(self).wf(),
        ensures
            final(self).wf(),
            final(self)@ == (PoolView { closed: true, ..old(self)@ }),
    {
        self.closed = true;
    }
}

/// There are no more free slots than slots.
proof fn lemma_free_count_bound(s: Seq<bool>)
    ensures
        free_count(s) <= s.len(),
    decreases s.len(),
{
    if s.len() > 0 {
        lemma_free_count_bound(s.drop_last());
    }
}

/// With every slot of an open pool locked, a request for a permit is told to
/// wait and changes nothing; releasing one slot makes exactly one permit
/// available, and the next request is granted it.
pub proof fn lemma_full_pool_waits_for_release(v: PoolView, slot: int)
    requires
        pool_wf(v),
        !v.closed,
        forall|i: int| 0 <= i < v.locked.len() ==> #[trigger] v.locked[i],
        0 <= slot < v.locked.len(),
    ensures
        acquire_step(v) == (v, Ok::<bool, ReqwestPoolError>(false)),
        release_step(v, slot).permits == 1,
        pool_wf(release_step(v, slot)),
        acquire_step(release_step(v, slot)).1 == Ok::<bool, ReqwestPoolError>(true),
{
    lemma_none_free(v.locked);
    lemma_free_count_update(v.locked, slot, false);
}

/// Releasing a slot makes exactly one more permit available and keeps the accounting sound.
pub proof fn lemma_release_returns_one_permit(v: PoolView, slot: int)
    requires
        pool_wf(v),
        0 <= slot < v.locked.len(),
        v.locked[slot],
    ensures
        release_step(v, slot).permits == v.permits + 1,
        pool_wf(release_step(v, slot)),
{
    lemma_free_count_update(v.locked, slot, false);
}

} // verus!
