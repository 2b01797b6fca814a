//! Command pools: a plain allocating pool and one that keeps its buffers for reuse.

use vstd::prelude::*;

use relevant::Relevant;

use crate::buffer::{
    discharge, leak_token, Buffer, InitialState, Level, NoIndividualReset, PrimaryLevel, Reset,
    Resettable,
};
use crate::capability::{includes, Capability, QueueFlags};
use crate::device::{Device, OutOfMemory};
use crate::family::FamilyIndex;

verus! {

/// Simple pool wrapper.
/// Wraps raw buffers into `Buffer`; keeps no record of the buffers it handed out.
#[derive(Debug)]
pub struct Pool<C = QueueFlags, R = NoIndividualReset> {
    raw: u64,
    capability: C,
    reset: R,
    family: FamilyIndex,
    relevant: Relevant,
}

impl<C, R> Pool<C, R> {
    /// Raw handle of the pool.
    pub closed spec fn spec_raw(&self) -> u64 {
        self.raw
    }

    /// Capability of the buffers the pool allocates.
    pub closed spec fn spec_capability(&self) -> C {
        self.capability
    }

    /// Reset policy of the pool.
    pub closed spec fn spec_reset(&self) -> R {
        self.reset
    }

    /// Queue family the pool was created for.
    pub closed spec fn spec_family(&self) -> FamilyIndex {
        self.family
    }

    /// `b` is a buffer of this pool in the initial state, at `level`, with handle `raw`.
    pub open spec fn stamped<L>(&self, b: Buffer<C, InitialState, L, R>, level: L, raw: u64) -> bool {
        &&& b.spec_raw() == raw
        &&& b.spec_capability() == self.spec_capability()
        &&& b.spec_level() == level
        &&& b.spec_reset() == self.spec_reset()
        &&& b.spec_family() == self.spec_family()
    }
}

impl<C: Capability, R: Reset> Pool<C, R> {
    /// Wrap raw command pool.
    ///
    /// The caller vouches that `raw` is a valid command pool created for
    /// `family`, that `capability` is a subset of the family's capabilities,
    /// and that the pool allows individual buffer reset where `reset` says so.
    pub fn from_raw(raw: u64, capability: C, reset: R, family: FamilyIndex) -> (r: Self)
        ensures
            r.spec_raw() == raw,
            r.spec_capability() == capability,
            r.spec_reset() == reset,
            r.spec_family() == family,
    {
        Pool { raw, capability, reset, family, relevant: leak_token() }
    }

    /// Wrap raw buffer handles, allocated from this pool at `level`, as buffers in the initial state.
    pub fn wrap_buffers<L: Level>(&self, level: L, raws: Vec<u64>) -> (r: Vec<Buffer<C, InitialState, L, R>>)
        ensures
            r@.len() == raws@.len(),
            forall|i: int| 0 <= i < r@.len() ==> self.stamped(#[trigger] r@[i], level, raws@[i]),
    {
        let mut buffers: Vec<Buffer<C, InitialState, L, R>> = Vec::new();
        let mut i: usize = 0;
        while i < raws.len()
            invariant
                i <= raws@.len(),
                buffers@.len() == i,
                forall|j: int| 0 <= j < i ==> self.stamped(#[trigger] buffers@[j], level, raws@[j]),
            decreases raws@.len() - i,
        {
            let b = Buffer::from_raw(raws[i], self.capability, InitialState, level, self.reset, self.family);
            buffers.push(b);
            i = i + 1;
        }
        buffers
    }

    /// Wrap a batch of raw handles that should hold `count` handles allocated from
    /// this pool at `level`; a batch of another size is an allocation failure.
    pub fn wrap_batch<L: Level>(&self, level: L, raws: Vec<u64>, count: usize) -> (r: Result<
        Vec<Buffer<C, InitialState, L, R>>,
        OutOfMemory,
    >)
        ensures
            r is Ok <==> raws@.len() == count,
            r matches Ok(v) ==> v@.len() == count && forall|i: int|
                0 <= i < v@.len() ==> self.stamped(#[trigger] v@[i], level, raws@[i]),
    {
        if raws.len() != count {
            return Err(OutOfMemory);
        }
        Ok(self.wrap_buffers(level, raws))
    }

    /// Allocate `count` new command buffers at `level`, in one batch.
    ///
    /// Fails if the device fails, or hands back another number of handles than asked for.
    pub fn allocate_buffers<L: Level, D: Device>(&mut self, device: &D, level: L, count: usize) -> (r: Result<
        Vec<Buffer<C, InitialState, L, R>>,
        OutOfMemory,
    >)
        ensures
            *final(self) == *old(self),
            r matches Ok(v) ==> v@.len() == count && forall|i: int|
                0 <= i < v@.len() ==> old(self).stamped(#[trigger] v@[i], level, v@[i].spec_raw()),
    {
        let raws = match device.allocate_command_buffers(self.raw, level.level(), count) {
            Ok(raws) => raws,
            Err(e) => return Err(e),
        };
        self.wrap_batch(level, raws, count)
    }

    /// Free buffers. They must have been allocated from this pool and must not be pending.
    pub fn free_buffers<L: Level, S: Resettable, D: Device>(
        &mut self,
        device: &D,
        buffers: Vec<Buffer<C, S, L, R>>,
    )
        ensures
            *final(self) == *old(self),
    {
        let raws = raw_handles(buffers);
        device.free_command_buffers(self.raw, &raws);
    }

    /// Reset all buffers of this pool.
    ///
    /// Every buffer allocated from this pool must then be marked reset, see `Buffer::mark_reset`.
    pub fn reset<D: Device>(&mut self, device: &D) -> (r: Result<(), OutOfMemory>)
        ensures
            *final(self) == *old(self),
    {
        device.reset_command_pool(self.raw)
    }

    /// Dispose of command pool. All buffers allocated from it must have been freed.
    pub fn dispose<D: Device>(self, device: &D) {
        device.destroy_command_pool(self.raw);
        discharge(self.relevant);
    }
}

impl<R> Pool<QueueFlags, R> {
    /// Convert capability level.
    ///
    /// Succeeds exactly when the pool's flags hold every bit that `C` requires;
    /// otherwise the pool comes back unchanged.
    pub fn from_flags<C: Capability>(self) -> (r: Result<Pool<C, R>, Self>)
        ensures
            r is Ok <==> includes(self.spec_capability().0, C::required()),
            r matches Ok(p) ==> {
                &&& p.spec_raw() == self.spec_raw()
                &&& p.spec_reset() == self.spec_reset()
                &&& p.spec_family() == self.spec_family()
                &&& C::spec_from_flags(self.spec_capability()) == Some(p.spec_capability())
                &&& includes(self.spec_capability().0, p.spec_capability().spec_into_flags().0)
            },
            r matches Err(p) ==> p == self,
    {
        match C::from_flags(self.capability) {
            Some(capability) => Ok(
                Pool {
                    raw: self.raw,
                    capability,
                    reset: self.reset,
                    family: self.family,
                    relevant: self.relevant,
                },
            ),
            None => Err(self),
        }
    }
}

/// Command pool that owns allocated buffers.
/// It can be used to borrow buffers one by one.
/// All buffers will be reset together via pool.
/// Prior reset user must ensure all buffers are complete.
///
/// The handles it has allocated are kept in order; those before the cursor are
/// in use, the rest wait to be handed out again.
#[derive(Debug)]
pub struct OwningPool<C = QueueFlags, L = PrimaryLevel> {
    inner: Pool<C>,
    level: L,
    buffers: Vec<u64>,
    next: usize,
}

impl<C, L> OwningPool<C, L> {
    /// The wrapped pool.
    pub closed spec fn spec_inner(&self) -> Pool<C> {
        self.inner
    }

    /// Level of the buffers the pool allocates.
    pub closed spec fn spec_level(&self) -> L {
        self.level
    }

    /// Every handle allocated so far, in order of allocation.
    pub closed spec fn retained(&self) -> Seq<u64> {
        self.buffers@
    }

    /// Number of retained handles handed out since the last reset.
    pub closed spec fn cursor(&self) -> nat {
        self.next as nat
    }

    /// The cursor never passes the retained handles.
    pub open spec fn wf(&self) -> bool {
        self.cursor() <= self.retained().len()
    }

    /// How many handles must be allocated so that `count` unused ones exist.
    pub open spec fn shortfall(&self, count: nat) -> nat {
        if self.cursor() + count > self.retained().len() {
            (self.cursor() + count - self.retained().len()) as nat
        } else {
            0
        }
    }

    /// `post` is `pre` with one more buffer handed out, whose handle is `raw`;
    /// handles are added only where none was left.
    pub open spec fn acquire_step(pre: Self, post: Self, raw: u64) -> bool {
        &&& post.spec_inner() == pre.spec_inner()
        &&& post.spec_level() == pre.spec_level()
        &&& pre.retained().is_prefix_of(post.retained())
        &&& pre.cursor() < pre.retained().len() ==> post.retained() == pre.retained()
        &&& post.retained().len() == pre.retained().len() + pre.shortfall(1)
        &&& post.cursor() == pre.cursor() + 1
        &&& post.cursor() <= post.retained().len()
        &&& raw == post.retained()[pre.cursor() as int]
    }
}

impl<C: Capability, L: Level> OwningPool<C, L> {
    /// Wrap simple pool into owning version.
    ///
    /// Buffers allocated from `inner` before must all have been freed.
    pub fn from_inner(inner: Pool<C>, level: L) -> (r: Self)
        ensures
            r.wf(),
            r.spec_inner() == inner,
            r.spec_level() == level,
            r.retained() == Seq::<u64>::empty(),
            r.cursor() == 0,
    {
        OwningPool { inner, level, buffers: Vec::new(), next: 0 }
    }

    /// Append `raws`, a batch that should hold `add` newly allocated handles;
    /// a batch of another size is an allocation failure and changes nothing.
    pub fn retain_batch(&mut self, raws: Vec<u64>, add: usize) -> (r: Result<(), OutOfMemory>)
        requires
            old(self).wf(),
        ensures
            final(self).wf(),
            final(self).spec_inner() == old(self).spec_inner(),
            final(self).spec_level() == old(self).spec_level(),
            final(self).cursor() == old(self).cursor(),
            (raws@.len() == add) == (r is Ok),
            r is Ok ==> final(self).retained() == old(self).retained() + raws@,
            r is Err ==> *final(self) == *old(self),
    {
        if raws.len() != add {
            return Err(OutOfMemory);
        }
        let ghost before = self.buffers@;
        let mut i: usize = 0;
        while i < add
            invariant
                i <= add,
                raws@.len() == add,
                self.buffers@ == before + raws@.subrange(0, i as int),
                self.next == old(self).next,
                self.inner == old(self).inner,
                self.level == old(self).level,
                before == old(self).buffers@,
                old(self).wf(),
            decreases add - i,
        {
            self.buffers.push(raws[i]);
            i = i + 1;
            assert(raws@.subrange(0, i as int) == raws@.subrange(0, i - 1 as int).push(raws@[i - 1]));
        }
        assert(raws@.subrange(0, add as int) == raws@);
        Ok(())
    }

    /// Reserve at least `count` buffers.
    /// Allocates, in one batch, exactly the handles missing for `count` unused ones.
    /// Fails only where it has to allocate: when the handles could not be counted
    /// in a `usize`, when the device fails, or when it hands back another number of
    /// handles than asked for; the pool is then unchanged.
    pub fn reserve<D: Device>(&mut self, device: &D, count: usize) -> (r: Result<(), OutOfMemory>)
        requires
            old(self).wf(),
        ensures
            final(self).wf(),
            final(self).spec_inner() == old(self).spec_inner(),
            final(self).spec_level() == old(self).spec_level(),
            final(self).cursor() == old(self).cursor(),
            old(self).shortfall(count as nat) == 0 ==> r is Ok && *final(self) == *old(self),
            old(self).cursor() + count > usize::MAX ==> r is Err,
            r is Ok ==> {
                &&& old(self).retained().is_prefix_of(final(self).retained())
                &&& final(self).retained().len() == old(self).retained().len() + old(self).shortfall(
                    count as nat,
                )
            },
            r is Err ==> *final(self) == *old(self),
    {
        if count <= self.buffers.len() - self.next {
            return Ok(());
        }
        if count > usize::MAX - self.next {
            return Err(OutOfMemory);
        }
        let add = self.next + count - self.buffers.len();
        let raws = match device.allocate_command_buffers(self.inner.raw, self.level.level(), add) {
            Ok(raws) => raws,
            Err(e) => return Err(e),
        };
        self.retain_batch(raws, add)
    }

    /// Acquire next unused command buffer from pool, allocating one if none is left.
    ///
    /// The buffer must be released when no longer needed. Fails only where it had
    /// to allocate and the allocation failed (see `reserve`); the pool is then unchanged.
    pub fn acquire_buffer<D: Device>(&mut self, device: &D) -> (r: Result<Buffer<C, InitialState, L>, OutOfMemory>)
        requires
            old(self).wf(),
        ensures
            final(self).wf(),
            old(self).cursor() < old(self).retained().len() ==> r is Ok,
            r matches Ok(b) ==> {
                &&& Self::acquire_step(*old(self), *final(self), b.spec_raw())
                &&& old(self).spec_inner().stamped(b, old(self).spec_level(), b.spec_raw())
            },
            r is Err ==> *final(self) == *old(self),
    {
        match self.reserve(device, 1) {
            Ok(()) => {},
            Err(e) => return Err(e),
        }
        self.next = self.next + 1;
        let raw = self.buffers[self.next - 1];
        Ok(
            Buffer::from_raw(
                raw,
                self.inner.capability,
                InitialState,
                self.level,
                self.inner.reset,
                self.inner.family,
            ),
        )
    }

    /// Reset all buffers at once; later acquisitions hand out the retained handles again.
    ///
    /// All buffers acquired from this pool must be released, and their commands complete.
    /// Any primary buffer that references a secondary buffer from this pool is invalidated.
    /// If the device fails, the pool is unchanged.
    pub fn reset<D: Device>(&mut self, device: &D) -> (r: Result<(), OutOfMemory>)
        requires
            old(self).wf(),
        ensures
            final(self).wf(),
            final(self).spec_inner() == old(self).spec_inner(),
            final(self).spec_level() == old(self).spec_level(),
            final(self).retained() == old(self).retained(),
            r is Ok ==> final(self).cursor() == 0,
            r is Err ==> final(self).cursor() == old(self).cursor(),
    {
        match self.inner.reset(device) {
            Ok(()) => {
                self.next = 0;
                Ok(())
            },
            Err(e) => Err(e),
        }
    }

    /// Dispose of command pool: reset it, free every retained handle in one
    /// batch, and destroy the inner pool. Same obligations as `reset`.
    pub fn dispose<D: Device>(self, device: &D) -> (r: Result<(), OutOfMemory>) {
        let OwningPool { mut inner, level: _, buffers, next: _ } = self;
        let reset = inner.reset(device);
        if buffers.len() > 0 {
            device.free_command_buffers(inner.raw, &buffers);
        }
        inner.dispose(device);
        reset
    }
}

impl<L> OwningPool<QueueFlags, L> {
    /// Convert capability level.
    ///
    /// Succeeds exactly when the pool's flags hold every bit that `C` requires;
    /// the retained handles and the cursor are kept either way, and on failure
    /// the pool comes back unchanged.
    pub fn from_flags<C: Capability>(self) -> (r: Result<OwningPool<C, L>, Self>)
        ensures
            r is Ok <==> includes(self.spec_inner().spec_capability().0, C::required()),
            r matches Ok(p) ==> {
                &&& p.spec_inner().spec_raw() == self.spec_inner().spec_raw()
                &&& p.spec_inner().spec_family() == self.spec_inner().spec_family()
                &&& p.spec_inner().spec_reset() == self.spec_inner().spec_reset()
                &&& C::spec_from_flags(self.spec_inner().spec_capability()) == Some(
                    p.spec_inner().spec_capability(),
                )
                &&& p.spec_level() == self.spec_level()
                &&& p.retained() == self.retained()
                &&& p.cursor() == self.cursor()
            },
            r matches Err(p) ==> p == self,
    {
        let OwningPool { inner, level, buffers, next } = self;
        match inner.from_flags::<C>() {
            Ok(inner) => Ok(OwningPool { inner, level, buffers, next }),
            Err(inner) => Err(OwningPool { inner, level, buffers, next }),
        }
    }
}

/// Along a run of acquisitions that starts with `cursor() + k` handles retained,
/// the first `k` steps add no handle and hand out the retained handles in order.
proof fn lemma_acquire_run<C, L>(pools: Seq<OwningPool<C, L>>, raws: Seq<u64>, k: nat)
    requires
        pools.len() == raws.len() + 1,
        k <= raws.len(),
        pools[0].cursor() + k <= pools[0].retained().len(),
        forall|i: int|
            0 <= i < raws.len() ==> OwningPool::acquire_step(
                #[trigger] pools[i],
                pools[i + 1],
                raws[i],
            ),
    ensures
        forall|i: int| 0 <= i <= k ==> #[trigger] pools[i].retained() == pools[0].retained(),
        forall|i: int| 0 <= i <= k ==> #[trigger] pools[i].cursor() == pools[0].cursor() + i,
        forall|i: int|
            0 <= i < k ==> #[trigger] raws[i] == pools[0].retained()[pools[0].cursor() + i],
    decreases k,
{
    if k > 0 {
        lemma_acquire_run(pools, raws, (k - 1) as nat);
        let j = k - 1;
        assert(OwningPool::acquire_step(pools[j], pools[j + 1], raws[j]));
    }
}

/// Reset never discards retained handles: after a reset, the first `k`
/// acquisitions hand out the first `k` handles retained before it, in order,
/// without allocating, whenever `k` does not exceed what was retained.
pub proof fn lemma_reset_reuses_handles<C, L>(
    before: OwningPool<C, L>,
    pools: Seq<OwningPool<C, L>>,
    raws: Seq<u64>,
)
    requires
        pools.len() == raws.len() + 1,
        pools[0].retained() == before.retained(),
        pools[0].cursor() == 0,
        raws.len() <= before.retained().len(),
        forall|i: int|
            0 <= i < raws.len() ==> OwningPool::acquire_step(
                #[trigger] pools[i],
                pools[i + 1],
                raws[i],
            ),
    ensures
        forall|i: int| 0 <= i < raws.len() ==> #[trigger] raws[i] == before.retained()[i],
        pools.last().retained() == before.retained(),
{
    lemma_acquire_run(pools, raws, raws.len());
    assert(pools.last() == pools[raws.len() as int]);
}

/// Reserving `n` buffers and then acquiring `n` allocates in the reservation
/// only, in at most one batch: the acquisitions add no handle, and hand out
/// the handles that follow the cursor, in order.
pub proof fn lemma_reserve_then_acquire<C, L>(
    before: OwningPool<C, L>,
    pools: Seq<OwningPool<C, L>>,
    raws: Seq<u64>,
)
    requires
        before.wf(),
        pools.len() == raws.len() + 1,
        pools[0].cursor() == before.cursor(),
        before.retained().is_prefix_of(pools[0].retained()),
        pools[0].retained().len() == before.retained().len() + before.shortfall(raws.len()),
        forall|i: int|
            0 <= i < raws.len() ==> OwningPool::acquire_step(
                #[trigger] pools[i],
                pools[i + 1],
                raws[i],
            ),
    ensures
        before.shortfall(raws.len()) == 0 ==> pools[0].retained() == before.retained(),
        forall|i: int| 0 <= i < pools.len() ==> #[trigger] pools[i].retained() == pools[0].retained(),
        forall|i: int|
            0 <= i < raws.len() ==> #[trigger] raws[i] == pools[0].retained()[before.cursor() + i],
{
    if before.shortfall(raws.len()) == 0 {
        assert(pools[0].retained() =~= before.retained());
    }
    lemma_acquire_run(pools, raws, raws.len());
}

/// Handles of `buffers`, in order; the wrappers are given up.
pub fn raw_handles<C, S, L, R>(buffers: Vec<Buffer<C, S, L, R>>) -> (r: Vec<u64>)
    ensures
        r@.len() == buffers@.len(),
        forall|i: int| 0 <= i < r@.len() ==> r@[i] == (#[trigger] buffers@[i]).spec_raw(),
{
    let ghost all = buffers@;
    let mut rest = buffers;
    let mut raws: Vec<u64> = Vec::new();
    while rest.len() > 0
        invariant
            raws@.len() + rest@.len() == all.len(),
            rest@ == all.subrange(raws@.len() as int, all.len() as int),
            forall|j: int| 0 <= j < raws@.len() ==> raws@[j] == (#[trigger] all[j]).spec_raw(),
        decreases rest@.len(),
    {
        let b = rest.remove(0);
        assert(b == all[raws@.len() as int]);
        raws.push(b.into_raw());
    }
    raws
}

} // verus!
