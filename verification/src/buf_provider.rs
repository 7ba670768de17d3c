//! Buffer providers for byte-stream readers.
//!
//! An [`AsyncBufProvider`] supplies the [`BytesMut`] buffers that a byte reader
//! reads into, decoupling the read loop from the buffer-sizing and recycling
//! policy.  [`CyclicBufProvider`] is a ready-made implementation that recycles
//! a fixed pool of buffers.

use bytes::BytesMut;

use vstd::prelude::*;

use crate::task::Poll;

verus! {

/// A trait for providing [`BytesMut`] buffers to read data into.
///
/// Implementations of this trait determine the buffer size and recycling
/// strategy.  [`ReaderIoReader`](crate::tokio_reader_writer::ReaderIoReader)
/// uses this to obtain buffers for its internal reads.
pub trait AsyncBufProvider: Sized {
    /// The provider is well formed.
    open spec fn provider_wf(&self) -> bool {
        true
    }

    /// A request for a buffer may leave the provider as `after` and return `buf`.
    /// A provider that does not say may do anything.
    open spec fn provides(&self, after: Self, buf: Poll<BytesMut>) -> bool {
        true
    }

    /// Attempts to provide a buffer to read into.
    ///
    /// Returns [`Poll::Ready`] with a buffer ready to be filled, or
    /// [`Poll::Pending`] if no buffer is currently available (in which case the
    /// caller's waker must have been registered for later notification).
    fn poll_get_buf(&mut self) -> (buf: Poll<BytesMut>)
        requires
            old(self).provider_wf(),
        ensures
            final(self).provider_wf(),
            old(self).provides(*final(self), buf),
    ;
}

/// Splits off all the room of a buffer, along with what has been written to it, to be
/// lent out.  Returns the empty handle by which the buffer can be reclaimed, and the
/// part to be lent.
pub fn lend(buf: BytesMut) -> (parts: (BytesMut, BytesMut))
    ensures
        exists|arg: &mut BytesMut|
            {
                &&& *arg == buf
                &&& *final(arg) == parts.0
                &&& #[trigger] call_ensures(BytesMut::split_off, (arg, 0usize), parts.1)
            },
        crate::byte_buf::written(parts.0) == Seq::<u8>::empty(),
        crate::byte_buf::written(parts.1) == crate::byte_buf::written(buf),
        forall|capacity: usize| #[trigger]
            crate::byte_buf::has_capacity(parts.1, capacity) ==> crate::byte_buf::has_capacity(
                buf,
                capacity,
            ),
{
    let mut kept = buf;
    let lent = kept.split_off(0);
    assert(exists|arg: &mut BytesMut|
        {
            &&& *arg == buf
            &&& *final(arg) == kept
            &&& #[trigger] call_ensures(BytesMut::split_off, (arg, 0usize), lent)
        });
    proof {
        let bytes = crate::byte_buf::written(buf);
        assert(bytes.skip(0) =~= bytes);
        assert(bytes.take(0) =~= Seq::<u8>::empty());
    }
    let parts = (kept, lent);
    assert(parts.0 == kept && parts.1 == lent);
    parts
}

/// Attempts to reclaim a buffer that was lent out, with room for `size` bytes, by the
/// handle that was kept.  Returns the handle, and whether there is such room.
pub fn reclaim(kept: BytesMut, size: usize) -> (outcome: (BytesMut, bool))
    ensures
        exists|arg: &mut BytesMut|
            {
                &&& *arg == kept
                &&& *final(arg) == outcome.0
                &&& #[trigger] call_ensures(BytesMut::try_reclaim, (arg, size), outcome.1)
            },
        crate::byte_buf::written(outcome.0) == crate::byte_buf::written(kept),
        outcome.1 ==> forall|capacity: usize| #[trigger]
            crate::byte_buf::has_capacity(outcome.0, capacity) ==> capacity
                >= crate::byte_buf::written(kept).len() + size,
{
    let mut handle = kept;
    let room: bool = handle.try_reclaim(size);
    assert(exists|arg: &mut BytesMut|
        {
            &&& *arg == kept
            &&& *final(arg) == handle
            &&& #[trigger] call_ensures(BytesMut::try_reclaim, (arg, size), room)
        });
    let outcome = (handle, room);
    assert(outcome.0 == handle && outcome.1 == room);
    outcome
}

/// What there is to know about a cyclic provider.
#[verifier::ext_equal]
pub struct CycleModel {
    /// What the provider has kept of each buffer of the pool, to reclaim it by.
    pub bufs: Seq<BytesMut>,
    /// For each buffer of the pool how much room it had when it was allocated, or
    /// 0 if it never was.
    pub sizes: Seq<usize>,
    /// The buffer that is handed out next.
    pub next: int,
}

impl CycleModel {
    /// The buffer that is handed out after `n` others.
    pub open spec fn upcoming(self, n: nat) -> int {
        (self.next + n) % (self.sizes.len() as int)
    }

    /// What the provider has kept of the buffer that is handed out next.
    pub open spec fn next_buf(self) -> BytesMut {
        self.bufs[self.next]
    }

    /// How much room the buffer that is handed out next had when it was allocated.
    pub open spec fn next_size(self) -> usize {
        self.sizes[self.next]
    }

    /// An attempt to reclaim the buffer that is next, at the size at which it was
    /// allocated, may succeed or not, as `room` says.  A buffer that was never
    /// allocated cannot be reclaimed.
    pub open spec fn reclaims(self, room: bool) -> bool {
        if self.next_size() < 1 {
            !room
        } else {
            exists|arg: &mut BytesMut|
                *arg == self.next_buf() && #[trigger] call_ensures(
                    BytesMut::try_reclaim,
                    (arg, self.next_size()),
                    room,
                )
        }
    }

    /// A request hands out `buf`, which is the buffer that is next, reclaimed at the
    /// size at which it was allocated, and leaves the provider as `after`.
    pub open spec fn recycles(self, after: CycleModel, buf: BytesMut) -> bool {
        &&& self.reclaims(true)
        &&& exists|handle: BytesMut, kept: BytesMut|
            {
                &&& #[trigger] call_ensures(
                    reclaim,
                    (self.next_buf(), self.next_size()),
                    (handle, true),
                )
                &&& #[trigger] call_ensures(lend, (handle,), (kept, buf))
                &&& after == self.recycled(kept)
            }
        &&& crate::byte_buf::written(buf) == Seq::<u8>::empty()
        &&& forall|capacity: usize| #[trigger]
            crate::byte_buf::has_capacity(buf, capacity) ==> capacity >= self.next_size()
    }

    /// A request hands out `buf`, which is a new buffer of `allocator`, where the one
    /// that is next cannot be reclaimed, and leaves the provider as `after`.
    pub open spec fn allocates<FALLOC: Fn() -> BytesMut>(
        self,
        allocator: FALLOC,
        after: CycleModel,
        buf: BytesMut,
    ) -> bool {
        &&& self.reclaims(false)
        &&& exists|fresh: BytesMut, kept: BytesMut, size: usize|
            {
                &&& call_ensures(allocator, (), fresh)
                &&& crate::byte_buf::has_capacity(fresh, size)
                &&& #[trigger] call_ensures(lend, (fresh,), (kept, buf))
                &&& after == #[trigger] self.replaced(kept, size)
                &&& crate::byte_buf::written(buf) == crate::byte_buf::written(fresh)
                &&& forall|capacity: usize| #[trigger]
                    crate::byte_buf::has_capacity(
                        buf,
                        capacity,
                    ) ==> crate::byte_buf::has_capacity(fresh, capacity)
            }
    }

    /// The provider once the buffer that is next has been handed out again, of
    /// which `kept` is kept.
    pub open spec fn recycled(self, kept: BytesMut) -> CycleModel {
        self.replaced(kept, self.next_size())
    }

    /// The provider once a buffer with room for `size` bytes has been handed out in
    /// place of the one that is next, of which `kept` is kept.
    pub open spec fn replaced(self, kept: BytesMut, size: usize) -> CycleModel {
        CycleModel {
            bufs: self.bufs.update(self.next, kept),
            sizes: self.sizes.update(self.next, size),
            next: (self.next + 1) % (self.sizes.len() as int),
        }
    }
}

/// A simple `AsyncBufProvider` that cycles through a fixed pool of buffers.  Whenever a
/// new buffer is required, it attempts to recycle the least-recently returned buffer that
/// it has.  If its reference to that buffer is not unique, then it will drop it and
/// allocate a new one.
#[derive(Debug)]
pub struct CyclicBufProvider<const COUNT: usize, FALLOC> {
    bufs: Vec<BytesMut>,
    sizes: Vec<usize>,
    next_idx: usize,
    f_alloc: FALLOC,
}

impl<const COUNT: usize, FALLOC> View for CyclicBufProvider<COUNT, FALLOC> {
    type V = CycleModel;

    closed spec fn view(&self) -> CycleModel {
        CycleModel { bufs: self.bufs@, sizes: self.sizes@, next: self.next_idx as int }
    }
}

impl<const COUNT: usize, FALLOC> CyclicBufProvider<COUNT, FALLOC> where
    FALLOC: Fn() -> BytesMut,
 {
    /// The function that allocates buffers.
    pub closed spec fn allocator(&self) -> FALLOC {
        self.f_alloc
    }

    /// The pool has `COUNT` buffers, and nothing has been written to the part of
    /// them that the provider has kept.
    pub closed spec fn wf(&self) -> bool {
        &&& self.bufs@.len() == COUNT
        &&& self.sizes@.len() == COUNT
        &&& self.next_idx < COUNT
        &&& forall|i: int|
            0 <= i < COUNT ==> crate::byte_buf::written(#[trigger] self.bufs@[i]) == Seq::<
                u8,
            >::empty()
        &&& call_requires(self.f_alloc, ())
    }

    /// The size of the pool, and where the provider is in it.
    pub proof fn wf_pool(&self)
        requires
            self.wf(),
        ensures
            self@.bufs.len() == COUNT,
            self@.sizes.len() == COUNT,
            0 <= self@.next < COUNT,
    {
    }

    /// Creates a new provider that allocates buffers with `f_alloc` and
    /// recycles up to `COUNT` of them.
    pub fn new(f_alloc: FALLOC) -> (provider: CyclicBufProvider<COUNT, FALLOC>)
        requires
            COUNT >= 1,
            call_requires(f_alloc, ()),
        ensures
            provider.wf(),
            provider.provider_wf(),
            provider.allocator() == f_alloc,
            provider@.bufs.len() == COUNT,
            provider@.sizes == Seq::new(COUNT as nat, |i: int| 0usize),
            provider@.next == 0,
    {
        let mut bufs: Vec<BytesMut> = Vec::new();
        let mut sizes: Vec<usize> = Vec::new();
        let mut i: usize = 0;
        while i < COUNT
            invariant
                i <= COUNT,
                bufs@.len() == i,
                sizes@ =~= Seq::new(i as nat, |j: int| 0usize),
                forall|j: int|
                    0 <= j < i ==> crate::byte_buf::written(#[trigger] bufs@[j]) == Seq::<
                        u8,
                    >::empty(),
            decreases COUNT - i,
        {
            bufs.push(BytesMut::new());
            sizes.push(0);
            i = i + 1;
        }
        CyclicBufProvider { bufs, sizes, next_idx: 0, f_alloc }
    }

    /// Hands out the next buffer of the pool, which has been reclaimed or not.
    ///
    /// A buffer that could not be reclaimed is replaced by a new one.  Either way all
    /// of its room is handed out, and an empty handle on it is kept.
    pub fn hand_out(&mut self, reclaimed: bool) -> (buf: BytesMut)
        requires
            old(self).wf(),
        ensures
            final(self).wf(),
            final(self).allocator() == old(self).allocator(),
            exists|given: BytesMut, kept: BytesMut, size: usize|
                {
                    &&& #[trigger] call_ensures(lend, (given,), (kept, buf))
                    &&& final(self)@ == #[trigger] old(self)@.replaced(kept, size)
                    &&& if reclaimed {
                        given == old(self)@.next_buf() && size == old(self)@.next_size()
                    } else {
                        &&& call_ensures(old(self).allocator(), (), given)
                        &&& crate::byte_buf::has_capacity(given, size)
                    }
                },
            reclaimed ==> crate::byte_buf::written(buf) == Seq::<u8>::empty(),
    {
        let idx: usize = self.next_idx;
        assert(crate::byte_buf::written(self.bufs@[idx as int]) == Seq::<u8>::empty());
        self.next_idx = (idx + 1) % COUNT;
        let mut given = BytesMut::new();
        if reclaimed {
            core::mem::swap(&mut given, &mut self.bufs[idx]);
        } else {
            given = (self.f_alloc)();
            self.sizes.set(idx, given.capacity());
        }
        let ghost size = self.sizes@[idx as int];
        let (kept, buf) = lend(given);
        self.bufs.set(idx, kept);
        proof {
            assert(call_ensures(lend, (given,), (kept, buf)));
            assert(self@.sizes =~= old(self)@.sizes.update(idx as int, size));
            assert(self@.bufs =~= old(self)@.bufs.update(idx as int, kept));
            assert(self@ == old(self)@.replaced(kept, size));
        }
        buf
    }
}

impl<const COUNT: usize, FALLOC> AsyncBufProvider for CyclicBufProvider<COUNT, FALLOC> where
    FALLOC: Fn() -> BytesMut,
 {
    open spec fn provider_wf(&self) -> bool {
        self.wf()
    }

    /// A buffer comes back at once.  It is the next one of the pool, empty and with
    /// all of its room, if that can be reclaimed; otherwise it is a new one, as the
    /// allocator returned it.
    open spec fn provides(&self, after: Self, buf: Poll<BytesMut>) -> bool {
        &&& after.allocator() == self.allocator()
        &&& buf matches Poll::Ready(ready) && {
            ||| self@.recycles(after@, ready)
            ||| self@.allocates(self.allocator(), after@, ready)
        }
    }

    fn poll_get_buf(&mut self) -> (buf: Poll<BytesMut>) {
        let idx: usize = self.next_idx;
        let size: usize = self.sizes[idx];
        let ghost before = self@;
        assert(crate::byte_buf::written(self.bufs@[idx as int]) == Seq::<u8>::empty());
        let mut reclaimed: bool = false;
        if size >= 1 {
            let mut kept = BytesMut::new();
            core::mem::swap(&mut kept, &mut self.bufs[idx]);
            let (handle, room) = reclaim(kept, size);
            self.bufs.set(idx, handle);
            reclaimed = room;
        }
        let ghost between = self@;
        let buf = self.hand_out(reclaimed);
        proof {
            let kept = self@.bufs[before.next];
            let room = self@.sizes[before.next];
            assert(between.replaced(kept, room).bufs =~= before.replaced(kept, room).bufs);
            assert(self@ == before.replaced(kept, room));
            if reclaimed {
                assert(self@ == before.recycled(kept));
            }
        }
        Poll::Ready(buf)
    }
}

/// The provider goes through its whole pool before it comes back to a buffer: of
/// as many requests in a row as there are buffers no two are for the same buffer, and
/// the next one is for the first buffer again, whether buffers are recycled or
/// replaced on the way.
pub proof fn law_pool_is_cycled(
    cycle: CycleModel,
    kept: BytesMut,
    size: usize,
    first: nat,
    second: nat,
)
    requires
        0 <= cycle.next < cycle.sizes.len(),
        first < second <= cycle.sizes.len(),
    ensures
        cycle.upcoming(0) == cycle.next,
        cycle.recycled(kept).upcoming(first) == cycle.upcoming(first + 1),
        cycle.replaced(kept, size).upcoming(first) == cycle.upcoming(first + 1),
        (cycle.upcoming(first) == cycle.upcoming(second)) == (first == 0 && second
            == cycle.sizes.len()),
{
    let count = cycle.sizes.len() as int;
    lemma_wrap(count, cycle.next);
    lemma_wrap(count, cycle.next + first);
    lemma_wrap(count, cycle.next + second);
    vstd::arithmetic::div_mod::lemma_add_mod_noop_right(first as int, cycle.next + 1, count);
}

/// A buffer is allocated only where none can be recycled: a request for a buffer that
/// is sure to be reclaimed hands out that buffer, empty and with all of its room, and a
/// request for one that is sure not to be, such as one that was never allocated, hands
/// out a new one.
pub proof fn law_reclaimable_buffer_is_recycled<const COUNT: usize, FALLOC>(
    provider: CyclicBufProvider<COUNT, FALLOC>,
    after: CyclicBufProvider<COUNT, FALLOC>,
    buf: BytesMut,
    capacity: usize,
) where FALLOC: Fn() -> BytesMut
    requires
        provider.provides(after, Poll::Ready(buf)),
        crate::byte_buf::has_capacity(buf, capacity),
    ensures
        !provider@.reclaims(false) ==> {
            &&& exists|kept: BytesMut| after@ == #[trigger] provider@.recycled(kept)
            &&& crate::byte_buf::written(buf) == Seq::<u8>::empty()
            &&& capacity >= provider@.next_size()
        },
        !provider@.reclaims(true) ==> exists|fresh: BytesMut|
            {
                &&& #[trigger] call_ensures(provider.allocator(), (), fresh)
                &&& crate::byte_buf::written(buf) == crate::byte_buf::written(fresh)
                &&& crate::byte_buf::has_capacity(fresh, capacity)
            },
        provider@.next_size() < 1 ==> !provider@.reclaims(true),
{
}

/// A new provider was asked for the buffers `bufs`, one after the other; `states` are
/// the provider before the first request and after each of them.
pub open spec fn is_history<const COUNT: usize, FALLOC>(
    states: Seq<CyclicBufProvider<COUNT, FALLOC>>,
    bufs: Seq<BytesMut>,
) -> bool where FALLOC: Fn() -> BytesMut {
    &&& COUNT >= 1
    &&& states.len() == bufs.len() + 1
    &&& states[0]@.bufs.len() == COUNT
    &&& states[0]@.sizes == Seq::new(COUNT as nat, |i: int| 0usize)
    &&& states[0]@.next == 0
    &&& forall|i: int|
        0 <= i < bufs.len() ==> states[i].provides(
            states[i + 1],
            Poll::Ready(#[trigger] bufs[i]),
        )
}

/// Each of the first requests of a new provider, as many as its pool has buffers,
/// allocates.  Every later one is for the buffer that was lent out as many requests
/// before as the pool has buffers: it goes by the handle that was kept then, and
/// recycles that buffer at its full size if it can be reclaimed; only otherwise it
/// allocates.
pub proof fn law_requests_cycle_through_the_pool<const COUNT: usize, FALLOC>(
    states: Seq<CyclicBufProvider<COUNT, FALLOC>>,
    bufs: Seq<BytesMut>,
    k: int,
) where FALLOC: Fn() -> BytesMut
    requires
        is_history(states, bufs),
        0 <= k < bufs.len(),
    ensures
        ({
            let allocator = states[0].allocator();
            let before = states[k]@;
            let after = states[k + 1]@;
            &&& before.next == k % (COUNT as int)
            &&& k < COUNT ==> {
                &&& before.next_size() == 0
                &&& before.allocates(allocator, after, bufs[k])
            }
            &&& k >= COUNT ==> {
                &&& exists|given: BytesMut| #[trigger]
                    call_ensures(lend, (given,), (before.next_buf(), bufs[k - COUNT]))
                &&& before.next_size() == states[k - COUNT + 1]@.sizes[before.next]
                &&& before.recycles(after, bufs[k]) || before.allocates(allocator, after, bufs[k])
                &&& !before.reclaims(false) ==> before.recycles(after, bufs[k])
                &&& !before.reclaims(true) ==> before.allocates(allocator, after, bufs[k])
            }
        }),
{
    lemma_history(states, bufs, k);
    assert(states[k].provides(states[k + 1], Poll::Ready(bufs[k])));
    if k < COUNT {
        vstd::arithmetic::div_mod::lemma_small_mod(k as nat, COUNT as nat);
    } else {
        let past = k - COUNT;
        lemma_history(states, bufs, past);
        vstd::arithmetic::div_mod::lemma_mod_sub_multiples_vanish(k, COUNT as int);
        assert(states[past].provides(states[past + 1], Poll::Ready(bufs[past])));
        lemma_untouched(states, bufs, past, k);
    }
}

/// Where the allocator returns empty buffers that have room, so does the provider, and
/// from the second round on it tries to reclaim before it allocates.
pub proof fn law_provider_hands_out_room<const COUNT: usize, FALLOC>(
    states: Seq<CyclicBufProvider<COUNT, FALLOC>>,
    bufs: Seq<BytesMut>,
    k: int,
    capacity: usize,
) where FALLOC: Fn() -> BytesMut
    requires
        is_history(states, bufs),
        0 <= k < bufs.len(),
        forall|fresh: BytesMut, size: usize|
            call_ensures(states[0].allocator(), (), fresh)
                && #[trigger] crate::byte_buf::has_capacity(fresh, size) ==> size > 0
                && crate::byte_buf::written(fresh) == Seq::<u8>::empty(),
        crate::byte_buf::has_capacity(bufs[k], capacity),
    ensures
        crate::byte_buf::written(bufs[k]) == Seq::<u8>::empty(),
        capacity > 0,
        k >= COUNT ==> states[k]@.next_size() > 0,
        states[k + 1]@.sizes[states[k]@.next] > 0,
{
    law_requests_cycle_through_the_pool(states, bufs, k);
    lemma_history(states, bufs, k);
    if k >= COUNT {
        let past = k - COUNT;
        lemma_history(states, bufs, past);
        law_requests_cycle_through_the_pool(states, bufs, past);
        vstd::arithmetic::div_mod::lemma_mod_sub_multiples_vanish(k, COUNT as int);
    }
}

/// Where a provider is in its pool after `k` requests, and which buffers it has not
/// come to yet.
proof fn lemma_history<const COUNT: usize, FALLOC>(
    states: Seq<CyclicBufProvider<COUNT, FALLOC>>,
    bufs: Seq<BytesMut>,
    k: int,
) where FALLOC: Fn() -> BytesMut
    requires
        is_history(states, bufs),
        0 <= k <= bufs.len(),
    ensures
        states[k].allocator() == states[0].allocator(),
        states[k]@.bufs.len() == COUNT,
        states[k]@.sizes.len() == COUNT,
        states[k]@.next == k % (COUNT as int),
        0 <= states[k]@.next < COUNT,
        forall|j: int| k <= j < COUNT ==> states[k]@.sizes[j] == 0,
    decreases k,
{
    let count = COUNT as int;
    if k > 0 {
        lemma_history(states, bufs, k - 1);
        assert(states[k - 1].provides(states[k], Poll::Ready(bufs[k - 1])));
        vstd::arithmetic::div_mod::lemma_add_mod_noop_right(1, k - 1, count);
        if k <= COUNT {
            vstd::arithmetic::div_mod::lemma_small_mod((k - 1) as nat, COUNT as nat);
        }
    } else {
        vstd::arithmetic::div_mod::lemma_small_mod(0, COUNT as nat);
    }
    vstd::arithmetic::div_mod::lemma_mod_bound(k, count);
}

/// What was kept of a buffer stays as it is for a whole round.
proof fn lemma_untouched<const COUNT: usize, FALLOC>(
    states: Seq<CyclicBufProvider<COUNT, FALLOC>>,
    bufs: Seq<BytesMut>,
    past: int,
    k: int,
) where FALLOC: Fn() -> BytesMut
    requires
        is_history(states, bufs),
        0 <= past < k <= past + COUNT,
        k <= bufs.len(),
    ensures
        states[k]@.bufs[past % (COUNT as int)] == states[past + 1]@.bufs[past % (COUNT as int)],
        states[k]@.sizes[past % (COUNT as int)] == states[past + 1]@.sizes[past % (COUNT as int)],
    decreases k - past,
{
    if k > past + 1 {
        let count = COUNT as int;
        lemma_untouched(states, bufs, past, k - 1);
        lemma_history(states, bufs, k - 1);
        lemma_history(states, bufs, past);
        assert(states[k - 1].provides(states[k], Poll::Ready(bufs[k - 1])));
        vstd::arithmetic::div_mod::lemma_mod_equivalence(k - 1, past, count);
        vstd::arithmetic::div_mod::lemma_small_mod((k - 1 - past) as nat, COUNT as nat);
    }
}

proof fn lemma_wrap(count: int, n: int)
    requires
        0 < count,
        0 <= n < 2 * count,
    ensures
        n % count == if n < count {
            n
        } else {
            n - count
        },
{
    if n < count {
        vstd::arithmetic::div_mod::lemma_small_mod(n as nat, count as nat);
    } else {
        vstd::arithmetic::div_mod::lemma_small_mod((n - count) as nat, count as nat);
        vstd::arithmetic::div_mod::lemma_mod_add_multiples_vanish(n - count, count);
    }
}

/// A request is answered at once, for the buffer whose turn it is, and leaves what is kept
/// of all other buffers alone; the turn then goes to the next buffer, and from the last one
/// to the first.
pub proof fn law_request_uses_one_buffer<const COUNT: usize, FALLOC>(
    provider: &mut CyclicBufProvider<COUNT, FALLOC>,
    buf: Poll<BytesMut>,
    other: int,
) where FALLOC: Fn() -> BytesMut
    requires
        old(provider).wf(),
        call_ensures(
            <CyclicBufProvider<COUNT, FALLOC> as AsyncBufProvider>::poll_get_buf,
            (provider,),
            buf,
        ),
        other != old(provider)@.next,
        0 <= other < COUNT,
    ensures
        buf is Ready,
        final(provider)@.bufs.len() == COUNT,
        final(provider)@.sizes.len() == COUNT,
        final(provider)@.bufs[other] == old(provider)@.bufs[other],
        final(provider)@.sizes[other] == old(provider)@.sizes[other],
        final(provider)@.next == if old(provider)@.next + 1 < COUNT {
            old(provider)@.next + 1
        } else {
            0
        },
        final(provider).allocator() == old(provider).allocator(),
{
    old(provider).wf_pool();
    lemma_wrap(COUNT as int, old(provider)@.next + 1);
}

/// A buffer that was allocated before, however small, is allocated anew only if an attempt
/// to reclaim it at the size that it had says that there is no room; what is handed out
/// is then empty and has at least that room if it was reclaimed, and is what the
/// allocator returned otherwise, whose room is the size to be reclaimed next time.
pub proof fn law_request_reclaims_or_allocates<const COUNT: usize, FALLOC>(
    provider: &mut CyclicBufProvider<COUNT, FALLOC>,
    buf: BytesMut,
) where FALLOC: Fn() -> BytesMut
    requires
        old(provider).wf(),
        call_ensures(
            <CyclicBufProvider<COUNT, FALLOC> as AsyncBufProvider>::poll_get_buf,
            (provider,),
            Poll::Ready(buf),
        ),
    ensures
        ({
            let k = old(provider)@.next;
            let size = old(provider)@.sizes[k];
            let reclaimed = {
                &&& size > 0
                &&& exists|arg: &mut BytesMut|
                    *arg == old(provider)@.bufs[k] && #[trigger] call_ensures(
                        BytesMut::try_reclaim,
                        (arg, size),
                        true,
                    )
                &&& final(provider)@.sizes[k] == size
                &&& crate::byte_buf::written(buf) == Seq::<u8>::empty()
                &&& forall|capacity: usize| #[trigger]
                    crate::byte_buf::has_capacity(buf, capacity) ==> capacity >= size
            };
            let allocated = {
                &&& size > 0 ==> exists|arg: &mut BytesMut|
                    *arg == old(provider)@.bufs[k] && #[trigger] call_ensures(
                        BytesMut::try_reclaim,
                        (arg, size),
                        false,
                    )
                &&& exists|fresh: BytesMut|
                    {
                        &&& #[trigger] call_ensures(old(provider).allocator(), (), fresh)
                        &&& crate::byte_buf::has_capacity(fresh, final(provider)@.sizes[k])
                        &&& crate::byte_buf::written(buf) == crate::byte_buf::written(fresh)
                        &&& forall|capacity: usize| #[trigger]
                            crate::byte_buf::has_capacity(
                                buf,
                                capacity,
                            ) ==> crate::byte_buf::has_capacity(fresh, capacity)
                    }
            };
            reclaimed || allocated
        }),
{
    old(provider).wf_pool();
}

/// A new provider has as many buffers as it was asked to have, none of which was allocated
/// yet, and begins with the first.
pub proof fn law_new_provider_has_allocated_nothing<const COUNT: usize, FALLOC>(
    f_alloc: FALLOC,
    provider: CyclicBufProvider<COUNT, FALLOC>,
    k: int,
) where FALLOC: Fn() -> BytesMut
    requires
        call_ensures(CyclicBufProvider::<COUNT, FALLOC>::new, (f_alloc,), provider),
        0 <= k < COUNT,
    ensures
        provider@.bufs.len() == COUNT,
        provider@.sizes.len() == COUNT,
        provider@.sizes[k] == 0,
        provider@.next == 0,
        provider.allocator() == f_alloc,
{
}

/// What is handed out for a buffer that was reclaimed is empty, and its size stays; what is
/// handed out in place of one that was not is what the allocator returned.  Either way the
/// other buffers are left alone, and the turn goes on.
pub proof fn law_hand_out_goes_by_what_was_reclaimed<const COUNT: usize, FALLOC>(
    provider: &mut CyclicBufProvider<COUNT, FALLOC>,
    reclaimed: bool,
    buf: BytesMut,
    other: int,
) where FALLOC: Fn() -> BytesMut
    requires
        old(provider).wf(),
        call_ensures(CyclicBufProvider::<COUNT, FALLOC>::hand_out, (provider, reclaimed), buf),
        other != old(provider)@.next,
        0 <= other < COUNT,
    ensures
        reclaimed ==> {
            &&& crate::byte_buf::written(buf) == Seq::<u8>::empty()
            &&& final(provider)@.sizes[old(provider)@.next] == old(provider)@.sizes[old(provider)@.next]
        },
        !reclaimed ==> exists|fresh: BytesMut|
            {
                &&& #[trigger] call_ensures(old(provider).allocator(), (), fresh)
                &&& crate::byte_buf::written(buf) == crate::byte_buf::written(fresh)
                &&& crate::byte_buf::has_capacity(
                    fresh,
                    final(provider)@.sizes[old(provider)@.next],
                )
            },
        final(provider)@.bufs[other] == old(provider)@.bufs[other],
        final(provider)@.sizes[other] == old(provider)@.sizes[other],
        final(provider)@.next == if old(provider)@.next + 1 < COUNT {
            old(provider)@.next + 1
        } else {
            0
        },
{
    old(provider).wf_pool();
    lemma_wrap(COUNT as int, old(provider)@.next + 1);
}

} // verus!
