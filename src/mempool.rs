//! Fixed-capacity pools of equally sized elements, the source of owned
//! packet buffers.
use vstd::prelude::*;
use vstd::string::*;
use crate::cstring::{contains_nul, has_nul};
use crate::error::Error;

verus! {

/// Largest per-core cache a pool can be created with.
pub const MEMPOOL_CACHE_MAX_SIZE: u32 = 512;

/// Largest element size: a packet buffer addresses its room with 16 bits.
pub const MEMPOOL_ELT_SIZE_MAX: u32 = 65535;

/// The abstract state of a pool.
pub struct PoolView {
    pub name: Seq<char>,
    pub capacity: nat,
    pub avail: nat,
    pub elt_size: nat,
    pub cache_size: nat,
    pub socket_id: int,
}

/// Number of elements of the pool that are handed out.
pub open spec fn in_use(v: PoolView) -> int {
    v.capacity - v.avail
}

/// The parameters that a pool can be created with: the cache may hold at
/// most `MEMPOOL_CACHE_MAX_SIZE` elements and its flush threshold (one and a
/// half times its size) may not exceed the pool's capacity.
pub open spec fn create_params_ok(n: u32, elt_size: u32, cache_size: u32) -> bool {
    &&& cache_size <= MEMPOOL_CACHE_MAX_SIZE
    &&& cache_size as int * 3 / 2 <= n as int
    &&& elt_size <= MEMPOOL_ELT_SIZE_MAX
}

/// The pool after one element was handed out.
pub open spec fn after_alloc(v: PoolView) -> PoolView {
    PoolView { avail: (v.avail - 1) as nat, ..v }
}

/// The pool after one element came back.
pub open spec fn after_release(v: PoolView) -> PoolView {
    PoolView { avail: v.avail + 1, ..v }
}

/// The pool after `k` elements were handed out one by one.
pub open spec fn after_allocs(v: PoolView, k: nat) -> PoolView
    decreases k,
{
    if k == 0 {
        v
    } else {
        after_alloc(after_allocs(v, (k - 1) as nat))
    }
}

/// The pool after `k` elements came back one by one.
pub open spec fn after_releases(v: PoolView, k: nat) -> PoolView
    decreases k,
{
    if k == 0 {
        v
    } else {
        after_release(after_releases(v, (k - 1) as nat))
    }
}

/// The pool structure itself, as the runtime keeps it.
#[derive(Debug)]
pub struct RawMempool {
    name: String,
    n: u32,
    elt_size: u32,
    cache_size: u32,
    socket_id: i32,
    avail: u32,
}

impl View for RawMempool {
    type V = PoolView;

    closed spec fn view(&self) -> PoolView {
        PoolView {
            name: self.name@,
            capacity: self.n as nat,
            avail: self.avail as nat,
            elt_size: self.elt_size as nat,
            cache_size: self.cache_size as nat,
            socket_id: self.socket_id as int,
        }
    }
}

/// Handing out `k` elements one by one from a fresh pool of capacity at
/// least `k` succeeds at every step; afterwards `k` elements are in use, and
/// the available and in-use counts add up to the capacity.
pub proof fn lemma_allocs_counted(v: PoolView, k: nat)
    requires
        v.avail == v.capacity,
        k <= v.capacity,
    ensures
        forall|j: nat| j < k ==> #[trigger] after_allocs(v, j).avail > 0,
        in_use(after_allocs(v, k)) == k,
        after_allocs(v, k).avail + in_use(after_allocs(v, k)) == v.capacity,
{
    lemma_allocs_shape(v, k);
    assert forall|j: nat| j < k implies #[trigger] after_allocs(v, j).avail > 0 by {
        lemma_allocs_shape(v, j);
    }
}

/// Handing out `k <= v.avail` elements one by one leaves everything but the
/// available count as it was and lowers that count by `k`.
pub proof fn lemma_allocs_shape(v: PoolView, k: nat)
    requires
        k <= v.avail,
    ensures
        after_allocs(v, k) == (PoolView { avail: (v.avail - k) as nat, ..v }),
    decreases k,
{
    if k > 0 {
        lemma_allocs_shape(v, (k - 1) as nat);
    }
}

/// Giving back `k` elements one by one raises the available count by `k`
/// and leaves everything else as it was.
pub proof fn lemma_releases_shape(v: PoolView, k: nat)
    ensures
        after_releases(v, k) == (PoolView { avail: v.avail + k, ..v }),
    decreases k,
{
    if k > 0 {
        lemma_releases_shape(v, (k - 1) as nat);
    }
}

/// Giving back every one of `k` elements handed out from a pool is allowed
/// at every step (the pool never holds more than its capacity) and returns
/// the pool, and so its in-use count, to where it was before they were
/// handed out.
pub proof fn lemma_release_all(v: PoolView, k: nat)
    requires
        v.avail <= v.capacity,
        k <= v.avail,
    ensures
        forall|j: nat| j < k ==> #[trigger] after_releases(after_allocs(v, k), j).avail
            < v.capacity,
        after_releases(after_allocs(v, k), k) == v,
        in_use(after_releases(after_allocs(v, k), k)) == in_use(v),
{
    lemma_allocs_shape(v, k);
    lemma_releases_shape(after_allocs(v, k), k);
    assert forall|j: nat| j < k implies #[trigger] after_releases(after_allocs(v, k), j).avail
        < v.capacity by {
        lemma_releases_shape(after_allocs(v, k), j);
    }
}

/// A named pool of `capacity` elements of `elt_size` bytes each; the
/// handle owns its pool structure.
#[derive(Debug)]
pub struct Mempool {
    raw: RawMempool,
}

impl View for Mempool {
    type V = PoolView;

    closed spec fn view(&self) -> PoolView {
        self.raw@
    }
}

impl Mempool {
    /// The pool's state is consistent: no more elements are available than
    /// it holds, and its elements fit a packet buffer.
    pub open spec fn wf(&self) -> bool {
        &&& self@.avail <= self@.capacity
        &&& self@.capacity <= u32::MAX
        &&& self@.elt_size <= MEMPOOL_ELT_SIZE_MAX
    }

    /// Create a pool named `name` of `n` elements of `elt_size` bytes, with
    /// a per-core cache of `cache_size` elements, placed on NUMA socket
    /// `socket_id` (`-1` for any). The pool starts with all elements
    /// available.
    pub fn create(name: &str, n: u32, elt_size: u32, cache_size: u32, socket_id: i32) -> (r: Result<
        Mempool,
        Error,
    >)
        ensures
            r is Err <==> has_nul(name@) || !create_params_ok(n, elt_size, cache_size),
            has_nul(name@) ==> r matches Err(Error::InvalidArgument(_)),
            !has_nul(name@) && !create_params_ok(n, elt_size, cache_size) ==> r matches Err(
                Error::Mempool(_),
            ),
            r matches Ok(p) ==> p.wf() && p@ == (PoolView {
                name: name@,
                capacity: n as nat,
                avail: n as nat,
                elt_size: elt_size as nat,
                cache_size: cache_size as nat,
                socket_id: socket_id as int,
            }),
    {
        if contains_nul(name) {
            return Err(Error::InvalidArgument(String::from_str("Name contains null byte")));
        }
        if cache_size > MEMPOOL_CACHE_MAX_SIZE || (cache_size as u64) * 3 / 2 > n as u64
            || elt_size > MEMPOOL_ELT_SIZE_MAX {
            return Err(Error::Mempool(String::from_str("Failed to create mempool")));
        }
        let raw = RawMempool {
            name: String::from_str(name),
            n,
            elt_size,
            cache_size,
            socket_id,
            avail: n,
        };
        Ok(Mempool { raw })
    }

    /// The pool structure that this handle owns.
    pub fn as_ptr(&self) -> (r: &RawMempool)
        ensures
            r@ == self@,
    {
        &self.raw
    }

    /// Number of elements that can still be handed out.
    pub fn avail_count(&self) -> (r: u32)
        ensures
            r == self@.avail,
    {
        self.raw.avail
    }

    /// Number of elements that are handed out.
    pub fn in_use_count(&self) -> (r: u32)
        requires
            self.wf(),
        ensures
            r == in_use(self@),
    {
        self.raw.n - self.raw.avail
    }

    /// The pool's name.
    pub fn name(&self) -> (r: &str)
        ensures
            r@ == self@.name,
    {
        self.raw.name.as_str()
    }

    /// Size in bytes of each element.
    pub fn elt_size(&self) -> (r: u32)
        ensures
            r == self@.elt_size,
    {
        self.raw.elt_size
    }

    /// Hand out one element, if one is available.
    pub(crate) fn take(&mut self) -> (r: bool)
        requires
            old(self).wf(),
        ensures
            r == (old(self)@.avail > 0),
            final(self)@ == if r { after_alloc(old(self)@) } else { old(self)@ },
            final(self).wf(),
    {
        if self.raw.avail > 0 {
            self.raw.avail = self.raw.avail - 1;
            true
        } else {
            false
        }
    }

    /// Take back one element that was handed out.
    pub(crate) fn give_back(&mut self)
        requires
            old(self).wf(),
            old(self)@.avail < old(self)@.capacity,
        ensures
            final(self)@ == after_release(old(self)@),
            final(self).wf(),
    {
        self.raw.avail = self.raw.avail + 1;
    }
}

} // verus!
