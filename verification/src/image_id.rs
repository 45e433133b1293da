//! Process-local identities of GPU images.
use vstd::prelude::*;

verus! {

/// Identifies an application-owned texture retained by a GPU image.
#[derive(Clone, Copy, Debug, Eq, Hash, Ord, PartialEq, PartialOrd, Structural)]
pub struct GpuImageId(u64);

impl View for GpuImageId {
    type V = u64;

    closed spec fn view(&self) -> u64 {
        self.0
    }
}

/// The number of distinct identities: a counter of `u64` wraps after this many.
pub open spec fn id_space() -> int {
    0x1_0000_0000_0000_0000
}

/// The identity issued after `value`: one more, wrapping to zero after `u64::MAX`.
pub open spec fn following_id(value: u64) -> u64 {
    ((value + 1) % id_space()) as u64
}

/// The identity issued `n` allocations after a counter stood at `start`.
pub open spec fn nth_id(start: u64, n: nat) -> u64 {
    ((start + n) % id_space()) as u64
}

/// Hands out image identities, counting up from one.
#[derive(Debug)]
pub struct GpuImageIds {
    next: u64,
}

impl View for GpuImageIds {
    type V = u64;

    /// The identity that the next allocation hands out.
    closed spec fn view(&self) -> u64 {
        self.next
    }
}

impl GpuImageIds {
    /// A counter whose first identity is one.
    pub fn new() -> (ids: Self)
        ensures
            ids@ == 1,
    {
        GpuImageIds { next: 1 }
    }

    /// Hands out the next identity and advances the counter, wrapping after `u64::MAX`.
    pub fn allocate(&mut self) -> (id: GpuImageId)
        ensures
            id@ == old(self)@,
            final(self)@ == following_id(old(self)@),
    {
        let id = GpuImageId(self.next);
        self.next = self.next.wrapping_add(1);
        id
    }
}

/// Advancing the counter once moves its `n`-th identity to its `n + 1`-th.
pub proof fn following_id_advances(start: u64, n: nat)
    ensures
        nth_id(following_id(start), n) == nth_id(start, n + 1),
        nth_id(start, 0) == start,
{
    let s = start as int;
    vstd::arithmetic::div_mod::lemma_add_mod_noop(s + 1, n as int, id_space());
    vstd::arithmetic::div_mod::lemma_add_mod_noop((s + 1) % id_space(), n as int, id_space());
    vstd::arithmetic::div_mod::lemma_mod_twice(s + 1, id_space());
    vstd::arithmetic::div_mod::lemma_small_mod(s as nat, id_space() as nat);
}

/// Fewer than 2^64 allocations from one counter never hand out the same identity twice.
pub proof fn allocated_ids_distinct(start: u64, i: nat, j: nat)
    requires
        i < j,
        j < id_space(),
    ensures
        nth_id(start, i) != nth_id(start, j),
{
    let s = start as int;
    let d = id_space();
    let a = s + i;
    let b = s + j;
    assert(0 <= a < 2 * d);
    assert(0 <= b < 2 * d);
    if a < d {
        vstd::arithmetic::div_mod::lemma_small_mod(a as nat, d as nat);
    } else {
        vstd::arithmetic::div_mod::lemma_mod_sub_multiples_vanish(a, d);
        vstd::arithmetic::div_mod::lemma_small_mod((a - d) as nat, d as nat);
    }
    if b < d {
        vstd::arithmetic::div_mod::lemma_small_mod(b as nat, d as nat);
    } else {
        vstd::arithmetic::div_mod::lemma_mod_sub_multiples_vanish(b, d);
        vstd::arithmetic::div_mod::lemma_small_mod((b - d) as nat, d as nat);
    }
}

/// Two image identities are the same exactly when their values are.
pub proof fn id_value_identifies(a: GpuImageId, b: GpuImageId)
    ensures
        a@ == b@ <==> a == b,
{
}

/// While the counter does not wrap, identities follow the order of allocation:
/// the `n`-th one after `start` is `start + n`, so later ones are larger, and a
/// counter that starts at one never hands out zero.
pub proof fn allocated_ids_increase(start: u64, i: nat, j: nat)
    requires
        i < j,
        start + j < id_space(),
    ensures
        nth_id(start, i) == start + i,
        nth_id(start, j) == start + j,
        nth_id(start, i) < nth_id(start, j),
        start >= 1 ==> nth_id(start, i) >= 1,
{
    vstd::arithmetic::div_mod::lemma_small_mod((start + i) as nat, id_space() as nat);
    vstd::arithmetic::div_mod::lemma_small_mod((start + j) as nat, id_space() as nat);
}

} // verus!
