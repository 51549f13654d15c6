//! The geometry of the processor's caches, and the capacity that the choice
//! between the two searches goes by.

use raw_cpuid::{CacheType, CpuId};
use vstd::prelude::*;

verus! {

/// What a cache holds.
#[derive(Clone, Copy, Debug, PartialEq, Eq, Structural)]
pub enum CacheKind {
    /// No cache.
    Null,
    /// Data only.
    Data,
    /// Instructions only.
    Instruction,
    /// Data and instructions.
    Unified,
    /// A kind that the processor's manual reserves.
    Reserved,
}

/// One cache of the processor, by the numbers that its capacity follows from.
#[derive(Clone, Copy, Debug, PartialEq, Eq, Structural)]
pub struct CacheGeometry {
    /// The level in the hierarchy, 1 being nearest to the core.
    pub level: u8,
    /// What the cache holds.
    pub kind: CacheKind,
    /// The number of sets.
    pub sets: u32,
    /// The number of ways of each set.
    pub associativity: u16,
    /// The size of a line.
    pub line_size: u16,
}

impl CacheGeometry {
    /// The capacity: sets times ways times line size.
    pub open spec fn capacity_spec(self) -> nat {
        self.sets as nat * self.associativity as nat * self.line_size as nat
    }

    /// The cache is of level `level` and holds `kind`.
    pub open spec fn serves(self, level: u8, kind: CacheKind) -> bool {
        self.level == level && self.kind == kind
    }

    /// The capacity: sets times ways times line size.
    pub fn capacity(&self) -> (total: u64)
        ensures
            total == self.capacity_spec(),
    {
        let sets: u64 = self.sets as u64;
        let ways: u64 = self.associativity as u64;
        let line: u64 = self.line_size as u64;
        assert(sets * ways <= 0xffff_ffff * 0xffff) by (nonlinear_arith)
            requires
                sets <= 0xffff_ffff,
                ways <= 0xffff,
        ;
        assert(sets * ways * line <= 0xffff_ffff * 0xffff * 0xffff) by (nonlinear_arith)
            requires
                sets * ways <= 0xffff_ffff * 0xffff,
                line <= 0xffff,
        ;
        sets * ways * line
    }
}

/// `total` is the least capacity among the caches of level `level` that hold
/// `kind`.
pub open spec fn is_smallest_capacity(
    caches: Seq<CacheGeometry>,
    level: u8,
    kind: CacheKind,
    total: nat,
) -> bool {
    &&& exists|i: int|
        0 <= i < caches.len() && (#[trigger] caches[i]).serves(level, kind)
            && caches[i].capacity_spec() == total
    &&& forall|i: int|
        0 <= i < caches.len() && (#[trigger] caches[i]).serves(level, kind) ==> total
            <= caches[i].capacity_spec()
}

/// None of the caches is of level `level` and holds `kind`.
pub open spec fn none_serves(caches: Seq<CacheGeometry>, level: u8, kind: CacheKind) -> bool {
    forall|i: int| 0 <= i < caches.len() ==> !(#[trigger] caches[i]).serves(level, kind)
}

/// The least capacity among the caches of level `level` that hold `kind`, or
/// nothing where there is no such cache.
pub fn smallest_capacity(caches: &Vec<CacheGeometry>, level: u8, kind: CacheKind) -> (least:
    Option<u64>)
    ensures
        match least {
            Some(total) => is_smallest_capacity(caches@, level, kind, total as nat),
            None => none_serves(caches@, level, kind),
        },
{
    let mut least: Option<u64> = None;
    let mut i: usize = 0;
    while i < caches.len()
        invariant
            i <= caches@.len(),
            match least {
                Some(total) => is_smallest_capacity(
                    caches@.take(i as int),
                    level,
                    kind,
                    total as nat,
                ),
                None => none_serves(caches@.take(i as int), level, kind),
            },
        decreases caches@.len() - i,
    {
        let cache = caches[i];
        proof {
            let seen = caches@.take(i as int);
            let next = caches@.take(i + 1);
            assert(next[i as int] == cache);
            assert(forall|j: int| 0 <= j < i ==> #[trigger] seen[j] == next[j]);
        }
        if cache.level == level && cache.kind == kind {
            let total = cache.capacity();
            least = match least {
                Some(so_far) if so_far <= total => least,
                _ => Some(total),
            };
        }
        i += 1;
    }
    assert(caches@.take(i as int) == caches@);
    least
}

/// Asks the processor for its caches: `CpuId::new` and
/// `CpuId::get_cache_parameters` of `raw_cpuid`, then, of each
/// `CacheParameter` that the iterator yields, `cache_type`, `level`, `sets`,
/// `associativity` and `coherency_line_size`. Nothing is claimed of the
/// answer, which is the machine's; it is absent where the processor does not
/// report its caches. The numbers are taken over as they are: `raw_cpuid`
/// computes the sets in 32 bits, the ways from a field of 10 bits and the
/// line size from one of 12 bits, each plus one, so the narrower integers
/// here hold them unchanged.
#[verifier::external_body]
pub(crate) fn read_cache_geometry() -> (caches: Option<Vec<CacheGeometry>>) {
    let mut caches = Vec::new();
    for cache in CpuId::new().get_cache_parameters()? {
        let kind = match cache.cache_type() {
            CacheType::Null => CacheKind::Null,
            CacheType::Data => CacheKind::Data,
            CacheType::Instruction => CacheKind::Instruction,
            CacheType::Unified => CacheKind::Unified,
            CacheType::Reserved => CacheKind::Reserved,
        };
        let (level, sets) = (cache.level(), cache.sets() as u32);
        let associativity = cache.associativity() as u16;
        let line_size = cache.coherency_line_size() as u16;
        caches.push(CacheGeometry { level, kind, sets, associativity, line_size });
    }
    Some(caches)
}

} // verus!
