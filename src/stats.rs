use vstd::prelude::*;
use stats_alloc::Stats;

verus! {

#[verifier::external_type_specification]
pub struct ExStats(Stats);

/// The five counters that only grow have not shrunk from `earlier` to `later`.
pub open spec fn counters_ordered(earlier: Stats, later: Stats) -> bool {
    &&& earlier.allocations <= later.allocations
    &&& earlier.deallocations <= later.deallocations
    &&& earlier.reallocations <= later.reallocations
    &&& earlier.bytes_allocated <= later.bytes_allocated
    &&& earlier.bytes_deallocated <= later.bytes_deallocated
}

/// `later` minus `earlier` is representable, counter by counter: the growing
/// counters have not shrunk and the net reallocated bytes fit an `isize`.
pub open spec fn precedes(earlier: Stats, later: Stats) -> bool {
    &&& counters_ordered(earlier, later)
    &&& isize::MIN <= later.bytes_reallocated - earlier.bytes_reallocated <= isize::MAX
}

/// `later` minus `earlier`, counter by counter.
pub open spec fn diff(later: Stats, earlier: Stats) -> Stats {
    Stats {
        allocations: (later.allocations - earlier.allocations) as usize,
        deallocations: (later.deallocations - earlier.deallocations) as usize,
        reallocations: (later.reallocations - earlier.reallocations) as usize,
        bytes_allocated: (later.bytes_allocated - earlier.bytes_allocated) as usize,
        bytes_deallocated: (later.bytes_deallocated - earlier.bytes_deallocated) as usize,
        bytes_reallocated: (later.bytes_reallocated - earlier.bytes_reallocated) as isize,
    }
}

/// `x` plus `y`, counter by counter.
pub open spec fn sum(x: Stats, y: Stats) -> Stats {
    Stats {
        allocations: (x.allocations + y.allocations) as usize,
        deallocations: (x.deallocations + y.deallocations) as usize,
        reallocations: (x.reallocations + y.reallocations) as usize,
        bytes_allocated: (x.bytes_allocated + y.bytes_allocated) as usize,
        bytes_deallocated: (x.bytes_deallocated + y.bytes_deallocated) as usize,
        bytes_reallocated: (x.bytes_reallocated + y.bytes_reallocated) as isize,
    }
}

/// A delta in which nothing happened.
pub open spec fn is_zero(d: Stats) -> bool {
    d == Stats {
        allocations: 0,
        deallocations: 0,
        reallocations: 0,
        bytes_allocated: 0,
        bytes_deallocated: 0,
        bytes_reallocated: 0,
    }
}

/// Relies on `Sub for stats_alloc::Stats`: it subtracts field by field with
/// the plain `-` of each field's type, which panics where it would overflow.
#[verifier::external_body]
fn subtract(later: Stats, earlier: Stats) -> (r: Stats)
    requires
        precedes(earlier, later),
    ensures
        r == diff(later, earlier),
{
    later - earlier
}

/// The change from snapshot `earlier` to snapshot `later`; `None` where a
/// counter would have to run backwards.
pub fn delta(later: Stats, earlier: Stats) -> (r: Option<Stats>)
    ensures
        r == if precedes(earlier, later) {
            Some(diff(later, earlier))
        } else {
            None::<Stats>
        },
{
    let ordered = earlier.allocations <= later.allocations
        && earlier.deallocations <= later.deallocations
        && earlier.reallocations <= later.reallocations
        && earlier.bytes_allocated <= later.bytes_allocated
        && earlier.bytes_deallocated <= later.bytes_deallocated;
    if !ordered {
        return None;
    }
    let fits = if earlier.bytes_reallocated >= 0 {
        later.bytes_reallocated >= isize::MIN + earlier.bytes_reallocated
    } else {
        later.bytes_reallocated <= isize::MAX + earlier.bytes_reallocated
    };
    if fits {
        Some(subtract(later, earlier))
    } else {
        None
    }
}

/// Two back-to-back measured spans, from `a` to `b` and from `b` to `c`, add
/// up to the span from `a` to `c` that covers them both.
pub proof fn lemma_additive(a: Stats, b: Stats, c: Stats)
    requires
        precedes(a, b),
        precedes(b, c),
        precedes(a, c),
    ensures
        sum(diff(b, a), diff(c, b)) == diff(c, a),
{
}

/// A span nested inside another, snapshots taken in the order `outer_start`,
/// `inner_start`, `inner_end`, `outer_end`, counts no more of any growing
/// counter than the span around it.
pub proof fn lemma_nested_within(
    outer_start: Stats,
    inner_start: Stats,
    inner_end: Stats,
    outer_end: Stats,
)
    requires
        counters_ordered(outer_start, inner_start),
        counters_ordered(inner_start, inner_end),
        counters_ordered(inner_end, outer_end),
    ensures
        counters_ordered(diff(inner_end, inner_start), diff(outer_end, outer_start)),
{
}

/// Two snapshots that agree give a delta of all zero counters.
pub proof fn lemma_unchanged_is_zero(s: Stats)
    ensures
        precedes(s, s),
        is_zero(diff(s, s)),
{
}

} // verus!
