//! What holds of the accounting whatever the requests are.

use crate::counters::{counter_range, Counters};
use crate::layout::Layout;
use vstd::arithmetic::div_mod::{lemma_add_mod_noop, lemma_mod_twice, lemma_small_mod};
use vstd::prelude::*;

verus! {

/// Zero sum: when the counters agree at the start, then after any sequence of
/// allocations, each at once followed by the deallocation of the same layout,
/// they agree again: the difference is zero.
pub proof fn zero_sum(start: Counters, layouts: Seq<Layout>)
    requires
        start.diff() == 0,
    ensures
        start.paired(layouts).diff() == 0,
    decreases layouts.len(),
{
    if layouts.len() > 0 {
        zero_sum(start, layouts.drop_last());
    }
}

/// A matched pair leaves the difference as it was, as long as neither
/// counter starts again from zero.
pub proof fn matched_pair_keeps_diff(start: Counters, layout: Layout)
    requires
        start.alloc + layout.spec_size() < counter_range(),
        start.dealloc + layout.spec_size() < counter_range(),
    ensures
        start.record_alloc(layout.spec_size() as nat).record_dealloc(
            layout.spec_size() as nat,
        ).diff() == start.diff(),
{
    let size = layout.spec_size() as nat;
    lemma_small_mod(start.alloc + size, counter_range());
    lemma_small_mod(start.dealloc + size, counter_range());
}

/// Additivity: after a reset, two granted allocations leave the allocation
/// counter at the sum of the two sizes.
pub proof fn additivity(start: Counters, first: Layout, second: Layout)
    requires
        first.wf(),
        second.wf(),
    ensures
        start.reset().settle(first.spec_size() as nat, true).settle(
            second.spec_size() as nat,
            true,
        ).alloc == first.spec_size() + second.spec_size(),
{
    let a = first.spec_size() as nat;
    let b = second.spec_size() as nat;
    first.lemma_bounds();
    second.lemma_bounds();
    lemma_small_mod(a, counter_range());
    lemma_small_mod(a + b, counter_range());
}

/// A refused allocation counts nothing: the state, and so every snapshot of
/// it, is the same before and after.
pub proof fn refusal_counts_nothing(start: Counters, layout: Layout)
    ensures
        start.settle(layout.spec_size() as nat, false) == start,
{
}

/// Reset is idempotent: after one reset and after two, both counters and
/// their difference are zero.
pub proof fn reset_idempotent(start: Counters)
    ensures
        start.reset() == Counters::zero(),
        start.reset().reset() == start.reset(),
        start.reset().alloc == 0 && start.reset().dealloc == 0 && start.reset().diff() == 0,
{
}

/// Counting `a` and then `b` on a counter that stands at `total` is counting
/// their sum: starting again from zero in between changes nothing.
proof fn lemma_count_twice(total: nat, a: nat, b: nat)
    ensures
        (((total + a) % counter_range()) + b) % counter_range() == (total + a + b)
            % counter_range(),
{
    let range = counter_range() as int;
    lemma_mod_twice((total + a) as int, range);
    lemma_add_mod_noop((total + a) as int, b as int, range);
    lemma_add_mod_noop(((total + a) % counter_range()) as int, b as int, range);
}

/// The order of two steps does not matter: whichever of two allocations,
/// two deallocations, or an allocation and a deallocation is counted first,
/// the counters end up the same.
pub proof fn steps_commute(start: Counters, first: Layout, second: Layout)
    ensures
        start.record_alloc(first.spec_size() as nat).record_alloc(second.spec_size() as nat)
            == start.record_alloc(second.spec_size() as nat).record_alloc(
            first.spec_size() as nat,
        ),
        start.record_dealloc(first.spec_size() as nat).record_dealloc(second.spec_size() as nat)
            == start.record_dealloc(second.spec_size() as nat).record_dealloc(
            first.spec_size() as nat,
        ),
        start.record_alloc(first.spec_size() as nat).record_dealloc(second.spec_size() as nat)
            == start.record_dealloc(second.spec_size() as nat).record_alloc(
            first.spec_size() as nat,
        ),
{
    let a = first.spec_size() as nat;
    let b = second.spec_size() as nat;
    lemma_count_twice(start.alloc, a, b);
    lemma_count_twice(start.alloc, b, a);
    lemma_count_twice(start.dealloc, a, b);
    lemma_count_twice(start.dealloc, b, a);
}

/// After a reset, `n` granted allocations of one layout leave the allocation
/// counter at `n` times its size, counted within the counter's range.
pub proof fn repeated_allocations(layout: Layout, n: nat)
    ensures
        Counters::zero().repeated(layout.spec_size() as nat, n).alloc == (n
            * layout.spec_size()) % (counter_range() as int),
        Counters::zero().repeated(layout.spec_size() as nat, n).dealloc == 0,
        n * layout.spec_size() < counter_range() ==> Counters::zero().repeated(
            layout.spec_size() as nat,
            n,
        ).alloc == n * layout.spec_size(),
    decreases n,
{
    let size = layout.spec_size() as nat;
    let range = counter_range() as int;
    let total = n * layout.spec_size();
    assert(total >= 0) by (nonlinear_arith)
        requires
            total == n * layout.spec_size(),
            n >= 0,
            layout.spec_size() >= 0,
    ;
    if n == 0 {
        assert(total == 0) by (nonlinear_arith)
            requires
                total == n * layout.spec_size(),
                n == 0,
        ;
        lemma_small_mod(0, counter_range());
    } else {
        let m = (n - 1) as nat;
        let before = m * layout.spec_size();
        repeated_allocations(layout, m);
        assert(total == before + size) by (nonlinear_arith)
            requires
                total == n * layout.spec_size(),
                before == m * layout.spec_size(),
                size == layout.spec_size(),
                n == m + 1,
        ;
        assert(before >= 0) by (nonlinear_arith)
            requires
                before == m * layout.spec_size(),
                m >= 0,
                layout.spec_size() >= 0,
        ;
        let earlier = Counters::zero().repeated(size, m);
        assert(earlier.alloc == before % range);
        assert(Counters::zero().repeated(size, n) == earlier.record_alloc(size));
        lemma_mod_twice(before, range);
        lemma_add_mod_noop(before, size as int, range);
        lemma_add_mod_noop(before % range, size as int, range);
        assert((earlier.alloc + size) % counter_range() == total % range);
    }
    if total < counter_range() {
        lemma_small_mod(total as nat, counter_range());
    }
}

} // verus!
