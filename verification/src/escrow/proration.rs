use crate::escrow::record::EscrowCall;
use vstd::arithmetic::div_mod::lemma_fundamental_div_mod;
use vstd::arithmetic::mul::lemma_mul_is_distributive_add_other_way;
use vstd::prelude::*;

verus! {

/// How many indices the range `[start, start + count)` shares with `[0, extra)`.
pub open spec fn overlap_with_extras(start: nat, count: nat, extra: nat) -> nat {
    if extra <= start {
        0
    } else if start + count <= extra {
        count
    } else {
        (extra - start) as nat
    }
}

/// The exact sum owed for the units with index in `[start, start + count)`, when
/// `amount` is split over `total_units` units: every unit gets the whole quotient,
/// and the first `amount % total_units` units get one more.
pub open spec fn amount_for_range(amount: nat, total_units: nat, start: nat, count: nat) -> nat {
    if count == 0 || total_units == 0 {
        0
    } else {
        count * (amount / total_units) + overlap_with_extras(start, count, amount % total_units)
    }
}

/// The amounts of the first `n` units, taken one unit at a time and added up.
pub open spec fn sum_of_single_units(amount: nat, total_units: nat, n: nat) -> nat
    decreases n,
{
    if n == 0 {
        0
    } else {
        sum_of_single_units(amount, total_units, (n - 1) as nat) + amount_for_range(
            amount,
            total_units,
            (n - 1) as nat,
            1,
        )
    }
}

/// One unit is owed the whole quotient, and one more if it is among the
/// first `amount % total_units` units.
pub proof fn law_unit_share(amount: nat, total_units: nat, index: nat)
    requires
        total_units >= 1,
    ensures
        amount_for_range(amount, total_units, index, 1) == amount / total_units + if index < amount
            % total_units {
            1nat
        } else {
            0nat
        },
{
}

/// Two ranges that follow each other are owed, together, what the range that
/// covers both is owed.
pub proof fn law_ranges_add_up(amount: nat, total_units: nat, start: nat, a: nat, b: nat)
    ensures
        amount_for_range(amount, total_units, start, a) + amount_for_range(
            amount,
            total_units,
            start + a,
            b,
        ) == amount_for_range(amount, total_units, start, a + b),
{
    if total_units > 0 {
        let base = amount / total_units;
        lemma_mul_is_distributive_add_other_way(base as int, a as int, b as int);
    }
}

/// The whole range of units is owed the whole amount.
pub proof fn law_full_range_is_amount(amount: nat, total_units: nat)
    requires
        total_units >= 1,
    ensures
        amount_for_range(amount, total_units, 0, total_units) == amount,
{
    lemma_fundamental_div_mod(amount as int, total_units as int);
}

/// A range inside the call's units is never owed more than the call holds.
pub proof fn law_range_within_amount(amount: nat, total_units: nat, start: nat, count: nat)
    requires
        start + count <= total_units,
    ensures
        amount_for_range(amount, total_units, start, count) <= amount,
{
    if total_units >= 1 {
        let rest = (total_units - start - count) as nat;
        law_ranges_add_up(amount, total_units, 0, start, count);
        law_ranges_add_up(amount, total_units, 0, start + count, rest);
        law_full_range_is_amount(amount, total_units);
    }
}

/// Taking the units one at a time gives the same sum as taking them as one range.
pub proof fn law_single_units_sum_to_range(amount: nat, total_units: nat, n: nat)
    ensures
        sum_of_single_units(amount, total_units, n) == amount_for_range(amount, total_units, 0, n),
    decreases n,
{
    if n > 0 {
        law_single_units_sum_to_range(amount, total_units, (n - 1) as nat);
        law_ranges_add_up(amount, total_units, 0, (n - 1) as nat, 1);
    }
}

/// No rounding loss: the per-unit amounts of all the units add up to the amount.
pub proof fn law_no_rounding_loss(amount: nat, total_units: nat)
    requires
        total_units >= 1,
    ensures
        sum_of_single_units(amount, total_units, total_units) == amount,
{
    law_single_units_sum_to_range(amount, total_units, total_units);
    law_full_range_is_amount(amount, total_units);
}

/// A sum as a `u64` can hold it: itself, or the largest `u64` where it is larger.
pub open spec fn capped(sum: nat) -> nat {
    if sum > u64::MAX {
        u64::MAX as nat
    } else {
        sum
    }
}

/// The sum owed for `units` units of the call from index `start` on. It is exact
/// for every range inside the call's units; a sum that no `u64` holds comes out
/// as the largest `u64`.
pub fn amount_for_units(ec: &EscrowCall, start: u64, units: u64) -> (owed: u64)
    ensures
        owed == capped(amount_for_range(ec@.amount, ec@.total_units, start as nat, units as nat)),
        start + units <= ec.total_units ==> owed == amount_for_range(
            ec@.amount,
            ec@.total_units,
            start as nat,
            units as nat,
        ),
{
    proof {
        if start + units <= ec.total_units {
            law_range_within_amount(ec@.amount, ec@.total_units, start as nat, units as nat);
        }
    }
    if units == 0 || ec.total_units == 0 {
        return 0;
    }
    let base: u64 = ec.amount / ec.total_units;
    let remainder: u64 = ec.amount % ec.total_units;
    let mut total: u64 = match units.checked_mul(base) {
        Some(product) => product,
        None => u64::MAX,
    };
    if remainder > start {
        let range_end: u64 = start.saturating_add(units);
        let overlap_end: u64 = if range_end < remainder {
            range_end
        } else {
            remainder
        };
        if overlap_end > start {
            total = total.saturating_add(overlap_end - start);
        }
    }
    total
}

} // verus!
