use crate::escrow::record::AssuredError;
use vstd::prelude::*;

verus! {

/// Moves `amount` out of the escrow's balance into the destination's. A payout
/// that the escrow does not hold is refused, and both balances stay.
pub fn pay_out(amount: u64, escrow: &mut u64, destination: &mut u64) -> (result: Result<
    (),
    AssuredError,
>)
    requires
        amount <= *old(escrow) ==> *old(destination) + amount <= u64::MAX,
    ensures
        result is Ok <==> amount <= *old(escrow),
        result is Ok ==> {
            &&& *final(escrow) == *old(escrow) - amount
            &&& *final(destination) == *old(destination) + amount
        },
        result matches Err(e) ==> {
            &&& e == AssuredError::EscrowBalanceLow
            &&& *final(escrow) == *old(escrow)
            &&& *final(destination) == *old(destination)
        },
{
    if amount == 0 {
        return Ok(());
    }
    if *escrow < amount {
        return Err(AssuredError::EscrowBalanceLow);
    }
    *escrow = *escrow - amount;
    *destination = *destination + amount;
    Ok(())
}

} // verus!
