use crate::identity::IdentityKey;
use crate::reputation::service::{ReputationError, Service, ServiceModel};
use vstd::prelude::*;

verus! {

/// The bytes of the one identity that may slash a bond: the escrow settlement
/// engine's own.
pub open spec fn settlement_authority_bytes() -> Seq<u8> {
    seq![
        89u8, 25u8, 223u8, 17u8, 43u8, 11u8, 228u8, 2u8, 121u8, 50u8, 170u8, 51u8, 92u8, 45u8,
        161u8, 184u8, 126u8, 154u8, 195u8, 87u8, 103u8, 0u8, 214u8, 141u8, 60u8, 197u8, 198u8,
        22u8, 54u8, 121u8, 25u8, 7u8,
    ]
}

/// The one identity that may slash a bond.
pub fn settlement_authority() -> (key: IdentityKey)
    ensures
        key@ == settlement_authority_bytes(),
{
    let key = IdentityKey {
        bytes: [
            89u8, 25u8, 223u8, 17u8, 43u8, 11u8, 228u8, 2u8, 121u8, 50u8, 170u8, 51u8, 92u8, 45u8,
            161u8, 184u8, 126u8, 154u8, 195u8, 87u8, 103u8, 0u8, 214u8, 141u8, 60u8, 197u8,
            198u8, 22u8, 54u8, 121u8, 25u8, 7u8,
        ],
    };
    assert(key@ =~= settlement_authority_bytes());
    key
}

/// Moves `amount` out of the service's balance into the destination's. A
/// payout that the service does not hold is refused, and both balances stay.
pub fn pay_out(amount: u64, source: &mut u64, destination: &mut u64) -> (result: Result<
    (),
    ReputationError,
>)
    requires
        amount <= *old(source) ==> *old(destination) + amount <= u64::MAX,
    ensures
        result is Ok <==> amount <= *old(source),
        result is Ok ==> {
            &&& *final(source) == *old(source) - amount
            &&& *final(destination) == *old(destination) + amount
        },
        result matches Err(e) ==> {
            &&& e == ReputationError::InsufficientBond
            &&& *final(source) == *old(source)
            &&& *final(destination) == *old(destination)
        },
{
    if amount == 0 {
        return Ok(());
    }
    if *source < amount {
        return Err(ReputationError::InsufficientBond);
    }
    *source = *source - amount;
    *destination = *destination + amount;
    Ok(())
}

/// The smaller of a requested amount and a balance.
pub open spec fn at_most(requested: nat, balance: nat) -> nat {
    if requested <= balance {
        requested
    } else {
        balance
    }
}

impl ServiceModel {
    /// Why a deposit by `caller` is refused, if it is. The amount is looked at
    /// first, then the caller.
    pub open spec fn deposit_refusal(self, caller: Seq<u8>, amount: nat) -> Option<
        ReputationError,
    > {
        if amount == 0 {
            Some(ReputationError::InvalidAmount)
        } else if !self.admits_owner(caller) {
            Some(ReputationError::InvalidOwner)
        } else {
            None
        }
    }

    /// Why a withdrawal by `caller` is refused, if it is, when the service
    /// holds `service_balance`. The amount is looked at first, then the caller,
    /// then the bond, then the service's balance.
    pub open spec fn withdraw_refusal(
        self,
        caller: Seq<u8>,
        amount: nat,
        service_balance: nat,
    ) -> Option<ReputationError> {
        if amount == 0 {
            Some(ReputationError::InvalidAmount)
        } else if self.owner != caller {
            Some(ReputationError::InvalidOwner)
        } else if self.bond_balance < amount || service_balance < amount {
            Some(ReputationError::InsufficientBond)
        } else {
            None
        }
    }

    /// Why a slash on `authority`'s word is refused, if it is, when the
    /// service holds `service_balance`. The authority is looked at first, then
    /// the service's balance.
    pub open spec fn slash_refusal(
        self,
        authority: Seq<u8>,
        amount: nat,
        service_balance: nat,
    ) -> Option<ReputationError> {
        if authority != settlement_authority_bytes() {
            Some(ReputationError::InvalidAuthority)
        } else if service_balance < at_most(amount, self.bond_balance) {
            Some(ReputationError::InsufficientBond)
        } else {
            None
        }
    }
}

/// Adds `amount` to the service's bond on behalf of `caller`, who acts as the
/// service's owner. A bond that no `u64` holds stays at the largest one.
pub fn bond_deposit(svc: &mut Service, caller: &IdentityKey, amount: u64) -> (result: Result<
    (),
    ReputationError,
>)
    ensures
        match result {
            Ok(()) => {
                &&& old(svc)@.deposit_refusal(caller@, amount as nat) is None
                &&& final(svc)@ == (ServiceModel {
                    bond_balance: at_most(
                        old(svc)@.bond_balance + amount as nat,
                        u64::MAX as nat,
                    ),
                    ..old(svc)@.bound_to(caller@)
                })
            },
            Err(e) => {
                &&& old(svc)@.deposit_refusal(caller@, amount as nat) == Some(e)
                &&& *final(svc) == *old(svc)
            },
        },
{
    if amount == 0 {
        return Err(ReputationError::InvalidAmount);
    }
    match svc.authorize_owner(caller) {
        Ok(()) => {},
        Err(e) => {
            return Err(e);
        },
    }
    svc.bond_balance = svc.bond_balance.saturating_add(amount);
    Ok(())
}

/// Takes `amount` out of the service's bond and pays it to its owner, out of
/// the service's balance.
pub fn bond_withdraw(
    svc: &mut Service,
    caller: &IdentityKey,
    amount: u64,
    service_balance: &mut u64,
    owner_balance: &mut u64,
) -> (result: Result<(), ReputationError>)
    requires
        *old(service_balance) + *old(owner_balance) <= u64::MAX,
    ensures
        match result {
            Ok(()) => {
                &&& old(svc)@.withdraw_refusal(
                    caller@,
                    amount as nat,
                    *old(service_balance) as nat,
                ) is None
                &&& final(svc)@ == (ServiceModel {
                    bond_balance: (old(svc)@.bond_balance - amount) as nat,
                    ..old(svc)@
                })
                &&& *final(service_balance) == *old(service_balance) - amount
                &&& *final(owner_balance) == *old(owner_balance) + amount
            },
            Err(e) => {
                &&& old(svc)@.withdraw_refusal(
                    caller@,
                    amount as nat,
                    *old(service_balance) as nat,
                ) == Some(e)
                &&& *final(svc) == *old(svc)
                &&& *final(service_balance) == *old(service_balance)
                &&& *final(owner_balance) == *old(owner_balance)
            },
        },
{
    if amount == 0 {
        return Err(ReputationError::InvalidAmount);
    }
    if !svc.owner.same_as(caller) {
        return Err(ReputationError::InvalidOwner);
    }
    if svc.bond_balance < amount {
        return Err(ReputationError::InsufficientBond);
    }
    match pay_out(amount, service_balance, owner_balance) {
        Ok(()) => {},
        Err(e) => {
            return Err(e);
        },
    }
    svc.bond_balance = svc.bond_balance.saturating_sub(amount);
    Ok(())
}

/// Forfeits up to `amount` of the service's bond to `recipient`, on the word
/// of the settlement authority. Never more than the bond is taken, and what
/// was taken comes back as the result.
pub fn bond_slash(
    svc: &mut Service,
    authority: &IdentityKey,
    amount: u64,
    service_balance: &mut u64,
    recipient_balance: &mut u64,
) -> (result: Result<u64, ReputationError>)
    requires
        *old(service_balance) + *old(recipient_balance) <= u64::MAX,
    ensures
        match result {
            Ok(taken) => {
                &&& old(svc)@.slash_refusal(
                    authority@,
                    amount as nat,
                    *old(service_balance) as nat,
                ) is None
                &&& taken == at_most(amount as nat, old(svc)@.bond_balance)
                &&& final(svc)@ == (ServiceModel {
                    bond_balance: (old(svc)@.bond_balance - taken) as nat,
                    ..old(svc)@
                })
                &&& final(svc).bond_balance + taken == old(svc).bond_balance
                &&& *final(service_balance) == *old(service_balance) - taken
                &&& *final(recipient_balance) == *old(recipient_balance) + taken
            },
            Err(e) => {
                &&& old(svc)@.slash_refusal(
                    authority@,
                    amount as nat,
                    *old(service_balance) as nat,
                ) == Some(e)
                &&& *final(svc) == *old(svc)
                &&& *final(service_balance) == *old(service_balance)
                &&& *final(recipient_balance) == *old(recipient_balance)
            },
        },
{
    let trusted = settlement_authority();
    if !authority.same_as(&trusted) {
        return Err(ReputationError::InvalidAuthority);
    }
    let actual: u64 = if amount < svc.bond_balance {
        amount
    } else {
        svc.bond_balance
    };
    if actual > 0 {
        match pay_out(actual, service_balance, recipient_balance) {
            Ok(()) => {},
            Err(e) => {
                return Err(e);
            },
        }
        svc.bond_balance = svc.bond_balance.saturating_sub(actual);
    }
    Ok(actual)
}

} // verus!
