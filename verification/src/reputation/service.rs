use crate::identity::{unset_bytes, IdentityKey};
use vstd::prelude::*;

verus! {

/// Why a reputation operation was refused. A refused operation changes nothing.
#[derive(Clone, Copy, Debug, PartialEq, Eq, Structural)]
pub enum ReputationError {
    InvalidOwner,
    InvalidAmount,
    InsufficientBond,
    InvalidAuthority,
}

/// What is kept about one service: its owner, its bonded stake and its
/// latency statistics. The weighted outcome counters, which are sums of
/// real-valued weights, are kept by the host beside this record.
#[derive(Clone, Copy, Debug, PartialEq, Eq)]
pub struct Service {
    pub owner: IdentityKey,
    pub bond_balance: u64,
    pub ewma_latency_ms: u64,
    pub p95_est_ms: u64,
    pub latency_samples: u64,
}

/// A service record as a mathematical value.
pub ghost struct ServiceModel {
    pub owner: Seq<u8>,
    pub bond_balance: nat,
    pub ewma_latency_ms: nat,
    pub p95_est_ms: nat,
    pub latency_samples: nat,
}

impl View for Service {
    type V = ServiceModel;

    open spec fn view(&self) -> ServiceModel {
        ServiceModel {
            owner: self.owner@,
            bond_balance: self.bond_balance as nat,
            ewma_latency_ms: self.ewma_latency_ms as nat,
            p95_est_ms: self.p95_est_ms as nat,
            latency_samples: self.latency_samples as nat,
        }
    }
}

impl ServiceModel {
    /// No owner is bound yet.
    pub open spec fn unowned(self) -> bool {
        self.owner == unset_bytes()
    }

    /// `caller` may act as the owner: it is the owner, or there is none yet.
    pub open spec fn admits_owner(self, caller: Seq<u8>) -> bool {
        self.unowned() || self.owner == caller
    }

    /// The record once `caller` has acted as the owner: bound to `caller` if it
    /// had no owner, and as it was if it had one.
    pub open spec fn bound_to(self, caller: Seq<u8>) -> ServiceModel {
        if self.unowned() {
            ServiceModel { owner: caller, ..self }
        } else {
            self
        }
    }
}

/// Once a service has an owner, acting as the owner does not change it; and
/// whoever is let through as the owner is the owner from then on.
pub proof fn law_owner_is_kept(svc: ServiceModel, caller: Seq<u8>, later: Seq<u8>)
    ensures
        !svc.unowned() ==> svc.bound_to(caller).owner == svc.owner,
        svc.admits_owner(caller) ==> svc.bound_to(caller).owner == caller,
        svc.admits_owner(caller) && caller != unset_bytes() && later != caller
            ==> !svc.bound_to(caller).admits_owner(later),
{
}

impl Default for Service {
    /// A service that nobody owns yet, with no stake and no samples.
    fn default() -> (svc: Service)
        ensures
            svc@ == (ServiceModel {
                owner: unset_bytes(),
                bond_balance: 0,
                ewma_latency_ms: 0,
                p95_est_ms: 0,
                latency_samples: 0,
            }),
    {
        Service {
            owner: IdentityKey::unset(),
            bond_balance: 0,
            ewma_latency_ms: 0,
            p95_est_ms: 0,
            latency_samples: 0,
        }
    }
}

impl Service {
    /// Lets `caller` act as the owner: the first caller becomes the owner, and
    /// from then on only the owner is let through.
    pub fn authorize_owner(&mut self, caller: &IdentityKey) -> (result: Result<(), ReputationError>)
        ensures
            result is Ok <==> old(self)@.admits_owner(caller@),
            result is Ok ==> {
                &&& final(self)@ == old(self)@.bound_to(caller@)
                &&& final(self)@.owner == caller@
            },
            result matches Err(e) ==> {
                &&& e == ReputationError::InvalidOwner
                &&& *final(self) == *old(self)
            },
    {
        if self.owner.is_unset() {
            self.owner = *caller;
            return Ok(());
        }
        if !self.owner.same_as(caller) {
            return Err(ReputationError::InvalidOwner);
        }
        Ok(())
    }
}

} // verus!
