use crate::identity::IdentityKey;
use crate::reputation::service::{ReputationError, Service};
use vstd::prelude::*;

verus! {

/// The three weighted counters of a service, one for each way a call can end.
#[derive(Clone, Copy, Debug, PartialEq, Eq, Structural)]
pub enum OutcomeKind {
    OnTime,
    Late,
    Disputed,
}

/// The counter that an outcome code stands for: 0, 1 and 2 are the three
/// counters, and every other code stands for none.
pub open spec fn kind_of_code(outcome: u8) -> Option<OutcomeKind> {
    if outcome == 0 {
        Some(OutcomeKind::OnTime)
    } else if outcome == 1 {
        Some(OutcomeKind::Late)
    } else if outcome == 2 {
        Some(OutcomeKind::Disputed)
    } else {
        None
    }
}

/// The counter to which the weight of an outcome with this code is added, or
/// `None` for a code that is passed over.
pub fn outcome_kind(outcome: u8) -> (kind: Option<OutcomeKind>)
    ensures
        kind == kind_of_code(outcome),
        kind is Some <==> outcome <= 2,
{
    match outcome {
        0 => Some(OutcomeKind::OnTime),
        1 => Some(OutcomeKind::Late),
        2 => Some(OutcomeKind::Disputed),
        _ => None,
    }
}

/// Takes the report of a call's outcome from `caller`, who acts as the
/// service's owner, and names the counter that the report's weight goes to.
pub fn update_weighted(svc: &mut Service, caller: &IdentityKey, outcome: u8) -> (result: Result<
    Option<OutcomeKind>,
    ReputationError,
>)
    ensures
        result is Ok <==> old(svc)@.admits_owner(caller@),
        result matches Ok(kind) ==> {
            &&& kind == kind_of_code(outcome)
            &&& final(svc)@ == old(svc)@.bound_to(caller@)
        },
        result matches Err(e) ==> e == ReputationError::InvalidOwner && *final(svc) == *old(svc),
{
    match svc.authorize_owner(caller) {
        Ok(()) => {},
        Err(e) => {
            return Err(e);
        },
    }
    Ok(outcome_kind(outcome))
}

} // verus!
