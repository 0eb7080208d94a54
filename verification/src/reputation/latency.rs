use crate::identity::IdentityKey;
use crate::reputation::service::{ReputationError, Service, ServiceModel};
use vstd::prelude::*;

verus! {

impl ServiceModel {
    /// The record after one more latency sample. The first sample becomes
    /// both estimates; a later one puts the smoothed estimates in their place.
    pub open spec fn after_sample(
        self,
        sample_ms: nat,
        smoothed_ewma_ms: nat,
        smoothed_p95_ms: nat,
    ) -> ServiceModel {
        ServiceModel {
            ewma_latency_ms: if self.latency_samples == 0 {
                sample_ms
            } else {
                smoothed_ewma_ms
            },
            p95_est_ms: if self.latency_samples == 0 {
                sample_ms
            } else {
                smoothed_p95_ms
            },
            latency_samples: if self.latency_samples < u64::MAX {
                self.latency_samples + 1
            } else {
                self.latency_samples
            },
            ..self
        }
    }
}

impl Service {
    /// Takes one more latency sample. `smoothed_ewma_ms` and `smoothed_p95_ms`
    /// are the estimates that the smoothing of this sample into the present
    /// ones gives; they count from the second sample on.
    pub fn record_latency(&mut self, sample_ms: u64, smoothed_ewma_ms: u64, smoothed_p95_ms: u64)
        ensures
            final(self)@ == old(self)@.after_sample(
                sample_ms as nat,
                smoothed_ewma_ms as nat,
                smoothed_p95_ms as nat,
            ),
            old(self).latency_samples == 0 ==> {
                &&& final(self).ewma_latency_ms == sample_ms
                &&& final(self).p95_est_ms == sample_ms
            },
            old(self).latency_samples < u64::MAX ==> final(self).latency_samples
                == old(self).latency_samples + 1,
            final(self).latency_samples >= old(self).latency_samples,
    {
        if self.latency_samples == 0 {
            self.ewma_latency_ms = sample_ms;
            self.p95_est_ms = sample_ms;
        } else {
            self.ewma_latency_ms = smoothed_ewma_ms;
            self.p95_est_ms = smoothed_p95_ms;
        }
        self.latency_samples = self.latency_samples.saturating_add(1);
    }
}

/// Takes one more latency sample from `caller`, who acts as the service's
/// owner.
pub fn update_latency(
    svc: &mut Service,
    caller: &IdentityKey,
    sample_ms: u64,
    smoothed_ewma_ms: u64,
    smoothed_p95_ms: u64,
) -> (result: Result<(), ReputationError>)
    ensures
        result is Ok <==> old(svc)@.admits_owner(caller@),
        result is Ok ==> final(svc)@ == old(svc)@.bound_to(caller@).after_sample(
            sample_ms as nat,
            smoothed_ewma_ms as nat,
            smoothed_p95_ms as nat,
        ),
        result matches Err(e) ==> e == ReputationError::InvalidOwner && *final(svc) == *old(svc),
{
    match svc.authorize_owner(caller) {
        Ok(()) => {},
        Err(e) => {
            return Err(e);
        },
    }
    svc.record_latency(sample_ms, smoothed_ewma_ms, smoothed_p95_ms);
    Ok(())
}

} // verus!
