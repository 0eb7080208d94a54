use crate::escrow::proration::{amount_for_range, amount_for_units, law_ranges_add_up};
use crate::escrow::record::{AssuredError, CallModel, EscrowCall, Status, MAX_PROVIDER_SIG_LEN};
use vstd::prelude::*;
use vstd::slice::slice_to_vec;

verus! {

/// What a partial release hands back for the payout and the notifications.
#[derive(Clone, Copy, Debug, PartialEq, Eq)]
pub struct PartialReleaseState {
    pub payout: u64,
    pub units: u64,
    pub total_units: u64,
    pub emit_trace: bool,
}

impl CallModel {
    /// A release of `units` more units is taken: it releases something, and
    /// not more than the call still holds.
    pub open spec fn accepts_release(self, units: nat) -> bool {
        units > 0 && self.units_released + units <= self.total_units
    }

    /// The last unit is out once `units` more are released.
    pub open spec fn completed_by(self, units: nat) -> bool {
        self.units_released + units == self.total_units
    }

    /// What the payer owes for the next `units` units.
    pub open spec fn release_payout(self, units: nat) -> nat {
        amount_for_range(self.amount, self.total_units, self.units_released, units)
    }

    /// The record after a release of `units` more units at `ts`, with the
    /// chunk's digest and proof in place of the earlier ones.
    pub open spec fn after_release(
        self,
        chunk_hash: Seq<u8>,
        units: nat,
        ts: nat,
        provider_sig: Seq<u8>,
    ) -> CallModel {
        CallModel {
            units_released: self.units_released + units,
            response_hash: chunk_hash,
            provider_sig: provider_sig,
            delivered_ts: if self.completed_by(units) {
                Some(ts)
            } else {
                self.delivered_ts
            },
            status: if self.completed_by(units) {
                Status::Fulfilled.code_of()
            } else {
                self.status
            },
            ..self
        }
    }
}

/// The payout that a release of `units` more units would bring. The record is
/// only read.
pub fn quote_partial_release(ec: &EscrowCall, units: u64) -> (result: Result<u64, AssuredError>)
    ensures
        result is Ok <==> ec@.accepts_release(units as nat),
        result matches Ok(payout) ==> payout == ec@.release_payout(units as nat),
        result matches Err(e) ==> e == AssuredError::InvalidUnits,
{
    if units == 0 {
        return Err(AssuredError::InvalidUnits);
    }
    let new_total: u64 = match ec.units_released.checked_add(units) {
        Some(sum) => sum,
        None => {
            return Err(AssuredError::InvalidUnits);
        },
    };
    if new_total > ec.total_units {
        return Err(AssuredError::InvalidUnits);
    }
    Ok(amount_for_units(ec, ec.units_released, units))
}

/// Releases `units` more units of the call: works out their payout, advances
/// the count, and keeps the latest chunk's digest and proof. With the last
/// unit the call becomes fulfilled at `ts`, and only then is the trace flag up.
pub fn apply_partial_release(
    ec: &mut EscrowCall,
    chunk_hash: [u8; 32],
    units: u64,
    ts: u64,
    provider_sig: &[u8],
) -> (result: Result<PartialReleaseState, AssuredError>)
    ensures
        result is Ok <==> old(ec)@.accepts_release(units as nat),
        units == 0 ==> result is Err,
        old(ec).units_released + units > old(ec).total_units ==> result is Err,
        result matches Err(e) ==> e == AssuredError::InvalidUnits && *final(ec) == *old(ec),
        result matches Ok(state) ==> {
            &&& state.payout == old(ec)@.release_payout(units as nat)
            &&& state.units == units
            &&& state.total_units == old(ec).total_units
            &&& state.emit_trace == old(ec)@.completed_by(units as nat)
            &&& state.emit_trace == (final(ec).units_released == final(ec).total_units)
            &&& final(ec)@ == old(ec)@.after_release(
                chunk_hash@,
                units as nat,
                ts as nat,
                provider_sig@,
            )
        },
        old(ec).wf() && provider_sig@.len() <= MAX_PROVIDER_SIG_LEN ==> final(ec).wf(),
{
    let payout: u64 = match quote_partial_release(ec, units) {
        Ok(payout) => payout,
        Err(e) => {
            return Err(e);
        },
    };
    ec.units_released = ec.units_released + units;
    ec.response_hash = chunk_hash;
    ec.provider_sig = slice_to_vec(provider_sig);

    let mut emit_trace = false;
    if ec.units_released == ec.total_units {
        ec.delivered_ts = Some(ts);
        ec.status = Status::Fulfilled.code();
        emit_trace = true;
    }
    Ok(PartialReleaseState { payout, units, total_units: ec.total_units, emit_trace })
}

/// The release of the last unit makes the call fulfilled at its time, and
/// after it no further release is taken: the trace flag, which goes up with
/// that release and with no other, cannot go up again.
pub proof fn law_trace_flag_once(
    call: CallModel,
    chunk_hash: Seq<u8>,
    units: nat,
    ts: nat,
    provider_sig: Seq<u8>,
    later_units: nat,
)
    requires
        call.accepts_release(units),
        call.completed_by(units),
    ensures
        call.after_release(chunk_hash, units, ts, provider_sig).status
            == Status::Fulfilled.code_of(),
        call.after_release(chunk_hash, units, ts, provider_sig).delivered_ts == Some(ts),
        !call.after_release(chunk_hash, units, ts, provider_sig).accepts_release(later_units),
{
}

/// Releases that follow each other pay, together, what one release of all
/// their units would have paid.
pub proof fn law_releases_add_up(
    call: CallModel,
    chunk_hash: Seq<u8>,
    units: nat,
    ts: nat,
    provider_sig: Seq<u8>,
    later_units: nat,
)
    ensures
        call.release_payout(units) + call.after_release(
            chunk_hash,
            units,
            ts,
            provider_sig,
        ).release_payout(later_units) == call.release_payout(units + later_units),
{
    law_ranges_add_up(call.amount, call.total_units, call.units_released, units, later_units);
}

} // verus!
