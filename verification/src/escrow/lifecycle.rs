use crate::escrow::proration::{law_full_range_is_amount, law_ranges_add_up};
use crate::escrow::record::{CallModel, SettlementOutcome, Status, MAX_PROVIDER_SIG_LEN};
use vstd::prelude::*;

verus! {

/// A stage may stay, and may move on from `Init` to any later stage and from
/// `Fulfilled` to one of the two settled ones. It never moves back.
pub open spec fn stage_follows(before: u8, after: u8) -> bool {
    ||| after == before
    ||| before == Status::Init.code_of() && (after == Status::Fulfilled.code_of() || after
        == Status::Released.code_of() || after == Status::Refunded.code_of())
    ||| before == Status::Fulfilled.code_of() && (after == Status::Released.code_of() || after
        == Status::Refunded.code_of())
}

impl CallModel {
    /// The terms that the call was opened with are those of `before`.
    pub open spec fn same_terms(self, before: CallModel) -> bool {
        &&& self.call_id == before.call_id
        &&& self.payer == before.payer
        &&& self.service_id == before.service_id
        &&& self.provider == before.provider
        &&& self.amount == before.amount
        &&& self.start_ts == before.start_ts
        &&& self.sla_ms == before.sla_ms
        &&& self.dispute_window_s == before.dispute_window_s
        &&& self.total_units == before.total_units
    }

    /// This record is `before` or a later state of the same call: the terms are
    /// the same, the stage has not moved back, a dispute is still a dispute,
    /// and no released unit was taken back.
    pub open spec fn advances_from(self, before: CallModel) -> bool {
        &&& self.same_terms(before)
        &&& stage_follows(before.status, self.status)
        &&& before.disputed ==> self.disputed
        &&& before.units_released <= self.units_released <= self.total_units
    }
}

/// A full delivery that is taken moves the call forward to `Fulfilled`, and
/// leaves no unit for a later release.
pub proof fn law_fulfill_advances(
    call: CallModel,
    caller: Seq<u8>,
    response_hash: Seq<u8>,
    ts: nat,
    provider_sig: Seq<u8>,
    later_units: nat,
)
    requires
        call.wf(),
        response_hash.len() == 32,
        call.fulfill_refusal(caller, provider_sig.len()) is None,
    ensures
        call.after_fulfill(response_hash, ts, provider_sig).advances_from(call),
        call.after_fulfill(response_hash, ts, provider_sig).wf(),
        call.after_fulfill(response_hash, ts, provider_sig).status == Status::Fulfilled.code_of(),
        !call.after_fulfill(response_hash, ts, provider_sig).accepts_release(later_units),
{
}

/// A partial delivery that is taken on a call not yet settled moves the call
/// forward, and it settles nothing.
pub proof fn law_release_advances(
    call: CallModel,
    chunk_hash: Seq<u8>,
    units: nat,
    ts: nat,
    provider_sig: Seq<u8>,
)
    requires
        call.wf(),
        call.is_open(),
        chunk_hash.len() == 32,
        provider_sig.len() <= MAX_PROVIDER_SIG_LEN,
        call.accepts_release(units),
    ensures
        call.after_release(chunk_hash, units, ts, provider_sig).advances_from(call),
        call.after_release(chunk_hash, units, ts, provider_sig).wf(),
        call.after_release(chunk_hash, units, ts, provider_sig).is_open(),
{
}

/// Settling moves a call that is not yet settled forward to one of the two
/// settled stages.
pub proof fn law_settle_advances(call: CallModel, outcome: SettlementOutcome)
    requires
        call.wf(),
        call.is_open(),
    ensures
        call.after_settle(outcome).advances_from(call),
        call.after_settle(outcome).wf(),
        !call.after_settle(outcome).is_open(),
{
}

/// A settled call is final: a full delivery, a dispute and a second settling
/// are all refused, whoever asks.
pub proof fn law_settled_is_final(
    call: CallModel,
    caller: Seq<u8>,
    other: Seq<u8>,
    sig_len: nat,
    now: nat,
    escrow_balance: nat,
)
    requires
        !call.is_open(),
    ensures
        call.fulfill_refusal(caller, sig_len) is Some,
        call.dispute_refusal(caller) is Some,
        call.settle_refusal(caller, other, now, escrow_balance) is Some,
{
}

/// A dispute that is taken raises the flag and leaves everything else. From
/// then on the call can only be settled by a refund, whatever the time.
pub proof fn law_dispute_advances(call: CallModel, reporter: Seq<u8>, now: nat)
    requires
        call.wf(),
        call.dispute_refusal(reporter) is None,
    ensures
        (CallModel { disputed: true, ..call }).advances_from(call),
        (CallModel { disputed: true, ..call }).wf(),
        (CallModel { disputed: true, ..call }).settlement_outcome(now) == SettlementOutcome::Refund,
{
}

/// On a record with at least one unit, release and refund pay the same sum:
/// what is left of the escrowed amount is what the units not yet released are
/// owed. With what the released units were paid it makes up the amount.
pub proof fn law_settlement_pays_the_rest(call: CallModel, outcome: SettlementOutcome)
    requires
        call.total_units >= 1,
    ensures
        call.settle_payout(outcome) == call.unreleased_amount(),
        call.undelivered_amount() == call.unreleased_amount(),
        call.units_released <= call.total_units ==> call.released_amount()
            + call.unreleased_amount() == call.amount,
{
    law_full_range_is_amount(call.amount, call.total_units);
    if call.units_released <= call.total_units {
        let rest = (call.total_units - call.units_released) as nat;
        law_ranges_add_up(call.amount, call.total_units, 0, call.units_released, rest);
    } else {
        let beyond = (call.units_released - call.total_units) as nat;
        law_ranges_add_up(call.amount, call.total_units, 0, call.total_units, beyond);
    }
}

} // verus!
