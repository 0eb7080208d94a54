use crate::escrow::custody::pay_out;
use crate::escrow::evaluation::evaluate_settlement;
use crate::escrow::events::{
    Disputed,
    Fulfilled,
    PartialReleased,
    Refunded,
    Released,
    Settled,
    TraceSaved,
};
use crate::escrow::proration::{amount_for_range, amount_for_units};
use crate::escrow::record::{
    AssuredError,
    CallModel,
    EscrowCall,
    SettlementOutcome,
    Status,
    MAX_PROVIDER_SIG_LEN,
};
use crate::escrow::release::{apply_partial_release, quote_partial_release};
use crate::identity::IdentityKey;
use vstd::prelude::*;
use vstd::slice::slice_to_vec;

verus! {

impl CallModel {
    /// Why a full delivery by `caller` is refused, if it is. The stage is looked
    /// at first, then the caller, then the length of the proof.
    pub open spec fn fulfill_refusal(self, caller: Seq<u8>, sig_len: nat) -> Option<AssuredError> {
        if self.status != Status::Init.code_of() {
            Some(AssuredError::InvalidStatus)
        } else if caller != self.provider {
            Some(AssuredError::InvalidProvider)
        } else if sig_len > MAX_PROVIDER_SIG_LEN {
            Some(AssuredError::SignatureTooLong)
        } else {
            None
        }
    }

    /// The record after a full delivery at `ts`.
    pub open spec fn after_fulfill(
        self,
        response_hash: Seq<u8>,
        ts: nat,
        provider_sig: Seq<u8>,
    ) -> CallModel {
        CallModel {
            response_hash: response_hash,
            delivered_ts: Some(ts),
            status: Status::Fulfilled.code_of(),
            units_released: self.total_units,
            provider_sig: provider_sig,
            ..self
        }
    }

    /// Why a delivery of `units` units by `caller` is refused, if it is, when the
    /// escrow holds `escrow_balance`. The caller is looked at first, then the
    /// length of the proof, then the units, then the escrow's balance.
    pub open spec fn partial_refusal(
        self,
        caller: Seq<u8>,
        sig_len: nat,
        units: nat,
        escrow_balance: nat,
    ) -> Option<AssuredError> {
        if caller != self.provider {
            Some(AssuredError::InvalidProvider)
        } else if sig_len > MAX_PROVIDER_SIG_LEN {
            Some(AssuredError::SignatureTooLong)
        } else if !self.accepts_release(units) {
            Some(AssuredError::InvalidUnits)
        } else if self.release_payout(units) > escrow_balance {
            Some(AssuredError::EscrowBalanceLow)
        } else {
            None
        }
    }

    /// Why a dispute by `reporter` is refused, if it is. The reporter is looked
    /// at first, then the stage.
    pub open spec fn dispute_refusal(self, reporter: Seq<u8>) -> Option<AssuredError> {
        if reporter != self.payer {
            Some(AssuredError::InvalidReporter)
        } else if !self.is_open() {
            Some(AssuredError::InvalidStatus)
        } else {
            None
        }
    }

    /// What the units released so far were paid.
    pub open spec fn released_amount(self) -> nat {
        amount_for_range(self.amount, self.total_units, 0, self.units_released)
    }

    /// What is left of the escrowed amount: the amount less what the units
    /// released so far were paid.
    pub open spec fn unreleased_amount(self) -> nat {
        if self.released_amount() <= self.amount {
            (self.amount - self.released_amount()) as nat
        } else {
            0
        }
    }

    /// What the units not yet released are owed.
    pub open spec fn undelivered_amount(self) -> nat {
        if self.units_released < self.total_units {
            amount_for_range(
                self.amount,
                self.total_units,
                self.units_released,
                (self.total_units - self.units_released) as nat,
            )
        } else {
            0
        }
    }

    /// What settling with the given outcome pays: on release what the units
    /// not yet released are owed, which goes to the provider; on refund what
    /// is left of the escrowed amount, which goes back to the payer. On every
    /// record with at least one unit the two are the same sum.
    pub open spec fn settle_payout(self, outcome: SettlementOutcome) -> nat {
        match outcome {
            SettlementOutcome::Release => self.undelivered_amount(),
            SettlementOutcome::Refund => self.unreleased_amount(),
        }
    }

    /// Why settling at `now` is refused, if it is, when the escrow holds
    /// `escrow_balance`. The stage is looked at first, then the payer, then the
    /// provider, then the escrow's balance.
    pub open spec fn settle_refusal(
        self,
        payer: Seq<u8>,
        provider: Seq<u8>,
        now: nat,
        escrow_balance: nat,
    ) -> Option<AssuredError> {
        if !self.is_open() {
            Some(AssuredError::InvalidStatus)
        } else if payer != self.payer {
            Some(AssuredError::InvalidPayer)
        } else if provider != self.provider {
            Some(AssuredError::InvalidProvider)
        } else if self.settle_payout(self.settlement_outcome(now)) > escrow_balance {
            Some(AssuredError::EscrowBalanceLow)
        } else {
            None
        }
    }

    /// The record after settling with the given outcome.
    pub open spec fn after_settle(self, outcome: SettlementOutcome) -> CallModel {
        match outcome {
            SettlementOutcome::Release => CallModel {
                units_released: self.total_units,
                status: Status::Released.code_of(),
                ..self
            },
            SettlementOutcome::Refund => CallModel { status: Status::Refunded.code_of(), ..self },
        }
    }
}

/// Opens a call: a record in its first stage, with nothing released and at
/// least one unit to deliver.
pub fn init_payment(
    call_id: String,
    service_id: String,
    payer: IdentityKey,
    provider: IdentityKey,
    amount: u64,
    start_ts: u64,
    sla_ms: u64,
    dispute_window_s: u64,
    total_units: u64,
) -> (ec: EscrowCall)
    ensures
        ec@ == (CallModel {
            call_id: call_id@,
            payer: payer@,
            service_id: service_id@,
            provider: provider@,
            amount: amount as nat,
            start_ts: start_ts as nat,
            sla_ms: sla_ms as nat,
            dispute_window_s: dispute_window_s as nat,
            status: Status::Init.code_of(),
            delivered_ts: None,
            response_hash: Seq::new(32, |i: int| 0u8),
            disputed: false,
            total_units: if total_units == 0 {
                1
            } else {
                total_units as nat
            },
            units_released: 0,
            provider_sig: Seq::empty(),
        }),
        ec.wf(),
{
    let ec = EscrowCall {
        call_id,
        payer,
        service_id,
        provider,
        amount,
        start_ts,
        sla_ms,
        dispute_window_s,
        status: Status::Init.code(),
        delivered_ts: None,
        response_hash: [0u8; 32],
        disputed: false,
        total_units: if total_units == 0 {
            1
        } else {
            total_units
        },
        units_released: 0,
        provider_sig: Vec::new(),
    };
    assert(ec.response_hash@ =~= Seq::new(32, |i: int| 0u8));
    ec
}

/// Records a delivery in full by the provider: every unit is released and the
/// call is fulfilled at `ts`.
pub fn fulfill(
    ec: &mut EscrowCall,
    caller: &IdentityKey,
    response_hash: [u8; 32],
    ts: u64,
    provider_sig: Vec<u8>,
) -> (result: Result<(Fulfilled, TraceSaved), AssuredError>)
    ensures
        match result {
            Ok((fulfilled, trace)) => {
                &&& old(ec)@.fulfill_refusal(caller@, provider_sig@.len()) is None
                &&& final(ec)@ == old(ec)@.after_fulfill(
                    response_hash@,
                    ts as nat,
                    provider_sig@,
                )
                &&& fulfilled.call_id@ == old(ec)@.call_id
                &&& fulfilled.ts == ts
                &&& trace.call_id@ == old(ec)@.call_id
                &&& trace.response_hash@ == response_hash@
                &&& trace.provider_sig@ == provider_sig@
            },
            Err(e) => {
                &&& old(ec)@.fulfill_refusal(caller@, provider_sig@.len()) == Some(e)
                &&& *final(ec) == *old(ec)
            },
        },
        old(ec).wf() ==> final(ec).wf(),
{
    if ec.status != Status::Init.code() {
        return Err(AssuredError::InvalidStatus);
    }
    if !caller.same_as(&ec.provider) {
        return Err(AssuredError::InvalidProvider);
    }
    if provider_sig.len() > MAX_PROVIDER_SIG_LEN {
        return Err(AssuredError::SignatureTooLong);
    }
    ec.response_hash = response_hash;
    ec.delivered_ts = Some(ts);
    ec.status = Status::Fulfilled.code();
    ec.units_released = ec.total_units;
    ec.provider_sig = slice_to_vec(provider_sig.as_slice());
    let fulfilled = Fulfilled { call_id: ec.call_id.clone(), ts };
    let trace = TraceSaved { call_id: ec.call_id.clone(), response_hash, provider_sig };
    Ok((fulfilled, trace))
}

/// Records a delivery of `units` more units by the provider and pays them out
/// of the escrow's balance. With the last unit the call is fulfilled at `ts`,
/// and the trace of that delivery comes back with the notification.
pub fn fulfill_partial(
    ec: &mut EscrowCall,
    caller: &IdentityKey,
    escrow_balance: &mut u64,
    provider_balance: &mut u64,
    chunk_hash: [u8; 32],
    units: u64,
    ts: u64,
    provider_sig: Vec<u8>,
) -> (result: Result<(PartialReleased, Option<TraceSaved>), AssuredError>)
    requires
        *old(escrow_balance) + *old(provider_balance) <= u64::MAX,
    ensures
        match result {
            Ok((released, trace)) => {
                &&& old(ec)@.partial_refusal(
                    caller@,
                    provider_sig@.len(),
                    units as nat,
                    *old(escrow_balance) as nat,
                ) is None
                &&& final(ec)@ == old(ec)@.after_release(
                    chunk_hash@,
                    units as nat,
                    ts as nat,
                    provider_sig@,
                )
                &&& *final(escrow_balance) == *old(escrow_balance) - old(ec)@.release_payout(
                    units as nat,
                )
                &&& *final(provider_balance) == *old(provider_balance) + old(ec)@.release_payout(
                    units as nat,
                )
                &&& released.call_id@ == old(ec)@.call_id
                &&& released.units == units
                &&& released.total_units == old(ec).total_units
                &&& trace is Some <==> old(ec)@.completed_by(units as nat)
                &&& trace matches Some(t) ==> {
                    &&& t.call_id@ == old(ec)@.call_id
                    &&& t.response_hash@ == chunk_hash@
                    &&& t.provider_sig@ == provider_sig@
                }
            },
            Err(e) => {
                &&& old(ec)@.partial_refusal(
                    caller@,
                    provider_sig@.len(),
                    units as nat,
                    *old(escrow_balance) as nat,
                ) == Some(e)
                &&& *final(ec) == *old(ec)
                &&& *final(escrow_balance) == *old(escrow_balance)
                &&& *final(provider_balance) == *old(provider_balance)
            },
        },
        old(ec).wf() ==> final(ec).wf(),
{
    if !caller.same_as(&ec.provider) {
        return Err(AssuredError::InvalidProvider);
    }
    if provider_sig.len() > MAX_PROVIDER_SIG_LEN {
        return Err(AssuredError::SignatureTooLong);
    }
    let quoted: u64 = match quote_partial_release(ec, units) {
        Ok(payout) => payout,
        Err(e) => {
            return Err(e);
        },
    };
    if quoted > *escrow_balance {
        return Err(AssuredError::EscrowBalanceLow);
    }
    let state = match apply_partial_release(ec, chunk_hash, units, ts, provider_sig.as_slice()) {
        Ok(state) => state,
        Err(e) => {
            return Err(e);
        },
    };
    if state.payout > 0 {
        match pay_out(state.payout, escrow_balance, provider_balance) {
            Ok(()) => {},
            Err(e) => {
                return Err(e);
            },
        }
    }
    let released = PartialReleased {
        call_id: ec.call_id.clone(),
        units: state.units,
        total_units: state.total_units,
    };
    let trace = if state.emit_trace {
        Some(TraceSaved { call_id: ec.call_id.clone(), response_hash: chunk_hash, provider_sig })
    } else {
        None
    };
    Ok((released, trace))
}

/// Flags the call as disputed, on the payer's word. Nothing is paid.
pub fn raise_dispute(
    ec: &mut EscrowCall,
    reporter: &IdentityKey,
    kind: u8,
    reason_hash: [u8; 32],
) -> (result: Result<Disputed, AssuredError>)
    ensures
        match result {
            Ok(disputed) => {
                &&& old(ec)@.dispute_refusal(reporter@) is None
                &&& final(ec)@ == (CallModel { disputed: true, ..old(ec)@ })
                &&& disputed.call_id@ == old(ec)@.call_id
                &&& disputed.kind == kind
                &&& disputed.reason_hash@ == reason_hash@
            },
            Err(e) => {
                &&& old(ec)@.dispute_refusal(reporter@) == Some(e)
                &&& *final(ec) == *old(ec)
            },
        },
        old(ec).wf() ==> final(ec).wf(),
{
    if !reporter.same_as(&ec.payer) {
        return Err(AssuredError::InvalidReporter);
    }
    if !(ec.status == Status::Init.code() || ec.status == Status::Fulfilled.code()) {
        return Err(AssuredError::InvalidStatus);
    }
    ec.disputed = true;
    Ok(Disputed { call_id: ec.call_id.clone(), kind, reason_hash })
}

/// Closes a settled call's custody: whatever the escrow still holds goes back
/// to the payer.
pub fn close_call(escrow_balance: &mut u64, payer_balance: &mut u64)
    requires
        *old(escrow_balance) + *old(payer_balance) <= u64::MAX,
    ensures
        *final(escrow_balance) == 0,
        *final(payer_balance) == *old(payer_balance) + *old(escrow_balance),
{
    *payer_balance = *payer_balance + *escrow_balance;
    *escrow_balance = 0;
}

/// Settles the call at `now` and closes it. On release the provider is paid
/// what the units not yet released are owed; on refund the payer gets back
/// what is left of the escrowed amount. What earlier deliveries were paid
/// stays paid. Whatever the escrow holds after that goes back to the payer.
pub fn settle(
    ec: &mut EscrowCall,
    payer: &IdentityKey,
    provider: &IdentityKey,
    now: u64,
    escrow_balance: &mut u64,
    payer_balance: &mut u64,
    provider_balance: &mut u64,
) -> (result: Result<Settled, AssuredError>)
    requires
        *old(escrow_balance) + *old(payer_balance) <= u64::MAX,
        *old(escrow_balance) + *old(provider_balance) <= u64::MAX,
    ensures
        match result {
            Ok(settled) => {
                let outcome = old(ec)@.settlement_outcome(now as nat);
                let paid = old(ec)@.settle_payout(outcome);
                &&& old(ec)@.settle_refusal(
                    payer@,
                    provider@,
                    now as nat,
                    *old(escrow_balance) as nat,
                ) is None
                &&& final(ec)@ == old(ec)@.after_settle(outcome)
                &&& *final(escrow_balance) == 0
                &&& match outcome {
                    SettlementOutcome::Release => {
                        &&& settled matches Settled::Released(ev)
                        &&& ev.call_id@ == old(ec)@.call_id
                        &&& *final(provider_balance) == *old(provider_balance) + paid
                        &&& *final(payer_balance) == *old(payer_balance) + *old(escrow_balance)
                            - paid
                    },
                    SettlementOutcome::Refund => {
                        &&& settled matches Settled::Refunded(ev)
                        &&& ev.call_id@ == old(ec)@.call_id
                        &&& *final(provider_balance) == *old(provider_balance)
                        &&& *final(payer_balance) == *old(payer_balance) + *old(escrow_balance)
                    },
                }
            },
            Err(e) => {
                &&& old(ec)@.settle_refusal(
                    payer@,
                    provider@,
                    now as nat,
                    *old(escrow_balance) as nat,
                ) == Some(e)
                &&& *final(ec) == *old(ec)
                &&& *final(escrow_balance) == *old(escrow_balance)
                &&& *final(payer_balance) == *old(payer_balance)
                &&& *final(provider_balance) == *old(provider_balance)
            },
        },
        old(ec).wf() ==> final(ec).wf(),
{
    if !(ec.status == Status::Fulfilled.code() || ec.status == Status::Init.code()) {
        return Err(AssuredError::InvalidStatus);
    }
    if !payer.same_as(&ec.payer) {
        return Err(AssuredError::InvalidPayer);
    }
    if !provider.same_as(&ec.provider) {
        return Err(AssuredError::InvalidProvider);
    }
    let outcome = evaluate_settlement(ec, now);
    let amount: u64 = ec.amount;
    let released_so_far: u64 = amount_for_units(ec, 0, ec.units_released);
    let remaining_units: u64 = ec.total_units.saturating_sub(ec.units_released);
    let remaining_amount: u64 = amount.saturating_sub(released_so_far);
    let settled = match outcome {
        SettlementOutcome::Release => {
            if remaining_units > 0 {
                let payout: u64 = amount_for_units(ec, ec.units_released, remaining_units);
                if payout > 0 {
                    match pay_out(payout, escrow_balance, provider_balance) {
                        Ok(()) => {},
                        Err(e) => {
                            return Err(e);
                        },
                    }
                }
            }
            ec.units_released = ec.total_units;
            ec.status = Status::Released.code();
            Settled::Released(Released { call_id: ec.call_id.clone() })
        },
        SettlementOutcome::Refund => {
            if remaining_amount > 0 {
                match pay_out(remaining_amount, escrow_balance, payer_balance) {
                    Ok(()) => {},
                    Err(e) => {
                        return Err(e);
                    },
                }
            }
            ec.status = Status::Refunded.code();
            Settled::Refunded(Refunded { call_id: ec.call_id.clone() })
        },
    };
    close_call(escrow_balance, payer_balance);
    Ok(settled)
}

} // verus!
