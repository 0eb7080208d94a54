use crate::escrow::record::{CallModel, EscrowCall, SettlementOutcome};
use vstd::prelude::*;

verus! {

/// Time from `from` to `to`, and zero where `to` is the earlier of the two.
pub open spec fn elapsed(from: nat, to: nat) -> nat {
    if to >= from {
        (to - from) as nat
    } else {
        0
    }
}

impl CallModel {
    /// Delivered, and no later than the SLA allows after the call's start.
    pub open spec fn delivered_within_sla(self) -> bool {
        match self.delivered_ts {
            Some(ts) => elapsed(self.start_ts, ts) <= self.sla_ms,
            None => false,
        }
    }

    /// The time for raising a dispute is over at `now`. For a call that was
    /// never delivered it always is.
    pub open spec fn dispute_window_elapsed(self, now: nat) -> bool {
        match self.delivered_ts {
            Some(ts) => elapsed(ts, now) >= self.dispute_window_s,
            None => true,
        }
    }

    /// The outcome of settling the call at `now`.
    pub open spec fn settlement_outcome(self, now: nat) -> SettlementOutcome {
        if !self.disputed && self.delivered_within_sla() && self.dispute_window_elapsed(now) {
            SettlementOutcome::Release
        } else {
            SettlementOutcome::Refund
        }
    }
}

/// Decides between release and refund from the call's delivery time and its
/// dispute flag.
pub fn evaluate_settlement(ec: &EscrowCall, now: u64) -> (outcome: SettlementOutcome)
    ensures
        outcome == ec@.settlement_outcome(now as nat),
        ec.disputed ==> outcome == SettlementOutcome::Refund,
        ec.delivered_ts is None ==> outcome == SettlementOutcome::Refund,
        ec.delivered_ts matches Some(ts) && elapsed(ec.start_ts as nat, ts as nat) > ec.sla_ms
            ==> outcome == SettlementOutcome::Refund,
        ec.delivered_ts matches Some(ts) && elapsed(ts as nat, now as nat) < ec.dispute_window_s
            ==> outcome == SettlementOutcome::Refund,
{
    let delivered_within_sla = match ec.delivered_ts {
        Some(ts) => ts.saturating_sub(ec.start_ts) <= ec.sla_ms,
        None => false,
    };
    let dispute_window_elapsed = match ec.delivered_ts {
        Some(ts) => now.saturating_sub(ts) >= ec.dispute_window_s,
        None => true,
    };
    if !ec.disputed && delivered_within_sla && dispute_window_elapsed {
        SettlementOutcome::Release
    } else {
        SettlementOutcome::Refund
    }
}

} // verus!
