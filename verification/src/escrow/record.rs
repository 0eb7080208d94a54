use crate::identity::IdentityKey;
use vstd::prelude::*;

verus! {

/// Longest delivery proof, in bytes, that a call record can hold.
pub const MAX_PROVIDER_SIG_LEN: usize = 128;

/// Why an escrow operation was refused. A refused operation changes nothing.
#[derive(Clone, Copy, Debug, PartialEq, Eq, Structural)]
pub enum AssuredError {
    InvalidStatus,
    InvalidProvider,
    InvalidPayer,
    InvalidReporter,
    EscrowBalanceLow,
    SignatureTooLong,
    InvalidUnits,
}

/// Where a call stands in its life. A record stores the stage as its code.
#[derive(Clone, Copy, Debug, PartialEq, Eq, Structural)]
pub enum Status {
    Init,
    Fulfilled,
    Released,
    Refunded,
}

impl Status {
    pub open spec fn code_of(self) -> u8 {
        match self {
            Status::Init => 0,
            Status::Fulfilled => 1,
            Status::Released => 2,
            Status::Refunded => 3,
        }
    }

    /// The stage that a stored code stands for, if it stands for one.
    pub open spec fn of_code(code: u8) -> Option<Status> {
        if code == 0 {
            Some(Status::Init)
        } else if code == 1 {
            Some(Status::Fulfilled)
        } else if code == 2 {
            Some(Status::Released)
        } else if code == 3 {
            Some(Status::Refunded)
        } else {
            None
        }
    }

    pub fn code(self) -> (code: u8)
        ensures
            code == self.code_of(),
            Status::of_code(code) == Some(self),
    {
        match self {
            Status::Init => 0,
            Status::Fulfilled => 1,
            Status::Released => 2,
            Status::Refunded => 3,
        }
    }

    pub fn from_code(code: u8) -> (status: Option<Status>)
        ensures
            status == Status::of_code(code),
            status matches Some(s) ==> s.code_of() == code,
            status is Some <==> code <= 3,
    {
        if code == 0 {
            Some(Status::Init)
        } else if code == 1 {
            Some(Status::Fulfilled)
        } else if code == 2 {
            Some(Status::Released)
        } else if code == 3 {
            Some(Status::Refunded)
        } else {
            None
        }
    }
}

/// What settling a call decides about its unreleased balance.
#[derive(Clone, Copy, Debug, PartialEq, Eq, Structural)]
pub enum SettlementOutcome {
    Release,
    Refund,
}

/// One escrowed, payable service invocation between a payer and a provider.
#[derive(Clone, Debug, PartialEq, Eq)]
pub struct EscrowCall {
    pub call_id: String,
    pub payer: IdentityKey,
    pub service_id: String,
    pub provider: IdentityKey,
    pub amount: u64,
    pub start_ts: u64,
    pub sla_ms: u64,
    pub dispute_window_s: u64,
    pub status: u8,
    pub delivered_ts: Option<u64>,
    pub response_hash: [u8; 32],
    pub disputed: bool,
    pub total_units: u64,
    pub units_released: u64,
    pub provider_sig: Vec<u8>,
}

/// A call record as a mathematical value: every field by its contents.
pub ghost struct CallModel {
    pub call_id: Seq<char>,
    pub payer: Seq<u8>,
    pub service_id: Seq<char>,
    pub provider: Seq<u8>,
    pub amount: nat,
    pub start_ts: nat,
    pub sla_ms: nat,
    pub dispute_window_s: nat,
    pub status: u8,
    pub delivered_ts: Option<nat>,
    pub response_hash: Seq<u8>,
    pub disputed: bool,
    pub total_units: nat,
    pub units_released: nat,
    pub provider_sig: Seq<u8>,
}

impl View for EscrowCall {
    type V = CallModel;

    open spec fn view(&self) -> CallModel {
        CallModel {
            call_id: self.call_id@,
            payer: self.payer@,
            service_id: self.service_id@,
            provider: self.provider@,
            amount: self.amount as nat,
            start_ts: self.start_ts as nat,
            sla_ms: self.sla_ms as nat,
            dispute_window_s: self.dispute_window_s as nat,
            status: self.status,
            delivered_ts: match self.delivered_ts {
                Some(ts) => Some(ts as nat),
                None => None,
            },
            response_hash: self.response_hash@,
            disputed: self.disputed,
            total_units: self.total_units as nat,
            units_released: self.units_released as nat,
            provider_sig: self.provider_sig@,
        }
    }
}

impl CallModel {
    /// What holds of every record that the operations produce.
    pub open spec fn wf(self) -> bool {
        &&& self.payer.len() == 32
        &&& self.provider.len() == 32
        &&& self.response_hash.len() == 32
        &&& self.total_units >= 1
        &&& self.units_released <= self.total_units
        &&& self.status <= 3
        &&& self.provider_sig.len() <= MAX_PROVIDER_SIG_LEN
    }

    /// Not yet settled: the stage is `Init` or `Fulfilled`.
    pub open spec fn is_open(self) -> bool {
        self.status == Status::Init.code_of() || self.status == Status::Fulfilled.code_of()
    }
}

impl EscrowCall {
    pub open spec fn wf(&self) -> bool {
        self@.wf()
    }
}

} // verus!
