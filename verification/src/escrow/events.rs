use vstd::prelude::*;

verus! {

/// The call was delivered in full at `ts`.
#[derive(Clone, Debug, PartialEq, Eq)]
pub struct Fulfilled {
    pub call_id: String,
    pub ts: u64,
}

/// The call was settled in the provider's favour.
#[derive(Clone, Debug, PartialEq, Eq)]
pub struct Released {
    pub call_id: String,
}

/// The call was settled in the payer's favour.
#[derive(Clone, Debug, PartialEq, Eq)]
pub struct Refunded {
    pub call_id: String,
}

/// The payer disputed the call.
#[derive(Clone, Debug, PartialEq, Eq)]
pub struct Disputed {
    pub call_id: String,
    pub kind: u8,
    pub reason_hash: [u8; 32],
}

/// Some of the call's units were delivered and paid.
#[derive(Clone, Debug, PartialEq, Eq)]
pub struct PartialReleased {
    pub call_id: String,
    pub units: u64,
    pub total_units: u64,
}

/// The digest and proof of the delivery that completed the call.
#[derive(Clone, Debug, PartialEq, Eq)]
pub struct TraceSaved {
    pub call_id: String,
    pub response_hash: [u8; 32],
    pub provider_sig: Vec<u8>,
}

/// How a call was settled, as the notification to send.
#[derive(Clone, Debug, PartialEq, Eq)]
pub enum Settled {
    Released(Released),
    Refunded(Refunded),
}

} // verus!
