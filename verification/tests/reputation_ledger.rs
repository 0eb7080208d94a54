use anchor_lang::prelude::Pubkey;
use settlement_core::identity::IdentityKey;
use settlement_core::reputation::bond::{
    bond_deposit, bond_slash, bond_withdraw, pay_out, settlement_authority,
};
use settlement_core::reputation::latency::update_latency;
use settlement_core::reputation::outcome::{outcome_kind, update_weighted, OutcomeKind};
use settlement_core::reputation::service::{ReputationError, Service};
use std::str::FromStr;

const EWMA_ALPHA: f64 = 0.2;
const QUANTILE_INC: f64 = 0.05;
const QUANTILE_DEC: f64 = 0.01;

struct Weights {
    ok: f32,
    late: f32,
    disputed: f32,
}

fn no_weights() -> Weights {
    Weights { ok: 0.0, late: 0.0, disputed: 0.0 }
}

fn apply_outcome(weights: &mut Weights, outcome: u8, weight: f32) {
    match outcome_kind(outcome) {
        Some(OutcomeKind::OnTime) => weights.ok += weight,
        Some(OutcomeKind::Late) => weights.late += weight,
        Some(OutcomeKind::Disputed) => weights.disputed += weight,
        None => {}
    }
}

fn smoothed(svc: &Service, sample_ms: u64) -> (u64, u64) {
    let sample = sample_ms as f64;
    let current_ewma = svc.ewma_latency_ms as f64;
    let ewma = EWMA_ALPHA * sample + (1.0 - EWMA_ALPHA) * current_ewma;
    let current_p95 = svc.p95_est_ms as f64;
    let diff = sample - current_p95;
    let next_p95 = if diff >= 0.0 {
        current_p95 + diff * QUANTILE_INC
    } else {
        current_p95 + diff * QUANTILE_DEC
    };
    (ewma.round().clamp(0.0, f64::MAX) as u64, next_p95.max(0.0).round() as u64)
}

fn record(svc: &mut Service, sample_ms: u64) {
    let (ewma, p95) = smoothed(svc, sample_ms);
    svc.record_latency(sample_ms, ewma, p95);
}

fn key(tag: u8) -> IdentityKey {
    IdentityKey::new([tag; 32])
}

#[test]
fn applies_ok_outcome() {
    let mut svc = no_weights();
    apply_outcome(&mut svc, 0, 0.5);
    assert!((svc.ok - 0.5).abs() < f32::EPSILON);
    assert_eq!(svc.late, 0.0);
    assert_eq!(svc.disputed, 0.0);
}

#[test]
fn applies_other_outcomes() {
    let mut svc = no_weights();
    apply_outcome(&mut svc, 1, 1.0);
    apply_outcome(&mut svc, 2, 0.25);
    assert_eq!(svc.ok, 0.0);
    assert!((svc.late - 1.0).abs() < f32::EPSILON);
    assert!((svc.disputed - 0.25).abs() < f32::EPSILON);
}

#[test]
fn record_latency_initialises_and_tracks() {
    let mut svc = Service::default();
    record(&mut svc, 150);
    assert_eq!(svc.ewma_latency_ms, 150);
    assert_eq!(svc.p95_est_ms, 150);
    assert_eq!(svc.latency_samples, 1);

    record(&mut svc, 450);
    assert_eq!(svc.latency_samples, 2);
    assert!(svc.ewma_latency_ms >= 150);
    assert!(svc.p95_est_ms >= 150);
}

#[test]
fn unknown_outcome_codes_are_passed_over() {
    assert_eq!(outcome_kind(0), Some(OutcomeKind::OnTime));
    assert_eq!(outcome_kind(1), Some(OutcomeKind::Late));
    assert_eq!(outcome_kind(2), Some(OutcomeKind::Disputed));
    assert_eq!(outcome_kind(3), None);
    assert_eq!(outcome_kind(255), None);
    let mut svc = no_weights();
    apply_outcome(&mut svc, 3, 1.0);
    assert_eq!((svc.ok, svc.late, svc.disputed), (0.0, 0.0, 0.0));
}

#[test]
fn default_service_is_unowned_and_empty() {
    let svc = Service::default();
    assert_eq!(
        svc,
        Service {
            owner: IdentityKey::new([0u8; 32]),
            bond_balance: 0,
            ewma_latency_ms: 0,
            p95_est_ms: 0,
            latency_samples: 0,
        }
    );
    assert!(svc.owner.is_unset());
    assert_eq!(svc.owner.bytes, Pubkey::default().to_bytes());
}

#[test]
fn first_sample_ignores_the_smoothed_values() {
    let mut svc = Service::default();
    svc.ewma_latency_ms = 7;
    svc.p95_est_ms = 9;
    svc.record_latency(150, 1, 2);
    assert_eq!((svc.ewma_latency_ms, svc.p95_est_ms, svc.latency_samples), (150, 150, 1));
    svc.record_latency(450, 210, 165);
    assert_eq!((svc.ewma_latency_ms, svc.p95_est_ms, svc.latency_samples), (210, 165, 2));
}

#[test]
fn smoothing_follows_the_two_rates() {
    let mut svc = Service::default();
    record(&mut svc, 150);
    record(&mut svc, 450);
    assert_eq!((svc.ewma_latency_ms, svc.p95_est_ms), (210, 165));
    record(&mut svc, 65);
    assert_eq!((svc.ewma_latency_ms, svc.p95_est_ms), (181, 164));
    assert_eq!(svc.latency_samples, 3);
}

#[test]
fn sample_count_stays_at_the_largest() {
    let mut svc = Service::default();
    svc.latency_samples = u64::MAX - 1;
    svc.record_latency(5, 6, 7);
    assert_eq!(svc.latency_samples, u64::MAX);
    svc.record_latency(5, 6, 7);
    assert_eq!(svc.latency_samples, u64::MAX);
    assert_eq!((svc.ewma_latency_ms, svc.p95_est_ms), (6, 7));
}

#[test]
fn first_caller_becomes_the_owner() {
    let mut svc = Service::default();
    assert_eq!(svc.authorize_owner(&key(4)), Ok(()));
    assert_eq!(svc.owner, key(4));
    assert_eq!(svc.authorize_owner(&key(4)), Ok(()));
    assert_eq!(svc.authorize_owner(&key(5)), Err(ReputationError::InvalidOwner));
    assert_eq!(svc.owner, key(4));
}

#[test]
fn update_weighted_binds_and_checks_the_owner() {
    let mut svc = Service::default();
    assert_eq!(update_weighted(&mut svc, &key(4), 1), Ok(Some(OutcomeKind::Late)));
    assert_eq!(svc.owner, key(4));
    assert_eq!(update_weighted(&mut svc, &key(4), 9), Ok(None));
    let before = svc;
    assert_eq!(update_weighted(&mut svc, &key(5), 0), Err(ReputationError::InvalidOwner));
    assert_eq!(svc, before);
}

#[test]
fn update_latency_binds_and_checks_the_owner() {
    let mut svc = Service::default();
    assert_eq!(update_latency(&mut svc, &key(4), 150, 0, 0), Ok(()));
    assert_eq!(svc.owner, key(4));
    assert_eq!((svc.ewma_latency_ms, svc.p95_est_ms, svc.latency_samples), (150, 150, 1));
    let before = svc;
    assert_eq!(update_latency(&mut svc, &key(5), 450, 210, 165), Err(ReputationError::InvalidOwner));
    assert_eq!(svc, before);
    assert_eq!(update_latency(&mut svc, &key(4), 450, 210, 165), Ok(()));
    assert_eq!((svc.ewma_latency_ms, svc.p95_est_ms, svc.latency_samples), (210, 165, 2));
}

#[test]
fn bond_deposit_grows_the_bond() {
    let mut svc = Service::default();
    assert_eq!(bond_deposit(&mut svc, &key(4), 0), Err(ReputationError::InvalidAmount));
    assert!(svc.owner.is_unset());
    assert_eq!(bond_deposit(&mut svc, &key(4), 70), Ok(()));
    assert_eq!(svc.owner, key(4));
    assert_eq!(svc.bond_balance, 70);
    assert_eq!(bond_deposit(&mut svc, &key(5), 0), Err(ReputationError::InvalidAmount));
    assert_eq!(bond_deposit(&mut svc, &key(5), 1), Err(ReputationError::InvalidOwner));
    assert_eq!(svc.bond_balance, 70);
    assert_eq!(bond_deposit(&mut svc, &key(4), u64::MAX), Ok(()));
    assert_eq!(svc.bond_balance, u64::MAX);
}

#[test]
fn bond_withdraw_pays_the_owner() {
    let mut svc = Service::default();
    bond_deposit(&mut svc, &key(4), 70).unwrap();
    let mut held = 100u64;
    let mut wallet = 3u64;
    assert_eq!(bond_withdraw(&mut svc, &key(4), 30, &mut held, &mut wallet), Ok(()));
    assert_eq!(svc.bond_balance, 40);
    assert_eq!((held, wallet), (70, 33));
}

#[test]
fn bond_withdraw_refusals_in_order() {
    let mut svc = Service::default();
    bond_deposit(&mut svc, &key(4), 70).unwrap();
    let before = svc;
    let mut held = 50u64;
    let mut wallet = 3u64;
    assert_eq!(
        bond_withdraw(&mut svc, &key(5), 0, &mut held, &mut wallet),
        Err(ReputationError::InvalidAmount)
    );
    assert_eq!(
        bond_withdraw(&mut svc, &key(5), 71, &mut held, &mut wallet),
        Err(ReputationError::InvalidOwner)
    );
    assert_eq!(
        bond_withdraw(&mut svc, &key(4), 71, &mut held, &mut wallet),
        Err(ReputationError::InsufficientBond)
    );
    assert_eq!(
        bond_withdraw(&mut svc, &key(4), 60, &mut held, &mut wallet),
        Err(ReputationError::InsufficientBond)
    );
    assert_eq!(svc, before);
    assert_eq!((held, wallet), (50, 3));
    let mut unowned = Service::default();
    assert_eq!(
        bond_withdraw(&mut unowned, &key(4), 1, &mut held, &mut wallet),
        Err(ReputationError::InvalidOwner)
    );
}

#[test]
fn bond_slash_takes_no_more_than_the_bond() {
    let authority = settlement_authority();
    let mut svc = Service::default();
    bond_deposit(&mut svc, &key(4), 70).unwrap();
    let mut held = 100u64;
    let mut wallet = 0u64;
    assert_eq!(bond_slash(&mut svc, &authority, 30, &mut held, &mut wallet), Ok(30));
    assert_eq!(svc.bond_balance, 40);
    assert_eq!((held, wallet), (70, 30));
    assert_eq!(bond_slash(&mut svc, &authority, 1_000, &mut held, &mut wallet), Ok(40));
    assert_eq!(svc.bond_balance, 0);
    assert_eq!((held, wallet), (30, 70));
    assert_eq!(bond_slash(&mut svc, &authority, 5, &mut held, &mut wallet), Ok(0));
    assert_eq!(svc.bond_balance, 0);
    assert_eq!((held, wallet), (30, 70));
    assert_eq!(svc.owner, key(4));
}

#[test]
fn bond_slash_refusals_in_order() {
    let authority = settlement_authority();
    let mut svc = Service::default();
    bond_deposit(&mut svc, &key(4), 70).unwrap();
    let before = svc;
    let mut held = 20u64;
    let mut wallet = 0u64;
    assert_eq!(
        bond_slash(&mut svc, &key(4), 30, &mut held, &mut wallet),
        Err(ReputationError::InvalidAuthority)
    );
    assert_eq!(
        bond_slash(&mut svc, &authority, 30, &mut held, &mut wallet),
        Err(ReputationError::InsufficientBond)
    );
    assert_eq!(svc, before);
    assert_eq!((held, wallet), (20, 0));
    assert_eq!(bond_slash(&mut svc, &authority, 0, &mut held, &mut wallet), Ok(0));
}

#[test]
fn settlement_authority_is_the_escrow_engine() {
    let known = Pubkey::from_str("6zpAcx4Yo9MmDf4w8pBGez8bm47zyKuyjr5Y5QkC3ayL").unwrap();
    assert_eq!(settlement_authority().bytes, known.to_bytes());
}

#[test]
fn reputation_pay_out_moves_funds_or_refuses() {
    let mut held = 10u64;
    let mut wallet = 1u64;
    assert_eq!(pay_out(4, &mut held, &mut wallet), Ok(()));
    assert_eq!((held, wallet), (6, 5));
    assert_eq!(pay_out(7, &mut held, &mut wallet), Err(ReputationError::InsufficientBond));
    assert_eq!((held, wallet), (6, 5));
    assert_eq!(pay_out(0, &mut held, &mut wallet), Ok(()));
    assert_eq!((held, wallet), (6, 5));
}

#[test]
fn identity_keys_compare_by_their_bytes() {
    let a = key(1);
    let mut other = [1u8; 32];
    assert!(a.same_as(&IdentityKey::new(other)));
    other[31] = 2;
    assert!(!a.same_as(&IdentityKey::new(other)));
    assert!(IdentityKey::unset().is_unset());
    assert!(IdentityKey::default().is_unset());
    assert!(!a.is_unset());
    let mut almost = [0u8; 32];
    almost[17] = 1;
    assert!(!IdentityKey::new(almost).is_unset());
    let unique = Pubkey::new_unique();
    assert_eq!(IdentityKey::new(unique.to_bytes()).bytes, unique.to_bytes());
}
