//! End-to-end scenarios over the escrow engine: bootstrap, create,
//! release, refund, and the terminal-state rules.

use soltok_escrow::engine::create_escrow;
use soltok_escrow::engine::initialize;
use soltok_escrow::engine::refund_escrow;
use soltok_escrow::engine::release_escrow;
use soltok_escrow::errors::EscrowError;
use soltok_escrow::state::AccountId;
use soltok_escrow::state::Escrow;
use soltok_escrow::state::EscrowConfig;
use soltok_escrow::state::EscrowStatus;

fn admin() -> AccountId {
    AccountId { id: 1 }
}

fn treasury() -> AccountId {
    AccountId { id: 2 }
}

fn fulfillment() -> AccountId {
    AccountId { id: 3 }
}

fn buyer() -> AccountId {
    AccountId { id: 4 }
}

fn funding() -> AccountId {
    AccountId { id: 5 }
}

fn vault() -> AccountId {
    AccountId { id: 6 }
}

fn fresh_config(fee_bps: u16) -> EscrowConfig {
    initialize(admin(), treasury(), fulfillment(), fee_bps).expect("bootstrap should succeed")
}

fn locked_escrow(config: &mut EscrowConfig, order_id: &[u8], amount: u64) -> Escrow {
    let (escrow, funding_leg) = create_escrow(
        config,
        buyer(),
        funding(),
        vault(),
        order_id.to_vec(),
        amount,
        1_700_000_000,
    )
    .expect("create should succeed");
    assert_eq!(funding_leg.from, funding());
    assert_eq!(funding_leg.to, vault());
    assert_eq!(funding_leg.amount, amount);
    escrow
}

#[test]
fn scenario_a_create_splits_fee() {
    let mut config = fresh_config(500);
    assert_eq!(config.total_deposits, 0);
    assert_eq!(config.total_released, 0);
    let escrow = locked_escrow(&mut config, b"ORD1", 1_000_000);
    assert_eq!(escrow.fee_amount, 50_000);
    assert_eq!(escrow.fulfillment_amount, 950_000);
    assert_eq!(escrow.amount, 1_000_000);
    assert_eq!(escrow.status, EscrowStatus::Locked);
    assert_eq!(escrow.released_at, None);
    assert_eq!(config.total_deposits, 1_000_000);
    assert_eq!(config.total_released, 0);
}

#[test]
fn scenario_b_release_pays_both_destinations() {
    let mut config = fresh_config(500);
    let mut escrow = locked_escrow(&mut config, b"ORD1", 1_000_000);
    let (fee_leg, fulfillment_leg) =
        release_escrow(&mut config, &mut escrow, admin(), treasury(), fulfillment(), 1_700_000_100)
            .expect("release should succeed");
    assert_eq!(fee_leg.from, vault());
    assert_eq!(fee_leg.to, treasury());
    assert_eq!(fee_leg.amount, 50_000);
    assert_eq!(fulfillment_leg.from, vault());
    assert_eq!(fulfillment_leg.to, fulfillment());
    assert_eq!(fulfillment_leg.amount, 950_000);
    assert_eq!(escrow.status, EscrowStatus::Released);
    assert_eq!(escrow.released_at, Some(1_700_000_100));
    assert_eq!(config.total_released, 1_000_000);
    assert_eq!(config.total_deposits, 1_000_000);
}

#[test]
fn scenario_c_rounding_favors_fulfillment() {
    let mut config = fresh_config(500);
    let escrow = locked_escrow(&mut config, b"ORD2", 7);
    assert_eq!(escrow.fee_amount, 0);
    assert_eq!(escrow.fulfillment_amount, 7);
}

#[test]
fn scenario_d_refund_returns_full_amount() {
    let mut config = fresh_config(500);
    let mut escrow = locked_escrow(&mut config, b"ORD3", 123_456);
    let deposits_before = config.total_deposits;
    let leg = refund_escrow(&config, &mut escrow, admin(), funding(), 1_700_000_200)
        .expect("refund should succeed");
    assert_eq!(leg.from, vault());
    assert_eq!(leg.to, funding());
    assert_eq!(leg.amount, 123_456);
    assert_eq!(escrow.status, EscrowStatus::Refunded);
    assert_eq!(escrow.released_at, Some(1_700_000_200));
    assert_eq!(config.total_deposits, deposits_before);
    assert_eq!(config.total_released, 0);
}

#[test]
fn release_twice_rejected_and_state_kept() {
    let mut config = fresh_config(500);
    let mut escrow = locked_escrow(&mut config, b"ORD1", 1_000_000);
    release_escrow(&mut config, &mut escrow, admin(), treasury(), fulfillment(), 10)
        .expect("first release should succeed");
    let config_after_first = config;
    let second = release_escrow(&mut config, &mut escrow, admin(), treasury(), fulfillment(), 20);
    assert_eq!(second, Err(EscrowError::InvalidStatus));
    assert_eq!(config, config_after_first);
    assert_eq!(escrow.status, EscrowStatus::Released);
    assert_eq!(escrow.released_at, Some(10));
}

#[test]
fn refunded_never_released_and_vice_versa() {
    let mut config = fresh_config(500);

    let mut refunded = locked_escrow(&mut config, b"A", 1_000);
    refund_escrow(&config, &mut refunded, admin(), funding(), 10).expect("refund should succeed");
    let r = release_escrow(&mut config, &mut refunded, admin(), treasury(), fulfillment(), 20);
    assert_eq!(r, Err(EscrowError::InvalidStatus));
    assert_eq!(refunded.status, EscrowStatus::Refunded);

    let mut released = locked_escrow(&mut config, b"B", 1_000);
    release_escrow(&mut config, &mut released, admin(), treasury(), fulfillment(), 30)
        .expect("release should succeed");
    let r = refund_escrow(&config, &mut released, admin(), funding(), 40);
    assert_eq!(r, Err(EscrowError::InvalidStatus));
    assert_eq!(released.status, EscrowStatus::Released);
    assert_eq!(released.released_at, Some(30));
}

#[test]
fn non_admin_settlement_rejected() {
    let mut config = fresh_config(500);
    let mut escrow = locked_escrow(&mut config, b"ORD1", 1_000_000);
    let intruder = AccountId { id: 99 };
    let config_before = config;

    let r = release_escrow(&mut config, &mut escrow, intruder, treasury(), fulfillment(), 10);
    assert_eq!(r, Err(EscrowError::Unauthorized));
    assert_eq!(config, config_before);
    assert_eq!(escrow.status, EscrowStatus::Locked);
    assert_eq!(escrow.released_at, None);

    let r = refund_escrow(&config, &mut escrow, intruder, funding(), 10);
    assert_eq!(r, Err(EscrowError::Unauthorized));
    assert_eq!(escrow.status, EscrowStatus::Locked);

    // Status plays no role: a settled record still answers Unauthorized first.
    release_escrow(&mut config, &mut escrow, admin(), treasury(), fulfillment(), 20)
        .expect("release should succeed");
    let r = release_escrow(&mut config, &mut escrow, intruder, treasury(), fulfillment(), 30);
    assert_eq!(r, Err(EscrowError::Unauthorized));
}

#[test]
fn release_to_wrong_destination_rejected() {
    let mut config = fresh_config(500);
    let mut escrow = locked_escrow(&mut config, b"ORD1", 1_000_000);
    let elsewhere = AccountId { id: 77 };

    let r = release_escrow(&mut config, &mut escrow, admin(), elsewhere, fulfillment(), 10);
    assert_eq!(r, Err(EscrowError::DestinationMismatch));
    let r = release_escrow(&mut config, &mut escrow, admin(), treasury(), elsewhere, 10);
    assert_eq!(r, Err(EscrowError::DestinationMismatch));
    assert_eq!(escrow.status, EscrowStatus::Locked);

    let r = refund_escrow(&config, &mut escrow, admin(), elsewhere, 10);
    assert_eq!(r, Err(EscrowError::DestinationMismatch));
    assert_eq!(escrow.status, EscrowStatus::Locked);
}

#[test]
fn released_total_overflow_rejected() {
    let mut config = fresh_config(0);
    let mut escrow = locked_escrow(&mut config, b"ORD1", 2);
    config.total_released = u64::MAX - 1;
    let config_before = config;
    let r = release_escrow(&mut config, &mut escrow, admin(), treasury(), fulfillment(), 10);
    assert_eq!(r, Err(EscrowError::Overflow));
    assert_eq!(config, config_before);
    assert_eq!(escrow.status, EscrowStatus::Locked);
}

#[test]
fn default_status_is_locked() {
    assert_eq!(EscrowStatus::default(), EscrowStatus::Locked);
}
