//! The stateless operation set of the escrow engine: bootstrap,
//! create, release, refund.
//!
//! Each operation validates, updates the records it was handed, and
//! returns the transfer legs the hosting ledger must execute. On any
//! error nothing is mutated and no leg is returned, so an operation
//! commits as a whole or not at all.

use vstd::prelude::*;
use crate::errors::EscrowError;
use crate::fees::fee_of;
use crate::fees::fulfillment_of;
use crate::fees::split_fee;
use crate::state::can_settle;
use crate::state::status_step;
use crate::state::AccountId;
use crate::state::Escrow;
use crate::state::EscrowConfig;
use crate::state::EscrowStatus;
use crate::state::TransferInstruction;
use crate::state::MAX_FEE_BPS;
use crate::state::MAX_ORDER_ID_BYTES;

verus! {

/// Bootstrap the singleton configuration. Runs once; the storage layer
/// guarantees a second run never persists (create-if-absent). Rejects a
/// fee rate above `MAX_FEE_BPS`; on rejection no configuration exists
/// to persist. Both running totals start at zero.
pub fn initialize(
    admin: AccountId,
    treasury: AccountId,
    fulfillment_vault: AccountId,
    treasury_fee_bps: u16,
) -> (r: Result<EscrowConfig, EscrowError>)
    ensures
        r is Ok <==> treasury_fee_bps <= MAX_FEE_BPS,
        match r {
            Ok(c) => c == (EscrowConfig {
                admin,
                treasury,
                fulfillment_vault,
                treasury_fee_bps,
                total_deposits: 0,
                total_released: 0,
            }) && c.wf(),
            Err(e) => e == EscrowError::FeeTooHigh,
        },
{
    if treasury_fee_bps > MAX_FEE_BPS {
        return Err(EscrowError::FeeTooHigh);
    }
    Ok(
        EscrowConfig {
            admin,
            treasury,
            fulfillment_vault,
            treasury_fee_bps,
            total_deposits: 0,
            total_released: 0,
        },
    )
}

/// Create a new locked deposit for an order.
///
/// Validates the order id length (one to `MAX_ORDER_ID_BYTES` bytes;
/// an empty id is rejected) and a positive amount, splits the fee at
/// the configured rate, and adds the amount to the deposit total with
/// a checked add. On success it returns the new record together
/// with the single funding leg (buyer's funding source into the
/// record's dedicated holding); on any error the configuration is
/// untouched and there is no record and no leg. Uniqueness of the
/// `(order_id, buyer)` key is the storage layer's create-if-absent
/// guarantee, not re-checked here.
pub fn create_escrow(
    config: &mut EscrowConfig,
    buyer: AccountId,
    funding_source: AccountId,
    vault: AccountId,
    order_id: Vec<u8>,
    amount: u64,
    now: i64,
) -> (r: Result<(Escrow, TransferInstruction), EscrowError>)
    requires
        old(config).wf(),
    ensures
        final(config).wf(),
        final(config).total_deposits >= old(config).total_deposits,
        final(config).total_released == old(config).total_released,
        r is Ok <==> (1 <= order_id@.len() <= MAX_ORDER_ID_BYTES && amount > 0 && old(
            config,
        ).total_deposits + amount <= u64::MAX),
        match r {
            Ok(p) => {
                &&& p.0.buyer == buyer
                &&& p.0.funding_source == funding_source
                &&& p.0.vault == vault
                &&& p.0.order_id@ == order_id@
                &&& p.0.amount == amount
                &&& p.0.fee_amount == fee_of(amount, old(config).treasury_fee_bps)
                &&& p.0.fulfillment_amount == fulfillment_of(amount, old(config).treasury_fee_bps)
                &&& p.0.fee_amount + p.0.fulfillment_amount == amount
                &&& p.0.status == EscrowStatus::Locked
                &&& p.0.created_at == now
                &&& p.0.released_at is None
                &&& p.0.wf()
                &&& p.1 == (TransferInstruction { from: funding_source, to: vault, amount })
                &&& final(config).total_deposits == old(config).total_deposits + amount
                &&& final(config).admin == old(config).admin
                &&& final(config).treasury == old(config).treasury
                &&& final(config).fulfillment_vault == old(config).fulfillment_vault
                &&& final(config).treasury_fee_bps == old(config).treasury_fee_bps
                &&& final(config).total_released == old(config).total_released
            },
            Err(e) => {
                &&& *final(config) == *old(config)
                &&& (e == EscrowError::OrderIdTooLong <==> order_id@.len() > MAX_ORDER_ID_BYTES)
                &&& (e == EscrowError::OrderIdEmpty <==> order_id@.len() == 0)
                &&& (e == EscrowError::InvalidAmount <==> (1 <= order_id@.len()
                    <= MAX_ORDER_ID_BYTES && amount == 0))
                &&& (e == EscrowError::Overflow <==> (1 <= order_id@.len() <= MAX_ORDER_ID_BYTES
                    && amount > 0 && old(config).total_deposits + amount > u64::MAX))
            },
        },
{
    if order_id.len() > MAX_ORDER_ID_BYTES {
        return Err(EscrowError::OrderIdTooLong);
    }
    if order_id.len() == 0 {
        return Err(EscrowError::OrderIdEmpty);
    }
    if amount == 0 {
        return Err(EscrowError::InvalidAmount);
    }
    if config.total_deposits > u64::MAX - amount {
        return Err(EscrowError::Overflow);
    }
    let (fee_amount, fulfillment_amount) = split_fee(amount, config.treasury_fee_bps);
    config.total_deposits = config.total_deposits + amount;
    let escrow = Escrow {
        buyer,
        funding_source,
        vault,
        order_id,
        amount,
        fee_amount,
        fulfillment_amount,
        status: EscrowStatus::Locked,
        created_at: now,
        released_at: None,
    };
    let funding_leg = TransferInstruction { from: funding_source, to: vault, amount };
    Ok((escrow, funding_leg))
}

/// Release a locked deposit after fulfillment was confirmed.
///
/// Only the configured admin may call, and the claimed destinations
/// must equal the configured ones exactly. The record must still be
/// `Locked`. On success the record becomes `Released`, the released
/// total grows by the full amount (checked add), and the two payout
/// legs are returned — the fee to the treasury and the fulfillment
/// share to the fulfillment destination, both drawn from the record's
/// own holding. The two legs are one atomic composite: the hosting
/// ledger must commit both or neither. On any error both the record and
/// the configuration are untouched.
pub fn release_escrow(
    config: &mut EscrowConfig,
    escrow: &mut Escrow,
    caller: AccountId,
    treasury: AccountId,
    fulfillment_vault: AccountId,
    now: i64,
) -> (r: Result<(TransferInstruction, TransferInstruction), EscrowError>)
    requires
        old(escrow).wf(),
    ensures
        final(escrow).wf(),
        status_step(old(escrow).status, final(escrow).status),
        final(config).total_released >= old(config).total_released,
        final(config).total_deposits == old(config).total_deposits,
        r is Ok <==> (caller == old(config).admin && treasury == old(config).treasury
            && fulfillment_vault == old(config).fulfillment_vault && can_settle(
            old(escrow).status,
        ) && old(config).total_released + old(escrow).amount <= u64::MAX),
        match r {
            Ok(legs) => {
                &&& legs.0 == (TransferInstruction {
                    from: old(escrow).vault,
                    to: treasury,
                    amount: old(escrow).fee_amount,
                })
                &&& legs.1 == (TransferInstruction {
                    from: old(escrow).vault,
                    to: fulfillment_vault,
                    amount: old(escrow).fulfillment_amount,
                })
                &&& legs.0.amount + legs.1.amount == old(escrow).amount
                &&& final(escrow).status == EscrowStatus::Released
                &&& final(escrow).released_at == Some(now)
                &&& final(escrow).buyer == old(escrow).buyer
                &&& final(escrow).funding_source == old(escrow).funding_source
                &&& final(escrow).vault == old(escrow).vault
                &&& final(escrow).order_id@ == old(escrow).order_id@
                &&& final(escrow).amount == old(escrow).amount
                &&& final(escrow).fee_amount == old(escrow).fee_amount
                &&& final(escrow).fulfillment_amount == old(escrow).fulfillment_amount
                &&& final(escrow).created_at == old(escrow).created_at
                &&& final(config).total_released == old(config).total_released + old(escrow).amount
                &&& final(config).admin == old(config).admin
                &&& final(config).treasury == old(config).treasury
                &&& final(config).fulfillment_vault == old(config).fulfillment_vault
                &&& final(config).treasury_fee_bps == old(config).treasury_fee_bps
                &&& final(config).total_deposits == old(config).total_deposits
            },
            Err(e) => {
                &&& *final(config) == *old(config)
                &&& *final(escrow) == *old(escrow)
                &&& (e == EscrowError::Unauthorized <==> caller != old(config).admin)
                &&& (e == EscrowError::DestinationMismatch <==> (caller == old(config).admin && (
                treasury != old(config).treasury || fulfillment_vault != old(
                    config,
                ).fulfillment_vault)))
                &&& (e == EscrowError::InvalidStatus <==> (caller == old(config).admin && treasury
                    == old(config).treasury && fulfillment_vault == old(config).fulfillment_vault
                    && !can_settle(old(escrow).status)))
                &&& (e == EscrowError::Overflow <==> (caller == old(config).admin && treasury
                    == old(config).treasury && fulfillment_vault == old(config).fulfillment_vault
                    && can_settle(old(escrow).status) && old(config).total_released + old(
                    escrow,
                ).amount > u64::MAX))
            },
        },
{
    if caller != config.admin {
        return Err(EscrowError::Unauthorized);
    }
    if treasury != config.treasury || fulfillment_vault != config.fulfillment_vault {
        return Err(EscrowError::DestinationMismatch);
    }
    if escrow.status != EscrowStatus::Locked {
        return Err(EscrowError::InvalidStatus);
    }
    if config.total_released > u64::MAX - escrow.amount {
        return Err(EscrowError::Overflow);
    }
    let fee_leg = TransferInstruction {
        from: escrow.vault,
        to: treasury,
        amount: escrow.fee_amount,
    };
    let fulfillment_leg = TransferInstruction {
        from: escrow.vault,
        to: fulfillment_vault,
        amount: escrow.fulfillment_amount,
    };
    config.total_released = config.total_released + escrow.amount;
    escrow.status = EscrowStatus::Released;
    escrow.released_at = Some(now);
    Ok((fee_leg, fulfillment_leg))
}

/// Refund a locked deposit to its buyer after the order failed.
///
/// Only the configured admin may call, and the claimed destination must
/// equal the funding source the deposit originally came from. The
/// record must still be `Locked`. On success the record becomes
/// `Refunded` and the single leg returned moves the full original
/// amount from the record's holding back to the buyer; the running
/// totals are left unchanged. On any error the record is untouched.
pub fn refund_escrow(
    config: &EscrowConfig,
    escrow: &mut Escrow,
    caller: AccountId,
    destination: AccountId,
    now: i64,
) -> (r: Result<TransferInstruction, EscrowError>)
    requires
        old(escrow).wf(),
    ensures
        final(escrow).wf(),
        status_step(old(escrow).status, final(escrow).status),
        r is Ok <==> (caller == config.admin && destination == old(escrow).funding_source
            && can_settle(old(escrow).status)),
        match r {
            Ok(leg) => {
                &&& leg == (TransferInstruction {
                    from: old(escrow).vault,
                    to: destination,
                    amount: old(escrow).amount,
                })
                &&& final(escrow).status == EscrowStatus::Refunded
                &&& final(escrow).released_at == Some(now)
                &&& final(escrow).buyer == old(escrow).buyer
                &&& final(escrow).funding_source == old(escrow).funding_source
                &&& final(escrow).vault == old(escrow).vault
                &&& final(escrow).order_id@ == old(escrow).order_id@
                &&& final(escrow).amount == old(escrow).amount
                &&& final(escrow).fee_amount == old(escrow).fee_amount
                &&& final(escrow).fulfillment_amount == old(escrow).fulfillment_amount
                &&& final(escrow).created_at == old(escrow).created_at
            },
            Err(e) => {
                &&& *final(escrow) == *old(escrow)
                &&& (e == EscrowError::Unauthorized <==> caller != config.admin)
                &&& (e == EscrowError::DestinationMismatch <==> (caller == config.admin
                    && destination != old(escrow).funding_source))
                &&& (e == EscrowError::InvalidStatus <==> (caller == config.admin && destination
                    == old(escrow).funding_source && !can_settle(old(escrow).status)))
            },
        },
{
    if caller != config.admin {
        return Err(EscrowError::Unauthorized);
    }
    if destination != escrow.funding_source {
        return Err(EscrowError::DestinationMismatch);
    }
    if escrow.status != EscrowStatus::Locked {
        return Err(EscrowError::InvalidStatus);
    }
    let refund_leg = TransferInstruction {
        from: escrow.vault,
        to: destination,
        amount: escrow.amount,
    };
    escrow.status = EscrowStatus::Refunded;
    escrow.released_at = Some(now);
    Ok(refund_leg)
}

} // verus!
