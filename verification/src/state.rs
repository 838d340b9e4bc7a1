//! Data model: identities, configuration, escrow records, and the
//! settlement state machine.

use vstd::prelude::*;

verus! {

/// Identity of a principal or of a funds holding. The engine only ever
/// compares identities for equality, so an opaque numeric id is enough.
#[derive(Clone, Copy, PartialEq, Eq, Structural, Debug, Hash)]
pub struct AccountId {
    pub id: u64,
}

/// Highest fee rate the configuration accepts, in basis points (10%).
pub const MAX_FEE_BPS: u16 = 1000;

/// Longest order id accepted, in bytes of its UTF-8 encoding.
pub const MAX_ORDER_ID_BYTES: usize = 32;

/// Lifecycle status of one escrow record. `Locked` is the initial and
/// only non-terminal state.
#[derive(Clone, Copy, PartialEq, Eq, Structural, Debug)]
pub enum EscrowStatus {
    Locked,
    Released,
    Refunded,
}

impl Default for EscrowStatus {
    fn default() -> (r: Self)
        ensures
            r == EscrowStatus::Locked,
    {
        EscrowStatus::Locked
    }
}

/// A settlement (release or refund) is allowed only while the deposit
/// is still locked.
pub open spec fn can_settle(s: EscrowStatus) -> bool {
    s == EscrowStatus::Locked
}

/// `Released` and `Refunded` admit no further transition.
pub open spec fn is_terminal(s: EscrowStatus) -> bool {
    !can_settle(s)
}

/// The transition relation of the settlement state machine: every
/// engine operation either leaves a record's status unchanged or moves
/// it from `Locked` to one of the two terminal states.
pub open spec fn status_step(pre: EscrowStatus, post: EscrowStatus) -> bool {
    ||| post == pre
    ||| (can_settle(pre) && (post == EscrowStatus::Released || post == EscrowStatus::Refunded))
}

/// Law: a settled deposit never changes status again. In particular a
/// `Refunded` record can never become `Released`, nor the reverse.
pub proof fn lemma_terminal_is_final(pre: EscrowStatus, post: EscrowStatus)
    requires
        is_terminal(pre),
        status_step(pre, post),
    ensures
        post == pre,
{
}

/// Law: transitions compose, so `status_step` also bounds what any
/// sequence of engine operations can do to a record.
pub proof fn lemma_status_step_trans(a: EscrowStatus, b: EscrowStatus, c: EscrowStatus)
    requires
        status_step(a, b),
        status_step(b, c),
    ensures
        status_step(a, c),
{
}

/// Law: once a record is in a terminal state, every later status in any
/// chain of engine operations is that same state.
pub proof fn lemma_no_cross_settlement(trace: Seq<EscrowStatus>)
    requires
        trace.len() > 0,
        forall|i: int| 0 <= i < trace.len() - 1 ==> #[trigger] status_step(trace[i], trace[i + 1]),
        is_terminal(trace[0]),
    ensures
        forall|i: int| 0 <= i < trace.len() ==> #[trigger] trace[i] == trace[0],
    decreases trace.len(),
{
    if trace.len() > 1 {
        let sub = trace.subrange(1, trace.len() as int);
        let z: int = 0;
        assert(status_step(trace[z], trace[z + 1]));
        lemma_terminal_is_final(trace[0], trace[1]);
        assert forall|i: int| 0 <= i < sub.len() - 1 implies #[trigger] status_step(
            sub[i],
            sub[i + 1],
        ) by {
            assert(sub[i] == trace[i + 1]);
            assert(sub[i + 1] == trace[(i + 1) + 1]);
            assert(status_step(trace[i + 1], trace[(i + 1) + 1]));
        }
        lemma_no_cross_settlement(sub);
        assert forall|i: int| 0 <= i < trace.len() implies #[trigger] trace[i] == trace[0] by {
            if i > 0 {
                assert(sub[i - 1] == trace[i]);
            }
        }
    }
}

/// Singleton configuration: the admin allowed to settle, the two payout
/// destinations, the fee rate, and the running totals.
#[derive(Clone, Copy, PartialEq, Eq, Structural, Debug)]
pub struct EscrowConfig {
    pub admin: AccountId,
    pub treasury: AccountId,
    pub fulfillment_vault: AccountId,
    pub treasury_fee_bps: u16,
    pub total_deposits: u64,
    pub total_released: u64,
}

impl EscrowConfig {
    /// Invariant established at bootstrap and preserved for life: the
    /// fee rate never exceeds the maximum.
    pub open spec fn wf(self) -> bool {
        self.treasury_fee_bps <= MAX_FEE_BPS
    }
}

/// One escrow record per deposit. Created `Locked`, mutated exactly
/// once thereafter (to `Released` or `Refunded`), never deleted.
#[derive(Clone, Debug, PartialEq, Eq)]
pub struct Escrow {
    pub buyer: AccountId,
    /// The buyer's funding source the deposit came from; a refund must
    /// go back exactly here.
    pub funding_source: AccountId,
    /// The dedicated holding that owns this deposit's funds between
    /// creation and settlement.
    pub vault: AccountId,
    pub order_id: Vec<u8>,
    pub amount: u64,
    pub fee_amount: u64,
    pub fulfillment_amount: u64,
    pub status: EscrowStatus,
    pub created_at: i64,
    pub released_at: Option<i64>,
}

impl Escrow {
    /// Record invariant: the order id is one to `MAX_ORDER_ID_BYTES`
    /// bytes, the deposit is positive, the fee split conserves the
    /// amount exactly, and the settlement timestamp is present
    /// precisely once settled.
    pub open spec fn wf(self) -> bool {
        &&& 1 <= self.order_id@.len() <= MAX_ORDER_ID_BYTES
        &&& self.amount > 0
        &&& self.fee_amount + self.fulfillment_amount == self.amount
        &&& (self.status == EscrowStatus::Locked <==> self.released_at is None)
    }
}

/// One transfer leg the hosting ledger must execute: move `amount` from
/// the holding `from` to the holding `to`.
#[derive(Clone, Copy, PartialEq, Eq, Structural, Debug)]
pub struct TransferInstruction {
    pub from: AccountId,
    pub to: AccountId,
    pub amount: u64,
}

} // verus!
