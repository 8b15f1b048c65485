//! What holds of the record across whole operations.
//!
//! `after_op` is the effect of one complete operation on the slot at the
//! record's address, stated with the same functions that the operations'
//! contracts use; a payment is its check, the host's transfer (whose outcome
//! the operation carries) and its settlement.
use vstd::prelude::*;

use crate::address::{AccountKey, Address};
use crate::error::PaymentError;
use crate::program::{
    initialize_check,
    payment_order,
    set_params_check,
    Rail,
    TransferOrder,
};
use crate::storage::PaymentStorage;

verus! {

/// One complete operation on the record, with what the caller supplied.
pub enum Operation {
    Initialize { authority: AccountKey, bump: u8 },
    SetParams {
        authority: AccountKey,
        price_lamports: Option<u64>,
        price_day: Option<u64>,
        count: Option<u16>,
        max_count: Option<u16>,
        beneficiary: Option<Address>,
        beneficiary_day: Option<Address>,
        new_authority: Option<Address>,
    },
    /// A native payment; `transfer` is what the host's transfer came to,
    /// were it asked to make one.
    PayForMint { payer: AccountKey, beneficiary: Address, transfer: Result<(), u64> },
    /// A token payment; `transfer` as for a native one.
    PayForMintSpl {
        payer: AccountKey,
        from: Address,
        beneficiary_day: Address,
        transfer: Result<(), u64>,
    },
}

/// The transfer a payment operation orders, or why it is refused; `None`
/// for an operation that is no payment.
pub open spec fn order_of(s: Option<PaymentStorage>, op: Operation) -> Option<
    Result<TransferOrder, PaymentError>,
> {
    match op {
        Operation::PayForMint { payer, beneficiary, .. } => Some(
            payment_order(s, payer, payer.key, beneficiary, Rail::Native),
        ),
        Operation::PayForMintSpl { payer, from, beneficiary_day, .. } => Some(
            payment_order(s, payer, from, beneficiary_day, Rail::Token),
        ),
        _ => None,
    }
}

/// The outcome the host reports for a payment's transfer.
pub open spec fn transfer_of(op: Operation) -> Result<(), u64> {
    match op {
        Operation::PayForMint { transfer, .. } => transfer,
        Operation::PayForMintSpl { transfer, .. } => transfer,
        _ => Ok(()),
    }
}

/// The value that changes hands in an operation: the ordered transfer, where
/// one was ordered and the host carried it out.
pub open spec fn value_moved(s: Option<PaymentStorage>, op: Operation) -> Option<TransferOrder> {
    match order_of(s, op) {
        Some(Ok(order)) => if transfer_of(op) is Ok {
            Some(order)
        } else {
            None
        },
        _ => None,
    }
}

/// What the caller is told of an operation.
pub open spec fn op_outcome(s: Option<PaymentStorage>, op: Operation) -> Result<(), PaymentError> {
    match op {
        Operation::Initialize { authority, .. } => initialize_check(s, authority),
        Operation::SetParams { authority, .. } => set_params_check(s, authority),
        _ => match order_of(s, op) {
            Some(Err(e)) => Err(e),
            _ => match transfer_of(op) {
                Ok(_) => Ok(()),
                Err(code) => Err(PaymentError::TransferFailed { code }),
            },
        },
    }
}

/// The slot at the record's address after one operation.
pub open spec fn after_op(s: Option<PaymentStorage>, op: Operation) -> Option<PaymentStorage> {
    match op {
        Operation::Initialize { authority, bump } => if initialize_check(s, authority) is Ok {
            Some(PaymentStorage::spec_new(authority.key, bump))
        } else {
            s
        },
        Operation::SetParams {
            authority,
            price_lamports,
            price_day,
            count,
            max_count,
            beneficiary,
            beneficiary_day,
            new_authority,
        } => if set_params_check(s, authority) is Ok {
            Some(
                s->Some_0.spec_patched(
                    price_lamports,
                    price_day,
                    count,
                    max_count,
                    beneficiary,
                    beneficiary_day,
                    new_authority,
                ),
            )
        } else {
            s
        },
        _ => if value_moved(s, op) is Some {
            Some(s->Some_0.spec_counted())
        } else {
            s
        },
    }
}

/// The slot after a sequence of operations, in order.
pub open spec fn after_ops(s: Option<PaymentStorage>, ops: Seq<Operation>) -> Option<
    PaymentStorage,
>
    decreases ops.len(),
{
    if ops.len() == 0 {
        s
    } else {
        after_op(after_ops(s, ops.drop_last()), ops.last())
    }
}

/// No record, or one whose counter is within its cap.
pub open spec fn cap_holds(s: Option<PaymentStorage>) -> bool {
    match s {
        None => true,
        Some(rec) => rec.within_cap(),
    }
}

/// The operation is not a configuration that would itself set the counter
/// above the cap.
pub open spec fn respects_cap(s: Option<PaymentStorage>, op: Operation) -> bool {
    match op {
        Operation::SetParams {
            authority,
            price_lamports,
            price_day,
            count,
            max_count,
            beneficiary,
            beneficiary_day,
            new_authority,
        } => set_params_check(s, authority) is Ok ==> s->Some_0.spec_patched(
            price_lamports,
            price_day,
            count,
            max_count,
            beneficiary,
            beneficiary_day,
            new_authority,
        ).within_cap(),
        _ => true,
    }
}

/// An operation that respects the cap keeps a record's counter within it.
pub proof fn lemma_op_keeps_cap(s: Option<PaymentStorage>, op: Operation)
    requires
        cap_holds(s),
        respects_cap(s, op),
    ensures
        cap_holds(after_op(s, op)),
{
}

/// Starting from no record or one within its cap, the counter stays within
/// the cap after every operation of any sequence in which no configuration
/// itself sets the counter above the cap.
pub proof fn lemma_cap_holds_throughout(s: Option<PaymentStorage>, ops: Seq<Operation>)
    requires
        cap_holds(s),
        forall|i: int| 0 <= i < ops.len() ==> respects_cap(#[trigger] after_ops(s, ops.take(i)), ops[i]),
    ensures
        forall|i: int| 0 <= i <= ops.len() ==> cap_holds(#[trigger] after_ops(s, ops.take(i))),
    decreases ops.len(),
{
    if ops.len() == 0 {
        assert forall|i: int| 0 <= i <= ops.len() implies cap_holds(#[trigger] after_ops(s, ops.take(i))) by {
            assert(ops.take(i) =~= Seq::<Operation>::empty());
        }
    } else {
        let pre = ops.drop_last();
        assert forall|i: int| 0 <= i < pre.len() implies respects_cap(#[trigger] after_ops(s, pre.take(i)), pre[i]) by {
            assert(pre.take(i) =~= ops.take(i));
        }
        lemma_cap_holds_throughout(s, pre);
        assert forall|i: int| 0 <= i <= ops.len() implies cap_holds(#[trigger] after_ops(s, ops.take(i))) by {
            if i < ops.len() {
                assert(pre.take(i) =~= ops.take(i));
            } else {
                let k = ops.len() - 1;
                assert(ops.take(k) =~= pre);
                assert(pre.take(k) =~= pre);
                assert(ops.take(i) =~= ops);
                assert(respects_cap(after_ops(s, ops.take(k)), ops[k]));
                lemma_op_keeps_cap(after_ops(s, pre), ops.last());
            }
        }
    }
}

/// Creating the record where one exists fails with `AlreadyInitialized` and
/// leaves the existing record as it was.
pub proof fn lemma_initialize_existing(rec: PaymentStorage, authority: AccountKey, bump: u8)
    ensures
        op_outcome(Some(rec), Operation::Initialize { authority, bump }) == Err::<(), PaymentError>(
            PaymentError::AlreadyInitialized,
        ),
        after_op(Some(rec), Operation::Initialize { authority, bump }) == Some(rec),
{
}

/// A configuration that supplies no value changes no field, whoever sends it.
pub proof fn lemma_empty_params(s: Option<PaymentStorage>, authority: AccountKey)
    ensures
        match s {
            Some(rec) => rec.spec_patched(None, None, None, None, None, None, None) == rec,
            None => true,
        },
        after_op(
            s,
            Operation::SetParams {
                authority,
                price_lamports: None,
                price_day: None,
                count: None,
                max_count: None,
                beneficiary: None,
                beneficiary_day: None,
                new_authority: None,
            },
        ) == s,
{
}

/// A configuration sent by anyone but the record's authority fails with
/// `Unauthorized` and leaves the record as it was.
pub proof fn lemma_set_params_by_other(rec: PaymentStorage, op: Operation)
    requires
        op matches Operation::SetParams { authority, .. } && authority.key != rec.authority,
    ensures
        op_outcome(Some(rec), op) == Err::<(), PaymentError>(PaymentError::Unauthorized),
        after_op(Some(rec), op) == Some(rec),
{
}

/// A payment to any receiver but the configured one fails with
/// `InvalidBeneficiary`; no value moves and the counter is unchanged.
pub proof fn lemma_pay_wrong_beneficiary(rec: PaymentStorage, op: Operation)
    requires
        match op {
            Operation::PayForMint { beneficiary, .. } => beneficiary != rec.beneficiary,
            Operation::PayForMintSpl { beneficiary_day, .. } => beneficiary_day
                != rec.beneficiary_day,
            _ => false,
        },
    ensures
        op_outcome(Some(rec), op) == Err::<(), PaymentError>(PaymentError::InvalidBeneficiary),
        value_moved(Some(rec), op) is None,
        after_op(Some(rec), op) == Some(rec),
{
}

/// A payment to the configured receiver when the counter has reached the
/// cap fails with `UsageLimitExceeded`; no transfer is ordered, so no value
/// moves, and the counter is unchanged.
pub proof fn lemma_pay_at_cap(rec: PaymentStorage, op: Operation)
    requires
        rec.count == rec.max_count,
        match op {
            Operation::PayForMint { beneficiary, .. } => beneficiary == rec.beneficiary,
            Operation::PayForMintSpl { beneficiary_day, .. } => beneficiary_day
                == rec.beneficiary_day,
            _ => false,
        },
    ensures
        order_of(Some(rec), op) == Some(
            Err::<TransferOrder, PaymentError>(PaymentError::UsageLimitExceeded),
        ),
        op_outcome(Some(rec), op) == Err::<(), PaymentError>(PaymentError::UsageLimitExceeded),
        value_moved(Some(rec), op) is None,
        after_op(Some(rec), op) == Some(rec),
{
}

/// A payment whose transfer the host refuses fails, moves no value and
/// leaves the record, counter included, as it was.
pub proof fn lemma_failed_transfer(s: Option<PaymentStorage>, op: Operation)
    requires
        (op is PayForMint || op is PayForMintSpl),
        transfer_of(op) is Err,
    ensures
        op_outcome(s, op) is Err,
        value_moved(s, op) is None,
        after_op(s, op) == s,
{
}

} // verus!
