//! The four operations on the record: create it, configure it, and pay for a
//! mint in native currency or in tokens.
//!
//! A payment runs in two steps around the host's transfer. `pay_for_mint` or
//! `pay_for_mint_spl` checks the request and, if it passes, hands back the one
//! transfer the host is to carry out; nothing is changed yet. The host then
//! performs that transfer, and `settle_payment` counts the use if the transfer
//! went through, or leaves the record as it was if it did not.
use vstd::prelude::*;

use crate::address::{AccountKey, Address};
use crate::error::PaymentError;
use crate::storage::PaymentStorage;

verus! {

/// The accounts of a request to create the record.
#[derive(Clone, Copy, Debug)]
pub struct Initialize {
    /// The record at the derived address, if one exists there.
    pub my_pda: Option<PaymentStorage>,
    /// The identity that will configure the record.
    pub authority: AccountKey,
}

/// The accounts of a configuration request.
#[derive(Clone, Copy, Debug)]
pub struct SetParams {
    pub my_pda: Option<PaymentStorage>,
    /// The caller, who must be the record's authority.
    pub authority: AccountKey,
}

/// The accounts of a payment in native currency.
#[derive(Clone, Copy, Debug)]
pub struct PayForMint {
    pub my_pda: Option<PaymentStorage>,
    /// The paying identity.
    pub payer: AccountKey,
    /// The declared receiver of the payment.
    pub beneficiary: Address,
}

/// The accounts of a payment in tokens.
#[derive(Clone, Copy, Debug)]
pub struct PayForMintSpl {
    pub my_pda: Option<PaymentStorage>,
    /// The identity that authorizes the debit of `from`.
    pub payer: AccountKey,
    /// The token account the payment is drawn from.
    pub from: Address,
    /// The declared token account that receives the payment.
    pub beneficiary_day: Address,
}

/// The two payment rails.
#[derive(Clone, Copy, Debug, PartialEq, Eq, Structural)]
pub enum Rail {
    Native,
    Token,
}

/// A transfer that the host is to carry out: `amount` units on `rail` from
/// `from` to `to`, authorized by `authority`.
#[derive(Clone, Copy, Debug, PartialEq, Eq)]
pub struct TransferOrder {
    pub rail: Rail,
    pub from: Address,
    pub to: Address,
    pub authority: Address,
    pub amount: u64,
}

/// The receiver that a record demands on a rail.
pub open spec fn destination_of(rec: PaymentStorage, rail: Rail) -> Address {
    match rail {
        Rail::Native => rec.beneficiary,
        Rail::Token => rec.beneficiary_day,
    }
}

/// The price that a record asks on a rail.
pub open spec fn price_of(rec: PaymentStorage, rail: Rail) -> u64 {
    match rail {
        Rail::Native => rec.price_lamports,
        Rail::Token => rec.price_day,
    }
}

/// Whether a record may be created: none exists yet, and the authority signed.
pub open spec fn initialize_check(my_pda: Option<PaymentStorage>, authority: AccountKey) -> Result<
    (),
    PaymentError,
> {
    if my_pda is Some {
        Err(PaymentError::AlreadyInitialized)
    } else if !authority.is_signer {
        Err(PaymentError::MissingSignature)
    } else {
        Ok(())
    }
}

/// Whether a configuration request passes: the record exists, and the
/// caller signed and is its authority.
pub open spec fn set_params_check(my_pda: Option<PaymentStorage>, authority: AccountKey) -> Result<
    (),
    PaymentError,
> {
    match my_pda {
        None => Err(PaymentError::NotInitialized),
        Some(rec) => if authority.is_signer && authority.key == rec.authority {
            Ok(())
        } else {
            Err(PaymentError::Unauthorized)
        },
    }
}

/// Whether a payment request passes: the record exists, the declared
/// receiver is the configured one, the cap is not reached, and the payer
/// signed; checked in that order.
pub open spec fn payment_check(
    my_pda: Option<PaymentStorage>,
    payer: AccountKey,
    to: Address,
    rail: Rail,
) -> Result<(), PaymentError> {
    match my_pda {
        None => Err(PaymentError::NotInitialized),
        Some(rec) => if to != destination_of(rec, rail) {
            Err(PaymentError::InvalidBeneficiary)
        } else if rec.count >= rec.max_count {
            Err(PaymentError::UsageLimitExceeded)
        } else if !payer.is_signer {
            Err(PaymentError::MissingSignature)
        } else {
            Ok(())
        },
    }
}

/// The transfer that a payment request asks of the host, or why it is refused.
pub open spec fn payment_order(
    my_pda: Option<PaymentStorage>,
    payer: AccountKey,
    from: Address,
    to: Address,
    rail: Rail,
) -> Result<TransferOrder, PaymentError> {
    match payment_check(my_pda, payer, to, rail) {
        Err(e) => Err(e),
        Ok(_) => Ok(
            TransferOrder {
                rail,
                from,
                to,
                authority: payer.key,
                amount: price_of(my_pda->Some_0, rail),
            },
        ),
    }
}

/// Creates the record at the derived address, owned by the signing
/// authority, with nonce `bump` and every other field zero. Fails, changing
/// nothing, where a record already exists or the authority did not sign.
pub fn initialize(ctx: &mut Initialize, bump: u8) -> (r: Result<(), PaymentError>)
    ensures
        r == initialize_check(old(ctx).my_pda, old(ctx).authority),
        r is Ok ==> final(ctx).my_pda == Some(
            PaymentStorage::spec_new(old(ctx).authority.key, bump),
        ),
        r is Err ==> final(ctx).my_pda == old(ctx).my_pda,
        final(ctx).authority == old(ctx).authority,
{
    if ctx.my_pda.is_some() {
        return Err(PaymentError::AlreadyInitialized);
    }
    if !ctx.authority.is_signer {
        return Err(PaymentError::MissingSignature);
    }
    ctx.my_pda = Some(PaymentStorage::new(ctx.authority.key, bump));
    Ok(())
}

/// Overwrites each supplied field of the record, on behalf of its authority.
/// Fails with `Unauthorized`, changing nothing, where the caller did not sign
/// or is not the authority.
pub fn set_params(
    ctx: &mut SetParams,
    price_lamports: Option<u64>,
    price_day: Option<u64>,
    count: Option<u16>,
    max_count: Option<u16>,
    beneficiary: Option<Address>,
    beneficiary_day: Option<Address>,
    new_authority: Option<Address>,
) -> (r: Result<(), PaymentError>)
    ensures
        r == set_params_check(old(ctx).my_pda, old(ctx).authority),
        r is Ok ==> final(ctx).my_pda == Some(
            old(ctx).my_pda->Some_0.spec_patched(
                price_lamports,
                price_day,
                count,
                max_count,
                beneficiary,
                beneficiary_day,
                new_authority,
            ),
        ),
        r is Err ==> final(ctx).my_pda == old(ctx).my_pda,
        final(ctx).authority == old(ctx).authority,
{
    let authority = ctx.authority;
    match &mut ctx.my_pda {
        None => Err(PaymentError::NotInitialized),
        Some(rec) => {
            if !authority.is_signer || !authority.key.same(&rec.authority) {
                return Err(PaymentError::Unauthorized);
            }
            rec.apply_params(
                price_lamports,
                price_day,
                count,
                max_count,
                beneficiary,
                beneficiary_day,
                new_authority,
            );
            Ok(())
        },
    }
}

/// Checks a payment request against the record and builds the transfer it
/// calls for.
fn order_payment(
    my_pda: &Option<PaymentStorage>,
    payer: AccountKey,
    from: Address,
    to: Address,
    rail: Rail,
) -> (r: Result<TransferOrder, PaymentError>)
    ensures
        r == payment_order(*my_pda, payer, from, to, rail),
{
    match my_pda {
        None => Err(PaymentError::NotInitialized),
        Some(rec) => {
            let (expected, amount) = match rail {
                Rail::Native => (rec.beneficiary, rec.price_lamports),
                Rail::Token => (rec.beneficiary_day, rec.price_day),
            };
            if !to.same(&expected) {
                Err(PaymentError::InvalidBeneficiary)
            } else if rec.count >= rec.max_count {
                Err(PaymentError::UsageLimitExceeded)
            } else if !payer.is_signer {
                Err(PaymentError::MissingSignature)
            } else {
                Ok(TransferOrder { rail, from, to, authority: payer.key, amount })
            }
        },
    }
}

/// First step of a native-currency payment: checks the request and returns
/// the transfer of the record's native price from the payer to the declared
/// beneficiary. Changes nothing; on refusal no transfer is to be made.
pub fn pay_for_mint(ctx: &PayForMint) -> (r: Result<TransferOrder, PaymentError>)
    ensures
        r == payment_order(
            ctx.my_pda,
            ctx.payer,
            ctx.payer.key,
            ctx.beneficiary,
            Rail::Native,
        ),
{
    order_payment(&ctx.my_pda, ctx.payer, ctx.payer.key, ctx.beneficiary, Rail::Native)
}

/// First step of a token payment: checks the request and returns the
/// transfer of the record's token price from the payer's token account to
/// the declared destination, authorized by the payer. Changes nothing; on
/// refusal no transfer is to be made.
pub fn pay_for_mint_spl(ctx: &PayForMintSpl) -> (r: Result<TransferOrder, PaymentError>)
    ensures
        r == payment_order(ctx.my_pda, ctx.payer, ctx.from, ctx.beneficiary_day, Rail::Token),
{
    order_payment(&ctx.my_pda, ctx.payer, ctx.from, ctx.beneficiary_day, Rail::Token)
}

/// Second step of a payment, once the host has tried the ordered transfer:
/// `transfer` is its outcome, `Err(code)` where it refused. On success the
/// counter goes up by one and the new count is returned; on failure the
/// record is left as it was and the code is passed on.
pub fn settle_payment(my_pda: &mut Option<PaymentStorage>, transfer: Result<(), u64>) -> (r:
    Result<u16, PaymentError>)
    requires
        (*old(my_pda)) is Some,
        (*old(my_pda))->Some_0.count < (*old(my_pda))->Some_0.max_count,
    ensures
        match transfer {
            Ok(_) => {
                &&& *final(my_pda) == Some((*old(my_pda))->Some_0.spec_counted())
                &&& r == Ok::<u16, PaymentError>(((*old(my_pda))->Some_0.count + 1) as u16)
            },
            Err(code) => {
                &&& *final(my_pda) == *old(my_pda)
                &&& r == Err::<u16, PaymentError>(PaymentError::TransferFailed { code })
            },
        },
{
    match transfer {
        Err(code) => Err(PaymentError::TransferFailed { code }),
        Ok(_) => match my_pda {
            Some(rec) => {
                rec.record_use();
                Ok(rec.count)
            },
            None => Err(PaymentError::NotInitialized),
        },
    }
}

} // verus!
