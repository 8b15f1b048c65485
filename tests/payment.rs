use deep_waifu_payment_contract::address::{AccountKey, Address};
use deep_waifu_payment_contract::error::PaymentError;
use deep_waifu_payment_contract::program::{
    initialize, pay_for_mint, pay_for_mint_spl, set_params, settle_payment, Initialize,
    PayForMint, PayForMintSpl, Rail, SetParams, TransferOrder,
};
use deep_waifu_payment_contract::storage::PaymentStorage;

fn addr(b: u8) -> Address {
    Address::new([b; 32])
}

fn signer(b: u8) -> AccountKey {
    AccountKey { key: addr(b), is_signer: true }
}

fn created(authority: u8) -> PaymentStorage {
    let mut ctx = Initialize { my_pda: None, authority: signer(authority) };
    initialize(&mut ctx, 254).unwrap();
    ctx.my_pda.unwrap()
}

fn configured(max_count: u16, price: u64, beneficiary: u8) -> PaymentStorage {
    let mut ctx = SetParams { my_pda: Some(created(1)), authority: signer(1) };
    set_params(
        &mut ctx,
        Some(price),
        Some(7),
        None,
        Some(max_count),
        Some(addr(beneficiary)),
        Some(addr(beneficiary + 100)),
        None,
    )
    .unwrap();
    ctx.my_pda.unwrap()
}

fn pay_native(rec: &mut Option<PaymentStorage>, payer: u8, beneficiary: u8) -> Result<u16, PaymentError> {
    let ctx = PayForMint { my_pda: *rec, payer: signer(payer), beneficiary: addr(beneficiary) };
    let order = pay_for_mint(&ctx)?;
    assert_eq!(order.from, addr(payer));
    assert_eq!(order.to, addr(beneficiary));
    settle_payment(rec, Ok(()))
}

#[test]
fn initialize_creates_zeroed_record() {
    let rec = created(9);
    assert_eq!(rec.authority, addr(9));
    assert_eq!(rec.bump, 254);
    assert_eq!(rec.count, 0);
    assert_eq!(rec.max_count, 0);
    assert_eq!(rec.price_lamports, 0);
    assert_eq!(rec.price_day, 0);
    assert_eq!(rec.beneficiary, Address::zero());
    assert_eq!(rec.beneficiary_day, Address::zero());
}

#[test]
fn initialize_on_existing_record_fails() {
    let existing = configured(5, 10, 2);
    let mut ctx = Initialize { my_pda: Some(existing), authority: signer(3) };
    assert_eq!(initialize(&mut ctx, 1), Err(PaymentError::AlreadyInitialized));
    assert_eq!(ctx.my_pda, Some(existing));
}

#[test]
fn initialize_requires_signature() {
    let mut ctx = Initialize { my_pda: None, authority: AccountKey { key: addr(1), is_signer: false } };
    assert_eq!(initialize(&mut ctx, 1), Err(PaymentError::MissingSignature));
    assert_eq!(ctx.my_pda, None);
}

#[test]
fn set_params_overwrites_supplied_fields_only() {
    let rec = configured(5, 10, 2);
    assert_eq!(rec.price_lamports, 10);
    assert_eq!(rec.price_day, 7);
    assert_eq!(rec.max_count, 5);
    assert_eq!(rec.beneficiary, addr(2));
    assert_eq!(rec.beneficiary_day, addr(102));
    assert_eq!(rec.authority, addr(1));
    assert_eq!(rec.count, 0);
    assert_eq!(rec.bump, 254);
}

#[test]
fn set_params_with_nothing_supplied_changes_nothing() {
    let rec = configured(5, 10, 2);
    let mut ctx = SetParams { my_pda: Some(rec), authority: signer(1) };
    assert_eq!(set_params(&mut ctx, None, None, None, None, None, None, None), Ok(()));
    assert_eq!(ctx.my_pda, Some(rec));
}

#[test]
fn set_params_by_other_identity_is_unauthorized() {
    let rec = configured(5, 10, 2);
    let mut ctx = SetParams { my_pda: Some(rec), authority: signer(4) };
    let r = set_params(&mut ctx, Some(1), None, None, Some(9), None, None, Some(addr(4)));
    assert_eq!(r, Err(PaymentError::Unauthorized));
    assert_eq!(ctx.my_pda, Some(rec));
}

#[test]
fn set_params_without_signature_is_unauthorized() {
    let rec = configured(5, 10, 2);
    let mut ctx = SetParams { my_pda: Some(rec), authority: AccountKey { key: addr(1), is_signer: false } };
    let r = set_params(&mut ctx, Some(1), None, None, None, None, None, None);
    assert_eq!(r, Err(PaymentError::Unauthorized));
    assert_eq!(ctx.my_pda, Some(rec));
}

#[test]
fn set_params_without_record_fails() {
    let mut ctx = SetParams { my_pda: None, authority: signer(1) };
    let r = set_params(&mut ctx, Some(1), None, None, None, None, None, None);
    assert_eq!(r, Err(PaymentError::NotInitialized));
}

#[test]
fn set_params_may_override_count_past_cap() {
    let mut ctx = SetParams { my_pda: Some(configured(2, 10, 2)), authority: signer(1) };
    assert_eq!(set_params(&mut ctx, None, None, Some(5), None, None, None, None), Ok(()));
    let rec = ctx.my_pda.unwrap();
    assert_eq!(rec.count, 5);
    let pay = PayForMint { my_pda: Some(rec), payer: signer(3), beneficiary: addr(2) };
    assert_eq!(pay_for_mint(&pay), Err(PaymentError::UsageLimitExceeded));
}

#[test]
fn authority_handover() {
    let mut ctx = SetParams { my_pda: Some(configured(5, 10, 2)), authority: signer(1) };
    assert_eq!(set_params(&mut ctx, None, None, None, None, None, None, Some(addr(42))), Ok(()));
    let rec = ctx.my_pda.unwrap();
    assert_eq!(rec.authority, addr(42));

    let mut by_old = SetParams { my_pda: Some(rec), authority: signer(1) };
    assert_eq!(
        set_params(&mut by_old, Some(1), None, None, None, None, None, None),
        Err(PaymentError::Unauthorized)
    );
    assert_eq!(by_old.my_pda, Some(rec));

    let mut by_new = SetParams { my_pda: Some(rec), authority: signer(42) };
    assert_eq!(set_params(&mut by_new, Some(1), None, None, None, None, None, None), Ok(()));
    assert_eq!(by_new.my_pda.unwrap().price_lamports, 1);
}

#[test]
fn two_paid_mints_then_cap() {
    let mut rec = Some(configured(2, 1000, 2));
    let first = PayForMint { my_pda: rec, payer: signer(3), beneficiary: addr(2) };
    assert_eq!(
        pay_for_mint(&first),
        Ok(TransferOrder { rail: Rail::Native, from: addr(3), to: addr(2), authority: addr(3), amount: 1000 })
    );
    assert_eq!(settle_payment(&mut rec, Ok(())), Ok(1));
    assert_eq!(rec.unwrap().count, 1);

    let second = PayForMint { my_pda: rec, payer: signer(3), beneficiary: addr(2) };
    let order = pay_for_mint(&second).unwrap();
    assert_eq!(order.amount, 1000);
    assert_eq!(order.from, addr(3));
    assert_eq!(order.to, addr(2));
    assert_eq!(settle_payment(&mut rec, Ok(())), Ok(2));

    let third = PayForMint { my_pda: rec, payer: signer(3), beneficiary: addr(2) };
    assert_eq!(pay_for_mint(&third), Err(PaymentError::UsageLimitExceeded));
    assert_eq!(rec.unwrap().count, 2);
}

#[test]
fn pay_native_to_wrong_beneficiary() {
    let rec = configured(2, 1000, 2);
    let ctx = PayForMint { my_pda: Some(rec), payer: signer(3), beneficiary: addr(5) };
    assert_eq!(pay_for_mint(&ctx), Err(PaymentError::InvalidBeneficiary));
}

#[test]
fn pay_token_to_wrong_destination() {
    let rec = configured(2, 1000, 2);
    let ctx = PayForMintSpl { my_pda: Some(rec), payer: signer(3), from: addr(30), beneficiary_day: addr(2) };
    assert_eq!(pay_for_mint_spl(&ctx), Err(PaymentError::InvalidBeneficiary));
}

#[test]
fn pay_token_orders_token_price() {
    let mut rec = Some(configured(1, 1000, 2));
    let ctx = PayForMintSpl { my_pda: rec, payer: signer(3), from: addr(30), beneficiary_day: addr(102) };
    assert_eq!(
        pay_for_mint_spl(&ctx),
        Ok(TransferOrder { rail: Rail::Token, from: addr(30), to: addr(102), authority: addr(3), amount: 7 })
    );
    assert_eq!(settle_payment(&mut rec, Ok(())), Ok(1));
    let again = PayForMintSpl { my_pda: rec, payer: signer(3), from: addr(30), beneficiary_day: addr(102) };
    assert_eq!(pay_for_mint_spl(&again), Err(PaymentError::UsageLimitExceeded));
}

#[test]
fn pay_at_cap_wrong_beneficiary_reported_first() {
    let rec = configured(0, 1000, 2);
    let ctx = PayForMint { my_pda: Some(rec), payer: signer(3), beneficiary: addr(9) };
    assert_eq!(pay_for_mint(&ctx), Err(PaymentError::InvalidBeneficiary));
}

#[test]
fn pay_requires_payer_signature() {
    let rec = configured(2, 1000, 2);
    let ctx = PayForMint { my_pda: Some(rec), payer: AccountKey { key: addr(3), is_signer: false }, beneficiary: addr(2) };
    assert_eq!(pay_for_mint(&ctx), Err(PaymentError::MissingSignature));
}

#[test]
fn pay_without_record_fails() {
    let ctx = PayForMint { my_pda: None, payer: signer(3), beneficiary: addr(2) };
    assert_eq!(pay_for_mint(&ctx), Err(PaymentError::NotInitialized));
    let spl = PayForMintSpl { my_pda: None, payer: signer(3), from: addr(3), beneficiary_day: addr(2) };
    assert_eq!(pay_for_mint_spl(&spl), Err(PaymentError::NotInitialized));
}

#[test]
fn failed_transfer_leaves_count() {
    let before = configured(2, 1000, 2);
    let mut rec = Some(before);
    let ctx = PayForMint { my_pda: rec, payer: signer(3), beneficiary: addr(2) };
    assert!(pay_for_mint(&ctx).is_ok());
    assert_eq!(settle_payment(&mut rec, Err(1)), Err(PaymentError::TransferFailed { code: 1 }));
    assert_eq!(rec, Some(before));
    assert_eq!(rec.unwrap().count, 0);
}

#[test]
fn count_stays_within_cap_over_many_payments() {
    let mut rec = Some(configured(3, 5, 2));
    let mut refused = 0;
    for i in 0..10 {
        let transfer = if i % 4 == 1 { Err(7) } else { Ok(()) };
        let ctx = PayForMint { my_pda: rec, payer: signer(3), beneficiary: addr(2) };
        match pay_for_mint(&ctx) {
            Ok(_) => {
                let _ = settle_payment(&mut rec, transfer);
            }
            Err(e) => {
                assert_eq!(e, PaymentError::UsageLimitExceeded);
                refused += 1;
            }
        }
        let r = rec.unwrap();
        assert!(r.count <= r.max_count);
    }
    assert_eq!(rec.unwrap().count, 3);
    assert!(refused > 0);
}

#[test]
fn address_comparison() {
    let a = addr(1);
    let mut bytes = [1u8; 32];
    assert!(a.same(&Address::new(bytes)));
    bytes[31] = 2;
    assert!(!a.same(&Address::new(bytes)));
    assert!(Address::zero().same(&Address::new([0u8; 32])));
}

#[test]
fn default_record_is_zero() {
    let rec = PaymentStorage::default();
    assert_eq!(rec, PaymentStorage::new(Address::zero(), 0));
    assert_eq!(rec.authority, Address::new([0u8; 32]));
    assert_eq!(rec.count, 0);
    assert_eq!(rec.max_count, 0);
}
