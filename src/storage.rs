//! The persistent authorization record and its configuration patch.
use vstd::prelude::*;

use crate::address::Address;

verus! {

/// The value a patch gives a field: the supplied one, or the field's current one.
pub open spec fn or_keep<T>(supplied: Option<T>, current: T) -> T {
    match supplied {
        Some(v) => v,
        None => current,
    }
}

/// The record: prices on both payment rails, the two beneficiaries, the
/// usage counter and its cap, the authority that configures it, and the
/// derivation nonce of its address.
#[derive(Clone, Copy, Debug, PartialEq, Eq)]
pub struct PaymentStorage {
    pub price_lamports: u64,
    pub price_day: u64,
    pub count: u16,
    pub max_count: u16,
    pub beneficiary: Address,
    pub beneficiary_day: Address,
    pub authority: Address,
    pub bump: u8,
}

impl PaymentStorage {
    /// The counter has not passed its cap.
    pub open spec fn within_cap(&self) -> bool {
        self.count <= self.max_count
    }

    /// A freshly created record: the given authority and nonce, every other
    /// field zero.
    pub open spec fn spec_new(authority: Address, bump: u8) -> PaymentStorage {
        PaymentStorage {
            price_lamports: 0,
            price_day: 0,
            count: 0,
            max_count: 0,
            beneficiary: Address::spec_zero(),
            beneficiary_day: Address::spec_zero(),
            authority,
            bump,
        }
    }

    /// The record after a configuration patch: each supplied value replaces
    /// its field, each omitted one leaves it as it was.
    pub open spec fn spec_patched(
        self,
        price_lamports: Option<u64>,
        price_day: Option<u64>,
        count: Option<u16>,
        max_count: Option<u16>,
        beneficiary: Option<Address>,
        beneficiary_day: Option<Address>,
        new_authority: Option<Address>,
    ) -> PaymentStorage {
        PaymentStorage {
            price_lamports: or_keep(price_lamports, self.price_lamports),
            price_day: or_keep(price_day, self.price_day),
            count: or_keep(count, self.count),
            max_count: or_keep(max_count, self.max_count),
            beneficiary: or_keep(beneficiary, self.beneficiary),
            beneficiary_day: or_keep(beneficiary_day, self.beneficiary_day),
            authority: or_keep(new_authority, self.authority),
            bump: self.bump,
        }
    }

    /// The record after one more paid use.
    pub open spec fn spec_counted(self) -> PaymentStorage {
        PaymentStorage { count: (self.count + 1) as u16, ..self }
    }

    /// Creates a record owned by `authority` with address nonce `bump`.
    pub fn new(authority: Address, bump: u8) -> (r: PaymentStorage)
        ensures
            r == PaymentStorage::spec_new(authority, bump),
    {
        PaymentStorage {
            price_lamports: 0,
            price_day: 0,
            count: 0,
            max_count: 0,
            beneficiary: Address::zero(),
            beneficiary_day: Address::zero(),
            authority,
            bump,
        }
    }

    /// Overwrites each field whose new value is supplied.
    pub fn apply_params(
        &mut self,
        price_lamports: Option<u64>,
        price_day: Option<u64>,
        count: Option<u16>,
        max_count: Option<u16>,
        beneficiary: Option<Address>,
        beneficiary_day: Option<Address>,
        new_authority: Option<Address>,
    )
        ensures
            *final(self) == old(self).spec_patched(
                price_lamports,
                price_day,
                count,
                max_count,
                beneficiary,
                beneficiary_day,
                new_authority,
            ),
    {
        if let Some(v) = price_lamports {
            self.price_lamports = v;
        }
        if let Some(v) = price_day {
            self.price_day = v;
        }
        if let Some(v) = count {
            self.count = v;
        }
        if let Some(v) = max_count {
            self.max_count = v;
        }
        if let Some(v) = beneficiary {
            self.beneficiary = v;
        }
        if let Some(v) = beneficiary_day {
            self.beneficiary_day = v;
        }
        if let Some(v) = new_authority {
            self.authority = v;
        }
    }

    /// Counts one more paid use.
    pub fn record_use(&mut self)
        requires
            old(self).count < old(self).max_count,
        ensures
            *final(self) == old(self).spec_counted(),
            final(self).count == old(self).count + 1,
            final(self).within_cap(),
    {
        self.count = self.count + 1;
    }
}

impl Default for PaymentStorage {
    /// The all-zero record: no authority, no prices, no beneficiaries.
    fn default() -> (r: PaymentStorage)
        ensures
            r == PaymentStorage::spec_new(Address::spec_zero(), 0),
    {
        PaymentStorage::new(Address::zero(), 0)
    }
}

} // verus!
