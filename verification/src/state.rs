use vstd::prelude::*;
use anchor_lang::prelude::{Clock, SolanaSysvar};
use crate::address::Address;
use crate::constants::{
    ANCHOR_DISCRIMINATOR_BYTES, MAX_RELATIVE_EXPIRY, PUBKEY_BYTES, U64_BYTES, U8_BYTES,
};
use crate::errors::EscrowError;

verus! {

/// Calls `Clock::get` and hands out the slot of the clock that the host
/// returned, or `None` where the host returned an error. Trusted, with nothing
/// claimed of the slot: it is whatever the host says it is.
#[verifier::external_body]
fn current_slot() -> (slot: Option<u64>) {
    match Clock::get() {
        Ok(clock) => Some(clock.slot),
        Err(_) => None,
    }
}

/// A peer-to-peer token swap held in escrow until its expiry slot.
#[derive(Clone, Copy, Debug, PartialEq, Eq)]
pub struct Escrow {
    pub maker: Address,
    pub maker_token: Address,
    pub taker_token: Address,
    pub offer_amount: u64,
    pub seed: u64,
    /// Slot at which the escrow expires; 0 stands for no expiry: such an
    /// escrow never expires.
    pub expiry: u64,
    pub auth_bump: u8,
    pub vault_bump: u8,
    pub escrow_bump: u8,
}

impl Escrow {
    /// Bytes reserved for an escrow record: the tag, three addresses, three
    /// 64-bit integers and three nonces.
    pub const LEN: usize = ANCHOR_DISCRIMINATOR_BYTES + 3 * PUBKEY_BYTES + 3 * U64_BYTES + 3
        * U8_BYTES;

    /// The outcome of the expiry check at slot `now`: an escrow with no
    /// expiry passes at every slot, and one with an expiry passes while its
    /// expiry slot lies after `now`.
    pub open spec fn expiry_checked(self, now: u64) -> Result<(), EscrowError> {
        if self.expiry == 0 || self.expiry > now {
            Ok(())
        } else {
            Err(EscrowError::Expired)
        }
    }

    /// The expiry slot that a relative window of `expiry` slots sets at slot
    /// `now`, or the error that refuses the window.
    pub open spec fn relative_expiry(expiry: u64, now: u64) -> Result<u64, EscrowError> {
        if expiry >= MAX_RELATIVE_EXPIRY {
            Err(EscrowError::MaxExpiryExceeded)
        } else if expiry == 0 {
            Ok(0u64)
        } else if now + expiry > u64::MAX {
            Err(EscrowError::SlotOverflow)
        } else {
            Ok((now + expiry) as u64)
        }
    }

    /// This escrow with its expiry slot replaced.
    pub open spec fn with_expiry(self, expiry: u64) -> Escrow {
        Escrow { expiry, ..self }
    }

    /// The escrow after a relative window of `expiry` slots is requested at
    /// slot `now`: the expiry slot is replaced where the window is accepted and
    /// the escrow is unchanged where it is refused.
    pub open spec fn after_relative_expiry(self, expiry: u64, now: u64) -> Escrow {
        match Self::relative_expiry(expiry, now) {
            Ok(slot) => self.with_expiry(slot),
            Err(_) => self,
        }
    }

    /// Checks the escrow's expiry against slot `now`. An escrow with no
    /// expiry passes at every slot.
    pub fn check_expiry_at(&self, now: u64) -> (checked: Result<(), EscrowError>)
        ensures
            checked == self.expiry_checked(now),
    {
        if self.expiry == 0 || self.expiry > now {
            Ok(())
        } else {
            Err(EscrowError::Expired)
        }
    }

    /// Checks the escrow's expiry against the host's current slot. An escrow
    /// with no expiry passes without the clock being read.
    pub fn check_expiry(&self) -> (checked: Result<(), EscrowError>)
        ensures
            self.expiry == 0 ==> checked is Ok,
            self.expiry != 0 ==> checked == Err::<(), EscrowError>(EscrowError::ClockUnavailable)
                || exists|now: u64| checked == self.expiry_checked(now),
    {
        if self.expiry == 0 {
            return Ok(());
        }
        match current_slot() {
            Some(now) => self.check_expiry_at(now),
            None => Err(EscrowError::ClockUnavailable),
        }
    }

    /// Sets the expiry `expiry` slots after slot `now`; a window of 0 clears
    /// the expiry. A window at or above the maximum is refused.
    pub fn set_expiry_relative_at(&mut self, expiry: u64, now: u64) -> (set: Result<
        (),
        EscrowError,
    >)
        ensures
            *final(self) == old(self).after_relative_expiry(expiry, now),
            match Self::relative_expiry(expiry, now) {
                Ok(_) => set is Ok,
                Err(e) => set == Err::<(), EscrowError>(e),
            },
    {
        if expiry >= MAX_RELATIVE_EXPIRY {
            return Err(EscrowError::MaxExpiryExceeded);
        }
        if expiry == 0 {
            self.set_expiry_absolute(0);
            return Ok(());
        }
        match now.checked_add(expiry) {
            Some(slot) => {
                self.set_expiry_absolute(slot);
                Ok(())
            },
            None => Err(EscrowError::SlotOverflow),
        }
    }

    /// Sets the expiry `expiry` slots after the host's current slot; a window
    /// of 0 clears the expiry without reading the clock. A window at or above
    /// the maximum is refused before the clock is read.
    pub fn set_expiry_relative(&mut self, expiry: u64) -> (set: Result<(), EscrowError>)
        ensures
            expiry >= MAX_RELATIVE_EXPIRY ==> set == Err::<(), EscrowError>(
                EscrowError::MaxExpiryExceeded,
            ) && *final(self) == *old(self),
            expiry == 0 ==> set is Ok && *final(self) == old(self).with_expiry(0),
            0 < expiry < MAX_RELATIVE_EXPIRY ==> (set == Err::<(), EscrowError>(
                EscrowError::ClockUnavailable,
            ) && *final(self) == *old(self)) || (exists|now: u64|
                {
                    &&& *final(self) == old(self).after_relative_expiry(expiry, now)
                    &&& match Self::relative_expiry(expiry, now) {
                        Ok(_) => set is Ok,
                        Err(e) => set == Err::<(), EscrowError>(e),
                    }
                }),
    {
        if expiry >= MAX_RELATIVE_EXPIRY {
            return Err(EscrowError::MaxExpiryExceeded);
        }
        if expiry == 0 {
            self.set_expiry_absolute(0);
            return Ok(());
        }
        match current_slot() {
            Some(now) => self.set_expiry_relative_at(expiry, now),
            None => Err(EscrowError::ClockUnavailable),
        }
    }

    /// Sets the expiry slot.
    pub fn set_expiry_absolute(&mut self, expiry: u64)
        ensures
            *final(self) == old(self).with_expiry(expiry),
    {
        self.expiry = expiry;
    }
}

/// Global configuration of one marketplace.
#[derive(Clone, Debug, PartialEq, Eq)]
pub struct Marketplace {
    pub admin: Address,
    /// Fee rate in basis points.
    pub fee: u16,
    /// Nonce of the record's own address.
    pub bump: u8,
    /// Nonce of the treasury's address.
    pub treasury_bump: u8,
    /// Name of the marketplace; it seeds the record's address.
    pub name: String,
}

impl Marketplace {
    /// Bytes reserved for a marketplace record: the tag, the admin, the fee,
    /// two nonces, and a name of up to 32 bytes behind its 4-byte length.
    pub const LEN: usize = 8 + 32 + 2 + 1 + 1 + 4 + 32;
}

/// Membership of one collection in a marketplace's allow-list. That the
/// record exists is the membership.
#[derive(Clone, Copy, Debug, PartialEq, Eq, Structural)]
pub struct Whitelist {
    /// Nonce of the record's own address.
    pub bump: u8,
}

impl Whitelist {
    /// Bytes reserved for a whitelist record: the tag and the nonce.
    pub const LEN: usize = 8 + 1;
}

/// One asset offered for sale at a fixed price.
#[derive(Clone, Copy, Debug, PartialEq, Eq)]
pub struct Listing {
    /// The seller.
    pub maker: Address,
    /// The asset on sale.
    pub mint: Address,
    /// The price a bid pays, in the smallest currency unit.
    pub reserve_price: u64,
    /// Nonce of the record's own address.
    pub bump: u8,
    /// Nonce of the vault authority's address.
    pub auth_bump: u8,
    /// Declared expiry time; settlement does not consult it.
    pub expiry: i64,
    /// Declared highest bid; settlement does not consult it.
    pub highest_bid: u64,
    /// Declared highest bidder; settlement does not consult it.
    pub highest_bidder: Address,
}

impl Listing {
    /// Bytes reserved for a listing record: the tag, the seller, the asset,
    /// the price and two nonces.
    pub const LEN: usize = 8 + 32 + 32 + 8 + 1 + 1;
}

/// A refund record; it has no fields.
#[derive(Clone, Copy, Debug, PartialEq, Eq, Structural)]
pub struct Refund {}

} // verus!
