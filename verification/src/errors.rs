use vstd::prelude::*;

verus! {

/// The kinds of failure that a caller can tell apart.
#[derive(Clone, Copy, Debug, PartialEq, Eq, Structural)]
pub enum ErrorClass {
    /// An account is not the one that the records and derivations call for.
    Authorization,
    /// The entity's expiry has passed.
    Expiry,
    /// The input asks for a setting outside the allowed range.
    Configuration,
    /// The host ledger cannot carry the operation out.
    Ledger,
}

/// Why an operation on an escrow was refused.
#[derive(Clone, Copy, Debug, PartialEq, Eq, Structural)]
pub enum EscrowError {
    /// The escrow's expiry slot has been reached.
    Expired,
    /// The requested relative expiry is not below the maximum window.
    MaxExpiryExceeded,
    /// The host offered no clock to read the current slot from.
    ClockUnavailable,
    /// The current slot plus the requested window does not fit in 64 bits.
    SlotOverflow,
}

impl EscrowError {
    /// The class of this error.
    pub open spec fn spec_class(self) -> ErrorClass {
        match self {
            EscrowError::Expired => ErrorClass::Expiry,
            EscrowError::MaxExpiryExceeded => ErrorClass::Configuration,
            EscrowError::ClockUnavailable => ErrorClass::Ledger,
            EscrowError::SlotOverflow => ErrorClass::Ledger,
        }
    }

    /// The class of this error.
    #[verifier::when_used_as_spec(spec_class)]
    pub fn class(self) -> (class: ErrorClass)
        ensures
            class == self.spec_class(),
    {
        match self {
            EscrowError::Expired => ErrorClass::Expiry,
            EscrowError::MaxExpiryExceeded => ErrorClass::Configuration,
            EscrowError::ClockUnavailable => ErrorClass::Ledger,
            EscrowError::SlotOverflow => ErrorClass::Ledger,
        }
    }
}

/// Why a bid was not settled.
#[derive(Clone, Copy, Debug, PartialEq, Eq, Structural)]
pub enum BidError {
    /// No listing record exists at the listing's address.
    ListingNotFound,
    /// No marketplace record exists at the marketplace's address.
    MarketplaceNotFound,
    /// No whitelist record exists at the whitelist's address.
    NotWhitelisted,
    /// No holding account exists at the vault's address.
    VaultNotFound,
    /// One account was presented in two roles that one account cannot fill.
    DuplicateAccount,
    /// The marketplace's address is not derived from its name and nonce.
    MarketplaceSeeds,
    /// The vault's authority is not the one derived from the asset.
    VaultAuthority,
    /// The vault holds another asset than the one bid for.
    VaultMint,
    /// The treasury's address is not derived from the marketplace.
    TreasurySeeds,
    /// The whitelist's address is not derived from marketplace and collection.
    WhitelistSeeds,
    /// The listing's address is not derived from whitelist and asset.
    ListingSeeds,
    /// The listing was made by another seller than the one presented.
    ListingSeller,
    /// The bidder's receiving account is missing, holds no asset units, or
    /// belongs to someone else.
    ReceiverOwner,
    /// The bidder's receiving account holds another asset.
    ReceiverMint,
    /// The bidder's balance is below the price.
    InsufficientFunds,
    /// The vault holds no unit of the asset.
    VaultEmpty,
    /// The vault would still hold units after one has left it.
    VaultNotEmpty,
    /// The seller's balance cannot take what settlement would add to it.
    BalanceOverflow,
    /// The receiving account cannot take one more unit.
    ReceiverOverflow,
}

impl BidError {
    /// The class of this error.
    pub open spec fn spec_class(self) -> ErrorClass {
        match self {
            BidError::InsufficientFunds => ErrorClass::Ledger,
            BidError::VaultEmpty => ErrorClass::Ledger,
            BidError::VaultNotEmpty => ErrorClass::Ledger,
            BidError::BalanceOverflow => ErrorClass::Ledger,
            BidError::ReceiverOverflow => ErrorClass::Ledger,
            _ => ErrorClass::Authorization,
        }
    }

    /// The class of this error.
    #[verifier::when_used_as_spec(spec_class)]
    pub fn class(self) -> (class: ErrorClass)
        ensures
            class == self.spec_class(),
    {
        match self {
            BidError::InsufficientFunds => ErrorClass::Ledger,
            BidError::VaultEmpty => ErrorClass::Ledger,
            BidError::VaultNotEmpty => ErrorClass::Ledger,
            BidError::BalanceOverflow => ErrorClass::Ledger,
            BidError::ReceiverOverflow => ErrorClass::Ledger,
            _ => ErrorClass::Authorization,
        }
    }

    /// Whether this is an authorization error.
    pub open spec fn spec_is_authorization(self) -> bool {
        self.spec_class() == ErrorClass::Authorization
    }

    /// Whether this is an authorization error.
    #[verifier::when_used_as_spec(spec_is_authorization)]
    pub fn is_authorization(self) -> (yes: bool)
        ensures
            yes == self.spec_is_authorization(),
    {
        match self.class() {
            ErrorClass::Authorization => true,
            _ => false,
        }
    }
}

} // verus!
