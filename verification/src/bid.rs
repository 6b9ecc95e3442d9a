use vstd::prelude::*;
use vstd::utf8::encode_utf8;
use crate::address::Address;
use crate::derivation::{
    authority_seed_list, authority_seeds, derives, is_derived, listing_seed_list, listing_seeds,
    marketplace_seed_list, marketplace_seeds, seed_bytes, sign_as, treasury_seed_list,
    treasury_seeds, whitelist_seed_list, whitelist_seeds, Capability,
};
use crate::errors::BidError;
use crate::laws::{law_settlement_is_its_steps_in_order, law_validation_survives_the_steps};
use crate::ledger::{
    balance_of, closed_into, credited, debited, holding_at, listing_at, marketplace_at,
    whitelist_at, unit_moved, AccountData, AccountState, Accounts, Holding, Ledger,
};
use crate::state::{Listing, Marketplace};

verus! {

/// The accounts that a bid presents, each by its address and in its role.
#[derive(Clone, Copy, Debug, PartialEq, Eq)]
pub struct Bid {
    /// The bidder, who pays the price.
    pub taker: Address,
    /// The seller, who is paid.
    pub maker: Address,
    /// The marketplace record.
    pub marketplace: Address,
    /// The bidder's receiving account for the asset.
    pub taker_ata: Address,
    /// The vault that holds the asset.
    pub vault: Address,
    /// The marketplace's treasury.
    pub treasury: Address,
    /// The asset bid for.
    pub maker_mint: Address,
    /// The collection that the asset belongs to.
    pub collection_mint: Address,
    /// The whitelist record of the collection.
    pub whitelist: Address,
    /// The listing record.
    pub listing: Address,
}

/// What the host is to carry out for a bid that settles.
#[derive(Clone, Debug, PartialEq, Eq)]
pub struct Plan {
    /// The currency to move from the bidder to the seller.
    pub price: u64,
    /// The units of the asset to move from the vault to the receiving
    /// account.
    pub units: u64,
    /// The seeds that sign for the vault's authority.
    pub authority_seeds: Vec<Vec<u8>>,
    /// Whether the receiving account is to be created first.
    pub opens_receiver: bool,
}

/// The bytes of a marketplace's name, as they enter its seed list.
pub open spec fn name_seed(marketplace: Marketplace) -> Seq<u8> {
    encode_utf8(marketplace.name@)
}

impl Bid {
    /// Whether no account stands in two roles that one account cannot fill.
    /// The bidder may be the seller, and the seller may be paid into the
    /// receiving account; every other two of bidder, seller, receiving
    /// account, vault and listing must be different accounts.
    pub open spec fn roles_distinct(self) -> bool {
        &&& self.taker != self.taker_ata
        &&& self.taker != self.vault
        &&& self.taker != self.listing
        &&& self.maker != self.vault
        &&& self.maker != self.listing
        &&& self.taker_ata != self.vault
        &&& self.taker_ata != self.listing
        &&& self.vault != self.listing
    }

    /// Whether the bidder's receiving account can take the asset: it does not
    /// exist yet, or it is the bidder's holding of this asset.
    pub open spec fn receiver_accepted(self, accounts: Accounts) -> Result<(), BidError> {
        if !accounts.dom().contains(self.taker_ata) {
            Ok(())
        } else {
            match holding_at(accounts, self.taker_ata) {
                None => Err(BidError::ReceiverOwner),
                Some(holding) => if holding.owner != self.taker {
                    Err(BidError::ReceiverOwner)
                } else if holding.mint != self.maker_mint {
                    Err(BidError::ReceiverMint)
                } else {
                    Ok(())
                },
            }
        }
    }

    /// Whether the vault's authority is the address derived from the asset bid
    /// for, with the nonce that the listing records.
    pub open spec fn vault_authorized(self, accounts: Accounts, program_id: Address) -> bool {
        match (listing_at(accounts, self.listing), holding_at(accounts, self.vault)) {
            (Some(listing), Some(vault)) => derives(
                authority_seeds(self.maker_mint@, listing.auth_bump),
                program_id@,
                vault.owner@,
            ),
            _ => false,
        }
    }

    /// The outcome of validation: the first check that fails, in the order in
    /// which the checks are made, or `Ok` where every check passes.
    pub open spec fn validated(self, accounts: Accounts, program_id: Address) -> Result<
        (),
        BidError,
    > {
        match (
            listing_at(accounts, self.listing),
            marketplace_at(accounts, self.marketplace),
            whitelist_at(accounts, self.whitelist),
            holding_at(accounts, self.vault),
        ) {
            (None, _, _, _) => Err(BidError::ListingNotFound),
            (_, None, _, _) => Err(BidError::MarketplaceNotFound),
            (_, _, None, _) => Err(BidError::NotWhitelisted),
            (_, _, _, None) => Err(BidError::VaultNotFound),
            (Some(listing), Some(marketplace), Some(whitelist), Some(vault)) => {
                if !self.roles_distinct() {
                    Err(BidError::DuplicateAccount)
                } else if !derives(
                    marketplace_seeds(name_seed(marketplace), marketplace.bump),
                    program_id@,
                    self.marketplace@,
                ) {
                    Err(BidError::MarketplaceSeeds)
                } else if !derives(
                    authority_seeds(self.maker_mint@, listing.auth_bump),
                    program_id@,
                    vault.owner@,
                ) {
                    Err(BidError::VaultAuthority)
                } else if vault.mint != self.maker_mint {
                    Err(BidError::VaultMint)
                } else if !derives(
                    treasury_seeds(self.marketplace@, marketplace.treasury_bump),
                    program_id@,
                    self.treasury@,
                ) {
                    Err(BidError::TreasurySeeds)
                } else if !derives(
                    whitelist_seeds(self.marketplace@, self.collection_mint@, whitelist.bump),
                    program_id@,
                    self.whitelist@,
                ) {
                    Err(BidError::WhitelistSeeds)
                } else if !derives(
                    listing_seeds(self.whitelist@, self.maker_mint@, listing.bump),
                    program_id@,
                    self.listing@,
                ) {
                    Err(BidError::ListingSeeds)
                } else if listing.maker != self.maker {
                    Err(BidError::ListingSeller)
                } else {
                    self.receiver_accepted(accounts)
                }
            },
        }
    }

    /// Checks that no account stands in two roles that one account cannot
    /// fill.
    pub fn check_roles(&self) -> (distinct: bool)
        ensures
            distinct == self.roles_distinct(),
    {
        !self.taker.same(&self.taker_ata) && !self.taker.same(&self.vault) && !self.taker.same(
            &self.listing,
        ) && !self.maker.same(&self.vault) && !self.maker.same(&self.listing)
            && !self.taker_ata.same(&self.vault) && !self.taker_ata.same(&self.listing)
            && !self.vault.same(&self.listing)
    }

    /// Checks the bidder's receiving account.
    pub fn check_receiver(&self, ledger: &Ledger) -> (checked: Result<(), BidError>)
        ensures
            checked == self.receiver_accepted(ledger@),
    {
        if !ledger.contains(&self.taker_ata) {
            return Ok(());
        }
        match ledger.holding(&self.taker_ata) {
            None => Err(BidError::ReceiverOwner),
            Some(holding) => {
                if !holding.owner.same(&self.taker) {
                    Err(BidError::ReceiverOwner)
                } else if !holding.mint.same(&self.maker_mint) {
                    Err(BidError::ReceiverMint)
                } else {
                    Ok(())
                }
            },
        }
    }

    /// Runs the validation pipeline on the accounts that the bid presents:
    /// the records exist, the roles are distinct, every derived address is
    /// the one presented, the vault holds the asset under its derived
    /// authority, the listing is the seller's, and the receiving account can
    /// take the asset. The first check that fails decides the error.
    pub fn validate(&self, ledger: &Ledger, program_id: &Address) -> (checked: Result<
        (),
        BidError,
    >)
        ensures
            checked == self.validated(ledger@, *program_id),
    {
        let listing = match ledger.listing(&self.listing) {
            Some(listing) => listing,
            None => {
                return Err(BidError::ListingNotFound);
            },
        };
        let marketplace = match ledger.marketplace(&self.marketplace) {
            Some(marketplace) => marketplace,
            None => {
                return Err(BidError::MarketplaceNotFound);
            },
        };
        let whitelist = match ledger.whitelist(&self.whitelist) {
            Some(whitelist) => whitelist,
            None => {
                return Err(BidError::NotWhitelisted);
            },
        };
        let vault = match ledger.holding(&self.vault) {
            Some(vault) => vault,
            None => {
                return Err(BidError::VaultNotFound);
            },
        };
        if !self.check_roles() {
            return Err(BidError::DuplicateAccount);
        }
        let seeds = marketplace_seed_list(marketplace.name.as_str(), marketplace.bump);
        if !is_derived(&seeds, program_id, &self.marketplace) {
            return Err(BidError::MarketplaceSeeds);
        }
        let seeds = authority_seed_list(&self.maker_mint, listing.auth_bump);
        if !is_derived(&seeds, program_id, &vault.owner) {
            return Err(BidError::VaultAuthority);
        }
        if !vault.mint.same(&self.maker_mint) {
            return Err(BidError::VaultMint);
        }
        let seeds = treasury_seed_list(&self.marketplace, marketplace.treasury_bump);
        if !is_derived(&seeds, program_id, &self.treasury) {
            return Err(BidError::TreasurySeeds);
        }
        let seeds = whitelist_seed_list(&self.marketplace, &self.collection_mint, whitelist.bump);
        if !is_derived(&seeds, program_id, &self.whitelist) {
            return Err(BidError::WhitelistSeeds);
        }
        let seeds = listing_seed_list(&self.whitelist, &self.maker_mint, listing.bump);
        if !is_derived(&seeds, program_id, &self.listing) {
            return Err(BidError::ListingSeeds);
        }
        if !listing.maker.same(&self.maker) {
            return Err(BidError::ListingSeller);
        }
        self.check_receiver(ledger)
    }

    /// The price that the bid pays: the one that the listing records.
    pub open spec fn price(self, accounts: Accounts) -> u64 {
        listing_at(accounts, self.listing)->Some_0.reserve_price
    }

    /// The effect of the payment on accounts of which nothing else is asked:
    /// the price leaves the bidder's balance and arrives at the seller's. A
    /// bidder who is the seller keeps the balance.
    pub open spec fn paid(self, accounts: Accounts) -> Result<Accounts, BidError> {
        match listing_at(accounts, self.listing) {
            None => Err(BidError::ListingNotFound),
            Some(listing) => {
                let price = listing.reserve_price;
                if balance_of(accounts, self.taker) < price {
                    Err(BidError::InsufficientFunds)
                } else if self.taker == self.maker {
                    Ok(accounts)
                } else if balance_of(accounts, self.maker) + price > u64::MAX {
                    Err(BidError::BalanceOverflow)
                } else {
                    Ok(credited(debited(accounts, self.taker, price), self.maker, price))
                }
            },
        }
    }

    /// The effect of opening the bidder's receiving account on accounts of
    /// which nothing else is asked: an account that exists is checked and left
    /// as it is; where none exists, an empty holding of the asset comes to
    /// exist for the bidder.
    pub open spec fn receiver_opened(self, accounts: Accounts) -> Result<Accounts, BidError> {
        match self.receiver_accepted(accounts) {
            Err(e) => Err(e),
            Ok(()) => if accounts.dom().contains(self.taker_ata) {
                Ok(accounts)
            } else {
                Ok(
                    accounts.insert(
                        self.taker_ata,
                        AccountState {
                            lamports: 0,
                            data: AccountData::Holding(
                                Holding { mint: self.maker_mint, owner: self.taker, amount: 0 },
                            ),
                        },
                    ),
                )
            },
        }
    }

    /// The effect of the asset transfer on accounts of which nothing else is
    /// asked: one unit leaves the vault and arrives at the bidder's receiving
    /// account, signed for by the vault's derived authority.
    pub open spec fn delivered(self, accounts: Accounts, program_id: Address) -> Result<
        Accounts,
        BidError,
    > {
        match (listing_at(accounts, self.listing), holding_at(accounts, self.vault)) {
            (None, _) => Err(BidError::ListingNotFound),
            (_, None) => Err(BidError::VaultNotFound),
            (Some(listing), Some(vault)) => {
                if !self.vault_authorized(accounts, program_id) {
                    Err(BidError::VaultAuthority)
                } else {
                    match holding_at(accounts, self.taker_ata) {
                        None => Err(BidError::ReceiverOwner),
                        Some(receiver) => {
                            if receiver.mint != vault.mint {
                                Err(BidError::ReceiverMint)
                            } else if vault.amount < 1 {
                                Err(BidError::VaultEmpty)
                            } else if self.vault == self.taker_ata {
                                Ok(accounts)
                            } else if receiver.amount + 1 > u64::MAX {
                                Err(BidError::ReceiverOverflow)
                            } else {
                                Ok(unit_moved(accounts, self.vault, self.taker_ata))
                            }
                        },
                    }
                }
            },
        }
    }

    /// The effect of closing the vault on accounts of which nothing else is
    /// asked: the empty vault ceases to exist and its deposit arrives at the
    /// seller's balance, signed for by the vault's derived authority.
    pub open spec fn vault_closed(self, accounts: Accounts, program_id: Address) -> Result<
        Accounts,
        BidError,
    > {
        match (listing_at(accounts, self.listing), holding_at(accounts, self.vault)) {
            (None, _) => Err(BidError::ListingNotFound),
            (_, None) => Err(BidError::VaultNotFound),
            (Some(listing), Some(vault)) => {
                if !self.vault_authorized(accounts, program_id) {
                    Err(BidError::VaultAuthority)
                } else if vault.amount != 0 {
                    Err(BidError::VaultNotEmpty)
                } else if self.vault == self.maker {
                    Err(BidError::DuplicateAccount)
                } else if balance_of(accounts, self.maker) + accounts[self.vault].lamports
                    > u64::MAX {
                    Err(BidError::BalanceOverflow)
                } else {
                    Ok(closed_into(accounts, self.vault, self.maker))
                }
            },
        }
    }

    /// The effect of closing the listing on accounts of which nothing else is
    /// asked: the record ceases to exist and its deposit arrives at the
    /// balance of the seller who made it.
    pub open spec fn listing_closed(self, accounts: Accounts) -> Result<Accounts, BidError> {
        match listing_at(accounts, self.listing) {
            None => Err(BidError::ListingNotFound),
            Some(listing) => {
                if listing.maker != self.maker {
                    Err(BidError::ListingSeller)
                } else if self.listing == self.maker {
                    Err(BidError::DuplicateAccount)
                } else if balance_of(accounts, self.maker) + accounts[self.listing].lamports
                    > u64::MAX {
                    Err(BidError::BalanceOverflow)
                } else {
                    Ok(closed_into(accounts, self.listing, self.maker))
                }
            },
        }
    }

    /// Signs for the vault's authority with the seeds of the asset bid for.
    fn sign_for_vault(&self, listing: &Listing, vault: &Holding, program_id: &Address) -> (granted:
        Option<Capability>)
        ensures
            granted is Some == derives(
                authority_seeds(self.maker_mint@, listing.auth_bump),
                program_id@,
                vault.owner@,
            ),
            granted is Some ==> granted->Some_0.authority() == vault.owner,
    {
        let seeds = authority_seed_list(&self.maker_mint, listing.auth_bump);
        sign_as(&vault.owner, &seeds, program_id)
    }

    /// The payment by itself: the listing's price goes from the bidder to the
    /// seller.
    fn pay(&self, ledger: &mut Ledger) -> (sent: Result<(), BidError>)
        ensures
            match self.paid(old(ledger)@) {
                Ok(accounts) => sent is Ok && final(ledger)@ == accounts,
                Err(e) => sent == Err::<(), BidError>(e) && final(ledger)@ == old(ledger)@,
            },
    {
        let listing = match ledger.listing(&self.listing) {
            Some(listing) => listing,
            None => {
                return Err(BidError::ListingNotFound);
            },
        };
        let price = listing.reserve_price;
        if ledger.lamports(&self.taker) < price {
            return Err(BidError::InsufficientFunds);
        }
        if self.taker.same(&self.maker) {
            return Ok(());
        }
        if ledger.lamports(&self.maker) > u64::MAX - price {
            return Err(BidError::BalanceOverflow);
        }
        ledger.debit(&self.taker, price);
        ledger.credit(&self.maker, price);
        Ok(())
    }

    /// The opening by itself: the bidder's receiving account for the asset
    /// comes to exist if none exists.
    fn open(&self, ledger: &mut Ledger) -> (opened: Result<(), BidError>)
        ensures
            match self.receiver_opened(old(ledger)@) {
                Ok(accounts) => opened is Ok && final(ledger)@ == accounts,
                Err(e) => opened == Err::<(), BidError>(e) && final(ledger)@ == old(ledger)@,
            },
    {
        match self.check_receiver(ledger) {
            Err(e) => Err(e),
            Ok(()) => {
                if !ledger.contains(&self.taker_ata) {
                    ledger.put(
                        self.taker_ata,
                        AccountState {
                            lamports: 0,
                            data: AccountData::Holding(
                                Holding { mint: self.maker_mint, owner: self.taker, amount: 0 },
                            ),
                        },
                    );
                }
                Ok(())
            },
        }
    }

    /// The asset transfer by itself: one unit goes from the vault to the
    /// bidder's receiving account, on the signature of the vault's derived
    /// authority.
    fn deliver(&self, ledger: &mut Ledger, program_id: &Address) -> (sent: Result<(), BidError>)
        ensures
            match self.delivered(old(ledger)@, *program_id) {
                Ok(accounts) => sent is Ok && final(ledger)@ == accounts,
                Err(e) => sent == Err::<(), BidError>(e) && final(ledger)@ == old(ledger)@,
            },
    {
        let listing = match ledger.listing(&self.listing) {
            Some(listing) => listing,
            None => {
                return Err(BidError::ListingNotFound);
            },
        };
        let vault = match ledger.holding(&self.vault) {
            Some(vault) => vault,
            None => {
                return Err(BidError::VaultNotFound);
            },
        };
        let signer = match self.sign_for_vault(&listing, &vault, program_id) {
            Some(signer) => signer,
            None => {
                return Err(BidError::VaultAuthority);
            },
        };
        let receiver = match ledger.holding(&self.taker_ata) {
            Some(receiver) => receiver,
            None => {
                return Err(BidError::ReceiverOwner);
            },
        };
        if !receiver.mint.same(&vault.mint) {
            return Err(BidError::ReceiverMint);
        }
        if vault.amount < 1 {
            return Err(BidError::VaultEmpty);
        }
        if self.vault.same(&self.taker_ata) {
            return Ok(());
        }
        if receiver.amount == u64::MAX {
            return Err(BidError::ReceiverOverflow);
        }
        ledger.move_unit(&signer, &self.vault, &self.taker_ata);
        Ok(())
    }

    /// The vault's closure by itself: the emptied vault ceases to exist, on
    /// the signature of its derived authority, and its deposit goes to the
    /// seller.
    fn close_vault(&self, ledger: &mut Ledger, program_id: &Address) -> (closed: Result<
        (),
        BidError,
    >)
        ensures
            match self.vault_closed(old(ledger)@, *program_id) {
                Ok(accounts) => closed is Ok && final(ledger)@ == accounts,
                Err(e) => closed == Err::<(), BidError>(e) && final(ledger)@ == old(ledger)@,
            },
    {
        let listing = match ledger.listing(&self.listing) {
            Some(listing) => listing,
            None => {
                return Err(BidError::ListingNotFound);
            },
        };
        let vault = match ledger.holding(&self.vault) {
            Some(vault) => vault,
            None => {
                return Err(BidError::VaultNotFound);
            },
        };
        let signer = match self.sign_for_vault(&listing, &vault, program_id) {
            Some(signer) => signer,
            None => {
                return Err(BidError::VaultAuthority);
            },
        };
        if vault.amount != 0 {
            return Err(BidError::VaultNotEmpty);
        }
        if self.vault.same(&self.maker) {
            return Err(BidError::DuplicateAccount);
        }
        if ledger.lamports(&self.maker) > u64::MAX - ledger.lamports(&self.vault) {
            return Err(BidError::BalanceOverflow);
        }
        ledger.close_holding(&signer, &self.vault, &self.maker);
        Ok(())
    }

    /// The listing's closure by itself: the record ceases to exist and its
    /// deposit goes to the seller who made it.
    fn close_listing(&self, ledger: &mut Ledger) -> (closed: Result<(), BidError>)
        ensures
            match self.listing_closed(old(ledger)@) {
                Ok(accounts) => closed is Ok && final(ledger)@ == accounts,
                Err(e) => closed == Err::<(), BidError>(e) && final(ledger)@ == old(ledger)@,
            },
    {
        let listing = match ledger.listing(&self.listing) {
            Some(listing) => listing,
            None => {
                return Err(BidError::ListingNotFound);
            },
        };
        if !listing.maker.same(&self.maker) {
            return Err(BidError::ListingSeller);
        }
        if self.listing.same(&self.maker) {
            return Err(BidError::DuplicateAccount);
        }
        if ledger.lamports(&self.maker) > u64::MAX - ledger.lamports(&self.listing) {
            return Err(BidError::BalanceOverflow);
        }
        ledger.close_into(&self.listing, &self.maker);
        Ok(())
    }

    /// The units in the bidder's receiving account: 0 where none exists.
    pub open spec fn receiver_units(self, accounts: Accounts) -> u64 {
        match holding_at(accounts, self.taker_ata) {
            Some(holding) => holding.amount,
            None => 0,
        }
    }

    /// What settlement adds to the seller's balance: the price and the
    /// deposits of the vault and of the listing.
    pub open spec fn proceeds(self, accounts: Accounts) -> int {
        self.price(accounts) + accounts[self.vault].lamports + accounts[self.listing].lamports
    }

    /// The bidder's receiving account once the asset has arrived: the
    /// bidder's holding of the asset, with one unit more than before.
    pub open spec fn receiver_settled(self, accounts: Accounts) -> AccountState {
        AccountState {
            lamports: balance_of(accounts, self.taker_ata) as u64,
            data: AccountData::Holding(
                Holding {
                    mint: self.maker_mint,
                    owner: self.taker,
                    amount: (self.receiver_units(accounts) + 1) as u64,
                },
            ),
        }
    }

    /// The accounts after a settlement: one unit of the asset is in the
    /// bidder's receiving account, the price has left the bidder's balance,
    /// the price and both deposits have arrived at the seller's, and vault and
    /// listing are gone.
    pub open spec fn settled(self, accounts: Accounts) -> Accounts {
        credited(
            debited(
                accounts.insert(self.taker_ata, self.receiver_settled(accounts)),
                self.taker,
                self.price(accounts),
            ),
            self.maker,
            self.proceeds(accounts) as u64,
        ).remove(self.vault).remove(self.listing)
    }

    /// The seller's balance once the price is paid: a seller who is the
    /// bidder has paid what was received.
    pub open spec fn seller_paid(self, accounts: Accounts) -> int {
        if self.taker == self.maker {
            balance_of(accounts, self.maker)
        } else {
            balance_of(accounts, self.maker) + self.price(accounts)
        }
    }

    /// The outcome of settling the bid: the error of the first check that
    /// fails, or the accounts after settlement. Validation comes first. Then
    /// the bidder must hold the price and the seller's balance must be able
    /// to take it; the vault must hold a unit and the receiving account must
    /// be able to take it; the vault must hold no second unit; and the
    /// seller's balance must be able to take both deposits.
    pub open spec fn settlement(self, accounts: Accounts, program_id: Address) -> Result<
        Accounts,
        BidError,
    > {
        match self.validated(accounts, program_id) {
            Err(e) => Err(e),
            Ok(()) => {
                let vault = holding_at(accounts, self.vault)->Some_0;
                if balance_of(accounts, self.taker) < self.price(accounts) {
                    Err(BidError::InsufficientFunds)
                } else if self.seller_paid(accounts) > u64::MAX {
                    Err(BidError::BalanceOverflow)
                } else if vault.amount == 0 {
                    Err(BidError::VaultEmpty)
                } else if self.receiver_units(accounts) + 1 > u64::MAX {
                    Err(BidError::ReceiverOverflow)
                } else if vault.amount > 1 {
                    Err(BidError::VaultNotEmpty)
                } else if self.seller_paid(accounts) + accounts[self.vault].lamports
                    + accounts[self.listing].lamports > u64::MAX {
                    Err(BidError::BalanceOverflow)
                } else {
                    Ok(self.settled(accounts))
                }
            },
        }
    }

    /// The outcome of closing vault and listing, the vault first.
    pub open spec fn closed(self, accounts: Accounts, program_id: Address) -> Result<
        Accounts,
        BidError,
    > {
        match self.vault_closed(accounts, program_id) {
            Err(e) => Err(e),
            Ok(vault_closed) => self.listing_closed(vault_closed),
        }
    }

    /// The outcome of what remains of a settlement once the price is paid:
    /// the asset is handed over, then vault and listing are closed.
    pub open spec fn from_delivery(self, accounts: Accounts, program_id: Address) -> Result<
        Accounts,
        BidError,
    > {
        match self.delivered(accounts, program_id) {
            Err(e) => Err(e),
            Ok(delivered) => self.closed(delivered, program_id),
        }
    }

    /// The outcome of what remains of a settlement once the receiving account
    /// is open: the price is paid, the asset is handed over, then vault and
    /// listing are closed.
    pub open spec fn from_payment(self, accounts: Accounts, program_id: Address) -> Result<
        Accounts,
        BidError,
    > {
        match self.paid(accounts) {
            Err(e) => Err(e),
            Ok(paid) => self.from_delivery(paid, program_id),
        }
    }

    /// The outcome of the steps of a settlement, each made on what the step
    /// before it left: the receiving account is opened, the price is paid,
    /// the asset is handed over, the vault is closed, the listing is closed.
    /// The first step that fails decides the error.
    pub open spec fn in_steps(self, accounts: Accounts, program_id: Address) -> Result<
        Accounts,
        BidError,
    > {
        match self.receiver_opened(accounts) {
            Err(e) => Err(e),
            Ok(opened) => self.from_payment(opened, program_id),
        }
    }

    /// The outcome of one step that a caller makes by itself. The step is
    /// refused with the error of validation where the bid does not pass it,
    /// and with the error of `rest` where the step and all that follows it in
    /// the settlement would not go through; else it has its `effect`.
    pub open spec fn step(
        self,
        accounts: Accounts,
        program_id: Address,
        rest: Result<Accounts, BidError>,
        effect: Result<Accounts, BidError>,
    ) -> Result<Accounts, BidError> {
        match self.validated(accounts, program_id) {
            Err(e) => Err(e),
            Ok(()) => match rest {
                Err(e) => Err(e),
                Ok(_) => effect,
            },
        }
    }

    /// The outcome of opening the receiving account as a step of its own.
    pub open spec fn receiver_opening(self, accounts: Accounts, program_id: Address) -> Result<
        Accounts,
        BidError,
    > {
        self.step(
            accounts,
            program_id,
            self.in_steps(accounts, program_id),
            self.receiver_opened(accounts),
        )
    }

    /// The outcome of the payment as a step of its own.
    pub open spec fn payment(self, accounts: Accounts, program_id: Address) -> Result<
        Accounts,
        BidError,
    > {
        self.step(accounts, program_id, self.from_payment(accounts, program_id), self.paid(accounts))
    }

    /// The outcome of the asset transfer as a step of its own.
    pub open spec fn delivery(self, accounts: Accounts, program_id: Address) -> Result<
        Accounts,
        BidError,
    > {
        self.step(
            accounts,
            program_id,
            self.from_delivery(accounts, program_id),
            self.delivered(accounts, program_id),
        )
    }

    /// The outcome of the closure of vault and listing as a step of its own.
    pub open spec fn closure(self, accounts: Accounts, program_id: Address) -> Result<
        Accounts,
        BidError,
    > {
        self.step(
            accounts,
            program_id,
            self.closed(accounts, program_id),
            self.closed(accounts, program_id),
        )
    }

    /// Closes vault and listing on a trial ledger.
    fn try_closure(&self, trial: &mut Ledger, program_id: &Address) -> (tried: Result<
        (),
        BidError,
    >)
        ensures
            match self.closed(old(trial)@, *program_id) {
                Ok(accounts) => tried is Ok && final(trial)@ == accounts,
                Err(e) => tried == Err::<(), BidError>(e),
            },
    {
        match self.close_vault(trial, program_id) {
            Err(e) => Err(e),
            Ok(()) => self.close_listing(trial),
        }
    }

    /// Hands the asset over and closes vault and listing on a trial ledger.
    fn try_from_delivery(&self, trial: &mut Ledger, program_id: &Address) -> (tried: Result<
        (),
        BidError,
    >)
        ensures
            match self.from_delivery(old(trial)@, *program_id) {
                Ok(accounts) => tried is Ok && final(trial)@ == accounts,
                Err(e) => tried == Err::<(), BidError>(e),
            },
    {
        match self.deliver(trial, program_id) {
            Err(e) => Err(e),
            Ok(()) => self.try_closure(trial, program_id),
        }
    }

    /// Pays, hands the asset over and closes vault and listing on a trial
    /// ledger.
    fn try_from_payment(&self, trial: &mut Ledger, program_id: &Address) -> (tried: Result<
        (),
        BidError,
    >)
        ensures
            match self.from_payment(old(trial)@, *program_id) {
                Ok(accounts) => tried is Ok && final(trial)@ == accounts,
                Err(e) => tried == Err::<(), BidError>(e),
            },
    {
        match self.pay(trial) {
            Err(e) => Err(e),
            Ok(()) => self.try_from_delivery(trial, program_id),
        }
    }

    /// Makes every step of the settlement on a trial ledger.
    fn try_in_steps(&self, trial: &mut Ledger, program_id: &Address) -> (tried: Result<
        (),
        BidError,
    >)
        ensures
            match self.in_steps(old(trial)@, *program_id) {
                Ok(accounts) => tried is Ok && final(trial)@ == accounts,
                Err(e) => tried == Err::<(), BidError>(e),
            },
    {
        match self.open(trial) {
            Err(e) => Err(e),
            Ok(()) => self.try_from_payment(trial, program_id),
        }
    }

    /// Opens the bidder's receiving account for the asset if none exists,
    /// as the first step of a settlement. The step is refused, and nothing
    /// changes, where the bid does not pass validation or the settlement
    /// would not go through. After it the payment can be made.
    pub fn open_receiver(&self, ledger: &mut Ledger, program_id: &Address) -> (opened: Result<
        (),
        BidError,
    >)
        ensures
            match self.receiver_opening(old(ledger)@, *program_id) {
                Ok(accounts) => opened is Ok && final(ledger)@ == accounts,
                Err(e) => opened == Err::<(), BidError>(e) && final(ledger)@ == old(ledger)@,
            },
            opened is Ok ==> self.payment(final(ledger)@, *program_id) is Ok,
    {
        match self.validate(ledger, program_id) {
            Err(e) => {
                return Err(e);
            },
            Ok(()) => {},
        }
        let mut trial = ledger.snapshot();
        match self.try_in_steps(&mut trial, program_id) {
            Err(e) => {
                return Err(e);
            },
            Ok(()) => {},
        }
        proof {
            law_validation_survives_the_steps(*self, ledger@, *program_id);
        }
        self.open(ledger)
    }

    /// Pays the listing's price from the bidder to the seller, as the step
    /// of a settlement that follows the opening of the receiving account. The
    /// step is refused, and nothing changes, where the bid does not pass
    /// validation or what remains of the settlement would not go through.
    /// After it the asset can be handed over.
    pub fn send_sol(&self, ledger: &mut Ledger, program_id: &Address) -> (sent: Result<
        (),
        BidError,
    >)
        ensures
            match self.payment(old(ledger)@, *program_id) {
                Ok(accounts) => sent is Ok && final(ledger)@ == accounts,
                Err(e) => sent == Err::<(), BidError>(e) && final(ledger)@ == old(ledger)@,
            },
            sent is Ok ==> self.delivery(final(ledger)@, *program_id) is Ok,
    {
        match self.validate(ledger, program_id) {
            Err(e) => {
                return Err(e);
            },
            Ok(()) => {},
        }
        let mut trial = ledger.snapshot();
        match self.try_from_payment(&mut trial, program_id) {
            Err(e) => {
                return Err(e);
            },
            Ok(()) => {},
        }
        proof {
            law_validation_survives_the_steps(*self, ledger@, *program_id);
        }
        self.pay(ledger)
    }

    /// Moves one unit of the asset from the vault to the bidder's receiving
    /// account, signing for the vault's derived authority, as the step of a
    /// settlement that follows the payment. The step is refused, and nothing
    /// changes, where the bid does not pass validation or what remains of the
    /// settlement would not go through. After it vault and listing can be
    /// closed.
    pub fn send_nft(&self, ledger: &mut Ledger, program_id: &Address) -> (sent: Result<
        (),
        BidError,
    >)
        ensures
            match self.delivery(old(ledger)@, *program_id) {
                Ok(accounts) => sent is Ok && final(ledger)@ == accounts,
                Err(e) => sent == Err::<(), BidError>(e) && final(ledger)@ == old(ledger)@,
            },
            sent is Ok ==> self.closure(final(ledger)@, *program_id) is Ok,
    {
        match self.validate(ledger, program_id) {
            Err(e) => {
                return Err(e);
            },
            Ok(()) => {},
        }
        let mut trial = ledger.snapshot();
        match self.try_from_delivery(&mut trial, program_id) {
            Err(e) => {
                return Err(e);
            },
            Ok(()) => {},
        }
        proof {
            law_validation_survives_the_steps(*self, ledger@, *program_id);
        }
        self.deliver(ledger, program_id)
    }

    /// Closes the emptied vault, signing for its derived authority, and the
    /// listing record, and returns both deposits to the seller, as the last
    /// step of a settlement. The step is refused, and nothing changes, where
    /// the bid does not pass validation or either closure would fail.
    pub fn close_mint_ata(&mut self, ledger: &mut Ledger, program_id: &Address) -> (closed: Result<
        (),
        BidError,
    >)
        ensures
            *final(self) == *old(self),
            match old(self).closure(old(ledger)@, *program_id) {
                Ok(accounts) => closed is Ok && final(ledger)@ == accounts,
                Err(e) => closed == Err::<(), BidError>(e) && final(ledger)@ == old(ledger)@,
            },
    {
        match self.validate(ledger, program_id) {
            Err(e) => {
                return Err(e);
            },
            Ok(()) => {},
        }
        let mut trial = ledger.snapshot();
        match self.try_closure(&mut trial, program_id) {
            Err(e) => Err(e),
            Ok(()) => {
                *ledger = trial;
                Ok(())
            },
        }
    }

    /// Settles the bid as one unit: after validation, the receiving account
    /// is opened, the price is paid, the asset is handed over, and vault and
    /// listing are closed, in this order. Where any check fails, no account
    /// changes.
    pub fn settle(&self, ledger: &mut Ledger, program_id: &Address) -> (settled: Result<
        (),
        BidError,
    >)
        ensures
            match self.settlement(old(ledger)@, *program_id) {
                Ok(accounts) => settled is Ok && final(ledger)@ == accounts,
                Err(e) => settled == Err::<(), BidError>(e) && final(ledger)@ == old(ledger)@,
            },
    {
        match self.validate(ledger, program_id) {
            Err(e) => {
                return Err(e);
            },
            Ok(()) => {},
        }
        proof {
            law_settlement_is_its_steps_in_order(*self, ledger@, *program_id);
        }
        let mut trial = ledger.snapshot();
        match self.try_in_steps(&mut trial, program_id) {
            Err(e) => Err(e),
            Ok(()) => {
                *ledger = trial;
                Ok(())
            },
        }
    }

    /// Plans the settlement of the bid without changing the ledger. A plan is
    /// made exactly where the bid settles: it names the listing's price, the
    /// one unit that leaves the vault, the seeds that sign for the vault's
    /// authority and whether the receiving account is missing. Where the bid
    /// does not settle, the error is that of the settlement.
    pub fn plan(&self, ledger: &Ledger, program_id: &Address) -> (planned: Result<Plan, BidError>)
        ensures
            match self.settlement(ledger@, *program_id) {
                Err(e) => planned == Err::<Plan, BidError>(e),
                Ok(_) => {
                    &&& planned is Ok
                    &&& planned->Ok_0.price == self.price(ledger@)
                    &&& planned->Ok_0.units == 1
                    &&& seed_bytes(&planned->Ok_0.authority_seeds) == authority_seeds(
                        self.maker_mint@,
                        listing_at(ledger@, self.listing)->Some_0.auth_bump,
                    )
                    &&& planned->Ok_0.opens_receiver == !ledger@.dom().contains(self.taker_ata)
                },
            },
    {
        let mut trial = ledger.snapshot();
        match self.settle(&mut trial, program_id) {
            Err(e) => {
                return Err(e);
            },
            Ok(()) => {},
        }
        match ledger.listing(&self.listing) {
            None => Err(BidError::ListingNotFound),
            Some(listing) => Ok(
                Plan {
                    price: listing.reserve_price,
                    units: 1,
                    authority_seeds: authority_seed_list(&self.maker_mint, listing.auth_bump),
                    opens_receiver: !ledger.contains(&self.taker_ata),
                },
            ),
        }
    }
}

} // verus!
