use anchor_lang::prelude::Pubkey;
use anchor_marketplace::address::Address;
use anchor_marketplace::bid::Bid;
use anchor_marketplace::errors::{BidError, ErrorClass};
use anchor_marketplace::ledger::{AccountData, AccountState, Holding, Ledger, ListingStatus};
use anchor_marketplace::state::{Listing, Marketplace, Whitelist};

const PRICE: u64 = 500;
const BIDDER_FUNDS: u64 = 10_000;
const SELLER_FUNDS: u64 = 100;
const VAULT_DEPOSIT: u64 = 2_039_280;
const LISTING_DEPOSIT: u64 = 1_461_600;

fn key(byte: u8) -> Address {
    Address::new([byte; 32])
}

fn program() -> Address {
    key(9)
}

fn find(seeds: &[&[u8]]) -> (Address, u8) {
    let (found, bump) = Pubkey::find_program_address(seeds, &Pubkey::new_from_array([9u8; 32]));
    (Address::new(found.to_bytes()), bump)
}

fn seller() -> Address {
    key(1)
}

fn bidder() -> Address {
    key(2)
}

fn receiver() -> Address {
    key(3)
}

fn collection() -> Address {
    key(5)
}

fn asset() -> Address {
    key(6)
}

fn other_asset() -> Address {
    key(7)
}

fn wallet(lamports: u64) -> AccountState {
    AccountState { lamports, data: AccountData::Wallet }
}

fn holding(mint: Address, owner: Address, amount: u64, lamports: u64) -> AccountState {
    AccountState { lamports, data: AccountData::Holding(Holding { mint, owner, amount }) }
}

/// A ledger with an open listing of `asset()` at 500, and the bid on it.
fn open_listing() -> (Ledger, Bid) {
    let (marketplace, marketplace_bump) = find(&[b"marketplace", b"bazaar"]);
    let (treasury, treasury_bump) = find(&[b"treasury", &marketplace.bytes]);
    let (whitelist, whitelist_bump) = find(&[&marketplace.bytes, &collection().bytes]);
    let (listing, listing_bump) = find(&[&whitelist.bytes, &asset().bytes]);
    let (authority, auth_bump) = find(&[b"auth", &asset().bytes]);
    let mut ledger = Ledger::new();
    ledger.put(bidder(), wallet(BIDDER_FUNDS));
    ledger.put(seller(), wallet(SELLER_FUNDS));
    ledger.put(
        marketplace,
        AccountState {
            lamports: 1_447_680,
            data: AccountData::Marketplace(Marketplace {
                admin: key(4),
                fee: 250,
                bump: marketplace_bump,
                treasury_bump,
                name: String::from("bazaar"),
            }),
        },
    );
    ledger.put(
        whitelist,
        AccountState {
            lamports: 953_520,
            data: AccountData::Whitelist(Whitelist { bump: whitelist_bump }),
        },
    );
    ledger.put(authority, holding(asset(), authority, 1, VAULT_DEPOSIT));
    ledger.put(
        listing,
        AccountState {
            lamports: LISTING_DEPOSIT,
            data: AccountData::Listing(Listing {
                maker: seller(),
                mint: asset(),
                reserve_price: PRICE,
                bump: listing_bump,
                auth_bump,
                expiry: 0,
                highest_bid: 0,
                highest_bidder: key(0),
            }),
        },
    );
    let bid = Bid {
        taker: bidder(),
        maker: seller(),
        marketplace,
        taker_ata: receiver(),
        vault: authority,
        treasury,
        maker_mint: asset(),
        collection_mint: collection(),
        whitelist,
        listing,
    };
    (ledger, bid)
}

fn roles(bid: &Bid) -> Vec<Address> {
    vec![
        bid.taker,
        bid.maker,
        bid.marketplace,
        bid.taker_ata,
        bid.vault,
        bid.treasury,
        bid.maker_mint,
        bid.collection_mint,
        bid.whitelist,
        bid.listing,
        key(42),
    ]
}

fn snapshot(ledger: &Ledger, bid: &Bid) -> (usize, Vec<Option<AccountState>>) {
    (
        ledger.len(),
        roles(bid).iter().map(|address| ledger.get(address).cloned()).collect(),
    )
}

fn set_listing(ledger: &mut Ledger, bid: &Bid, change: impl Fn(&mut Listing)) {
    let mut listing = ledger.listing(&bid.listing).unwrap();
    let lamports = ledger.lamports(&bid.listing);
    change(&mut listing);
    ledger.put(bid.listing, AccountState { lamports, data: AccountData::Listing(listing) });
}

fn set_vault(ledger: &mut Ledger, bid: &Bid, change: impl Fn(&mut Holding)) {
    let mut vault = ledger.holding(&bid.vault).unwrap();
    let lamports = ledger.lamports(&bid.vault);
    change(&mut vault);
    ledger.put(bid.vault, AccountState { lamports, data: AccountData::Holding(vault) });
}

fn assert_refused(ledger: &mut Ledger, bid: &Bid, expected: BidError) {
    let before = snapshot(ledger, bid);
    assert_eq!(bid.validate(ledger, &program()).err().or(Some(expected)), Some(expected));
    assert_eq!(bid.settle(ledger, &program()), Err(expected));
    assert_eq!(snapshot(ledger, bid), before);
}

#[test]
fn valid_bid_passes_validation() {
    let (ledger, bid) = open_listing();
    assert_eq!(bid.validate(&ledger, &program()), Ok(()));
    assert!(bid.check_roles());
    assert_eq!(bid.check_receiver(&ledger), Ok(()));
}

#[test]
fn settlement_pays_seller_and_delivers_asset() {
    let (mut ledger, bid) = open_listing();
    let accounts_before = ledger.len();
    assert_eq!(ledger.listing_status(&bid.listing), ListingStatus::Open);
    assert_eq!(bid.settle(&mut ledger, &program()), Ok(()));
    assert_eq!(ledger.lamports(&bidder()), BIDDER_FUNDS - 500);
    assert_eq!(ledger.lamports(&bidder()), 9_500);
    assert_eq!(
        ledger.lamports(&seller()),
        SELLER_FUNDS + 500 + VAULT_DEPOSIT + LISTING_DEPOSIT
    );
    assert_eq!(ledger.lamports(&seller()), 3_501_480);
    assert_eq!(
        ledger.holding(&receiver()),
        Some(Holding { mint: asset(), owner: bidder(), amount: 1 })
    );
    assert_eq!(ledger.lamports(&receiver()), 0);
    assert!(!ledger.contains(&bid.vault));
    assert!(!ledger.contains(&bid.listing));
    assert_eq!(ledger.listing_status(&bid.listing), ListingStatus::Closed);
    // two accounts closed, one opened
    assert_eq!(ledger.len(), accounts_before - 1);
}

#[test]
fn settlement_leaves_other_accounts_alone() {
    let (mut ledger, bid) = open_listing();
    ledger.put(key(42), wallet(77));
    let marketplace_before = ledger.get(&bid.marketplace).cloned();
    let whitelist_before = ledger.get(&bid.whitelist).cloned();
    assert_eq!(bid.settle(&mut ledger, &program()), Ok(()));
    assert_eq!(ledger.get(&key(42)), Some(&wallet(77)));
    assert_eq!(ledger.get(&bid.marketplace).cloned(), marketplace_before);
    assert_eq!(ledger.get(&bid.whitelist).cloned(), whitelist_before);
    assert!(!ledger.contains(&bid.treasury));
    assert!(!ledger.contains(&bid.maker_mint));
}

#[test]
fn settlement_adds_to_an_existing_receiving_account() {
    let (mut ledger, bid) = open_listing();
    ledger.put(receiver(), holding(asset(), bidder(), 4, 2_039_280));
    assert_eq!(bid.settle(&mut ledger, &program()), Ok(()));
    assert_eq!(
        ledger.get(&receiver()),
        Some(&holding(asset(), bidder(), 5, 2_039_280))
    );
    assert_eq!(ledger.lamports(&bidder()), 9_500);
}

#[test]
fn settlement_with_exact_funds_empties_the_bidder() {
    let (mut ledger, bid) = open_listing();
    ledger.put(bidder(), wallet(500));
    assert_eq!(bid.settle(&mut ledger, &program()), Ok(()));
    assert_eq!(ledger.get(&bidder()), Some(&wallet(0)));
}

#[test]
fn settlement_at_price_zero_moves_only_asset_and_deposits() {
    let (mut ledger, bid) = open_listing();
    set_listing(&mut ledger, &bid, |listing| listing.reserve_price = 0);
    ledger.remove(&bidder());
    assert_eq!(bid.settle(&mut ledger, &program()), Ok(()));
    assert!(!ledger.contains(&bidder()));
    assert_eq!(ledger.lamports(&seller()), SELLER_FUNDS + VAULT_DEPOSIT + LISTING_DEPOSIT);
    assert_eq!(ledger.holding(&receiver()).map(|held| held.amount), Some(1));
}

#[test]
fn settlement_creates_the_seller_wallet_if_absent() {
    let (mut ledger, bid) = open_listing();
    ledger.remove(&seller());
    assert_eq!(bid.settle(&mut ledger, &program()), Ok(()));
    assert_eq!(
        ledger.get(&seller()),
        Some(&wallet(500 + VAULT_DEPOSIT + LISTING_DEPOSIT))
    );
}

#[test]
fn vault_may_live_at_any_address_under_the_derived_authority() {
    let (mut ledger, mut bid) = open_listing();
    let vault = ledger.remove(&bid.vault).unwrap();
    ledger.put(key(8), vault);
    bid.vault = key(8);
    assert_eq!(bid.settle(&mut ledger, &program()), Ok(()));
    assert!(!ledger.contains(&key(8)));
    assert_eq!(ledger.holding(&receiver()).map(|held| held.amount), Some(1));
}

#[test]
fn vault_under_authority_of_another_asset_is_refused() {
    let (mut ledger, bid) = open_listing();
    let (foreign, _) = find(&[b"auth", &other_asset().bytes]);
    set_vault(&mut ledger, &bid, |vault| vault.owner = foreign);
    assert_refused(&mut ledger, &bid, BidError::VaultAuthority);
    assert!(BidError::VaultAuthority.is_authorization());
    assert_eq!(ledger.lamports(&bidder()), BIDDER_FUNDS);
    assert_eq!(ledger.lamports(&seller()), SELLER_FUNDS);
    assert_eq!(ledger.holding(&bid.vault).map(|held| held.amount), Some(1));
    assert!(!ledger.contains(&receiver()));
    assert_eq!(ledger.listing_status(&bid.listing), ListingStatus::Open);
}

#[test]
fn bid_for_another_asset_than_the_vault_authority_derives_from_is_refused() {
    let (mut ledger, mut bid) = open_listing();
    bid.maker_mint = other_asset();
    let error = bid.settle(&mut ledger, &program()).unwrap_err();
    assert_eq!(error, BidError::VaultAuthority);
    assert_eq!(error.class(), ErrorClass::Authorization);
    assert_eq!(ledger.lamports(&bidder()), BIDDER_FUNDS);
}

#[test]
fn vault_authority_with_a_wrong_nonce_is_refused() {
    let (mut ledger, bid) = open_listing();
    set_listing(&mut ledger, &bid, |listing| listing.auth_bump = listing.auth_bump.wrapping_sub(1));
    assert_refused(&mut ledger, &bid, BidError::VaultAuthority);
}

#[test]
fn second_settlement_finds_no_listing() {
    let (mut ledger, bid) = open_listing();
    assert_eq!(bid.settle(&mut ledger, &program()), Ok(()));
    let after_first = snapshot(&ledger, &bid);
    assert_eq!(bid.settle(&mut ledger, &program()), Err(BidError::ListingNotFound));
    assert_eq!(snapshot(&ledger, &bid), after_first);
    let mut rival = bid;
    rival.taker = key(20);
    rival.taker_ata = key(21);
    ledger.put(key(20), wallet(BIDDER_FUNDS));
    assert_eq!(rival.settle(&mut ledger, &program()), Err(BidError::ListingNotFound));
    assert_eq!(ledger.lamports(&key(20)), BIDDER_FUNDS);
}

#[test]
fn missing_records_are_refused() {
    let (mut ledger, bid) = open_listing();
    ledger.remove(&bid.vault);
    assert_refused(&mut ledger, &bid, BidError::VaultNotFound);
    ledger.remove(&bid.whitelist);
    assert_refused(&mut ledger, &bid, BidError::NotWhitelisted);
    ledger.remove(&bid.marketplace);
    assert_refused(&mut ledger, &bid, BidError::MarketplaceNotFound);
    ledger.remove(&bid.listing);
    assert_refused(&mut ledger, &bid, BidError::ListingNotFound);
}

#[test]
fn record_of_the_wrong_kind_is_refused() {
    let (mut ledger, bid) = open_listing();
    ledger.put(bid.vault, wallet(VAULT_DEPOSIT));
    assert_refused(&mut ledger, &bid, BidError::VaultNotFound);
    let (mut ledger, bid) = open_listing();
    ledger.put(bid.listing, wallet(LISTING_DEPOSIT));
    assert_refused(&mut ledger, &bid, BidError::ListingNotFound);
}

#[test]
fn one_account_in_two_roles_is_refused() {
    let (mut ledger, mut bid) = open_listing();
    bid.taker = bid.vault;
    assert!(!bid.check_roles());
    assert_refused(&mut ledger, &bid, BidError::DuplicateAccount);
    let (mut ledger, mut bid) = open_listing();
    bid.maker = bid.listing;
    assert!(!bid.check_roles());
    assert_refused(&mut ledger, &bid, BidError::DuplicateAccount);
    let (mut ledger, mut bid) = open_listing();
    bid.taker_ata = bid.taker;
    assert!(!bid.check_roles());
    assert_refused(&mut ledger, &bid, BidError::DuplicateAccount);
    let (mut ledger, mut bid) = open_listing();
    bid.taker_ata = bid.vault;
    assert!(!bid.check_roles());
    assert_refused(&mut ledger, &bid, BidError::DuplicateAccount);
}

#[test]
fn seller_bidding_on_own_listing_gets_asset_and_deposits_back() {
    let (mut ledger, mut bid) = open_listing();
    bid.taker = seller();
    assert!(bid.check_roles());
    assert_refused(&mut ledger, &bid, BidError::InsufficientFunds);
    ledger.put(seller(), wallet(500));
    assert_eq!(bid.settle(&mut ledger, &program()), Ok(()));
    assert_eq!(ledger.lamports(&seller()), 500 + VAULT_DEPOSIT + LISTING_DEPOSIT);
    assert_eq!(ledger.lamports(&bidder()), BIDDER_FUNDS);
    assert_eq!(
        ledger.holding(&receiver()),
        Some(Holding { mint: asset(), owner: seller(), amount: 1 })
    );
    assert!(!ledger.contains(&bid.vault));
    assert!(!ledger.contains(&bid.listing));
}

#[test]
fn seller_bidding_on_own_listing_may_hold_the_full_balance() {
    let (mut ledger, mut bid) = open_listing();
    bid.taker = seller();
    ledger.put(seller(), wallet(u64::MAX - VAULT_DEPOSIT - LISTING_DEPOSIT));
    assert_eq!(bid.settle(&mut ledger, &program()), Ok(()));
    assert_eq!(ledger.lamports(&seller()), u64::MAX);
}

#[test]
fn seller_may_be_paid_into_the_receiving_account() {
    let (mut ledger, mut bid) = open_listing();
    let listing = bid.listing;
    set_listing(&mut ledger, &bid, |record| record.maker = receiver());
    bid.maker = receiver();
    assert_eq!(bid.listing, listing);
    assert!(bid.check_roles());
    assert_eq!(bid.settle(&mut ledger, &program()), Ok(()));
    assert_eq!(
        ledger.get(&receiver()),
        Some(&holding(asset(), bidder(), 1, 500 + VAULT_DEPOSIT + LISTING_DEPOSIT))
    );
    assert_eq!(ledger.lamports(&bidder()), 9_500);
    assert_eq!(ledger.lamports(&seller()), SELLER_FUNDS);
}

#[test]
fn settlement_reads_no_auction_field() {
    let (mut plain, bid) = open_listing();
    let (mut other, same_bid) = open_listing();
    set_listing(&mut other, &bid, |listing| {
        listing.expiry = -1;
        listing.highest_bid = u64::MAX;
        listing.highest_bidder = key(77);
    });
    assert_eq!(bid, same_bid);
    assert_eq!(bid.validate(&other, &program()), Ok(()));
    assert_eq!(bid.settle(&mut other, &program()), Ok(()));
    assert_eq!(bid.settle(&mut plain, &program()), Ok(()));
    assert_eq!(snapshot(&other, &bid), snapshot(&plain, &bid));
    let (mut poor, bid) = open_listing();
    poor.put(bidder(), wallet(1));
    set_listing(&mut poor, &bid, |listing| listing.expiry = i64::MAX);
    assert_refused(&mut poor, &bid, BidError::InsufficientFunds);
}

#[test]
fn ledger_errors_come_in_the_order_of_the_steps() {
    let (mut ledger, bid) = open_listing();
    ledger.put(seller(), wallet(u64::MAX));
    set_vault(&mut ledger, &bid, |vault| vault.amount = 0);
    ledger.put(bidder(), wallet(499));
    assert_refused(&mut ledger, &bid, BidError::InsufficientFunds);
    ledger.put(bidder(), wallet(500));
    assert_refused(&mut ledger, &bid, BidError::BalanceOverflow);
    ledger.put(seller(), wallet(u64::MAX - 500));
    ledger.put(receiver(), holding(asset(), bidder(), u64::MAX, 0));
    assert_refused(&mut ledger, &bid, BidError::VaultEmpty);
    set_vault(&mut ledger, &bid, |vault| vault.amount = 2);
    assert_refused(&mut ledger, &bid, BidError::ReceiverOverflow);
    ledger.put(receiver(), holding(asset(), bidder(), 0, 0));
    assert_refused(&mut ledger, &bid, BidError::VaultNotEmpty);
    set_vault(&mut ledger, &bid, |vault| vault.amount = 1);
    assert_refused(&mut ledger, &bid, BidError::BalanceOverflow);
}

#[test]
fn marketplace_at_an_underived_address_is_refused() {
    let (mut ledger, mut bid) = open_listing();
    let record = ledger.remove(&bid.marketplace).unwrap();
    ledger.put(key(30), record);
    bid.marketplace = key(30);
    assert_refused(&mut ledger, &bid, BidError::MarketplaceSeeds);
}

#[test]
fn marketplace_with_another_name_is_refused() {
    let (mut ledger, bid) = open_listing();
    let mut record = ledger.remove(&bid.marketplace).unwrap();
    if let AccountData::Marketplace(marketplace) = &mut record.data {
        marketplace.name = String::from("bazaar2");
    }
    ledger.put(bid.marketplace, record);
    assert_refused(&mut ledger, &bid, BidError::MarketplaceSeeds);
}

#[test]
fn vault_of_another_asset_is_refused() {
    let (mut ledger, bid) = open_listing();
    set_vault(&mut ledger, &bid, |vault| vault.mint = other_asset());
    assert_refused(&mut ledger, &bid, BidError::VaultMint);
}

#[test]
fn underived_treasury_is_refused() {
    let (mut ledger, mut bid) = open_listing();
    bid.treasury = key(31);
    assert_refused(&mut ledger, &bid, BidError::TreasurySeeds);
}

#[test]
fn whitelist_of_another_collection_is_refused() {
    let (mut ledger, mut bid) = open_listing();
    bid.collection_mint = key(32);
    assert_refused(&mut ledger, &bid, BidError::WhitelistSeeds);
}

#[test]
fn listing_at_an_underived_address_is_refused() {
    let (mut ledger, bid) = open_listing();
    set_listing(&mut ledger, &bid, |listing| listing.bump = listing.bump.wrapping_sub(1));
    assert_refused(&mut ledger, &bid, BidError::ListingSeeds);
}

#[test]
fn listing_of_another_seller_is_refused() {
    let (mut ledger, mut bid) = open_listing();
    bid.maker = key(33);
    assert_refused(&mut ledger, &bid, BidError::ListingSeller);
}

#[test]
fn receiving_account_of_someone_else_is_refused() {
    let (mut ledger, bid) = open_listing();
    ledger.put(receiver(), holding(asset(), key(34), 0, 0));
    assert_eq!(bid.check_receiver(&ledger), Err(BidError::ReceiverOwner));
    assert_refused(&mut ledger, &bid, BidError::ReceiverOwner);
    ledger.put(receiver(), wallet(5));
    assert_refused(&mut ledger, &bid, BidError::ReceiverOwner);
}

#[test]
fn receiving_account_of_another_asset_is_refused() {
    let (mut ledger, bid) = open_listing();
    ledger.put(receiver(), holding(other_asset(), bidder(), 0, 0));
    assert_refused(&mut ledger, &bid, BidError::ReceiverMint);
}

#[test]
fn bidder_without_the_price_is_refused() {
    let (mut ledger, bid) = open_listing();
    ledger.put(bidder(), wallet(499));
    assert_refused(&mut ledger, &bid, BidError::InsufficientFunds);
    ledger.remove(&bidder());
    assert_refused(&mut ledger, &bid, BidError::InsufficientFunds);
    assert_eq!(BidError::InsufficientFunds.class(), ErrorClass::Ledger);
}

#[test]
fn empty_vault_is_refused() {
    let (mut ledger, bid) = open_listing();
    set_vault(&mut ledger, &bid, |vault| vault.amount = 0);
    assert_refused(&mut ledger, &bid, BidError::VaultEmpty);
}

#[test]
fn vault_with_more_than_one_unit_is_refused() {
    let (mut ledger, bid) = open_listing();
    set_vault(&mut ledger, &bid, |vault| vault.amount = 2);
    assert_refused(&mut ledger, &bid, BidError::VaultNotEmpty);
}

#[test]
fn full_receiving_account_is_refused() {
    let (mut ledger, bid) = open_listing();
    ledger.put(receiver(), holding(asset(), bidder(), u64::MAX, 0));
    assert_refused(&mut ledger, &bid, BidError::ReceiverOverflow);
}

#[test]
fn seller_balance_that_would_overflow_is_refused() {
    let (mut ledger, bid) = open_listing();
    let proceeds = 500 + VAULT_DEPOSIT + LISTING_DEPOSIT;
    ledger.put(seller(), wallet(u64::MAX - proceeds + 1));
    assert_refused(&mut ledger, &bid, BidError::BalanceOverflow);
    ledger.put(seller(), wallet(u64::MAX - proceeds));
    assert_eq!(bid.settle(&mut ledger, &program()), Ok(()));
    assert_eq!(ledger.lamports(&seller()), u64::MAX);
}

#[test]
fn validation_reports_the_first_failing_check() {
    let (mut ledger, mut bid) = open_listing();
    bid.treasury = key(31);
    bid.maker = key(33);
    ledger.put(bidder(), wallet(0));
    assert_refused(&mut ledger, &bid, BidError::TreasurySeeds);
    set_vault(&mut ledger, &bid, |vault| vault.mint = other_asset());
    assert_refused(&mut ledger, &bid, BidError::VaultMint);
}

#[test]
fn steps_in_turn_amount_to_the_settlement() {
    let (mut ledger, mut bid) = open_listing();
    let (mut whole, same_bid) = open_listing();
    assert_eq!(bid.open_receiver(&mut ledger, &program()), Ok(()));
    assert_eq!(ledger.get(&receiver()), Some(&holding(asset(), bidder(), 0, 0)));
    assert_eq!(ledger.lamports(&bidder()), BIDDER_FUNDS);
    assert_eq!(bid.send_sol(&mut ledger, &program()), Ok(()));
    assert_eq!(ledger.lamports(&bidder()), 9_500);
    assert_eq!(ledger.lamports(&seller()), 600);
    assert_eq!(ledger.holding(&bid.vault).map(|held| held.amount), Some(1));
    assert_eq!(bid.send_nft(&mut ledger, &program()), Ok(()));
    assert_eq!(ledger.holding(&bid.vault).map(|held| held.amount), Some(0));
    assert_eq!(ledger.holding(&receiver()).map(|held| held.amount), Some(1));
    assert_eq!(ledger.lamports(&seller()), 600);
    assert_eq!(bid.close_mint_ata(&mut ledger, &program()), Ok(()));
    assert!(!ledger.contains(&bid.vault));
    assert!(!ledger.contains(&bid.listing));
    assert_eq!(ledger.lamports(&seller()), 600 + VAULT_DEPOSIT + LISTING_DEPOSIT);
    assert_eq!(same_bid.settle(&mut whole, &program()), Ok(()));
    assert_eq!(snapshot(&ledger, &bid), snapshot(&whole, &bid));
}

#[test]
fn opening_the_receiving_account_twice_changes_nothing() {
    let (mut ledger, bid) = open_listing();
    assert_eq!(bid.open_receiver(&mut ledger, &program()), Ok(()));
    let once = snapshot(&ledger, &bid);
    assert_eq!(bid.open_receiver(&mut ledger, &program()), Ok(()));
    assert_eq!(snapshot(&ledger, &bid), once);
}

fn assert_step_refused(
    ledger: &mut Ledger,
    bid: &Bid,
    step: impl Fn(&mut Bid, &mut Ledger) -> Result<(), BidError>,
    expected: BidError,
) {
    let before = snapshot(ledger, bid);
    let mut presented = *bid;
    assert_eq!(step(&mut presented, ledger), Err(expected));
    assert_eq!(snapshot(ledger, bid), before);
    assert_eq!(presented, *bid);
}

fn assert_every_step_refused(ledger: &mut Ledger, bid: &Bid, expected: BidError) {
    assert_step_refused(ledger, bid, |bid, ledger| bid.open_receiver(ledger, &program()), expected);
    assert_step_refused(ledger, bid, |bid, ledger| bid.send_sol(ledger, &program()), expected);
    assert_step_refused(ledger, bid, |bid, ledger| bid.send_nft(ledger, &program()), expected);
    assert_step_refused(ledger, bid, |bid, ledger| bid.close_mint_ata(ledger, &program()), expected);
}

#[test]
fn no_step_moves_anything_for_a_vault_under_a_foreign_authority() {
    let (mut ledger, bid) = open_listing();
    let (foreign, _) = find(&[b"auth", &other_asset().bytes]);
    set_vault(&mut ledger, &bid, |vault| vault.owner = foreign);
    ledger.put(receiver(), holding(asset(), bidder(), 0, 0));
    set_vault(&mut ledger, &bid, |vault| vault.amount = 0);
    assert_every_step_refused(&mut ledger, &bid, BidError::VaultAuthority);
    assert_eq!(ledger.lamports(&bidder()), BIDDER_FUNDS);
    assert_eq!(ledger.lamports(&seller()), SELLER_FUNDS);
    assert!(ledger.contains(&bid.vault));
    assert!(ledger.contains(&bid.listing));
}

#[test]
fn no_step_pays_a_seller_who_did_not_make_the_listing() {
    let (mut ledger, mut bid) = open_listing();
    bid.maker = key(33);
    ledger.put(receiver(), holding(asset(), bidder(), 0, 0));
    assert_every_step_refused(&mut ledger, &bid, BidError::ListingSeller);
    assert!(!ledger.contains(&key(33)));
    assert_eq!(ledger.lamports(&bidder()), BIDDER_FUNDS);
    let mut bare = Ledger::new();
    bare.put(bidder(), wallet(BIDDER_FUNDS));
    bare.put(bid.listing, ledger.get(&bid.listing).cloned().unwrap());
    assert_step_refused(
        &mut bare,
        &bid,
        |bid, ledger| bid.send_sol(ledger, &program()),
        BidError::MarketplaceNotFound,
    );
    assert!(!bare.contains(&key(33)));
    assert_eq!(bare.lamports(&bidder()), BIDDER_FUNDS);
}

#[test]
fn no_step_is_made_unless_the_rest_goes_through() {
    let (mut ledger, bid) = open_listing();
    set_vault(&mut ledger, &bid, |vault| vault.amount = 2);
    assert_step_refused(
        &mut ledger,
        &bid,
        |bid, ledger| bid.open_receiver(ledger, &program()),
        BidError::VaultNotEmpty,
    );
    ledger.put(receiver(), holding(asset(), bidder(), 0, 0));
    assert_step_refused(
        &mut ledger,
        &bid,
        |bid, ledger| bid.send_sol(ledger, &program()),
        BidError::VaultNotEmpty,
    );
    assert_step_refused(
        &mut ledger,
        &bid,
        |bid, ledger| bid.send_nft(ledger, &program()),
        BidError::VaultNotEmpty,
    );
    assert_step_refused(
        &mut ledger,
        &bid,
        |bid, ledger| bid.close_mint_ata(ledger, &program()),
        BidError::VaultNotEmpty,
    );
    assert_eq!(ledger.lamports(&bidder()), BIDDER_FUNDS);
    assert_eq!(ledger.holding(&receiver()).map(|held| held.amount), Some(0));
}

#[test]
fn payment_needs_the_receiving_account_open() {
    let (mut ledger, bid) = open_listing();
    assert_step_refused(
        &mut ledger,
        &bid,
        |bid, ledger| bid.send_sol(ledger, &program()),
        BidError::ReceiverOwner,
    );
    assert_step_refused(
        &mut ledger,
        &bid,
        |bid, ledger| bid.send_nft(ledger, &program()),
        BidError::ReceiverOwner,
    );
    assert_eq!(bid.open_receiver(&mut ledger, &program()), Ok(()));
    assert_eq!(bid.send_sol(&mut ledger, &program()), Ok(()));
}

#[test]
fn payment_checks_the_balances() {
    let (mut ledger, bid) = open_listing();
    ledger.put(receiver(), holding(asset(), bidder(), 0, 0));
    ledger.put(bidder(), wallet(499));
    assert_step_refused(
        &mut ledger,
        &bid,
        |bid, ledger| bid.send_sol(ledger, &program()),
        BidError::InsufficientFunds,
    );
    ledger.put(bidder(), wallet(500));
    ledger.put(seller(), wallet(u64::MAX - 499));
    assert_step_refused(
        &mut ledger,
        &bid,
        |bid, ledger| bid.send_sol(ledger, &program()),
        BidError::BalanceOverflow,
    );
    ledger.put(seller(), wallet(u64::MAX - 500));
    assert_step_refused(
        &mut ledger,
        &bid,
        |bid, ledger| bid.send_sol(ledger, &program()),
        BidError::BalanceOverflow,
    );
    ledger.put(seller(), wallet(u64::MAX - 500 - VAULT_DEPOSIT - LISTING_DEPOSIT));
    assert_eq!(bid.send_sol(&mut ledger, &program()), Ok(()));
    assert_eq!(ledger.lamports(&bidder()), 0);
    assert_eq!(ledger.lamports(&seller()), u64::MAX - VAULT_DEPOSIT - LISTING_DEPOSIT);
}

#[test]
fn payment_to_oneself_keeps_the_balance() {
    let (mut ledger, mut bid) = open_listing();
    bid.taker = seller();
    ledger.put(receiver(), holding(asset(), seller(), 0, 0));
    assert_step_refused(
        &mut ledger,
        &bid,
        |bid, ledger| bid.send_sol(ledger, &program()),
        BidError::InsufficientFunds,
    );
    ledger.put(seller(), wallet(500));
    let before = snapshot(&ledger, &bid);
    assert_eq!(bid.send_sol(&mut ledger, &program()), Ok(()));
    assert_eq!(snapshot(&ledger, &bid), before);
}

#[test]
fn asset_transfer_needs_a_unit_and_room_for_it() {
    let (mut ledger, bid) = open_listing();
    ledger.put(receiver(), holding(asset(), bidder(), u64::MAX, 0));
    assert_step_refused(
        &mut ledger,
        &bid,
        |bid, ledger| bid.send_nft(ledger, &program()),
        BidError::ReceiverOverflow,
    );
    ledger.put(receiver(), holding(asset(), bidder(), 7, 0));
    set_vault(&mut ledger, &bid, |vault| vault.amount = 0);
    assert_step_refused(
        &mut ledger,
        &bid,
        |bid, ledger| bid.send_nft(ledger, &program()),
        BidError::VaultEmpty,
    );
    assert_step_refused(
        &mut ledger,
        &bid,
        |bid, ledger| bid.send_nft(ledger, &key(10)),
        BidError::MarketplaceSeeds,
    );
    set_vault(&mut ledger, &bid, |vault| vault.amount = 1);
    assert_eq!(bid.send_nft(&mut ledger, &program()), Ok(()));
    assert_eq!(ledger.holding(&bid.vault).map(|held| held.amount), Some(0));
    assert_eq!(ledger.holding(&receiver()).map(|held| held.amount), Some(8));
    assert_eq!(ledger.lamports(&bidder()), BIDDER_FUNDS);
}

#[test]
fn closure_needs_an_empty_vault_and_room_for_both_deposits() {
    let (mut ledger, mut bid) = open_listing();
    assert_step_refused(
        &mut ledger,
        &bid,
        |bid, ledger| bid.close_mint_ata(ledger, &program()),
        BidError::VaultNotEmpty,
    );
    set_vault(&mut ledger, &bid, |vault| vault.amount = 0);
    ledger.put(seller(), wallet(u64::MAX - VAULT_DEPOSIT + 1));
    assert_step_refused(
        &mut ledger,
        &bid,
        |bid, ledger| bid.close_mint_ata(ledger, &program()),
        BidError::BalanceOverflow,
    );
    ledger.put(seller(), wallet(u64::MAX - VAULT_DEPOSIT - LISTING_DEPOSIT + 1));
    assert_step_refused(
        &mut ledger,
        &bid,
        |bid, ledger| bid.close_mint_ata(ledger, &program()),
        BidError::BalanceOverflow,
    );
    ledger.put(seller(), wallet(SELLER_FUNDS));
    assert_eq!(bid.close_mint_ata(&mut ledger, &program()), Ok(()));
    assert!(!ledger.contains(&bid.vault));
    assert!(!ledger.contains(&bid.listing));
    assert_eq!(ledger.lamports(&seller()), SELLER_FUNDS + VAULT_DEPOSIT + LISTING_DEPOSIT);
    assert_eq!(ledger.listing_status(&bid.listing), ListingStatus::Closed);
    assert_step_refused(
        &mut ledger,
        &bid,
        |bid, ledger| bid.close_mint_ata(ledger, &program()),
        BidError::ListingNotFound,
    );
}

#[test]
fn a_change_between_two_steps_stops_the_next_step_only() {
    let (mut ledger, bid) = open_listing();
    assert_eq!(bid.open_receiver(&mut ledger, &program()), Ok(()));
    assert_eq!(bid.send_sol(&mut ledger, &program()), Ok(()));
    set_vault(&mut ledger, &bid, |vault| vault.amount = 2);
    assert_step_refused(
        &mut ledger,
        &bid,
        |bid, ledger| bid.send_nft(ledger, &program()),
        BidError::VaultNotEmpty,
    );
    set_vault(&mut ledger, &bid, |vault| vault.amount = 1);
    assert_eq!(bid.send_nft(&mut ledger, &program()), Ok(()));
}

#[test]
fn plan_names_what_the_host_is_to_move() {
    let (mut ledger, bid) = open_listing();
    let before = snapshot(&ledger, &bid);
    let plan = bid.plan(&ledger, &program()).unwrap();
    assert_eq!(snapshot(&ledger, &bid), before);
    assert_eq!(plan.price, 500);
    assert_eq!(plan.units, 1);
    assert!(plan.opens_receiver);
    let auth_bump = ledger.listing(&bid.listing).unwrap().auth_bump;
    assert_eq!(
        plan.authority_seeds,
        vec![b"auth".to_vec(), asset().bytes.to_vec(), vec![auth_bump]]
    );
    ledger.put(receiver(), holding(asset(), bidder(), 3, 0));
    assert!(!bid.plan(&ledger, &program()).unwrap().opens_receiver);
    ledger.put(bidder(), wallet(499));
    assert_eq!(bid.plan(&ledger, &program()), Err(BidError::InsufficientFunds));
    let (foreign, _) = find(&[b"auth", &other_asset().bytes]);
    set_vault(&mut ledger, &bid, |vault| vault.owner = foreign);
    assert_eq!(bid.plan(&ledger, &program()), Err(BidError::VaultAuthority));
}

#[test]
fn snapshot_is_a_copy_of_its_own() {
    let (mut ledger, bid) = open_listing();
    let copy = ledger.snapshot();
    assert_eq!(snapshot(&copy, &bid), snapshot(&ledger, &bid));
    assert_eq!(bid.settle(&mut ledger, &program()), Ok(()));
    assert!(copy.contains(&bid.vault));
    assert!(copy.contains(&bid.listing));
    assert_eq!(copy.lamports(&bidder()), BIDDER_FUNDS);
    assert_eq!(copy.len(), ledger.len() + 1);
}

#[test]
fn bid_errors_are_classified() {
    let authorization = [
        BidError::ListingNotFound,
        BidError::MarketplaceNotFound,
        BidError::NotWhitelisted,
        BidError::VaultNotFound,
        BidError::DuplicateAccount,
        BidError::MarketplaceSeeds,
        BidError::VaultAuthority,
        BidError::VaultMint,
        BidError::TreasurySeeds,
        BidError::WhitelistSeeds,
        BidError::ListingSeeds,
        BidError::ListingSeller,
        BidError::ReceiverOwner,
        BidError::ReceiverMint,
    ];
    for error in authorization {
        assert_eq!(error.class(), ErrorClass::Authorization);
        assert!(error.is_authorization());
    }
    let ledger = [
        BidError::InsufficientFunds,
        BidError::VaultEmpty,
        BidError::VaultNotEmpty,
        BidError::BalanceOverflow,
        BidError::ReceiverOverflow,
    ];
    for error in ledger {
        assert_eq!(error.class(), ErrorClass::Ledger);
        assert!(!error.is_authorization());
    }
}
