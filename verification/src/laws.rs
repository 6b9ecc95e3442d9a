use vstd::prelude::*;
use crate::address::Address;
use crate::bid::{name_seed, Bid};
use crate::derivation::{
    derives, listing_seeds, marketplace_seeds, treasury_seeds, whitelist_seeds,
};
use crate::constants::MAX_RELATIVE_EXPIRY;
use crate::errors::{BidError, ErrorClass, EscrowError};
use crate::ledger::{
    balance_of, closed_into, holding_at, listing_at, marketplace_at, status_at, unit_moved,
    whitelist_at, AccountData, AccountState, Accounts, Holding, ListingStatus,
};
use crate::state::{Escrow, Listing};

verus! {

/// Whether `key` is one of the five accounts that settling `bid` changes.
pub open spec fn touched(bid: Bid, key: Address) -> bool {
    key == bid.taker || key == bid.maker || key == bid.taker_ata || key == bid.vault || key
        == bid.listing
}

/// A settlement moves exactly the price from the bidder to the seller and
/// exactly one unit of the asset from the vault to the bidder's receiving
/// account, and changes no account beside the five that take part. Where
/// bidder and seller are two accounts, the bidder's balance falls by the
/// price; the vault held one unit of the asset; the receiving account is the
/// bidder's holding of the asset with one unit more than before; every other
/// account is as it was.
pub proof fn law_settlement_moves_price_and_asset(
    bid: Bid,
    accounts: Accounts,
    program_id: Address,
)
    requires
        bid.settlement(accounts, program_id) is Ok,
        bid.taker != bid.maker,
    ensures
        ({
            let after = bid.settlement(accounts, program_id)->Ok_0;
            &&& balance_of(after, bid.taker) == balance_of(accounts, bid.taker) - bid.price(
                accounts,
            )
            &&& balance_of(after, bid.maker) - bid.proceeds(accounts) == balance_of(
                accounts,
                bid.maker,
            )
            &&& holding_at(accounts, bid.vault)->Some_0.amount == 1
            &&& holding_at(accounts, bid.vault)->Some_0.mint == bid.maker_mint
            &&& holding_at(after, bid.taker_ata) == Some(
                Holding {
                    mint: bid.maker_mint,
                    owner: bid.taker,
                    amount: (bid.receiver_units(accounts) + 1) as u64,
                },
            )
            &&& bid.maker != bid.taker_ata ==> balance_of(after, bid.taker_ata) == balance_of(
                accounts,
                bid.taker_ata,
            )
            &&& forall|key: Address|
                !touched(bid, key) ==> after.dom().contains(key) == accounts.dom().contains(key)
                    && (accounts.dom().contains(key) ==> #[trigger] after[key] == accounts[key])
        }),
{
}

/// A seller who bids on their own listing gets the asset and both deposits
/// back and pays nothing on balance; every account beside those that take
/// part is as it was.
pub proof fn law_own_bid_returns_asset_and_deposits(
    bid: Bid,
    accounts: Accounts,
    program_id: Address,
)
    requires
        bid.settlement(accounts, program_id) is Ok,
        bid.taker == bid.maker,
    ensures
        ({
            let after = bid.settlement(accounts, program_id)->Ok_0;
            &&& balance_of(after, bid.maker) == balance_of(accounts, bid.maker)
                + accounts[bid.vault].lamports + accounts[bid.listing].lamports
            &&& balance_of(accounts, bid.maker) >= bid.price(accounts)
            &&& holding_at(after, bid.taker_ata) == Some(
                Holding {
                    mint: bid.maker_mint,
                    owner: bid.maker,
                    amount: (bid.receiver_units(accounts) + 1) as u64,
                },
            )
            &&& !after.dom().contains(bid.vault)
            &&& !after.dom().contains(bid.listing)
            &&& forall|key: Address|
                !touched(bid, key) ==> after.dom().contains(key) == accounts.dom().contains(key)
                    && (accounts.dom().contains(key) ==> #[trigger] after[key] == accounts[key])
        }),
{
}

/// After a settlement neither the vault nor the listing exists, and the
/// seller's balance has grown by the deposits of both, beside the price that
/// a bidder other than the seller has paid: the seller ends with the old
/// balance, the price and both deposits, and a seller who is the bidder with
/// the old balance and both deposits. No part of a deposit goes to a bidder
/// who is not the seller.
pub proof fn law_settlement_closes_vault_and_listing(
    bid: Bid,
    accounts: Accounts,
    program_id: Address,
)
    requires
        bid.settlement(accounts, program_id) is Ok,
    ensures
        ({
            let after = bid.settlement(accounts, program_id)->Ok_0;
            &&& accounts.dom().contains(bid.vault)
            &&& accounts.dom().contains(bid.listing)
            &&& !after.dom().contains(bid.vault)
            &&& !after.dom().contains(bid.listing)
            &&& balance_of(after, bid.maker) == bid.seller_paid(accounts)
                + accounts[bid.vault].lamports + accounts[bid.listing].lamports
            &&& bid.taker != bid.maker ==> balance_of(after, bid.maker) == balance_of(
                accounts,
                bid.maker,
            ) + bid.price(accounts) + accounts[bid.vault].lamports
                + accounts[bid.listing].lamports
            &&& bid.taker == bid.maker ==> balance_of(after, bid.maker) == balance_of(
                accounts,
                bid.maker,
            ) + accounts[bid.vault].lamports + accounts[bid.listing].lamports
            &&& bid.taker != bid.maker ==> balance_of(after, bid.taker) == balance_of(
                accounts,
                bid.taker,
            ) - bid.price(accounts)
        }),
{
}

/// A bid whose vault is not under the authority derived from the asset bid
/// for is refused with an authorization error, as a whole and at every step
/// made by itself, so that no balance and no unit moves.
pub proof fn law_foreign_vault_is_refused(bid: Bid, accounts: Accounts, program_id: Address)
    requires
        !bid.vault_authorized(accounts, program_id),
    ensures
        bid.settlement(accounts, program_id) is Err,
        bid.settlement(accounts, program_id)->Err_0.spec_class() == ErrorClass::Authorization,
        bid.receiver_opening(accounts, program_id) == bid.settlement(accounts, program_id),
        bid.payment(accounts, program_id) == bid.settlement(accounts, program_id),
        bid.delivery(accounts, program_id) == bid.settlement(accounts, program_id),
        bid.closure(accounts, program_id) == bid.settlement(accounts, program_id),
{
}

/// A bid that presents an address other than the derived one, for the
/// marketplace, the treasury, the whitelist or the listing, is refused with an
/// authorization error.
pub proof fn law_forged_address_is_refused(bid: Bid, accounts: Accounts, program_id: Address)
    requires
        marketplace_at(accounts, bid.marketplace) is Some,
        whitelist_at(accounts, bid.whitelist) is Some,
        listing_at(accounts, bid.listing) is Some,
        ({
            let marketplace = marketplace_at(accounts, bid.marketplace)->Some_0;
            let whitelist = whitelist_at(accounts, bid.whitelist)->Some_0;
            let listing = listing_at(accounts, bid.listing)->Some_0;
            ||| !derives(
                marketplace_seeds(name_seed(marketplace), marketplace.bump),
                program_id@,
                bid.marketplace@,
            )
            ||| !derives(
                treasury_seeds(bid.marketplace@, marketplace.treasury_bump),
                program_id@,
                bid.treasury@,
            )
            ||| !derives(
                whitelist_seeds(bid.marketplace@, bid.collection_mint@, whitelist.bump),
                program_id@,
                bid.whitelist@,
            )
            ||| !derives(
                listing_seeds(bid.whitelist@, bid.maker_mint@, listing.bump),
                program_id@,
                bid.listing@,
            )
        }),
    ensures
        bid.settlement(accounts, program_id) is Err,
        bid.settlement(accounts, program_id)->Err_0.spec_class() == ErrorClass::Authorization,
{
}

/// A bid on a listing of another seller than the one presented is refused
/// with an authorization error.
pub proof fn law_listing_of_another_seller_is_refused(
    bid: Bid,
    accounts: Accounts,
    program_id: Address,
)
    requires
        listing_at(accounts, bid.listing) is Some,
        listing_at(accounts, bid.listing)->Some_0.maker != bid.maker,
    ensures
        bid.settlement(accounts, program_id) is Err,
        bid.settlement(accounts, program_id)->Err_0.spec_class() == ErrorClass::Authorization,
{
}

/// Settlement reads neither the expiry nor the highest bid nor the highest
/// bidder of a listing: with other values in these three fields the outcome
/// is the same, error for error and account for account.
pub proof fn law_settlement_ignores_auction_fields(
    bid: Bid,
    accounts: Accounts,
    program_id: Address,
    expiry: i64,
    highest_bid: u64,
    highest_bidder: Address,
)
    requires
        listing_at(accounts, bid.listing) is Some,
    ensures
        ({
            let listing = listing_at(accounts, bid.listing)->Some_0;
            let other = Listing {
                maker: listing.maker,
                mint: listing.mint,
                reserve_price: listing.reserve_price,
                bump: listing.bump,
                auth_bump: listing.auth_bump,
                expiry,
                highest_bid,
                highest_bidder,
            };
            let others = accounts.insert(
                bid.listing,
                AccountState {
                    lamports: accounts[bid.listing].lamports,
                    data: AccountData::Listing(other),
                },
            );
            bid.settlement(others, program_id) == bid.settlement(accounts, program_id)
        }),
{
    let listing = listing_at(accounts, bid.listing)->Some_0;
    let other = Listing {
        maker: listing.maker,
        mint: listing.mint,
        reserve_price: listing.reserve_price,
        bump: listing.bump,
        auth_bump: listing.auth_bump,
        expiry,
        highest_bid,
        highest_bidder,
    };
    let others = accounts.insert(
        bid.listing,
        AccountState { lamports: accounts[bid.listing].lamports, data: AccountData::Listing(other) },
    );
    assert(bid.validated(others, program_id) == bid.validated(accounts, program_id)) by {
        if marketplace_at(accounts, bid.marketplace) is Some && whitelist_at(
            accounts,
            bid.whitelist,
        ) is Some && holding_at(accounts, bid.vault) is Some {
            assert(marketplace_at(others, bid.marketplace) == marketplace_at(
                accounts,
                bid.marketplace,
            ));
            assert(whitelist_at(others, bid.whitelist) == whitelist_at(accounts, bid.whitelist));
            assert(holding_at(others, bid.vault) == holding_at(accounts, bid.vault));
            assert(holding_at(others, bid.taker_ata) == holding_at(accounts, bid.taker_ata));
            assert(others.dom().contains(bid.taker_ata) == accounts.dom().contains(
                bid.taker_ata,
            ));
        }
    }
    if bid.settlement(accounts, program_id) is Ok {
        assert(bid.settled(others) =~= bid.settled(accounts));
    }
}

/// Every error of validation is an authorization error.
pub proof fn law_validation_errors_are_authorization(
    bid: Bid,
    accounts: Accounts,
    program_id: Address,
)
    requires
        bid.validated(accounts, program_id) is Err,
    ensures
        bid.validated(accounts, program_id)->Err_0.spec_class() == ErrorClass::Authorization,
        bid.settlement(accounts, program_id) == Err::<Accounts, BidError>(
            bid.validated(accounts, program_id)->Err_0,
        ),
{
}

/// Once a listing is settled, no bid on it settles again: the listing no
/// longer exists, whatever else the later bid presents.
pub proof fn law_settled_listing_cannot_settle_again(
    bid: Bid,
    accounts: Accounts,
    program_id: Address,
    again: Bid,
)
    requires
        bid.settlement(accounts, program_id) is Ok,
        again.listing == bid.listing,
    ensures
        ({
            let after = bid.settlement(accounts, program_id)->Ok_0;
            &&& listing_at(after, bid.listing) is None
            &&& again.settlement(after, program_id) == Err::<Accounts, BidError>(
                BidError::ListingNotFound,
            )
        }),
{
}

/// A settlement takes a listing from open to closed: only an open listing
/// settles, it is closed afterwards, and a bid on a closed listing is refused
/// because the listing does not exist.
pub proof fn law_listing_goes_from_open_to_closed(
    bid: Bid,
    accounts: Accounts,
    program_id: Address,
)
    ensures
        bid.settlement(accounts, program_id) is Ok ==> status_at(accounts, bid.listing)
            == ListingStatus::Open && status_at(
            bid.settlement(accounts, program_id)->Ok_0,
            bid.listing,
        ) == ListingStatus::Closed,
        status_at(accounts, bid.listing) == ListingStatus::Closed ==> bid.settlement(
            accounts,
            program_id,
        ) == Err::<Accounts, BidError>(BidError::ListingNotFound),
{
}

/// A settlement is its five steps in their fixed order: the receiving
/// account is opened, the price is paid, the asset is handed over, the vault
/// is closed and the listing is closed, each step on what the step before it
/// left. A bid that passes validation settles where all five succeed, and
/// fails with the error of the first step that fails.
pub proof fn law_settlement_is_its_steps_in_order(
    bid: Bid,
    accounts: Accounts,
    program_id: Address,
)
    requires
        bid.validated(accounts, program_id) is Ok,
    ensures
        bid.settlement(accounts, program_id) == bid.in_steps(accounts, program_id),
{
    let listing = listing_at(accounts, bid.listing)->Some_0;
    let vault = holding_at(accounts, bid.vault)->Some_0;
    let price = listing.reserve_price;
    let opened = bid.receiver_opened(accounts);
    assert(opened is Ok);
    let a1 = opened->Ok_0;
    assert(listing_at(a1, bid.listing) == Some(listing));
    assert(holding_at(a1, bid.vault) == Some(vault));
    assert(a1[bid.vault] == accounts[bid.vault]);
    assert(a1[bid.listing] == accounts[bid.listing]);
    assert(balance_of(a1, bid.taker) == balance_of(accounts, bid.taker));
    assert(balance_of(a1, bid.maker) == balance_of(accounts, bid.maker));
    assert(balance_of(a1, bid.taker_ata) == balance_of(accounts, bid.taker_ata));
    let receiver = Holding {
        mint: bid.maker_mint,
        owner: bid.taker,
        amount: bid.receiver_units(accounts),
    };
    assert(holding_at(a1, bid.taker_ata) == Some(receiver));
    if bid.paid(a1) is Ok {
        let a2 = bid.paid(a1)->Ok_0;
        assert(listing_at(a2, bid.listing) == Some(listing));
        assert(holding_at(a2, bid.vault) == Some(vault));
        assert(a2[bid.vault] == accounts[bid.vault]);
        assert(a2[bid.listing] == accounts[bid.listing]);
        assert(holding_at(a2, bid.taker_ata) == Some(receiver));
        assert(balance_of(a2, bid.maker) == bid.seller_paid(accounts));
        assert(bid.vault_authorized(a2, program_id));
        if bid.delivered(a2, program_id) is Ok {
            let a3 = bid.delivered(a2, program_id)->Ok_0;
            assert(a3 == unit_moved(a2, bid.vault, bid.taker_ata));
            assert(listing_at(a3, bid.listing) == Some(listing));
            assert(a3[bid.listing] == accounts[bid.listing]);
            assert(a3[bid.vault].lamports == accounts[bid.vault].lamports);
            assert(holding_at(a3, bid.vault) == Some(
                Holding { mint: vault.mint, owner: vault.owner, amount: (vault.amount - 1) as u64 },
            ));
            assert(balance_of(a3, bid.maker) == bid.seller_paid(accounts));
            assert(bid.vault_authorized(a3, program_id));
            if bid.vault_closed(a3, program_id) is Ok {
                let a4 = bid.vault_closed(a3, program_id)->Ok_0;
                assert(a4 == closed_into(a3, bid.vault, bid.maker));
                assert(listing_at(a4, bid.listing) == Some(listing));
                assert(a4[bid.listing] == accounts[bid.listing]);
                assert(balance_of(a4, bid.maker) == bid.seller_paid(accounts)
                    + accounts[bid.vault].lamports);
                if bid.listing_closed(a4) is Ok {
                    let a5 = bid.listing_closed(a4)->Ok_0;
                    assert(a5 == closed_into(a4, bid.listing, bid.maker));
                    assert(a5 =~= bid.settled(accounts));
                }
            }
        }
    }
}

/// A bid that passes validation still passes it after each of the steps that
/// leave the vault in place: after the receiving account is opened, after the
/// price is paid into a ledger where the receiving account is open, and after
/// the asset is handed over.
pub proof fn law_validation_survives_the_steps(bid: Bid, accounts: Accounts, program_id: Address)
    requires
        bid.validated(accounts, program_id) is Ok,
    ensures
        bid.receiver_opened(accounts) is Ok ==> bid.validated(
            bid.receiver_opened(accounts)->Ok_0,
            program_id,
        ) is Ok,
        bid.paid(accounts) is Ok && accounts.dom().contains(bid.taker_ata) ==> bid.validated(
            bid.paid(accounts)->Ok_0,
            program_id,
        ) is Ok,
        bid.delivered(accounts, program_id) is Ok ==> bid.validated(
            bid.delivered(accounts, program_id)->Ok_0,
            program_id,
        ) is Ok,
{
}

/// A step made by itself is refused wherever validation refuses the bid,
/// with the error of validation: no step moves anything for a bid that does
/// not pass.
pub proof fn law_steps_refuse_what_validation_refuses(
    bid: Bid,
    accounts: Accounts,
    program_id: Address,
)
    requires
        bid.validated(accounts, program_id) is Err,
    ensures
        ({
            let refused = Err::<Accounts, BidError>(bid.validated(accounts, program_id)->Err_0);
            &&& bid.receiver_opening(accounts, program_id) == refused
            &&& bid.payment(accounts, program_id) == refused
            &&& bid.delivery(accounts, program_id) == refused
            &&& bid.closure(accounts, program_id) == refused
            &&& refused->Err_0.spec_class() == ErrorClass::Authorization
        }),
{
}

/// The steps made in turn are the settlement, all or nothing. The first step
/// is made exactly where the whole settlement goes through, and is refused
/// with the settlement's error where it does not. Once it is made, each later
/// step is made on what the step before it left, and what the last step
/// leaves is what the settlement leaves.
pub proof fn law_steps_in_turn_are_the_settlement(
    bid: Bid,
    accounts: Accounts,
    program_id: Address,
)
    ensures
        ({
            let opened = bid.receiver_opening(accounts, program_id);
            let paid = bid.payment(opened->Ok_0, program_id);
            let delivered = bid.delivery(paid->Ok_0, program_id);
            let closed = bid.closure(delivered->Ok_0, program_id);
            &&& opened is Ok <==> bid.settlement(accounts, program_id) is Ok
            &&& opened is Err ==> bid.settlement(accounts, program_id) == Err::<
                Accounts,
                BidError,
            >(opened->Err_0)
            &&& opened is Ok ==> paid is Ok && delivered is Ok && closed == bid.settlement(
                accounts,
                program_id,
            )
        }),
{
    if bid.validated(accounts, program_id) is Ok {
        law_settlement_is_its_steps_in_order(bid, accounts, program_id);
        let opened = bid.receiver_opening(accounts, program_id);
        if opened is Ok {
            let a1 = opened->Ok_0;
            law_validation_survives_the_steps(bid, accounts, program_id);
            assert(bid.from_payment(a1, program_id) is Ok);
            let a2 = bid.paid(a1)->Ok_0;
            law_validation_survives_the_steps(bid, a1, program_id);
            assert(bid.payment(a1, program_id) == Ok::<Accounts, BidError>(a2));
            let a3 = bid.delivered(a2, program_id)->Ok_0;
            law_validation_survives_the_steps(bid, a2, program_id);
            assert(bid.delivery(a2, program_id) == Ok::<Accounts, BidError>(a3));
        }
    }
}

/// Opening the receiving account is idempotent: opening it again succeeds
/// and changes nothing, for the opening by itself and for the opening as the
/// first step of a settlement.
pub proof fn law_opening_receiver_is_idempotent(bid: Bid, accounts: Accounts, program_id: Address)
    ensures
        bid.receiver_opened(accounts) is Ok ==> bid.receiver_opened(
            bid.receiver_opened(accounts)->Ok_0,
        ) == bid.receiver_opened(accounts),
        bid.receiver_opening(accounts, program_id) is Ok ==> bid.receiver_opening(
            bid.receiver_opening(accounts, program_id)->Ok_0,
            program_id,
        ) == bid.receiver_opening(accounts, program_id),
{
    if bid.receiver_opening(accounts, program_id) is Ok {
        law_validation_survives_the_steps(bid, accounts, program_id);
    }
}

/// A payment conserves the currency: what leaves the bidder's balance is
/// what arrives at the seller's.
pub proof fn law_payment_conserves_currency(bid: Bid, accounts: Accounts)
    requires
        bid.paid(accounts) is Ok,
    ensures
        ({
            let after = bid.paid(accounts)->Ok_0;
            balance_of(after, bid.taker) + balance_of(after, bid.maker) == balance_of(
                accounts,
                bid.taker,
            ) + balance_of(accounts, bid.maker)
        }),
{
}

/// A relative expiry at or above the maximum window is refused and leaves
/// the escrow as it was; a window of 0 clears the expiry; any other window
/// sets the expiry to the current slot plus the window, where that sum fits
/// in 64 bits, and changes nothing else.
pub proof fn law_relative_expiry_by_window(escrow: Escrow, expiry: u64, now: u64)
    ensures
        expiry >= MAX_RELATIVE_EXPIRY ==> Escrow::relative_expiry(expiry, now) == Err::<
            u64,
            EscrowError,
        >(EscrowError::MaxExpiryExceeded) && escrow.after_relative_expiry(expiry, now) == escrow,
        expiry == 0 ==> Escrow::relative_expiry(expiry, now) == Ok::<u64, EscrowError>(0u64)
            && escrow.after_relative_expiry(expiry, now).expiry == 0,
        0 < expiry < MAX_RELATIVE_EXPIRY && now + expiry <= u64::MAX ==> Escrow::relative_expiry(
            expiry,
            now,
        ) == Ok::<u64, EscrowError>((now + expiry) as u64) && escrow.after_relative_expiry(
            expiry,
            now,
        ).expiry == now + expiry,
        escrow.after_relative_expiry(expiry, now) == escrow.with_expiry(
            escrow.after_relative_expiry(expiry, now).expiry,
        ),
{
}

/// An escrow whose expiry was cleared by a window of 0 has no expiry: it
/// passes the expiry check at every later slot, whatever its expiry was.
pub proof fn law_cleared_expiry_never_expires(escrow: Escrow, now: u64, later: u64)
    ensures
        escrow.after_relative_expiry(0, now).expiry_checked(later) == Ok::<(), EscrowError>(()),
        escrow.expiry == 0 ==> escrow.expiry_checked(later) == Ok::<(), EscrowError>(()),
        escrow.expiry != 0 ==> (escrow.expiry_checked(later) is Ok <==> escrow.expiry > later),
{
}

} // verus!
