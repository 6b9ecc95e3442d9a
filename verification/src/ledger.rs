use vstd::prelude::*;
use crate::address::Address;
use crate::derivation::Capability;
use crate::state::{Listing, Marketplace, Whitelist};

verus! {

/// A holding account's contents: units of one asset under one authority.
#[derive(Clone, Copy, Debug, PartialEq, Eq)]
pub struct Holding {
    /// The asset that the units are of.
    pub mint: Address,
    /// The authority that may move the units.
    pub owner: Address,
    /// The units held.
    pub amount: u64,
}

/// What an account holds beside its balance.
#[derive(Clone, Debug, PartialEq, Eq)]
pub enum AccountData {
    /// Nothing: the account is a plain wallet.
    Wallet,
    /// Units of an asset.
    Holding(Holding),
    /// A marketplace record.
    Marketplace(Marketplace),
    /// A whitelist record.
    Whitelist(Whitelist),
    /// A listing record.
    Listing(Listing),
}

/// An account's balance and contents.
#[derive(Clone, Debug, PartialEq, Eq)]
pub struct AccountState {
    /// Balance in the smallest currency unit; for a record or a holding
    /// account it is the storage deposit.
    pub lamports: u64,
    pub data: AccountData,
}

/// Where a listing stands in its life.
#[derive(Clone, Copy, Debug, PartialEq, Eq, Structural)]
pub enum ListingStatus {
    /// The listing record exists: the asset is on sale.
    Open,
    /// No listing record exists at the address: the listing was settled, or
    /// was never made. No bid changes this state.
    Closed,
}

/// The accounts of a ledger, as a map from address to state.
pub type Accounts = Map<Address, AccountState>;

/// The balance at `key`: that of the account there, or 0 where there is none.
pub open spec fn balance_of(accounts: Accounts, key: Address) -> int {
    if accounts.dom().contains(key) {
        accounts[key].lamports as int
    } else {
        0
    }
}

/// The listing record at `key`, if the account there is one.
pub open spec fn listing_at(accounts: Accounts, key: Address) -> Option<Listing> {
    if accounts.dom().contains(key) {
        match accounts[key].data {
            AccountData::Listing(listing) => Some(listing),
            _ => None,
        }
    } else {
        None
    }
}

/// The state of the listing at `key`.
pub open spec fn status_at(accounts: Accounts, key: Address) -> ListingStatus {
    if listing_at(accounts, key) is Some {
        ListingStatus::Open
    } else {
        ListingStatus::Closed
    }
}

/// The holding at `key`, if the account there is a holding account.
pub open spec fn holding_at(accounts: Accounts, key: Address) -> Option<Holding> {
    if accounts.dom().contains(key) {
        match accounts[key].data {
            AccountData::Holding(holding) => Some(holding),
            _ => None,
        }
    } else {
        None
    }
}

/// The whitelist record at `key`, if the account there is one.
pub open spec fn whitelist_at(accounts: Accounts, key: Address) -> Option<Whitelist> {
    if accounts.dom().contains(key) {
        match accounts[key].data {
            AccountData::Whitelist(whitelist) => Some(whitelist),
            _ => None,
        }
    } else {
        None
    }
}

/// The marketplace record at `key`, if the account there is one.
pub open spec fn marketplace_at(accounts: Accounts, key: Address) -> Option<Marketplace> {
    if accounts.dom().contains(key) {
        match accounts[key].data {
            AccountData::Marketplace(marketplace) => Some(marketplace),
            _ => None,
        }
    } else {
        None
    }
}

/// The accounts after `amount` has left the balance at `key`. Nothing changes
/// where the amount is 0.
pub open spec fn debited(accounts: Accounts, key: Address, amount: u64) -> Accounts
    recommends
        balance_of(accounts, key) >= amount,
{
    if amount == 0 {
        accounts
    } else {
        accounts.insert(
            key,
            AccountState {
                lamports: (accounts[key].lamports - amount) as u64,
                data: accounts[key].data,
            },
        )
    }
}

/// The accounts after `amount` has been added to the balance at `key`. Where
/// no account exists there, a wallet comes to exist with that balance.
/// Nothing changes where the amount is 0.
pub open spec fn credited(accounts: Accounts, key: Address, amount: u64) -> Accounts
    recommends
        balance_of(accounts, key) + amount <= u64::MAX,
{
    if amount == 0 {
        accounts
    } else if accounts.dom().contains(key) {
        accounts.insert(
            key,
            AccountState {
                lamports: (accounts[key].lamports + amount) as u64,
                data: accounts[key].data,
            },
        )
    } else {
        accounts.insert(key, AccountState { lamports: amount, data: AccountData::Wallet })
    }
}

/// The state of a holding account with its units replaced.
pub open spec fn with_units(state: AccountState, holding: Holding, amount: u64) -> AccountState {
    AccountState {
        lamports: state.lamports,
        data: AccountData::Holding(Holding { mint: holding.mint, owner: holding.owner, amount }),
    }
}

/// The accounts after one unit has moved from the holding at `from` to the
/// holding at `to`.
pub open spec fn unit_moved(accounts: Accounts, from: Address, to: Address) -> Accounts
    recommends
        from != to,
        holding_at(accounts, from) is Some,
        holding_at(accounts, to) is Some,
{
    let source = holding_at(accounts, from)->Some_0;
    let target = holding_at(accounts, to)->Some_0;
    accounts.insert(from, with_units(accounts[from], source, (source.amount - 1) as u64)).insert(
        to,
        with_units(accounts[to], target, (target.amount + 1) as u64),
    )
}

/// The accounts after the account at `key` has been closed and its balance
/// handed to `destination`.
pub open spec fn closed_into(accounts: Accounts, key: Address, destination: Address) -> Accounts
    recommends
        accounts.dom().contains(key),
        key != destination,
{
    credited(accounts.remove(key), destination, accounts[key].lamports)
}

#[derive(Debug)]
struct Entry {
    key: Address,
    state: AccountState,
}

spec fn has_key(entries: Seq<Entry>, key: Address) -> bool {
    exists|i: int| 0 <= i < entries.len() && (#[trigger] entries[i]).key == key
}

spec fn index_of(entries: Seq<Entry>, key: Address) -> int {
    choose|i: int| 0 <= i < entries.len() && (#[trigger] entries[i]).key == key
}

spec fn unique_keys(entries: Seq<Entry>) -> bool {
    forall|i: int, j: int|
        0 <= i < j < entries.len() ==> (#[trigger] entries[i]).key != (#[trigger] entries[j]).key
}

spec fn as_map(entries: Seq<Entry>) -> Accounts {
    Map::new(|key: Address| has_key(entries, key), |key: Address| entries[index_of(entries, key)].state)
}

proof fn lemma_entry_is_mapped(entries: Seq<Entry>, i: int)
    requires
        unique_keys(entries),
        0 <= i < entries.len(),
    ensures
        has_key(entries, entries[i].key),
        index_of(entries, entries[i].key) == i,
        as_map(entries).dom().contains(entries[i].key),
        as_map(entries)[entries[i].key] == entries[i].state,
{
    let key = entries[i].key;
    assert(has_key(entries, key));
    let j = index_of(entries, key);
    assert(0 <= j < entries.len() && entries[j].key == key);
    if j < i {
        assert(entries[j].key != entries[i].key);
    }
    if i < j {
        assert(entries[i].key != entries[j].key);
    }
}

/// Where `after` holds `state` under `key` at index `i` and agrees with
/// `entries` at every other index, it maps what `entries` maps with `state`
/// put at `key`.
proof fn lemma_holds_one_more(
    entries: Seq<Entry>,
    after: Seq<Entry>,
    i: int,
    key: Address,
    state: AccountState,
)
    requires
        unique_keys(entries),
        unique_keys(after),
        0 <= i < after.len(),
        after[i] == (Entry { key, state }),
        forall|j: int|
            0 <= j < after.len() && j != i ==> j < entries.len() && #[trigger] after[j]
                == entries[j],
        forall|j: int|
            0 <= j < entries.len() && (#[trigger] entries[j]).key != key ==> j < after.len()
                && after[j] == entries[j],
    ensures
        as_map(after) == as_map(entries).insert(key, state),
{
    lemma_entry_is_mapped(after, i);
    assert forall|k: Address| #[trigger]
        as_map(after).dom().contains(k) == as_map(entries).insert(key, state).dom().contains(
            k,
        ) by {
        if k != key {
            if has_key(entries, k) {
                let j = index_of(entries, k);
                assert(after[j].key == k);
            }
            if has_key(after, k) {
                let j = index_of(after, k);
                assert(entries[j].key == k);
            }
        }
    }
    assert forall|k: Address| #[trigger]
        as_map(after).dom().contains(k) implies as_map(after)[k] == as_map(entries).insert(
        key,
        state,
    )[k] by {
        if k != key {
            let j = index_of(after, k);
            assert(entries[j].key == k);
            lemma_entry_is_mapped(after, j);
            lemma_entry_is_mapped(entries, j);
        }
    }
    assert(as_map(after) =~= as_map(entries).insert(key, state));
}

proof fn lemma_replace(entries: Seq<Entry>, i: int, state: AccountState)
    requires
        unique_keys(entries),
        0 <= i < entries.len(),
    ensures
        unique_keys(entries.update(i, Entry { key: entries[i].key, state })),
        as_map(entries.update(i, Entry { key: entries[i].key, state })) == as_map(entries).insert(
            entries[i].key,
            state,
        ),
{
    let key = entries[i].key;
    let after = entries.update(i, Entry { key, state });
    assert forall|a: int, b: int| 0 <= a < b < after.len() implies (#[trigger] after[a]).key != (
    #[trigger] after[b]).key by {
        assert(after[a].key == entries[a].key);
        assert(after[b].key == entries[b].key);
    }
    lemma_holds_one_more(entries, after, i, key, state);
}

proof fn lemma_append(entries: Seq<Entry>, key: Address, state: AccountState)
    requires
        unique_keys(entries),
        !has_key(entries, key),
    ensures
        unique_keys(entries.push(Entry { key, state })),
        as_map(entries.push(Entry { key, state })) == as_map(entries).insert(key, state),
{
    let after = entries.push(Entry { key, state });
    let last = entries.len() as int;
    assert forall|a: int, b: int| 0 <= a < b < after.len() implies (#[trigger] after[a]).key != (
    #[trigger] after[b]).key by {
        assert(after[a] == entries[a]);
        if b < last {
            assert(after[b] == entries[b]);
        } else {
            assert(entries[a].key != key);
        }
    }
    lemma_holds_one_more(entries, after, last, key, state);
}

proof fn lemma_take_out(entries: Seq<Entry>, i: int)
    requires
        unique_keys(entries),
        0 <= i < entries.len(),
    ensures
        unique_keys(entries.remove(i)),
        as_map(entries.remove(i)) == as_map(entries).remove(entries[i].key),
{
    let key = entries[i].key;
    let after = entries.remove(i);
    assert forall|a: int, b: int| 0 <= a < b < after.len() implies (#[trigger] after[a]).key != (
    #[trigger] after[b]).key by {
        let a0 = if a < i { a } else { a + 1 };
        let b0 = if b < i { b } else { b + 1 };
        assert(after[a] == entries[a0]);
        assert(after[b] == entries[b0]);
    }
    assert forall|k: Address| #[trigger]
        as_map(after).dom().contains(k) == as_map(entries).remove(key).dom().contains(k) by {
        if has_key(after, k) {
            let j = index_of(after, k);
            let j0 = if j < i { j } else { j + 1 };
            assert(after[j] == entries[j0]);
            assert(entries[j0].key == k);
            if k == key {
                lemma_entry_is_mapped(entries, j0);
                lemma_entry_is_mapped(entries, i);
            }
        }
        if k != key && has_key(entries, k) {
            let j0 = index_of(entries, k);
            let j = if j0 < i { j0 } else { j0 - 1 };
            assert(after[j] == entries[j0]);
        }
    }
    assert forall|k: Address| #[trigger]
        as_map(after).dom().contains(k) implies as_map(after)[k] == as_map(entries).remove(
        key,
    )[k] by {
        let j = index_of(after, k);
        let j0 = if j < i { j } else { j + 1 };
        assert(after[j] == entries[j0]);
        lemma_entry_is_mapped(after, j);
        lemma_entry_is_mapped(entries, j0);
    }
    assert(as_map(after) =~= as_map(entries).remove(key));
}

/// A copy of an account's state.
fn copy_state(state: &AccountState) -> (copy: AccountState)
    ensures
        copy == *state,
{
    let data = match &state.data {
        AccountData::Wallet => AccountData::Wallet,
        AccountData::Holding(holding) => AccountData::Holding(*holding),
        AccountData::Marketplace(marketplace) => AccountData::Marketplace(
            Marketplace {
                admin: marketplace.admin,
                fee: marketplace.fee,
                bump: marketplace.bump,
                treasury_bump: marketplace.treasury_bump,
                name: marketplace.name.clone(),
            },
        ),
        AccountData::Whitelist(whitelist) => AccountData::Whitelist(*whitelist),
        AccountData::Listing(listing) => AccountData::Listing(*listing),
    };
    AccountState { lamports: state.lamports, data }
}

/// The accounts that exist, each under its address. An address holds at most
/// one account.
#[derive(Debug)]
pub struct Ledger {
    entries: Vec<Entry>,
}

impl View for Ledger {
    type V = Accounts;

    closed spec fn view(&self) -> Accounts {
        as_map(self.entries@)
    }
}

impl Ledger {
    #[verifier::type_invariant]
    spec fn well_formed(&self) -> bool {
        unique_keys(self.entries@)
    }

    /// A ledger with no account.
    pub fn new() -> (ledger: Ledger)
        ensures
            ledger@ == Map::<Address, AccountState>::empty(),
    {
        let ledger = Ledger { entries: Vec::new() };
        assert(ledger@ =~= Map::<Address, AccountState>::empty());
        ledger
    }

    fn find(&self, key: &Address) -> (found: Option<usize>)
        ensures
            match found {
                Some(i) => i < self.entries@.len() && self.entries@[i as int].key == *key,
                None => !has_key(self.entries@, *key),
            },
    {
        let mut i: usize = 0;
        while i < self.entries.len()
            invariant
                i <= self.entries@.len(),
                forall|j: int| 0 <= j < i ==> (#[trigger] self.entries@[j]).key != *key,
            decreases self.entries@.len() - i,
        {
            if self.entries[i].key.same(key) {
                return Some(i);
            }
            i = i + 1;
        }
        None
    }

    /// Whether an account exists at `key`.
    pub fn contains(&self, key: &Address) -> (present: bool)
        ensures
            present == self@.dom().contains(*key),
    {
        proof {
            use_type_invariant(self);
        }
        match self.find(key) {
            Some(i) => {
                proof {
                    lemma_entry_is_mapped(self.entries@, i as int);
                }
                true
            },
            None => false,
        }
    }

    /// The account at `key`, if one exists.
    pub fn get(&self, key: &Address) -> (found: Option<&AccountState>)
        ensures
            match found {
                Some(state) => self@.dom().contains(*key) && *state == self@[*key],
                None => !self@.dom().contains(*key),
            },
    {
        proof {
            use_type_invariant(self);
        }
        match self.find(key) {
            Some(i) => {
                proof {
                    lemma_entry_is_mapped(self.entries@, i as int);
                }
                Some(&self.entries[i].state)
            },
            None => None,
        }
    }

    /// The balance at `key`: 0 where no account exists.
    pub fn lamports(&self, key: &Address) -> (balance: u64)
        ensures
            balance == balance_of(self@, *key),
    {
        match self.get(key) {
            Some(state) => state.lamports,
            None => 0,
        }
    }

    /// The listing record at `key`, if the account there is one.
    pub fn listing(&self, key: &Address) -> (found: Option<Listing>)
        ensures
            found == listing_at(self@, *key),
    {
        match self.get(key) {
            Some(state) => match &state.data {
                AccountData::Listing(listing) => Some(*listing),
                _ => None,
            },
            None => None,
        }
    }

    /// The state of the listing at `key`.
    pub fn listing_status(&self, key: &Address) -> (status: ListingStatus)
        ensures
            status == status_at(self@, *key),
    {
        match self.listing(key) {
            Some(_) => ListingStatus::Open,
            None => ListingStatus::Closed,
        }
    }

    /// The holding at `key`, if the account there is a holding account.
    pub fn holding(&self, key: &Address) -> (found: Option<Holding>)
        ensures
            found == holding_at(self@, *key),
    {
        match self.get(key) {
            Some(state) => match &state.data {
                AccountData::Holding(holding) => Some(*holding),
                _ => None,
            },
            None => None,
        }
    }

    /// The whitelist record at `key`, if the account there is one.
    pub fn whitelist(&self, key: &Address) -> (found: Option<Whitelist>)
        ensures
            found == whitelist_at(self@, *key),
    {
        match self.get(key) {
            Some(state) => match &state.data {
                AccountData::Whitelist(whitelist) => Some(*whitelist),
                _ => None,
            },
            None => None,
        }
    }

    /// The marketplace record at `key`, if the account there is one.
    pub fn marketplace(&self, key: &Address) -> (found: Option<&Marketplace>)
        ensures
            match found {
                Some(marketplace) => marketplace_at(self@, *key) == Some(*marketplace),
                None => marketplace_at(self@, *key) is None,
            },
    {
        match self.get(key) {
            Some(state) => match &state.data {
                AccountData::Marketplace(marketplace) => Some(marketplace),
                _ => None,
            },
            None => None,
        }
    }

    /// Takes `amount` from the balance at `key`.
    pub(crate) fn debit(&mut self, key: &Address, amount: u64)
        requires
            balance_of(old(self)@, *key) >= amount,
        ensures
            final(self)@ == debited(old(self)@, *key, amount),
    {
        if amount == 0 {
            return ;
        }
        match self.remove(key) {
            Some(state) => {
                let AccountState { lamports, data } = state;
                self.put(*key, AccountState { lamports: lamports - amount, data });
                assert(final(self)@ =~= debited(old(self)@, *key, amount));
            },
            None => {
                assert(false);
            },
        }
    }

    /// Adds `amount` to the balance at `key`.
    pub(crate) fn credit(&mut self, key: &Address, amount: u64)
        requires
            balance_of(old(self)@, *key) + amount <= u64::MAX,
        ensures
            final(self)@ == credited(old(self)@, *key, amount),
    {
        if amount == 0 {
            return ;
        }
        match self.remove(key) {
            Some(state) => {
                let AccountState { lamports, data } = state;
                self.put(*key, AccountState { lamports: lamports + amount, data });
                assert(final(self)@ =~= credited(old(self)@, *key, amount));
            },
            None => {
                self.put(*key, AccountState { lamports: amount, data: AccountData::Wallet });
                assert(final(self)@ =~= credited(old(self)@, *key, amount));
            },
        }
    }

    /// Replaces the units of the holding account at `key`.
    fn set_units(&mut self, key: &Address, amount: u64)
        requires
            holding_at(old(self)@, *key) is Some,
        ensures
            final(self)@ == old(self)@.insert(
                *key,
                with_units(old(self)@[*key], holding_at(old(self)@, *key)->Some_0, amount),
            ),
    {
        match self.remove(key) {
            Some(state) => {
                match state.data {
                    AccountData::Holding(holding) => {
                        self.put(
                            *key,
                            AccountState {
                                lamports: state.lamports,
                                data: AccountData::Holding(
                                    Holding { mint: holding.mint, owner: holding.owner, amount },
                                ),
                            },
                        );
                        assert(final(self)@ =~= old(self)@.insert(
                            *key,
                            with_units(
                                old(self)@[*key],
                                holding_at(old(self)@, *key)->Some_0,
                                amount,
                            ),
                        ));
                    },
                    _ => {
                        assert(false);
                    },
                }
            },
            None => {
                assert(false);
            },
        }
    }

    /// Moves one unit of an asset from the holding at `from` to the holding
    /// at `to`, on the signature of the authority of `from`.
    pub(crate) fn move_unit(&mut self, signer: &Capability, from: &Address, to: &Address)
        requires
            *from != *to,
            holding_at(old(self)@, *from) is Some,
            holding_at(old(self)@, *to) is Some,
            holding_at(old(self)@, *from)->Some_0.owner == signer.authority(),
            holding_at(old(self)@, *from)->Some_0.mint == holding_at(old(self)@, *to)->Some_0.mint,
            holding_at(old(self)@, *from)->Some_0.amount >= 1,
            holding_at(old(self)@, *to)->Some_0.amount < u64::MAX,
        ensures
            final(self)@ == unit_moved(old(self)@, *from, *to),
    {
        let source = self.holding(from);
        let target = self.holding(to);
        match (source, target) {
            (Some(source), Some(target)) => {
                self.set_units(from, source.amount - 1);
                self.set_units(to, target.amount + 1);
            },
            _ => {
                assert(false);
            },
        }
    }

    /// Closes the empty holding account at `key`, on the signature of its
    /// authority, and hands its balance to `destination`.
    pub(crate) fn close_holding(&mut self, signer: &Capability, key: &Address, destination: &Address)
        requires
            *key != *destination,
            holding_at(old(self)@, *key) is Some,
            holding_at(old(self)@, *key)->Some_0.owner == signer.authority(),
            holding_at(old(self)@, *key)->Some_0.amount == 0,
            balance_of(old(self)@, *destination) + old(self)@[*key].lamports <= u64::MAX,
        ensures
            final(self)@ == closed_into(old(self)@, *key, *destination),
    {
        self.close_into(key, destination);
    }

    /// Closes the account at `key` and hands its balance to `destination`.
    pub(crate) fn close_into(&mut self, key: &Address, destination: &Address)
        requires
            old(self)@.dom().contains(*key),
            *key != *destination,
            balance_of(old(self)@, *destination) + old(self)@[*key].lamports <= u64::MAX,
        ensures
            final(self)@ == closed_into(old(self)@, *key, *destination),
    {
        match self.remove(key) {
            Some(state) => {
                self.credit(destination, state.lamports);
            },
            None => {
                assert(false);
            },
        }
    }

    /// Puts `state` at `key`, in place of the account there if one exists.
    pub fn put(&mut self, key: Address, state: AccountState)
        ensures
            final(self)@ == old(self)@.insert(key, state),
    {
        proof {
            use_type_invariant(&*self);
        }
        let found = self.find(&key);
        let mut entries = self.take_entries();
        match found {
            Some(i) => {
                proof {
                    lemma_replace(entries@, i as int, state);
                }
                entries.set(i, Entry { key, state });
            },
            None => {
                proof {
                    lemma_append(entries@, key, state);
                }
                entries.push(Entry { key, state });
            },
        }
        *self = Ledger { entries };
    }

    /// Moves the entries out and leaves the ledger empty.
    fn take_entries(&mut self) -> (entries: Vec<Entry>)
        ensures
            entries@ == old(self).entries@,
    {
        let mut taken = Ledger { entries: Vec::new() };
        core::mem::swap(self, &mut taken);
        taken.entries
    }

    /// Takes the account at `key` out of the ledger, if one exists.
    pub fn remove(&mut self, key: &Address) -> (taken: Option<AccountState>)
        ensures
            final(self)@ == old(self)@.remove(*key),
            match taken {
                Some(state) => old(self)@.dom().contains(*key) && state == old(self)@[*key],
                None => !old(self)@.dom().contains(*key),
            },
    {
        proof {
            use_type_invariant(&*self);
        }
        match self.find(key) {
            Some(i) => {
                let mut entries = self.take_entries();
                proof {
                    lemma_entry_is_mapped(entries@, i as int);
                    lemma_take_out(entries@, i as int);
                }
                let entry = entries.remove(i);
                *self = Ledger { entries };
                Some(entry.state)
            },
            None => {
                assert(old(self)@.remove(*key) =~= old(self)@);
                None
            },
        }
    }

    /// A copy of the ledger: the same accounts under the same addresses.
    pub fn snapshot(&self) -> (copy: Ledger)
        ensures
            copy@ == self@,
    {
        proof {
            use_type_invariant(self);
        }
        let mut entries: Vec<Entry> = Vec::new();
        let mut i: usize = 0;
        while i < self.entries.len()
            invariant
                i <= self.entries@.len(),
                entries@ == self.entries@.subrange(0, i as int),
            decreases self.entries@.len() - i,
        {
            let entry = &self.entries[i];
            entries.push(Entry { key: entry.key, state: copy_state(&entry.state) });
            i = i + 1;
            assert(entries@ =~= self.entries@.subrange(0, i as int));
        }
        assert(self.entries@.subrange(0, self.entries@.len() as int) =~= self.entries@);
        Ledger { entries }
    }

    /// The number of accounts.
    pub fn len(&self) -> (count: usize)
        ensures
            count == self@.dom().len(),
            self@.dom().finite(),
    {
        proof {
            use_type_invariant(self);
            lemma_domain_size(self.entries@);
        }
        self.entries.len()
    }
}

proof fn lemma_domain_size(entries: Seq<Entry>)
    requires
        unique_keys(entries),
    ensures
        as_map(entries).dom().finite(),
        as_map(entries).dom().len() == entries.len(),
    decreases entries.len(),
{
    if entries.len() == 0 {
        assert(as_map(entries).dom() =~= Set::<Address>::empty());
    } else {
        let last = entries.len() - 1;
        let front = entries.drop_last();
        assert(front == entries.remove(last));
        lemma_take_out(entries, last);
        lemma_domain_size(front);
        lemma_entry_is_mapped(entries, last);
        assert(as_map(entries).dom() =~= as_map(front).dom().insert(entries[last].key));
    }
}

} // verus!
