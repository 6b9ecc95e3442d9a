use vstd::prelude::*;
use vstd::string::StringSliceAdditionalSpecFns;
use anchor_lang::prelude::Pubkey;
use crate::address::Address;

verus! {

/// The program-controlled address that a seed list derives under a program,
/// or `None` where the seed list derives no such address.
pub uninterp spec fn program_address(seeds: Seq<Seq<u8>>, program_id: Seq<u8>) -> Option<Seq<u8>>;

/// A seed list as the sequence of its seeds' bytes.
pub open spec fn seed_bytes(seeds: &Vec<Vec<u8>>) -> Seq<Seq<u8>> {
    Seq::new(seeds@.len(), |i: int| seeds@[i]@)
}

/// Calls `Pubkey::create_program_address` on the seed list and the program's
/// address. Trusted: the outcome is the derivation named by
/// [`program_address`], with every failure of the derivation (a seed list or a
/// seed that is too long, a hash that is a curve point) reported as `None`.
#[verifier::external_body]
fn create_program_address(seeds: &Vec<Vec<u8>>, program_id: &Address) -> (derived: Option<Address>)
    ensures
        match derived {
            Some(address) => program_address(seed_bytes(seeds), program_id@) == Some(address@),
            None => program_address(seed_bytes(seeds), program_id@) is None,
        },
{
    let slices: Vec<&[u8]> = seeds.iter().map(|seed| seed.as_slice()).collect();
    let program = Pubkey::new_from_array(program_id.bytes);
    match Pubkey::create_program_address(&slices, &program) {
        Ok(key) => Some(Address { bytes: key.to_bytes() }),
        Err(_) => None,
    }
}

/// The tag that opens the seed list of a marketplace record: `marketplace`.
pub open spec fn marketplace_tag() -> Seq<u8> {
    seq![109u8, 97u8, 114u8, 107u8, 101u8, 116u8, 112u8, 108u8, 97u8, 99u8, 101u8]
}

/// The tag that opens the seed list of a vault authority: `auth`.
pub open spec fn authority_tag() -> Seq<u8> {
    seq![97u8, 117u8, 116u8, 104u8]
}

/// The tag that opens the seed list of a treasury: `treasury`.
pub open spec fn treasury_tag() -> Seq<u8> {
    seq![116u8, 114u8, 101u8, 97u8, 115u8, 117u8, 114u8, 121u8]
}

/// Seed list of the marketplace record named `name`, closed by its nonce.
pub open spec fn marketplace_seeds(name: Seq<u8>, bump: u8) -> Seq<Seq<u8>> {
    seq![marketplace_tag(), name, seq![bump]]
}

/// Seed list of the vault authority of the asset `mint`, closed by its nonce.
pub open spec fn authority_seeds(mint: Seq<u8>, bump: u8) -> Seq<Seq<u8>> {
    seq![authority_tag(), mint, seq![bump]]
}

/// Seed list of the treasury of the marketplace at `marketplace`.
pub open spec fn treasury_seeds(marketplace: Seq<u8>, bump: u8) -> Seq<Seq<u8>> {
    seq![treasury_tag(), marketplace, seq![bump]]
}

/// Seed list of the whitelist record of `collection` on `marketplace`.
pub open spec fn whitelist_seeds(marketplace: Seq<u8>, collection: Seq<u8>, bump: u8) -> Seq<
    Seq<u8>,
> {
    seq![marketplace, collection, seq![bump]]
}

/// Seed list of the listing record of the asset `mint` under `whitelist`.
pub open spec fn listing_seeds(whitelist: Seq<u8>, mint: Seq<u8>, bump: u8) -> Seq<Seq<u8>> {
    seq![whitelist, mint, seq![bump]]
}

/// Whether `address` is what `seeds` derive under `program_id`.
pub open spec fn derives(seeds: Seq<Seq<u8>>, program_id: Seq<u8>, address: Seq<u8>) -> bool {
    program_address(seeds, program_id) == Some(address)
}

/// A seed list of three seeds: two variable parts and the nonce.
fn three_seeds(first: Vec<u8>, second: Vec<u8>, bump: u8) -> (seeds: Vec<Vec<u8>>)
    ensures
        seed_bytes(&seeds) == seq![first@, second@, seq![bump]],
{
    let mut last: Vec<u8> = Vec::new();
    last.push(bump);
    let mut seeds: Vec<Vec<u8>> = Vec::new();
    seeds.push(first);
    seeds.push(second);
    seeds.push(last);
    assert(last@ =~= seq![bump]);
    assert(seed_bytes(&seeds) =~= seq![first@, second@, seq![bump]]);
    seeds
}

/// The bytes of a name, as they enter a seed list.
pub fn name_bytes(name: &str) -> (out: Vec<u8>)
    ensures
        out@ == name.spec_bytes(),
{
    let bytes = name.as_bytes();
    let mut out: Vec<u8> = Vec::new();
    let mut i: usize = 0;
    while i < bytes.len()
        invariant
            i <= bytes@.len(),
            out@ == bytes@.subrange(0, i as int),
        decreases bytes@.len() - i,
    {
        out.push(bytes[i]);
        i = i + 1;
        assert(out@ =~= bytes@.subrange(0, i as int));
    }
    assert(bytes@.subrange(0, bytes@.len() as int) =~= bytes@);
    out
}

/// Builds the seed list of the marketplace record named `name`.
pub fn marketplace_seed_list(name: &str, bump: u8) -> (seeds: Vec<Vec<u8>>)
    ensures
        seed_bytes(&seeds) == marketplace_seeds(name.spec_bytes(), bump),
{
    let tag: Vec<u8> = vec![109u8, 97u8, 114u8, 107u8, 101u8, 116u8, 112u8, 108u8, 97u8, 99u8, 101u8];
    assert(tag@ =~= marketplace_tag());
    three_seeds(tag, name_bytes(name), bump)
}

/// Builds the seed list of the vault authority of the asset `mint`.
pub fn authority_seed_list(mint: &Address, bump: u8) -> (seeds: Vec<Vec<u8>>)
    ensures
        seed_bytes(&seeds) == authority_seeds(mint@, bump),
{
    let tag: Vec<u8> = vec![97u8, 117u8, 116u8, 104u8];
    assert(tag@ =~= authority_tag());
    three_seeds(tag, mint.to_vec(), bump)
}

/// Builds the seed list of the treasury of the marketplace at `marketplace`.
pub fn treasury_seed_list(marketplace: &Address, bump: u8) -> (seeds: Vec<Vec<u8>>)
    ensures
        seed_bytes(&seeds) == treasury_seeds(marketplace@, bump),
{
    let tag: Vec<u8> = vec![116u8, 114u8, 101u8, 97u8, 115u8, 117u8, 114u8, 121u8];
    assert(tag@ =~= treasury_tag());
    three_seeds(tag, marketplace.to_vec(), bump)
}

/// Builds the seed list of the whitelist record of `collection` on
/// `marketplace`.
pub fn whitelist_seed_list(marketplace: &Address, collection: &Address, bump: u8) -> (seeds: Vec<
    Vec<u8>,
>)
    ensures
        seed_bytes(&seeds) == whitelist_seeds(marketplace@, collection@, bump),
{
    three_seeds(marketplace.to_vec(), collection.to_vec(), bump)
}

/// Builds the seed list of the listing record of the asset `mint` under
/// `whitelist`.
pub fn listing_seed_list(whitelist: &Address, mint: &Address, bump: u8) -> (seeds: Vec<Vec<u8>>)
    ensures
        seed_bytes(&seeds) == listing_seeds(whitelist@, mint@, bump),
{
    three_seeds(whitelist.to_vec(), mint.to_vec(), bump)
}

/// Whether a derivation's outcome is the address that was presented: a failed
/// derivation matches no address.
pub fn address_matches(derived: Option<Address>, presented: &Address) -> (ok: bool)
    ensures
        ok == (derived == Some(*presented)),
{
    match derived {
        Some(address) => address.same(presented),
        None => false,
    }
}

/// The right to act for a derived address. Only [`sign_as`] makes one, and
/// only for an address that the seeds derive.
#[derive(Debug)]
pub struct Capability {
    authority: Address,
}

impl Capability {
    /// The address that the capability acts for.
    pub closed spec fn authority(self) -> Address {
        self.authority
    }

    /// The address that the capability acts for.
    pub fn holder(&self) -> (address: Address)
        ensures
            address == self.authority(),
    {
        self.authority
    }
}

/// Signs for `derived_address` by its seeds: the capability is granted where
/// the seeds derive that address under `program_id`, and refused otherwise.
pub fn sign_as(derived_address: &Address, seeds: &Vec<Vec<u8>>, program_id: &Address) -> (granted:
    Option<Capability>)
    ensures
        match granted {
            Some(capability) => derives(seed_bytes(seeds), program_id@, derived_address@)
                && capability.authority() == *derived_address,
            None => !derives(seed_bytes(seeds), program_id@, derived_address@),
        },
{
    if is_derived(seeds, program_id, derived_address) {
        Some(Capability { authority: *derived_address })
    } else {
        None
    }
}

/// Derives the address of a seed list under a program.
pub fn derive_address(seeds: &Vec<Vec<u8>>, program_id: &Address) -> (derived: Option<Address>)
    ensures
        match derived {
            Some(address) => program_address(seed_bytes(seeds), program_id@) == Some(address@),
            None => program_address(seed_bytes(seeds), program_id@) is None,
        },
{
    create_program_address(seeds, program_id)
}

/// Whether `presented` is the address that `seeds` derive under `program_id`.
pub fn is_derived(seeds: &Vec<Vec<u8>>, program_id: &Address, presented: &Address) -> (ok: bool)
    ensures
        ok == derives(seed_bytes(seeds), program_id@, presented@),
{
    let derived = create_program_address(seeds, program_id);
    proof {
        if let Some(address) = derived {
            crate::address::lemma_address_by_view(address, *presented);
        }
    }
    address_matches(derived, presented)
}

} // verus!
