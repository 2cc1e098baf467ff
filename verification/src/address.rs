//! Account addresses and their derivation from seeds.

use crate::constants::{
    AUTHORITY_SEED, CASH_POOL, CASH_TOKEN_SEED, LENDING_TOKEN_SEED, SCASH_TOKEN_SEED,
};
use vstd::prelude::*;

verus! {

/// The address of an account: 32 bytes.
#[derive(Clone, Copy, Debug, Eq, Hash)]
pub struct Address {
    /// The bytes of the address.
    pub bytes: [u8; 32],
}

impl View for Address {
    type V = Seq<u8>;

    open spec fn view(&self) -> Seq<u8> {
        self.bytes@
    }
}

impl PartialEq for Address {
    fn eq(&self, other: &Address) -> (same: bool) {
        let mut i: usize = 0;
        while i < 32
            invariant
                0 <= i <= 32,
                forall|k: int| 0 <= k < i ==> self.bytes@[k] == other.bytes@[k],
            decreases 32 - i,
        {
            if self.bytes[i] != other.bytes[i] {
                return false;
            }
            i += 1;
        }
        assert(self.bytes@ =~= other.bytes@);
        true
    }
}

impl vstd::std_specs::cmp::PartialEqSpecImpl for Address {
    open spec fn obeys_eq_spec() -> bool {
        true
    }

    open spec fn eq_spec(&self, other: &Address) -> bool {
        self@ == other@
    }
}

/// Two addresses are the same address exactly when their bytes agree.
pub proof fn lemma_address_by_bytes(a: Address, b: Address)
    ensures
        (a@ == b@) <==> (a == b),
{
    if a@ == b@ {
        assert forall|i: int| 0 <= i < 32 implies a.bytes[i] == b.bytes[i] by {
            assert(a.bytes@[i] == b.bytes@[i]);
        }
        assert(a.bytes =~= b.bytes);
    }
}

impl Address {
    /// The address with the given bytes, where one exists.
    pub open spec fn from_bytes(bytes: Seq<u8>) -> Address {
        choose|a: Address| a@ == bytes
    }

    pub proof fn lemma_from_bytes(a: Address)
        ensures
            Address::from_bytes(a@) == a,
    {
        lemma_address_by_bytes(Address::from_bytes(a@), a);
    }

    /// Whether a key pair can sign for the address. No key pair can for an
    /// address that was derived from seeds.
    pub fn is_on_curve(&self) -> (on: bool)
        ensures
            on == !keyless(*self),
    {
        curve_point(self)
    }

    /// Whether two addresses are the same.
    pub fn same(&self, other: &Address) -> (r: bool)
        ensures
            r == (*self == *other),
    {
        proof {
            lemma_address_by_bytes(*self, *other);
        }
        *self == *other
    }

    /// The bytes of the address as one seed.
    pub fn to_seed(&self) -> (seed: Vec<u8>)
        ensures
            seed@ == self@,
    {
        let mut seed: Vec<u8> = Vec::new();
        let mut i: usize = 0;
        while i < 32
            invariant
                0 <= i <= 32,
                seed@ == self@.take(i as int),
            decreases 32 - i,
        {
            seed.push(self.bytes[i]);
            assert(self@.take(i as int).push(self@[i as int]) =~= self@.take(i + 1));
            i += 1;
        }
        assert(self@.take(32) =~= self@);
        seed
    }
}

/// The address under which this protocol derives its accounts.
pub open spec fn spec_program_id() -> Address {
    Address {
        bytes: [
            201u8, 38u8, 22u8, 84u8, 164u8, 36u8, 157u8, 180u8, 247u8, 203u8, 71u8, 117u8, 175u8,
            161u8, 38u8, 124u8, 203u8, 47u8, 252u8, 189u8, 140u8, 52u8, 249u8, 183u8, 50u8, 61u8,
            171u8, 114u8, 34u8, 166u8, 146u8, 218u8,
        ],
    }
}

/// The address under which this protocol derives its accounts.
#[verifier::when_used_as_spec(spec_program_id)]
pub fn program_id() -> (id: Address)
    ensures
        id == spec_program_id(),
{
    Address {
        bytes: [
            201u8, 38u8, 22u8, 84u8, 164u8, 36u8, 157u8, 180u8, 247u8, 203u8, 71u8, 117u8, 175u8,
            161u8, 38u8, 124u8, 203u8, 47u8, 252u8, 189u8, 140u8, 52u8, 249u8, 183u8, 50u8, 61u8,
            171u8, 114u8, 34u8, 166u8, 146u8, 218u8,
        ],
    }
}

/// The address of the token program that owns every mint and balance.
pub open spec fn spec_token_program_id() -> Address {
    Address {
        bytes: [
            6u8, 221u8, 246u8, 225u8, 215u8, 101u8, 161u8, 147u8, 217u8, 203u8, 225u8, 70u8, 206u8,
            235u8, 121u8, 172u8, 28u8, 180u8, 133u8, 237u8, 95u8, 91u8, 55u8, 145u8, 58u8, 140u8,
            245u8, 133u8, 126u8, 255u8, 0u8, 169u8,
        ],
    }
}

/// The address of the token program that owns every mint and balance.
#[verifier::when_used_as_spec(spec_token_program_id)]
pub fn token_program_id() -> (id: Address)
    ensures
        id == spec_token_program_id(),
{
    Address {
        bytes: [
            6u8, 221u8, 246u8, 225u8, 215u8, 101u8, 161u8, 147u8, 217u8, 203u8, 225u8, 70u8, 206u8,
            235u8, 121u8, 172u8, 28u8, 180u8, 133u8, 237u8, 95u8, 91u8, 55u8, 145u8, 58u8, 140u8,
            245u8, 133u8, 126u8, 255u8, 0u8, 169u8,
        ],
    }
}

/// The address of the program under which associated balances are derived.
pub open spec fn spec_associated_token_program_id() -> Address {
    Address {
        bytes: [
            140u8, 151u8, 37u8, 143u8, 78u8, 36u8, 137u8, 241u8, 187u8, 61u8, 16u8, 41u8, 20u8,
            142u8, 13u8, 131u8, 11u8, 90u8, 19u8, 153u8, 218u8, 255u8, 16u8, 132u8, 4u8, 142u8,
            123u8, 216u8, 219u8, 233u8, 248u8, 89u8,
        ],
    }
}

/// The address of the program under which associated balances are derived.
#[verifier::when_used_as_spec(spec_associated_token_program_id)]
pub fn associated_token_program_id() -> (id: Address)
    ensures
        id == spec_associated_token_program_id(),
{
    Address {
        bytes: [
            140u8, 151u8, 37u8, 143u8, 78u8, 36u8, 137u8, 241u8, 187u8, 61u8, 16u8, 41u8, 20u8,
            142u8, 13u8, 131u8, 11u8, 90u8, 19u8, 153u8, 218u8, 255u8, 16u8, 132u8, 4u8, 142u8,
            123u8, 216u8, 219u8, 233u8, 248u8, 89u8,
        ],
    }
}

/// The address and bump seed that `Pubkey::try_find_program_address` finds for
/// the given seeds under the given program, or `None` where it finds none.
pub uninterp spec fn program_address(seeds: Seq<Seq<u8>>, program_id: Seq<u8>) -> Option<(Seq<u8>, u8)>;

/// Whether `Pubkey::is_on_curve` finds the address to be a point of the curve
/// on which key pairs are made: an address that a key pair can sign for.
pub uninterp spec fn on_curve(address: Seq<u8>) -> bool;

/// Whether no key pair can sign for the address.
pub open spec fn keyless(address: Address) -> bool {
    !on_curve(address@)
}

/// The bytes of each seed of a list.
pub open spec fn seed_bytes(seeds: Seq<Vec<u8>>) -> Seq<Seq<u8>> {
    Seq::new(seeds.len(), |i: int| seeds[i]@)
}

/// Calls `Pubkey::try_find_program_address` of the ledger's SDK. Trusted: what
/// it returns is what `program_address` names for the same seeds and program,
/// the found address taken by its bytes; and a found address is none that
/// `Pubkey::is_on_curve` takes for a point of the curve, since only a hash
/// that is no such point is returned as an address.
#[verifier::external_body]
fn try_find_program_address(
    seeds: &Vec<Vec<u8>>,
    program_id: &Address,
) -> (found: Option<(Address, u8)>)
    ensures
        match found {
            Some((address, bump)) => program_address(seed_bytes(seeds@), program_id@) == Some(
                (address@, bump),
            ),
            None => program_address(seed_bytes(seeds@), program_id@) is None,
        },
        found matches Some((address, _)) ==> !on_curve(address@),
{
    let parts: Vec<&[u8]> = seeds.iter().map(|seed| seed.as_slice()).collect();
    let program = anchor_lang::prelude::Pubkey::new_from_array(program_id.bytes);
    match anchor_lang::prelude::Pubkey::try_find_program_address(&parts, &program) {
        Some((key, bump)) => Some((Address { bytes: key.to_bytes() }, bump)),
        None => None,
    }
}

/// Calls `Pubkey::is_on_curve` of the ledger's SDK. Trusted: what it returns
/// is what `on_curve` names for the bytes of the address.
#[verifier::external_body]
fn curve_point(address: &Address) -> (on: bool)
    ensures
        on == on_curve(address@),
{
    anchor_lang::prelude::Pubkey::new_from_array(address.bytes).is_on_curve()
}

/// The address derived from the seeds under the program, with its bump seed.
pub open spec fn derived(seeds: Seq<Seq<u8>>, program: Address) -> Option<(Address, u8)> {
    match program_address(seeds, program@) {
        Some((bytes, bump)) => Some((Address::from_bytes(bytes), bump)),
        None => None,
    }
}

/// The address derived from the seeds under the program.
pub open spec fn derived_address(seeds: Seq<Seq<u8>>, program: Address) -> Option<Address> {
    match derived(seeds, program) {
        Some((address, _)) => Some(address),
        None => None,
    }
}

/// Derives the address that the seeds stand for under the program, with the
/// bump seed that makes it an address no key pair can sign for. `None` where
/// no such address exists: the caller must then reject the request.
pub fn find_program_address(
    seeds: &Vec<Vec<u8>>,
    program: &Address,
) -> (found: Option<(Address, u8)>)
    ensures
        found == derived(seed_bytes(seeds@), *program),
        found matches Some((address, _)) ==> keyless(address),
{
    let found = try_find_program_address(seeds, program);
    proof {
        if let Some((address, _)) = found {
            Address::lemma_from_bytes(address);
        }
    }
    found
}

/// Seeds of the record of an AMM.
pub open spec fn amm_seeds(id: Address) -> Seq<Seq<u8>> {
    seq![id@]
}

/// Seeds of the record of a base lending pool.
pub open spec fn pool_seeds(amm: Address, mint_a: Address) -> Seq<Seq<u8>> {
    seq![amm@, mint_a@]
}

/// Seeds made of two addresses and a role tag.
pub open spec fn tagged_seeds(first: Address, second: Address, tag: [u8; 1]) -> Seq<Seq<u8>> {
    seq![first@, second@, tag@]
}

/// Seeds of the balance that `owner` holds of `mint`.
pub open spec fn associated_token_seeds(owner: Address, mint: Address) -> Seq<Seq<u8>> {
    seq![owner@, spec_token_program_id()@, mint@]
}

/// Address of the record of the AMM with the given identity.
pub open spec fn amm_address(id: Address) -> Option<Address> {
    derived_address(amm_seeds(id), spec_program_id())
}

/// Address of the record of the base lending pool of an AMM and a base asset.
pub open spec fn pool_address(amm: Address, mint_a: Address) -> Option<Address> {
    derived_address(pool_seeds(amm, mint_a), spec_program_id())
}

/// Address derived from two addresses and a role tag.
pub open spec fn tagged_address(first: Address, second: Address, tag: [u8; 1]) -> Option<Address> {
    derived_address(tagged_seeds(first, second, tag), spec_program_id())
}

/// Address of the record of the cash pool of an AMM and a base asset.
pub open spec fn cash_pool_address(amm: Address, mint_a: Address) -> Option<Address> {
    tagged_address(amm, mint_a, CASH_POOL)
}

/// The authority over the mints and the custody of the pools of an AMM and a base asset.
pub open spec fn pool_authority_address(amm: Address, mint_a: Address) -> Option<Address> {
    tagged_address(amm, mint_a, AUTHORITY_SEED)
}

/// The authority over the receipt slot of one lender in one pool.
pub open spec fn lender_authority_address(pool: Address, lender: Address) -> Option<Address> {
    tagged_address(pool, lender, AUTHORITY_SEED)
}

/// Address of the receipt token's mint.
pub open spec fn receipt_mint_address(amm: Address, mint_a: Address) -> Option<Address> {
    tagged_address(amm, mint_a, LENDING_TOKEN_SEED)
}

/// Address of the cash token's mint.
pub open spec fn cash_mint_address(amm: Address, mint_a: Address) -> Option<Address> {
    tagged_address(amm, mint_a, CASH_TOKEN_SEED)
}

/// Address of the scash token's mint.
pub open spec fn scash_mint_address(amm: Address, mint_a: Address) -> Option<Address> {
    tagged_address(amm, mint_a, SCASH_TOKEN_SEED)
}

/// Address of the balance that `owner` holds of `mint`.
pub open spec fn associated_token_address(owner: Address, mint: Address) -> Option<Address> {
    derived_address(associated_token_seeds(owner, mint), spec_associated_token_program_id())
}

fn address_of(found: Option<(Address, u8)>) -> (address: Option<Address>)
    requires
        found matches Some((a, _)) ==> keyless(a),
    ensures
        address == match found {
            Some((a, _)) => Some(a),
            None => None::<Address>,
        },
        address matches Some(a) ==> keyless(a),
{
    match found {
        Some((a, _)) => Some(a),
        None => None,
    }
}

/// Derives the address of the record of the AMM with the given identity.
pub fn find_amm_address(id: &Address) -> (found: Option<Address>)
    ensures
        found == amm_address(*id),
        found matches Some(address) ==> keyless(address),
{
    let mut seeds: Vec<Vec<u8>> = Vec::new();
    seeds.push(id.to_seed());
    assert(seed_bytes(seeds@) =~= amm_seeds(*id));
    address_of(find_program_address(&seeds, &program_id()))
}

/// Derives the address of the record of a base lending pool.
pub fn find_pool_address(amm: &Address, mint_a: &Address) -> (found: Option<Address>)
    ensures
        found == pool_address(*amm, *mint_a),
        found matches Some(address) ==> keyless(address),
{
    let mut seeds: Vec<Vec<u8>> = Vec::new();
    seeds.push(amm.to_seed());
    seeds.push(mint_a.to_seed());
    assert(seed_bytes(seeds@) =~= pool_seeds(*amm, *mint_a));
    address_of(find_program_address(&seeds, &program_id()))
}

/// Derives the address that two addresses and a role tag stand for.
pub fn find_tagged_address(
    first: &Address,
    second: &Address,
    tag: &[u8; 1],
) -> (found: Option<Address>)
    ensures
        found == tagged_address(*first, *second, *tag),
        found matches Some(address) ==> keyless(address),
{
    let mut role: Vec<u8> = Vec::new();
    role.push(tag[0]);
    assert(role@ =~= tag@);
    let mut seeds: Vec<Vec<u8>> = Vec::new();
    seeds.push(first.to_seed());
    seeds.push(second.to_seed());
    seeds.push(role);
    assert(seed_bytes(seeds@) =~= tagged_seeds(*first, *second, *tag));
    address_of(find_program_address(&seeds, &program_id()))
}

/// Derives the address of the balance that `owner` holds of `mint`.
pub fn find_associated_token_address(owner: &Address, mint: &Address) -> (found: Option<Address>)
    ensures
        found == associated_token_address(*owner, *mint),
        found matches Some(address) ==> keyless(address),
{
    let mut seeds: Vec<Vec<u8>> = Vec::new();
    seeds.push(owner.to_seed());
    seeds.push(token_program_id().to_seed());
    seeds.push(mint.to_seed());
    assert(seed_bytes(seeds@) =~= associated_token_seeds(*owner, *mint));
    address_of(find_program_address(&seeds, &associated_token_program_id()))
}

} // verus!
