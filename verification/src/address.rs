//! Account addresses, and the derivation of the address at which the record
//! of a vesting schedule is kept.
//!
//! A record lives at the program-derived address of the seeds
//! `["vesting_schedule", authority, beneficiary, token mint]`. Anyone who
//! knows the three identities can compute the address again, so there is at
//! most one record for each triple and no index of records is needed.

use vstd::prelude::*;

verus! {

/// The address of an account: 32 bytes.
#[derive(Clone, Copy, Debug)]
pub struct Address {
    pub bytes: [u8; 32],
}

impl View for Address {
    type V = Seq<u8>;

    open spec fn view(&self) -> Seq<u8> {
        self.bytes@
    }
}

impl PartialEq for Address {
    fn eq(&self, other: &Address) -> (r: bool) {
        let mut i: usize = 0;
        while i < 32
            invariant
                i <= 32,
                forall|j: int| 0 <= j < i ==> self.bytes@[j] == other.bytes@[j],
            decreases 32 - i,
        {
            if self.bytes[i] != other.bytes[i] {
                return false;
            }
            i += 1;
        }
        proof {
            assert(self.bytes =~= other.bytes);
        }
        true
    }
}

impl Eq for Address {}

impl vstd::std_specs::cmp::PartialEqSpecImpl for Address {
    open spec fn obeys_eq_spec() -> bool {
        true
    }

    open spec fn eq_spec(&self, other: &Address) -> bool {
        *self == *other
    }
}

impl Address {
    /// An address is its bytes: two addresses with the same bytes are the same address.
    pub proof fn lemma_view_injective(a: Address, b: Address)
        ensures
            a@ == b@ <==> a == b,
            a@.len() == 32,
    {
        if a@ == b@ {
            assert(a.bytes =~= b.bytes);
        }
    }

    /// The bytes of the address, as a seed for a derivation.
    pub fn to_seed(&self) -> (seed: Vec<u8>)
        ensures
            seed@ == self@,
    {
        let mut seed: Vec<u8> = Vec::new();
        let mut i: usize = 0;
        while i < 32
            invariant
                i <= 32,
                seed@.len() == i,
                forall|j: int| 0 <= j < i ==> seed@[j] == self.bytes@[j],
            decreases 32 - i,
        {
            seed.push(self.bytes[i]);
            i += 1;
        }
        proof {
            assert(seed@ =~= self@);
        }
        seed
    }
}

/// The namespace tag that starts the seeds of every record address: the
/// ASCII bytes of `vesting_schedule`.
pub open spec fn seed_tag() -> Seq<u8> {
    seq![118u8, 101u8, 115u8, 116u8, 105u8, 110u8, 103u8, 95u8, 115u8, 99u8, 104u8, 101u8, 100u8,
        117u8, 108u8, 101u8]
}

/// The seeds of the record for `(authority, beneficiary, token_mint)`, without a bump.
pub open spec fn schedule_seeds(authority: Seq<u8>, beneficiary: Seq<u8>, token_mint: Seq<u8>) -> Seq<
    Seq<u8>,
> {
    seq![seed_tag(), authority, beneficiary, token_mint]
}

/// The seeds of the record for `(authority, beneficiary, token_mint)`, closed by a bump seed.
pub open spec fn schedule_seeds_with_bump(
    authority: Seq<u8>,
    beneficiary: Seq<u8>,
    token_mint: Seq<u8>,
    bump: u8,
) -> Seq<Seq<u8>> {
    schedule_seeds(authority, beneficiary, token_mint).push(seq![bump])
}

/// What `Pubkey::try_find_program_address` returns for the given seeds and
/// program: the derived address and the bump seed that closes the seeds, or
/// `None` where no bump seed gives an address.
pub uninterp spec fn found_program_address(seeds: Seq<Seq<u8>>, program_id: Seq<u8>) -> Option<
    (Seq<u8>, u8),
>;

/// What `Pubkey::create_program_address` returns for the given seeds and
/// program: the derived address, or `None` where it returns an error.
pub uninterp spec fn created_program_address(seeds: Seq<Seq<u8>>, program_id: Seq<u8>) -> Option<
    Seq<u8>,
>;

/// The error of `Pubkey::create_program_address`.
#[verifier::external_type_specification]
#[verifier::external_body]
pub struct ExPubkeyError(anchor_lang::solana_program::pubkey::PubkeyError);

/// The address and bump that a search returned, as bytes.
pub open spec fn found_view(found: Option<(Address, u8)>) -> Option<(Seq<u8>, u8)> {
    match found {
        Some((address, bump)) => Some((address@, bump)),
        None => None,
    }
}

/// The address that a derivation returned, as bytes; an error is `None`.
pub open spec fn created_view(
    created: Result<Address, anchor_lang::solana_program::pubkey::PubkeyError>,
) -> Option<Seq<u8>> {
    match created {
        Ok(address) => Some(address@),
        Err(_) => None,
    }
}

/// The bytes of an address that may be absent.
pub open spec fn address_view(address: Option<Address>) -> Option<Seq<u8>> {
    match address {
        Some(a) => Some(a@),
        None => None,
    }
}

/// Calls `Pubkey::try_find_program_address`.
///
/// Trusted: the result is the named value `found_program_address` of the
/// seeds and the program. Where an address is found, it is the one that
/// `Pubkey::create_program_address` derives from the same seeds followed by
/// the one-byte seed of the bump that is returned with it: the search tries
/// exactly that call for each bump and returns the first that succeeds.
#[verifier::external_body]
fn try_find_program_address(seeds: &Vec<Vec<u8>>, program_id: &Address) -> (found: Option<
    (Address, u8),
>)
    ensures
        found_view(found) == found_program_address(seeds.deep_view(), program_id@),
        found matches Some((address, bump)) ==> created_program_address(
            seeds.deep_view().push(seq![bump]),
            program_id@,
        ) == Some(address@),
{
    let parts: Vec<&[u8]> = seeds.iter().map(|seed| seed.as_slice()).collect();
    let program = anchor_lang::prelude::Pubkey::new_from_array(program_id.bytes);
    match anchor_lang::prelude::Pubkey::try_find_program_address(&parts, &program) {
        Some((key, bump)) => Some((Address { bytes: key.to_bytes() }, bump)),
        None => None,
    }
}

/// Calls `Pubkey::create_program_address`.
///
/// Trusted: the result is the named value `created_program_address` of the
/// seeds and the program, an error standing for `None`.
#[verifier::external_body]
fn create_program_address(seeds: &Vec<Vec<u8>>, program_id: &Address) -> (created: Result<
    Address,
    anchor_lang::solana_program::pubkey::PubkeyError,
>)
    ensures
        created_view(created) == created_program_address(seeds.deep_view(), program_id@),
{
    let parts: Vec<&[u8]> = seeds.iter().map(|seed| seed.as_slice()).collect();
    let program = anchor_lang::prelude::Pubkey::new_from_array(program_id.bytes);
    match anchor_lang::prelude::Pubkey::create_program_address(&parts, &program) {
        Ok(key) => Ok(Address { bytes: key.to_bytes() }),
        Err(e) => Err(e),
    }
}

/// The deep view of a seed is the sequence of its bytes.
proof fn lemma_seed_deep_view(seed: Vec<u8>)
    ensures
        seed.deep_view() == seed@,
{
    assert(seed.deep_view() =~= seed@);
}

/// The namespace tag as a seed.
fn tag_seed() -> (seed: Vec<u8>)
    ensures
        seed@ == seed_tag(),
{
    let mut seed: Vec<u8> = Vec::new();
    seed.push(118);
    seed.push(101);
    seed.push(115);
    seed.push(116);
    seed.push(105);
    seed.push(110);
    seed.push(103);
    seed.push(95);
    seed.push(115);
    seed.push(99);
    seed.push(104);
    seed.push(101);
    seed.push(100);
    seed.push(117);
    seed.push(108);
    seed.push(101);
    proof {
        assert(seed@ =~= seed_tag());
    }
    seed
}

/// Builds the seeds of the record for `(authority, beneficiary, token_mint)`:
/// the namespace tag, then the three identities in this order.
pub fn build_schedule_seeds(authority: &Address, beneficiary: &Address, token_mint: &Address) -> (seeds:
    Vec<Vec<u8>>)
    ensures
        seeds.deep_view() == schedule_seeds(authority@, beneficiary@, token_mint@),
{
    let mut seeds: Vec<Vec<u8>> = Vec::new();
    seeds.push(tag_seed());
    seeds.push(authority.to_seed());
    seeds.push(beneficiary.to_seed());
    seeds.push(token_mint.to_seed());
    proof {
        lemma_seed_deep_view(seeds@[0]);
        lemma_seed_deep_view(seeds@[1]);
        lemma_seed_deep_view(seeds@[2]);
        lemma_seed_deep_view(seeds@[3]);
        assert(seeds.deep_view() =~= schedule_seeds(authority@, beneficiary@, token_mint@));
    }
    seeds
}

/// The address and bump of the record for a triple, as the search derives
/// them under `program_id`.
pub open spec fn derived_schedule_address(
    program_id: Seq<u8>,
    authority: Seq<u8>,
    beneficiary: Seq<u8>,
    token_mint: Seq<u8>,
) -> Option<(Seq<u8>, u8)> {
    found_program_address(schedule_seeds(authority, beneficiary, token_mint), program_id)
}

/// The address of the record for a triple under a known bump.
pub open spec fn schedule_address_with_bump(
    program_id: Seq<u8>,
    authority: Seq<u8>,
    beneficiary: Seq<u8>,
    token_mint: Seq<u8>,
    bump: u8,
) -> Option<Seq<u8>> {
    created_program_address(
        schedule_seeds_with_bump(authority, beneficiary, token_mint, bump),
        program_id,
    )
}

/// Searches the address of the record for `(authority, beneficiary, token_mint)`
/// under `program_id`, and the bump that goes with it.
///
/// The address found is also the one that `schedule_address` gives for the
/// bump found.
pub fn find_schedule_address(
    program_id: &Address,
    authority: &Address,
    beneficiary: &Address,
    token_mint: &Address,
) -> (found: Option<(Address, u8)>)
    ensures
        found_view(found) == derived_schedule_address(
            program_id@,
            authority@,
            beneficiary@,
            token_mint@,
        ),
        found matches Some((address, bump)) ==> schedule_address_with_bump(
            program_id@,
            authority@,
            beneficiary@,
            token_mint@,
            bump,
        ) == Some(address@),
{
    let seeds = build_schedule_seeds(authority, beneficiary, token_mint);
    try_find_program_address(&seeds, program_id)
}

/// Derives the address of the record for `(authority, beneficiary, token_mint)`
/// under `program_id` from a bump that is already known. `None` where the
/// bump gives no address.
pub fn schedule_address(
    program_id: &Address,
    authority: &Address,
    beneficiary: &Address,
    token_mint: &Address,
    bump: u8,
) -> (address: Option<Address>)
    ensures
        address_view(address) == schedule_address_with_bump(
            program_id@,
            authority@,
            beneficiary@,
            token_mint@,
            bump,
        ),
{
    let mut seeds = build_schedule_seeds(authority, beneficiary, token_mint);
    let ghost head = seeds.deep_view();
    let mut bump_seed: Vec<u8> = Vec::new();
    bump_seed.push(bump);
    proof {
        assert(bump_seed@ =~= seq![bump]);
        lemma_seed_deep_view(bump_seed);
    }
    seeds.push(bump_seed);
    proof {
        assert(seeds.deep_view() =~= head.push(seq![bump]));
        assert(seeds.deep_view() =~= schedule_seeds_with_bump(
            authority@,
            beneficiary@,
            token_mint@,
            bump,
        ));
    }
    match create_program_address(&seeds, program_id) {
        Ok(address) => Some(address),
        Err(_) => None,
    }
}

} // verus!
