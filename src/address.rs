//! Derived addresses: the seed lists of each record kind and the derivation
//! itself, which the host's `Pubkey` performs.
use vstd::prelude::*;
use crate::codec::be64_bytes;
use crate::error::StudentIntroError;

verus! {

/// A 32-byte account address or program identity.
pub type Address = [u8; 32];

/// The byte strings of a seed list.
pub open spec fn seeds_view(seeds: &Vec<Vec<u8>>) -> Seq<Seq<u8>> {
    Seq::new(seeds@.len(), |i: int| seeds@[i]@)
}

/// The address and bump seed derived from `seeds` under `program`, or `None`
/// when no bump seed gives an address off the curve.
pub uninterp spec fn program_address(seeds: Seq<Seq<u8>>, program: Seq<u8>) -> Option<(Seq<u8>, u8)>;

/// The reward account that the token program associates with a wallet and a mint.
pub uninterp spec fn associated_token_address(wallet: Seq<u8>, mint: Seq<u8>) -> Seq<u8>;

/// The bytes of the tag "counter".
pub open spec fn counter_tag() -> Seq<u8> {
    seq![99u8, 111u8, 117u8, 110u8, 116u8, 101u8, 114u8]
}

/// The bytes of the tag "token_mint".
pub open spec fn mint_tag() -> Seq<u8> {
    seq![116u8, 111u8, 107u8, 101u8, 110u8, 95u8, 109u8, 105u8, 110u8, 116u8]
}

/// The bytes of the tag "token_auth".
pub open spec fn auth_tag() -> Seq<u8> {
    seq![116u8, 111u8, 107u8, 101u8, 110u8, 95u8, 97u8, 117u8, 116u8, 104u8]
}

/// Seeds of a profile: the owner's address.
pub open spec fn profile_seeds(owner: Seq<u8>) -> Seq<Seq<u8>> {
    seq![owner]
}

/// Seeds of a profile's reply counter: the profile address and "counter".
pub open spec fn counter_seeds(profile: Seq<u8>) -> Seq<Seq<u8>> {
    seq![profile, counter_tag()]
}

/// Seeds of a reply: the profile address and the counter value, big-endian.
pub open spec fn reply_seeds(profile: Seq<u8>, index: u64) -> Seq<Seq<u8>> {
    seq![profile, be64_bytes(index)]
}

/// Seeds of the reward mint.
pub open spec fn mint_seeds() -> Seq<Seq<u8>> {
    seq![mint_tag()]
}

/// Seeds of the mint authority.
pub open spec fn auth_seeds() -> Seq<Seq<u8>> {
    seq![auth_tag()]
}

/// The identity of the token program, TokenkegQfeZyiNwAJbNbGKPFXCWuBvf9Ss623VQ5DA.
pub open spec fn token_program_bytes() -> Seq<u8> {
    seq![
        6u8, 221u8, 246u8, 225u8, 215u8, 101u8, 161u8, 147u8, 217u8, 203u8, 225u8, 70u8, 206u8, 235u8, 121u8, 172u8, 28u8, 180u8, 133u8, 237u8, 95u8, 91u8, 55u8, 145u8, 58u8, 140u8, 245u8, 133u8, 126u8, 255u8, 0u8, 169u8,
    ]
}

/// The identity of the associated-token-account program,
/// ATokenGPvbdGVxr1b2hvZbsiqW5xWH25efTNsLJA8knL.
pub open spec fn associated_program_bytes() -> Seq<u8> {
    seq![
        140u8, 151u8, 37u8, 143u8, 78u8, 36u8, 137u8, 241u8, 187u8, 61u8, 16u8, 41u8, 20u8, 142u8, 13u8, 131u8, 11u8, 90u8, 19u8, 153u8, 218u8, 255u8, 16u8, 132u8, 4u8, 142u8, 123u8, 216u8, 219u8, 233u8, 248u8, 89u8,
    ]
}

/// Seeds of a wallet's reward account for a mint, derived under the
/// associated-token-account program.
pub open spec fn reward_seeds(wallet: Seq<u8>, mint: Seq<u8>) -> Seq<Seq<u8>> {
    seq![wallet, token_program_bytes(), mint]
}

/// The seeds with the bump seed appended: what signs for a derived address.
pub open spec fn signer_seeds(seeds: Seq<Seq<u8>>, bump: u8) -> Seq<Seq<u8>> {
    seeds.push(seq![bump])
}

/// Relies on solana_program's `Pubkey::try_find_program_address`: a search over
/// bump seeds whose outcome depends on the seeds and the program alone; it
/// returns `None` when no bump seed fits or the seeds are too many or too long.
#[verifier::external_body]
fn find_program_address(seeds: &Vec<Vec<u8>>, program_id: &Address) -> (r: Option<(Address, u8)>)
    ensures
        match program_address(seeds_view(seeds), program_id@) {
            None => r.is_none(),
            Some((a, b)) => r.is_some() && r.unwrap().0@ == a && r.unwrap().1 == b,
        },
{
    let seeds: Vec<&[u8]> = seeds.iter().map(|s| s.as_slice()).collect();
    let program = solana_program::pubkey::Pubkey::new_from_array(*program_id);
    solana_program::pubkey::Pubkey::try_find_program_address(&seeds, &program).map(
        |(k, b)| (k.to_bytes(), b),
    )
}

/// Relies on spl_associated_token_account's `get_associated_token_address`: the
/// reward account of a wallet for a mint under the token program, a function of
/// the two addresses alone. It derives the seeds `[wallet, token program, mint]`
/// under the associated-token-account program with `find_program_address`,
/// which panics where that derivation finds no address; `requires` leaves
/// those inputs out.
#[verifier::external_body]
fn associated_token_account(wallet: &Address, mint: &Address) -> (r: Address)
    requires
        program_address(reward_seeds(wallet@, mint@), associated_program_bytes()) is Some,
    ensures
        r@ == associated_token_address(wallet@, mint@),
{
    let wallet = solana_program::pubkey::Pubkey::new_from_array(*wallet);
    let mint = solana_program::pubkey::Pubkey::new_from_array(*mint);
    spl_associated_token_account::get_associated_token_address(&wallet, &mint).to_bytes()
}

/// Relies on spl_token's `id`: the identity of the token program, declared in
/// its source as TokenkegQfeZyiNwAJbNbGKPFXCWuBvf9Ss623VQ5DA.
#[verifier::external_body]
pub(crate) fn token_program_id() -> (r: Address)
    ensures
        r@ == token_program_bytes(),
{
    spl_token::id().to_bytes()
}

/// Relies on spl_associated_token_account's `id`: the identity of the
/// associated-token-account program, declared in its source as
/// ATokenGPvbdGVxr1b2hvZbsiqW5xWH25efTNsLJA8knL.
#[verifier::external_body]
fn associated_program_id() -> (r: Address)
    ensures
        r@ == associated_program_bytes(),
{
    spl_associated_token_account::id().to_bytes()
}

/// Whether two addresses are the same.
pub fn same_address(a: &Address, b: &Address) -> (r: bool)
    ensures
        r == (a@ == b@),
{
    let mut i: usize = 0;
    while i < 32
        invariant
            i <= 32,
            forall|j: int| 0 <= j < i ==> a@[j] == b@[j],
        decreases 32 - i,
    {
        if a[i] != b[i] {
            return false;
        }
        i = i + 1;
    }
    assert(a@ =~= b@);
    true
}

/// A copy of the bytes of an address.
pub fn address_bytes(a: &Address) -> (r: Vec<u8>)
    ensures
        r@ == a@,
{
    let mut r: Vec<u8> = Vec::new();
    let mut i: usize = 0;
    while i < 32
        invariant
            i <= 32,
            r@ == a@.subrange(0, i as int),
        decreases 32 - i,
    {
        r.push(a[i]);
        i = i + 1;
        assert(r@ =~= a@.subrange(0, i as int));
    }
    assert(a@.subrange(0, 32) =~= a@);
    r
}

/// The big-endian bytes of `n`.
pub fn be64(n: u64) -> (r: Vec<u8>)
    ensures
        r@ == be64_bytes(n),
{
    let mut r: Vec<u8> = Vec::new();
    let mut i: u64 = 0;
    while i < 8
        invariant
            i <= 8,
            r@ == be64_bytes(n).subrange(0, i as int),
        decreases 8 - i,
    {
        r.push(((n >> (8 * (7 - i))) & 0xff) as u8);
        i = i + 1;
        assert(r@ =~= be64_bytes(n).subrange(0, i as int));
    }
    assert(be64_bytes(n).subrange(0, 8) =~= be64_bytes(n));
    r
}

/// The seeds of the profile owned by `owner`.
pub fn profile_seed_list(owner: &Address) -> (r: Vec<Vec<u8>>)
    ensures
        seeds_view(&r) == profile_seeds(owner@),
{
    let mut r: Vec<Vec<u8>> = Vec::new();
    r.push(address_bytes(owner));
    assert(seeds_view(&r) =~= profile_seeds(owner@));
    r
}

/// The seeds of the reply counter of `profile`.
pub fn counter_seed_list(profile: &Address) -> (r: Vec<Vec<u8>>)
    ensures
        seeds_view(&r) == counter_seeds(profile@),
{
    let mut r: Vec<Vec<u8>> = Vec::new();
    r.push(address_bytes(profile));
    r.push(vec![99u8, 111u8, 117u8, 110u8, 116u8, 101u8, 114u8]);
    assert(seeds_view(&r) =~= counter_seeds(profile@));
    r
}

/// The seeds of the reply numbered `index` under `profile`.
pub fn reply_seed_list(profile: &Address, index: u64) -> (r: Vec<Vec<u8>>)
    ensures
        seeds_view(&r) == reply_seeds(profile@, index),
{
    let mut r: Vec<Vec<u8>> = Vec::new();
    r.push(address_bytes(profile));
    r.push(be64(index));
    assert(seeds_view(&r) =~= reply_seeds(profile@, index));
    r
}

/// The seeds of the reward mint.
pub fn mint_seed_list() -> (r: Vec<Vec<u8>>)
    ensures
        seeds_view(&r) == mint_seeds(),
{
    let mut r: Vec<Vec<u8>> = Vec::new();
    r.push(vec![116u8, 111u8, 107u8, 101u8, 110u8, 95u8, 109u8, 105u8, 110u8, 116u8]);
    assert(seeds_view(&r) =~= mint_seeds());
    r
}

/// The seeds of the mint authority.
pub fn auth_seed_list() -> (r: Vec<Vec<u8>>)
    ensures
        seeds_view(&r) == auth_seeds(),
{
    let mut r: Vec<Vec<u8>> = Vec::new();
    r.push(vec![116u8, 111u8, 107u8, 101u8, 110u8, 95u8, 97u8, 117u8, 116u8, 104u8]);
    assert(seeds_view(&r) =~= auth_seeds());
    r
}

/// `seeds` followed by the one-byte bump seed.
pub fn with_bump(seeds: Vec<Vec<u8>>, bump: u8) -> (r: Vec<Vec<u8>>)
    ensures
        seeds_view(&r) == signer_seeds(seeds_view(&seeds), bump),
{
    let ghost before = seeds;
    let mut r = seeds;
    let b = vec![bump];
    assert(b@ =~= seq![bump]);
    r.push(b);
    assert(seeds_view(&r) =~= signer_seeds(seeds_view(&before), bump));
    r
}

/// Derives the address of `seeds` under `program_id`.
pub fn derive_address(seeds: &Vec<Vec<u8>>, program_id: &Address) -> (r: Result<
    (Address, u8),
    StudentIntroError,
>)
    ensures
        match program_address(seeds_view(seeds), program_id@) {
            None => r == Err::<(Address, u8), _>(StudentIntroError::NoDerivedAddress),
            Some((a, b)) => r.is_ok() && r.unwrap().0@ == a && r.unwrap().1 == b,
        },
{
    match find_program_address(seeds, program_id) {
        None => Err(StudentIntroError::NoDerivedAddress),
        Some(found) => Ok(found),
    }
}

/// Derives `seeds` under `program_id` and checks the result against `given`;
/// gives the bump seed.
pub fn check_derived(seeds: &Vec<Vec<u8>>, program_id: &Address, given: &Address) -> (r: Result<
    u8,
    StudentIntroError,
>)
    ensures
        r == derived_check(seeds_view(seeds), program_id@, given@),
{
    let (derived, bump) = derive_address(seeds, program_id)?;
    if same_address(&derived, given) {
        Ok(bump)
    } else {
        Err(StudentIntroError::InvalidPDA)
    }
}

/// The outcome of checking a supplied address against the one derived from `seeds`.
pub open spec fn derived_check(seeds: Seq<Seq<u8>>, program: Seq<u8>, given: Seq<u8>) -> Result<
    u8,
    StudentIntroError,
> {
    match program_address(seeds, program) {
        None => Err(StudentIntroError::NoDerivedAddress),
        Some((a, b)) => if a == given {
            Ok(b)
        } else {
            Err(StudentIntroError::InvalidPDA)
        },
    }
}

/// The address of the profile owned by `owner` under `program_id`, and its bump seed.
pub fn profile_address(owner: &Address, program_id: &Address) -> (r: Result<
    (Address, u8),
    StudentIntroError,
>)
    ensures
        match program_address(profile_seeds(owner@), program_id@) {
            None => r == Err::<(Address, u8), _>(StudentIntroError::NoDerivedAddress),
            Some((a, b)) => r.is_ok() && r.unwrap().0@ == a && r.unwrap().1 == b,
        },
{
    derive_address(&profile_seed_list(owner), program_id)
}

/// The address of the reply numbered `index` under `profile`, and its bump seed.
pub fn reply_address(profile: &Address, index: u64, program_id: &Address) -> (r: Result<
    (Address, u8),
    StudentIntroError,
>)
    ensures
        match program_address(reply_seeds(profile@, index), program_id@) {
            None => r == Err::<(Address, u8), _>(StudentIntroError::NoDerivedAddress),
            Some((a, b)) => r.is_ok() && r.unwrap().0@ == a && r.unwrap().1 == b,
        },
{
    derive_address(&reply_seed_list(profile, index), program_id)
}

/// The reward account of `wallet` for `mint`.
/// Fails with `NoDerivedAddress` where the derivation of its seeds finds no address.
pub fn reward_account(wallet: &Address, mint: &Address) -> (r: Result<Address, StudentIntroError>)
    ensures
        match program_address(reward_seeds(wallet@, mint@), associated_program_bytes()) {
            None => r == Err::<Address, _>(StudentIntroError::NoDerivedAddress),
            Some(_) => r.is_ok() && r.unwrap()@ == associated_token_address(wallet@, mint@),
        },
{
    let mut seeds: Vec<Vec<u8>> = Vec::new();
    seeds.push(address_bytes(wallet));
    seeds.push(address_bytes(&token_program_id()));
    seeds.push(address_bytes(mint));
    assert(seeds_view(&seeds) =~= reward_seeds(wallet@, mint@));
    derive_address(&seeds, &associated_program_id())?;
    Ok(associated_token_account(wallet, mint))
}

} // verus!
