//! The operations of the program over the accounts that the caller supplies.
//!
//! Each operation checks every supplied address against the one it derives,
//! works out the new contents of the records it creates or changes, and hands
//! back the calls that the host must make on its behalf (allocating accounts,
//! creating the mint, minting rewards). On failure no account is touched.
use vstd::prelude::*;
use crate::address::{
    associated_program_bytes, associated_token_address, auth_seed_list, program_address,
    reward_seeds, token_program_bytes, auth_seeds, check_derived, counter_seed_list,
    counter_seeds, derived_check, mint_seed_list, mint_seeds, profile_seed_list, profile_seeds,
    reply_seed_list, reply_seeds, reward_account, same_address, seeds_view, signer_seeds,
    token_program_id, with_bump, Address,
};
use crate::codec::push_bytes;
use crate::error::StudentIntroError;
use crate::instruction::{read_string_pair, IntroInstruction};
use crate::state::{
    byte_len, counter_encoding, counter_record_tag, intro_encoding, intro_size, intro_tag,
    read_counter, read_intro, read_reply, reply_encoding, reply_size, reply_tag, str_bytes,
    ReplyCounterState, ReplyState, StudentIntroState, PROFILE_CAPACITY,
};

verus! {

/// Base units of the reward token in one whole token.
pub const TOKEN_UNIT: u64 = 1_000_000_000;

/// Reward for creating a profile, in base units.
pub const PROFILE_REWARD: u64 = 10 * TOKEN_UNIT;

/// Reward for adding a reply, in base units.
pub const REPLY_REWARD: u64 = 5 * TOKEN_UNIT;

/// Space of a mint account in the token program's layout.
pub const MINT_SPACE: u64 = 82;

/// Decimal places of the reward token.
pub const MINT_DECIMALS: u8 = 9;

/// An account as the caller supplies it: its address, whether it signed the
/// call, and its data.
pub struct AccountSlot {
    pub key: Address,
    pub is_signer: bool,
    pub data: Vec<u8>,
}

/// A call that the host makes for the program once an operation succeeds.
pub enum HostAction {
    /// Allocate `space` zero bytes at `address`, funded by `payer`, owned by `owner`.
    CreateAccount {
        payer: Address,
        address: Address,
        space: u64,
        owner: Address,
        signer_seeds: Vec<Vec<u8>>,
    },
    /// Make `mint` a token mint under `authority`, with no freeze authority.
    InitializeMint { mint: Address, authority: Address, decimals: u8, signer_seeds: Vec<Vec<u8>> },
    /// Credit `amount` base units of `mint` to `destination`.
    MintTo {
        mint: Address,
        destination: Address,
        authority: Address,
        amount: u64,
        signer_seeds: Vec<Vec<u8>>,
    },
}

/// `a` allocates `space` bytes at `address` for `owner`, paid by `payer`, signed with `seeds`.
pub open spec fn is_create_account(
    a: HostAction,
    payer: Seq<u8>,
    address: Seq<u8>,
    space: int,
    owner: Seq<u8>,
    seeds: Seq<Seq<u8>>,
) -> bool {
    match a {
        HostAction::CreateAccount { payer: p, address: ad, space: s, owner: o, signer_seeds } => p@
            == payer && ad@ == address && s == space && o@ == owner && seeds_view(&signer_seeds)
            == seeds,
        _ => false,
    }
}

/// `a` initializes `mint` under `authority` with `decimals`, signed with `seeds`.
pub open spec fn is_initialize_mint(
    a: HostAction,
    mint: Seq<u8>,
    authority: Seq<u8>,
    decimals: u8,
    seeds: Seq<Seq<u8>>,
) -> bool {
    match a {
        HostAction::InitializeMint { mint: m, authority: au, decimals: d, signer_seeds } => m@
            == mint && au@ == authority && d == decimals && seeds_view(&signer_seeds) == seeds,
        _ => false,
    }
}

/// `a` mints `amount` of `mint` to `destination` under `authority`, signed with `seeds`.
pub open spec fn is_mint_to(
    a: HostAction,
    mint: Seq<u8>,
    destination: Seq<u8>,
    authority: Seq<u8>,
    amount: u64,
    seeds: Seq<Seq<u8>>,
) -> bool {
    match a {
        HostAction::MintTo { mint: m, destination: d, authority: au, amount: n, signer_seeds } => m@
            == mint && d@ == destination && au@ == authority && n == amount && seeds_view(
            &signer_seeds,
        ) == seeds,
        _ => false,
    }
}

/// The base units that an action mints.
pub open spec fn minted(a: HostAction) -> int {
    match a {
        HostAction::MintTo { amount, .. } => amount as int,
        _ => 0,
    }
}

/// The base units that a list of actions mints.
pub open spec fn total_minted(actions: Seq<HostAction>) -> int
    decreases actions.len(),
{
    if actions.len() == 0 {
        0
    } else {
        total_minted(actions.drop_last()) + minted(actions.last())
    }
}

/// An account's data once the host has allocated `space` bytes for it: a fresh
/// account holds zeros, an account that already exists keeps its data.
pub open spec fn allocated(data: Seq<u8>, space: int) -> Seq<u8> {
    if data.len() == 0 {
        Seq::new(space as nat, |i: int| 0u8)
    } else {
        data
    }
}

/// `data` with `bytes` written over its front, or `InvalidAccountData` where the
/// account is too short to hold them.
pub open spec fn overwritten(data: Seq<u8>, bytes: Seq<u8>) -> Result<Seq<u8>, StudentIntroError> {
    if bytes.len() > data.len() {
        Err(StudentIntroError::InvalidAccountData)
    } else {
        Ok(bytes + data.subrange(bytes.len() as int, data.len() as int))
    }
}

/// `new` is `old` with the data of the slots in `writes` replaced.
pub open spec fn slots_written(
    old: Seq<AccountSlot>,
    new: Seq<AccountSlot>,
    writes: Map<int, Seq<u8>>,
) -> bool {
    new.len() == old.len() && forall|j: int|
        0 <= j < old.len() ==> new[j].key == old[j].key && new[j].is_signer == old[j].is_signer
            && if writes.contains_key(j) {
            new[j].data@ == writes[j]
        } else {
            new[j] == old[j]
        }
}

/// The new data of a profile account, from its data before allocation.
pub open spec fn intro_record_outcome(data: Seq<u8>, name: Seq<u8>, message: Seq<u8>) -> Result<
    Seq<u8>,
    StudentIntroError,
> {
    let d = allocated(data, PROFILE_CAPACITY as int);
    match read_intro(d) {
        None => Err(StudentIntroError::InvalidAccountData),
        Some((_, init, _, _)) => if init {
            Err(StudentIntroError::AccountAlreadyInitialized)
        } else {
            overwritten(d, intro_encoding(intro_tag(), true, name, message))
        },
    }
}

/// The new data of a counter account, from its data before allocation.
pub open spec fn counter_record_outcome(data: Seq<u8>) -> Result<Seq<u8>, StudentIntroError> {
    let d = allocated(data, ReplyCounterState::SIZE as int);
    match read_counter(d) {
        None => Err(StudentIntroError::InvalidAccountData),
        Some((_, init, _)) => if init {
            Err(StudentIntroError::AccountAlreadyInitialized)
        } else {
            overwritten(d, counter_encoding(counter_record_tag(), true, 0))
        },
    }
}

/// The new data of a reply account, from its data before allocation.
pub open spec fn reply_record_outcome(
    data: Seq<u8>,
    name: Seq<u8>,
    reply: Seq<u8>,
    replier: Seq<u8>,
    profile: Seq<u8>,
) -> Result<Seq<u8>, StudentIntroError> {
    let d = allocated(data, reply_size(name, reply));
    match read_reply(d) {
        None => Err(StudentIntroError::InvalidAccountData),
        Some((_, init, _, _, _, _)) => if init {
            Err(StudentIntroError::AccountAlreadyInitialized)
        } else {
            overwritten(d, reply_encoding(reply_tag(), true, name, reply, replier, profile))
        },
    }
}

/// The check of the accounts that a reward goes through; gives the bump seed
/// of the mint authority.
pub open spec fn reward_check(
    program: Seq<u8>,
    token_program: Seq<u8>,
    owner: Seq<u8>,
    mint: Seq<u8>,
    authority: Seq<u8>,
    reward: Seq<u8>,
    token_key: Seq<u8>,
) -> Result<u8, StudentIntroError> {
    match derived_check(mint_seeds(), program, mint) {
        Err(e) => Err(e),
        Ok(_) => match derived_check(auth_seeds(), program, authority) {
            Err(e) => Err(e),
            Ok(ab) => if token_key != token_program {
                Err(StudentIntroError::InvalidPDA)
            } else {
                match program_address(reward_seeds(owner, mint), associated_program_bytes()) {
                    None => Err(StudentIntroError::NoDerivedAddress),
                    Some(_) => if reward != associated_token_address(owner, mint) {
                        Err(StudentIntroError::InvalidPDA)
                    } else {
                        Ok(ab)
                    },
                }
            },
        },
    }
}

fn copy_bytes(data: &Vec<u8>) -> (r: Vec<u8>)
    ensures
        r@ == data@,
{
    let mut r: Vec<u8> = Vec::new();
    push_bytes(&mut r, data.as_slice());
    assert(r@ =~= data@);
    r
}

/// The data of an account after allocation of `space` bytes.
pub fn allocate(data: &Vec<u8>, space: usize) -> (r: Vec<u8>)
    ensures
        r@ == allocated(data@, space as int),
{
    if data.len() == 0 {
        let mut r: Vec<u8> = Vec::new();
        let mut i: usize = 0;
        while i < space
            invariant
                i <= space,
                r@ == Seq::new(i as nat, |k: int| 0u8),
            decreases space - i,
        {
            r.push(0u8);
            i = i + 1;
            assert(r@ =~= Seq::new(i as nat, |k: int| 0u8));
        }
        r
    } else {
        copy_bytes(data)
    }
}

/// `data` with `bytes` written over its front.
pub fn overwrite(data: &Vec<u8>, bytes: &Vec<u8>) -> (r: Result<Vec<u8>, StudentIntroError>)
    ensures
        match overwritten(data@, bytes@) {
            Err(e) => r == Err::<Vec<u8>, _>(e),
            Ok(d) => r.is_ok() && r.unwrap()@ == d,
        },
{
    if bytes.len() > data.len() {
        return Err(StudentIntroError::InvalidAccountData);
    }
    let mut r: Vec<u8> = Vec::new();
    push_bytes(&mut r, bytes.as_slice());
    push_bytes(&mut r, &data.as_slice()[bytes.len()..data.len()]);
    Ok(r)
}

/// Creates the profile record in an account's data.
pub fn create_intro_record(data: &Vec<u8>, name: &String, message: &String) -> (r: Result<
    Vec<u8>,
    StudentIntroError,
>)
    requires
        str_bytes(*name).len() <= u32::MAX,
        str_bytes(*message).len() <= u32::MAX,
    ensures
        match intro_record_outcome(data@, str_bytes(*name), str_bytes(*message)) {
            Err(e) => r == Err::<Vec<u8>, _>(e),
            Ok(d) => r.is_ok() && r.unwrap()@ == d,
        },
{
    let d = allocate(data, PROFILE_CAPACITY);
    let current = StudentIntroState::deserialize(d.as_slice())?;
    if current.is_initialized() {
        return Err(StudentIntroError::AccountAlreadyInitialized);
    }
    let record = StudentIntroState::new(name.clone(), message.clone());
    proof {
        vstd::utf8::encode_utf8_valid_utf8(record.discriminator@);
    }
    let bytes = record.serialize();
    overwrite(&d, &bytes)
}

/// Creates a zero counter record in an account's data.
pub fn create_counter_record(data: &Vec<u8>) -> (r: Result<Vec<u8>, StudentIntroError>)
    ensures
        match counter_record_outcome(data@) {
            Err(e) => r == Err::<Vec<u8>, _>(e),
            Ok(d) => r.is_ok() && r.unwrap()@ == d,
        },
{
    let d = allocate(data, ReplyCounterState::SIZE);
    let current = ReplyCounterState::deserialize(d.as_slice())?;
    if current.is_initialized() {
        return Err(StudentIntroError::AccountAlreadyInitialized);
    }
    let record = ReplyCounterState::new(0);
    let bytes = record.serialize();
    overwrite(&d, &bytes)
}

/// Creates a reply record in an account's data.
pub fn create_reply_record(
    data: &Vec<u8>,
    name: &String,
    reply: &String,
    replier: &Address,
    profile: &Address,
) -> (r: Result<Vec<u8>, StudentIntroError>)
    requires
        str_bytes(*name).len() <= u32::MAX,
        str_bytes(*reply).len() <= u32::MAX,
        reply_size(str_bytes(*name), str_bytes(*reply)) <= usize::MAX,
    ensures
        match reply_record_outcome(data@, str_bytes(*name), str_bytes(*reply), replier@, profile@) {
            Err(e) => r == Err::<Vec<u8>, _>(e),
            Ok(d) => r.is_ok() && r.unwrap()@ == d,
        },
{
    let space = ReplyState::get_account_size(name.clone(), reply.clone());
    let d = allocate(data, space);
    let current = ReplyState::deserialize(d.as_slice())?;
    if current.is_initialized() {
        return Err(StudentIntroError::AccountAlreadyInitialized);
    }
    let record = ReplyState::new(name.clone(), reply.clone(), *replier, *profile);
    let bytes = record.serialize();
    overwrite(&d, &bytes)
}

/// Checks the accounts that a reward goes through; gives the bump seed of the
/// mint authority.
pub fn check_reward_accounts(
    program_id: &Address,
    token_program: &Address,
    owner: &Address,
    mint: &Address,
    authority: &Address,
    reward: &Address,
    token_key: &Address,
) -> (r: Result<u8, StudentIntroError>)
    ensures
        r == reward_check(program_id@, token_program@, owner@, mint@, authority@, reward@, token_key@),
{
    check_derived(&mint_seed_list(), program_id, mint)?;
    let auth_bump = check_derived(&auth_seed_list(), program_id, authority)?;
    if !same_address(token_key, token_program) {
        return Err(StudentIntroError::InvalidPDA);
    }
    let expected = reward_account(owner, mint)?;
    if !same_address(reward, &expected) {
        return Err(StudentIntroError::InvalidPDA);
    }
    Ok(auth_bump)
}

/// Replaces the data of the slot at `i`.
fn write_slot(accounts: &mut Vec<AccountSlot>, i: usize, data: Vec<u8>)
    requires
        i < old(accounts)@.len(),
    ensures
        final(accounts)@.len() == old(accounts)@.len(),
        final(accounts)@[i as int].key == old(accounts)@[i as int].key,
        final(accounts)@[i as int].is_signer == old(accounts)@[i as int].is_signer,
        final(accounts)@[i as int].data@ == data@,
        forall|j: int| 0 <= j < old(accounts)@.len() && j != i ==> final(accounts)@[j] == old(accounts)@[j],
{
    let key = accounts[i].key;
    let is_signer = accounts[i].is_signer;
    accounts.set(i, AccountSlot { key, is_signer, data });
}

} // verus!

verus! {

/// The outcome of adding a profile: the new data of the profile and counter
/// accounts and the bump seeds of the profile, the counter and the mint authority.
pub open spec fn add_intro_outcome(
    program: Seq<u8>,
    token_program: Seq<u8>,
    accounts: Seq<AccountSlot>,
    name: Seq<u8>,
    message: Seq<u8>,
) -> Result<(Seq<u8>, Seq<u8>, u8, u8, u8), StudentIntroError> {
    if accounts.len() < 8 {
        Err(StudentIntroError::NotEnoughAccountKeys)
    } else if !accounts[0].is_signer {
        Err(StudentIntroError::MissingSignature)
    } else {
        match derived_check(profile_seeds(accounts[0].key@), program, accounts[1].key@) {
            Err(e) => Err(e),
            Ok(ib) => if intro_size(name, message) > PROFILE_CAPACITY {
                Err(StudentIntroError::InvalidDataLength)
            } else {
                match intro_record_outcome(accounts[1].data@, name, message) {
                    Err(e) => Err(e),
                    Ok(d1) => match derived_check(
                        counter_seeds(accounts[1].key@),
                        program,
                        accounts[2].key@,
                    ) {
                        Err(e) => Err(e),
                        Ok(cb) => match counter_record_outcome(accounts[2].data@) {
                            Err(e) => Err(e),
                            Ok(d2) => match reward_check(
                                program,
                                token_program,
                                accounts[0].key@,
                                accounts[3].key@,
                                accounts[4].key@,
                                accounts[5].key@,
                                accounts[7].key@,
                            ) {
                                Err(e) => Err(e),
                                Ok(ab) => Ok((d1, d2, ib, cb, ab)),
                            },
                        },
                    },
                }
            },
        }
    }
}

/// What adding a profile leaves: `r` is its result, `new` the accounts after it.
pub open spec fn add_intro_done(
    program: Seq<u8>,
    token_program: Seq<u8>,
    old: Seq<AccountSlot>,
    new: Seq<AccountSlot>,
    name: Seq<u8>,
    message: Seq<u8>,
    r: Result<Vec<HostAction>, StudentIntroError>,
) -> bool {
    match add_intro_outcome(program, token_program, old, name, message) {
        Err(e) => r == Err::<Vec<HostAction>, _>(e) && new == old,
        Ok((d1, d2, ib, cb, ab)) => r.is_ok() && slots_written(old, new, map![1int => d1, 2int => d2])
            && r.unwrap()@.len() == 3 && is_create_account(
            r.unwrap()@[0],
            old[0].key@,
            old[1].key@,
            PROFILE_CAPACITY as int,
            program,
            signer_seeds(profile_seeds(old[0].key@), ib),
        ) && is_create_account(
            r.unwrap()@[1],
            old[0].key@,
            old[2].key@,
            ReplyCounterState::SIZE as int,
            program,
            signer_seeds(counter_seeds(old[1].key@), cb),
        ) && is_mint_to(
            r.unwrap()@[2],
            old[3].key@,
            old[5].key@,
            old[4].key@,
            PROFILE_REWARD,
            signer_seeds(auth_seeds(), ab),
        ),
    }
}

/// Adds the profile of the signer at `accounts[0]`.
///
/// Accounts: signer, profile, counter, mint, mint authority, reward account,
/// system program, token program. The profile and counter addresses must be
/// the ones derived for the signer; the record must fit the profile capacity;
/// neither record may be initialized yet. On success the profile holds the
/// name and message, the counter holds zero, and the actions allocate both
/// accounts and mint the profile reward to the signer.
pub fn add_student_intro(
    program_id: &Address,
    token_program: &Address,
    accounts: &mut Vec<AccountSlot>,
    name: String,
    message: String,
) -> (r: Result<Vec<HostAction>, StudentIntroError>)
    ensures
        add_intro_done(
            program_id@,
            token_program@,
            old(accounts)@,
            final(accounts)@,
            str_bytes(name),
            str_bytes(message),
            r,
        ),
{
    if accounts.len() < 8 {
        return Err(StudentIntroError::NotEnoughAccountKeys);
    }
    let initializer = accounts[0].key;
    if !accounts[0].is_signer {
        return Err(StudentIntroError::MissingSignature);
    }
    let intro_key = accounts[1].key;
    let intro_bump = check_derived(&profile_seed_list(&initializer), program_id, &intro_key)?;
    if byte_len(&name) > PROFILE_CAPACITY || byte_len(&message) > PROFILE_CAPACITY {
        return Err(StudentIntroError::InvalidDataLength);
    }
    let size = StudentIntroState::get_account_size(name.clone(), message.clone());
    if size > PROFILE_CAPACITY {
        return Err(StudentIntroError::InvalidDataLength);
    }
    let intro_data = create_intro_record(&accounts[1].data, &name, &message)?;
    let counter_key = accounts[2].key;
    let counter_bump = check_derived(&counter_seed_list(&intro_key), program_id, &counter_key)?;
    let counter_data = create_counter_record(&accounts[2].data)?;
    let mint_key = accounts[3].key;
    let auth_key = accounts[4].key;
    let reward_key = accounts[5].key;
    let token_key = accounts[7].key;
    let auth_bump = check_reward_accounts(
        program_id,
        token_program,
        &initializer,
        &mint_key,
        &auth_key,
        &reward_key,
        &token_key,
    )?;
    write_slot(accounts, 1, intro_data);
    write_slot(accounts, 2, counter_data);
    let mut actions: Vec<HostAction> = Vec::new();
    actions.push(
        HostAction::CreateAccount {
            payer: initializer,
            address: intro_key,
            space: 1000,
            owner: *program_id,
            signer_seeds: with_bump(profile_seed_list(&initializer), intro_bump),
        },
    );
    actions.push(
        HostAction::CreateAccount {
            payer: initializer,
            address: counter_key,
            space: 20,
            owner: *program_id,
            signer_seeds: with_bump(counter_seed_list(&intro_key), counter_bump),
        },
    );
    actions.push(
        HostAction::MintTo {
            mint: mint_key,
            destination: reward_key,
            authority: auth_key,
            amount: PROFILE_REWARD,
            signer_seeds: with_bump(auth_seed_list(), auth_bump),
        },
    );
    proof {
        assert(slots_written(
            old(accounts)@,
            accounts@,
            map![1int => intro_data@, 2int => counter_data@],
        ));
    }
    Ok(actions)
}

} // verus!

verus! {

/// The outcome of updating a profile's message: the new data of the profile account.
pub open spec fn update_intro_outcome(
    program: Seq<u8>,
    accounts: Seq<AccountSlot>,
    name: Seq<u8>,
    message: Seq<u8>,
) -> Result<Seq<u8>, StudentIntroError> {
    if accounts.len() < 2 {
        Err(StudentIntroError::NotEnoughAccountKeys)
    } else if !accounts[0].is_signer {
        Err(StudentIntroError::MissingSignature)
    } else {
        match derived_check(profile_seeds(accounts[0].key@), program, accounts[1].key@) {
            Err(e) => Err(e),
            Ok(_) => if intro_size(name, message) > PROFILE_CAPACITY {
                Err(StudentIntroError::InvalidDataLength)
            } else {
                match read_intro(accounts[1].data@) {
                    None => Err(StudentIntroError::InvalidAccountData),
                    Some((tag, init, stored_name, _)) => if !init {
                        Err(StudentIntroError::UninitializedAccount)
                    } else {
                        overwritten(
                            accounts[1].data@,
                            intro_encoding(tag, init, stored_name, message),
                        )
                    },
                }
            },
        }
    }
}

/// What updating a profile leaves: `r` is its result, `new` the accounts after it.
pub open spec fn update_intro_done(
    program: Seq<u8>,
    old: Seq<AccountSlot>,
    new: Seq<AccountSlot>,
    name: Seq<u8>,
    message: Seq<u8>,
    r: Result<Vec<HostAction>, StudentIntroError>,
) -> bool {
    match update_intro_outcome(program, old, name, message) {
        Err(e) => r == Err::<Vec<HostAction>, _>(e) && new == old,
        Ok(d1) => r.is_ok() && r.unwrap()@.len() == 0 && slots_written(old, new, map![1int => d1]),
    }
}

/// Replaces the message of the signer's profile; the stored name is kept.
///
/// Accounts: signer, profile. The profile address must be the one derived for
/// the signer, `name` and `message` must fit the profile capacity, and the
/// profile must already be initialized.
pub fn update_student_intro(
    program_id: &Address,
    accounts: &mut Vec<AccountSlot>,
    name: String,
    message: String,
) -> (r: Result<Vec<HostAction>, StudentIntroError>)
    ensures
        update_intro_done(
            program_id@,
            old(accounts)@,
            final(accounts)@,
            str_bytes(name),
            str_bytes(message),
            r,
        ),
{
    if accounts.len() < 2 {
        return Err(StudentIntroError::NotEnoughAccountKeys);
    }
    let initializer = accounts[0].key;
    if !accounts[0].is_signer {
        return Err(StudentIntroError::MissingSignature);
    }
    let intro_key = accounts[1].key;
    check_derived(&profile_seed_list(&initializer), program_id, &intro_key)?;
    if byte_len(&name) > PROFILE_CAPACITY || byte_len(&message) > PROFILE_CAPACITY {
        return Err(StudentIntroError::InvalidDataLength);
    }
    let size = StudentIntroState::get_account_size(name, message.clone());
    if size > PROFILE_CAPACITY {
        return Err(StudentIntroError::InvalidDataLength);
    }
    let mut record = StudentIntroState::deserialize(accounts[1].data.as_slice())?;
    if !record.is_initialized() {
        return Err(StudentIntroError::UninitializedAccount);
    }
    record.message = message;
    let bytes = record.serialize();
    let new_data = overwrite(&accounts[1].data, &bytes)?;
    write_slot(accounts, 1, new_data);
    proof {
        assert(slots_written(old(accounts)@, accounts@, map![1int => new_data@]));
    }
    Ok(Vec::new())
}

/// The outcome of adding a reply: the new data of the reply and counter
/// accounts and the bump seeds of the reply and the mint authority.
pub open spec fn add_reply_outcome(
    program: Seq<u8>,
    token_program: Seq<u8>,
    accounts: Seq<AccountSlot>,
    name: Seq<u8>,
    reply: Seq<u8>,
) -> Result<(Seq<u8>, Seq<u8>, u8, u8), StudentIntroError> {
    if accounts.len() < 9 {
        Err(StudentIntroError::NotEnoughAccountKeys)
    } else if !accounts[0].is_signer {
        Err(StudentIntroError::MissingSignature)
    } else {
        match read_counter(accounts[2].data@) {
            None => Err(StudentIntroError::InvalidAccountData),
            Some((tag, init, count)) => match derived_check(
                reply_seeds(accounts[1].key@, count),
                program,
                accounts[3].key@,
            ) {
                Err(e) => Err(e),
                Ok(rb) => if name.len() > u32::MAX || reply.len() > u32::MAX || reply_size(
                    name,
                    reply,
                ) > usize::MAX {
                    Err(StudentIntroError::InvalidDataLength)
                } else {
                    match reply_record_outcome(
                        accounts[3].data@,
                        name,
                        reply,
                        accounts[0].key@,
                        accounts[1].key@,
                    ) {
                        Err(e) => Err(e),
                        Ok(d3) => if count == u64::MAX {
                            Err(StudentIntroError::CounterOverflow)
                        } else {
                            match overwritten(
                                accounts[2].data@,
                                counter_encoding(tag, init, (count + 1) as u64),
                            ) {
                                Err(e) => Err(e),
                                Ok(d2) => match reward_check(
                                    program,
                                    token_program,
                                    accounts[0].key@,
                                    accounts[4].key@,
                                    accounts[5].key@,
                                    accounts[6].key@,
                                    accounts[8].key@,
                                ) {
                                    Err(e) => Err(e),
                                    Ok(ab) => Ok((d3, d2, rb, ab)),
                                },
                            }
                        },
                    }
                },
            },
        }
    }
}

/// What adding a reply leaves: `r` is its result, `new` the accounts after it.
pub open spec fn add_reply_done(
    program: Seq<u8>,
    token_program: Seq<u8>,
    old: Seq<AccountSlot>,
    new: Seq<AccountSlot>,
    name: Seq<u8>,
    reply: Seq<u8>,
    r: Result<Vec<HostAction>, StudentIntroError>,
) -> bool {
    match add_reply_outcome(program, token_program, old, name, reply) {
        Err(e) => r == Err::<Vec<HostAction>, _>(e) && new == old,
        Ok((d3, d2, rb, ab)) => r.is_ok() && slots_written(old, new, map![3int => d3, 2int => d2])
            && r.unwrap()@.len() == 2 && is_create_account(
            r.unwrap()@[0],
            old[0].key@,
            old[3].key@,
            reply_size(name, reply),
            program,
            signer_seeds(reply_seeds(old[1].key@, read_counter(old[2].data@).unwrap().2), rb),
        ) && is_mint_to(
            r.unwrap()@[1],
            old[4].key@,
            old[6].key@,
            old[5].key@,
            REPLY_REWARD,
            signer_seeds(auth_seeds(), ab),
        ),
    }
}

/// Adds a reply by the signer at `accounts[0]` to the profile at `accounts[1]`.
///
/// Accounts: signer, profile, counter, reply, mint, mint authority, reward
/// account, system program, token program. The counter is taken as the
/// profile's initialized counter. The reply address must be the one derived
/// from the profile and the counter's value; the reply record must not be
/// initialized yet. On success the reply is stored, the counter advances by
/// one, and the actions allocate the reply account and mint the reply reward.
pub fn add_reply_to_intro(
    program_id: &Address,
    token_program: &Address,
    accounts: &mut Vec<AccountSlot>,
    name: String,
    reply: String,
) -> (r: Result<Vec<HostAction>, StudentIntroError>)
    ensures
        add_reply_done(
            program_id@,
            token_program@,
            old(accounts)@,
            final(accounts)@,
            str_bytes(name),
            str_bytes(reply),
            r,
        ),
{
    if accounts.len() < 9 {
        return Err(StudentIntroError::NotEnoughAccountKeys);
    }
    let initializer = accounts[0].key;
    if !accounts[0].is_signer {
        return Err(StudentIntroError::MissingSignature);
    }
    let intro_key = accounts[1].key;
    let mut counter = ReplyCounterState::deserialize(accounts[2].data.as_slice())?;
    let reply_key = accounts[3].key;
    let reply_bump = check_derived(
        &reply_seed_list(&intro_key, counter.counter),
        program_id,
        &reply_key,
    )?;
    let name_len = byte_len(&name);
    let reply_len = byte_len(&reply);
    if name_len > u32::MAX as usize || reply_len > u32::MAX as usize {
        return Err(StudentIntroError::InvalidDataLength);
    }
    let size = match name_len.checked_add(reply_len) {
        None => return Err(StudentIntroError::InvalidDataLength),
        Some(n) => match n.checked_add(82) {
            None => return Err(StudentIntroError::InvalidDataLength),
            Some(m) => m,
        },
    };
    let reply_data = create_reply_record(
        &accounts[3].data,
        &name,
        &reply,
        &initializer,
        &intro_key,
    )?;
    if counter.counter == u64::MAX {
        return Err(StudentIntroError::CounterOverflow);
    }
    counter.counter = counter.counter + 1;
    let counter_bytes = counter.serialize();
    let counter_data = overwrite(&accounts[2].data, &counter_bytes)?;
    let mint_key = accounts[4].key;
    let auth_key = accounts[5].key;
    let reward_key = accounts[6].key;
    let token_key = accounts[8].key;
    let auth_bump = check_reward_accounts(
        program_id,
        token_program,
        &initializer,
        &mint_key,
        &auth_key,
        &reward_key,
        &token_key,
    )?;
    let index = counter.counter - 1;
    write_slot(accounts, 3, reply_data);
    write_slot(accounts, 2, counter_data);
    let mut actions: Vec<HostAction> = Vec::new();
    actions.push(
        HostAction::CreateAccount {
            payer: initializer,
            address: reply_key,
            space: size as u64,
            owner: *program_id,
            signer_seeds: with_bump(reply_seed_list(&intro_key, index), reply_bump),
        },
    );
    actions.push(
        HostAction::MintTo {
            mint: mint_key,
            destination: reward_key,
            authority: auth_key,
            amount: REPLY_REWARD,
            signer_seeds: with_bump(auth_seed_list(), auth_bump),
        },
    );
    proof {
        assert(slots_written(
            old(accounts)@,
            accounts@,
            map![3int => reply_data@, 2int => counter_data@],
        ));
    }
    Ok(actions)
}

/// The outcome of creating the reward mint: the bump seed of the mint.
pub open spec fn init_mint_outcome(
    program: Seq<u8>,
    token_program: Seq<u8>,
    accounts: Seq<AccountSlot>,
) -> Result<u8, StudentIntroError> {
    if accounts.len() < 6 {
        Err(StudentIntroError::NotEnoughAccountKeys)
    } else {
        match derived_check(mint_seeds(), program, accounts[1].key@) {
            Err(e) => Err(e),
            Ok(mb) => match derived_check(auth_seeds(), program, accounts[2].key@) {
                Err(e) => Err(e),
                Ok(_) => if accounts[4].key@ != token_program {
                    Err(StudentIntroError::InvalidPDA)
                } else {
                    Ok(mb)
                },
            },
        }
    }
}

/// What creating the reward mint gives.
pub open spec fn init_mint_done(
    program: Seq<u8>,
    token_program: Seq<u8>,
    accounts: Seq<AccountSlot>,
    r: Result<Vec<HostAction>, StudentIntroError>,
) -> bool {
    match init_mint_outcome(program, token_program, accounts) {
        Err(e) => r == Err::<Vec<HostAction>, _>(e),
        Ok(mb) => r.is_ok() && r.unwrap()@.len() == 2 && is_create_account(
            r.unwrap()@[0],
            accounts[0].key@,
            accounts[1].key@,
            MINT_SPACE as int,
            token_program,
            signer_seeds(mint_seeds(), mb),
        ) && is_initialize_mint(
            r.unwrap()@[1],
            accounts[1].key@,
            accounts[2].key@,
            MINT_DECIMALS,
            signer_seeds(mint_seeds(), mb),
        ),
    }
}

/// Creates the reward mint at its derived address, under the derived mint authority.
///
/// Accounts: payer, mint, mint authority, system program, token program, rent
/// sysvar. No account data changes here: the actions allocate the mint
/// account for the token program and initialize it with nine decimals.
pub fn initialize_token_mint(
    program_id: &Address,
    token_program: &Address,
    accounts: &Vec<AccountSlot>,
) -> (r: Result<Vec<HostAction>, StudentIntroError>)
    ensures
        init_mint_done(program_id@, token_program@, accounts@, r),
{
    if accounts.len() < 6 {
        return Err(StudentIntroError::NotEnoughAccountKeys);
    }
    let payer = accounts[0].key;
    let mint_key = accounts[1].key;
    let auth_key = accounts[2].key;
    let mint_bump = check_derived(&mint_seed_list(), program_id, &mint_key)?;
    check_derived(&auth_seed_list(), program_id, &auth_key)?;
    if !same_address(&accounts[4].key, token_program) {
        return Err(StudentIntroError::InvalidPDA);
    }
    let mut actions: Vec<HostAction> = Vec::new();
    actions.push(
        HostAction::CreateAccount {
            payer,
            address: mint_key,
            space: MINT_SPACE,
            owner: *token_program,
            signer_seeds: with_bump(mint_seed_list(), mint_bump),
        },
    );
    actions.push(
        HostAction::InitializeMint {
            mint: mint_key,
            authority: auth_key,
            decimals: MINT_DECIMALS,
            signer_seeds: with_bump(mint_seed_list(), mint_bump),
        },
    );
    Ok(actions)
}

} // verus!

verus! {

/// What running the payload `input` leaves, for the given token program.
pub open spec fn process_done(
    program: Seq<u8>,
    token_program: Seq<u8>,
    old: Seq<AccountSlot>,
    new: Seq<AccountSlot>,
    input: Seq<u8>,
    r: Result<Vec<HostAction>, StudentIntroError>,
) -> bool {
    if input.len() == 0 || input[0] > 3 {
        r == Err::<Vec<HostAction>, _>(StudentIntroError::InvalidInstructionData) && new == old
    } else if input[0] == 3 {
        init_mint_done(program, token_program, old, r) && new == old
    } else {
        match read_string_pair(input.subrange(1, input.len() as int)) {
            None => r == Err::<Vec<HostAction>, _>(StudentIntroError::InvalidInstructionData)
                && new == old,
            Some((a, b)) => if input[0] == 0 {
                add_intro_done(program, token_program, old, new, a, b, r)
            } else if input[0] == 1 {
                update_intro_done(program, old, new, a, b, r)
            } else {
                add_reply_done(program, token_program, old, new, a, b, r)
            },
        }
    }
}

/// Decodes `instruction_data` and runs the command, with `token_program` as
/// the identity of the token program.
pub fn process_with_token_program(
    program_id: &Address,
    token_program: &Address,
    accounts: &mut Vec<AccountSlot>,
    instruction_data: &[u8],
) -> (r: Result<Vec<HostAction>, StudentIntroError>)
    ensures
        process_done(
            program_id@,
            token_program@,
            old(accounts)@,
            final(accounts)@,
            instruction_data@,
            r,
        ),
{
    let instruction = IntroInstruction::unpack(instruction_data)?;
    match instruction {
        IntroInstruction::AddStudentIntro { name, message } => add_student_intro(
            program_id,
            token_program,
            accounts,
            name,
            message,
        ),
        IntroInstruction::UpdateStudentIntro { name, message } => update_student_intro(
            program_id,
            accounts,
            name,
            message,
        ),
        IntroInstruction::AddReplyToIntro { name, reply } => add_reply_to_intro(
            program_id,
            token_program,
            accounts,
            name,
            reply,
        ),
        IntroInstruction::InitializeMint => initialize_token_mint(
            program_id,
            token_program,
            accounts,
        ),
    }
}

/// Decodes `instruction_data` and runs the command against the token program.
/// A payload without a known tag fails with `InvalidInstructionData`, and no
/// failure changes any account.
pub fn process_intruction(
    program_id: &Address,
    accounts: &mut Vec<AccountSlot>,
    instruction_data: &[u8],
) -> (r: Result<Vec<HostAction>, StudentIntroError>)
    ensures
        instruction_data@.len() == 0 || instruction_data@[0] > 3 ==> r == Err::<
            Vec<HostAction>,
            _,
        >(StudentIntroError::InvalidInstructionData),
        r.is_err() ==> final(accounts)@ == old(accounts)@,
        process_done(
            program_id@,
            token_program_bytes(),
            old(accounts)@,
            final(accounts)@,
            instruction_data@,
            r,
        ),
{
    let token_program = token_program_id();
    process_with_token_program(program_id, &token_program, accounts, instruction_data)
}

} // verus!
