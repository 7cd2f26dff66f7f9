use solana_program::pubkey::Pubkey;
use student_intro::address::{profile_address, reply_address, reward_account, Address};
use student_intro::error::StudentIntroError;
use student_intro::instruction::IntroInstruction;
use student_intro::processor::{
    add_reply_to_intro, add_student_intro, initialize_token_mint, process_intruction,
    process_with_token_program, update_student_intro, AccountSlot, HostAction, PROFILE_REWARD,
    REPLY_REWARD, TOKEN_UNIT,
};
use student_intro::state::{ReplyCounterState, ReplyState, StudentIntroState};

const PROGRAM: Address = [7u8; 32];

fn pda(seeds: &[&[u8]]) -> Address {
    Pubkey::find_program_address(seeds, &Pubkey::new_from_array(PROGRAM))
        .0
        .to_bytes()
}

fn token_program() -> Address {
    spl_token::id().to_bytes()
}

fn slot(key: Address, is_signer: bool) -> AccountSlot {
    AccountSlot { key, is_signer, data: Vec::new() }
}

fn mint_key() -> Address {
    pda(&[b"token_mint"])
}

fn auth_key() -> Address {
    pda(&[b"token_auth"])
}

fn ata(owner: &Address) -> Address {
    spl_associated_token_account::get_associated_token_address(
        &Pubkey::new_from_array(*owner),
        &Pubkey::new_from_array(mint_key()),
    )
    .to_bytes()
}

fn intro_accounts(owner: Address) -> Vec<AccountSlot> {
    let intro = pda(&[&owner]);
    let counter = pda(&[&intro, b"counter"]);
    vec![
        slot(owner, true),
        slot(intro, false),
        slot(counter, false),
        slot(mint_key(), false),
        slot(auth_key(), false),
        slot(ata(&owner), false),
        slot([0u8; 32], false),
        slot(token_program(), false),
    ]
}

fn reply_accounts(replier: Address, intro: &AccountSlot, counter: &AccountSlot) -> Vec<AccountSlot> {
    let count = ReplyCounterState::deserialize(&counter.data).unwrap().counter;
    let reply = pda(&[&intro.key, &count.to_be_bytes()]);
    vec![
        slot(replier, true),
        AccountSlot { key: intro.key, is_signer: false, data: intro.data.clone() },
        AccountSlot { key: counter.key, is_signer: false, data: counter.data.clone() },
        slot(reply, false),
        slot(mint_key(), false),
        slot(auth_key(), false),
        slot(ata(&replier), false),
        slot([0u8; 32], false),
        slot(token_program(), false),
    ]
}

fn minted(actions: &[HostAction]) -> u64 {
    actions
        .iter()
        .map(|a| match a {
            HostAction::MintTo { amount, .. } => *amount,
            _ => 0,
        })
        .sum()
}

fn payload(tag: u8, a: &str, b: &str) -> Vec<u8> {
    let mut v = vec![tag];
    v.extend_from_slice(&(a.len() as u32).to_le_bytes());
    v.extend_from_slice(a.as_bytes());
    v.extend_from_slice(&(b.len() as u32).to_le_bytes());
    v.extend_from_slice(b.as_bytes());
    v
}

#[test]
fn account_size_of_alice_intro() {
    let size = StudentIntroState::get_account_size("Alice".to_string(), "Hello World".to_string());
    assert_eq!(size, 34);
}

#[test]
fn reply_account_size() {
    let size = ReplyState::get_account_size("Bob".to_string(), "Hi".to_string());
    assert_eq!(size, 4 + 5 + 1 + 32 + 32 + 4 + 3 + 4 + 2);
}

#[test]
fn distinct_owners_get_distinct_profiles() {
    let a = profile_address(&[1u8; 32], &PROGRAM).unwrap();
    let b = profile_address(&[2u8; 32], &PROGRAM).unwrap();
    assert_ne!(a.0, b.0);
    assert_eq!(a.0, pda(&[&[1u8; 32]]));
    assert_ne!(a.0, [1u8; 32]);
}

#[test]
fn reward_account_is_associated_account() {
    let owner = [3u8; 32];
    let r = reward_account(&owner, &mint_key()).unwrap();
    assert_eq!(r, ata(&owner));
    assert_ne!(r, owner);
}

#[test]
fn profile_creation_writes_both_records() {
    let owner = [1u8; 32];
    let mut accounts = intro_accounts(owner);
    let actions =
        add_student_intro(&PROGRAM, &token_program(), &mut accounts, "Alice".to_string(), "Hello World".to_string())
            .unwrap();
    assert_eq!(accounts[1].data.len(), 1000);
    let intro = StudentIntroState::deserialize(&accounts[1].data).unwrap();
    assert_eq!(intro.discriminator, "intro");
    assert!(intro.is_initialized);
    assert_eq!(intro.name, "Alice");
    assert_eq!(intro.message, "Hello World");
    let expected = borsh::to_vec(&("intro".to_string(), true, "Alice".to_string(), "Hello World".to_string())).unwrap();
    assert_eq!(&accounts[1].data[..34], &expected[..]);
    assert!(accounts[1].data[34..].iter().all(|b| *b == 0));
    let counter = ReplyCounterState::deserialize(&accounts[2].data).unwrap();
    assert_eq!(counter.discriminator, "counter");
    assert!(counter.is_initialized);
    assert_eq!(counter.counter, 0);
    assert_eq!(accounts[2].data.len(), ReplyCounterState::SIZE);
    assert_eq!(actions.len(), 3);
    match &actions[0] {
        HostAction::CreateAccount { address, space, owner: o, .. } => {
            assert_eq!(*address, accounts[1].key);
            assert_eq!(*space, 1000);
            assert_eq!(*o, PROGRAM);
        }
        _ => panic!("expected an allocation"),
    }
    assert_eq!(minted(&actions), 10 * 1_000_000_000);
}

#[test]
fn profile_capacity_bound() {
    let owner = [4u8; 32];
    let name = "n".repeat(491);
    let message = "m".repeat(491);
    assert_eq!(StudentIntroState::get_account_size(name.clone(), message.clone()), 1000);
    let mut accounts = intro_accounts(owner);
    assert!(add_student_intro(&PROGRAM, &token_program(), &mut accounts, name, message).is_ok());

    let mut accounts = intro_accounts(owner);
    let r = add_student_intro(&PROGRAM, &token_program(), &mut accounts, "n".repeat(492), "m".repeat(491));
    assert_eq!(r.err(), Some(StudentIntroError::InvalidDataLength));
    assert!(accounts[1].data.is_empty());
}

#[test]
fn profile_recreation_fails_and_keeps_bytes() {
    let owner = [5u8; 32];
    let mut accounts = intro_accounts(owner);
    add_student_intro(&PROGRAM, &token_program(), &mut accounts, "Alice".to_string(), "Hello".to_string()).unwrap();
    let before: Vec<Vec<u8>> = accounts.iter().map(|a| a.data.clone()).collect();
    let r = add_student_intro(&PROGRAM, &token_program(), &mut accounts, "Eve".to_string(), "Again".to_string());
    assert_eq!(r.err(), Some(StudentIntroError::AccountAlreadyInitialized));
    let after: Vec<Vec<u8>> = accounts.iter().map(|a| a.data.clone()).collect();
    assert_eq!(before, after);
}

#[test]
fn profile_needs_signature() {
    let mut accounts = intro_accounts([6u8; 32]);
    accounts[0].is_signer = false;
    let r = add_student_intro(&PROGRAM, &token_program(), &mut accounts, "A".to_string(), "B".to_string());
    assert_eq!(r.err(), Some(StudentIntroError::MissingSignature));
}

#[test]
fn profile_address_mismatch() {
    let mut accounts = intro_accounts([6u8; 32]);
    accounts[1].key = [9u8; 32];
    let r = add_student_intro(&PROGRAM, &token_program(), &mut accounts, "A".to_string(), "B".to_string());
    assert_eq!(r.err(), Some(StudentIntroError::InvalidPDA));
}

#[test]
fn profile_wrong_reward_account() {
    let mut accounts = intro_accounts([6u8; 32]);
    accounts[5].key = [8u8; 32];
    let r = add_student_intro(&PROGRAM, &token_program(), &mut accounts, "A".to_string(), "B".to_string());
    assert_eq!(r.err(), Some(StudentIntroError::InvalidPDA));
    assert!(accounts[1].data.is_empty());
}

#[test]
fn too_few_accounts() {
    let mut accounts = intro_accounts([6u8; 32]);
    accounts.truncate(7);
    let r = add_student_intro(&PROGRAM, &token_program(), &mut accounts, "A".to_string(), "B".to_string());
    assert_eq!(r.err(), Some(StudentIntroError::NotEnoughAccountKeys));
}

#[test]
fn update_keeps_name() {
    let owner = [10u8; 32];
    let mut accounts = intro_accounts(owner);
    add_student_intro(&PROGRAM, &token_program(), &mut accounts, "Alice".to_string(), "Hello".to_string()).unwrap();
    let mut two = vec![
        AccountSlot { key: owner, is_signer: true, data: Vec::new() },
        AccountSlot { key: accounts[1].key, is_signer: false, data: accounts[1].data.clone() },
    ];
    let actions = update_student_intro(&PROGRAM, &mut two, "Mallory".to_string(), "Bye now".to_string()).unwrap();
    assert!(actions.is_empty());
    let intro = StudentIntroState::deserialize(&two[1].data).unwrap();
    assert_eq!(intro.name, "Alice");
    assert_eq!(intro.message, "Bye now");
    assert_eq!(&two[1].data[9..19], &accounts[1].data[9..19]);
}

#[test]
fn update_needs_initialized_profile() {
    let owner = [11u8; 32];
    let intro = pda(&[&owner]);
    let mut two = vec![
        AccountSlot { key: owner, is_signer: true, data: Vec::new() },
        AccountSlot { key: intro, is_signer: false, data: vec![0u8; 1000] },
    ];
    let r = update_student_intro(&PROGRAM, &mut two, "A".to_string(), "B".to_string());
    assert_eq!(r.err(), Some(StudentIntroError::UninitializedAccount));
}

#[test]
fn update_unreadable_record() {
    let owner = [11u8; 32];
    let intro = pda(&[&owner]);
    let mut two = vec![
        AccountSlot { key: owner, is_signer: true, data: Vec::new() },
        AccountSlot { key: intro, is_signer: false, data: vec![1u8; 3] },
    ];
    let r = update_student_intro(&PROGRAM, &mut two, "A".to_string(), "B".to_string());
    assert_eq!(r.err(), Some(StudentIntroError::InvalidAccountData));
}

#[test]
fn replies_are_numbered_by_counter() {
    let owner = [12u8; 32];
    let mut accounts = intro_accounts(owner);
    add_student_intro(&PROGRAM, &token_program(), &mut accounts, "Alice".to_string(), "Hi".to_string()).unwrap();
    let mut intro = AccountSlot { key: accounts[1].key, is_signer: false, data: accounts[1].data.clone() };
    let mut counter = AccountSlot { key: accounts[2].key, is_signer: false, data: accounts[2].data.clone() };
    for i in 0..3u64 {
        let replier = [20 + i as u8; 32];
        let mut r = reply_accounts(replier, &intro, &counter);
        let expected = reply_address(&intro.key, i, &PROGRAM).unwrap().0;
        assert_eq!(r[3].key, expected);
        let actions = add_reply_to_intro(&PROGRAM, &token_program(), &mut r, "Bob".to_string(), "Nice".to_string()).unwrap();
        assert_eq!(minted(&actions), 5 * 1_000_000_000);
        let stored = ReplyState::deserialize(&r[3].data).unwrap();
        assert_eq!(stored.discriminator, "reply");
        assert!(stored.is_initialized);
        assert_eq!(stored.name, "Bob");
        assert_eq!(stored.reply, "Nice");
        assert_eq!(stored.replier, replier);
        assert_eq!(stored.student_intro, intro.key);
        assert_eq!(r[3].data.len(), ReplyState::get_account_size("Bob".to_string(), "Nice".to_string()));
        intro = AccountSlot { key: r[1].key, is_signer: false, data: r[1].data.clone() };
        counter = AccountSlot { key: r[2].key, is_signer: false, data: r[2].data.clone() };
    }
    assert_eq!(ReplyCounterState::deserialize(&counter.data).unwrap().counter, 3);
}

#[test]
fn reply_at_wrong_index_fails() {
    let owner = [13u8; 32];
    let mut accounts = intro_accounts(owner);
    add_student_intro(&PROGRAM, &token_program(), &mut accounts, "Alice".to_string(), "Hi".to_string()).unwrap();
    let mut r = reply_accounts([30u8; 32], &accounts[1], &accounts[2]);
    r[3].key = reply_address(&accounts[1].key, 1, &PROGRAM).unwrap().0;
    let res = add_reply_to_intro(&PROGRAM, &token_program(), &mut r, "Bob".to_string(), "Nice".to_string());
    assert_eq!(res.err(), Some(StudentIntroError::InvalidPDA));
}

#[test]
fn counter_overflow_is_refused() {
    let owner = [14u8; 32];
    let mut accounts = intro_accounts(owner);
    add_student_intro(&PROGRAM, &token_program(), &mut accounts, "Alice".to_string(), "Hi".to_string()).unwrap();
    let mut counter = AccountSlot { key: accounts[2].key, is_signer: false, data: accounts[2].data.clone() };
    counter.data[12..20].copy_from_slice(&u64::MAX.to_le_bytes());
    let mut r = reply_accounts([31u8; 32], &accounts[1], &counter);
    let res = add_reply_to_intro(&PROGRAM, &token_program(), &mut r, "Bob".to_string(), "Nice".to_string());
    assert_eq!(res.err(), Some(StudentIntroError::CounterOverflow));
}

#[test]
fn rewards_add_up() {
    let mut total: u64 = 0;
    for k in 0..2u8 {
        let owner = [40 + k; 32];
        let mut accounts = intro_accounts(owner);
        total += minted(&add_student_intro(&PROGRAM, &token_program(), &mut accounts, "A".to_string(), "B".to_string()).unwrap());
        if k == 0 {
            let mut intro = AccountSlot { key: accounts[1].key, is_signer: false, data: accounts[1].data.clone() };
            let mut counter = AccountSlot { key: accounts[2].key, is_signer: false, data: accounts[2].data.clone() };
            for j in 0..3u8 {
                let mut r = reply_accounts([50 + j; 32], &intro, &counter);
                total += minted(&add_reply_to_intro(&PROGRAM, &token_program(), &mut r, "C".to_string(), "D".to_string()).unwrap());
                intro = AccountSlot { key: r[1].key, is_signer: false, data: r[1].data.clone() };
                counter = AccountSlot { key: r[2].key, is_signer: false, data: r[2].data.clone() };
            }
        }
    }
    assert_eq!(total, 1_000_000_000 * (10 * 2 + 5 * 3));
    assert_eq!(PROFILE_REWARD, 10 * TOKEN_UNIT);
    assert_eq!(REPLY_REWARD, 5 * TOKEN_UNIT);
}

#[test]
fn unknown_tag_changes_nothing() {
    let mut accounts = intro_accounts([15u8; 32]);
    for tag in [4u8, 5, 200, 255] {
        let r = process_intruction(&PROGRAM, &mut accounts, &payload(tag, "A", "B"));
        assert_eq!(r.err(), Some(StudentIntroError::InvalidInstructionData));
        assert!(accounts.iter().all(|a| a.data.is_empty()));
    }
    let r = process_intruction(&PROGRAM, &mut accounts, &[]);
    assert_eq!(r.err(), Some(StudentIntroError::InvalidInstructionData));
}

#[test]
fn process_runs_profile_creation() {
    let mut accounts = intro_accounts([16u8; 32]);
    let r = process_intruction(&PROGRAM, &mut accounts, &payload(0, "Alice", "Hello World"));
    assert!(r.is_ok());
    let intro = StudentIntroState::deserialize(&accounts[1].data).unwrap();
    assert_eq!(intro.name, "Alice");
}

#[test]
fn process_with_wrong_token_program() {
    let mut accounts = intro_accounts([17u8; 32]);
    let r = process_with_token_program(&PROGRAM, &[1u8; 32], &mut accounts, &payload(0, "A", "B"));
    assert_eq!(r.err(), Some(StudentIntroError::InvalidPDA));
}

#[test]
fn unpack_decodes_each_tag() {
    match IntroInstruction::unpack(&payload(0, "Alice", "Hello")).unwrap() {
        IntroInstruction::AddStudentIntro { name, message } => {
            assert_eq!(name, "Alice");
            assert_eq!(message, "Hello");
        }
        _ => panic!("wrong command"),
    }
    assert!(matches!(
        IntroInstruction::unpack(&payload(1, "a", "b")).unwrap(),
        IntroInstruction::UpdateStudentIntro { .. }
    ));
    match IntroInstruction::unpack(&payload(2, "Bob", "Nice")).unwrap() {
        IntroInstruction::AddReplyToIntro { name, reply } => {
            assert_eq!(name, "Bob");
            assert_eq!(reply, "Nice");
        }
        _ => panic!("wrong command"),
    }
    assert!(matches!(IntroInstruction::unpack(&[3u8]).unwrap(), IntroInstruction::InitializeMint));
}

#[test]
fn unpack_refuses_bad_payloads() {
    assert_eq!(IntroInstruction::unpack(&[]).err(), Some(StudentIntroError::InvalidInstructionData));
    assert_eq!(IntroInstruction::unpack(&[4u8]).err(), Some(StudentIntroError::InvalidInstructionData));
    let mut truncated = payload(0, "Alice", "Hello");
    truncated.pop();
    assert_eq!(IntroInstruction::unpack(&truncated).err(), Some(StudentIntroError::InvalidInstructionData));
    let mut trailing = payload(0, "Alice", "Hello");
    trailing.push(0);
    assert_eq!(IntroInstruction::unpack(&trailing).err(), Some(StudentIntroError::InvalidInstructionData));
    let mut bad_utf8 = payload(0, "A", "B");
    bad_utf8[5] = 0xff;
    assert_eq!(IntroInstruction::unpack(&bad_utf8).err(), Some(StudentIntroError::InvalidInstructionData));
}

#[test]
fn mint_initialization_actions() {
    let accounts = vec![
        slot([1u8; 32], true),
        slot(mint_key(), false),
        slot(auth_key(), false),
        slot([0u8; 32], false),
        slot(token_program(), false),
        slot([2u8; 32], false),
    ];
    let actions = initialize_token_mint(&PROGRAM, &token_program(), &accounts).unwrap();
    assert_eq!(actions.len(), 2);
    match &actions[0] {
        HostAction::CreateAccount { space, owner, address, .. } => {
            assert_eq!(*space, 82);
            assert_eq!(*owner, token_program());
            assert_eq!(*address, mint_key());
        }
        _ => panic!("expected an allocation"),
    }
    match &actions[1] {
        HostAction::InitializeMint { decimals, authority, .. } => {
            assert_eq!(*decimals, 9);
            assert_eq!(*authority, auth_key());
        }
        _ => panic!("expected mint initialization"),
    }
    let mut wrong = accounts;
    wrong[2].key = [3u8; 32];
    assert_eq!(
        initialize_token_mint(&PROGRAM, &token_program(), &wrong).err(),
        Some(StudentIntroError::InvalidPDA)
    );
}

#[test]
fn error_codes_are_stable() {
    assert_eq!(StudentIntroError::InvalidPDA.code(), 0);
    assert_eq!(StudentIntroError::UninitializedAccount.code(), 1);
    assert_eq!(StudentIntroError::InvalidDataLength.code(), 2);
    assert_eq!(StudentIntroError::AccountAlreadyInitialized.code(), 3);
    assert_eq!(StudentIntroError::MissingSignature.code(), 4);
    assert_eq!(StudentIntroError::InvalidInstructionData.code(), 5);
    assert_eq!(StudentIntroError::NotEnoughAccountKeys.code(), 6);
    assert_eq!(StudentIntroError::InvalidAccountData.code(), 7);
    assert_eq!(StudentIntroError::CounterOverflow.code(), 8);
    assert_eq!(StudentIntroError::NoDerivedAddress.code(), 9);
}

#[test]
fn counter_record_layout_matches_borsh() {
    let c = ReplyCounterState::new(5);
    let expected = borsh::to_vec(&("counter".to_string(), true, 5u64)).unwrap();
    assert_eq!(c.serialize(), expected);
    assert_eq!(expected.len(), ReplyCounterState::SIZE);
}

#[test]
fn overlong_seed_has_no_derived_address() {
    let seeds = vec![vec![1u8; 33]];
    let r = student_intro::address::derive_address(&seeds, &PROGRAM);
    assert_eq!(r.err(), Some(StudentIntroError::NoDerivedAddress));
    let ok = student_intro::address::derive_address(&vec![b"token_mint".to_vec()], &PROGRAM).unwrap();
    assert_eq!(ok.0, mint_key());
}

#[test]
fn reply_record_layout_matches_borsh() {
    let r = ReplyState::new("Bob".to_string(), "Nice".to_string(), [1u8; 32], [2u8; 32]);
    let expected = borsh::to_vec(&(
        "reply".to_string(),
        true,
        "Bob".to_string(),
        "Nice".to_string(),
        [1u8; 32],
        [2u8; 32],
    ))
    .unwrap();
    assert_eq!(r.serialize(), expected);
    assert_eq!(expected.len(), ReplyState::get_account_size("Bob".to_string(), "Nice".to_string()));
}

#[test]
fn short_existing_profile_account_is_refused() {
    let mut accounts = intro_accounts([18u8; 32]);
    accounts[1].data = vec![0u8; 13];
    let r = add_student_intro(&PROGRAM, &token_program(), &mut accounts, "Alice".to_string(), "Hello World".to_string());
    assert_eq!(r.err(), Some(StudentIntroError::InvalidAccountData));
    assert_eq!(accounts[1].data, vec![0u8; 13]);
}

#[test]
fn process_uses_the_token_program() {
    let mut accounts = intro_accounts([19u8; 32]);
    accounts[7].key = [0u8; 32];
    let r = process_intruction(&PROGRAM, &mut accounts, &payload(0, "A", "B"));
    assert_eq!(r.err(), Some(StudentIntroError::InvalidPDA));
}
