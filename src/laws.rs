//! Properties that hold across calls: records read back as written, a profile
//! is created once, replies are numbered by the counter, updates keep the
//! name, and rewards add up over any run of calls.
use vstd::prelude::*;
use vstd::utf8::valid_utf8;
use crate::address::{program_address, reply_seeds};
use crate::codec::{
    le64_bytes, lemma_read_flag_byte, lemma_read_string_encoding, lemma_read_u64_bytes,
    flag_byte, read_flag, read_string, string_encoding,
};
use crate::processor::{
    REPLY_REWARD, PROFILE_REWARD, TOKEN_UNIT,
    process_done, add_intro_done, add_intro_outcome, add_reply_done, add_reply_outcome, total_minted, minted, HostAction, counter_record_outcome, update_intro_outcome,
    AccountSlot,
};
use crate::error::StudentIntroError;
use crate::instruction::read_string_pair;
use crate::state::{
    counter_encoding, counter_record_tag, intro_encoding, intro_size, intro_tag, read_counter,
    read_intro, PROFILE_CAPACITY,
};

verus! {

/// A profile record reads back as the fields it was written with.
pub proof fn lemma_read_intro_encoding(
    tag: Seq<u8>,
    init: bool,
    name: Seq<u8>,
    message: Seq<u8>,
    rest: Seq<u8>,
)
    requires
        valid_utf8(tag),
        valid_utf8(name),
        valid_utf8(message),
        tag.len() <= u32::MAX,
        name.len() <= u32::MAX,
        message.len() <= u32::MAX,
    ensures
        read_intro(intro_encoding(tag, init, name, message) + rest) == Some((tag, init, name, message)),
{
    let s3 = string_encoding(message) + rest;
    let s2 = string_encoding(name) + s3;
    let s1 = seq![flag_byte(init)] + s2;
    let all = intro_encoding(tag, init, name, message) + rest;
    assert(all =~= string_encoding(tag) + s1);
    lemma_read_string_encoding(tag, s1);
    lemma_read_flag_byte(init, s2);
    lemma_read_string_encoding(name, s3);
    lemma_read_string_encoding(message, rest);
    assert(read_string(all) == Some((tag, s1)));
    assert(read_flag(s1) == Some((init, s2)));
    assert(read_string(s2) == Some((name, s3)));
    assert(read_string(s3) == Some((message, rest)));
}

/// A counter record reads back as the fields it was written with.
pub proof fn lemma_read_counter_encoding(tag: Seq<u8>, init: bool, count: u64, rest: Seq<u8>)
    requires
        valid_utf8(tag),
        tag.len() <= u32::MAX,
    ensures
        read_counter(counter_encoding(tag, init, count) + rest) == Some((tag, init, count)),
{
    let s2 = le64_bytes(count) + rest;
    let s1 = seq![flag_byte(init)] + s2;
    lemma_read_string_encoding(tag, s1);
    lemma_read_flag_byte(init, s2);
    lemma_read_u64_bytes(count, rest);
    assert(counter_encoding(tag, init, count) + rest =~= string_encoding(tag) + s1);
}

/// The record tags are valid UTF-8.
pub proof fn lemma_tags_valid()
    ensures
        valid_utf8(intro_tag()),
        valid_utf8(counter_record_tag()),
{
    reveal_with_fuel(valid_utf8, 8);
}

/// Creating a profile where one was already created fails with
/// `AccountAlreadyInitialized`: `second` holds, at the same signer and profile
/// address, the profile data that a successful creation on `first` left.
pub proof fn lemma_profile_created_once(
    program: Seq<u8>,
    token_program: Seq<u8>,
    first: Seq<AccountSlot>,
    second: Seq<AccountSlot>,
    name: Seq<u8>,
    message: Seq<u8>,
    name2: Seq<u8>,
    message2: Seq<u8>,
)
    requires
        valid_utf8(name),
        valid_utf8(message),
        add_intro_outcome(program, token_program, first, name, message) is Ok,
        second.len() >= 8,
        second[0].is_signer,
        second[0].key == first[0].key,
        second[1].key == first[1].key,
        second[1].data@ == add_intro_outcome(program, token_program, first, name, message)->Ok_0.0,
        intro_size(name2, message2) <= PROFILE_CAPACITY,
    ensures
        add_intro_outcome(program, token_program, second, name2, message2) == Err::<
            (Seq<u8>, Seq<u8>, u8, u8, u8),
            _,
        >(StudentIntroError::AccountAlreadyInitialized),
{
    let d = if first[1].data@.len() == 0 {
        Seq::new(PROFILE_CAPACITY as nat, |i: int| 0u8)
    } else {
        first[1].data@
    };
    let enc = intro_encoding(intro_tag(), true, name, message);
    let d1 = second[1].data@;
    assert(d1 == enc + d.subrange(enc.len() as int, d.len() as int));
    lemma_tags_valid();
    lemma_read_intro_encoding(intro_tag(), true, name, message, d.subrange(enc.len() as int, d.len() as int));
    assert(read_intro(d1) == Some((intro_tag(), true, name, message)));
}

/// Updating a profile rewrites its message only: the stored tag, flag and
/// name read back as before.
pub proof fn lemma_update_keeps_name(
    program: Seq<u8>,
    accounts: Seq<AccountSlot>,
    name: Seq<u8>,
    message: Seq<u8>,
)
    requires
        valid_utf8(message),
        update_intro_outcome(program, accounts, name, message) is Ok,
    ensures
        ({
            let before = read_intro(accounts[1].data@)->Some_0;
            read_intro(update_intro_outcome(program, accounts, name, message)->Ok_0) == Some(
                (before.0, before.1, before.2, message),
            )
        }),
{
    let before = read_intro(accounts[1].data@)->Some_0;
    let data = accounts[1].data@;
    let enc = intro_encoding(before.0, before.1, before.2, message);
    lemma_read_intro_encoding(before.0, before.1, before.2, message, data.subrange(enc.len() as int, data.len() as int));
}

/// The counter data that a reply submission leaves: `accounts` is the
/// submission's accounts, with the profile at `profile` and the counter data
/// `before`; it succeeds and leaves `after` as the counter data.
#[verifier::opaque]
pub open spec fn reply_round(
    program: Seq<u8>,
    token_program: Seq<u8>,
    profile: Seq<u8>,
    before: Seq<u8>,
    after: Seq<u8>,
    accounts: Seq<AccountSlot>,
    name: Seq<u8>,
    reply: Seq<u8>,
) -> bool {
    accounts.len() >= 9 && accounts[1].key@ == profile && accounts[2].data@ == before
        && add_reply_outcome(program, token_program, accounts, name, reply) is Ok
        && add_reply_outcome(program, token_program, accounts, name, reply)->Ok_0.1 == after
}

/// One successful reply submission advances the counter by one, and the reply
/// stands at the address derived from the profile and the count before it.
#[verifier::rlimit(50)]
pub proof fn lemma_reply_round_step(
    program: Seq<u8>,
    token_program: Seq<u8>,
    profile: Seq<u8>,
    before: Seq<u8>,
    after: Seq<u8>,
    accounts: Seq<AccountSlot>,
    name: Seq<u8>,
    reply: Seq<u8>,
)
    requires
        reply_round(program, token_program, profile, before, after, accounts, name, reply),
    ensures
        read_counter(before) is Some,
        read_counter(after) is Some,
        read_counter(after)->Some_0.2 == read_counter(before)->Some_0.2 + 1,
        program_address(reply_seeds(profile, read_counter(before)->Some_0.2), program) is Some,
        program_address(reply_seeds(profile, read_counter(before)->Some_0.2), program)->Some_0.0
            == accounts[3].key@,
{
    reveal(reply_round);
    let (tag, init, count) = read_counter(before)->Some_0;
    let enc = counter_encoding(tag, init, (count + 1) as u64);
    lemma_read_counter_encoding(tag, init, (count + 1) as u64, before.subrange(enc.len() as int, before.len() as int));
}

/// After a counter is created and `rounds.len()` replies are submitted against
/// it, the counter reads `rounds.len()`, and the reply of round `i` stands at
/// the address derived from the profile and `i`.
pub proof fn lemma_replies_numbered(
    program: Seq<u8>,
    token_program: Seq<u8>,
    profile: Seq<u8>,
    fresh: Seq<u8>,
    counters: Seq<Seq<u8>>,
    rounds: Seq<Seq<AccountSlot>>,
    names: Seq<Seq<u8>>,
    replies: Seq<Seq<u8>>,
)
    requires
        counters.len() == rounds.len() + 1,
        names.len() == rounds.len(),
        replies.len() == rounds.len(),
        counter_record_outcome(fresh) == Ok::<Seq<u8>, StudentIntroError>(counters[0]),
        forall|i: int|
            0 <= i < rounds.len() ==> #[trigger] reply_round(
                program,
                token_program,
                profile,
                counters[i],
                counters[i + 1],
                rounds[i],
                names[i],
                replies[i],
            ),
    ensures
        read_counter(counters[rounds.len() as int]) is Some,
        read_counter(counters[rounds.len() as int])->Some_0.2 == rounds.len(),
        forall|i: int|
            0 <= i < rounds.len() ==> #[trigger] program_address(reply_seeds(profile, i as u64), program)
                is Some && program_address(reply_seeds(profile, i as u64), program)->Some_0.0
                == rounds[i][3].key@,
    decreases rounds.len(),
{
    lemma_tags_valid();
    if rounds.len() == 0 {
        let d = if fresh.len() == 0 {
            Seq::new(20, |i: int| 0u8)
        } else {
            fresh
        };
        let enc = counter_encoding(counter_record_tag(), true, 0);
        lemma_read_counter_encoding(counter_record_tag(), true, 0, d.subrange(enc.len() as int, d.len() as int));
    } else {
        let k = rounds.len() - 1;
        lemma_replies_numbered(
            program,
            token_program,
            profile,
            fresh,
            counters.drop_last(),
            rounds.drop_last(),
            names.drop_last(),
            replies.drop_last(),
        );
        assert(reply_round(
            program,
            token_program,
            profile,
            counters[k],
            counters[k + 1],
            rounds[k],
            names[k],
            replies[k],
        ));
        assert(counters.drop_last()[k] == counters[k]);
        lemma_reply_round_step(
            program,
            token_program,
            profile,
            counters[k],
            counters[k + 1],
            rounds[k],
            names[k],
            replies[k],
        );
        assert forall|i: int| 0 <= i < rounds.len() implies #[trigger] program_address(
            reply_seeds(profile, i as u64),
            program,
        ) is Some && program_address(reply_seeds(profile, i as u64), program)->Some_0.0
            == rounds[i][3].key@ by {
            if i < k {
                assert(rounds.drop_last()[i] == rounds[i]);
            }
        }
    }
}

/// A successful profile creation mints exactly the profile reward.
pub proof fn lemma_profile_reward(
    program: Seq<u8>,
    token_program: Seq<u8>,
    old: Seq<AccountSlot>,
    new: Seq<AccountSlot>,
    name: Seq<u8>,
    message: Seq<u8>,
    r: Result<Vec<HostAction>, StudentIntroError>,
)
    requires
        add_intro_done(program, token_program, old, new, name, message, r),
        r.is_ok(),
    ensures
        total_minted(r.unwrap()@) == PROFILE_REWARD,
{
    let a = r.unwrap()@;
    assert(add_intro_outcome(program, token_program, old, name, message) is Ok);
    assert(minted(a[0]) == 0 && minted(a[1]) == 0 && minted(a[2]) == PROFILE_REWARD);
    assert(a.drop_last().drop_last().drop_last() =~= Seq::<HostAction>::empty());
    assert(a.drop_last().drop_last().last() == a[0]);
    assert(a.drop_last().last() == a[1]);
    reveal_with_fuel(total_minted, 4);
}

/// A successful reply submission mints exactly the reply reward.
pub proof fn lemma_reply_reward(
    program: Seq<u8>,
    token_program: Seq<u8>,
    old: Seq<AccountSlot>,
    new: Seq<AccountSlot>,
    name: Seq<u8>,
    reply: Seq<u8>,
    r: Result<Vec<HostAction>, StudentIntroError>,
)
    requires
        add_reply_done(program, token_program, old, new, name, reply, r),
        r.is_ok(),
    ensures
        total_minted(r.unwrap()@) == REPLY_REWARD,
{
    let a = r.unwrap()@;
    assert(add_reply_outcome(program, token_program, old, name, reply) is Ok);
    assert(minted(a[0]) == 0 && minted(a[1]) == REPLY_REWARD);
    assert(a.drop_last().drop_last() =~= Seq::<HostAction>::empty());
    assert(a.drop_last().last() == a[0]);
    reveal_with_fuel(total_minted, 3);
}

/// The base units that the actions of one call's result mint; a failed call mints nothing.
pub open spec fn minted_by(r: Result<Vec<HostAction>, StudentIntroError>) -> int {
    match r {
        Ok(actions) => total_minted(actions@),
        Err(_) => 0,
    }
}

/// The reward that a call with payload `input` and result `r` earns.
pub open spec fn reward_earned(input: Seq<u8>, r: Result<Vec<HostAction>, StudentIntroError>) -> int {
    if r is Ok && input.len() > 0 && input[0] == 0 {
        PROFILE_REWARD as int
    } else if r is Ok && input.len() > 0 && input[0] == 2 {
        REPLY_REWARD as int
    } else {
        0
    }
}

/// A call of the program mints exactly the reward that its command earns:
/// ten tokens for a created profile, five for a reply, nothing otherwise.
pub proof fn lemma_call_mints_its_reward(
    program: Seq<u8>,
    token_program: Seq<u8>,
    old: Seq<AccountSlot>,
    new: Seq<AccountSlot>,
    input: Seq<u8>,
    r: Result<Vec<HostAction>, StudentIntroError>,
)
    requires
        process_done(program, token_program, old, new, input, r),
    ensures
        minted_by(r) == reward_earned(input, r),
{
    if r is Ok {
        let a = r.unwrap()@;
        if input[0] == 3 {
            assert(minted(a[0]) == 0 && minted(a[1]) == 0);
            assert(a.drop_last().drop_last() =~= Seq::<HostAction>::empty());
            assert(a.drop_last().last() == a[0]);
            reveal_with_fuel(total_minted, 3);
        } else {
            let (x, y) = read_string_pair(input.subrange(1, input.len() as int))->Some_0;
            if input[0] == 0 {
                lemma_profile_reward(program, token_program, old, new, x, y, r);
            } else if input[0] == 2 {
                lemma_reply_reward(program, token_program, old, new, x, y, r);
            } else {
                assert(a.len() == 0);
            }
        }
    }
}

/// The base units minted over a run of calls.
pub open spec fn minted_in_run(results: Seq<Result<Vec<HostAction>, StudentIntroError>>) -> int
    decreases results.len(),
{
    if results.len() == 0 {
        0
    } else {
        minted_in_run(results.drop_last()) + minted_by(results.last())
    }
}

/// The number of calls in a run that succeeded with payload tag `tag`.
pub open spec fn successes_with_tag(
    inputs: Seq<Seq<u8>>,
    results: Seq<Result<Vec<HostAction>, StudentIntroError>>,
    tag: u8,
) -> int
    decreases results.len(),
{
    if results.len() == 0 || inputs.len() == 0 {
        0
    } else {
        successes_with_tag(inputs.drop_last(), results.drop_last(), tag) + if results.last() is Ok
            && inputs.last().len() > 0 && inputs.last()[0] == tag {
            1int
        } else {
            0int
        }
    }
}

/// Over any run of calls of the program, by any owners, the total minted is one
/// token unit times ten per successful profile creation plus five per
/// successful reply; updates, mint creation and failed calls mint nothing.
pub proof fn lemma_run_mints_rewards(
    program: Seq<u8>,
    token_program: Seq<u8>,
    olds: Seq<Seq<AccountSlot>>,
    news: Seq<Seq<AccountSlot>>,
    inputs: Seq<Seq<u8>>,
    results: Seq<Result<Vec<HostAction>, StudentIntroError>>,
)
    requires
        olds.len() == results.len(),
        news.len() == results.len(),
        inputs.len() == results.len(),
        forall|i: int|
            0 <= i < results.len() ==> #[trigger] process_done(
                program,
                token_program,
                olds[i],
                news[i],
                inputs[i],
                results[i],
            ),
    ensures
        minted_in_run(results) == TOKEN_UNIT * (10 * successes_with_tag(inputs, results, 0) + 5
            * successes_with_tag(inputs, results, 2)),
    decreases results.len(),
{
    if results.len() > 0 {
        let k = results.len() - 1;
        assert forall|i: int| 0 <= i < k implies #[trigger] process_done(
            program,
            token_program,
            olds.drop_last()[i],
            news.drop_last()[i],
            inputs.drop_last()[i],
            results.drop_last()[i],
        ) by {
            assert(process_done(program, token_program, olds[i], news[i], inputs[i], results[i]));
        }
        lemma_run_mints_rewards(
            program,
            token_program,
            olds.drop_last(),
            news.drop_last(),
            inputs.drop_last(),
            results.drop_last(),
        );
        assert(process_done(program, token_program, olds[k], news[k], inputs[k], results[k]));
        lemma_call_mints_its_reward(program, token_program, olds[k], news[k], inputs[k], results[k]);
    }
}

} // verus!
