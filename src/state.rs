//! The stored records: a profile, its reply counter, and a reply. Each begins
//! with its type tag as a length-prefixed string and an initialized flag.
use vstd::prelude::*;
use vstd::utf8::encode_utf8;
use vstd::string::StringSliceAdditionalSpecFns;
use crate::address::Address;
use crate::codec::{
    flag_byte, le64_bytes, push_bytes, push_flag, push_le64, push_string, read_address,
    read_flag, read_string, read_u64, string_encoding, take_address, take_flag, take_string,
    take_u64,
};
use crate::error::StudentIntroError;

verus! {

/// The UTF-8 bytes of a string.
pub open spec fn str_bytes(s: String) -> Seq<u8> {
    encode_utf8(s@)
}

/// The bytes of the tag "intro".
pub open spec fn intro_tag() -> Seq<u8> {
    seq![105u8, 110u8, 116u8, 114u8, 111u8]
}

/// The bytes of the tag "reply".
pub open spec fn reply_tag() -> Seq<u8> {
    seq![114u8, 101u8, 112u8, 108u8, 121u8]
}

/// The bytes of the tag "counter".
pub open spec fn counter_record_tag() -> Seq<u8> {
    seq![99u8, 111u8, 117u8, 110u8, 116u8, 101u8, 114u8]
}

/// Space reserved for every profile record.
pub const PROFILE_CAPACITY: usize = 1000;

/// The stored size of a profile with the given name and message bytes.
pub open spec fn intro_size(name: Seq<u8>, message: Seq<u8>) -> int {
    (4 + 5) + 1 + (4 + name.len() as int) + (4 + message.len() as int)
}

/// The stored size of a reply with the given name and reply bytes.
pub open spec fn reply_size(name: Seq<u8>, reply: Seq<u8>) -> int {
    (4 + 5) + 1 + 32 + 32 + (4 + name.len() as int) + (4 + reply.len() as int)
}

/// A profile: who it is and what it says.
pub struct StudentIntroState {
    pub discriminator: String,
    pub is_initialized: bool,
    pub name: String,
    pub message: String,
}

/// The stored bytes of a profile record with the given fields.
pub open spec fn intro_encoding(tag: Seq<u8>, init: bool, name: Seq<u8>, message: Seq<u8>) -> Seq<
    u8,
> {
    string_encoding(tag) + seq![flag_byte(init)] + string_encoding(name) + string_encoding(message)
}

/// Reads a profile record from the front of `s`: tag, flag, name and message.
pub open spec fn read_intro(s: Seq<u8>) -> Option<(Seq<u8>, bool, Seq<u8>, Seq<u8>)> {
    match read_string(s) {
        None => None,
        Some((tag, s1)) => match read_flag(s1) {
            None => None,
            Some((init, s2)) => match read_string(s2) {
                None => None,
                Some((name, s3)) => match read_string(s3) {
                    None => None,
                    Some((message, _)) => Some((tag, init, name, message)),
                },
            },
        },
    }
}

fn intro_discriminator() -> (r: String)
    ensures
        str_bytes(r) == intro_tag(),
{
    let s = "intro";
    proof {
        reveal_strlit("intro");
        vstd::string::is_ascii_spec_bytes(s);
    }
    assert(s.spec_bytes() =~= intro_tag());
    String::from_str(s)
}

fn reply_discriminator() -> (r: String)
    ensures
        str_bytes(r) == reply_tag(),
{
    let s = "reply";
    proof {
        reveal_strlit("reply");
        vstd::string::is_ascii_spec_bytes(s);
    }
    assert(s.spec_bytes() =~= reply_tag());
    String::from_str(s)
}

fn counter_discriminator() -> (r: String)
    ensures
        str_bytes(r) == counter_record_tag(),
{
    let s = "counter";
    proof {
        reveal_strlit("counter");
        vstd::string::is_ascii_spec_bytes(s);
    }
    assert(s.spec_bytes() =~= counter_record_tag());
    String::from_str(s)
}

/// The number of UTF-8 bytes of `s`.
pub fn byte_len(s: &String) -> (r: usize)
    ensures
        r == str_bytes(*s).len(),
{
    s.as_str().as_bytes().len()
}

impl StudentIntroState {
    /// The stored bytes of this record.
    pub open spec fn encoding(&self) -> Seq<u8> {
        intro_encoding(
            str_bytes(self.discriminator),
            self.is_initialized,
            str_bytes(self.name),
            str_bytes(self.message),
        )
    }

    /// Every string of the record can carry its four-byte length prefix.
    pub open spec fn encodable(&self) -> bool {
        str_bytes(self.discriminator).len() <= u32::MAX && str_bytes(self.name).len() <= u32::MAX
            && str_bytes(self.message).len() <= u32::MAX
    }

    /// An initialized profile with the given name and message.
    pub fn new(name: String, message: String) -> (r: Self)
        ensures
            str_bytes(r.discriminator) == intro_tag(),
            r.is_initialized,
            r.name == name,
            r.message == message,
    {
        StudentIntroState { discriminator: intro_discriminator(), is_initialized: true, name, message }
    }

    /// The stored size of a profile with this name and message.
    pub fn get_account_size(name: String, message: String) -> (r: usize)
        requires
            intro_size(str_bytes(name), str_bytes(message)) <= usize::MAX,
        ensures
            r == intro_size(str_bytes(name), str_bytes(message)),
    {
        (4 + 5) + 1 + (4 + byte_len(&name)) + (4 + byte_len(&message))
    }

    pub fn is_initialized(&self) -> (r: bool)
        ensures
            r == self.is_initialized,
    {
        self.is_initialized
    }

    /// The stored bytes of this record.
    pub fn serialize(&self) -> (r: Vec<u8>)
        requires
            self.encodable(),
        ensures
            r@ == self.encoding(),
    {
        let mut out: Vec<u8> = Vec::new();
        push_string(&mut out, self.discriminator.as_str());
        push_flag(&mut out, self.is_initialized);
        push_string(&mut out, self.name.as_str());
        push_string(&mut out, self.message.as_str());
        assert(out@ =~= self.encoding());
        out
    }

    /// Reads a profile record from the front of `data`; what follows it is ignored.
    pub fn deserialize(data: &[u8]) -> (r: Result<Self, StudentIntroError>)
        ensures
            match read_intro(data@) {
                None => r == Err::<Self, _>(StudentIntroError::InvalidAccountData),
                Some((tag, init, name, message)) => r.is_ok() && str_bytes(r.unwrap().discriminator)
                    == tag && r.unwrap().is_initialized == init && str_bytes(r.unwrap().name)
                    == name && str_bytes(r.unwrap().message) == message,
            },
    {
        assert(data@.subrange(0, data@.len() as int) =~= data@);
        let (discriminator, after_tag) = match take_string(data, 0) {
            None => return Err(StudentIntroError::InvalidAccountData),
            Some(x) => x,
        };
        let (is_initialized, after_flag) = match take_flag(data, after_tag) {
            None => return Err(StudentIntroError::InvalidAccountData),
            Some(x) => x,
        };
        let (name, after_name) = match take_string(data, after_flag) {
            None => return Err(StudentIntroError::InvalidAccountData),
            Some(x) => x,
        };
        let (message, _end) = match take_string(data, after_name) {
            None => return Err(StudentIntroError::InvalidAccountData),
            Some(x) => x,
        };
        Ok(StudentIntroState { discriminator, is_initialized, name, message })
    }
}

/// The running count of replies to one profile.
pub struct ReplyCounterState {
    pub discriminator: String,
    pub is_initialized: bool,
    pub counter: u64,
}

/// The stored bytes of a counter record with the given fields.
pub open spec fn counter_encoding(tag: Seq<u8>, init: bool, counter: u64) -> Seq<u8> {
    string_encoding(tag) + seq![flag_byte(init)] + le64_bytes(counter)
}

/// Reads a counter record from the front of `s`: tag, flag and count.
pub open spec fn read_counter(s: Seq<u8>) -> Option<(Seq<u8>, bool, u64)> {
    match read_string(s) {
        None => None,
        Some((tag, s1)) => match read_flag(s1) {
            None => None,
            Some((init, s2)) => match read_u64(s2) {
                None => None,
                Some((counter, _)) => Some((tag, init, counter)),
            },
        },
    }
}

impl ReplyCounterState {
    /// The stored size of a counter record.
    pub const SIZE: usize = 20;

    /// The stored bytes of this record.
    pub open spec fn encoding(&self) -> Seq<u8> {
        counter_encoding(str_bytes(self.discriminator), self.is_initialized, self.counter)
    }

    /// An initialized counter holding `counter`.
    pub fn new(counter: u64) -> (r: Self)
        ensures
            str_bytes(r.discriminator) == counter_record_tag(),
            r.is_initialized,
            r.counter == counter,
    {
        ReplyCounterState { discriminator: counter_discriminator(), is_initialized: true, counter }
    }

    pub fn is_initialized(&self) -> (r: bool)
        ensures
            r == self.is_initialized,
    {
        self.is_initialized
    }

    /// The stored bytes of this record.
    pub fn serialize(&self) -> (r: Vec<u8>)
        requires
            str_bytes(self.discriminator).len() <= u32::MAX,
        ensures
            r@ == self.encoding(),
    {
        let mut out: Vec<u8> = Vec::new();
        push_string(&mut out, self.discriminator.as_str());
        push_flag(&mut out, self.is_initialized);
        push_le64(&mut out, self.counter);
        assert(out@ =~= self.encoding());
        out
    }

    /// Reads a counter record from the front of `data`; what follows it is ignored.
    pub fn deserialize(data: &[u8]) -> (r: Result<Self, StudentIntroError>)
        ensures
            match read_counter(data@) {
                None => r == Err::<Self, _>(StudentIntroError::InvalidAccountData),
                Some((tag, init, counter)) => r.is_ok() && str_bytes(r.unwrap().discriminator)
                    == tag && r.unwrap().is_initialized == init && r.unwrap().counter == counter,
            },
    {
        assert(data@.subrange(0, data@.len() as int) =~= data@);
        let (discriminator, after_tag) = match take_string(data, 0) {
            None => return Err(StudentIntroError::InvalidAccountData),
            Some(x) => x,
        };
        let (is_initialized, after_flag) = match take_flag(data, after_tag) {
            None => return Err(StudentIntroError::InvalidAccountData),
            Some(x) => x,
        };
        let (counter, _end) = match take_u64(data, after_flag) {
            None => return Err(StudentIntroError::InvalidAccountData),
            Some(x) => x,
        };
        Ok(ReplyCounterState { discriminator, is_initialized, counter })
    }
}

/// One reply to a profile.
pub struct ReplyState {
    pub discriminator: String,
    pub is_initialized: bool,
    pub name: String,
    pub reply: String,
    pub replier: Address,
    pub student_intro: Address,
}

/// The stored bytes of a reply record with the given fields.
pub open spec fn reply_encoding(
    tag: Seq<u8>,
    init: bool,
    name: Seq<u8>,
    reply: Seq<u8>,
    replier: Seq<u8>,
    profile: Seq<u8>,
) -> Seq<u8> {
    string_encoding(tag) + seq![flag_byte(init)] + string_encoding(name) + string_encoding(reply)
        + replier + profile
}

/// Reads a reply record from the front of `s`.
pub open spec fn read_reply(s: Seq<u8>) -> Option<
    (Seq<u8>, bool, Seq<u8>, Seq<u8>, Seq<u8>, Seq<u8>),
> {
    match read_string(s) {
        None => None,
        Some((tag, s1)) => match read_flag(s1) {
            None => None,
            Some((init, s2)) => match read_string(s2) {
                None => None,
                Some((name, s3)) => match read_string(s3) {
                    None => None,
                    Some((reply, s4)) => match read_address(s4) {
                        None => None,
                        Some((replier, s5)) => match read_address(s5) {
                            None => None,
                            Some((profile, _)) => Some((tag, init, name, reply, replier, profile)),
                        },
                    },
                },
            },
        },
    }
}

impl ReplyState {
    /// The stored bytes of this record.
    pub open spec fn encoding(&self) -> Seq<u8> {
        reply_encoding(
            str_bytes(self.discriminator),
            self.is_initialized,
            str_bytes(self.name),
            str_bytes(self.reply),
            self.replier@,
            self.student_intro@,
        )
    }

    /// Every string of the record can carry its four-byte length prefix.
    pub open spec fn encodable(&self) -> bool {
        str_bytes(self.discriminator).len() <= u32::MAX && str_bytes(self.name).len() <= u32::MAX
            && str_bytes(self.reply).len() <= u32::MAX
    }

    /// An initialized reply by `replier` to the profile at `student_intro`.
    pub fn new(name: String, reply: String, replier: Address, student_intro: Address) -> (r: Self)
        ensures
            str_bytes(r.discriminator) == reply_tag(),
            r.is_initialized,
            r.name == name,
            r.reply == reply,
            r.replier == replier,
            r.student_intro == student_intro,
    {
        ReplyState {
            discriminator: reply_discriminator(),
            is_initialized: true,
            name,
            reply,
            replier,
            student_intro,
        }
    }

    /// The stored size of a reply with this name and text.
    pub fn get_account_size(name: String, reply: String) -> (r: usize)
        requires
            reply_size(str_bytes(name), str_bytes(reply)) <= usize::MAX,
        ensures
            r == reply_size(str_bytes(name), str_bytes(reply)),
    {
        (4 + 5) + 1 + 32 + 32 + (4 + byte_len(&name)) + (4 + byte_len(&reply))
    }

    pub fn is_initialized(&self) -> (r: bool)
        ensures
            r == self.is_initialized,
    {
        self.is_initialized
    }

    /// The stored bytes of this record.
    pub fn serialize(&self) -> (r: Vec<u8>)
        requires
            self.encodable(),
        ensures
            r@ == self.encoding(),
    {
        let mut out: Vec<u8> = Vec::new();
        push_string(&mut out, self.discriminator.as_str());
        push_flag(&mut out, self.is_initialized);
        push_string(&mut out, self.name.as_str());
        push_string(&mut out, self.reply.as_str());
        push_bytes(&mut out, &self.replier);
        push_bytes(&mut out, &self.student_intro);
        assert(out@ =~= self.encoding());
        out
    }

    /// Reads a reply record from the front of `data`; what follows it is ignored.
    pub fn deserialize(data: &[u8]) -> (r: Result<Self, StudentIntroError>)
        ensures
            match read_reply(data@) {
                None => r == Err::<Self, _>(StudentIntroError::InvalidAccountData),
                Some((tag, init, name, reply, replier, profile)) => r.is_ok() && str_bytes(
                    r.unwrap().discriminator,
                ) == tag && r.unwrap().is_initialized == init && str_bytes(r.unwrap().name)
                    == name && str_bytes(r.unwrap().reply) == reply && r.unwrap().replier@
                    == replier && r.unwrap().student_intro@ == profile,
            },
    {
        assert(data@.subrange(0, data@.len() as int) =~= data@);
        let (discriminator, after_tag) = match take_string(data, 0) {
            None => return Err(StudentIntroError::InvalidAccountData),
            Some(x) => x,
        };
        let (is_initialized, after_flag) = match take_flag(data, after_tag) {
            None => return Err(StudentIntroError::InvalidAccountData),
            Some(x) => x,
        };
        let (name, after_name) = match take_string(data, after_flag) {
            None => return Err(StudentIntroError::InvalidAccountData),
            Some(x) => x,
        };
        let (reply, after_reply) = match take_string(data, after_name) {
            None => return Err(StudentIntroError::InvalidAccountData),
            Some(x) => x,
        };
        let (replier, after_replier) = match take_address(data, after_reply) {
            None => return Err(StudentIntroError::InvalidAccountData),
            Some(x) => x,
        };
        let (student_intro, _end) = match take_address(data, after_replier) {
            None => return Err(StudentIntroError::InvalidAccountData),
            Some(x) => x,
        };
        Ok(ReplyState { discriminator, is_initialized, name, reply, replier, student_intro })
    }
}

} // verus!
