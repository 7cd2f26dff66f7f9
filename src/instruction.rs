//! The instruction payload: one tag byte, then the command's string fields.
use vstd::prelude::*;
use crate::codec::{read_string, take_string};
use crate::error::StudentIntroError;
use crate::state::str_bytes;

verus! {

/// The commands of the program.
pub enum IntroInstruction {
    AddStudentIntro { name: String, message: String },
    UpdateStudentIntro { name: String, message: String },
    AddReplyToIntro { name: String, reply: String },
    InitializeMint,
}

/// Reads exactly two length-prefixed strings, with nothing after them.
pub open spec fn read_string_pair(s: Seq<u8>) -> Option<(Seq<u8>, Seq<u8>)> {
    match read_string(s) {
        None => None,
        Some((a, s1)) => match read_string(s1) {
            None => None,
            Some((b, s2)) => if s2.len() == 0 {
                Some((a, b))
            } else {
                None
            },
        },
    }
}

/// Whether `r` is what the payload `input` decodes to.
pub open spec fn decodes_to(input: Seq<u8>, r: Result<IntroInstruction, StudentIntroError>) -> bool {
    if input.len() == 0 || input[0] > 3 {
        r == Err::<IntroInstruction, _>(StudentIntroError::InvalidInstructionData)
    } else if input[0] == 3 {
        r matches Ok(IntroInstruction::InitializeMint)
    } else {
        match read_string_pair(input.subrange(1, input.len() as int)) {
            None => r == Err::<IntroInstruction, _>(StudentIntroError::InvalidInstructionData),
            Some((a, b)) => match r {
                Ok(IntroInstruction::AddStudentIntro { name, message }) => input[0] == 0
                    && str_bytes(name) == a && str_bytes(message) == b,
                Ok(IntroInstruction::UpdateStudentIntro { name, message }) => input[0] == 1
                    && str_bytes(name) == a && str_bytes(message) == b,
                Ok(IntroInstruction::AddReplyToIntro { name, reply }) => input[0] == 2
                    && str_bytes(name) == a && str_bytes(reply) == b,
                _ => false,
            },
        }
    }
}

impl IntroInstruction {
    /// Decodes a payload: tag 0 adds a profile, 1 updates one, 2 adds a reply
    /// (each followed by exactly two strings), 3 creates the reward mint.
    pub fn unpack(input: &[u8]) -> (r: Result<Self, StudentIntroError>)
        ensures
            decodes_to(input@, r),
    {
        if input.len() == 0 {
            return Err(StudentIntroError::InvalidInstructionData);
        }
        let tag = input[0];
        if tag > 3 {
            return Err(StudentIntroError::InvalidInstructionData);
        }
        if tag == 3 {
            return Ok(IntroInstruction::InitializeMint);
        }
        let (first, after_first) = match take_string(input, 1) {
            None => return Err(StudentIntroError::InvalidInstructionData),
            Some(x) => x,
        };
        let (second, end) = match take_string(input, after_first) {
            None => return Err(StudentIntroError::InvalidInstructionData),
            Some(x) => x,
        };
        if end != input.len() {
            return Err(StudentIntroError::InvalidInstructionData);
        }
        if tag == 0 {
            Ok(IntroInstruction::AddStudentIntro { name: first, message: second })
        } else if tag == 1 {
            Ok(IntroInstruction::UpdateStudentIntro { name: first, message: second })
        } else {
            Ok(IntroInstruction::AddReplyToIntro { name: first, reply: second })
        }
    }
}

} // verus!
