//! Decoding of the instruction wire format into typed commands.
//!
//! The wire format is one tag byte followed, for `SetValue` only, by a 4-byte
//! little-endian unsigned 32-bit payload. Any other shape is a decode
//! failure, never a default.

use crate::codec::{lemma_u32_le_round_trip, spec_u32_from_le, spec_u32_to_le, u32_from_le,
    u32_to_le};
use vstd::prelude::*;
use vstd::slice::slice_subrange;

verus! {

/// A typed command decoded from an instruction byte buffer.
#[derive(Debug, Clone, Copy, PartialEq, Eq, Structural)]
pub enum HelloInstruction {
    /// Add one to the stored counter.
    Increment,
    /// Subtract one from the stored counter.
    Decrement,
    /// Store the given value in the counter.
    SetValue(u32),
}

/// Failure to decode an instruction buffer: empty input, an unrecognized
/// tag, or a wrong-length payload for `SetValue`.
#[derive(Debug, Clone, Copy, PartialEq, Eq, Structural)]
pub enum DecodeError {
    InvalidInstructionData,
}

/// What decoding an instruction buffer yields: the first byte is the tag
/// (`0` = `Increment`, `1` = `Decrement`, `2` = `SetValue`); for `SetValue` the rest
/// must be exactly the 4-byte little-endian payload, for the other tags the
/// rest is ignored.
pub open spec fn spec_unpack(input: Seq<u8>) -> Result<HelloInstruction, DecodeError> {
    if input.len() == 0 {
        Err(DecodeError::InvalidInstructionData)
    } else if input[0] == 0 {
        Ok(HelloInstruction::Increment)
    } else if input[0] == 1 {
        Ok(HelloInstruction::Decrement)
    } else if input[0] == 2 {
        if input.len() == 5 {
            Ok(HelloInstruction::SetValue(spec_u32_from_le(input.subrange(1, 5))))
        } else {
            Err(DecodeError::InvalidInstructionData)
        }
    } else {
        Err(DecodeError::InvalidInstructionData)
    }
}

/// The canonical encoding of a command: its tag byte, followed for `SetValue`
/// by the 4-byte little-endian payload.
pub open spec fn spec_pack(cmd: HelloInstruction) -> Seq<u8> {
    match cmd {
        HelloInstruction::Increment => seq![0u8],
        HelloInstruction::Decrement => seq![1u8],
        HelloInstruction::SetValue(v) => seq![2u8] + spec_u32_to_le(v),
    }
}

impl HelloInstruction {
    /// Decode an instruction byte buffer into a typed command.
    pub fn unpack(input: &[u8]) -> (r: Result<HelloInstruction, DecodeError>)
        ensures
            r == spec_unpack(input@),
    {
        if input.len() == 0 {
            return Err(DecodeError::InvalidInstructionData);
        }
        let tag: u8 = input[0];
        match tag {
            0 => Ok(HelloInstruction::Increment),
            1 => Ok(HelloInstruction::Decrement),
            2 => {
                if input.len() != 5 {
                    return Err(DecodeError::InvalidInstructionData);
                }
                let payload: &[u8] = slice_subrange(input, 1, 5);
                Ok(HelloInstruction::SetValue(u32_from_le(payload)))
            },
            _ => Err(DecodeError::InvalidInstructionData),
        }
    }

    /// Encode a command into its canonical wire bytes.
    pub fn pack(&self) -> (r: Vec<u8>)
        ensures
            r@ == spec_pack(*self),
    {
        match self {
            HelloInstruction::Increment => {
                let r: Vec<u8> = vec![0u8];
                proof {
                    assert(r@ =~= spec_pack(*self));
                }
                r
            },
            HelloInstruction::Decrement => {
                let r: Vec<u8> = vec![1u8];
                proof {
                    assert(r@ =~= spec_pack(*self));
                }
                r
            },
            HelloInstruction::SetValue(v) => {
                let mut r: Vec<u8> = vec![2u8];
                let mut payload: Vec<u8> = u32_to_le(*v);
                r.append(&mut payload);
                proof {
                    assert(r@ =~= spec_pack(*self));
                }
                r
            },
        }
    }
}

/// Round trip: decoding the bytes produced by encoding a command yields
/// the identical command, for every command.
pub proof fn lemma_unpack_pack(cmd: HelloInstruction)
    ensures
        spec_unpack(spec_pack(cmd)) == Ok::<HelloInstruction, DecodeError>(cmd),
{
    match cmd {
        HelloInstruction::Increment => {
        },
        HelloInstruction::Decrement => {
        },
        HelloInstruction::SetValue(v) => {
            lemma_u32_le_round_trip(v);
            assert(spec_pack(cmd).subrange(1, 5) =~= spec_u32_to_le(v));
        },
    }
}

/// Decoding an empty buffer always fails.
pub proof fn lemma_unpack_empty(input: Seq<u8>)
    requires
        input.len() == 0,
    ensures
        spec_unpack(input) == Err::<HelloInstruction, DecodeError>(
            DecodeError::InvalidInstructionData,
        ),
{
}

/// Decoding tag `2` with a payload whose length is not 4 always fails.
pub proof fn lemma_unpack_set_wrong_length(input: Seq<u8>)
    requires
        input.len() >= 1,
        input[0] == 2,
        input.len() != 5,
    ensures
        spec_unpack(input) == Err::<HelloInstruction, DecodeError>(
            DecodeError::InvalidInstructionData,
        ),
{
}

} // verus!
