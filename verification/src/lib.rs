//! State-transition core of a minimal on-chain counter program.
//!
//! The library decodes an instruction byte buffer into a typed command,
//! enforces that the account is owned by the program, and applies the
//! command to a persisted counter record, re-serializing it in place.
//! The hosting execution environment (account loading, transaction
//! dispatch, entrypoint registration) stays outside of it and hands in
//! plain byte buffers and identities.

use vstd::prelude::*;

pub mod codec;
pub mod instruction;

use crate::codec::{spec_u32_from_le, spec_u32_to_le, u32_from_le, u32_to_le};
use crate::instruction::{spec_pack, spec_unpack, HelloInstruction};

verus! {

/// The persisted state: a greeting counter, stored on the wire as a
/// fixed 4-byte little-endian unsigned 32-bit integer.
#[derive(Debug, Clone, Copy, PartialEq, Eq, Structural)]
pub struct GreetingAccount {
    /// number of greetings
    pub counter: u32,
}

/// A failure of one processing call. Every failure is terminal for the
/// call and leaves the account buffer unmodified.
#[derive(Debug, Clone, Copy, PartialEq, Eq, Structural)]
pub enum ProcessError {
    /// The instruction buffer was empty, carried an unrecognized tag, or
    /// a wrong-length payload.
    InvalidInstructionData,
    /// The account's owner identity does not match the program identity.
    IncorrectOwner,
    /// The stored bytes cannot be interpreted as a greeting record.
    MalformedRecord,
    /// The command would move the counter outside the unsigned 32-bit
    /// range: decrementing zero, or incrementing the maximum.
    ArithmeticFault,
}

/// What deserializing an account buffer yields: a record holding the
/// little-endian value of exactly 4 stored bytes, or a failure.
pub open spec fn spec_record_from_bytes(data: Seq<u8>) -> Result<GreetingAccount, ProcessError> {
    if data.len() == 4 {
        Ok(GreetingAccount { counter: spec_u32_from_le(data) })
    } else {
        Err(ProcessError::MalformedRecord)
    }
}

/// The wire form of a record: its counter as 4 little-endian bytes.
pub open spec fn spec_record_to_bytes(rec: GreetingAccount) -> Seq<u8> {
    spec_u32_to_le(rec.counter)
}

/// What applying a command to a counter yields: the new counter value,
/// or an arithmetic fault where the unsigned 32-bit range is left.
pub open spec fn spec_apply(cmd: HelloInstruction, counter: u32) -> Result<u32, ProcessError> {
    match cmd {
        HelloInstruction::Increment => {
            if counter == u32::MAX {
                Err(ProcessError::ArithmeticFault)
            } else {
                Ok((counter + 1) as u32)
            }
        },
        HelloInstruction::Decrement => {
            if counter == 0 {
                Err(ProcessError::ArithmeticFault)
            } else {
                Ok((counter - 1) as u32)
            }
        },
        HelloInstruction::SetValue(v) => Ok(v),
    }
}

/// What one processing call yields: the new account buffer contents on
/// success, or the error that aborted the call. Steps in order: decode
/// the instruction, check ownership, deserialize the record, apply the
/// command, re-serialize.
pub open spec fn spec_process(
    program_id: Seq<u8>,
    owner: Seq<u8>,
    data: Seq<u8>,
    instruction_data: Seq<u8>,
) -> Result<Seq<u8>, ProcessError> {
    match spec_unpack(instruction_data) {
        Err(_) => Err(ProcessError::InvalidInstructionData),
        Ok(cmd) => {
            if owner != program_id {
                Err(ProcessError::IncorrectOwner)
            } else {
                match spec_record_from_bytes(data) {
                    Err(e) => Err(e),
                    Ok(rec) => match spec_apply(cmd, rec.counter) {
                        Err(e) => Err(e),
                        Ok(c) => Ok(spec_record_to_bytes(GreetingAccount { counter: c })),
                    },
                }
            }
        },
    }
}

impl GreetingAccount {
    /// Deserialize a record from an account buffer: exactly 4 bytes,
    /// little-endian.
    pub fn try_from_slice(data: &[u8]) -> (r: Result<GreetingAccount, ProcessError>)
        ensures
            r == spec_record_from_bytes(data@),
    {
        if data.len() != 4 {
            return Err(ProcessError::MalformedRecord);
        }
        Ok(GreetingAccount { counter: u32_from_le(data) })
    }

    /// Serialize the record into its fixed 4-byte little-endian wire form.
    pub fn serialize(&self) -> (r: Vec<u8>)
        ensures
            r@ == spec_record_to_bytes(*self),
            r@.len() == 4,
    {
        let r: Vec<u8> = u32_to_le(self.counter);
        r
    }

    /// Apply a command to the in-memory record; on a fault the record is
    /// left as it was.
    pub fn apply(&mut self, cmd: &HelloInstruction) -> (r: Result<(), ProcessError>)
        ensures
            match spec_apply(*cmd, old(self).counter) {
                Ok(c) => r is Ok && final(self).counter == c,
                Err(e) => r == Err::<(), ProcessError>(e) && *final(self) == *old(self),
            },
    {
        match cmd {
            HelloInstruction::Increment => {
                if self.counter == u32::MAX {
                    return Err(ProcessError::ArithmeticFault);
                }
                self.counter = self.counter + 1;
            },
            HelloInstruction::Decrement => {
                if self.counter == 0 {
                    return Err(ProcessError::ArithmeticFault);
                }
                self.counter = self.counter - 1;
            },
            HelloInstruction::SetValue(v) => {
                self.counter = *v;
            },
        }
        Ok(())
    }
}

/// Byte-for-byte equality of two identities.
fn bytes_eq(a: &[u8], b: &[u8]) -> (r: bool)
    ensures
        r == (a@ == b@),
{
    if a.len() != b.len() {
        return false;
    }
    let mut i: usize = 0;
    while i < a.len()
        invariant
            a@.len() == b@.len(),
            i <= a@.len(),
            forall|j: int| 0 <= j < i ==> a@[j] == b@[j],
        decreases a@.len() - i,
    {
        if a[i] != b[i] {
            return false;
        }
        i = i + 1;
    }
    proof {
        assert(a@ =~= b@);
    }
    true
}

/// Process one instruction against one account: decode the raw
/// instruction, require that the account's owner identity equals the
/// program identity, deserialize the stored record, apply the command,
/// and write the record back in place. On any failure the account
/// buffer is left exactly as it was.
pub fn process_instruction(
    program_id: &[u8],
    account_owner: &[u8],
    account_data: &mut Vec<u8>,
    instruction_data: &[u8],
) -> (r: Result<(), ProcessError>)
    ensures
        match spec_process(program_id@, account_owner@, old(account_data)@, instruction_data@) {
            Ok(d) => r is Ok && final(account_data)@ == d,
            Err(e) => r == Err::<(), ProcessError>(e) && final(account_data)@ == old(
                account_data,
            )@,
        },
{
    let cmd = match HelloInstruction::unpack(instruction_data) {
        Ok(cmd) => cmd,
        Err(_) => {
            return Err(ProcessError::InvalidInstructionData);
        },
    };
    if !bytes_eq(account_owner, program_id) {
        return Err(ProcessError::IncorrectOwner);
    }
    let mut greeting_account = match GreetingAccount::try_from_slice(account_data.as_slice()) {
        Ok(rec) => rec,
        Err(e) => {
            return Err(e);
        },
    };
    match greeting_account.apply(&cmd) {
        Ok(()) => {},
        Err(e) => {
            return Err(e);
        },
    }
    let bytes = greeting_account.serialize();
    *account_data = bytes;
    Ok(())
}

/// Ownership gate: whenever the account's owner identity differs from the
/// program identity, processing fails — so the account buffer is never
/// mutated — and, for every decodable instruction, the failure is
/// `IncorrectOwner`.
pub proof fn lemma_owner_gate(
    program_id: Seq<u8>,
    owner: Seq<u8>,
    data: Seq<u8>,
    instruction_data: Seq<u8>,
)
    requires
        owner != program_id,
    ensures
        spec_process(program_id, owner, data, instruction_data) is Err,
        spec_unpack(instruction_data) is Ok ==> spec_process(
            program_id,
            owner,
            data,
            instruction_data,
        ) == Err::<Seq<u8>, ProcessError>(ProcessError::IncorrectOwner),
{
}

/// The account buffer as one processing call leaves it: the new contents
/// on success, the old contents on any failure.
pub open spec fn spec_buffer_after(
    program_id: Seq<u8>,
    owner: Seq<u8>,
    data: Seq<u8>,
    instruction_data: Seq<u8>,
) -> Seq<u8> {
    match spec_process(program_id, owner, data, instruction_data) {
        Ok(d) => d,
        Err(_) => data,
    }
}

/// Idempotence of `SetValue`: applying `SetValue(v)` twice in a row leaves
/// the account buffer in the same final state as applying it once, for
/// every identity pair and every starting buffer.
pub proof fn lemma_set_value_idempotent(
    program_id: Seq<u8>,
    owner: Seq<u8>,
    data: Seq<u8>,
    v: u32,
)
    ensures
        ({
            let instruction_data = spec_pack(HelloInstruction::SetValue(v));
            let once = spec_buffer_after(program_id, owner, data, instruction_data);
            spec_buffer_after(program_id, owner, once, instruction_data) == once
        }),
{
    crate::instruction::lemma_unpack_pack(HelloInstruction::SetValue(v));
}

} // verus!
