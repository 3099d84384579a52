use crate::error::VaultError;
use vstd::prelude::*;

verus! {

/// An operation requested of the vault program.
#[derive(Clone, Copy, Debug, PartialEq, Eq, Structural)]
pub enum VaultInstruction {
    Initialize {},
    Deposit { amount: u64 },
    Withdraw {},
}

/// The unsigned integer whose little-endian encoding is the first eight bytes
/// of `s`.
pub open spec fn le_u64(s: Seq<u8>) -> u64 {
    (s[0] as u64) | ((s[1] as u64) << 8u64) | ((s[2] as u64) << 16u64) | ((s[3] as u64) << 24u64)
        | ((s[4] as u64) << 32u64) | ((s[5] as u64) << 40u64) | ((s[6] as u64) << 48u64)
        | ((s[7] as u64) << 56u64)
}

/// The instruction that `input` encodes: a tag byte, then for a deposit
/// exactly eight bytes of amount. Initialize and Withdraw ignore any bytes
/// after the tag.
pub open spec fn unpack_spec(input: Seq<u8>) -> Result<VaultInstruction, VaultError> {
    if input.len() == 0 {
        Err(VaultError::InvalidInstructionData)
    } else if input[0] == 0 {
        Ok(VaultInstruction::Initialize {})
    } else if input[0] == 1 {
        if input.len() == 9 {
            Ok(VaultInstruction::Deposit { amount: le_u64(input.drop_first()) })
        } else {
            Err(VaultError::InvalidInstructionData)
        }
    } else if input[0] == 2 {
        Ok(VaultInstruction::Withdraw {})
    } else {
        Err(VaultError::InvalidInstructionData)
    }
}

impl VaultInstruction {
    /// Decodes an instruction from its bytes.
    pub fn unpack(input: &[u8]) -> (r: Result<VaultInstruction, VaultError>)
        ensures
            r == unpack_spec(input@),
    {
        if input.len() == 0 {
            return Err(VaultError::InvalidInstructionData);
        }
        let variant = input[0];
        if variant == 0 {
            Ok(VaultInstruction::Initialize {})
        } else if variant == 1 {
            if input.len() != 9 {
                return Err(VaultError::InvalidInstructionData);
            }
            let amount: u64 = (input[1] as u64) | ((input[2] as u64) << 8u64) | ((input[3] as u64)
                << 16u64) | ((input[4] as u64) << 24u64) | ((input[5] as u64) << 32u64) | ((
            input[6] as u64) << 40u64) | ((input[7] as u64) << 48u64) | ((input[8] as u64)
                << 56u64);
            assert(input@.drop_first()[0] == input@[1]);
            Ok(VaultInstruction::Deposit { amount })
        } else if variant == 2 {
            Ok(VaultInstruction::Withdraw {})
        } else {
            Err(VaultError::InvalidInstructionData)
        }
    }
}

} // verus!
