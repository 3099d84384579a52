use vstd::prelude::*;

verus! {

/// Why an instruction was refused.
#[derive(Clone, Copy, Debug, PartialEq, Eq, Structural)]
pub enum VaultError {
    /// A record that the operation needs does not exist yet.
    UninitializedAccount,
    /// A supplied record address is not the one derived from its seeds.
    InvalidPDA,
    /// The computed withdrawal exceeds the available balance.
    InvalidWithdrawAmount,
    /// The caller did not sign the instruction.
    MissingRequiredSignature,
    /// The vault record was already initialized.
    AccountAlreadyInitialized,
    /// A checked addition or subtraction on a lifetime total failed.
    ArithmeticOverflow,
    /// The instruction bytes name no operation or carry a malformed payload.
    InvalidInstructionData,
}

impl VaultError {
    /// Whether the error reports a broken bookkeeping invariant rather than
    /// bad input from the caller.
    pub fn is_integrity_fault(&self) -> (r: bool)
        ensures
            r == (*self == VaultError::ArithmeticOverflow || *self == VaultError::InvalidWithdrawAmount),
    {
        match self {
            VaultError::ArithmeticOverflow => true,
            VaultError::InvalidWithdrawAmount => true,
            _ => false,
        }
    }
}

} // verus!
