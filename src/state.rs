use crate::address::Address;
use vstd::prelude::*;

verus! {

/// Discriminator written into every vault record.
pub open spec fn vault_discriminator() -> Seq<char> {
    seq!['v', 'a', 'u', 'l', 't']
}

/// Discriminator written into every transfer ledger record.
pub open spec fn transfers_discriminator() -> Seq<char> {
    seq!['t', 'r', 'a', 'n', 's', 'f', 'e', 'r', 's']
}

/// Encoded length of a vault record: a length-prefixed discriminator, two
/// totals, the flag and the owner.
pub const VAULT_LEN: usize = 4 + 5 + 2 * 8 + 1 + 32;

/// Encoded length of a transfer ledger record: as a vault, with a second
/// address for the vault it belongs to.
pub const USER_TRANSFERS_LEN: usize = 4 + 9 + 2 * 8 + 1 + 2 * 32;

/// A depositor's vault: lifetime totals of what went in and out.
#[derive(Debug)]
pub struct Vault {
    pub discriminator: String,
    pub deposited_amount: u64,
    pub withdrawn_amount: u64,
    pub initialized: bool,
    pub owner: Address,
}

/// What a vault record holds, as mathematical values.
pub struct VaultModel {
    pub discriminator: Seq<char>,
    pub deposited_amount: u64,
    pub withdrawn_amount: u64,
    pub initialized: bool,
    pub owner: Seq<u8>,
}

impl View for Vault {
    type V = VaultModel;

    open spec fn view(&self) -> VaultModel {
        VaultModel {
            discriminator: self.discriminator@,
            deposited_amount: self.deposited_amount,
            withdrawn_amount: self.withdrawn_amount,
            initialized: self.initialized,
            owner: self.owner@,
        }
    }
}

impl Vault {
    /// Whether Initialize has written this record.
    pub fn is_initialized(&self) -> (r: bool)
        ensures
            r == self.initialized,
    {
        self.initialized
    }

    /// A copy of the record, field for field.
    pub fn clone_record(&self) -> (r: Vault)
        ensures
            r@ == self@,
    {
        Vault {
            discriminator: self.discriminator.clone(),
            deposited_amount: self.deposited_amount,
            withdrawn_amount: self.withdrawn_amount,
            initialized: self.initialized,
            owner: self.owner,
        }
    }
}

/// A depositor's transfer ledger: the same totals as the vault, kept in a
/// record of its own that points back at the vault.
#[derive(Debug)]
pub struct UserTransfers {
    pub discriminator: String,
    pub deposited_amount: u64,
    pub withdrawn_amount: u64,
    pub initialized: bool,
    pub owner: Address,
    pub vault: Address,
}

/// What a transfer ledger record holds, as mathematical values.
pub struct UserTransfersModel {
    pub discriminator: Seq<char>,
    pub deposited_amount: u64,
    pub withdrawn_amount: u64,
    pub initialized: bool,
    pub owner: Seq<u8>,
    pub vault: Seq<u8>,
}

impl View for UserTransfers {
    type V = UserTransfersModel;

    open spec fn view(&self) -> UserTransfersModel {
        UserTransfersModel {
            discriminator: self.discriminator@,
            deposited_amount: self.deposited_amount,
            withdrawn_amount: self.withdrawn_amount,
            initialized: self.initialized,
            owner: self.owner@,
            vault: self.vault@,
        }
    }
}

impl UserTransfers {
    /// Whether a first deposit has written this record.
    pub fn is_initialized(&self) -> (r: bool)
        ensures
            r == self.initialized,
    {
        self.initialized
    }

    /// A copy of the record, field for field.
    pub fn clone_record(&self) -> (r: UserTransfers)
        ensures
            r@ == self@,
    {
        UserTransfers {
            discriminator: self.discriminator.clone(),
            deposited_amount: self.deposited_amount,
            withdrawn_amount: self.withdrawn_amount,
            initialized: self.initialized,
            owner: self.owner,
            vault: self.vault,
        }
    }
}

/// The view of a record slot that may not exist.
pub open spec fn vault_slot(v: Option<Vault>) -> Option<VaultModel> {
    match v {
        Some(r) => Some(r@),
        None => None,
    }
}

/// The view of a ledger slot that may not exist.
pub open spec fn transfers_slot(t: Option<UserTransfers>) -> Option<UserTransfersModel> {
    match t {
        Some(r) => Some(r@),
        None => None,
    }
}

/// The vault discriminator as a `String`.
pub fn vault_discriminator_string() -> (r: String)
    ensures
        r@ == vault_discriminator(),
{
    let r = "vault".to_string();
    proof {
        reveal_strlit("vault");
        assert(r@ =~= vault_discriminator());
    }
    r
}

/// The ledger discriminator as a `String`.
pub fn transfers_discriminator_string() -> (r: String)
    ensures
        r@ == transfers_discriminator(),
{
    let r = "transfers".to_string();
    proof {
        reveal_strlit("transfers");
        assert(r@ =~= transfers_discriminator());
    }
    r
}

} // verus!
