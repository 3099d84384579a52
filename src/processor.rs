use crate::address::{
    derived, is_derived, transfers_seed, transfers_tag, vault_seed, vault_tag, verify_derived,
    Address,
};
use crate::error::VaultError;
use crate::state::{
    transfers_discriminator, transfers_discriminator_string, transfers_slot,
    vault_discriminator, vault_discriminator_string, vault_slot, UserTransfers,
    UserTransfersModel, Vault, VaultModel, USER_TRANSFERS_LEN, VAULT_LEN,
};
use vstd::prelude::*;

verus! {

/// A request to the platform to create a record at a derived address, paid
/// by the caller and signed for with the seeds `[tag, key, [bump]]`.
#[derive(Debug)]
pub struct CreateAccount {
    pub address: Address,
    pub space: u64,
    pub tag: Vec<u8>,
    pub key: Address,
    pub bump: u8,
}

/// What a creation request holds, as mathematical values.
pub struct CreateAccountModel {
    pub address: Seq<u8>,
    pub space: u64,
    pub tag: Seq<u8>,
    pub key: Seq<u8>,
    pub bump: u8,
}

impl View for CreateAccount {
    type V = CreateAccountModel;

    open spec fn view(&self) -> CreateAccountModel {
        CreateAccountModel {
            address: self.address@,
            space: self.space,
            tag: self.tag@,
            key: self.key@,
            bump: self.bump,
        }
    }
}

/// The view of a creation request that may be absent.
pub open spec fn create_view(c: Option<CreateAccount>) -> Option<CreateAccountModel> {
    match c {
        Some(a) => Some(a@),
        None => None,
    }
}

/// The creation request owed for the record derived from `[tag, key]` at
/// `address`, when `needed`.
pub open spec fn creation(
    needed: bool,
    tag: Seq<u8>,
    key: Seq<u8>,
    program: Seq<u8>,
    address: Seq<u8>,
    space: u64,
) -> Option<CreateAccountModel> {
    if needed {
        Some(
            CreateAccountModel {
                address,
                space,
                tag,
                key,
                bump: derived(tag, key, program)->Some_0.1,
            },
        )
    } else {
        None
    }
}

/// Whether a slot holds a record that was logically initialized.
pub open spec fn vault_ready(v: Option<VaultModel>) -> bool {
    v is Some && v->Some_0.initialized
}

/// Whether a ledger slot holds a record that was logically initialized.
pub open spec fn transfers_ready(t: Option<UserTransfersModel>) -> bool {
    t is Some && t->Some_0.initialized
}

/// A vault record as Initialize writes it.
pub open spec fn fresh_vault(owner: Seq<u8>) -> VaultModel {
    VaultModel {
        discriminator: vault_discriminator(),
        deposited_amount: 0,
        withdrawn_amount: 0,
        initialized: true,
        owner,
    }
}

/// What Initialize does: checks the signature and the vault address, refuses
/// a vault that is already initialized, and otherwise writes a fresh vault.
pub open spec fn initialize_spec(
    program: Seq<u8>,
    initializer: Seq<u8>,
    is_signer: bool,
    vault_key: Seq<u8>,
    vault: Option<VaultModel>,
) -> Result<VaultModel, VaultError> {
    if !is_signer {
        Err(VaultError::MissingRequiredSignature)
    } else if !is_derived(vault_tag(), initializer, program, vault_key) {
        Err(VaultError::InvalidPDA)
    } else if vault_ready(vault) {
        Err(VaultError::AccountAlreadyInitialized)
    } else {
        Ok(fresh_vault(initializer))
    }
}

/// What Initialize hands back: the creation request for a vault slot that
/// did not exist, and the record to persist.
pub struct Initialized {
    pub create: Option<CreateAccount>,
    pub vault: Vault,
}

/// Initializes the caller's vault record at its derived address.
pub fn initialize(
    program_id: &Address,
    initializer: &Address,
    is_signer: bool,
    vault_key: &Address,
    vault: &Option<Vault>,
) -> (r: Result<Initialized, VaultError>)
    ensures
        match r {
            Ok(o) => {
                &&& initialize_spec(program_id@, initializer@, is_signer, vault_key@, vault_slot(*vault)) == Ok::<VaultModel, VaultError>(o.vault@)
                &&& create_view(o.create) == creation(vault is None, vault_tag(), initializer@, program_id@, vault_key@, VAULT_LEN as u64)
            },
            Err(e) => initialize_spec(program_id@, initializer@, is_signer, vault_key@, vault_slot(*vault)) == Err::<VaultModel, VaultError>(e),
        },
{
    if !is_signer {
        return Err(VaultError::MissingRequiredSignature);
    }
    let tag = vault_seed();
    let bump = match verify_derived(tag.as_slice(), initializer, program_id, vault_key) {
        Some(b) => b,
        None => return Err(VaultError::InvalidPDA),
    };
    let create = match vault {
        Some(v) => {
            if v.is_initialized() {
                return Err(VaultError::AccountAlreadyInitialized);
            }
            None
        },
        None => Some(
            CreateAccount {
                address: *vault_key,
                space: VAULT_LEN as u64,
                tag,
                key: *initializer,
                bump,
            },
        ),
    };
    let record = Vault {
        discriminator: vault_discriminator_string(),
        deposited_amount: 0,
        withdrawn_amount: 0,
        initialized: true,
        owner: *initializer,
    };
    Ok(Initialized { create, vault: record })
}

/// The ledger after a deposit of `amount`: its totals grow by `amount` when
/// it was initialized, and otherwise it starts over holding `amount` alone.
pub open spec fn ledger_after_deposit(
    depositor: Seq<u8>,
    vault_key: Seq<u8>,
    transfers: Option<UserTransfersModel>,
    amount: u64,
) -> UserTransfersModel {
    if transfers_ready(transfers) {
        let t = transfers->Some_0;
        UserTransfersModel { deposited_amount: (t.deposited_amount + amount) as u64, ..t }
    } else {
        UserTransfersModel {
            discriminator: transfers_discriminator(),
            deposited_amount: amount,
            withdrawn_amount: 0,
            initialized: true,
            owner: depositor,
            vault: vault_key,
        }
    }
}

/// What Deposit does: checks the signature, the vault address, that the
/// vault is initialized and the ledger address, then adds `amount` to the
/// deposited totals of both records with checked arithmetic.
pub open spec fn deposit_spec(
    program: Seq<u8>,
    depositor: Seq<u8>,
    is_signer: bool,
    vault_key: Seq<u8>,
    vault: Option<VaultModel>,
    transfers_key: Seq<u8>,
    transfers: Option<UserTransfersModel>,
    amount: u64,
) -> Result<(VaultModel, UserTransfersModel), VaultError> {
    if !is_signer {
        Err(VaultError::MissingRequiredSignature)
    } else if !is_derived(vault_tag(), depositor, program, vault_key) {
        Err(VaultError::InvalidPDA)
    } else if !vault_ready(vault) {
        Err(VaultError::UninitializedAccount)
    } else if !is_derived(transfers_tag(), vault_key, program, transfers_key) {
        Err(VaultError::InvalidPDA)
    } else if vault->Some_0.deposited_amount + amount > u64::MAX {
        Err(VaultError::ArithmeticOverflow)
    } else if transfers_ready(transfers) && transfers->Some_0.deposited_amount + amount > u64::MAX {
        Err(VaultError::ArithmeticOverflow)
    } else {
        let v = vault->Some_0;
        Ok(
            (
                VaultModel { deposited_amount: (v.deposited_amount + amount) as u64, ..v },
                ledger_after_deposit(depositor, vault_key, transfers, amount),
            ),
        )
    }
}

/// What Deposit hands back: the creation request for a ledger that is absent
/// or not yet initialized, the amount to move from the depositor to the vault, and the two
/// records to persist.
pub struct Deposited {
    pub create: Option<CreateAccount>,
    pub amount: u64,
    pub vault: Vault,
    pub transfers: UserTransfers,
}

/// Records a deposit of `amount` into the caller's vault and ledger, asking
/// for the ledger to be created while it is absent or not yet initialized.
///
/// Every check and every total is settled here, before the platform moves any
/// funds: once the transfer has run, only the writes of the two records are
/// left.
pub fn deposit(
    program_id: &Address,
    depositor: &Address,
    is_signer: bool,
    vault_key: &Address,
    vault: &Option<Vault>,
    transfers_key: &Address,
    transfers: &Option<UserTransfers>,
    amount: u64,
) -> (r: Result<Deposited, VaultError>)
    ensures
        match r {
            Ok(o) => {
                &&& deposit_spec(program_id@, depositor@, is_signer, vault_key@, vault_slot(*vault), transfers_key@, transfers_slot(*transfers), amount) == Ok::<(VaultModel, UserTransfersModel), VaultError>((o.vault@, o.transfers@))
                &&& create_view(o.create) == creation(!transfers_ready(transfers_slot(*transfers)), transfers_tag(), vault_key@, program_id@, transfers_key@, USER_TRANSFERS_LEN as u64)
                &&& o.amount == amount
            },
            Err(e) => deposit_spec(program_id@, depositor@, is_signer, vault_key@, vault_slot(*vault), transfers_key@, transfers_slot(*transfers), amount) == Err::<(VaultModel, UserTransfersModel), VaultError>(e),
        },
{
    if !is_signer {
        return Err(VaultError::MissingRequiredSignature);
    }
    let vtag = vault_seed();
    if verify_derived(vtag.as_slice(), depositor, program_id, vault_key).is_none() {
        return Err(VaultError::InvalidPDA);
    }
    let v = match vault {
        Some(v) => {
            if !v.is_initialized() {
                return Err(VaultError::UninitializedAccount);
            }
            v
        },
        None => return Err(VaultError::UninitializedAccount),
    };
    let ttag = transfers_seed();
    let bump = match verify_derived(ttag.as_slice(), vault_key, program_id, transfers_key) {
        Some(b) => b,
        None => return Err(VaultError::InvalidPDA),
    };
    let deposited = match v.deposited_amount.checked_add(amount) {
        Some(d) => d,
        None => return Err(VaultError::ArithmeticOverflow),
    };
    let ledger = match transfers {
        Some(t) if t.is_initialized() => {
            let d = match t.deposited_amount.checked_add(amount) {
                Some(d) => d,
                None => return Err(VaultError::ArithmeticOverflow),
            };
            let mut n = t.clone_record();
            n.deposited_amount = d;
            n
        },
        _ => UserTransfers {
            discriminator: transfers_discriminator_string(),
            deposited_amount: amount,
            withdrawn_amount: 0,
            initialized: true,
            owner: *depositor,
            vault: *vault_key,
        },
    };
    let ledger_ready = match transfers {
        Some(t) => t.is_initialized(),
        None => false,
    };
    let create = if ledger_ready {
        None
    } else {
        Some(
            CreateAccount {
                address: *transfers_key,
                space: USER_TRANSFERS_LEN as u64,
                tag: ttag,
                key: *vault_key,
                bump,
            },
        )
    };
    let mut record = v.clone_record();
    record.deposited_amount = deposited;
    Ok(Deposited { create, amount, vault: record, transfers: ledger })
}

/// The share of `available` that one withdrawal takes: ten percent, rounded
/// down.
pub open spec fn withdraw_share(available: int) -> int {
    available * 10 / 100
}

/// What Withdraw does: checks the signature, both addresses and that both
/// records are initialized, takes ten percent of the ledger's net balance,
/// and adds it to the withdrawn totals of the ledger and then the vault, with
/// checked arithmetic.
pub open spec fn withdraw_spec(
    program: Seq<u8>,
    withdrawer: Seq<u8>,
    is_signer: bool,
    vault_key: Seq<u8>,
    vault: Option<VaultModel>,
    transfers_key: Seq<u8>,
    transfers: Option<UserTransfersModel>,
) -> Result<(u64, VaultModel, UserTransfersModel), VaultError> {
    if !is_signer {
        Err(VaultError::MissingRequiredSignature)
    } else if !is_derived(vault_tag(), withdrawer, program, vault_key) {
        Err(VaultError::InvalidPDA)
    } else if !vault_ready(vault) {
        Err(VaultError::UninitializedAccount)
    } else if !is_derived(transfers_tag(), vault_key, program, transfers_key) {
        Err(VaultError::InvalidPDA)
    } else if !transfers_ready(transfers) {
        Err(VaultError::UninitializedAccount)
    } else {
        let v = vault->Some_0;
        let t = transfers->Some_0;
        if t.withdrawn_amount > t.deposited_amount {
            Err(VaultError::ArithmeticOverflow)
        } else {
            let available = t.deposited_amount - t.withdrawn_amount;
            let share = withdraw_share(available);
            if available < share {
                Err(VaultError::InvalidWithdrawAmount)
            } else if t.withdrawn_amount + share > u64::MAX {
                Err(VaultError::ArithmeticOverflow)
            } else if v.withdrawn_amount + share > u64::MAX {
                Err(VaultError::ArithmeticOverflow)
            } else {
                Ok(
                    (
                        share as u64,
                        VaultModel { withdrawn_amount: (v.withdrawn_amount + share) as u64, ..v },
                        UserTransfersModel { withdrawn_amount: (t.withdrawn_amount + share) as u64, ..t },
                    ),
                )
            }
        }
    }
}

/// What Withdraw hands back: the amount to move from the vault to the
/// withdrawer, and the two records to persist.
pub struct Withdrawn {
    pub amount: u64,
    pub vault: Vault,
    pub transfers: UserTransfers,
}

/// Withdraws ten percent of the caller's net deposited balance.
pub fn withdraw(
    program_id: &Address,
    withdrawer: &Address,
    is_signer: bool,
    vault_key: &Address,
    vault: &Option<Vault>,
    transfers_key: &Address,
    transfers: &Option<UserTransfers>,
) -> (r: Result<Withdrawn, VaultError>)
    ensures
        match r {
            Ok(o) => withdraw_spec(program_id@, withdrawer@, is_signer, vault_key@, vault_slot(*vault), transfers_key@, transfers_slot(*transfers)) == Ok::<(u64, VaultModel, UserTransfersModel), VaultError>((o.amount, o.vault@, o.transfers@)),
            Err(e) => withdraw_spec(program_id@, withdrawer@, is_signer, vault_key@, vault_slot(*vault), transfers_key@, transfers_slot(*transfers)) == Err::<(u64, VaultModel, UserTransfersModel), VaultError>(e),
        },
{
    if !is_signer {
        return Err(VaultError::MissingRequiredSignature);
    }
    let vtag = vault_seed();
    if verify_derived(vtag.as_slice(), withdrawer, program_id, vault_key).is_none() {
        return Err(VaultError::InvalidPDA);
    }
    let v = match vault {
        Some(v) => {
            if !v.is_initialized() {
                return Err(VaultError::UninitializedAccount);
            }
            v
        },
        None => return Err(VaultError::UninitializedAccount),
    };
    let ttag = transfers_seed();
    if verify_derived(ttag.as_slice(), vault_key, program_id, transfers_key).is_none() {
        return Err(VaultError::InvalidPDA);
    }
    let t = match transfers {
        Some(t) => {
            if !t.is_initialized() {
                return Err(VaultError::UninitializedAccount);
            }
            t
        },
        None => return Err(VaultError::UninitializedAccount),
    };
    let available = match t.deposited_amount.checked_sub(t.withdrawn_amount) {
        Some(a) => a,
        None => return Err(VaultError::ArithmeticOverflow),
    };
    // `available * 10 / 100` without the intermediate product, which could
    // exceed u64.
    let share = available / 10;
    assert(share == withdraw_share(available as int)) by (nonlinear_arith)
        requires share == available / 10;
    // The balance is taken again before it is compared, so that the check
    // does not rest on a value computed before the share.
    let available_now = match t.deposited_amount.checked_sub(t.withdrawn_amount) {
        Some(a) => a,
        None => return Err(VaultError::ArithmeticOverflow),
    };
    if available_now < share {
        return Err(VaultError::InvalidWithdrawAmount);
    }
    let ledger_withdrawn = match t.withdrawn_amount.checked_add(share) {
        Some(w) => w,
        None => return Err(VaultError::ArithmeticOverflow),
    };
    let vault_withdrawn = match v.withdrawn_amount.checked_add(share) {
        Some(w) => w,
        None => return Err(VaultError::ArithmeticOverflow),
    };
    let mut ledger = t.clone_record();
    ledger.withdrawn_amount = ledger_withdrawn;
    let mut record = v.clone_record();
    record.withdrawn_amount = vault_withdrawn;
    Ok(Withdrawn { amount: share, vault: record, transfers: ledger })
}

} // verus!
