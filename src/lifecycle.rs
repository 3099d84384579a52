use crate::address::{is_derived, transfers_tag, vault_tag};
use crate::error::VaultError;
use crate::instruction::VaultInstruction;
use crate::processor::{
    deposit_spec, fresh_vault, initialize_spec, transfers_ready, vault_ready, withdraw_share,
    withdraw_spec,
};
use crate::state::{transfers_discriminator, UserTransfersModel, VaultModel};
use vstd::prelude::*;

verus! {

/// One depositor as the program sees it: the program identity, the
/// depositor's identity and the two record addresses that calls supply.
pub struct Depositor {
    pub program: Seq<u8>,
    pub key: Seq<u8>,
    pub vault_key: Seq<u8>,
    pub transfers_key: Seq<u8>,
}

/// The depositor's two record slots; `None` where no record exists.
pub struct Slots {
    pub vault: Option<VaultModel>,
    pub transfers: Option<UserTransfersModel>,
}

/// The slots before any call.
pub open spec fn empty_slots() -> Slots {
    Slots { vault: None, transfers: None }
}

/// The slots after one call, signed or not: a failed call leaves both as they
/// were.
pub open spec fn step(d: Depositor, s: Slots, ins: VaultInstruction, signed: bool) -> Slots {
    match ins {
        VaultInstruction::Initialize {} => match initialize_spec(d.program, d.key, signed, d.vault_key, s.vault) {
            Ok(v) => Slots { vault: Some(v), ..s },
            Err(_) => s,
        },
        VaultInstruction::Deposit { amount } => match deposit_spec(d.program, d.key, signed, d.vault_key, s.vault, d.transfers_key, s.transfers, amount) {
            Ok((v, t)) => Slots { vault: Some(v), transfers: Some(t) },
            Err(_) => s,
        },
        VaultInstruction::Withdraw {} => match withdraw_spec(d.program, d.key, signed, d.vault_key, s.vault, d.transfers_key, s.transfers) {
            Ok((_, v, t)) => Slots { vault: Some(v), transfers: Some(t) },
            Err(_) => s,
        },
    }
}

/// The slots after a sequence of calls, each an instruction and whether it
/// was signed.
pub open spec fn run(d: Depositor, s: Slots, ops: Seq<(VaultInstruction, bool)>) -> Slots
    decreases ops.len(),
{
    if ops.len() == 0 {
        s
    } else {
        let last = ops.last();
        step(d, run(d, s, ops.drop_last()), last.0, last.1)
    }
}

/// Withdrawn totals never exceed deposited totals, in every initialized record.
pub open spec fn totals_ordered(s: Slots) -> bool {
    &&& vault_ready(s.vault) ==> s.vault->Some_0.withdrawn_amount <= s.vault->Some_0.deposited_amount
    &&& transfers_ready(s.transfers) ==> s.transfers->Some_0.withdrawn_amount <= s.transfers->Some_0.deposited_amount
}

/// The vault and the ledger carry the same totals once the ledger exists;
/// before that the vault has seen no funds.
pub open spec fn mirrored(s: Slots) -> bool {
    if transfers_ready(s.transfers) {
        let v = s.vault->Some_0;
        let t = s.transfers->Some_0;
        &&& vault_ready(s.vault)
        &&& v.deposited_amount == t.deposited_amount
        &&& v.withdrawn_amount == t.withdrawn_amount
        &&& t.withdrawn_amount <= t.deposited_amount
    } else {
        vault_ready(s.vault) ==> s.vault->Some_0.deposited_amount == 0 && s.vault->Some_0.withdrawn_amount == 0
    }
}

proof fn lemma_step_mirrored(d: Depositor, s: Slots, ins: VaultInstruction, signed: bool)
    requires
        mirrored(s),
    ensures
        mirrored(step(d, s, ins, signed)),
{
    match ins {
        VaultInstruction::Withdraw {} => {
            if transfers_ready(s.transfers) {
                let t = s.transfers->Some_0;
                let available = t.deposited_amount - t.withdrawn_amount;
                assert(withdraw_share(available) <= available) by (nonlinear_arith)
                    requires available >= 0;
            }
        },
        _ => {},
    }
}

proof fn lemma_run_mirrored(d: Depositor, ops: Seq<(VaultInstruction, bool)>)
    ensures
        mirrored(run(d, empty_slots(), ops)),
    decreases ops.len(),
{
    if ops.len() > 0 {
        lemma_run_mirrored(d, ops.drop_last());
        lemma_step_mirrored(d, run(d, empty_slots(), ops.drop_last()), ops.last().0, ops.last().1);
    }
}

/// After any sequence of calls on one depositor, starting from no records,
/// each record's withdrawn total is at most its deposited total, and the
/// vault and the ledger hold equal totals.
pub proof fn lemma_totals_stay_ordered(d: Depositor, ops: Seq<(VaultInstruction, bool)>)
    ensures
        totals_ordered(run(d, empty_slots(), ops)),
        mirrored(run(d, empty_slots(), ops)),
{
    lemma_run_mirrored(d, ops);
}

/// A deposit adds exactly `amount` to the deposited totals of the vault and
/// of the ledger (to zero for a ledger that starts with it), and leaves the
/// two equal.
pub proof fn lemma_deposit_adds_amount(d: Depositor, s: Slots, amount: u64, signed: bool)
    requires
        mirrored(s),
        deposit_spec(d.program, d.key, signed, d.vault_key, s.vault, d.transfers_key, s.transfers, amount) is Ok,
    ensures
        ({
            let after = step(d, s, VaultInstruction::Deposit { amount }, signed);
            let before_ledger: int = if transfers_ready(s.transfers) { s.transfers->Some_0.deposited_amount as int } else { 0 };
            &&& after.vault->Some_0.deposited_amount == s.vault->Some_0.deposited_amount + amount
            &&& after.transfers->Some_0.deposited_amount == before_ledger + amount
            &&& after.vault->Some_0.deposited_amount == after.transfers->Some_0.deposited_amount
            &&& mirrored(after)
        }),
{
    lemma_step_mirrored(d, s, VaultInstruction::Deposit { amount }, signed);
}

/// Two withdrawals in a row: the second takes ten percent (rounded down) of
/// what the first left available, so it is never larger than the first.
pub proof fn lemma_second_withdrawal_not_larger(d: Depositor, s: Slots, signed: bool)
    requires
        withdraw_spec(d.program, d.key, signed, d.vault_key, s.vault, d.transfers_key, s.transfers) is Ok,
    ensures
        ({
            let first = withdraw_spec(d.program, d.key, signed, d.vault_key, s.vault, d.transfers_key, s.transfers)->Ok_0.0;
            let t = s.transfers->Some_0;
            let available = t.deposited_amount - t.withdrawn_amount;
            let s1 = step(d, s, VaultInstruction::Withdraw {}, signed);
            let second = withdraw_spec(d.program, d.key, signed, d.vault_key, s1.vault, d.transfers_key, s1.transfers);
            &&& first == withdraw_share(available)
            &&& s1.transfers->Some_0.deposited_amount - s1.transfers->Some_0.withdrawn_amount == available - first
            &&& second is Ok ==> second->Ok_0.0 == withdraw_share(available - first)
            &&& second is Ok ==> second->Ok_0.0 <= first
        }),
{
    let t = s.transfers->Some_0;
    let available = t.deposited_amount - t.withdrawn_amount;
    let first = withdraw_share(available);
    assert(withdraw_share(available - first) <= first) by (nonlinear_arith)
        requires
            available >= 0,
            first == available * 10 / 100,
            first <= available,
    ;
}

/// Initialize twice for the same identity: the second call fails with
/// `AccountAlreadyInitialized` and the slots stay as the first call left them.
pub proof fn lemma_initialize_twice(d: Depositor, s: Slots, signed: bool)
    requires
        initialize_spec(d.program, d.key, signed, d.vault_key, s.vault) is Ok,
    ensures
        ({
            let s1 = step(d, s, VaultInstruction::Initialize {}, signed);
            &&& initialize_spec(d.program, d.key, signed, d.vault_key, s1.vault) == Err::<VaultModel, VaultError>(VaultError::AccountAlreadyInitialized)
            &&& step(d, s1, VaultInstruction::Initialize {}, signed) == s1
        }),
{
}

/// A signed Deposit or Withdraw whose vault address is not the derived one,
/// or whose ledger address is not the one derived from an initialized vault's
/// address, fails with `InvalidPDA` and leaves both slots unchanged.
pub proof fn lemma_mismatched_address_refused(d: Depositor, s: Slots, ins: VaultInstruction)
    requires
        !(ins is Initialize),
        !is_derived(vault_tag(), d.key, d.program, d.vault_key) || (vault_ready(s.vault)
            && !is_derived(transfers_tag(), d.vault_key, d.program, d.transfers_key)),
    ensures
        ins matches VaultInstruction::Deposit { amount } ==> deposit_spec(d.program, d.key, true, d.vault_key, s.vault, d.transfers_key, s.transfers, amount) == Err::<(VaultModel, UserTransfersModel), VaultError>(VaultError::InvalidPDA),
        ins is Withdraw ==> withdraw_spec(d.program, d.key, true, d.vault_key, s.vault, d.transfers_key, s.transfers) == Err::<(u64, VaultModel, UserTransfersModel), VaultError>(VaultError::InvalidPDA),
        step(d, s, ins, true) == s,
{
}

/// A signed Withdraw with valid addresses and an initialized vault, but no
/// initialized ledger (no deposit yet), fails with `UninitializedAccount`.
pub proof fn lemma_withdraw_before_deposit(d: Depositor, s: Slots)
    requires
        is_derived(vault_tag(), d.key, d.program, d.vault_key),
        is_derived(transfers_tag(), d.vault_key, d.program, d.transfers_key),
        vault_ready(s.vault),
        !transfers_ready(s.transfers),
    ensures
        withdraw_spec(d.program, d.key, true, d.vault_key, s.vault, d.transfers_key, s.transfers) == Err::<(u64, VaultModel, UserTransfersModel), VaultError>(VaultError::UninitializedAccount),
        step(d, s, VaultInstruction::Withdraw {}, true) == s,
{
}

/// A signed deposit of zero with valid addresses into an initialized vault
/// succeeds, leaves every total as it was, and initializes a ledger that was
/// not initialized yet.
pub proof fn lemma_zero_deposit(d: Depositor, s: Slots)
    requires
        is_derived(vault_tag(), d.key, d.program, d.vault_key),
        is_derived(transfers_tag(), d.vault_key, d.program, d.transfers_key),
        vault_ready(s.vault),
    ensures
        ({
            let r = deposit_spec(d.program, d.key, true, d.vault_key, s.vault, d.transfers_key, s.transfers, 0);
            &&& r is Ok
            &&& r->Ok_0.0 == s.vault->Some_0
            &&& transfers_ready(s.transfers) ==> r->Ok_0.1 == s.transfers->Some_0
            &&& !transfers_ready(s.transfers) ==> r->Ok_0.1 == (UserTransfersModel {
                discriminator: transfers_discriminator(),
                deposited_amount: 0,
                withdrawn_amount: 0,
                initialized: true,
                owner: d.key,
                vault: d.vault_key,
            })
        }),
{
}

/// A deposit that would carry the vault's or the initialized ledger's
/// deposited total past `u64::MAX` fails with `ArithmeticOverflow` and leaves
/// both slots unchanged.
pub proof fn lemma_deposit_overflow_refused(d: Depositor, s: Slots, amount: u64)
    requires
        is_derived(vault_tag(), d.key, d.program, d.vault_key),
        is_derived(transfers_tag(), d.vault_key, d.program, d.transfers_key),
        vault_ready(s.vault),
        s.vault->Some_0.deposited_amount + amount > u64::MAX || (transfers_ready(s.transfers)
            && s.transfers->Some_0.deposited_amount + amount > u64::MAX),
    ensures
        deposit_spec(d.program, d.key, true, d.vault_key, s.vault, d.transfers_key, s.transfers, amount) == Err::<(VaultModel, UserTransfersModel), VaultError>(VaultError::ArithmeticOverflow),
        step(d, s, VaultInstruction::Deposit { amount }, true) == s,
{
}

/// Initialize on a depositor with no records writes a fresh vault, and the
/// slots then satisfy the bookkeeping invariant.
pub proof fn lemma_initialize_fresh(d: Depositor)
    requires
        is_derived(vault_tag(), d.key, d.program, d.vault_key),
    ensures
        step(d, empty_slots(), VaultInstruction::Initialize {}, true) == (Slots { vault: Some(fresh_vault(d.key)), transfers: None }),
        mirrored(step(d, empty_slots(), VaultInstruction::Initialize {}, true)),
{
}

} // verus!
