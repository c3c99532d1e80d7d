//! The ledger's global guarantees, stated and proved over the transition
//! specifications: balance conservation across arbitrary call sequences,
//! the delegate notional cap, revocation finality, the freeze barrier, and
//! the irreversibility of admin renunciation.

use crate::address::Address;
use crate::error::{ProgramError, VaultError};
use crate::processor::{
    spec_check_delegate, spec_deposit_vault, spec_lock_delegate, spec_lock_vault,
    spec_process_freeze_vault, spec_process_lock_margin, spec_process_unfreeze_vault,
    spec_process_unlock_margin, spec_process_withdraw, spec_renounce_admin_record,
    spec_revoke_delegate_record, spec_transfer_admin_record, spec_unlock_delegate,
    spec_unlock_vault, spec_withdraw_vault,
};
use crate::state::{DelegateAccount, GlobalConfig, UserVault, MAX_DEPOSIT};
use crate::utils::AccountView;
use vstd::prelude::*;

verus! {

// ---------------------------------------------------------------------
// Balance conservation.
// ---------------------------------------------------------------------

/// Balance conservation: the vault's actual asset balance equals its free
/// plus locked collateral.
pub open spec fn conserved(v: UserVault, asset_balance: u64) -> bool {
    asset_balance == v.free_collateral + v.locked_collateral
}

/// One asset-moving call against a vault: a deposit or a withdrawal.
pub enum LedgerOp {
    /// Deposit `amount` at time `now`.
    Deposit { amount: u64, now: i64 },
    /// Withdraw `amount` at time `now`.
    Withdraw { amount: u64, now: i64 },
}

/// The joint effect of one successful call on the vault record and on the
/// vault's actual asset balance: the record transition must succeed, and
/// the asset balance moves by exactly the transferred amount. `None` is a
/// failed call, which leaves no effect at all.
pub open spec fn apply_ledger_op(v: UserVault, asset_balance: u64, op: LedgerOp) -> Option<
    (UserVault, u64),
> {
    match op {
        LedgerOp::Deposit { amount, now } => match spec_deposit_vault(v, amount, now) {
            Ok(v2) => if asset_balance + amount <= u64::MAX {
                Some((v2, (asset_balance + amount) as u64))
            } else {
                None
            },
            Err(_) => None,
        },
        LedgerOp::Withdraw { amount, now } => match spec_withdraw_vault(v, amount, now) {
            Ok(v2) => if asset_balance >= amount {
                Some((v2, (asset_balance - amount) as u64))
            } else {
                None
            },
            Err(_) => None,
        },
    }
}

/// The joint effect of a sequence of successful calls, first to last.
pub open spec fn apply_ledger_ops(v: UserVault, asset_balance: u64, ops: Seq<LedgerOp>) -> Option<
    (UserVault, u64),
>
    decreases ops.len(),
{
    if ops.len() == 0 {
        Some((v, asset_balance))
    } else {
        match apply_ledger_op(v, asset_balance, ops[0]) {
            None => None,
            Some((v2, b2)) => apply_ledger_ops(v2, b2, ops.subrange(1, ops.len() as int)),
        }
    }
}

/// A successful deposit preserves balance conservation.
pub proof fn lemma_deposit_conserves(v: UserVault, asset_balance: u64, amount: u64, now: i64)
    requires
        conserved(v, asset_balance),
        spec_deposit_vault(v, amount, now) is Ok,
        asset_balance + amount <= u64::MAX,
    ensures
        conserved(spec_deposit_vault(v, amount, now).unwrap(), (asset_balance + amount) as u64),
{
}

/// A successful withdrawal preserves balance conservation.
pub proof fn lemma_withdraw_conserves(v: UserVault, asset_balance: u64, amount: u64, now: i64)
    requires
        conserved(v, asset_balance),
        spec_withdraw_vault(v, amount, now) is Ok,
        asset_balance >= amount,
    ensures
        conserved(spec_withdraw_vault(v, amount, now).unwrap(), (asset_balance - amount) as u64),
{
}

/// A successful margin lock leaves the free-plus-locked sum — and so
/// balance conservation — untouched.
pub proof fn lemma_lock_preserves_conservation(
    v: UserVault,
    asset_balance: u64,
    required_margin: u64,
    now: i64,
)
    requires
        conserved(v, asset_balance),
        spec_lock_vault(v, required_margin, now) is Ok,
    ensures
        conserved(spec_lock_vault(v, required_margin, now).unwrap(), asset_balance),
{
}

/// Balance conservation holds after every sequence of successful deposits
/// and withdrawals: if the vault's asset balance matches its free plus
/// locked collateral at the start, it still does after the whole sequence
/// commits.
pub proof fn lemma_balance_conservation(v: UserVault, asset_balance: u64, ops: Seq<LedgerOp>)
    requires
        conserved(v, asset_balance),
        apply_ledger_ops(v, asset_balance, ops) is Some,
    ensures
        conserved(
            apply_ledger_ops(v, asset_balance, ops).unwrap().0,
            apply_ledger_ops(v, asset_balance, ops).unwrap().1,
        ),
    decreases ops.len(),
{
    if ops.len() == 0 {
    } else {
        let step = apply_ledger_op(v, asset_balance, ops[0]);
        let (v2, b2) = step.unwrap();
        match ops[0] {
            LedgerOp::Deposit { amount, now } => {
                lemma_deposit_conserves(v, asset_balance, amount, now);
            },
            LedgerOp::Withdraw { amount, now } => {
                lemma_withdraw_conserves(v, asset_balance, amount, now);
            },
        }
        lemma_balance_conservation(v2, b2, ops.subrange(1, ops.len() as int));
    }
}

/// A deposit only commits when conservation holds against the vault asset
/// account's post-transfer balance: the balance it held at the start of
/// the call, plus the deposited amount.
pub proof fn lemma_deposit_enforces_conservation(
    program_id: Address,
    accounts: Seq<AccountView>,
    amount: u64,
    now: i64,
)
    requires
        crate::processor::spec_process_deposit(program_id, accounts, amount, now) is Ok,
    ensures
        ({
            let (v2, amt) = crate::processor::spec_process_deposit(
                program_id,
                accounts,
                amount,
                now,
            ).unwrap();
            let before = crate::utils::spec_unpack_token_account(
                accounts[3].data@,
            ).unwrap().amount;
            before + amt <= u64::MAX && conserved(v2, (before + amt) as u64)
        }),
{
}

/// A withdrawal only commits when conservation holds against the vault
/// asset account's post-transfer balance: the balance it held at the start
/// of the call, minus the withdrawn amount.
pub proof fn lemma_withdraw_enforces_conservation(
    program_id: Address,
    accounts: Seq<AccountView>,
    amount: u64,
    current_slot: u64,
    now: i64,
)
    requires
        spec_process_withdraw(program_id, accounts, amount, current_slot, now) is Ok,
    ensures
        ({
            let (v2, amt) = spec_process_withdraw(
                program_id,
                accounts,
                amount,
                current_slot,
                now,
            ).unwrap();
            let before = crate::utils::spec_unpack_token_account(
                accounts[3].data@,
            ).unwrap().amount;
            before >= amt && conserved(v2, (before - amt) as u64)
        }),
{
}

// ---------------------------------------------------------------------
// The notional cap.
// ---------------------------------------------------------------------

/// A successful margin lock leaves the delegate within its notional cap.
pub proof fn lemma_lock_respects_cap(d: DelegateAccount, required_notional: u64, now: i64)
    requires
        spec_lock_delegate(d, required_notional, now) is Ok,
    ensures
        spec_lock_delegate(d, required_notional, now).unwrap().used_notional
            <= spec_lock_delegate(d, required_notional, now).unwrap().max_notional,
{
}

/// A lock that would exceed the notional cap is rejected with
/// `NotionalLimitExceeded` — and, being rejected, changes nothing.
pub proof fn lemma_over_cap_lock_rejected(d: DelegateAccount, required_notional: u64, now: i64)
    requires
        d.used_notional + required_notional > d.max_notional,
        d.used_notional + required_notional <= u64::MAX,
    ensures
        spec_lock_delegate(d, required_notional, now) == Err::<DelegateAccount, VaultError>(
            VaultError::NotionalLimitExceeded,
        ),
{
}

/// A successful unlock that releases exposure (a non-positive delta) keeps
/// the delegate within its notional cap.
pub proof fn lemma_release_respects_cap(d: DelegateAccount, notional_delta: i64, now: i64)
    requires
        d.used_notional <= d.max_notional,
        notional_delta <= 0,
        spec_unlock_delegate(d, notional_delta, now) is Ok,
    ensures
        spec_unlock_delegate(d, notional_delta, now).unwrap().used_notional
            <= spec_unlock_delegate(d, notional_delta, now).unwrap().max_notional,
{
}

// ---------------------------------------------------------------------
// Revocation finality.
// ---------------------------------------------------------------------

/// Revocation deactivates the record and poisons its replay counter.
pub proof fn lemma_revoke_deactivates(
    d: DelegateAccount,
    owner_key: Address,
    delegate_pubkey: Address,
    now: i64,
)
    requires
        spec_revoke_delegate_record(d, owner_key, delegate_pubkey, now) is Ok,
    ensures
        !spec_revoke_delegate_record(d, owner_key, delegate_pubkey, now).unwrap().is_active,
        spec_revoke_delegate_record(d, owner_key, delegate_pubkey, now).unwrap().nonce
            == u64::MAX,
{
}

/// A deactivated delegate fails authorization with `DelegateExpired`, for
/// every clock value and every demanded capability.
pub proof fn lemma_revoked_delegate_rejected(
    d: DelegateAccount,
    signer_key: Address,
    vault_owner: Address,
    current_slot: u64,
    permission: u64,
)
    requires
        !d.is_active,
        d.delegate == signer_key,
        d.owner == vault_owner,
    ensures
        spec_check_delegate(d, signer_key, vault_owner, current_slot, permission) == Some(
            VaultError::DelegateExpired,
        ),
{
}

/// After revocation, a margin lock attempted by that delegate fails with
/// `DelegateExpired`, whatever the payload. The premises state only that
/// the call is otherwise well-formed: the guards pass, the records decode,
/// and the signer is the revoked delegate rather than the owner.
pub proof fn lemma_revoked_lock_fails(
    program_id: Address,
    accounts: Seq<AccountView>,
    v: UserVault,
    d: DelegateAccount,
    required_margin: u64,
    required_notional: u64,
    current_slot: u64,
    now: i64,
)
    requires
        accounts.len() >= 5,
        accounts[1].is_signer,
        accounts[0].is_writable,
        accounts[0].owner == program_id,
        crate::codec::spec_decode_user_vault(accounts[0].data@) == Ok::<UserVault, VaultError>(v),
        !v.spec_is_frozen(),
        accounts[1].key != v.owner,
        accounts[2].is_writable,
        crate::codec::spec_decode_delegate(accounts[2].data@) == Ok::<DelegateAccount, VaultError>(
            d,
        ),
        d.delegate == accounts[1].key,
        d.owner == v.owner,
        !d.is_active,
    ensures
        spec_process_lock_margin(
            program_id,
            accounts,
            required_margin,
            required_notional,
            current_slot,
            now,
        ) == Err::<(UserVault, Option<DelegateAccount>), ProgramError>(
            ProgramError::Vault(VaultError::DelegateExpired),
        ),
{
}

/// After revocation, an unlock attempted by that delegate fails with
/// `DelegateExpired`, whatever the payload.
pub proof fn lemma_revoked_unlock_fails(
    program_id: Address,
    accounts: Seq<AccountView>,
    v: UserVault,
    d: DelegateAccount,
    unlocked_margin: u64,
    pnl_delta: i64,
    notional_delta: i64,
    current_slot: u64,
    now: i64,
)
    requires
        accounts.len() >= 4,
        accounts[1].is_signer,
        accounts[0].is_writable,
        accounts[0].owner == program_id,
        crate::codec::spec_decode_user_vault(accounts[0].data@) == Ok::<UserVault, VaultError>(v),
        !v.spec_is_frozen(),
        accounts[1].key != v.owner,
        accounts[2].is_writable,
        crate::codec::spec_decode_delegate(accounts[2].data@) == Ok::<DelegateAccount, VaultError>(
            d,
        ),
        d.delegate == accounts[1].key,
        d.owner == v.owner,
        !d.is_active,
    ensures
        spec_process_unlock_margin(
            program_id,
            accounts,
            unlocked_margin,
            pnl_delta,
            notional_delta,
            current_slot,
            now,
        ) == Err::<(UserVault, Option<DelegateAccount>), ProgramError>(
            ProgramError::Vault(VaultError::DelegateExpired),
        ),
{
}

/// After revocation, a withdrawal attempted by that delegate fails with
/// `DelegateExpired`, whatever the amount.
pub proof fn lemma_revoked_withdraw_fails(
    program_id: Address,
    accounts: Seq<AccountView>,
    v: UserVault,
    d: DelegateAccount,
    amount: u64,
    current_slot: u64,
    now: i64,
)
    requires
        accounts.len() >= 7,
        accounts[1].is_signer,
        accounts[0].is_writable,
        accounts[0].owner == program_id,
        amount > 0,
        crate::codec::spec_decode_user_vault(accounts[0].data@) == Ok::<UserVault, VaultError>(v),
        !v.spec_is_frozen(),
        accounts[1].key != v.owner,
        crate::codec::spec_decode_delegate(accounts[6].data@) == Ok::<DelegateAccount, VaultError>(
            d,
        ),
        d.delegate == accounts[1].key,
        d.owner == v.owner,
        !d.is_active,
    ensures
        spec_process_withdraw(program_id, accounts, amount, current_slot, now) == Err::<
            (UserVault, u64),
            ProgramError,
        >(ProgramError::Vault(VaultError::DelegateExpired)),
{
}

// ---------------------------------------------------------------------
// The freeze barrier.
// ---------------------------------------------------------------------

/// While a vault is frozen, a deposit of any amount the ledger would
/// otherwise accept fails with `VaultFrozen`.
pub proof fn lemma_frozen_blocks_deposit(v: UserVault, amount: u64, now: i64)
    requires
        v.spec_is_frozen(),
        0 < amount <= MAX_DEPOSIT,
    ensures
        spec_deposit_vault(v, amount, now) == Err::<UserVault, VaultError>(VaultError::VaultFrozen),
{
}

/// While a vault is frozen, a withdrawal of any positive amount fails with
/// `VaultFrozen`.
pub proof fn lemma_frozen_blocks_withdraw(v: UserVault, amount: u64, now: i64)
    requires
        v.spec_is_frozen(),
        amount > 0,
    ensures
        spec_withdraw_vault(v, amount, now) == Err::<UserVault, VaultError>(
            VaultError::VaultFrozen,
        ),
{
}

/// While a vault is frozen, a margin lock fails with `VaultFrozen`,
/// whatever the margin.
pub proof fn lemma_frozen_blocks_lock(v: UserVault, required_margin: u64, now: i64)
    requires
        v.spec_is_frozen(),
    ensures
        spec_lock_vault(v, required_margin, now) == Err::<UserVault, VaultError>(
            VaultError::VaultFrozen,
        ),
{
}

/// While a vault is frozen, an unlock fails with `VaultFrozen`, whatever
/// the payload.
pub proof fn lemma_frozen_blocks_unlock(
    v: UserVault,
    unlocked_margin: u64,
    pnl_delta: i64,
    now: i64,
)
    requires
        v.spec_is_frozen(),
    ensures
        spec_unlock_vault(v, unlocked_margin, pnl_delta, now) == Err::<UserVault, VaultError>(
            VaultError::VaultFrozen,
        ),
{
}

/// Freeze and unfreeze themselves stay callable on a frozen vault: an
/// owner's freeze succeeds with no effect, and an owner's unfreeze
/// succeeds and clears the flag.
pub proof fn lemma_freeze_ops_callable_when_frozen(
    program_id: Address,
    accounts: Seq<AccountView>,
    v: UserVault,
    now: i64,
)
    requires
        accounts.len() >= 2,
        accounts[1].is_signer,
        accounts[0].is_writable,
        accounts[0].owner == program_id,
        crate::codec::spec_decode_user_vault(accounts[0].data@) == Ok::<UserVault, VaultError>(v),
        v.owner == accounts[1].key,
        v.spec_is_frozen(),
    ensures
        spec_process_freeze_vault(program_id, accounts, now) == Ok::<
            Option<UserVault>,
            ProgramError,
        >(None),
        spec_process_unfreeze_vault(program_id, accounts, now) is Ok,
        !spec_process_unfreeze_vault(program_id, accounts, now).unwrap().unwrap().spec_is_frozen(),
{
    let v2 = spec_process_unfreeze_vault(program_id, accounts, now).unwrap().unwrap();
    let f = v.flags;
    assert((f & !1u64) & 1 == 0) by (bit_vector);
}

// ---------------------------------------------------------------------
// Admin renunciation is terminal.
// ---------------------------------------------------------------------

/// After a renunciation, no caller whose identity is not the all-zero
/// sentinel — no real signer can hold it — can transfer or renounce
/// authority again: both fail with `InvalidAuthority`.
pub proof fn lemma_renounce_terminal(
    c: GlobalConfig,
    caller: Address,
    later_caller: Address,
    new_admin: Address,
)
    requires
        spec_renounce_admin_record(c, caller) is Ok,
        later_caller != Address::spec_zero(),
    ensures
        spec_transfer_admin_record(spec_renounce_admin_record(c, caller).unwrap(), later_caller, new_admin)
            == Err::<GlobalConfig, VaultError>(VaultError::InvalidAuthority),
        spec_renounce_admin_record(spec_renounce_admin_record(c, caller).unwrap(), later_caller)
            == Err::<GlobalConfig, VaultError>(VaultError::InvalidAuthority),
{
}

} // verus!
