//! The transition processor: one handler per operation.
//!
//! A handler takes the call's account references as plain views, the
//! payload, and the host clock, validates everything eagerly, and returns
//! either the first violated condition's error or an effects value: the
//! re-encoded records to store and the token movement to perform. A call
//! thus either fully commits or has no effect.
//!
//! Each handler's behaviour is pinned down by a specification function
//! over the same inputs; the handler's contract says its result matches
//! that function exactly.

use crate::address::Address;
use crate::codec::{
    encode_delegate, encode_global_config, encode_user_vault, spec_decode_delegate,
    spec_decode_global_config, spec_decode_user_vault, spec_encode_delegate,
    spec_encode_global_config, spec_encode_user_vault, decode_delegate, decode_global_config,
    decode_user_vault,
};
use crate::error::{ProgramError, VaultError};
use crate::instruction::{parse_instruction, spec_parse_instruction, VaultInstruction};
use crate::math::{safe_add, safe_sub, safe_add_signed, spec_add_signed};
use crate::state::{
    DelegateAccount, GlobalConfig, UserVault, DELEGATE_DISCRIMINATOR,
    GLOBAL_CONFIG_DISCRIMINATOR, MAX_DEPOSIT, MAX_EXPIRY_DURATION, MAX_NOTIONAL_LIMIT, PERM_TRADE,
    PERM_WITHDRAW, RECORD_VERSION, USER_VAULT_DISCRIMINATOR,
};
use crate::utils::{
    require_owner, require_signer, require_writable, spec_unpack_token_account, spec_verify_pda,
    spec_delegate_seeds, spec_global_config_seeds, spec_vault_seeds, spec_vault_usdc_seeds,
    delegate_seeds, global_config_seeds, vault_seeds, vault_usdc_seeds, verify_pda, AccountView,
    unpack_token_account,
};
use vstd::prelude::*;

verus! {

// ---------------------------------------------------------------------
// Record-level transitions: what each operation does to the record it
// mutates, with every numeric step overflow-checked.
// ---------------------------------------------------------------------

/// Validation shared by every delegate-authorized operation: the record
/// must name the signer, belong to the vault's owner, be live and
/// unexpired, and carry the needed capability. Yields the first violated
/// condition's error, or nothing.
pub open spec fn spec_check_delegate(
    d: DelegateAccount,
    signer_key: Address,
    vault_owner: Address,
    current_slot: u64,
    permission: u64,
) -> Option<VaultError> {
    if d.delegate != signer_key {
        Some(VaultError::InvalidDelegate)
    } else if d.owner != vault_owner {
        Some(VaultError::InvalidOwner)
    } else if !d.spec_is_valid(current_slot) {
        Some(VaultError::DelegateExpired)
    } else if !d.spec_has_permission(permission) {
        Some(VaultError::PermissionDenied)
    } else {
        None
    }
}

/// What a deposit does to a vault record: credits `amount` to the free
/// collateral and the lifetime deposit counter, checked; rejects a zero
/// or over-ceiling amount and a frozen vault.
pub open spec fn spec_deposit_vault(v: UserVault, amount: u64, now: i64) -> Result<
    UserVault,
    VaultError,
> {
    if amount == 0 {
        Err(VaultError::InvalidAmount)
    } else if amount > MAX_DEPOSIT {
        Err(VaultError::InvalidAmount)
    } else if v.spec_is_frozen() {
        Err(VaultError::VaultFrozen)
    } else if v.total_deposit + amount > u64::MAX {
        Err(VaultError::ArithmeticOverflow)
    } else if v.free_collateral + amount > u64::MAX {
        Err(VaultError::ArithmeticOverflow)
    } else {
        Ok(
            UserVault {
                total_deposit: (v.total_deposit + amount) as u64,
                free_collateral: (v.free_collateral + amount) as u64,
                updated_at: now,
                ..v
            },
        )
    }
}

/// What a withdrawal does to a vault record: debits `amount` from the free
/// collateral and credits the lifetime withdrawal counter, checked;
/// rejects a zero amount, a frozen vault, and an amount beyond the free
/// collateral.
pub open spec fn spec_withdraw_vault(v: UserVault, amount: u64, now: i64) -> Result<
    UserVault,
    VaultError,
> {
    if amount == 0 {
        Err(VaultError::InvalidAmount)
    } else if v.spec_is_frozen() {
        Err(VaultError::VaultFrozen)
    } else if v.free_collateral < amount {
        Err(VaultError::InsufficientFreeCollateral)
    } else if v.total_withdrawn + amount > u64::MAX {
        Err(VaultError::ArithmeticOverflow)
    } else {
        Ok(
            UserVault {
                free_collateral: (v.free_collateral - amount) as u64,
                total_withdrawn: (v.total_withdrawn + amount) as u64,
                updated_at: now,
                ..v
            },
        )
    }
}

/// What a margin lock does to a vault record: moves `required_margin` from
/// free to locked collateral, checked; the sum of the two is unchanged, so
/// balance conservation is untouched.
pub open spec fn spec_lock_vault(v: UserVault, required_margin: u64, now: i64) -> Result<
    UserVault,
    VaultError,
> {
    if v.spec_is_frozen() {
        Err(VaultError::VaultFrozen)
    } else if v.free_collateral < required_margin {
        Err(VaultError::InsufficientFreeCollateral)
    } else if v.locked_collateral + required_margin > u64::MAX {
        Err(VaultError::ArithmeticOverflow)
    } else {
        Ok(
            UserVault {
                free_collateral: (v.free_collateral - required_margin) as u64,
                locked_collateral: (v.locked_collateral + required_margin) as u64,
                updated_at: now,
                ..v
            },
        )
    }
}

/// What a margin lock does to the delegate record: consumes
/// `required_notional` exposure, rejected when the cap would be exceeded
/// (compared saturating, exactly as stored).
pub open spec fn spec_lock_delegate(d: DelegateAccount, required_notional: u64, now: i64) -> Result<
    DelegateAccount,
    VaultError,
> {
    if !d.spec_can_use_notional(required_notional) {
        Err(VaultError::NotionalLimitExceeded)
    } else if d.used_notional + required_notional > u64::MAX {
        Err(VaultError::ArithmeticOverflow)
    } else {
        Ok(
            DelegateAccount {
                used_notional: (d.used_notional + required_notional) as u64,
                updated_at: now,
                ..d
            },
        )
    }
}

/// What an unlock does to the delegate record: adjusts the exposure
/// consumption by `notional_delta`, checked in both directions. A
/// negative delta — the expected case — releases exposure; a non-negative
/// one increases it, tolerated for forward compatibility.
pub open spec fn spec_unlock_delegate(d: DelegateAccount, notional_delta: i64, now: i64) -> Result<
    DelegateAccount,
    VaultError,
> {
    if notional_delta < 0 {
        if d.used_notional + notional_delta < 0 {
            Err(VaultError::ArithmeticUnderflow)
        } else {
            Ok(
                DelegateAccount {
                    used_notional: (d.used_notional + notional_delta) as u64,
                    updated_at: now,
                    ..d
                },
            )
        }
    } else {
        if d.used_notional + notional_delta > u64::MAX {
            Err(VaultError::ArithmeticOverflow)
        } else {
            Ok(
                DelegateAccount {
                    used_notional: (d.used_notional + notional_delta) as u64,
                    updated_at: now,
                    ..d
                },
            )
        }
    }
}

/// What an unlock does to a vault record: moves `unlocked_margin` from
/// locked back to free collateral, then settles `pnl_delta` against the
/// free collateral, all checked. Conservation against the asset balance is
/// deliberately not re-checked here: profit-and-loss changes the vault's
/// entitlement while the asset moves in a separate settlement flow.
pub open spec fn spec_unlock_vault(
    v: UserVault,
    unlocked_margin: u64,
    pnl_delta: i64,
    now: i64,
) -> Result<UserVault, VaultError> {
    if v.spec_is_frozen() {
        Err(VaultError::VaultFrozen)
    } else if v.locked_collateral < unlocked_margin {
        Err(VaultError::ArithmeticUnderflow)
    } else if v.free_collateral + unlocked_margin > u64::MAX {
        Err(VaultError::ArithmeticOverflow)
    } else {
        let freed = (v.free_collateral + unlocked_margin) as u64;
        match spec_add_signed(freed, pnl_delta) {
            Err(e) => Err(e),
            Ok(settled) => Ok(
                UserVault {
                    locked_collateral: (v.locked_collateral - unlocked_margin) as u64,
                    free_collateral: settled,
                    updated_at: now,
                    ..v
                },
            ),
        }
    }
}

/// What a revocation does to the delegate record: clears the active flag
/// and forces the replay-defeat counter to its maximum, so any proof bound
/// to an earlier counter value is permanently unusable.
pub open spec fn spec_revoke_delegate_record(
    d: DelegateAccount,
    owner_key: Address,
    delegate_pubkey: Address,
    now: i64,
) -> Result<DelegateAccount, VaultError> {
    if d.owner != owner_key {
        Err(VaultError::InvalidOwner)
    } else if d.delegate != delegate_pubkey {
        Err(VaultError::InvalidDelegate)
    } else {
        Ok(DelegateAccount { is_active: false, nonce: u64::MAX, updated_at: now, ..d })
    }
}

/// What an admin transfer does to the configuration: hands authority to
/// `new_admin`, rejecting a caller other than the current admin and the
/// all-zero sentinel (renouncing must be explicit).
pub open spec fn spec_transfer_admin_record(
    c: GlobalConfig,
    caller: Address,
    new_admin: Address,
) -> Result<GlobalConfig, VaultError> {
    if c.admin != caller {
        Err(VaultError::InvalidAuthority)
    } else if new_admin == Address::spec_zero() {
        Err(VaultError::InvalidAuthority)
    } else {
        Ok(GlobalConfig { admin: new_admin, ..c })
    }
}

/// What a renunciation does to the configuration: sets the admin to the
/// all-zero sentinel, after which no caller can mutate the configuration.
pub open spec fn spec_renounce_admin_record(c: GlobalConfig, caller: Address) -> Result<
    GlobalConfig,
    VaultError,
> {
    if c.admin != caller {
        Err(VaultError::InvalidAuthority)
    } else {
        Ok(GlobalConfig { admin: Address::spec_zero(), ..c })
    }
}


// ---------------------------------------------------------------------
// Account-level handlers.
// ---------------------------------------------------------------------

/// What a deposit hands back on success: the transfer to perform (owner's
/// asset account into the vault's, `amount` units, authorized by the
/// owner's signature) and the re-encoded vault record to store.
#[derive(Debug)]
pub struct DepositEffects {
    /// Units to move from the owner's asset account into the vault's.
    pub amount: u64,
    /// The updated vault record, encoded.
    pub vault_data: Vec<u8>,
}

/// What `process_deposit` returns, over decoded records. Account order:
/// vault record (writable), owner (signer), owner asset account, vault
/// asset account, configuration, token program.
pub open spec fn spec_process_deposit(
    program_id: Address,
    accounts: Seq<AccountView>,
    amount: u64,
    now: i64,
) -> Result<(UserVault, u64), ProgramError> {
    if accounts.len() < 6 {
        Err(ProgramError::NotEnoughAccountKeys)
    } else if !accounts[1].is_signer {
        Err(ProgramError::MissingRequiredSignature)
    } else if !accounts[0].is_writable {
        Err(ProgramError::InvalidAccountData)
    } else if accounts[0].owner != program_id {
        Err(ProgramError::IllegalOwner)
    } else if amount == 0 {
        Err(ProgramError::Vault(VaultError::InvalidAmount))
    } else if amount > MAX_DEPOSIT {
        Err(ProgramError::Vault(VaultError::InvalidAmount))
    } else {
        match spec_decode_user_vault(accounts[0].data@) {
            Err(e) => Err(ProgramError::Vault(e)),
            Ok(v) => if v.owner != accounts[1].key {
                Err(ProgramError::Vault(VaultError::InvalidOwner))
            } else {
                match spec_deposit_vault(v, amount, now) {
                    Err(e) => Err(ProgramError::Vault(e)),
                    Ok(v2) => match spec_unpack_token_account(accounts[3].data@) {
                        Err(e) => Err(e),
                        Ok(tok) => if v2.free_collateral + v2.locked_collateral > u64::MAX {
                            Err(ProgramError::Vault(VaultError::ArithmeticOverflow))
                        } else if tok.amount + amount != v2.free_collateral
                            + v2.locked_collateral {
                            Err(ProgramError::Vault(VaultError::InvalidTokenAccount))
                        } else {
                            Ok((v2, amount))
                        },
                    },
                }
            },
        }
    }
}

/// Whether a deposit handler's result matches its specification: equal
/// errors, or effects that encode exactly the specified vault record and
/// transfer amount.
pub open spec fn deposit_result_agrees(
    r: Result<DepositEffects, ProgramError>,
    s: Result<(UserVault, u64), ProgramError>,
) -> bool {
    match (r, s) {
        (Ok(eff), Ok((v2, amt))) => eff.vault_data@ == spec_encode_user_vault(v2) && eff.amount
            == amt,
        (Err(e1), Err(e2)) => e1 == e2,
        _ => false,
    }
}

/// Moves `amount` of the stable asset from the owner's account into the
/// vault and credits the vault's free collateral, re-checking balance
/// conservation against the vault asset account's post-transfer balance.
pub fn process_deposit(
    program_id: &Address,
    accounts: &Vec<AccountView>,
    amount: u64,
    now: i64,
) -> (r: Result<DepositEffects, ProgramError>)
    ensures
        deposit_result_agrees(r, spec_process_deposit(*program_id, accounts@, amount, now)),
{
    if accounts.len() < 6 {
        return Err(ProgramError::NotEnoughAccountKeys);
    }
    let vault_info = &accounts[0];
    let owner_info = &accounts[1];
    let vault_usdc_info = &accounts[3];
    match require_signer(owner_info) {
        Ok(_) => (),
        Err(e) => {
            return Err(e);
        },
    }
    match require_writable(vault_info) {
        Ok(_) => (),
        Err(e) => {
            return Err(e);
        },
    }
    match require_owner(vault_info, program_id) {
        Ok(_) => (),
        Err(e) => {
            return Err(e);
        },
    }
    if amount == 0 {
        return Err(ProgramError::Vault(VaultError::InvalidAmount));
    }
    if amount > MAX_DEPOSIT {
        return Err(ProgramError::Vault(VaultError::InvalidAmount));
    }
    let v = match decode_user_vault(vault_info.data.as_slice()) {
        Ok(v) => v,
        Err(e) => {
            return Err(ProgramError::Vault(e));
        },
    };
    if v.owner != owner_info.key {
        return Err(ProgramError::Vault(VaultError::InvalidOwner));
    }
    if v.is_frozen() {
        return Err(ProgramError::Vault(VaultError::VaultFrozen));
    }
    let total_deposit = match safe_add(v.total_deposit, amount) {
        Ok(x) => x,
        Err(e) => {
            return Err(ProgramError::Vault(e));
        },
    };
    let free_collateral = match safe_add(v.free_collateral, amount) {
        Ok(x) => x,
        Err(e) => {
            return Err(ProgramError::Vault(e));
        },
    };
    let mut v2 = v;
    v2.total_deposit = total_deposit;
    v2.free_collateral = free_collateral;
    v2.update_timestamp(now);
    proof {
        assert(Ok::<UserVault, VaultError>(v2) == spec_deposit_vault(v, amount, now));
    }
    let tok = match unpack_token_account(vault_usdc_info.data.as_slice()) {
        Ok(t) => t,
        Err(e) => {
            return Err(e);
        },
    };
    let expected = match safe_add(v2.free_collateral, v2.locked_collateral) {
        Ok(x) => x,
        Err(e) => {
            return Err(ProgramError::Vault(e));
        },
    };
    let actual_after = match tok.amount.checked_add(amount) {
        Some(x) => x,
        None => {
            return Err(ProgramError::Vault(VaultError::InvalidTokenAccount));
        },
    };
    if actual_after != expected {
        return Err(ProgramError::Vault(VaultError::InvalidTokenAccount));
    }
    Ok(DepositEffects { amount, vault_data: encode_user_vault(&v2) })
}

/// What a withdrawal hands back on success: the transfer to perform (from
/// the vault's asset account to the owner's, signed by the vault's derived
/// authority) and the re-encoded vault record to store.
#[derive(Debug)]
pub struct WithdrawEffects {
    /// Units to move from the vault's asset account to the owner's.
    pub amount: u64,
    /// The vault owner, whose address seeds the signing authority.
    pub owner: Address,
    /// Disambiguator byte of the vault's asset account derivation.
    pub usdc_bump: u8,
    /// The updated vault record, encoded.
    pub vault_data: Vec<u8>,
}

/// The part of a withdrawal after authorization: the destination must
/// belong to the vault's owner, the vault must cover the amount, and the
/// vault asset account's post-transfer balance must equal the new free
/// plus locked collateral.
pub open spec fn spec_withdraw_continue(
    v: UserVault,
    accounts: Seq<AccountView>,
    amount: u64,
    now: i64,
) -> Result<(UserVault, u64), ProgramError> {
    match spec_unpack_token_account(accounts[2].data@) {
        Err(e) => Err(e),
        Ok(dest) => if dest.owner != v.owner {
            Err(ProgramError::Vault(VaultError::InvalidTokenAccount))
        } else {
            match spec_withdraw_vault(v, amount, now) {
                Err(e) => Err(ProgramError::Vault(e)),
                Ok(v2) => match spec_unpack_token_account(accounts[3].data@) {
                    Err(e) => Err(e),
                    Ok(tok) => if v2.free_collateral + v2.locked_collateral > u64::MAX {
                        Err(ProgramError::Vault(VaultError::ArithmeticOverflow))
                    } else if tok.amount - amount != v2.free_collateral + v2.locked_collateral {
                        Err(ProgramError::Vault(VaultError::InvalidTokenAccount))
                    } else {
                        Ok((v2, amount))
                    },
                },
            }
        },
    }
}

/// What `process_withdraw` returns, over decoded records. Account order:
/// vault record (writable), signer, owner asset account, vault asset
/// account, configuration, token program, then optionally the delegate
/// record when the signer is not the owner.
pub open spec fn spec_process_withdraw(
    program_id: Address,
    accounts: Seq<AccountView>,
    amount: u64,
    current_slot: u64,
    now: i64,
) -> Result<(UserVault, u64), ProgramError> {
    if accounts.len() < 6 {
        Err(ProgramError::NotEnoughAccountKeys)
    } else if !accounts[1].is_signer {
        Err(ProgramError::MissingRequiredSignature)
    } else if !accounts[0].is_writable {
        Err(ProgramError::InvalidAccountData)
    } else if accounts[0].owner != program_id {
        Err(ProgramError::IllegalOwner)
    } else if amount == 0 {
        Err(ProgramError::Vault(VaultError::InvalidAmount))
    } else {
        match spec_decode_user_vault(accounts[0].data@) {
            Err(e) => Err(ProgramError::Vault(e)),
            Ok(v) => if v.spec_is_frozen() {
                Err(ProgramError::Vault(VaultError::VaultFrozen))
            } else if accounts[1].key == v.owner {
                spec_withdraw_continue(v, accounts, amount, now)
            } else if accounts.len() < 7 {
                Err(ProgramError::Vault(VaultError::InvalidDelegate))
            } else {
                match spec_decode_delegate(accounts[6].data@) {
                    Err(e) => Err(ProgramError::Vault(e)),
                    Ok(d) => match spec_check_delegate(
                        d,
                        accounts[1].key,
                        v.owner,
                        current_slot,
                        PERM_WITHDRAW,
                    ) {
                        Some(e) => Err(ProgramError::Vault(e)),
                        None => spec_withdraw_continue(v, accounts, amount, now),
                    },
                }
            },
        }
    }
}

/// Whether a withdrawal handler's result matches its specification.
pub open spec fn withdraw_result_agrees(
    r: Result<WithdrawEffects, ProgramError>,
    s: Result<(UserVault, u64), ProgramError>,
) -> bool {
    match (r, s) {
        (Ok(eff), Ok((v2, amt))) => eff.vault_data@ == spec_encode_user_vault(v2) && eff.amount
            == amt && eff.owner == v2.owner && eff.usdc_bump == v2.usdc_bump,
        (Err(e1), Err(e2)) => e1 == e2,
        _ => false,
    }
}

/// Moves `amount` of the stable asset from the vault back to an asset
/// account of the vault's owner — never to a third party — debiting the
/// free collateral. The caller is the owner, or a live, unexpired delegate
/// holding the withdraw capability. Balance conservation is re-checked
/// against the vault asset account's post-transfer balance.
pub fn process_withdraw(
    program_id: &Address,
    accounts: &Vec<AccountView>,
    amount: u64,
    current_slot: u64,
    now: i64,
) -> (r: Result<WithdrawEffects, ProgramError>)
    ensures
        withdraw_result_agrees(
            r,
            spec_process_withdraw(*program_id, accounts@, amount, current_slot, now),
        ),
{
    if accounts.len() < 6 {
        return Err(ProgramError::NotEnoughAccountKeys);
    }
    let vault_info = &accounts[0];
    let signer_info = &accounts[1];
    let owner_usdc_info = &accounts[2];
    let vault_usdc_info = &accounts[3];
    match require_signer(signer_info) {
        Ok(_) => (),
        Err(e) => {
            return Err(e);
        },
    }
    match require_writable(vault_info) {
        Ok(_) => (),
        Err(e) => {
            return Err(e);
        },
    }
    match require_owner(vault_info, program_id) {
        Ok(_) => (),
        Err(e) => {
            return Err(e);
        },
    }
    if amount == 0 {
        return Err(ProgramError::Vault(VaultError::InvalidAmount));
    }
    let v = match decode_user_vault(vault_info.data.as_slice()) {
        Ok(v) => v,
        Err(e) => {
            return Err(ProgramError::Vault(e));
        },
    };
    if v.is_frozen() {
        return Err(ProgramError::Vault(VaultError::VaultFrozen));
    }
    let is_owner = signer_info.key == v.owner;
    if !is_owner {
        if accounts.len() < 7 {
            return Err(ProgramError::Vault(VaultError::InvalidDelegate));
        }
        let delegate_info = &accounts[6];
        let d = match decode_delegate(delegate_info.data.as_slice()) {
            Ok(d) => d,
            Err(e) => {
                return Err(ProgramError::Vault(e));
            },
        };
        if d.delegate != signer_info.key {
            return Err(ProgramError::Vault(VaultError::InvalidDelegate));
        }
        if d.owner != v.owner {
            return Err(ProgramError::Vault(VaultError::InvalidOwner));
        }
        if !d.is_valid(current_slot) {
            return Err(ProgramError::Vault(VaultError::DelegateExpired));
        }
        if !d.has_permission(PERM_WITHDRAW) {
            return Err(ProgramError::Vault(VaultError::PermissionDenied));
        }
    }
    let dest = match unpack_token_account(owner_usdc_info.data.as_slice()) {
        Ok(t) => t,
        Err(e) => {
            return Err(e);
        },
    };
    if dest.owner != v.owner {
        return Err(ProgramError::Vault(VaultError::InvalidTokenAccount));
    }
    if v.free_collateral < amount {
        return Err(ProgramError::Vault(VaultError::InsufficientFreeCollateral));
    }
    let free_collateral = match safe_sub(v.free_collateral, amount) {
        Ok(x) => x,
        Err(e) => {
            return Err(ProgramError::Vault(e));
        },
    };
    let total_withdrawn = match safe_add(v.total_withdrawn, amount) {
        Ok(x) => x,
        Err(e) => {
            return Err(ProgramError::Vault(e));
        },
    };
    let mut v2 = v;
    v2.free_collateral = free_collateral;
    v2.total_withdrawn = total_withdrawn;
    v2.update_timestamp(now);
    proof {
        assert(Ok::<UserVault, VaultError>(v2) == spec_withdraw_vault(v, amount, now));
    }
    let tok = match unpack_token_account(vault_usdc_info.data.as_slice()) {
        Ok(t) => t,
        Err(e) => {
            return Err(e);
        },
    };
    let expected = match safe_add(v2.free_collateral, v2.locked_collateral) {
        Ok(x) => x,
        Err(e) => {
            return Err(ProgramError::Vault(e));
        },
    };
    let actual_after = match tok.amount.checked_sub(amount) {
        Some(x) => x,
        None => {
            return Err(ProgramError::Vault(VaultError::InvalidTokenAccount));
        },
    };
    if actual_after != expected {
        return Err(ProgramError::Vault(VaultError::InvalidTokenAccount));
    }
    Ok(
        WithdrawEffects {
            amount,
            owner: v2.owner,
            usdc_bump: v2.usdc_bump,
            vault_data: encode_user_vault(&v2),
        },
    )
}

/// What a margin lock hands back on success: the re-encoded vault record,
/// and the re-encoded delegate record when the caller was a delegate. No
/// token movement: locking is a pure internal transfer between the two
/// collateral counters.
#[derive(Debug)]
pub struct LockMarginEffects {
    /// The updated vault record, encoded.
    pub vault_data: Vec<u8>,
    /// The updated delegate record, encoded; absent for an owner call.
    pub delegate_data: Option<Vec<u8>>,
}

/// What `process_lock_margin` returns, over decoded records. Account
/// order: vault record (writable), signer, delegate record (used only when
/// the signer is not the owner), configuration, clock.
pub open spec fn spec_process_lock_margin(
    program_id: Address,
    accounts: Seq<AccountView>,
    required_margin: u64,
    required_notional: u64,
    current_slot: u64,
    now: i64,
) -> Result<(UserVault, Option<DelegateAccount>), ProgramError> {
    if accounts.len() < 5 {
        Err(ProgramError::NotEnoughAccountKeys)
    } else if !accounts[1].is_signer {
        Err(ProgramError::MissingRequiredSignature)
    } else if !accounts[0].is_writable {
        Err(ProgramError::InvalidAccountData)
    } else if accounts[0].owner != program_id {
        Err(ProgramError::IllegalOwner)
    } else {
        match spec_decode_user_vault(accounts[0].data@) {
            Err(e) => Err(ProgramError::Vault(e)),
            Ok(v) => if v.spec_is_frozen() {
                Err(ProgramError::Vault(VaultError::VaultFrozen))
            } else if accounts[1].key == v.owner {
                match spec_lock_vault(v, required_margin, now) {
                    Err(e) => Err(ProgramError::Vault(e)),
                    Ok(v2) => Ok((v2, None)),
                }
            } else if !accounts[2].is_writable {
                Err(ProgramError::InvalidAccountData)
            } else {
                match spec_decode_delegate(accounts[2].data@) {
                    Err(e) => Err(ProgramError::Vault(e)),
                    Ok(d) => match spec_check_delegate(
                        d,
                        accounts[1].key,
                        v.owner,
                        current_slot,
                        PERM_TRADE,
                    ) {
                        Some(e) => Err(ProgramError::Vault(e)),
                        None => match spec_lock_delegate(d, required_notional, now) {
                            Err(e) => Err(ProgramError::Vault(e)),
                            Ok(d2) => match spec_lock_vault(v, required_margin, now) {
                                Err(e) => Err(ProgramError::Vault(e)),
                                Ok(v2) => Ok((v2, Some(d2))),
                            },
                        },
                    },
                }
            },
        }
    }
}

/// Whether a lock or unlock handler's result matches its specification.
pub open spec fn margin_result_agrees(
    r: Result<LockMarginEffects, ProgramError>,
    s: Result<(UserVault, Option<DelegateAccount>), ProgramError>,
) -> bool {
    match (r, s) {
        (Ok(eff), Ok((v2, od))) => eff.vault_data@ == spec_encode_user_vault(v2) && (match (
            eff.delegate_data,
            od,
        ) {
            (Some(b), Some(d2)) => b@ == spec_encode_delegate(d2),
            (None, None) => true,
            _ => false,
        }),
        (Err(e1), Err(e2)) => e1 == e2,
        _ => false,
    }
}

/// Commits `required_margin` of free collateral as locked margin, on
/// behalf of the owner or of a live, unexpired delegate holding the trade
/// capability whose notional cap covers `required_notional` more exposure.
/// The free-plus-locked sum is unchanged, so balance conservation is
/// untouched and deliberately not re-checked.
pub fn process_lock_margin(
    program_id: &Address,
    accounts: &Vec<AccountView>,
    required_margin: u64,
    required_notional: u64,
    current_slot: u64,
    now: i64,
) -> (r: Result<LockMarginEffects, ProgramError>)
    ensures
        margin_result_agrees(
            r,
            spec_process_lock_margin(
                *program_id,
                accounts@,
                required_margin,
                required_notional,
                current_slot,
                now,
            ),
        ),
{
    if accounts.len() < 5 {
        return Err(ProgramError::NotEnoughAccountKeys);
    }
    let vault_info = &accounts[0];
    let signer_info = &accounts[1];
    match require_signer(signer_info) {
        Ok(_) => (),
        Err(e) => {
            return Err(e);
        },
    }
    match require_writable(vault_info) {
        Ok(_) => (),
        Err(e) => {
            return Err(e);
        },
    }
    match require_owner(vault_info, program_id) {
        Ok(_) => (),
        Err(e) => {
            return Err(e);
        },
    }
    let v = match decode_user_vault(vault_info.data.as_slice()) {
        Ok(v) => v,
        Err(e) => {
            return Err(ProgramError::Vault(e));
        },
    };
    if v.is_frozen() {
        return Err(ProgramError::Vault(VaultError::VaultFrozen));
    }
    let is_owner = signer_info.key == v.owner;
    let delegate_data: Option<Vec<u8>> = if is_owner {
        None
    } else {
        let delegate_info = &accounts[2];
        match require_writable(delegate_info) {
            Ok(_) => (),
            Err(e) => {
                return Err(e);
            },
        }
        let d = match decode_delegate(delegate_info.data.as_slice()) {
            Ok(d) => d,
            Err(e) => {
                return Err(ProgramError::Vault(e));
            },
        };
        if d.delegate != signer_info.key {
            return Err(ProgramError::Vault(VaultError::InvalidDelegate));
        }
        if d.owner != v.owner {
            return Err(ProgramError::Vault(VaultError::InvalidOwner));
        }
        if !d.is_valid(current_slot) {
            return Err(ProgramError::Vault(VaultError::DelegateExpired));
        }
        if !d.has_permission(PERM_TRADE) {
            return Err(ProgramError::Vault(VaultError::PermissionDenied));
        }
        if !d.can_use_notional(required_notional) {
            return Err(ProgramError::Vault(VaultError::NotionalLimitExceeded));
        }
        let used_notional = match safe_add(d.used_notional, required_notional) {
            Ok(x) => x,
            Err(e) => {
                return Err(ProgramError::Vault(e));
            },
        };
        let mut d2 = d;
        d2.used_notional = used_notional;
        d2.update_timestamp(now);
        proof {
            assert(Ok::<DelegateAccount, VaultError>(d2) == spec_lock_delegate(
                d,
                required_notional,
                now,
            ));
        }
        Some(encode_delegate(&d2))
    };
    if v.free_collateral < required_margin {
        return Err(ProgramError::Vault(VaultError::InsufficientFreeCollateral));
    }
    let free_collateral = match safe_sub(v.free_collateral, required_margin) {
        Ok(x) => x,
        Err(e) => {
            return Err(ProgramError::Vault(e));
        },
    };
    let locked_collateral = match safe_add(v.locked_collateral, required_margin) {
        Ok(x) => x,
        Err(e) => {
            return Err(ProgramError::Vault(e));
        },
    };
    let mut v2 = v;
    v2.free_collateral = free_collateral;
    v2.locked_collateral = locked_collateral;
    v2.update_timestamp(now);
    proof {
        assert(Ok::<UserVault, VaultError>(v2) == spec_lock_vault(v, required_margin, now));
    }
    Ok(LockMarginEffects { vault_data: encode_user_vault(&v2), delegate_data })
}

/// What `process_unlock_margin_and_update_pnl` returns, over decoded
/// records. Account order: vault record (writable), signer, delegate
/// record (used only when the signer is not the owner), configuration.
pub open spec fn spec_process_unlock_margin(
    program_id: Address,
    accounts: Seq<AccountView>,
    unlocked_margin: u64,
    pnl_delta: i64,
    notional_delta: i64,
    current_slot: u64,
    now: i64,
) -> Result<(UserVault, Option<DelegateAccount>), ProgramError> {
    if accounts.len() < 4 {
        Err(ProgramError::NotEnoughAccountKeys)
    } else if !accounts[1].is_signer {
        Err(ProgramError::MissingRequiredSignature)
    } else if !accounts[0].is_writable {
        Err(ProgramError::InvalidAccountData)
    } else if accounts[0].owner != program_id {
        Err(ProgramError::IllegalOwner)
    } else {
        match spec_decode_user_vault(accounts[0].data@) {
            Err(e) => Err(ProgramError::Vault(e)),
            Ok(v) => if v.spec_is_frozen() {
                Err(ProgramError::Vault(VaultError::VaultFrozen))
            } else if accounts[1].key == v.owner {
                match spec_unlock_vault(v, unlocked_margin, pnl_delta, now) {
                    Err(e) => Err(ProgramError::Vault(e)),
                    Ok(v2) => Ok((v2, None)),
                }
            } else if !accounts[2].is_writable {
                Err(ProgramError::InvalidAccountData)
            } else {
                match spec_decode_delegate(accounts[2].data@) {
                    Err(e) => Err(ProgramError::Vault(e)),
                    Ok(d) => match spec_check_delegate(
                        d,
                        accounts[1].key,
                        v.owner,
                        current_slot,
                        PERM_TRADE,
                    ) {
                        Some(e) => Err(ProgramError::Vault(e)),
                        None => match spec_unlock_delegate(d, notional_delta, now) {
                            Err(e) => Err(ProgramError::Vault(e)),
                            Ok(d2) => match spec_unlock_vault(v, unlocked_margin, pnl_delta, now) {
                                Err(e) => Err(ProgramError::Vault(e)),
                                Ok(v2) => Ok((v2, Some(d2))),
                            },
                        },
                    },
                }
            },
        }
    }
}

/// Releases `unlocked_margin` from locked back to free collateral and
/// settles `pnl_delta` against the free collateral, on behalf of the owner
/// or of a live, unexpired delegate holding the trade capability, whose
/// exposure consumption is adjusted by `notional_delta`. A frozen vault
/// blocks the call. Conservation against the asset balance is deliberately
/// not re-checked: the asset moves in a separate settlement flow.
pub fn process_unlock_margin_and_update_pnl(
    program_id: &Address,
    accounts: &Vec<AccountView>,
    unlocked_margin: u64,
    pnl_delta: i64,
    notional_delta: i64,
    current_slot: u64,
    now: i64,
) -> (r: Result<LockMarginEffects, ProgramError>)
    ensures
        margin_result_agrees(
            r,
            spec_process_unlock_margin(
                *program_id,
                accounts@,
                unlocked_margin,
                pnl_delta,
                notional_delta,
                current_slot,
                now,
            ),
        ),
{
    if accounts.len() < 4 {
        return Err(ProgramError::NotEnoughAccountKeys);
    }
    let vault_info = &accounts[0];
    let signer_info = &accounts[1];
    match require_signer(signer_info) {
        Ok(_) => (),
        Err(e) => {
            return Err(e);
        },
    }
    match require_writable(vault_info) {
        Ok(_) => (),
        Err(e) => {
            return Err(e);
        },
    }
    match require_owner(vault_info, program_id) {
        Ok(_) => (),
        Err(e) => {
            return Err(e);
        },
    }
    let v = match decode_user_vault(vault_info.data.as_slice()) {
        Ok(v) => v,
        Err(e) => {
            return Err(ProgramError::Vault(e));
        },
    };
    if v.is_frozen() {
        return Err(ProgramError::Vault(VaultError::VaultFrozen));
    }
    let is_owner = signer_info.key == v.owner;
    let delegate_data: Option<Vec<u8>> = if is_owner {
        None
    } else {
        let delegate_info = &accounts[2];
        match require_writable(delegate_info) {
            Ok(_) => (),
            Err(e) => {
                return Err(e);
            },
        }
        let d = match decode_delegate(delegate_info.data.as_slice()) {
            Ok(d) => d,
            Err(e) => {
                return Err(ProgramError::Vault(e));
            },
        };
        if d.delegate != signer_info.key {
            return Err(ProgramError::Vault(VaultError::InvalidDelegate));
        }
        if d.owner != v.owner {
            return Err(ProgramError::Vault(VaultError::InvalidOwner));
        }
        if !d.is_valid(current_slot) {
            return Err(ProgramError::Vault(VaultError::DelegateExpired));
        }
        if !d.has_permission(PERM_TRADE) {
            return Err(ProgramError::Vault(VaultError::PermissionDenied));
        }
        let used_notional = if notional_delta < 0 {
            let magnitude: u64 = if notional_delta == i64::MIN {
                9_223_372_036_854_775_808
            } else {
                (-notional_delta) as u64
            };
            match safe_sub(d.used_notional, magnitude) {
                Ok(x) => x,
                Err(e) => {
                    return Err(ProgramError::Vault(e));
                },
            }
        } else {
            match safe_add(d.used_notional, notional_delta as u64) {
                Ok(x) => x,
                Err(e) => {
                    return Err(ProgramError::Vault(e));
                },
            }
        };
        let mut d2 = d;
        d2.used_notional = used_notional;
        d2.update_timestamp(now);
        proof {
            assert(Ok::<DelegateAccount, VaultError>(d2) == spec_unlock_delegate(
                d,
                notional_delta,
                now,
            ));
        }
        Some(encode_delegate(&d2))
    };
    let locked_collateral = match safe_sub(v.locked_collateral, unlocked_margin) {
        Ok(x) => x,
        Err(e) => {
            return Err(ProgramError::Vault(e));
        },
    };
    let freed = match safe_add(v.free_collateral, unlocked_margin) {
        Ok(x) => x,
        Err(e) => {
            return Err(ProgramError::Vault(e));
        },
    };
    let settled = match safe_add_signed(freed, pnl_delta) {
        Ok(x) => x,
        Err(e) => {
            return Err(ProgramError::Vault(e));
        },
    };
    let mut v2 = v;
    v2.locked_collateral = locked_collateral;
    v2.free_collateral = settled;
    v2.update_timestamp(now);
    proof {
        assert(Ok::<UserVault, VaultError>(v2) == spec_unlock_vault(
            v,
            unlocked_margin,
            pnl_delta,
            now,
        ));
    }
    Ok(LockMarginEffects { vault_data: encode_user_vault(&v2), delegate_data })
}

/// What initialization hands back on success: the derivation disambiguator
/// (the record account must still be created at the derived address) and
/// the encoded configuration record to store.
#[derive(Debug)]
pub struct InitializeGlobalConfigEffects {
    /// Disambiguator byte of the configuration record's derived address.
    pub bump: u8,
    /// The new configuration record, encoded.
    pub config_data: Vec<u8>,
}

/// What `process_initialize_global_config` returns, over decoded records.
/// Account order: configuration record (writable), admin (signer, pays),
/// system program, rent parameters.
pub open spec fn spec_process_initialize_global_config(
    program_id: Address,
    accounts: Seq<AccountView>,
    usdc_mint: Address,
    now: i64,
) -> Result<(GlobalConfig, u8), ProgramError> {
    if accounts.len() < 4 {
        Err(ProgramError::NotEnoughAccountKeys)
    } else if !accounts[1].is_signer {
        Err(ProgramError::MissingRequiredSignature)
    } else if !accounts[0].is_writable {
        Err(ProgramError::InvalidAccountData)
    } else if accounts[2].key != Address::spec_zero() {
        Err(ProgramError::IncorrectProgramId)
    } else {
        match spec_verify_pda(accounts[0].key, program_id, spec_global_config_seeds()) {
            Err(e) => Err(e),
            Ok(bump) => if accounts[0].data@.len() > 0 {
                Err(ProgramError::Vault(VaultError::AlreadyInitialized))
            } else {
                Ok(
                    (
                        GlobalConfig {
                            discriminator: GLOBAL_CONFIG_DISCRIMINATOR,
                            version: RECORD_VERSION,
                            bump,
                            admin: accounts[1].key,
                            usdc_mint,
                            created_at: now,
                        },
                        bump,
                    ),
                )
            },
        }
    }
}

/// Whether an initialization handler's result matches its specification.
pub open spec fn initialize_result_agrees(
    r: Result<InitializeGlobalConfigEffects, ProgramError>,
    s: Result<(GlobalConfig, u8), ProgramError>,
) -> bool {
    match (r, s) {
        (Ok(eff), Ok((c, bump))) => eff.config_data@ == spec_encode_global_config(c) && eff.bump
            == bump,
        (Err(e1), Err(e2)) => e1 == e2,
        _ => false,
    }
}

/// Creates the configuration singleton under the caller's authority,
/// callable exactly once: the record account's address must derive from
/// the fixed domain seed, and must not already hold data.
pub fn process_initialize_global_config(
    program_id: &Address,
    accounts: &Vec<AccountView>,
    usdc_mint: &Address,
    now: i64,
) -> (r: Result<InitializeGlobalConfigEffects, ProgramError>)
    ensures
        initialize_result_agrees(
            r,
            spec_process_initialize_global_config(*program_id, accounts@, *usdc_mint, now),
        ),
{
    if accounts.len() < 4 {
        return Err(ProgramError::NotEnoughAccountKeys);
    }
    let global_config_info = &accounts[0];
    let admin_info = &accounts[1];
    let system_program_info = &accounts[2];
    match require_signer(admin_info) {
        Ok(_) => (),
        Err(e) => {
            return Err(e);
        },
    }
    match require_writable(global_config_info) {
        Ok(_) => (),
        Err(e) => {
            return Err(e);
        },
    }
    if system_program_info.key != Address::zero() {
        return Err(ProgramError::IncorrectProgramId);
    }
    let seeds = global_config_seeds();
    let bump = match verify_pda(&global_config_info.key, program_id, &seeds) {
        Ok(b) => b,
        Err(e) => {
            return Err(e);
        },
    };
    if global_config_info.data.len() > 0 {
        return Err(ProgramError::Vault(VaultError::AlreadyInitialized));
    }
    let config = GlobalConfig::new(admin_info.key, *usdc_mint, bump, now);
    Ok(InitializeGlobalConfigEffects { bump, config_data: encode_global_config(&config) })
}

/// What vault creation hands back on success: the two derivation
/// disambiguators (the vault record and its asset account must still be
/// created at the derived addresses) and the encoded zeroed vault record.
#[derive(Debug)]
pub struct CreateVaultEffects {
    /// Disambiguator byte of the vault record's derived address.
    pub vault_bump: u8,
    /// Disambiguator byte of the vault asset account's derived address.
    pub usdc_bump: u8,
    /// The new vault record, encoded.
    pub vault_data: Vec<u8>,
}

/// What `process_create_vault` returns, over decoded records. Account
/// order: vault record (writable), vault asset account (writable), owner
/// (signer, pays), configuration, asset mint, system program, token
/// program, rent parameters.
pub open spec fn spec_process_create_vault(
    program_id: Address,
    accounts: Seq<AccountView>,
    now: i64,
) -> Result<(UserVault, u8, u8), ProgramError> {
    if accounts.len() < 8 {
        Err(ProgramError::NotEnoughAccountKeys)
    } else if !accounts[2].is_signer {
        Err(ProgramError::MissingRequiredSignature)
    } else if !accounts[0].is_writable {
        Err(ProgramError::InvalidAccountData)
    } else if !accounts[1].is_writable {
        Err(ProgramError::InvalidAccountData)
    } else {
        match spec_decode_global_config(accounts[3].data@) {
            Err(e) => Err(ProgramError::Vault(e)),
            Ok(config) => if config.usdc_mint != accounts[4].key {
                Err(ProgramError::Vault(VaultError::InvalidTokenMint))
            } else {
                match spec_verify_pda(accounts[0].key, program_id, spec_vault_seeds(accounts[2].key)) {
                    Err(e) => Err(e),
                    Ok(vault_bump) => if accounts[0].data@.len() > 0 {
                        Err(ProgramError::Vault(VaultError::AccountAlreadyExists))
                    } else {
                        match spec_verify_pda(
                            accounts[1].key,
                            program_id,
                            spec_vault_usdc_seeds(accounts[2].key),
                        ) {
                            Err(e) => Err(e),
                            Ok(usdc_bump) => if accounts[1].data@.len() > 0 {
                                Err(ProgramError::Vault(VaultError::AccountAlreadyExists))
                            } else {
                                Ok(
                                    (
                                        UserVault {
                                            discriminator: USER_VAULT_DISCRIMINATOR,
                                            version: RECORD_VERSION,
                                            bump: vault_bump,
                                            usdc_bump,
                                            owner: accounts[2].key,
                                            usdc_vault: accounts[1].key,
                                            total_deposit: 0,
                                            total_withdrawn: 0,
                                            free_collateral: 0,
                                            locked_collateral: 0,
                                            flags: 0,
                                            created_at: now,
                                            updated_at: now,
                                        },
                                        vault_bump,
                                        usdc_bump,
                                    ),
                                )
                            },
                        }
                    },
                }
            },
        }
    }
}

/// Whether a vault-creation handler's result matches its specification.
pub open spec fn create_vault_result_agrees(
    r: Result<CreateVaultEffects, ProgramError>,
    s: Result<(UserVault, u8, u8), ProgramError>,
) -> bool {
    match (r, s) {
        (Ok(eff), Ok((v, vault_bump, usdc_bump))) => eff.vault_data@ == spec_encode_user_vault(v)
            && eff.vault_bump == vault_bump && eff.usdc_bump == usdc_bump,
        (Err(e1), Err(e2)) => e1 == e2,
        _ => false,
    }
}

/// Creates the caller's vault: both the record address and the paired
/// asset-account address must derive from the owner's identity, and
/// neither may already hold data. The asset account's transfer authority
/// is its own derived address, so the vault can later authorize outgoing
/// transfers purely by proving derivation.
pub fn process_create_vault(
    program_id: &Address,
    accounts: &Vec<AccountView>,
    now: i64,
) -> (r: Result<CreateVaultEffects, ProgramError>)
    ensures
        create_vault_result_agrees(r, spec_process_create_vault(*program_id, accounts@, now)),
{
    if accounts.len() < 8 {
        return Err(ProgramError::NotEnoughAccountKeys);
    }
    let vault_info = &accounts[0];
    let vault_usdc_info = &accounts[1];
    let owner_info = &accounts[2];
    let global_config_info = &accounts[3];
    let usdc_mint_info = &accounts[4];
    match require_signer(owner_info) {
        Ok(_) => (),
        Err(e) => {
            return Err(e);
        },
    }
    match require_writable(vault_info) {
        Ok(_) => (),
        Err(e) => {
            return Err(e);
        },
    }
    match require_writable(vault_usdc_info) {
        Ok(_) => (),
        Err(e) => {
            return Err(e);
        },
    }
    let config = match decode_global_config(global_config_info.data.as_slice()) {
        Ok(c) => c,
        Err(e) => {
            return Err(ProgramError::Vault(e));
        },
    };
    if config.usdc_mint != usdc_mint_info.key {
        return Err(ProgramError::Vault(VaultError::InvalidTokenMint));
    }
    let v_seeds = vault_seeds(&owner_info.key);
    let vault_bump = match verify_pda(&vault_info.key, program_id, &v_seeds) {
        Ok(b) => b,
        Err(e) => {
            return Err(e);
        },
    };
    if vault_info.data.len() > 0 {
        return Err(ProgramError::Vault(VaultError::AccountAlreadyExists));
    }
    let u_seeds = vault_usdc_seeds(&owner_info.key);
    let usdc_bump = match verify_pda(&vault_usdc_info.key, program_id, &u_seeds) {
        Ok(b) => b,
        Err(e) => {
            return Err(e);
        },
    };
    if vault_usdc_info.data.len() > 0 {
        return Err(ProgramError::Vault(VaultError::AccountAlreadyExists));
    }
    let vault = UserVault::new(owner_info.key, vault_usdc_info.key, vault_bump, usdc_bump, now);
    Ok(
        CreateVaultEffects {
            vault_bump,
            usdc_bump,
            vault_data: encode_user_vault(&vault),
        },
    )
}

/// What a delegate upsert hands back on success: whether a record account
/// must still be created, the derivation disambiguator, and the encoded
/// authorization record to store.
#[derive(Debug)]
pub struct UpsertDelegateEffects {
    /// Whether the record is new (an account must be created for it).
    pub created: bool,
    /// Disambiguator byte of the record's derived address.
    pub bump: u8,
    /// The authorization record, encoded.
    pub delegate_data: Vec<u8>,
}

/// What `process_upsert_delegate` returns, over decoded records. Account
/// order: delegate record (writable), vault record (writable), owner
/// (signer, pays), configuration, system program. An existing record keeps
/// its consumed exposure; a fresh one starts at zero.
pub open spec fn spec_process_upsert_delegate(
    program_id: Address,
    accounts: Seq<AccountView>,
    delegate_pubkey: Address,
    permissions: u64,
    max_notional: u64,
    expiry_slot: u64,
    current_slot: u64,
    now: i64,
) -> Result<(DelegateAccount, bool, u8), ProgramError> {
    if accounts.len() < 5 {
        Err(ProgramError::NotEnoughAccountKeys)
    } else if !accounts[2].is_signer {
        Err(ProgramError::MissingRequiredSignature)
    } else if !accounts[0].is_writable {
        Err(ProgramError::InvalidAccountData)
    } else if !accounts[1].is_writable {
        Err(ProgramError::InvalidAccountData)
    } else if accounts[1].owner != program_id {
        Err(ProgramError::IllegalOwner)
    } else if permissions == 0 {
        Err(ProgramError::Vault(VaultError::InvalidPermissions))
    } else if max_notional == 0 {
        Err(ProgramError::Vault(VaultError::InvalidMaxNotional))
    } else if max_notional > MAX_NOTIONAL_LIMIT {
        Err(ProgramError::Vault(VaultError::InvalidMaxNotional))
    } else {
        match spec_decode_user_vault(accounts[1].data@) {
            Err(e) => Err(ProgramError::Vault(e)),
            Ok(v) => if v.owner != accounts[2].key {
                Err(ProgramError::Vault(VaultError::InvalidOwner))
            } else if expiry_slot <= current_slot {
                Err(ProgramError::Vault(VaultError::InvalidExpirySlot))
            } else if expiry_slot > current_slot + MAX_EXPIRY_DURATION {
                Err(ProgramError::Vault(VaultError::InvalidExpirySlot))
            } else {
                match spec_verify_pda(
                    accounts[0].key,
                    program_id,
                    spec_delegate_seeds(accounts[2].key, delegate_pubkey),
                ) {
                    Err(e) => Err(e),
                    Ok(bump) => if accounts[0].data@.len() == 0 {
                        Ok(
                            (
                                DelegateAccount {
                                    discriminator: DELEGATE_DISCRIMINATOR,
                                    version: RECORD_VERSION,
                                    bump,
                                    owner: accounts[2].key,
                                    vault: accounts[1].key,
                                    delegate: delegate_pubkey,
                                    is_active: true,
                                    permissions,
                                    max_notional,
                                    used_notional: 0,
                                    expiry_slot,
                                    nonce: 0,
                                    created_at: now,
                                    updated_at: now,
                                },
                                true,
                                bump,
                            ),
                        )
                    } else {
                        match spec_decode_delegate(accounts[0].data@) {
                            Err(e) => Err(ProgramError::Vault(e)),
                            Ok(d) => if d.owner != accounts[2].key {
                                Err(ProgramError::Vault(VaultError::InvalidOwner))
                            } else {
                                Ok(
                                    (
                                        DelegateAccount {
                                            permissions,
                                            max_notional,
                                            expiry_slot,
                                            is_active: true,
                                            updated_at: now,
                                            ..d
                                        },
                                        false,
                                        bump,
                                    ),
                                )
                            },
                        }
                    },
                }
            },
        }
    }
}

/// Whether a delegate-upsert handler's result matches its specification.
pub open spec fn upsert_result_agrees(
    r: Result<UpsertDelegateEffects, ProgramError>,
    s: Result<(DelegateAccount, bool, u8), ProgramError>,
) -> bool {
    match (r, s) {
        (Ok(eff), Ok((d, created, bump))) => eff.delegate_data@ == spec_encode_delegate(d)
            && eff.created == created && eff.bump == bump,
        (Err(e1), Err(e2)) => e1 == e2,
        _ => false,
    }
}

/// Creates or updates, owner-only, the authorization record binding
/// `delegate_pubkey` to the owner's vault: capability bits, notional cap,
/// and a bounded, strictly-future expiry. Updating preserves the consumed
/// exposure, so re-granting never wipes risk history.
pub fn process_upsert_delegate(
    program_id: &Address,
    accounts: &Vec<AccountView>,
    delegate_pubkey: &Address,
    permissions: u64,
    max_notional: u64,
    expiry_slot: u64,
    current_slot: u64,
    now: i64,
) -> (r: Result<UpsertDelegateEffects, ProgramError>)
    ensures
        upsert_result_agrees(
            r,
            spec_process_upsert_delegate(
                *program_id,
                accounts@,
                *delegate_pubkey,
                permissions,
                max_notional,
                expiry_slot,
                current_slot,
                now,
            ),
        ),
{
    if accounts.len() < 5 {
        return Err(ProgramError::NotEnoughAccountKeys);
    }
    let delegate_info = &accounts[0];
    let vault_info = &accounts[1];
    let owner_info = &accounts[2];
    match require_signer(owner_info) {
        Ok(_) => (),
        Err(e) => {
            return Err(e);
        },
    }
    match require_writable(delegate_info) {
        Ok(_) => (),
        Err(e) => {
            return Err(e);
        },
    }
    match require_writable(vault_info) {
        Ok(_) => (),
        Err(e) => {
            return Err(e);
        },
    }
    match require_owner(vault_info, program_id) {
        Ok(_) => (),
        Err(e) => {
            return Err(e);
        },
    }
    if permissions == 0 {
        return Err(ProgramError::Vault(VaultError::InvalidPermissions));
    }
    if max_notional == 0 {
        return Err(ProgramError::Vault(VaultError::InvalidMaxNotional));
    }
    if max_notional > MAX_NOTIONAL_LIMIT {
        return Err(ProgramError::Vault(VaultError::InvalidMaxNotional));
    }
    let v = match decode_user_vault(vault_info.data.as_slice()) {
        Ok(v) => v,
        Err(e) => {
            return Err(ProgramError::Vault(e));
        },
    };
    if v.owner != owner_info.key {
        return Err(ProgramError::Vault(VaultError::InvalidOwner));
    }
    if expiry_slot <= current_slot {
        return Err(ProgramError::Vault(VaultError::InvalidExpirySlot));
    }
    if expiry_slot - current_slot > MAX_EXPIRY_DURATION {
        return Err(ProgramError::Vault(VaultError::InvalidExpirySlot));
    }
    let d_seeds = delegate_seeds(&owner_info.key, delegate_pubkey);
    let bump = match verify_pda(&delegate_info.key, program_id, &d_seeds) {
        Ok(b) => b,
        Err(e) => {
            return Err(e);
        },
    };
    if delegate_info.data.len() == 0 {
        let d = DelegateAccount::new(
            owner_info.key,
            vault_info.key,
            *delegate_pubkey,
            permissions,
            max_notional,
            expiry_slot,
            bump,
            now,
        );
        Ok(UpsertDelegateEffects { created: true, bump, delegate_data: encode_delegate(&d) })
    } else {
        let d = match decode_delegate(delegate_info.data.as_slice()) {
            Ok(d) => d,
            Err(e) => {
                return Err(ProgramError::Vault(e));
            },
        };
        if d.owner != owner_info.key {
            return Err(ProgramError::Vault(VaultError::InvalidOwner));
        }
        let mut d2 = d;
        d2.permissions = permissions;
        d2.max_notional = max_notional;
        d2.expiry_slot = expiry_slot;
        d2.is_active = true;
        d2.update_timestamp(now);
        Ok(UpsertDelegateEffects { created: false, bump, delegate_data: encode_delegate(&d2) })
    }
}

/// What a revocation hands back on success: the encoded deactivated
/// authorization record to store.
#[derive(Debug)]
pub struct RevokeDelegateEffects {
    /// The deactivated authorization record, encoded.
    pub delegate_data: Vec<u8>,
}

/// What `process_revoke_delegate` returns, over decoded records. Account
/// order: delegate record (writable), vault record, owner (signer),
/// configuration.
pub open spec fn spec_process_revoke_delegate(
    program_id: Address,
    accounts: Seq<AccountView>,
    delegate_pubkey: Address,
    now: i64,
) -> Result<DelegateAccount, ProgramError> {
    if accounts.len() < 4 {
        Err(ProgramError::NotEnoughAccountKeys)
    } else if !accounts[2].is_signer {
        Err(ProgramError::MissingRequiredSignature)
    } else if !accounts[0].is_writable {
        Err(ProgramError::InvalidAccountData)
    } else if accounts[0].owner != program_id {
        Err(ProgramError::IllegalOwner)
    } else {
        match spec_decode_user_vault(accounts[1].data@) {
            Err(e) => Err(ProgramError::Vault(e)),
            Ok(v) => if v.owner != accounts[2].key {
                Err(ProgramError::Vault(VaultError::InvalidOwner))
            } else {
                match spec_decode_delegate(accounts[0].data@) {
                    Err(e) => Err(ProgramError::Vault(e)),
                    Ok(d) => match spec_revoke_delegate_record(
                        d,
                        accounts[2].key,
                        delegate_pubkey,
                        now,
                    ) {
                        Err(e) => Err(ProgramError::Vault(e)),
                        Ok(d2) => Ok(d2),
                    },
                }
            },
        }
    }
}

/// Whether a revocation handler's result matches its specification.
pub open spec fn revoke_result_agrees(
    r: Result<RevokeDelegateEffects, ProgramError>,
    s: Result<DelegateAccount, ProgramError>,
) -> bool {
    match (r, s) {
        (Ok(eff), Ok(d2)) => eff.delegate_data@ == spec_encode_delegate(d2),
        (Err(e1), Err(e2)) => e1 == e2,
        _ => false,
    }
}

/// Revokes, owner-only, the authorization record naming
/// `delegate_pubkey`: clears the active flag and forces the replay-defeat
/// counter to its maximum, so any proof bound to an earlier counter value
/// is permanently unusable. The record is kept, never deleted.
pub fn process_revoke_delegate(
    program_id: &Address,
    accounts: &Vec<AccountView>,
    delegate_pubkey: &Address,
    now: i64,
) -> (r: Result<RevokeDelegateEffects, ProgramError>)
    ensures
        revoke_result_agrees(
            r,
            spec_process_revoke_delegate(*program_id, accounts@, *delegate_pubkey, now),
        ),
{
    if accounts.len() < 4 {
        return Err(ProgramError::NotEnoughAccountKeys);
    }
    let delegate_info = &accounts[0];
    let vault_info = &accounts[1];
    let owner_info = &accounts[2];
    match require_signer(owner_info) {
        Ok(_) => (),
        Err(e) => {
            return Err(e);
        },
    }
    match require_writable(delegate_info) {
        Ok(_) => (),
        Err(e) => {
            return Err(e);
        },
    }
    match require_owner(delegate_info, program_id) {
        Ok(_) => (),
        Err(e) => {
            return Err(e);
        },
    }
    let v = match decode_user_vault(vault_info.data.as_slice()) {
        Ok(v) => v,
        Err(e) => {
            return Err(ProgramError::Vault(e));
        },
    };
    if v.owner != owner_info.key {
        return Err(ProgramError::Vault(VaultError::InvalidOwner));
    }
    let d = match decode_delegate(delegate_info.data.as_slice()) {
        Ok(d) => d,
        Err(e) => {
            return Err(ProgramError::Vault(e));
        },
    };
    if d.owner != owner_info.key {
        return Err(ProgramError::Vault(VaultError::InvalidOwner));
    }
    if d.delegate != *delegate_pubkey {
        return Err(ProgramError::Vault(VaultError::InvalidDelegate));
    }
    let mut d2 = d;
    d2.is_active = false;
    d2.nonce = u64::MAX;
    d2.update_timestamp(now);
    Ok(RevokeDelegateEffects { delegate_data: encode_delegate(&d2) })
}

/// What an admin operation hands back on success: the encoded
/// configuration record to store.
#[derive(Debug)]
pub struct AdminEffects {
    /// The updated configuration record, encoded.
    pub config_data: Vec<u8>,
}

/// What `process_transfer_admin` returns, over decoded records. Account
/// order: configuration record (writable), current admin (signer).
pub open spec fn spec_process_transfer_admin(
    program_id: Address,
    accounts: Seq<AccountView>,
    new_admin: Address,
) -> Result<GlobalConfig, ProgramError> {
    if accounts.len() < 2 {
        Err(ProgramError::NotEnoughAccountKeys)
    } else if !accounts[1].is_signer {
        Err(ProgramError::MissingRequiredSignature)
    } else if !accounts[0].is_writable {
        Err(ProgramError::InvalidAccountData)
    } else if accounts[0].owner != program_id {
        Err(ProgramError::IllegalOwner)
    } else {
        match spec_decode_global_config(accounts[0].data@) {
            Err(e) => Err(ProgramError::Vault(e)),
            Ok(c) => match spec_transfer_admin_record(c, accounts[1].key, new_admin) {
                Err(e) => Err(ProgramError::Vault(e)),
                Ok(c2) => Ok(c2),
            },
        }
    }
}

/// Whether an admin handler's result matches its specification.
pub open spec fn admin_result_agrees(
    r: Result<AdminEffects, ProgramError>,
    s: Result<GlobalConfig, ProgramError>,
) -> bool {
    match (r, s) {
        (Ok(eff), Ok(c2)) => eff.config_data@ == spec_encode_global_config(c2),
        (Err(e1), Err(e2)) => e1 == e2,
        _ => false,
    }
}

/// Hands configuration authority to `new_admin`. The caller must be the
/// current admin, and the all-zero sentinel is rejected: renouncing must go
/// through the explicit, irreversible renounce operation.
pub fn process_transfer_admin(
    program_id: &Address,
    accounts: &Vec<AccountView>,
    new_admin: &Address,
) -> (r: Result<AdminEffects, ProgramError>)
    ensures
        admin_result_agrees(r, spec_process_transfer_admin(*program_id, accounts@, *new_admin)),
{
    if accounts.len() < 2 {
        return Err(ProgramError::NotEnoughAccountKeys);
    }
    let global_config_info = &accounts[0];
    let admin_info = &accounts[1];
    match require_signer(admin_info) {
        Ok(_) => (),
        Err(e) => {
            return Err(e);
        },
    }
    match require_writable(global_config_info) {
        Ok(_) => (),
        Err(e) => {
            return Err(e);
        },
    }
    match require_owner(global_config_info, program_id) {
        Ok(_) => (),
        Err(e) => {
            return Err(e);
        },
    }
    let c = match decode_global_config(global_config_info.data.as_slice()) {
        Ok(c) => c,
        Err(e) => {
            return Err(ProgramError::Vault(e));
        },
    };
    if c.admin != admin_info.key {
        return Err(ProgramError::Vault(VaultError::InvalidAuthority));
    }
    if *new_admin == Address::zero() {
        return Err(ProgramError::Vault(VaultError::InvalidAuthority));
    }
    let mut c2 = c;
    c2.admin = *new_admin;
    Ok(AdminEffects { config_data: encode_global_config(&c2) })
}

/// What `process_renounce_admin` returns, over decoded records. Account
/// order: configuration record (writable), current admin (signer).
pub open spec fn spec_process_renounce_admin(
    program_id: Address,
    accounts: Seq<AccountView>,
) -> Result<GlobalConfig, ProgramError> {
    if accounts.len() < 2 {
        Err(ProgramError::NotEnoughAccountKeys)
    } else if !accounts[1].is_signer {
        Err(ProgramError::MissingRequiredSignature)
    } else if !accounts[0].is_writable {
        Err(ProgramError::InvalidAccountData)
    } else if accounts[0].owner != program_id {
        Err(ProgramError::IllegalOwner)
    } else {
        match spec_decode_global_config(accounts[0].data@) {
            Err(e) => Err(ProgramError::Vault(e)),
            Ok(c) => match spec_renounce_admin_record(c, accounts[1].key) {
                Err(e) => Err(ProgramError::Vault(e)),
                Ok(c2) => Ok(c2),
            },
        }
    }
}

/// Renounces configuration authority forever: the admin becomes the
/// all-zero sentinel, and no caller can mutate the configuration again.
pub fn process_renounce_admin(program_id: &Address, accounts: &Vec<AccountView>) -> (r: Result<
    AdminEffects,
    ProgramError,
>)
    ensures
        admin_result_agrees(r, spec_process_renounce_admin(*program_id, accounts@)),
{
    if accounts.len() < 2 {
        return Err(ProgramError::NotEnoughAccountKeys);
    }
    let global_config_info = &accounts[0];
    let admin_info = &accounts[1];
    match require_signer(admin_info) {
        Ok(_) => (),
        Err(e) => {
            return Err(e);
        },
    }
    match require_writable(global_config_info) {
        Ok(_) => (),
        Err(e) => {
            return Err(e);
        },
    }
    match require_owner(global_config_info, program_id) {
        Ok(_) => (),
        Err(e) => {
            return Err(e);
        },
    }
    let c = match decode_global_config(global_config_info.data.as_slice()) {
        Ok(c) => c,
        Err(e) => {
            return Err(ProgramError::Vault(e));
        },
    };
    if c.admin != admin_info.key {
        return Err(ProgramError::Vault(VaultError::InvalidAuthority));
    }
    let mut c2 = c;
    c2.admin = Address::zero();
    Ok(AdminEffects { config_data: encode_global_config(&c2) })
}

/// What a freeze or unfreeze hands back on success: the encoded vault
/// record to store, or nothing when the vault was already in the target
/// state (the deliberate succeed-without-effect case).
#[derive(Debug)]
pub struct FreezeVaultEffects {
    /// The updated vault record, encoded; absent when nothing changed.
    pub vault_data: Option<Vec<u8>>,
}

/// What `process_freeze_vault` returns, over decoded records. Account
/// order: vault record (writable), owner (signer). Freezing an
/// already-frozen vault succeeds with no effect.
pub open spec fn spec_process_freeze_vault(
    program_id: Address,
    accounts: Seq<AccountView>,
    now: i64,
) -> Result<Option<UserVault>, ProgramError> {
    if accounts.len() < 2 {
        Err(ProgramError::NotEnoughAccountKeys)
    } else if !accounts[1].is_signer {
        Err(ProgramError::MissingRequiredSignature)
    } else if !accounts[0].is_writable {
        Err(ProgramError::InvalidAccountData)
    } else if accounts[0].owner != program_id {
        Err(ProgramError::IllegalOwner)
    } else {
        match spec_decode_user_vault(accounts[0].data@) {
            Err(e) => Err(ProgramError::Vault(e)),
            Ok(v) => if v.owner != accounts[1].key {
                Err(ProgramError::Vault(VaultError::InvalidOwner))
            } else if v.spec_is_frozen() {
                Ok(None)
            } else {
                Ok(Some(UserVault { flags: v.flags | 1, updated_at: now, ..v }))
            },
        }
    }
}

/// Whether a freeze or unfreeze handler's result matches its
/// specification.
pub open spec fn freeze_result_agrees(
    r: Result<FreezeVaultEffects, ProgramError>,
    s: Result<Option<UserVault>, ProgramError>,
) -> bool {
    match (r, s) {
        (Ok(eff), Ok(ov)) => match (eff.vault_data, ov) {
            (Some(b), Some(v2)) => b@ == spec_encode_user_vault(v2),
            (None, None) => true,
            _ => false,
        },
        (Err(e1), Err(e2)) => e1 == e2,
        _ => false,
    }
}

/// Freezes the caller's vault, blocking deposit, withdraw, lock and
/// unlock until unfrozen. Owner-only; idempotent.
pub fn process_freeze_vault(program_id: &Address, accounts: &Vec<AccountView>, now: i64) -> (r:
    Result<FreezeVaultEffects, ProgramError>)
    ensures
        freeze_result_agrees(r, spec_process_freeze_vault(*program_id, accounts@, now)),
{
    if accounts.len() < 2 {
        return Err(ProgramError::NotEnoughAccountKeys);
    }
    let vault_info = &accounts[0];
    let owner_info = &accounts[1];
    match require_signer(owner_info) {
        Ok(_) => (),
        Err(e) => {
            return Err(e);
        },
    }
    match require_writable(vault_info) {
        Ok(_) => (),
        Err(e) => {
            return Err(e);
        },
    }
    match require_owner(vault_info, program_id) {
        Ok(_) => (),
        Err(e) => {
            return Err(e);
        },
    }
    let v = match decode_user_vault(vault_info.data.as_slice()) {
        Ok(v) => v,
        Err(e) => {
            return Err(ProgramError::Vault(e));
        },
    };
    if v.owner != owner_info.key {
        return Err(ProgramError::Vault(VaultError::InvalidOwner));
    }
    if v.is_frozen() {
        return Ok(FreezeVaultEffects { vault_data: None });
    }
    let mut v2 = v;
    v2.freeze(now);
    Ok(FreezeVaultEffects { vault_data: Some(encode_user_vault(&v2)) })
}

/// What `process_unfreeze_vault` returns, over decoded records. Account
/// order: vault record (writable), owner (signer). Unfreezing a vault that
/// is not frozen succeeds with no effect.
pub open spec fn spec_process_unfreeze_vault(
    program_id: Address,
    accounts: Seq<AccountView>,
    now: i64,
) -> Result<Option<UserVault>, ProgramError> {
    if accounts.len() < 2 {
        Err(ProgramError::NotEnoughAccountKeys)
    } else if !accounts[1].is_signer {
        Err(ProgramError::MissingRequiredSignature)
    } else if !accounts[0].is_writable {
        Err(ProgramError::InvalidAccountData)
    } else if accounts[0].owner != program_id {
        Err(ProgramError::IllegalOwner)
    } else {
        match spec_decode_user_vault(accounts[0].data@) {
            Err(e) => Err(ProgramError::Vault(e)),
            Ok(v) => if v.owner != accounts[1].key {
                Err(ProgramError::Vault(VaultError::InvalidOwner))
            } else if !v.spec_is_frozen() {
                Ok(None)
            } else {
                Ok(Some(UserVault { flags: v.flags & !1, updated_at: now, ..v }))
            },
        }
    }
}

/// Unfreezes the caller's vault, re-allowing deposit, withdraw, lock and
/// unlock. Owner-only; idempotent.
pub fn process_unfreeze_vault(program_id: &Address, accounts: &Vec<AccountView>, now: i64) -> (r:
    Result<FreezeVaultEffects, ProgramError>)
    ensures
        freeze_result_agrees(r, spec_process_unfreeze_vault(*program_id, accounts@, now)),
{
    if accounts.len() < 2 {
        return Err(ProgramError::NotEnoughAccountKeys);
    }
    let vault_info = &accounts[0];
    let owner_info = &accounts[1];
    match require_signer(owner_info) {
        Ok(_) => (),
        Err(e) => {
            return Err(e);
        },
    }
    match require_writable(vault_info) {
        Ok(_) => (),
        Err(e) => {
            return Err(e);
        },
    }
    match require_owner(vault_info, program_id) {
        Ok(_) => (),
        Err(e) => {
            return Err(e);
        },
    }
    let v = match decode_user_vault(vault_info.data.as_slice()) {
        Ok(v) => v,
        Err(e) => {
            return Err(ProgramError::Vault(e));
        },
    };
    if v.owner != owner_info.key {
        return Err(ProgramError::Vault(VaultError::InvalidOwner));
    }
    if !v.is_frozen() {
        return Ok(FreezeVaultEffects { vault_data: None });
    }
    let mut v2 = v;
    v2.unfreeze(now);
    Ok(FreezeVaultEffects { vault_data: Some(encode_user_vault(&v2)) })
}

/// The committed outcome of one call: which operation ran and what it
/// hands back for the host wiring to apply.
#[derive(Debug)]
pub enum ProcessEffects {
    /// Outcome of `InitializeGlobalConfig`.
    InitializeGlobalConfig(InitializeGlobalConfigEffects),
    /// Outcome of `CreateVault`.
    CreateVault(CreateVaultEffects),
    /// Outcome of `Deposit`.
    Deposit(DepositEffects),
    /// Outcome of `Withdraw`.
    Withdraw(WithdrawEffects),
    /// Outcome of `UpsertDelegate`.
    UpsertDelegate(UpsertDelegateEffects),
    /// Outcome of `RevokeDelegate`.
    RevokeDelegate(RevokeDelegateEffects),
    /// Outcome of `LockMargin`.
    LockMargin(LockMarginEffects),
    /// Outcome of `UnlockMarginAndUpdatePnl`.
    UnlockMargin(LockMarginEffects),
    /// Outcome of `TransferAdmin`.
    TransferAdmin(AdminEffects),
    /// Outcome of `RenounceAdmin`.
    RenounceAdmin(AdminEffects),
    /// Outcome of `FreezeVault`.
    FreezeVault(FreezeVaultEffects),
    /// Outcome of `UnfreezeVault`.
    UnfreezeVault(FreezeVaultEffects),
}

/// Whether the dispatcher's result matches the parsed operation's own
/// specification: the payload is parsed, the matching handler's
/// specification decides the outcome, and the effects carry that
/// operation's tag.
pub open spec fn process_result_agrees(
    r: Result<ProcessEffects, ProgramError>,
    program_id: Address,
    accounts: Seq<AccountView>,
    instruction_data: Seq<u8>,
    current_slot: u64,
    now: i64,
) -> bool {
    match spec_parse_instruction(instruction_data) {
        Err(e) => r == Err::<ProcessEffects, ProgramError>(ProgramError::Vault(e)),
        Ok(ins) => match ins {
            VaultInstruction::InitializeGlobalConfig { usdc_mint } => match r {
                Ok(ProcessEffects::InitializeGlobalConfig(eff)) => initialize_result_agrees(
                    Ok(eff),
                    spec_process_initialize_global_config(program_id, accounts, usdc_mint, now),
                ),
                Err(e) => spec_process_initialize_global_config(
                    program_id,
                    accounts,
                    usdc_mint,
                    now,
                ) == Err::<(GlobalConfig, u8), ProgramError>(e),
                _ => false,
            },
            VaultInstruction::CreateVault => match r {
                Ok(ProcessEffects::CreateVault(eff)) => create_vault_result_agrees(
                    Ok(eff),
                    spec_process_create_vault(program_id, accounts, now),
                ),
                Err(e) => spec_process_create_vault(program_id, accounts, now) == Err::<
                    (UserVault, u8, u8),
                    ProgramError,
                >(e),
                _ => false,
            },
            VaultInstruction::Deposit { amount } => match r {
                Ok(ProcessEffects::Deposit(eff)) => deposit_result_agrees(
                    Ok(eff),
                    spec_process_deposit(program_id, accounts, amount, now),
                ),
                Err(e) => spec_process_deposit(program_id, accounts, amount, now) == Err::<
                    (UserVault, u64),
                    ProgramError,
                >(e),
                _ => false,
            },
            VaultInstruction::Withdraw { amount } => match r {
                Ok(ProcessEffects::Withdraw(eff)) => withdraw_result_agrees(
                    Ok(eff),
                    spec_process_withdraw(program_id, accounts, amount, current_slot, now),
                ),
                Err(e) => spec_process_withdraw(program_id, accounts, amount, current_slot, now)
                    == Err::<(UserVault, u64), ProgramError>(e),
                _ => false,
            },
            VaultInstruction::UpsertDelegate {
                delegate_pubkey,
                permissions,
                max_notional,
                expiry_slot,
            } => match r {
                Ok(ProcessEffects::UpsertDelegate(eff)) => upsert_result_agrees(
                    Ok(eff),
                    spec_process_upsert_delegate(
                        program_id,
                        accounts,
                        delegate_pubkey,
                        permissions,
                        max_notional,
                        expiry_slot,
                        current_slot,
                        now,
                    ),
                ),
                Err(e) => spec_process_upsert_delegate(
                    program_id,
                    accounts,
                    delegate_pubkey,
                    permissions,
                    max_notional,
                    expiry_slot,
                    current_slot,
                    now,
                ) == Err::<(DelegateAccount, bool, u8), ProgramError>(e),
                _ => false,
            },
            VaultInstruction::RevokeDelegate { delegate_pubkey } => match r {
                Ok(ProcessEffects::RevokeDelegate(eff)) => revoke_result_agrees(
                    Ok(eff),
                    spec_process_revoke_delegate(program_id, accounts, delegate_pubkey, now),
                ),
                Err(e) => spec_process_revoke_delegate(program_id, accounts, delegate_pubkey, now)
                    == Err::<DelegateAccount, ProgramError>(e),
                _ => false,
            },
            VaultInstruction::LockMargin { required_margin, required_notional } => match r {
                Ok(ProcessEffects::LockMargin(eff)) => margin_result_agrees(
                    Ok(eff),
                    spec_process_lock_margin(
                        program_id,
                        accounts,
                        required_margin,
                        required_notional,
                        current_slot,
                        now,
                    ),
                ),
                Err(e) => spec_process_lock_margin(
                    program_id,
                    accounts,
                    required_margin,
                    required_notional,
                    current_slot,
                    now,
                ) == Err::<(UserVault, Option<DelegateAccount>), ProgramError>(e),
                _ => false,
            },
            VaultInstruction::UnlockMarginAndUpdatePnl {
                unlocked_margin,
                pnl_delta,
                notional_delta,
            } => match r {
                Ok(ProcessEffects::UnlockMargin(eff)) => margin_result_agrees(
                    Ok(eff),
                    spec_process_unlock_margin(
                        program_id,
                        accounts,
                        unlocked_margin,
                        pnl_delta,
                        notional_delta,
                        current_slot,
                        now,
                    ),
                ),
                Err(e) => spec_process_unlock_margin(
                    program_id,
                    accounts,
                    unlocked_margin,
                    pnl_delta,
                    notional_delta,
                    current_slot,
                    now,
                ) == Err::<(UserVault, Option<DelegateAccount>), ProgramError>(e),
                _ => false,
            },
            VaultInstruction::TransferAdmin { new_admin } => match r {
                Ok(ProcessEffects::TransferAdmin(eff)) => admin_result_agrees(
                    Ok(eff),
                    spec_process_transfer_admin(program_id, accounts, new_admin),
                ),
                Err(e) => spec_process_transfer_admin(program_id, accounts, new_admin) == Err::<
                    GlobalConfig,
                    ProgramError,
                >(e),
                _ => false,
            },
            VaultInstruction::RenounceAdmin => match r {
                Ok(ProcessEffects::RenounceAdmin(eff)) => admin_result_agrees(
                    Ok(eff),
                    spec_process_renounce_admin(program_id, accounts),
                ),
                Err(e) => spec_process_renounce_admin(program_id, accounts) == Err::<
                    GlobalConfig,
                    ProgramError,
                >(e),
                _ => false,
            },
            VaultInstruction::FreezeVault => match r {
                Ok(ProcessEffects::FreezeVault(eff)) => freeze_result_agrees(
                    Ok(eff),
                    spec_process_freeze_vault(program_id, accounts, now),
                ),
                Err(e) => spec_process_freeze_vault(program_id, accounts, now) == Err::<
                    Option<UserVault>,
                    ProgramError,
                >(e),
                _ => false,
            },
            VaultInstruction::UnfreezeVault => match r {
                Ok(ProcessEffects::UnfreezeVault(eff)) => freeze_result_agrees(
                    Ok(eff),
                    spec_process_unfreeze_vault(program_id, accounts, now),
                ),
                Err(e) => spec_process_unfreeze_vault(program_id, accounts, now) == Err::<
                    Option<UserVault>,
                    ProgramError,
                >(e),
                _ => false,
            },
        },
    }
}

/// The entry point of the transition processor: parses the tagged payload
/// and runs the matching handler against the call's accounts and the host
/// clock. The whole call either hands back effects to commit or the first
/// violated condition's error.
pub fn process_instruction(
    program_id: &Address,
    accounts: &Vec<AccountView>,
    instruction_data: &[u8],
    current_slot: u64,
    now: i64,
) -> (r: Result<ProcessEffects, ProgramError>)
    ensures
        process_result_agrees(r, *program_id, accounts@, instruction_data@, current_slot, now),
{
    let instruction = match parse_instruction(instruction_data) {
        Ok(ins) => ins,
        Err(e) => {
            return Err(ProgramError::Vault(e));
        },
    };
    match instruction {
        VaultInstruction::InitializeGlobalConfig { usdc_mint } => {
            match process_initialize_global_config(program_id, accounts, &usdc_mint, now) {
                Ok(eff) => Ok(ProcessEffects::InitializeGlobalConfig(eff)),
                Err(e) => Err(e),
            }
        },
        VaultInstruction::CreateVault => {
            match process_create_vault(program_id, accounts, now) {
                Ok(eff) => Ok(ProcessEffects::CreateVault(eff)),
                Err(e) => Err(e),
            }
        },
        VaultInstruction::Deposit { amount } => {
            match process_deposit(program_id, accounts, amount, now) {
                Ok(eff) => Ok(ProcessEffects::Deposit(eff)),
                Err(e) => Err(e),
            }
        },
        VaultInstruction::Withdraw { amount } => {
            match process_withdraw(program_id, accounts, amount, current_slot, now) {
                Ok(eff) => Ok(ProcessEffects::Withdraw(eff)),
                Err(e) => Err(e),
            }
        },
        VaultInstruction::UpsertDelegate {
            delegate_pubkey,
            permissions,
            max_notional,
            expiry_slot,
        } => {
            match process_upsert_delegate(
                program_id,
                accounts,
                &delegate_pubkey,
                permissions,
                max_notional,
                expiry_slot,
                current_slot,
                now,
            ) {
                Ok(eff) => Ok(ProcessEffects::UpsertDelegate(eff)),
                Err(e) => Err(e),
            }
        },
        VaultInstruction::RevokeDelegate { delegate_pubkey } => {
            match process_revoke_delegate(program_id, accounts, &delegate_pubkey, now) {
                Ok(eff) => Ok(ProcessEffects::RevokeDelegate(eff)),
                Err(e) => Err(e),
            }
        },
        VaultInstruction::LockMargin { required_margin, required_notional } => {
            match process_lock_margin(
                program_id,
                accounts,
                required_margin,
                required_notional,
                current_slot,
                now,
            ) {
                Ok(eff) => Ok(ProcessEffects::LockMargin(eff)),
                Err(e) => Err(e),
            }
        },
        VaultInstruction::UnlockMarginAndUpdatePnl {
            unlocked_margin,
            pnl_delta,
            notional_delta,
        } => {
            match process_unlock_margin_and_update_pnl(
                program_id,
                accounts,
                unlocked_margin,
                pnl_delta,
                notional_delta,
                current_slot,
                now,
            ) {
                Ok(eff) => Ok(ProcessEffects::UnlockMargin(eff)),
                Err(e) => Err(e),
            }
        },
        VaultInstruction::TransferAdmin { new_admin } => {
            match process_transfer_admin(program_id, accounts, &new_admin) {
                Ok(eff) => Ok(ProcessEffects::TransferAdmin(eff)),
                Err(e) => Err(e),
            }
        },
        VaultInstruction::RenounceAdmin => {
            match process_renounce_admin(program_id, accounts) {
                Ok(eff) => Ok(ProcessEffects::RenounceAdmin(eff)),
                Err(e) => Err(e),
            }
        },
        VaultInstruction::FreezeVault => {
            match process_freeze_vault(program_id, accounts, now) {
                Ok(eff) => Ok(ProcessEffects::FreezeVault(eff)),
                Err(e) => Err(e),
            }
        },
        VaultInstruction::UnfreezeVault => {
            match process_unfreeze_vault(program_id, accounts, now) {
                Ok(eff) => Ok(ProcessEffects::UnfreezeVault(eff)),
                Err(e) => Err(e),
            }
        },
    }
}

} // verus!
