//! End-to-end flows through the transition processor: initialization,
//! vault creation, deposit, delegated margin locking, withdrawal
//! authorization, freezing, revocation, and admin lifecycle.

use solana_program::pubkey::Pubkey;
use vault_program::address::Address;
use vault_program::codec::{decode_delegate, decode_global_config, decode_user_vault};
use vault_program::error::{ProgramError, VaultError};
use vault_program::processor::{
    process_deposit, process_freeze_vault, process_initialize_global_config, process_lock_margin,
    process_renounce_admin, process_revoke_delegate, process_transfer_admin,
    process_unfreeze_vault, process_unlock_margin_and_update_pnl, process_upsert_delegate,
    process_withdraw, process_create_vault,
};
use vault_program::state::{PERM_TRADE, PERM_WITHDRAW};
use vault_program::utils::AccountView;

fn addr(n: u64) -> Address {
    Address { w0: n, w1: n.wrapping_add(1), w2: 2, w3: 3 }
}

fn pubkey_of(a: &Address) -> Pubkey {
    let mut bytes = [0u8; 32];
    bytes[0..8].copy_from_slice(&a.w0.to_le_bytes());
    bytes[8..16].copy_from_slice(&a.w1.to_le_bytes());
    bytes[16..24].copy_from_slice(&a.w2.to_le_bytes());
    bytes[24..32].copy_from_slice(&a.w3.to_le_bytes());
    Pubkey::new_from_array(bytes)
}

fn addr_of(pk: &Pubkey) -> Address {
    let bytes = pk.to_bytes();
    Address {
        w0: u64::from_le_bytes(bytes[0..8].try_into().unwrap()),
        w1: u64::from_le_bytes(bytes[8..16].try_into().unwrap()),
        w2: u64::from_le_bytes(bytes[16..24].try_into().unwrap()),
        w3: u64::from_le_bytes(bytes[24..32].try_into().unwrap()),
    }
}

fn derive(seeds: &[&[u8]], program_id: &Address) -> (Address, u8) {
    let (pk, bump) = Pubkey::find_program_address(seeds, &pubkey_of(program_id));
    (addr_of(&pk), bump)
}

/// A 165-byte initialized token-account image with the given mint, owner
/// and balance.
fn token_bytes(mint: &Address, owner: &Address, amount: u64) -> Vec<u8> {
    let mut d = vec![0u8; 165];
    d[0..32].copy_from_slice(&pubkey_of(mint).to_bytes());
    d[32..64].copy_from_slice(&pubkey_of(owner).to_bytes());
    d[64..72].copy_from_slice(&amount.to_le_bytes());
    d[108] = 1;
    d
}

fn acct(key: Address, owner: Address, is_signer: bool, is_writable: bool, data: Vec<u8>) -> AccountView {
    AccountView { key, owner, is_signer, is_writable, data }
}

struct World {
    program_id: Address,
    admin: Address,
    mint: Address,
    owner: Address,
    config_key: Address,
    config_data: Vec<u8>,
    vault_key: Address,
    vault_data: Vec<u8>,
    vault_usdc_key: Address,
    vault_balance: u64,
    system: Address,
    token_program: Address,
    rent: Address,
    clock: Address,
    now: i64,
    slot: u64,
}

/// Initializes the configuration and creates a vault for `owner`.
fn setup() -> World {
    let program_id = addr(7);
    let admin = addr(100);
    let mint = addr(200);
    let owner = addr(300);
    let system = Address::zero();
    let token_program = addr(400);
    let rent = addr(500);
    let clock = addr(600);
    let now = 1_700_000_000i64;
    let slot = 1_000u64;

    let (config_key, _bump) = derive(&[b"global", &[1u8]], &program_id);
    let accounts = vec![
        acct(config_key, system, false, true, vec![]),
        acct(admin, system, true, true, vec![]),
        acct(system, system, false, false, vec![]),
        acct(rent, system, false, false, vec![]),
    ];
    let eff = process_initialize_global_config(&program_id, &accounts, &mint, now).unwrap();
    let config_data = eff.config_data;

    let (vault_key, _vb) = derive(&[b"vault", &pubkey_of(&owner).to_bytes()], &program_id);
    let (vault_usdc_key, _ub) =
        derive(&[b"vault-usdc", &pubkey_of(&owner).to_bytes()], &program_id);
    let accounts = vec![
        acct(vault_key, system, false, true, vec![]),
        acct(vault_usdc_key, system, false, true, vec![]),
        acct(owner, system, true, true, vec![]),
        acct(config_key, program_id, false, false, config_data.clone()),
        acct(mint, token_program, false, false, vec![]),
        acct(system, system, false, false, vec![]),
        acct(token_program, system, false, false, vec![]),
        acct(rent, system, false, false, vec![]),
    ];
    let eff = process_create_vault(&program_id, &accounts, now).unwrap();

    World {
        program_id,
        admin,
        mint,
        owner,
        config_key,
        config_data,
        vault_key,
        vault_data: eff.vault_data,
        vault_usdc_key,
        vault_balance: 0,
        system,
        token_program,
        rent,
        clock,
        now,
        slot,
    }
}

/// Deposits `amount` into the world's vault, updating the stored record
/// and the tracked asset balance.
fn deposit(w: &mut World, amount: u64) -> Result<(), ProgramError> {
    let owner_usdc = addr(310);
    let accounts = vec![
        acct(w.vault_key, w.program_id, false, true, w.vault_data.clone()),
        acct(w.owner, w.system, true, false, vec![]),
        acct(owner_usdc, w.token_program, false, true, token_bytes(&w.mint, &w.owner, 0)),
        acct(
            w.vault_usdc_key,
            w.token_program,
            false,
            true,
            token_bytes(&w.mint, &w.vault_usdc_key, w.vault_balance),
        ),
        acct(w.config_key, w.program_id, false, false, w.config_data.clone()),
        acct(w.token_program, w.system, false, false, vec![]),
    ];
    let eff = process_deposit(&w.program_id, &accounts, amount, w.now)?;
    assert_eq!(eff.amount, amount);
    w.vault_data = eff.vault_data;
    w.vault_balance += amount;
    Ok(())
}

fn upsert(
    w: &mut World,
    delegate: &Address,
    permissions: u64,
    max_notional: u64,
    expiry_slot: u64,
) -> Result<Vec<u8>, ProgramError> {
    let (delegate_key, _b) = derive(
        &[b"delegate", &pubkey_of(&w.owner).to_bytes(), &pubkey_of(delegate).to_bytes()],
        &w.program_id,
    );
    let accounts = vec![
        acct(delegate_key, w.system, false, true, vec![]),
        acct(w.vault_key, w.program_id, false, true, w.vault_data.clone()),
        acct(w.owner, w.system, true, true, vec![]),
        acct(w.config_key, w.program_id, false, false, w.config_data.clone()),
        acct(w.system, w.system, false, false, vec![]),
    ];
    let eff = process_upsert_delegate(
        &w.program_id,
        &accounts,
        delegate,
        permissions,
        max_notional,
        expiry_slot,
        w.slot,
        w.now,
    )?;
    assert!(eff.created);
    Ok(eff.delegate_data)
}

fn lock_as(
    w: &World,
    signer: &Address,
    delegate_data: &[u8],
    margin: u64,
    notional: u64,
) -> Result<(Vec<u8>, Option<Vec<u8>>), ProgramError> {
    let (delegate_key, _b) = derive(
        &[b"delegate", &pubkey_of(&w.owner).to_bytes(), &pubkey_of(signer).to_bytes()],
        &w.program_id,
    );
    let accounts = vec![
        acct(w.vault_key, w.program_id, false, true, w.vault_data.clone()),
        acct(*signer, w.system, true, false, vec![]),
        acct(delegate_key, w.program_id, false, true, delegate_data.to_vec()),
        acct(w.config_key, w.program_id, false, false, w.config_data.clone()),
        acct(w.clock, w.system, false, false, vec![]),
    ];
    let eff = process_lock_margin(&w.program_id, &accounts, margin, notional, w.slot, w.now)?;
    Ok((eff.vault_data, eff.delegate_data))
}

#[test]
fn deposit_then_delegate_lock_until_cap() {
    let mut w = setup();
    deposit(&mut w, 1_000_000).unwrap();
    let v = decode_user_vault(&w.vault_data).unwrap();
    assert_eq!(v.free_collateral, 1_000_000);
    assert_eq!(v.locked_collateral, 0);
    assert_eq!(v.total_deposit, 1_000_000);

    let delegate = addr(900);
    let delegate_data = upsert(&mut w, &delegate, PERM_TRADE, 500_000, 5_000).unwrap();
    let d = decode_delegate(&delegate_data).unwrap();
    assert_eq!(d.max_notional, 500_000);
    assert_eq!(d.used_notional, 0);
    assert!(d.is_active);

    let (vault_data, dd) = lock_as(&w, &delegate, &delegate_data, 100_000, 400_000).unwrap();
    let v = decode_user_vault(&vault_data).unwrap();
    assert_eq!(v.free_collateral, 900_000);
    assert_eq!(v.locked_collateral, 100_000);
    let d = decode_delegate(&dd.unwrap()).unwrap();
    assert_eq!(d.used_notional, 400_000);

    let w2 = World { vault_data, ..w };
    let err = lock_as(&w2, &delegate, &vault_program::codec::encode_delegate(&d), 1, 200_000)
        .unwrap_err();
    assert_eq!(err, ProgramError::Vault(VaultError::NotionalLimitExceeded));

    // A released exposure (negative delta) stays within the cap.
    let (delegate_key, _b) = derive(
        &[b"delegate", &pubkey_of(&w2.owner).to_bytes(), &pubkey_of(&delegate).to_bytes()],
        &w2.program_id,
    );
    let accounts = vec![
        acct(w2.vault_key, w2.program_id, false, true, w2.vault_data.clone()),
        acct(delegate, w2.system, true, false, vec![]),
        acct(
            delegate_key,
            w2.program_id,
            false,
            true,
            vault_program::codec::encode_delegate(&d),
        ),
        acct(w2.config_key, w2.program_id, false, false, w2.config_data.clone()),
    ];
    let eff = process_unlock_margin_and_update_pnl(
        &w2.program_id,
        &accounts,
        100_000,
        0,
        -400_000,
        w2.slot,
        w2.now,
    )
    .unwrap();
    let v = decode_user_vault(&eff.vault_data).unwrap();
    assert_eq!(v.free_collateral, 1_000_000);
    assert_eq!(v.locked_collateral, 0);
    let d = decode_delegate(&eff.delegate_data.unwrap()).unwrap();
    assert_eq!(d.used_notional, 0);
}

#[test]
fn delegate_without_withdraw_permission_is_denied() {
    let mut w = setup();
    deposit(&mut w, 1_000_000).unwrap();
    let delegate = addr(901);
    let delegate_data = upsert(&mut w, &delegate, PERM_TRADE, 500_000, 5_000).unwrap();

    let owner_usdc = addr(310);
    let accounts = vec![
        acct(w.vault_key, w.program_id, false, true, w.vault_data.clone()),
        acct(delegate, w.system, true, false, vec![]),
        acct(owner_usdc, w.token_program, false, true, token_bytes(&w.mint, &w.owner, 0)),
        acct(
            w.vault_usdc_key,
            w.token_program,
            false,
            true,
            token_bytes(&w.mint, &w.vault_usdc_key, w.vault_balance),
        ),
        acct(w.config_key, w.program_id, false, false, w.config_data.clone()),
        acct(w.token_program, w.system, false, false, vec![]),
        acct(addr(902), w.program_id, false, true, delegate_data),
    ];
    let err = process_withdraw(&w.program_id, &accounts, 1, w.slot, w.now).unwrap_err();
    assert_eq!(err, ProgramError::Vault(VaultError::PermissionDenied));
}

#[test]
fn owner_overdraw_is_rejected() {
    let mut w = setup();
    deposit(&mut w, 1_000_000).unwrap();
    let owner_usdc = addr(310);
    let accounts = vec![
        acct(w.vault_key, w.program_id, false, true, w.vault_data.clone()),
        acct(w.owner, w.system, true, false, vec![]),
        acct(owner_usdc, w.token_program, false, true, token_bytes(&w.mint, &w.owner, 0)),
        acct(
            w.vault_usdc_key,
            w.token_program,
            false,
            true,
            token_bytes(&w.mint, &w.vault_usdc_key, w.vault_balance),
        ),
        acct(w.config_key, w.program_id, false, false, w.config_data.clone()),
        acct(w.token_program, w.system, false, false, vec![]),
    ];
    let err = process_withdraw(&w.program_id, &accounts, 1_000_001, w.slot, w.now).unwrap_err();
    assert_eq!(err, ProgramError::Vault(VaultError::InsufficientFreeCollateral));
}

#[test]
fn owner_withdraw_succeeds_and_conserves_balance() {
    let mut w = setup();
    deposit(&mut w, 1_000_000).unwrap();
    let owner_usdc = addr(310);
    let accounts = vec![
        acct(w.vault_key, w.program_id, false, true, w.vault_data.clone()),
        acct(w.owner, w.system, true, false, vec![]),
        acct(owner_usdc, w.token_program, false, true, token_bytes(&w.mint, &w.owner, 0)),
        acct(
            w.vault_usdc_key,
            w.token_program,
            false,
            true,
            token_bytes(&w.mint, &w.vault_usdc_key, w.vault_balance),
        ),
        acct(w.config_key, w.program_id, false, false, w.config_data.clone()),
        acct(w.token_program, w.system, false, false, vec![]),
    ];
    let eff = process_withdraw(&w.program_id, &accounts, 250_000, w.slot, w.now).unwrap();
    assert_eq!(eff.amount, 250_000);
    assert_eq!(eff.owner, w.owner);
    let v = decode_user_vault(&eff.vault_data).unwrap();
    assert_eq!(v.free_collateral, 750_000);
    assert_eq!(v.total_withdrawn, 250_000);
    w.vault_balance -= 250_000;
    // Conservation: the tracked asset balance equals free plus locked.
    assert_eq!(w.vault_balance, v.free_collateral + v.locked_collateral);
    assert!(vault_program::utils::verify_vault_balance_integrity(
        &v,
        &token_bytes(&w.mint, &w.vault_usdc_key, w.vault_balance),
    )
    .is_ok());
}

#[test]
fn withdraw_to_foreign_destination_is_rejected() {
    let mut w = setup();
    deposit(&mut w, 1_000_000).unwrap();
    let stranger = addr(999);
    let accounts = vec![
        acct(w.vault_key, w.program_id, false, true, w.vault_data.clone()),
        acct(w.owner, w.system, true, false, vec![]),
        acct(addr(310), w.token_program, false, true, token_bytes(&w.mint, &stranger, 0)),
        acct(
            w.vault_usdc_key,
            w.token_program,
            false,
            true,
            token_bytes(&w.mint, &w.vault_usdc_key, w.vault_balance),
        ),
        acct(w.config_key, w.program_id, false, false, w.config_data.clone()),
        acct(w.token_program, w.system, false, false, vec![]),
    ];
    let err = process_withdraw(&w.program_id, &accounts, 1, w.slot, w.now).unwrap_err();
    assert_eq!(err, ProgramError::Vault(VaultError::InvalidTokenAccount));
}

#[test]
fn frozen_vault_blocks_mutation_but_not_freeze_ops() {
    let mut w = setup();
    deposit(&mut w, 500_000).unwrap();

    let (vault_key, program_id, owner, system) = (w.vault_key, w.program_id, w.owner, w.system);
    let freeze_accounts = move |data: Vec<u8>| {
        vec![
            acct(vault_key, program_id, false, true, data),
            acct(owner, system, true, false, vec![]),
        ]
    };
    let eff = process_freeze_vault(&program_id, &freeze_accounts(w.vault_data.clone()), w.now)
        .unwrap();
    let frozen_data = eff.vault_data.unwrap();
    let v = decode_user_vault(&frozen_data).unwrap();
    assert_eq!(v.flags & 1, 1);

    // Deposit, withdraw, lock, and unlock all fail with VaultFrozen.
    let mut wf = World { vault_data: frozen_data.clone(), ..w };
    let err = deposit(&mut wf, 1).unwrap_err();
    assert_eq!(err, ProgramError::Vault(VaultError::VaultFrozen));
    let owner_usdc = addr(310);
    let withdraw_accounts = vec![
        acct(wf.vault_key, wf.program_id, false, true, frozen_data.clone()),
        acct(wf.owner, wf.system, true, false, vec![]),
        acct(owner_usdc, wf.token_program, false, true, token_bytes(&wf.mint, &wf.owner, 0)),
        acct(
            wf.vault_usdc_key,
            wf.token_program,
            false,
            true,
            token_bytes(&wf.mint, &wf.vault_usdc_key, wf.vault_balance),
        ),
        acct(wf.config_key, wf.program_id, false, false, wf.config_data.clone()),
        acct(wf.token_program, wf.system, false, false, vec![]),
    ];
    let err = process_withdraw(&wf.program_id, &withdraw_accounts, 1, wf.slot, wf.now).unwrap_err();
    assert_eq!(err, ProgramError::Vault(VaultError::VaultFrozen));
    let lock_accounts = vec![
        acct(wf.vault_key, wf.program_id, false, true, frozen_data.clone()),
        acct(wf.owner, wf.system, true, false, vec![]),
        acct(addr(903), wf.program_id, false, true, vec![]),
        acct(wf.config_key, wf.program_id, false, false, wf.config_data.clone()),
        acct(wf.clock, wf.system, false, false, vec![]),
    ];
    let err = process_lock_margin(&wf.program_id, &lock_accounts, 1, 1, wf.slot, wf.now)
        .unwrap_err();
    assert_eq!(err, ProgramError::Vault(VaultError::VaultFrozen));
    let unlock_accounts = vec![
        acct(wf.vault_key, wf.program_id, false, true, frozen_data.clone()),
        acct(wf.owner, wf.system, true, false, vec![]),
        acct(addr(903), wf.program_id, false, true, vec![]),
        acct(wf.config_key, wf.program_id, false, false, wf.config_data.clone()),
    ];
    let err = process_unlock_margin_and_update_pnl(
        &wf.program_id,
        &unlock_accounts,
        0,
        0,
        0,
        wf.slot,
        wf.now,
    )
    .unwrap_err();
    assert_eq!(err, ProgramError::Vault(VaultError::VaultFrozen));

    // Freezing again is an accepted no-op; unfreezing restores service.
    let eff = process_freeze_vault(&wf.program_id, &freeze_accounts(frozen_data.clone()), wf.now)
        .unwrap();
    assert!(eff.vault_data.is_none());
    let eff = process_unfreeze_vault(&wf.program_id, &freeze_accounts(frozen_data), wf.now)
        .unwrap();
    let thawed = eff.vault_data.unwrap();
    let v = decode_user_vault(&thawed).unwrap();
    assert_eq!(v.flags & 1, 0);
    let mut wt = World { vault_data: thawed, ..wf };
    deposit(&mut wt, 1).unwrap();
}

#[test]
fn revoked_delegate_is_permanently_rejected() {
    let mut w = setup();
    deposit(&mut w, 1_000_000).unwrap();
    let delegate = addr(904);
    let delegate_data = upsert(&mut w, &delegate, PERM_TRADE | PERM_WITHDRAW, 500_000, 5_000)
        .unwrap();

    let (delegate_key, _b) = derive(
        &[b"delegate", &pubkey_of(&w.owner).to_bytes(), &pubkey_of(&delegate).to_bytes()],
        &w.program_id,
    );
    let revoke_accounts = vec![
        acct(delegate_key, w.program_id, false, true, delegate_data),
        acct(w.vault_key, w.program_id, false, true, w.vault_data.clone()),
        acct(w.owner, w.system, true, false, vec![]),
        acct(w.config_key, w.program_id, false, false, w.config_data.clone()),
    ];
    let eff = process_revoke_delegate(&w.program_id, &revoke_accounts, &delegate, w.now).unwrap();
    let revoked = eff.delegate_data;
    let d = decode_delegate(&revoked).unwrap();
    assert!(!d.is_active);
    assert_eq!(d.nonce, u64::MAX);

    // Lock, unlock, and withdraw all fail with DelegateExpired now.
    let err = lock_as(&w, &delegate, &revoked, 1, 1).unwrap_err();
    assert_eq!(err, ProgramError::Vault(VaultError::DelegateExpired));
    let unlock_accounts = vec![
        acct(w.vault_key, w.program_id, false, true, w.vault_data.clone()),
        acct(delegate, w.system, true, false, vec![]),
        acct(delegate_key, w.program_id, false, true, revoked.clone()),
        acct(w.config_key, w.program_id, false, false, w.config_data.clone()),
    ];
    let err = process_unlock_margin_and_update_pnl(
        &w.program_id,
        &unlock_accounts,
        0,
        0,
        0,
        w.slot,
        w.now,
    )
    .unwrap_err();
    assert_eq!(err, ProgramError::Vault(VaultError::DelegateExpired));
    let withdraw_accounts = vec![
        acct(w.vault_key, w.program_id, false, true, w.vault_data.clone()),
        acct(delegate, w.system, true, false, vec![]),
        acct(addr(310), w.token_program, false, true, token_bytes(&w.mint, &w.owner, 0)),
        acct(
            w.vault_usdc_key,
            w.token_program,
            false,
            true,
            token_bytes(&w.mint, &w.vault_usdc_key, w.vault_balance),
        ),
        acct(w.config_key, w.program_id, false, false, w.config_data.clone()),
        acct(w.token_program, w.system, false, false, vec![]),
        acct(delegate_key, w.program_id, false, true, revoked),
    ];
    let err = process_withdraw(&w.program_id, &withdraw_accounts, 1, w.slot, w.now).unwrap_err();
    assert_eq!(err, ProgramError::Vault(VaultError::DelegateExpired));
}

#[test]
fn expired_delegate_is_rejected() {
    let mut w = setup();
    deposit(&mut w, 1_000_000).unwrap();
    let delegate = addr(905);
    let delegate_data = upsert(&mut w, &delegate, PERM_TRADE, 500_000, 5_000).unwrap();
    let late = World { slot: 5_001, ..w };
    let err = lock_as(&late, &delegate, &delegate_data, 1, 1).unwrap_err();
    assert_eq!(err, ProgramError::Vault(VaultError::DelegateExpired));
}

#[test]
fn admin_renunciation_is_terminal() {
    let w = setup();
    let admin_accounts = |data: Vec<u8>, signer: Address| {
        vec![
            acct(w.config_key, w.program_id, false, true, data),
            acct(signer, w.system, true, false, vec![]),
        ]
    };

    // Transferring to the all-zero sentinel is rejected.
    let err = process_transfer_admin(
        &w.program_id,
        &admin_accounts(w.config_data.clone(), w.admin),
        &Address::zero(),
    )
    .unwrap_err();
    assert_eq!(err, ProgramError::Vault(VaultError::InvalidAuthority));

    // A proper transfer hands authority over.
    let new_admin = addr(101);
    let eff = process_transfer_admin(
        &w.program_id,
        &admin_accounts(w.config_data.clone(), w.admin),
        &new_admin,
    )
    .unwrap();
    let c = decode_global_config(&eff.config_data).unwrap();
    assert_eq!(c.admin, new_admin);

    // The new admin renounces; afterwards nobody can mutate the config.
    let eff = process_renounce_admin(
        &w.program_id,
        &admin_accounts(eff.config_data.clone(), new_admin),
    )
    .unwrap();
    let c = decode_global_config(&eff.config_data).unwrap();
    assert_eq!(c.admin, Address::zero());
    for caller in [w.admin, new_admin, addr(555)] {
        let err = process_transfer_admin(
            &w.program_id,
            &admin_accounts(eff.config_data.clone(), caller),
            &addr(556),
        )
        .unwrap_err();
        assert_eq!(err, ProgramError::Vault(VaultError::InvalidAuthority));
        let err = process_renounce_admin(
            &w.program_id,
            &admin_accounts(eff.config_data.clone(), caller),
        )
        .unwrap_err();
        assert_eq!(err, ProgramError::Vault(VaultError::InvalidAuthority));
    }
}

#[test]
fn initialize_twice_is_rejected() {
    let w = setup();
    let accounts = vec![
        acct(w.config_key, w.system, false, true, w.config_data.clone()),
        acct(w.admin, w.system, true, true, vec![]),
        acct(w.system, w.system, false, false, vec![]),
        acct(w.rent, w.system, false, false, vec![]),
    ];
    let err =
        process_initialize_global_config(&w.program_id, &accounts, &w.mint, w.now).unwrap_err();
    assert_eq!(err, ProgramError::Vault(VaultError::AlreadyInitialized));
}

#[test]
fn create_vault_twice_is_rejected() {
    let w = setup();
    let accounts = vec![
        acct(w.vault_key, w.system, false, true, w.vault_data.clone()),
        acct(w.vault_usdc_key, w.system, false, true, vec![]),
        acct(w.owner, w.system, true, true, vec![]),
        acct(w.config_key, w.program_id, false, false, w.config_data.clone()),
        acct(w.mint, w.token_program, false, false, vec![]),
        acct(w.system, w.system, false, false, vec![]),
        acct(w.token_program, w.system, false, false, vec![]),
        acct(w.rent, w.system, false, false, vec![]),
    ];
    let err = process_create_vault(&w.program_id, &accounts, w.now).unwrap_err();
    assert_eq!(err, ProgramError::Vault(VaultError::AccountAlreadyExists));
}

#[test]
fn upsert_preserves_used_notional() {
    let mut w = setup();
    deposit(&mut w, 1_000_000).unwrap();
    let delegate = addr(906);
    let delegate_data = upsert(&mut w, &delegate, PERM_TRADE, 500_000, 5_000).unwrap();
    let (_vd, dd) = lock_as(&w, &delegate, &delegate_data, 0, 300_000).unwrap();
    let consumed = dd.unwrap();

    // Re-granting with a lower cap keeps the consumed exposure.
    let (delegate_key, _b) = derive(
        &[b"delegate", &pubkey_of(&w.owner).to_bytes(), &pubkey_of(&delegate).to_bytes()],
        &w.program_id,
    );
    let accounts = vec![
        acct(delegate_key, w.program_id, false, true, consumed),
        acct(w.vault_key, w.program_id, false, true, w.vault_data.clone()),
        acct(w.owner, w.system, true, true, vec![]),
        acct(w.config_key, w.program_id, false, false, w.config_data.clone()),
        acct(w.system, w.system, false, false, vec![]),
    ];
    let eff = process_upsert_delegate(
        &w.program_id,
        &accounts,
        &delegate,
        PERM_TRADE,
        200_000,
        6_000,
        w.slot,
        w.now,
    )
    .unwrap();
    assert!(!eff.created);
    let d = decode_delegate(&eff.delegate_data).unwrap();
    assert_eq!(d.used_notional, 300_000);
    assert_eq!(d.max_notional, 200_000);
    // Consumption above the lowered cap blocks further locking.
    let err = lock_as(&w, &delegate, &eff.delegate_data, 0, 1).unwrap_err();
    assert_eq!(err, ProgramError::Vault(VaultError::NotionalLimitExceeded));
}

#[test]
fn upsert_rejects_bad_parameters() {
    let mut w = setup();
    deposit(&mut w, 1).unwrap();
    let delegate = addr(907);
    let err = upsert(&mut w, &delegate, 0, 500_000, 5_000).unwrap_err();
    assert_eq!(err, ProgramError::Vault(VaultError::InvalidPermissions));
    let err = upsert(&mut w, &delegate, PERM_TRADE, 0, 5_000).unwrap_err();
    assert_eq!(err, ProgramError::Vault(VaultError::InvalidMaxNotional));
    let err = upsert(&mut w, &delegate, PERM_TRADE, 1_000_000_000_000_001, 5_000).unwrap_err();
    assert_eq!(err, ProgramError::Vault(VaultError::InvalidMaxNotional));
    let slot = w.slot;
    let err = upsert(&mut w, &delegate, PERM_TRADE, 500_000, slot).unwrap_err();
    assert_eq!(err, ProgramError::Vault(VaultError::InvalidExpirySlot));
    let err = upsert(&mut w, &delegate, PERM_TRADE, 500_000, slot + 15_768_001).unwrap_err();
    assert_eq!(err, ProgramError::Vault(VaultError::InvalidExpirySlot));
}

#[test]
fn deposit_amount_bounds_are_enforced() {
    let mut w = setup();
    let err = deposit(&mut w, 0).unwrap_err();
    assert_eq!(err, ProgramError::Vault(VaultError::InvalidAmount));
    let err = deposit(&mut w, 1_000_000_000_000_001).unwrap_err();
    assert_eq!(err, ProgramError::Vault(VaultError::InvalidAmount));
    deposit(&mut w, 1_000_000_000_000_000).unwrap();
}

#[test]
fn pnl_settlement_adjusts_free_collateral() {
    let mut w = setup();
    deposit(&mut w, 1_000_000).unwrap();
    let (vault_data, dd) = lock_as(&w, &w.owner.clone(), &[], 400_000, 0).unwrap();
    assert!(dd.is_none());
    w.vault_data = vault_data;

    // A loss of 50_000 on top of a full release.
    let accounts = vec![
        acct(w.vault_key, w.program_id, false, true, w.vault_data.clone()),
        acct(w.owner, w.system, true, false, vec![]),
        acct(addr(903), w.program_id, false, true, vec![]),
        acct(w.config_key, w.program_id, false, false, w.config_data.clone()),
    ];
    let eff = process_unlock_margin_and_update_pnl(
        &w.program_id,
        &accounts,
        400_000,
        -50_000,
        0,
        w.slot,
        w.now,
    )
    .unwrap();
    let v = decode_user_vault(&eff.vault_data).unwrap();
    assert_eq!(v.free_collateral, 950_000);
    assert_eq!(v.locked_collateral, 0);

    // Releasing more than is locked underflows.
    let err = process_unlock_margin_and_update_pnl(
        &w.program_id,
        &accounts,
        400_001,
        0,
        0,
        w.slot,
        w.now,
    )
    .unwrap_err();
    assert_eq!(err, ProgramError::Vault(VaultError::ArithmeticUnderflow));
}

#[test]
fn guard_failures_are_reported_individually() {
    let mut w = setup();
    deposit(&mut w, 1_000).unwrap();
    let owner_usdc = addr(310);
    let base = |signer: Address, signed: bool, vault_writable: bool, vault_owner: Address| {
        vec![
            acct(w.vault_key, vault_owner, false, vault_writable, w.vault_data.clone()),
            acct(signer, w.system, signed, false, vec![]),
            acct(owner_usdc, w.token_program, false, true, token_bytes(&w.mint, &w.owner, 0)),
            acct(
                w.vault_usdc_key,
                w.token_program,
                false,
                true,
                token_bytes(&w.mint, &w.vault_usdc_key, w.vault_balance),
            ),
            acct(w.config_key, w.program_id, false, false, w.config_data.clone()),
            acct(w.token_program, w.system, false, false, vec![]),
        ]
    };

    // Unsigned caller.
    let accounts = base(w.owner, false, true, w.program_id);
    let err = process_withdraw(&w.program_id, &accounts, 1, w.slot, w.now).unwrap_err();
    assert_eq!(err, ProgramError::MissingRequiredSignature);

    // Non-writable vault record.
    let accounts = base(w.owner, true, false, w.program_id);
    let err = process_withdraw(&w.program_id, &accounts, 1, w.slot, w.now).unwrap_err();
    assert_eq!(err, ProgramError::InvalidAccountData);

    // Vault record owned by the wrong program.
    let accounts = base(w.owner, true, true, addr(666));
    let err = process_withdraw(&w.program_id, &accounts, 1, w.slot, w.now).unwrap_err();
    assert_eq!(err, ProgramError::IllegalOwner);

    // Too few account references.
    let accounts = vec![acct(w.vault_key, w.program_id, false, true, w.vault_data.clone())];
    let err = process_withdraw(&w.program_id, &accounts, 1, w.slot, w.now).unwrap_err();
    assert_eq!(err, ProgramError::NotEnoughAccountKeys);

    // A non-owner signer with no delegate record supplied.
    let accounts = base(addr(777), true, true, w.program_id);
    let err = process_withdraw(&w.program_id, &accounts, 1, w.slot, w.now).unwrap_err();
    assert_eq!(err, ProgramError::Vault(VaultError::InvalidDelegate));

    // A depositor who is not the vault's owner.
    let deposit_accounts = vec![
        acct(w.vault_key, w.program_id, false, true, w.vault_data.clone()),
        acct(addr(777), w.system, true, false, vec![]),
        acct(owner_usdc, w.token_program, false, true, token_bytes(&w.mint, &w.owner, 0)),
        acct(
            w.vault_usdc_key,
            w.token_program,
            false,
            true,
            token_bytes(&w.mint, &w.vault_usdc_key, w.vault_balance),
        ),
        acct(w.config_key, w.program_id, false, false, w.config_data.clone()),
        acct(w.token_program, w.system, false, false, vec![]),
    ];
    let err = process_deposit(&w.program_id, &deposit_accounts, 1, w.now).unwrap_err();
    assert_eq!(err, ProgramError::Vault(VaultError::InvalidOwner));

    // The wrong system program account at initialization.
    let accounts = vec![
        acct(w.config_key, w.system, false, true, vec![]),
        acct(w.admin, w.system, true, true, vec![]),
        acct(addr(888), w.system, false, false, vec![]),
        acct(w.rent, w.system, false, false, vec![]),
    ];
    let err =
        process_initialize_global_config(&w.program_id, &accounts, &w.mint, w.now).unwrap_err();
    assert_eq!(err, ProgramError::IncorrectProgramId);

    // A configuration record slot that is not the derived address.
    let accounts = vec![
        acct(addr(889), w.system, false, true, vec![]),
        acct(w.admin, w.system, true, true, vec![]),
        acct(w.system, w.system, false, false, vec![]),
        acct(w.rent, w.system, false, false, vec![]),
    ];
    let err =
        process_initialize_global_config(&w.program_id, &accounts, &w.mint, w.now).unwrap_err();
    assert_eq!(err, ProgramError::InvalidSeeds);

    // A mint that is not the configured one at vault creation.
    let (vault2_key, _b) = derive(&[b"vault", &pubkey_of(&addr(778)).to_bytes()], &w.program_id);
    let accounts = vec![
        acct(vault2_key, w.system, false, true, vec![]),
        acct(addr(779), w.system, false, true, vec![]),
        acct(addr(778), w.system, true, true, vec![]),
        acct(w.config_key, w.program_id, false, false, w.config_data.clone()),
        acct(addr(201), w.token_program, false, false, vec![]),
        acct(w.system, w.system, false, false, vec![]),
        acct(w.token_program, w.system, false, false, vec![]),
        acct(w.rent, w.system, false, false, vec![]),
    ];
    let err = process_create_vault(&w.program_id, &accounts, w.now).unwrap_err();
    assert_eq!(err, ProgramError::Vault(VaultError::InvalidTokenMint));
}

#[test]
fn dispatcher_runs_a_full_deposit() {
    let mut w = setup();
    deposit(&mut w, 10).unwrap();
    let owner_usdc = addr(310);
    let accounts = vec![
        acct(w.vault_key, w.program_id, false, true, w.vault_data.clone()),
        acct(w.owner, w.system, true, false, vec![]),
        acct(owner_usdc, w.token_program, false, true, token_bytes(&w.mint, &w.owner, 500)),
        acct(
            w.vault_usdc_key,
            w.token_program,
            false,
            true,
            token_bytes(&w.mint, &w.vault_usdc_key, w.vault_balance),
        ),
        acct(w.config_key, w.program_id, false, false, w.config_data.clone()),
        acct(w.token_program, w.system, false, false, vec![]),
    ];
    let payload = vault_program::instruction::encode_instruction(
        &vault_program::instruction::VaultInstruction::Deposit { amount: 90 },
    );
    let effects = vault_program::processor::process_instruction(
        &w.program_id,
        &accounts,
        &payload,
        w.slot,
        w.now,
    )
    .unwrap();
    match effects {
        vault_program::processor::ProcessEffects::Deposit(eff) => {
            assert_eq!(eff.amount, 90);
            let v = decode_user_vault(&eff.vault_data).unwrap();
            assert_eq!(v.free_collateral, 100);
            assert_eq!(v.total_deposit, 100);
        }
        other => panic!("unexpected effects: {:?}", other),
    }
}
