//! Unit coverage of the record codec, the instruction wire format, the
//! checked arithmetic, the error codes, deterministic address
//! verification, and the token-account checks.

use solana_program::pubkey::Pubkey;
use vault_program::address::Address;
use vault_program::codec::{
    decode_delegate, decode_global_config, decode_user_vault, encode_delegate,
    encode_global_config, encode_user_vault, DELEGATE_SIZE, GLOBAL_CONFIG_SIZE, USER_VAULT_SIZE,
};
use vault_program::error::{ProgramError, VaultError};
use vault_program::instruction::{encode_instruction, parse_instruction, VaultInstruction};
use vault_program::math::{safe_add, safe_add_signed, safe_sub};
use vault_program::processor::process_instruction;
use vault_program::state::{
    DelegateAccount, GlobalConfig, UserVault, DELEGATE_DISCRIMINATOR,
    GLOBAL_CONFIG_DISCRIMINATOR, PERM_TRADE, USER_VAULT_DISCRIMINATOR,
};
use vault_program::utils::{
    verify_pda, verify_token_account, verify_vault_balance_integrity, AccountView,
};

fn addr(n: u64) -> Address {
    Address { w0: n, w1: n.wrapping_mul(3), w2: 5, w3: 9 }
}

fn pubkey_of(a: &Address) -> Pubkey {
    let mut bytes = [0u8; 32];
    bytes[0..8].copy_from_slice(&a.w0.to_le_bytes());
    bytes[8..16].copy_from_slice(&a.w1.to_le_bytes());
    bytes[16..24].copy_from_slice(&a.w2.to_le_bytes());
    bytes[24..32].copy_from_slice(&a.w3.to_le_bytes());
    Pubkey::new_from_array(bytes)
}

fn addr_of(pk: &Pubkey) -> Address {
    let bytes = pk.to_bytes();
    Address {
        w0: u64::from_le_bytes(bytes[0..8].try_into().unwrap()),
        w1: u64::from_le_bytes(bytes[8..16].try_into().unwrap()),
        w2: u64::from_le_bytes(bytes[16..24].try_into().unwrap()),
        w3: u64::from_le_bytes(bytes[24..32].try_into().unwrap()),
    }
}

fn token_bytes(mint: &Address, owner: &Address, amount: u64) -> Vec<u8> {
    let mut d = vec![0u8; 165];
    d[0..32].copy_from_slice(&pubkey_of(mint).to_bytes());
    d[32..64].copy_from_slice(&pubkey_of(owner).to_bytes());
    d[64..72].copy_from_slice(&amount.to_le_bytes());
    d[108] = 1;
    d
}

fn sample_vault() -> UserVault {
    UserVault {
        discriminator: USER_VAULT_DISCRIMINATOR,
        version: 1,
        bump: 254,
        usdc_bump: 253,
        owner: addr(11),
        usdc_vault: addr(12),
        total_deposit: 5_000,
        total_withdrawn: 1_200,
        free_collateral: 3_000,
        locked_collateral: 800,
        flags: 0,
        created_at: 1_700_000_000,
        updated_at: 1_700_000_050,
    }
}

#[test]
fn global_config_codec_round_trip() {
    let c = GlobalConfig {
        discriminator: GLOBAL_CONFIG_DISCRIMINATOR,
        version: 1,
        bump: 255,
        admin: addr(1),
        usdc_mint: addr(2),
        created_at: -5,
    };
    let bytes = encode_global_config(&c);
    assert_eq!(bytes.len(), GLOBAL_CONFIG_SIZE);
    assert_eq!(&bytes[0..8], &GLOBAL_CONFIG_DISCRIMINATOR.to_le_bytes());
    assert_eq!(bytes[8], 1);
    assert_eq!(bytes[9], 255);
    assert_eq!(decode_global_config(&bytes).unwrap(), c);
    // Wrong kind and wrong size are rejected.
    let vault_bytes = encode_user_vault(&sample_vault());
    assert_eq!(
        decode_global_config(&vault_bytes).unwrap_err(),
        VaultError::DeserializationError
    );
    assert_eq!(
        decode_global_config(&bytes[1..]).unwrap_err(),
        VaultError::DeserializationError
    );
}

#[test]
fn user_vault_codec_round_trip() {
    let v = sample_vault();
    let bytes = encode_user_vault(&v);
    assert_eq!(bytes.len(), USER_VAULT_SIZE);
    assert_eq!(&bytes[0..8], &USER_VAULT_DISCRIMINATOR.to_le_bytes());
    // The balances sit at their documented offsets, little-endian.
    assert_eq!(&bytes[96..104], &3_000u64.to_le_bytes());
    assert_eq!(&bytes[104..112], &800u64.to_le_bytes());
    assert_eq!(decode_user_vault(&bytes).unwrap(), v);
    let mut corrupt = bytes.clone();
    corrupt[0] ^= 0xff;
    assert_eq!(decode_user_vault(&corrupt).unwrap_err(), VaultError::DeserializationError);
}

#[test]
fn delegate_codec_round_trip() {
    let d = DelegateAccount {
        discriminator: DELEGATE_DISCRIMINATOR,
        version: 1,
        bump: 250,
        owner: addr(21),
        vault: addr(22),
        delegate: addr(23),
        is_active: true,
        permissions: PERM_TRADE,
        max_notional: 500_000,
        used_notional: 123,
        expiry_slot: 42_000,
        nonce: 7,
        created_at: 1_700_000_000,
        updated_at: 1_700_000_001,
    };
    let bytes = encode_delegate(&d);
    assert_eq!(bytes.len(), DELEGATE_SIZE);
    assert_eq!(bytes[112], 1);
    assert_eq!(decode_delegate(&bytes).unwrap(), d);
    // A non-boolean activity byte is rejected.
    let mut corrupt = bytes.clone();
    corrupt[112] = 2;
    assert_eq!(decode_delegate(&corrupt).unwrap_err(), VaultError::DeserializationError);
}

#[test]
fn instruction_wire_round_trip() {
    let cases = vec![
        VaultInstruction::InitializeGlobalConfig { usdc_mint: addr(31) },
        VaultInstruction::CreateVault,
        VaultInstruction::Deposit { amount: 1_000_000 },
        VaultInstruction::Withdraw { amount: 3 },
        VaultInstruction::UpsertDelegate {
            delegate_pubkey: addr(32),
            permissions: 3,
            max_notional: 77,
            expiry_slot: 99,
        },
        VaultInstruction::RevokeDelegate { delegate_pubkey: addr(33) },
        VaultInstruction::LockMargin { required_margin: 5, required_notional: 6 },
        VaultInstruction::UnlockMarginAndUpdatePnl {
            unlocked_margin: 8,
            pnl_delta: -9,
            notional_delta: -10,
        },
        VaultInstruction::TransferAdmin { new_admin: addr(34) },
        VaultInstruction::RenounceAdmin,
        VaultInstruction::FreezeVault,
        VaultInstruction::UnfreezeVault,
    ];
    for (tag, ins) in cases.into_iter().enumerate() {
        let bytes = encode_instruction(&ins);
        assert_eq!(bytes[0] as usize, tag);
        assert_eq!(parse_instruction(&bytes).unwrap(), ins);
    }
    // Exact layout of a deposit: tag byte then the amount little-endian.
    let bytes = encode_instruction(&VaultInstruction::Deposit { amount: 258 });
    assert_eq!(bytes, vec![2u8, 2, 1, 0, 0, 0, 0, 0, 0]);
    // Unknown tags, empty payloads, and wrong lengths are rejected.
    assert_eq!(parse_instruction(&[]).unwrap_err(), VaultError::DeserializationError);
    assert_eq!(parse_instruction(&[12]).unwrap_err(), VaultError::DeserializationError);
    assert_eq!(parse_instruction(&[2, 1, 0]).unwrap_err(), VaultError::DeserializationError);
}

#[test]
fn checked_arithmetic() {
    assert_eq!(safe_add(2, 3), Ok(5));
    assert_eq!(safe_add(u64::MAX, 1), Err(VaultError::ArithmeticOverflow));
    assert_eq!(safe_sub(5, 2), Ok(3));
    assert_eq!(safe_sub(2, 5), Err(VaultError::ArithmeticUnderflow));
    assert_eq!(safe_add_signed(10, 5), Ok(15));
    assert_eq!(safe_add_signed(10, -5), Ok(5));
    assert_eq!(safe_add_signed(10, -11), Err(VaultError::ArithmeticUnderflow));
    assert_eq!(safe_add_signed(u64::MAX, 1), Err(VaultError::ArithmeticOverflow));
    assert_eq!(safe_add_signed(u64::MAX, i64::MIN), Ok(u64::MAX - 9_223_372_036_854_775_808));
    assert_eq!(safe_add_signed(0, i64::MIN), Err(VaultError::ArithmeticUnderflow));
}

#[test]
fn error_codes_follow_declaration_order() {
    assert_eq!(VaultError::InvalidAuthority.code(), 0);
    assert_eq!(VaultError::InvalidGlobalConfig.code(), 1);
    assert_eq!(VaultError::AccountAlreadyExists.code(), 6);
    assert_eq!(VaultError::InsufficientFreeCollateral.code(), 11);
    assert_eq!(VaultError::PermissionDenied.code(), 14);
    assert_eq!(VaultError::NotionalLimitExceeded.code(), 15);
    assert_eq!(VaultError::VaultFrozen.code(), 16);
    assert_eq!(VaultError::NumericalOverflow.code(), 26);
    assert_eq!(VaultError::VaultFrozen.message(), "Vault Is Frozen");
    assert_eq!(ProgramError::from(VaultError::VaultFrozen), ProgramError::Vault(VaultError::VaultFrozen));
}

#[test]
fn pda_verification_matches_host_derivation() {
    let program_id = addr(40);
    let owner = addr(41);
    let (expected, expected_bump) = Pubkey::find_program_address(
        &[b"vault", &pubkey_of(&owner).to_bytes()],
        &pubkey_of(&program_id),
    );
    let seeds = vec![b"vault".to_vec(), pubkey_of(&owner).to_bytes().to_vec()];
    let bump = verify_pda(&addr_of(&expected), &program_id, &seeds).unwrap();
    assert_eq!(bump, expected_bump);
    // A substituted address is refused.
    assert_eq!(
        verify_pda(&addr(42), &program_id, &seeds).unwrap_err(),
        ProgramError::InvalidSeeds
    );
    // Other seeds derive another address, so the check fails too.
    let other = vec![b"delegate".to_vec(), pubkey_of(&owner).to_bytes().to_vec()];
    assert_eq!(
        verify_pda(&addr_of(&expected), &program_id, &other).unwrap_err(),
        ProgramError::InvalidSeeds
    );
}

#[test]
fn token_account_checks_read_the_stored_fields() {
    let mint = addr(50);
    let owner = addr(51);
    let data = token_bytes(&mint, &owner, 777);
    let acc = verify_token_account(&data, &owner, &mint).unwrap();
    assert_eq!(acc.amount, 777);
    assert_eq!(acc.owner, owner);
    assert_eq!(acc.mint, mint);
    assert_eq!(
        verify_token_account(&data, &addr(52), &mint).unwrap_err(),
        ProgramError::Vault(VaultError::InvalidTokenAccount)
    );
    assert_eq!(
        verify_token_account(&data, &owner, &addr(53)).unwrap_err(),
        ProgramError::Vault(VaultError::InvalidTokenMint)
    );
    let mut uninit = data.clone();
    uninit[108] = 0;
    assert_eq!(
        verify_token_account(&uninit, &owner, &mint).unwrap_err(),
        ProgramError::UninitializedAccount
    );
    assert_eq!(
        verify_token_account(&data[..100], &owner, &mint).unwrap_err(),
        ProgramError::InvalidAccountData
    );
}

#[test]
fn balance_integrity_check_compares_actual_to_ledger() {
    let v = sample_vault();
    let mint = addr(50);
    let matching = token_bytes(&mint, &addr(51), 3_800);
    assert!(verify_vault_balance_integrity(&v, &matching).is_ok());
    let off_by_one = token_bytes(&mint, &addr(51), 3_801);
    assert_eq!(
        verify_vault_balance_integrity(&v, &off_by_one).unwrap_err(),
        ProgramError::Vault(VaultError::InvalidTokenAccount)
    );
}

#[test]
fn dispatcher_parses_and_routes() {
    // An undecodable payload is a deserialization error.
    let accounts: Vec<AccountView> = vec![];
    let err = process_instruction(&addr(60), &accounts, &[99, 1], 0, 0).unwrap_err();
    assert_eq!(err, ProgramError::Vault(VaultError::DeserializationError));
    // A decodable operation reaches its handler's first check.
    let bytes = encode_instruction(&VaultInstruction::Deposit { amount: 5 });
    let err = process_instruction(&addr(60), &accounts, &bytes, 0, 0).unwrap_err();
    assert_eq!(err, ProgramError::NotEnoughAccountKeys);
    let bytes = encode_instruction(&VaultInstruction::RenounceAdmin);
    let err = process_instruction(&addr(60), &accounts, &bytes, 0, 0).unwrap_err();
    assert_eq!(err, ProgramError::NotEnoughAccountKeys);
}

#[test]
fn address_bytes_round_trip() {
    let a = addr(70);
    let bytes = a.to_bytes();
    assert_eq!(bytes.len(), 32);
    assert_eq!(Address::from_bytes(&bytes), a);
    assert_eq!(pubkey_of(&a).to_bytes().to_vec(), bytes);
    assert_eq!(Address::zero().to_bytes(), vec![0u8; 32]);
}
