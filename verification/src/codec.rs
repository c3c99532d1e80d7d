//! Fixed-layout record serialization.
//!
//! Every record is stored fixed-width, discriminator first, little-endian,
//! with a reserved trailing byte range for forward-compatible extension:
//! `GlobalConfig` in 152 bytes, `UserVault` in 208, `DelegateAccount` in
//! 237. A decoder rejects any byte string whose length or discriminator
//! does not match the expected record kind.

use crate::address::{
    lemma_address_from_bytes_view, lemma_address_view_injective, lemma_address_view_len, Address,
};
use crate::error::VaultError;
use crate::state::{
    DelegateAccount, GlobalConfig, UserVault, DELEGATE_DISCRIMINATOR, GLOBAL_CONFIG_DISCRIMINATOR,
    USER_VAULT_DISCRIMINATOR,
};
use vstd::bytes::{
    lemma_auto_spec_u64_to_from_le_bytes, spec_u64_from_le_bytes, spec_u64_to_le_bytes,
    u64_from_le_bytes, u64_to_le_bytes,
};
use vstd::prelude::*;
use vstd::slice::slice_subrange;

verus! {

/// Stored size of a `GlobalConfig` record.
pub const GLOBAL_CONFIG_SIZE: usize = 152;

/// Stored size of a `UserVault` record.
pub const USER_VAULT_SIZE: usize = 208;

/// Stored size of a `DelegateAccount` record.
pub const DELEGATE_SIZE: usize = 237;

/// A run of `n` zero bytes.
pub open spec fn zero_bytes(n: nat) -> Seq<u8> {
    Seq::new(n, |i: int| 0u8)
}

/// Appends `n` zero bytes.
fn push_zero_bytes(v: &mut Vec<u8>, n: usize)
    ensures
        final(v)@ == old(v)@ + zero_bytes(n as nat),
{
    let mut i: usize = 0;
    while i < n
        invariant
            i <= n,
            v@ == old(v)@ + zero_bytes(i as nat),
        decreases n - i,
    {
        v.push(0);
        proof {
            assert(v@ =~= old(v)@ + zero_bytes((i + 1) as nat));
        }
        i = i + 1;
    }
}

/// Appends a `u64`, little-endian.
fn push_u64(v: &mut Vec<u8>, x: u64)
    ensures
        final(v)@ == old(v)@ + spec_u64_to_le_bytes(x),
{
    let mut b = u64_to_le_bytes(x);
    v.append(&mut b);
}

/// Appends an `i64` as its two's-complement bytes, little-endian.
fn push_i64(v: &mut Vec<u8>, x: i64)
    ensures
        final(v)@ == old(v)@ + spec_u64_to_le_bytes(x as u64),
{
    let mut b = u64_to_le_bytes(x as u64);
    v.append(&mut b);
}

/// Appends the 32 bytes of an address.
fn push_address(v: &mut Vec<u8>, a: &Address)
    ensures
        final(v)@ == old(v)@ + a@,
{
    let mut b = a.to_bytes();
    v.append(&mut b);
}

/// Reads the `u64` stored little-endian at byte offset `i`.
fn read_u64(d: &[u8], i: usize) -> (r: u64)
    requires
        i + 8 <= d@.len(),
    ensures
        r == spec_u64_from_le_bytes(d@.subrange(i as int, i + 8)),
{
    let n: usize = d.len();
    proof {
        assert(i + 8 <= n);
    }
    u64_from_le_bytes(slice_subrange(d, i, i + 8))
}

/// Reads the `i64` stored as two's-complement little-endian bytes at byte
/// offset `i`.
fn read_i64(d: &[u8], i: usize) -> (r: i64)
    requires
        i + 8 <= d@.len(),
    ensures
        r == spec_u64_from_le_bytes(d@.subrange(i as int, i + 8)) as i64,
{
    let n: usize = d.len();
    proof {
        assert(i + 8 <= n);
    }
    #[verifier::truncate]
    let r = u64_from_le_bytes(slice_subrange(d, i, i + 8)) as i64;
    r
}

/// Reads the address stored at byte offset `i`.
fn read_address(d: &[u8], i: usize) -> (r: Address)
    requires
        i + 32 <= d@.len(),
    ensures
        r == Address::spec_from_bytes(d@.subrange(i as int, i + 32)),
{
    let n: usize = d.len();
    proof {
        assert(i + 32 <= n);
    }
    Address::from_bytes(slice_subrange(d, i, i + 32))
}

/// The 152-byte stored form of a configuration record.
pub open spec fn spec_encode_global_config(c: GlobalConfig) -> Seq<u8> {
    spec_u64_to_le_bytes(c.discriminator) + seq![c.version, c.bump] + zero_bytes(6) + c.admin@
        + c.usdc_mint@ + spec_u64_to_le_bytes(c.created_at as u64) + zero_bytes(64)
}

/// What decoding a configuration record yields: the record, when the bytes
/// have the exact stored size and the right discriminator; a
/// deserialization error otherwise.
pub open spec fn spec_decode_global_config(d: Seq<u8>) -> Result<GlobalConfig, VaultError> {
    if d.len() == GLOBAL_CONFIG_SIZE && spec_u64_from_le_bytes(d.subrange(0, 8))
        == GLOBAL_CONFIG_DISCRIMINATOR {
        Ok(
            GlobalConfig {
                discriminator: GLOBAL_CONFIG_DISCRIMINATOR,
                version: d[8],
                bump: d[9],
                admin: Address::spec_from_bytes(d.subrange(16, 48)),
                usdc_mint: Address::spec_from_bytes(d.subrange(48, 80)),
                created_at: spec_u64_from_le_bytes(d.subrange(80, 88)) as i64,
            },
        )
    } else {
        Err(VaultError::DeserializationError)
    }
}

/// Serializes a configuration record into its 152-byte stored form.
pub fn encode_global_config(c: &GlobalConfig) -> (r: Vec<u8>)
    ensures
        r@ == spec_encode_global_config(*c),
        r@.len() == GLOBAL_CONFIG_SIZE,
{
    let mut v: Vec<u8> = Vec::new();
    push_u64(&mut v, c.discriminator);
    v.push(c.version);
    v.push(c.bump);
    push_zero_bytes(&mut v, 6);
    push_address(&mut v, &c.admin);
    push_address(&mut v, &c.usdc_mint);
    push_i64(&mut v, c.created_at);
    push_zero_bytes(&mut v, 64);
    proof {
        lemma_auto_spec_u64_to_from_le_bytes();
        lemma_address_view_len(c.admin);
        lemma_address_view_len(c.usdc_mint);
        assert(v@ =~= spec_encode_global_config(*c));
    }
    v
}

/// Parses a configuration record, rejecting a byte string of the wrong
/// size or kind.
pub fn decode_global_config(d: &[u8]) -> (r: Result<GlobalConfig, VaultError>)
    ensures
        r == spec_decode_global_config(d@),
{
    if d.len() != GLOBAL_CONFIG_SIZE {
        return Err(VaultError::DeserializationError);
    }
    let discriminator = read_u64(d, 0);
    if discriminator != GLOBAL_CONFIG_DISCRIMINATOR {
        return Err(VaultError::DeserializationError);
    }
    Ok(
        GlobalConfig {
            discriminator,
            version: d[8],
            bump: d[9],
            admin: read_address(d, 16),
            usdc_mint: read_address(d, 48),
            created_at: read_i64(d, 80),
        },
    )
}

/// The 208-byte stored form of a vault record.
pub open spec fn spec_encode_user_vault(v: UserVault) -> Seq<u8> {
    spec_u64_to_le_bytes(v.discriminator) + seq![v.version, v.bump, v.usdc_bump] + zero_bytes(5)
        + v.owner@ + v.usdc_vault@ + spec_u64_to_le_bytes(v.total_deposit) + spec_u64_to_le_bytes(
        v.total_withdrawn,
    ) + spec_u64_to_le_bytes(v.free_collateral) + spec_u64_to_le_bytes(v.locked_collateral)
        + spec_u64_to_le_bytes(v.flags) + spec_u64_to_le_bytes(v.created_at as u64)
        + spec_u64_to_le_bytes(v.updated_at as u64) + zero_bytes(72)
}

/// What decoding a vault record yields: the record, when the bytes have
/// the exact stored size and the right discriminator; a deserialization
/// error otherwise.
pub open spec fn spec_decode_user_vault(d: Seq<u8>) -> Result<UserVault, VaultError> {
    if d.len() == USER_VAULT_SIZE && spec_u64_from_le_bytes(d.subrange(0, 8))
        == USER_VAULT_DISCRIMINATOR {
        Ok(
            UserVault {
                discriminator: USER_VAULT_DISCRIMINATOR,
                version: d[8],
                bump: d[9],
                usdc_bump: d[10],
                owner: Address::spec_from_bytes(d.subrange(16, 48)),
                usdc_vault: Address::spec_from_bytes(d.subrange(48, 80)),
                total_deposit: spec_u64_from_le_bytes(d.subrange(80, 88)),
                total_withdrawn: spec_u64_from_le_bytes(d.subrange(88, 96)),
                free_collateral: spec_u64_from_le_bytes(d.subrange(96, 104)),
                locked_collateral: spec_u64_from_le_bytes(d.subrange(104, 112)),
                flags: spec_u64_from_le_bytes(d.subrange(112, 120)),
                created_at: spec_u64_from_le_bytes(d.subrange(120, 128)) as i64,
                updated_at: spec_u64_from_le_bytes(d.subrange(128, 136)) as i64,
            },
        )
    } else {
        Err(VaultError::DeserializationError)
    }
}

/// Serializes a vault record into its 208-byte stored form.
pub fn encode_user_vault(v: &UserVault) -> (r: Vec<u8>)
    ensures
        r@ == spec_encode_user_vault(*v),
        r@.len() == USER_VAULT_SIZE,
{
    let mut out: Vec<u8> = Vec::new();
    push_u64(&mut out, v.discriminator);
    out.push(v.version);
    out.push(v.bump);
    out.push(v.usdc_bump);
    push_zero_bytes(&mut out, 5);
    push_address(&mut out, &v.owner);
    push_address(&mut out, &v.usdc_vault);
    push_u64(&mut out, v.total_deposit);
    push_u64(&mut out, v.total_withdrawn);
    push_u64(&mut out, v.free_collateral);
    push_u64(&mut out, v.locked_collateral);
    push_u64(&mut out, v.flags);
    push_i64(&mut out, v.created_at);
    push_i64(&mut out, v.updated_at);
    push_zero_bytes(&mut out, 72);
    proof {
        lemma_auto_spec_u64_to_from_le_bytes();
        lemma_address_view_len(v.owner);
        lemma_address_view_len(v.usdc_vault);
        assert(out@ =~= spec_encode_user_vault(*v));
    }
    out
}

/// Parses a vault record, rejecting a byte string of the wrong size or
/// kind.
pub fn decode_user_vault(d: &[u8]) -> (r: Result<UserVault, VaultError>)
    ensures
        r == spec_decode_user_vault(d@),
{
    if d.len() != USER_VAULT_SIZE {
        return Err(VaultError::DeserializationError);
    }
    let discriminator = read_u64(d, 0);
    if discriminator != USER_VAULT_DISCRIMINATOR {
        return Err(VaultError::DeserializationError);
    }
    Ok(
        UserVault {
            discriminator,
            version: d[8],
            bump: d[9],
            usdc_bump: d[10],
            owner: read_address(d, 16),
            usdc_vault: read_address(d, 48),
            total_deposit: read_u64(d, 80),
            total_withdrawn: read_u64(d, 88),
            free_collateral: read_u64(d, 96),
            locked_collateral: read_u64(d, 104),
            flags: read_u64(d, 112),
            created_at: read_i64(d, 120),
            updated_at: read_i64(d, 128),
        },
    )
}

/// The 237-byte stored form of a delegate authorization record.
pub open spec fn spec_encode_delegate(a: DelegateAccount) -> Seq<u8> {
    spec_u64_to_le_bytes(a.discriminator) + seq![a.version, a.bump] + zero_bytes(6) + a.owner@
        + a.vault@ + a.delegate@ + seq![
        (if a.is_active {
            1u8
        } else {
            0u8
        }),
    ] + zero_bytes(7) + spec_u64_to_le_bytes(a.permissions) + spec_u64_to_le_bytes(a.max_notional)
        + spec_u64_to_le_bytes(a.used_notional) + spec_u64_to_le_bytes(a.expiry_slot)
        + spec_u64_to_le_bytes(a.nonce) + spec_u64_to_le_bytes(a.created_at as u64)
        + spec_u64_to_le_bytes(a.updated_at as u64) + zero_bytes(61)
}

/// What decoding a delegate record yields: the record, when the bytes
/// have the exact stored size, the right discriminator, and a strict 0/1
/// activity byte; a deserialization error otherwise.
pub open spec fn spec_decode_delegate(d: Seq<u8>) -> Result<DelegateAccount, VaultError> {
    if d.len() == DELEGATE_SIZE && spec_u64_from_le_bytes(d.subrange(0, 8))
        == DELEGATE_DISCRIMINATOR && (d[112] == 0 || d[112] == 1) {
        Ok(
            DelegateAccount {
                discriminator: DELEGATE_DISCRIMINATOR,
                version: d[8],
                bump: d[9],
                owner: Address::spec_from_bytes(d.subrange(16, 48)),
                vault: Address::spec_from_bytes(d.subrange(48, 80)),
                delegate: Address::spec_from_bytes(d.subrange(80, 112)),
                is_active: d[112] == 1,
                permissions: spec_u64_from_le_bytes(d.subrange(120, 128)),
                max_notional: spec_u64_from_le_bytes(d.subrange(128, 136)),
                used_notional: spec_u64_from_le_bytes(d.subrange(136, 144)),
                expiry_slot: spec_u64_from_le_bytes(d.subrange(144, 152)),
                nonce: spec_u64_from_le_bytes(d.subrange(152, 160)),
                created_at: spec_u64_from_le_bytes(d.subrange(160, 168)) as i64,
                updated_at: spec_u64_from_le_bytes(d.subrange(168, 176)) as i64,
            },
        )
    } else {
        Err(VaultError::DeserializationError)
    }
}

/// Serializes a delegate record into its 237-byte stored form.
pub fn encode_delegate(a: &DelegateAccount) -> (r: Vec<u8>)
    ensures
        r@ == spec_encode_delegate(*a),
        r@.len() == DELEGATE_SIZE,
{
    let mut out: Vec<u8> = Vec::new();
    push_u64(&mut out, a.discriminator);
    out.push(a.version);
    out.push(a.bump);
    push_zero_bytes(&mut out, 6);
    push_address(&mut out, &a.owner);
    push_address(&mut out, &a.vault);
    push_address(&mut out, &a.delegate);
    out.push(if a.is_active {
        1
    } else {
        0
    });
    push_zero_bytes(&mut out, 7);
    push_u64(&mut out, a.permissions);
    push_u64(&mut out, a.max_notional);
    push_u64(&mut out, a.used_notional);
    push_u64(&mut out, a.expiry_slot);
    push_u64(&mut out, a.nonce);
    push_i64(&mut out, a.created_at);
    push_i64(&mut out, a.updated_at);
    push_zero_bytes(&mut out, 61);
    proof {
        lemma_auto_spec_u64_to_from_le_bytes();
        lemma_address_view_len(a.owner);
        lemma_address_view_len(a.vault);
        lemma_address_view_len(a.delegate);
        assert(out@ =~= spec_encode_delegate(*a));
    }
    out
}

/// Parses a delegate record, rejecting a byte string of the wrong size or
/// kind.
pub fn decode_delegate(d: &[u8]) -> (r: Result<DelegateAccount, VaultError>)
    ensures
        r == spec_decode_delegate(d@),
{
    if d.len() != DELEGATE_SIZE {
        return Err(VaultError::DeserializationError);
    }
    let discriminator = read_u64(d, 0);
    if discriminator != DELEGATE_DISCRIMINATOR {
        return Err(VaultError::DeserializationError);
    }
    let active_byte = d[112];
    if active_byte != 0 && active_byte != 1 {
        return Err(VaultError::DeserializationError);
    }
    Ok(
        DelegateAccount {
            discriminator,
            version: d[8],
            bump: d[9],
            owner: read_address(d, 16),
            vault: read_address(d, 48),
            delegate: read_address(d, 80),
            is_active: active_byte == 1,
            permissions: read_u64(d, 120),
            max_notional: read_u64(d, 128),
            used_notional: read_u64(d, 136),
            expiry_slot: read_u64(d, 144),
            nonce: read_u64(d, 152),
            created_at: read_i64(d, 160),
            updated_at: read_i64(d, 168),
        },
    )
}


/// Decoding an encoded configuration record yields the record back.
pub proof fn lemma_global_config_round_trip(c: GlobalConfig)
    requires
        c.wf(),
    ensures
        spec_decode_global_config(spec_encode_global_config(c)) == Ok::<
            GlobalConfig,
            VaultError,
        >(c),
{
    lemma_auto_spec_u64_to_from_le_bytes();
    lemma_address_view_len(c.admin);
    lemma_address_view_len(c.usdc_mint);
    let e = spec_encode_global_config(c);
    assert(e.subrange(0, 8) =~= spec_u64_to_le_bytes(c.discriminator));
    assert(e[8] == c.version);
    assert(e[9] == c.bump);
    assert(e.subrange(16, 48) =~= c.admin@);
    assert(e.subrange(48, 80) =~= c.usdc_mint@);
    assert(e.subrange(80, 88) =~= spec_u64_to_le_bytes(c.created_at as u64));
    lemma_address_from_bytes_view(c.admin@);
    lemma_address_view_injective(Address::spec_from_bytes(c.admin@), c.admin);
    lemma_address_from_bytes_view(c.usdc_mint@);
    lemma_address_view_injective(Address::spec_from_bytes(c.usdc_mint@), c.usdc_mint);
    let c_created_at0 = c.created_at;
    assert(c_created_at0 as u64 as i64 == c_created_at0) by (bit_vector);
}

/// Decoding an encoded vault record yields the record back.
pub proof fn lemma_user_vault_round_trip(v: UserVault)
    requires
        v.wf(),
    ensures
        spec_decode_user_vault(spec_encode_user_vault(v)) == Ok::<UserVault, VaultError>(v),
{
    lemma_auto_spec_u64_to_from_le_bytes();
    lemma_address_view_len(v.owner);
    lemma_address_view_len(v.usdc_vault);
    let e = spec_encode_user_vault(v);
    assert(e.subrange(0, 8) =~= spec_u64_to_le_bytes(v.discriminator));
    assert(e[8] == v.version);
    assert(e[9] == v.bump);
    assert(e[10] == v.usdc_bump);
    assert(e.subrange(16, 48) =~= v.owner@);
    assert(e.subrange(48, 80) =~= v.usdc_vault@);
    assert(e.subrange(80, 88) =~= spec_u64_to_le_bytes(v.total_deposit));
    assert(e.subrange(88, 96) =~= spec_u64_to_le_bytes(v.total_withdrawn));
    assert(e.subrange(96, 104) =~= spec_u64_to_le_bytes(v.free_collateral));
    assert(e.subrange(104, 112) =~= spec_u64_to_le_bytes(v.locked_collateral));
    assert(e.subrange(112, 120) =~= spec_u64_to_le_bytes(v.flags));
    assert(e.subrange(120, 128) =~= spec_u64_to_le_bytes(v.created_at as u64));
    assert(e.subrange(128, 136) =~= spec_u64_to_le_bytes(v.updated_at as u64));
    lemma_address_from_bytes_view(v.owner@);
    lemma_address_view_injective(Address::spec_from_bytes(v.owner@), v.owner);
    lemma_address_from_bytes_view(v.usdc_vault@);
    lemma_address_view_injective(Address::spec_from_bytes(v.usdc_vault@), v.usdc_vault);
    let v_created_at0 = v.created_at;
    assert(v_created_at0 as u64 as i64 == v_created_at0) by (bit_vector);
    let v_updated_at0 = v.updated_at;
    assert(v_updated_at0 as u64 as i64 == v_updated_at0) by (bit_vector);
}

/// Decoding an encoded delegate record yields the record back.
pub proof fn lemma_delegate_round_trip(a: DelegateAccount)
    requires
        a.wf(),
    ensures
        spec_decode_delegate(spec_encode_delegate(a)) == Ok::<DelegateAccount, VaultError>(a),
{
    lemma_auto_spec_u64_to_from_le_bytes();
    lemma_address_view_len(a.owner);
    lemma_address_view_len(a.vault);
    lemma_address_view_len(a.delegate);
    let e = spec_encode_delegate(a);
    assert(e.subrange(0, 8) =~= spec_u64_to_le_bytes(a.discriminator));
    assert(e[8] == a.version);
    assert(e[9] == a.bump);
    assert(e.subrange(16, 48) =~= a.owner@);
    assert(e.subrange(48, 80) =~= a.vault@);
    assert(e.subrange(80, 112) =~= a.delegate@);
    assert(e[112] == if a.is_active {
        1u8
    } else {
        0u8
    });
    assert(e.subrange(120, 128) =~= spec_u64_to_le_bytes(a.permissions));
    assert(e.subrange(128, 136) =~= spec_u64_to_le_bytes(a.max_notional));
    assert(e.subrange(136, 144) =~= spec_u64_to_le_bytes(a.used_notional));
    assert(e.subrange(144, 152) =~= spec_u64_to_le_bytes(a.expiry_slot));
    assert(e.subrange(152, 160) =~= spec_u64_to_le_bytes(a.nonce));
    assert(e.subrange(160, 168) =~= spec_u64_to_le_bytes(a.created_at as u64));
    assert(e.subrange(168, 176) =~= spec_u64_to_le_bytes(a.updated_at as u64));
    lemma_address_from_bytes_view(a.owner@);
    lemma_address_view_injective(Address::spec_from_bytes(a.owner@), a.owner);
    lemma_address_from_bytes_view(a.vault@);
    lemma_address_view_injective(Address::spec_from_bytes(a.vault@), a.vault);
    lemma_address_from_bytes_view(a.delegate@);
    lemma_address_view_injective(Address::spec_from_bytes(a.delegate@), a.delegate);
    let a_created_at0 = a.created_at;
    assert(a_created_at0 as u64 as i64 == a_created_at0) by (bit_vector);
    let a_updated_at0 = a.updated_at;
    assert(a_updated_at0 as u64 as i64 == a_updated_at0) by (bit_vector);
}

} // verus!
