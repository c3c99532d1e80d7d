//! Account guards, deterministic address verification, and token-account
//! integrity checks.
//!
//! Every handler re-derives or re-checks the identity of each account it
//! was handed before trusting a single field: a signer flag, a writable
//! flag, the owning program, a derived address, or the owner/mint/balance
//! of a token account.

use crate::address::{lemma_address_view_injective, Address};
use crate::error::{ProgramError, VaultError};
use crate::state::{UserVault, RECORD_VERSION};
use vstd::prelude::*;

verus! {

/// What a handler sees of one account reference: its identity, its owning
/// program, the two host flags, and a snapshot of its stored bytes.
#[derive(Debug, Clone)]
pub struct AccountView {
    /// The account's address.
    pub key: Address,
    /// The program that owns the account.
    pub owner: Address,
    /// Whether the account signed the call.
    pub is_signer: bool,
    /// Whether the host allows the call to mutate the account.
    pub is_writable: bool,
    /// The account's stored bytes at the start of the call.
    pub data: Vec<u8>,
}

/// Fails with `MissingRequiredSignature` unless the account signed the
/// call.
pub fn require_signer(account: &AccountView) -> (r: Result<(), ProgramError>)
    ensures
        r == (if account.is_signer {
            Ok::<(), ProgramError>(())
        } else {
            Err::<(), ProgramError>(ProgramError::MissingRequiredSignature)
        }),
{
    if !account.is_signer {
        return Err(ProgramError::MissingRequiredSignature);
    }
    Ok(())
}

/// Fails with `InvalidAccountData` unless the account is writable.
pub fn require_writable(account: &AccountView) -> (r: Result<(), ProgramError>)
    ensures
        r == (if account.is_writable {
            Ok::<(), ProgramError>(())
        } else {
            Err::<(), ProgramError>(ProgramError::InvalidAccountData)
        }),
{
    if !account.is_writable {
        return Err(ProgramError::InvalidAccountData);
    }
    Ok(())
}

/// Fails with `IllegalOwner` unless the account is owned by
/// `expected_owner`.
pub fn require_owner(account: &AccountView, expected_owner: &Address) -> (r: Result<
    (),
    ProgramError,
>)
    ensures
        r == (if account.owner == *expected_owner {
            Ok::<(), ProgramError>(())
        } else {
            Err::<(), ProgramError>(ProgramError::IllegalOwner)
        }),
{
    if account.owner != *expected_owner {
        return Err(ProgramError::IllegalOwner);
    }
    Ok(())
}

/// The address and disambiguator byte that the host's addressing function
/// derives from `seeds` under `program_id`, or nothing in the
/// statistically improbable case that no disambiguator works. The
/// derivation is a pure function of the seeds and the program identity.
pub uninterp spec fn pda_of(seeds: Seq<Seq<u8>>, program_id: Seq<u8>) -> Option<(Seq<u8>, u8)>;

/// Relies on `solana_program::pubkey::Pubkey::try_find_program_address`:
/// the derived address and disambiguator depend on the seeds and the
/// program identity alone, and are absent exactly when no disambiguator
/// byte yields an off-curve address.
#[verifier::external_body]
fn find_derived_address(seeds: &Vec<Vec<u8>>, program_id: &Address) -> (r: Option<(Address, u8)>)
    ensures
        match r {
            Some((addr, bump)) => pda_of(seeds.deep_view(), program_id@) == Some((addr@, bump)),
            None => pda_of(seeds.deep_view(), program_id@) is None,
        },
{
    let seed_slices: Vec<&[u8]> = seeds.iter().map(|s| s.as_slice()).collect();
    let pid_bytes = program_id.to_bytes();
    let pid = solana_program::pubkey::Pubkey::try_from(pid_bytes.as_slice()).unwrap();
    solana_program::pubkey::Pubkey::try_find_program_address(&seed_slices, &pid).map(
        |(pk, bump)| (Address::from_bytes(&pk.to_bytes()), bump),
    )
}

/// What `verify_pda` returns: the derivation's disambiguator byte when
/// `pda` is exactly the address derived from `seeds` under `program_id`,
/// `InvalidSeeds` otherwise.
pub open spec fn spec_verify_pda(pda: Address, program_id: Address, seeds: Seq<Seq<u8>>) -> Result<
    u8,
    ProgramError,
> {
    match pda_of(seeds, program_id@) {
        Some((addr, bump)) => if addr == pda@ {
            Ok(bump)
        } else {
            Err(ProgramError::InvalidSeeds)
        },
        None => Err(ProgramError::InvalidSeeds),
    }
}

/// Re-derives the address for `seeds` under `program_id` and compares it
/// with `pda`: the sole defense against an attacker substituting an
/// arbitrary account for a record slot.
pub fn verify_pda(pda: &Address, program_id: &Address, seeds: &Vec<Vec<u8>>) -> (r: Result<
    u8,
    ProgramError,
>)
    ensures
        r == spec_verify_pda(*pda, *program_id, seeds.deep_view()),
{
    match find_derived_address(seeds, program_id) {
        Some((derived, bump)) => {
            if derived == *pda {
                Ok(bump)
            } else {
                proof {
                    if derived@ == pda@ {
                        lemma_address_view_injective(derived, *pda);
                    }
                }
                Err(ProgramError::InvalidSeeds)
            }
        },
        None => Err(ProgramError::InvalidSeeds),
    }
}

/// The domain seed of the configuration singleton: `"global"`.
pub open spec fn spec_global_seed() -> Seq<u8> {
    seq![103u8, 108u8, 111u8, 98u8, 97u8, 108u8]
}

/// The domain seed of a vault record: `"vault"`.
pub open spec fn spec_vault_seed() -> Seq<u8> {
    seq![118u8, 97u8, 117u8, 108u8, 116u8]
}

/// The domain seed of a vault's asset account: `"vault-usdc"`.
pub open spec fn spec_vault_usdc_seed() -> Seq<u8> {
    seq![118u8, 97u8, 117u8, 108u8, 116u8, 45u8, 117u8, 115u8, 100u8, 99u8]
}

/// The domain seed of a delegate authorization record: `"delegate"`.
pub open spec fn spec_delegate_seed() -> Seq<u8> {
    seq![100u8, 101u8, 108u8, 101u8, 103u8, 97u8, 116u8, 101u8]
}

/// The seed list of the configuration singleton: domain seed plus version
/// byte.
pub open spec fn spec_global_config_seeds() -> Seq<Seq<u8>> {
    seq![spec_global_seed(), seq![RECORD_VERSION]]
}

/// The seed list of `owner`'s vault record.
pub open spec fn spec_vault_seeds(owner: Address) -> Seq<Seq<u8>> {
    seq![spec_vault_seed(), owner@]
}

/// The seed list of `owner`'s vault asset account.
pub open spec fn spec_vault_usdc_seeds(owner: Address) -> Seq<Seq<u8>> {
    seq![spec_vault_usdc_seed(), owner@]
}

/// The seed list of the authorization record binding `delegate` to
/// `owner`'s vault.
pub open spec fn spec_delegate_seeds(owner: Address, delegate: Address) -> Seq<Seq<u8>> {
    seq![spec_delegate_seed(), owner@, delegate@]
}

/// Builds the configuration singleton's seed list.
pub fn global_config_seeds() -> (r: Vec<Vec<u8>>)
    ensures
        r.deep_view() == spec_global_config_seeds(),
{
    let head: Vec<u8> = vec![103u8, 108u8, 111u8, 98u8, 97u8, 108u8];
    let version: Vec<u8> = vec![RECORD_VERSION];
    let mut r: Vec<Vec<u8>> = Vec::new();
    r.push(head);
    r.push(version);
    proof {
        assert(r.deep_view() =~~= spec_global_config_seeds());
    }
    r
}

/// Builds the seed list of `owner`'s vault record.
pub fn vault_seeds(owner: &Address) -> (r: Vec<Vec<u8>>)
    ensures
        r.deep_view() == spec_vault_seeds(*owner),
{
    let head: Vec<u8> = vec![118u8, 97u8, 117u8, 108u8, 116u8];
    let mut r: Vec<Vec<u8>> = Vec::new();
    r.push(head);
    r.push(owner.to_bytes());
    proof {
        assert(r.deep_view() =~~= spec_vault_seeds(*owner));
    }
    r
}

/// Builds the seed list of `owner`'s vault asset account.
pub fn vault_usdc_seeds(owner: &Address) -> (r: Vec<Vec<u8>>)
    ensures
        r.deep_view() == spec_vault_usdc_seeds(*owner),
{
    let head: Vec<u8> = vec![118u8, 97u8, 117u8, 108u8, 116u8, 45u8, 117u8, 115u8, 100u8, 99u8];
    let mut r: Vec<Vec<u8>> = Vec::new();
    r.push(head);
    r.push(owner.to_bytes());
    proof {
        assert(r.deep_view() =~~= spec_vault_usdc_seeds(*owner));
    }
    r
}

/// Builds the seed list of the authorization record binding `delegate` to
/// `owner`'s vault.
pub fn delegate_seeds(owner: &Address, delegate: &Address) -> (r: Vec<Vec<u8>>)
    ensures
        r.deep_view() == spec_delegate_seeds(*owner, *delegate),
{
    let head: Vec<u8> = vec![100u8, 101u8, 108u8, 101u8, 103u8, 97u8, 116u8, 101u8];
    let mut r: Vec<Vec<u8>> = Vec::new();
    r.push(head);
    r.push(owner.to_bytes());
    r.push(delegate.to_bytes());
    proof {
        assert(r.deep_view() =~~= spec_delegate_seeds(*owner, *delegate));
    }
    r
}

/// What a handler reads of a fungible-token account: its mint, its owner,
/// and its balance.
#[derive(Clone, Copy, Debug, PartialEq, Eq, Structural)]
pub struct TokenAccountView {
    /// The asset the account holds.
    pub mint: Address,
    /// The identity allowed to move the balance.
    pub owner: Address,
    /// The balance, in base units.
    pub amount: u64,
}

/// A well-formed optional-field tag in a stored token account: four bytes,
/// the first 0 or 1, the rest 0.
pub open spec fn spec_coption_tag_wf(d: Seq<u8>, i: int) -> bool {
    (d[i] == 0 || d[i] == 1) && d[i + 1] == 0 && d[i + 2] == 0 && d[i + 3] == 0
}

/// A stored token account of the exact documented shape: 165 bytes, with
/// well-formed optional-field tags at offsets 72, 109 and 129 and a state
/// byte of at most 2 at offset 108.
pub open spec fn spec_token_account_shape_wf(d: Seq<u8>) -> bool {
    &&& d.len() == 165
    &&& spec_coption_tag_wf(d, 72)
    &&& d[108] <= 2
    &&& spec_coption_tag_wf(d, 109)
    &&& spec_coption_tag_wf(d, 129)
}

/// What unpacking a stored token account yields: its mint from bytes
/// 0..32, its owner from bytes 32..64 and its balance from bytes 64..72,
/// when the shape is exact and the account is initialized; the matching
/// error otherwise.
pub open spec fn spec_unpack_token_account(d: Seq<u8>) -> Result<TokenAccountView, ProgramError> {
    if !spec_token_account_shape_wf(d) {
        Err(ProgramError::InvalidAccountData)
    } else if d[108] == 0 {
        Err(ProgramError::UninitializedAccount)
    } else {
        Ok(
            TokenAccountView {
                mint: Address::spec_from_bytes(d.subrange(0, 32)),
                owner: Address::spec_from_bytes(d.subrange(32, 64)),
                amount: vstd::bytes::spec_u64_from_le_bytes(d.subrange(64, 72)),
            },
        )
    }
}

/// Relies on `spl_token::state::Account::unpack`: it parses exactly the
/// documented 165-byte layout — mint at 0..32, owner at 32..64, balance
/// little-endian at 64..72, optional-field tags at 72, 109 and 129, state
/// byte at 108 — failing on a malformed shape and on an uninitialized
/// state.
#[verifier::external_body]
pub(crate) fn unpack_token_account(data: &[u8]) -> (r: Result<TokenAccountView, ProgramError>)
    ensures
        r == spec_unpack_token_account(data@),
{
    match <spl_token::state::Account as solana_program::program_pack::Pack>::unpack(data) {
        Ok(acc) => Ok(
            TokenAccountView {
                mint: Address::from_bytes(&acc.mint.to_bytes()),
                owner: Address::from_bytes(&acc.owner.to_bytes()),
                amount: acc.amount,
            },
        ),
        Err(solana_program::program_error::ProgramError::UninitializedAccount) => Err(
            ProgramError::UninitializedAccount,
        ),
        Err(_) => Err(ProgramError::InvalidAccountData),
    }
}

/// What `verify_token_account` returns: the unpacked account when it
/// unpacks, belongs to `expected_owner` and holds `expected_mint`; the
/// first violated condition's error otherwise.
pub open spec fn spec_verify_token_account(
    d: Seq<u8>,
    expected_owner: Address,
    expected_mint: Address,
) -> Result<TokenAccountView, ProgramError> {
    match spec_unpack_token_account(d) {
        Err(e) => Err(e),
        Ok(acc) => if acc.owner != expected_owner {
            Err(ProgramError::Vault(VaultError::InvalidTokenAccount))
        } else if acc.mint != expected_mint {
            Err(ProgramError::Vault(VaultError::InvalidTokenMint))
        } else {
            Ok(acc)
        },
    }
}

/// Unpacks a stored token account and checks that it belongs to
/// `expected_owner` and holds `expected_mint`.
pub fn verify_token_account(
    token_account_data: &[u8],
    expected_owner: &Address,
    expected_mint: &Address,
) -> (r: Result<TokenAccountView, ProgramError>)
    ensures
        r == spec_verify_token_account(token_account_data@, *expected_owner, *expected_mint),
{
    let acc = match unpack_token_account(token_account_data) {
        Ok(acc) => acc,
        Err(e) => {
            return Err(e);
        },
    };
    if acc.owner != *expected_owner {
        return Err(ProgramError::Vault(VaultError::InvalidTokenAccount));
    }
    if acc.mint != *expected_mint {
        return Err(ProgramError::Vault(VaultError::InvalidTokenMint));
    }
    Ok(acc)
}

/// What `verify_vault_balance_integrity` returns: success exactly when the
/// stored token account unpacks and its balance equals the vault's free
/// plus locked collateral.
pub open spec fn spec_verify_vault_balance_integrity(v: UserVault, d: Seq<u8>) -> Result<
    (),
    ProgramError,
> {
    match spec_unpack_token_account(d) {
        Err(e) => Err(e),
        Ok(acc) => if v.free_collateral + v.locked_collateral > u64::MAX {
            Err(ProgramError::Vault(VaultError::ArithmeticOverflow))
        } else if acc.amount != v.free_collateral + v.locked_collateral {
            Err(ProgramError::Vault(VaultError::InvalidTokenAccount))
        } else {
            Ok(())
        },
    }
}

/// Checks balance conservation: the vault's actual asset balance must
/// equal its free plus locked collateral.
pub fn verify_vault_balance_integrity(vault: &UserVault, vault_usdc_data: &[u8]) -> (r: Result<
    (),
    ProgramError,
>)
    ensures
        r == spec_verify_vault_balance_integrity(*vault, vault_usdc_data@),
{
    let acc = match unpack_token_account(vault_usdc_data) {
        Ok(acc) => acc,
        Err(e) => {
            return Err(e);
        },
    };
    let expected = match vault.free_collateral.checked_add(vault.locked_collateral) {
        Some(s) => s,
        None => {
            return Err(ProgramError::Vault(VaultError::ArithmeticOverflow));
        },
    };
    if acc.amount != expected {
        return Err(ProgramError::Vault(VaultError::InvalidTokenAccount));
    }
    Ok(())
}

} // verus!
