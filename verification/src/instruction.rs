//! The operation set: a tagged, fixed-layout payload per call.
//!
//! The wire form is one tag byte followed by the operation's fields,
//! little-endian, with nothing left over; a parser rejects an unknown tag
//! or a payload of the wrong length.

use crate::address::{
    lemma_address_from_bytes_view, lemma_address_view_injective, lemma_address_view_len, Address,
};
use crate::error::VaultError;
use vstd::bytes::{
    lemma_auto_spec_u64_to_from_le_bytes, spec_u64_from_le_bytes, spec_u64_to_le_bytes,
    u64_from_le_bytes, u64_to_le_bytes,
};
use vstd::prelude::*;
use vstd::slice::slice_subrange;

verus! {

/// One operation of the ledger, with its payload.
#[derive(Clone, Copy, Debug, PartialEq, Eq, Structural)]
pub enum VaultInstruction {
    /// Create the global configuration singleton; callable exactly once.
    InitializeGlobalConfig { usdc_mint: Address },
    /// Create the caller's vault and its asset-holding account.
    CreateVault,
    /// Move `amount` from the owner's asset account into the vault.
    Deposit { amount: u64 },
    /// Move `amount` from the vault back to the owner's asset account.
    Withdraw { amount: u64 },
    /// Create or update a delegate authorization.
    UpsertDelegate { delegate_pubkey: Address, permissions: u64, max_notional: u64, expiry_slot: u64 },
    /// Deactivate a delegate authorization and poison its nonce.
    RevokeDelegate { delegate_pubkey: Address },
    /// Commit free collateral as margin and consume notional.
    LockMargin { required_margin: u64, required_notional: u64 },
    /// Release margin, settle profit-and-loss, and adjust notional usage.
    UnlockMarginAndUpdatePnl { unlocked_margin: u64, pnl_delta: i64, notional_delta: i64 },
    /// Hand configuration authority to a new admin.
    TransferAdmin { new_admin: Address },
    /// Renounce configuration authority forever.
    RenounceAdmin,
    /// Block deposit, withdraw, lock and unlock on the caller's vault.
    FreezeVault,
    /// Re-allow deposit, withdraw, lock and unlock on the caller's vault.
    UnfreezeVault,
}

/// The wire form of an operation: tag byte, then fields little-endian.
pub open spec fn spec_encode_instruction(ins: VaultInstruction) -> Seq<u8> {
    match ins {
        VaultInstruction::InitializeGlobalConfig { usdc_mint } => seq![0u8] + usdc_mint@,
        VaultInstruction::CreateVault => seq![1u8],
        VaultInstruction::Deposit { amount } => seq![2u8] + spec_u64_to_le_bytes(amount),
        VaultInstruction::Withdraw { amount } => seq![3u8] + spec_u64_to_le_bytes(amount),
        VaultInstruction::UpsertDelegate { delegate_pubkey, permissions, max_notional, expiry_slot } => seq![4u8]
            + delegate_pubkey@ + spec_u64_to_le_bytes(permissions) + spec_u64_to_le_bytes(
            max_notional,
        ) + spec_u64_to_le_bytes(expiry_slot),
        VaultInstruction::RevokeDelegate { delegate_pubkey } => seq![5u8] + delegate_pubkey@,
        VaultInstruction::LockMargin { required_margin, required_notional } => seq![6u8]
            + spec_u64_to_le_bytes(required_margin) + spec_u64_to_le_bytes(required_notional),
        VaultInstruction::UnlockMarginAndUpdatePnl { unlocked_margin, pnl_delta, notional_delta } => seq![7u8]
            + spec_u64_to_le_bytes(unlocked_margin) + spec_u64_to_le_bytes(pnl_delta as u64)
            + spec_u64_to_le_bytes(notional_delta as u64),
        VaultInstruction::TransferAdmin { new_admin } => seq![8u8] + new_admin@,
        VaultInstruction::RenounceAdmin => seq![9u8],
        VaultInstruction::FreezeVault => seq![10u8],
        VaultInstruction::UnfreezeVault => seq![11u8],
    }
}

/// What parsing a payload yields: the operation, when the tag is known and
/// the length is exactly the operation's; a deserialization error
/// otherwise.
pub open spec fn spec_parse_instruction(d: Seq<u8>) -> Result<VaultInstruction, VaultError> {
    if d.len() == 0 {
        Err(VaultError::DeserializationError)
    } else if d[0] == 0 && d.len() == 33 {
        Ok(
            VaultInstruction::InitializeGlobalConfig {
                usdc_mint: Address::spec_from_bytes(d.subrange(1, 33)),
            },
        )
    } else if d[0] == 1 && d.len() == 1 {
        Ok(VaultInstruction::CreateVault)
    } else if d[0] == 2 && d.len() == 9 {
        Ok(VaultInstruction::Deposit { amount: spec_u64_from_le_bytes(d.subrange(1, 9)) })
    } else if d[0] == 3 && d.len() == 9 {
        Ok(VaultInstruction::Withdraw { amount: spec_u64_from_le_bytes(d.subrange(1, 9)) })
    } else if d[0] == 4 && d.len() == 57 {
        Ok(
            VaultInstruction::UpsertDelegate {
                delegate_pubkey: Address::spec_from_bytes(d.subrange(1, 33)),
                permissions: spec_u64_from_le_bytes(d.subrange(33, 41)),
                max_notional: spec_u64_from_le_bytes(d.subrange(41, 49)),
                expiry_slot: spec_u64_from_le_bytes(d.subrange(49, 57)),
            },
        )
    } else if d[0] == 5 && d.len() == 33 {
        Ok(
            VaultInstruction::RevokeDelegate {
                delegate_pubkey: Address::spec_from_bytes(d.subrange(1, 33)),
            },
        )
    } else if d[0] == 6 && d.len() == 17 {
        Ok(
            VaultInstruction::LockMargin {
                required_margin: spec_u64_from_le_bytes(d.subrange(1, 9)),
                required_notional: spec_u64_from_le_bytes(d.subrange(9, 17)),
            },
        )
    } else if d[0] == 7 && d.len() == 25 {
        Ok(
            VaultInstruction::UnlockMarginAndUpdatePnl {
                unlocked_margin: spec_u64_from_le_bytes(d.subrange(1, 9)),
                pnl_delta: spec_u64_from_le_bytes(d.subrange(9, 17)) as i64,
                notional_delta: spec_u64_from_le_bytes(d.subrange(17, 25)) as i64,
            },
        )
    } else if d[0] == 8 && d.len() == 33 {
        Ok(
            VaultInstruction::TransferAdmin {
                new_admin: Address::spec_from_bytes(d.subrange(1, 33)),
            },
        )
    } else if d[0] == 9 && d.len() == 1 {
        Ok(VaultInstruction::RenounceAdmin)
    } else if d[0] == 10 && d.len() == 1 {
        Ok(VaultInstruction::FreezeVault)
    } else if d[0] == 11 && d.len() == 1 {
        Ok(VaultInstruction::UnfreezeVault)
    } else {
        Err(VaultError::DeserializationError)
    }
}

/// Serializes an operation into its wire form.
pub fn encode_instruction(ins: &VaultInstruction) -> (r: Vec<u8>)
    ensures
        r@ == spec_encode_instruction(*ins),
{
    let mut out: Vec<u8> = Vec::new();
    match ins {
        VaultInstruction::InitializeGlobalConfig { usdc_mint } => {
            out.push(0);
            let mut b = usdc_mint.to_bytes();
            out.append(&mut b);
        },
        VaultInstruction::CreateVault => {
            out.push(1);
        },
        VaultInstruction::Deposit { amount } => {
            out.push(2);
            let mut b = u64_to_le_bytes(*amount);
            out.append(&mut b);
        },
        VaultInstruction::Withdraw { amount } => {
            out.push(3);
            let mut b = u64_to_le_bytes(*amount);
            out.append(&mut b);
        },
        VaultInstruction::UpsertDelegate {
            delegate_pubkey,
            permissions,
            max_notional,
            expiry_slot,
        } => {
            out.push(4);
            let mut b = delegate_pubkey.to_bytes();
            out.append(&mut b);
            let mut b1 = u64_to_le_bytes(*permissions);
            out.append(&mut b1);
            let mut b2 = u64_to_le_bytes(*max_notional);
            out.append(&mut b2);
            let mut b3 = u64_to_le_bytes(*expiry_slot);
            out.append(&mut b3);
        },
        VaultInstruction::RevokeDelegate { delegate_pubkey } => {
            out.push(5);
            let mut b = delegate_pubkey.to_bytes();
            out.append(&mut b);
        },
        VaultInstruction::LockMargin { required_margin, required_notional } => {
            out.push(6);
            let mut b = u64_to_le_bytes(*required_margin);
            out.append(&mut b);
            let mut b1 = u64_to_le_bytes(*required_notional);
            out.append(&mut b1);
        },
        VaultInstruction::UnlockMarginAndUpdatePnl {
            unlocked_margin,
            pnl_delta,
            notional_delta,
        } => {
            out.push(7);
            let mut b = u64_to_le_bytes(*unlocked_margin);
            out.append(&mut b);
            let mut b1 = u64_to_le_bytes(*pnl_delta as u64);
            out.append(&mut b1);
            let mut b2 = u64_to_le_bytes(*notional_delta as u64);
            out.append(&mut b2);
        },
        VaultInstruction::TransferAdmin { new_admin } => {
            out.push(8);
            let mut b = new_admin.to_bytes();
            out.append(&mut b);
        },
        VaultInstruction::RenounceAdmin => {
            out.push(9);
        },
        VaultInstruction::FreezeVault => {
            out.push(10);
        },
        VaultInstruction::UnfreezeVault => {
            out.push(11);
        },
    }
    proof {
        assert(out@ =~= spec_encode_instruction(*ins));
    }
    out
}

/// Parses an operation from its wire form, rejecting an unknown tag or a
/// payload of the wrong length.
pub fn parse_instruction(d: &[u8]) -> (r: Result<VaultInstruction, VaultError>)
    ensures
        r == spec_parse_instruction(d@),
{
    let n: usize = d.len();
    if n == 0 {
        return Err(VaultError::DeserializationError);
    }
    let tag = d[0];
    if tag == 0 && n == 33 {
        Ok(
            VaultInstruction::InitializeGlobalConfig {
                usdc_mint: Address::from_bytes(slice_subrange(d, 1, 33)),
            },
        )
    } else if tag == 1 && n == 1 {
        Ok(VaultInstruction::CreateVault)
    } else if tag == 2 && n == 9 {
        Ok(VaultInstruction::Deposit { amount: u64_from_le_bytes(slice_subrange(d, 1, 9)) })
    } else if tag == 3 && n == 9 {
        Ok(VaultInstruction::Withdraw { amount: u64_from_le_bytes(slice_subrange(d, 1, 9)) })
    } else if tag == 4 && n == 57 {
        Ok(
            VaultInstruction::UpsertDelegate {
                delegate_pubkey: Address::from_bytes(slice_subrange(d, 1, 33)),
                permissions: u64_from_le_bytes(slice_subrange(d, 33, 41)),
                max_notional: u64_from_le_bytes(slice_subrange(d, 41, 49)),
                expiry_slot: u64_from_le_bytes(slice_subrange(d, 49, 57)),
            },
        )
    } else if tag == 5 && n == 33 {
        Ok(
            VaultInstruction::RevokeDelegate {
                delegate_pubkey: Address::from_bytes(slice_subrange(d, 1, 33)),
            },
        )
    } else if tag == 6 && n == 17 {
        Ok(
            VaultInstruction::LockMargin {
                required_margin: u64_from_le_bytes(slice_subrange(d, 1, 9)),
                required_notional: u64_from_le_bytes(slice_subrange(d, 9, 17)),
            },
        )
    } else if tag == 7 && n == 25 {
        #[verifier::truncate]
        let pnl_delta = u64_from_le_bytes(slice_subrange(d, 9, 17)) as i64;
        #[verifier::truncate]
        let notional_delta = u64_from_le_bytes(slice_subrange(d, 17, 25)) as i64;
        Ok(
            VaultInstruction::UnlockMarginAndUpdatePnl {
                unlocked_margin: u64_from_le_bytes(slice_subrange(d, 1, 9)),
                pnl_delta,
                notional_delta,
            },
        )
    } else if tag == 8 && n == 33 {
        Ok(
            VaultInstruction::TransferAdmin {
                new_admin: Address::from_bytes(slice_subrange(d, 1, 33)),
            },
        )
    } else if tag == 9 && n == 1 {
        Ok(VaultInstruction::RenounceAdmin)
    } else if tag == 10 && n == 1 {
        Ok(VaultInstruction::FreezeVault)
    } else if tag == 11 && n == 1 {
        Ok(VaultInstruction::UnfreezeVault)
    } else {
        Err(VaultError::DeserializationError)
    }
}

/// Parsing an encoded operation yields the operation back.
pub proof fn lemma_instruction_round_trip(ins: VaultInstruction)
    ensures
        spec_parse_instruction(spec_encode_instruction(ins)) == Ok::<
            VaultInstruction,
            VaultError,
        >(ins),
{
    lemma_auto_spec_u64_to_from_le_bytes();
    let e = spec_encode_instruction(ins);
    match ins {
        VaultInstruction::InitializeGlobalConfig { usdc_mint } => {
            lemma_address_view_len(usdc_mint);
            assert(e.subrange(1, 33) =~= usdc_mint@);
            lemma_address_from_bytes_view(usdc_mint@);
            lemma_address_view_injective(Address::spec_from_bytes(usdc_mint@), usdc_mint);
        },
        VaultInstruction::CreateVault => {},
        VaultInstruction::Deposit { amount } => {
            assert(e.subrange(1, 9) =~= spec_u64_to_le_bytes(amount));
        },
        VaultInstruction::Withdraw { amount } => {
            assert(e.subrange(1, 9) =~= spec_u64_to_le_bytes(amount));
        },
        VaultInstruction::UpsertDelegate {
            delegate_pubkey,
            permissions,
            max_notional,
            expiry_slot,
        } => {
            lemma_address_view_len(delegate_pubkey);
            assert(e.subrange(1, 33) =~= delegate_pubkey@);
            assert(e.subrange(33, 41) =~= spec_u64_to_le_bytes(permissions));
            assert(e.subrange(41, 49) =~= spec_u64_to_le_bytes(max_notional));
            assert(e.subrange(49, 57) =~= spec_u64_to_le_bytes(expiry_slot));
            lemma_address_from_bytes_view(delegate_pubkey@);
            lemma_address_view_injective(
                Address::spec_from_bytes(delegate_pubkey@),
                delegate_pubkey,
            );
        },
        VaultInstruction::RevokeDelegate { delegate_pubkey } => {
            lemma_address_view_len(delegate_pubkey);
            assert(e.subrange(1, 33) =~= delegate_pubkey@);
            lemma_address_from_bytes_view(delegate_pubkey@);
            lemma_address_view_injective(
                Address::spec_from_bytes(delegate_pubkey@),
                delegate_pubkey,
            );
        },
        VaultInstruction::LockMargin { required_margin, required_notional } => {
            assert(e.subrange(1, 9) =~= spec_u64_to_le_bytes(required_margin));
            assert(e.subrange(9, 17) =~= spec_u64_to_le_bytes(required_notional));
        },
        VaultInstruction::UnlockMarginAndUpdatePnl {
            unlocked_margin,
            pnl_delta,
            notional_delta,
        } => {
            assert(e.subrange(1, 9) =~= spec_u64_to_le_bytes(unlocked_margin));
            assert(e.subrange(9, 17) =~= spec_u64_to_le_bytes(pnl_delta as u64));
            assert(e.subrange(17, 25) =~= spec_u64_to_le_bytes(notional_delta as u64));
            let p0 = pnl_delta;
            assert(p0 as u64 as i64 == p0) by (bit_vector);
            let n0 = notional_delta;
            assert(n0 as u64 as i64 == n0) by (bit_vector);
        },
        VaultInstruction::TransferAdmin { new_admin } => {
            lemma_address_view_len(new_admin);
            assert(e.subrange(1, 33) =~= new_admin@);
            lemma_address_from_bytes_view(new_admin@);
            lemma_address_view_injective(Address::spec_from_bytes(new_admin@), new_admin);
        },
        VaultInstruction::RenounceAdmin => {},
        VaultInstruction::FreezeVault => {},
        VaultInstruction::UnfreezeVault => {},
    }
}

} // verus!
