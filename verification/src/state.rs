//! The three persistent record types of the ledger: the global
//! configuration singleton, the per-owner vault, and the per-delegate
//! authorization record.
//!
//! Each record carries a fixed 8-byte discriminator as its first field so a
//! reader can reject a record of the wrong kind before trusting any field.

use crate::address::Address;
use vstd::prelude::*;

verus! {

/// Permission bit: the delegate may open and close positions.
pub const PERM_TRADE: u64 = 1;

/// Permission bit: the delegate may withdraw to the owner's asset account.
pub const PERM_WITHDRAW: u64 = 2;

/// Permission bit: the delegate may only reduce exposure.
pub const PERM_CLOSE_ONLY: u64 = 4;

/// Permission bit: read-only access.
pub const PERM_VIEW_ONLY: u64 = 8;

/// Ceiling on a single deposit, guarding against fat-finger input.
pub const MAX_DEPOSIT: u64 = 1_000_000_000_000_000;

/// Ceiling on a delegate's notional cap.
pub const MAX_NOTIONAL_LIMIT: u64 = 1_000_000_000_000_000;

/// Longest allowed delegate lifetime, in host-clock ticks (about one year
/// at two seconds per tick).
pub const MAX_EXPIRY_DURATION: u64 = 365 * 24 * 60 * 60 / 2;

/// Discriminator of a `GlobalConfig` record.
pub const GLOBAL_CONFIG_DISCRIMINATOR: u64 = 0x474c4243_46470000;

/// Discriminator of a `UserVault` record.
pub const USER_VAULT_DISCRIMINATOR: u64 = 0x55534552_564c5400;

/// Discriminator of a `DelegateAccount` record.
pub const DELEGATE_DISCRIMINATOR: u64 = 0x44454c45_47415445;

/// Version tag written into newly created records.
pub const RECORD_VERSION: u8 = 1;

/// The global configuration singleton: who administers the deployment and
/// which stable asset it accepts.
#[derive(Clone, Copy, Debug, PartialEq, Eq, Structural)]
pub struct GlobalConfig {
    /// Record-kind tag; always `GLOBAL_CONFIG_DISCRIMINATOR`.
    pub discriminator: u64,
    /// Record layout version.
    pub version: u8,
    /// Disambiguator byte of the record's derived address.
    pub bump: u8,
    /// Configuration authority, or the all-zero sentinel once renounced.
    pub admin: Address,
    /// The single accepted collateral asset identity.
    pub usdc_mint: Address,
    /// Creation time, seconds.
    pub created_at: i64,
}

impl GlobalConfig {
    /// A record of the right kind: its discriminator matches.
    pub open spec fn wf(&self) -> bool {
        self.discriminator == GLOBAL_CONFIG_DISCRIMINATOR
    }

    /// A fresh configuration record under `admin`, accepting `usdc_mint`.
    pub fn new(admin: Address, usdc_mint: Address, bump: u8, now: i64) -> (r: GlobalConfig)
        ensures
            r == (GlobalConfig {
                discriminator: GLOBAL_CONFIG_DISCRIMINATOR,
                version: RECORD_VERSION,
                bump,
                admin,
                usdc_mint,
                created_at: now,
            }),
            r.wf(),
    {
        GlobalConfig {
            discriminator: GLOBAL_CONFIG_DISCRIMINATOR,
            version: RECORD_VERSION,
            bump,
            admin,
            usdc_mint,
            created_at: now,
        }
    }
}

/// A per-owner vault: lifetime counters, the split of the balance into
/// free and locked collateral, and the freeze flag.
#[derive(Clone, Copy, Debug, PartialEq, Eq, Structural)]
pub struct UserVault {
    /// Record-kind tag; always `USER_VAULT_DISCRIMINATOR`.
    pub discriminator: u64,
    /// Record layout version.
    pub version: u8,
    /// Disambiguator byte of the vault record's derived address.
    pub bump: u8,
    /// Disambiguator byte of the vault's asset account address.
    pub usdc_bump: u8,
    /// The controlling identity; one vault per owner.
    pub owner: Address,
    /// The vault's asset-holding account.
    pub usdc_vault: Address,
    /// Lifetime total deposited; never decreases.
    pub total_deposit: u64,
    /// Lifetime total withdrawn; never decreases.
    pub total_withdrawn: u64,
    /// Collateral available for withdrawal or locking.
    pub free_collateral: u64,
    /// Collateral committed as margin.
    pub locked_collateral: u64,
    /// Status bits; bit 0 is the freeze flag.
    pub flags: u64,
    /// Creation time, seconds.
    pub created_at: i64,
    /// Last mutation time, seconds.
    pub updated_at: i64,
}

impl UserVault {
    /// A record of the right kind: its discriminator matches.
    pub open spec fn wf(&self) -> bool {
        self.discriminator == USER_VAULT_DISCRIMINATOR
    }

    /// What `is_frozen` returns: bit 0 of the flags.
    pub open spec fn spec_is_frozen(&self) -> bool {
        self.flags & 1 != 0
    }

    /// A fresh zeroed vault for `owner`, paired with its asset account.
    pub fn new(owner: Address, usdc_vault: Address, bump: u8, usdc_bump: u8, now: i64) -> (r:
        UserVault)
        ensures
            r == (UserVault {
                discriminator: USER_VAULT_DISCRIMINATOR,
                version: RECORD_VERSION,
                bump,
                usdc_bump,
                owner,
                usdc_vault,
                total_deposit: 0,
                total_withdrawn: 0,
                free_collateral: 0,
                locked_collateral: 0,
                flags: 0,
                created_at: now,
                updated_at: now,
            }),
            r.wf(),
            !r.spec_is_frozen(),
    {
        let r = UserVault {
            discriminator: USER_VAULT_DISCRIMINATOR,
            version: RECORD_VERSION,
            bump,
            usdc_bump,
            owner,
            usdc_vault,
            total_deposit: 0,
            total_withdrawn: 0,
            free_collateral: 0,
            locked_collateral: 0,
            flags: 0,
            created_at: now,
            updated_at: now,
        };
        proof {
            assert(0u64 & 1 == 0) by (bit_vector);
        }
        r
    }

    /// Whether the vault is frozen: deposit, withdraw, lock and unlock are
    /// blocked while this holds.
    pub fn is_frozen(&self) -> (r: bool)
        ensures
            r == self.spec_is_frozen(),
    {
        self.flags & 1 != 0
    }

    /// Sets the freeze flag and stamps the mutation time.
    pub fn freeze(&mut self, now: i64)
        ensures
            *final(self) == (UserVault { flags: old(self).flags | 1, updated_at: now, ..*old(self) }),
            final(self).spec_is_frozen(),
    {
        self.flags = self.flags | 1;
        self.updated_at = now;
        proof {
            let g = old(self).flags;
            assert((g | 1) & 1 != 0) by (bit_vector);
        }
    }

    /// Clears the freeze flag and stamps the mutation time.
    pub fn unfreeze(&mut self, now: i64)
        ensures
            *final(self) == (UserVault { flags: old(self).flags & !1, updated_at: now, ..*old(self) }),
            !final(self).spec_is_frozen(),
    {
        self.flags = self.flags & !1u64;
        self.updated_at = now;
        proof {
            let g = old(self).flags;
            assert((g & !1u64) & 1 == 0) by (bit_vector);
        }
    }

    /// Stamps the mutation time.
    pub fn update_timestamp(&mut self, now: i64)
        ensures
            *final(self) == (UserVault { updated_at: now, ..*old(self) }),
    {
        self.updated_at = now;
    }
}

/// A delegate authorization record: one delegate identity bound to one
/// owner's vault, with capability bits, a notional cap, and an expiry.
#[derive(Clone, Copy, Debug, PartialEq, Eq, Structural)]
pub struct DelegateAccount {
    /// Record-kind tag; always `DELEGATE_DISCRIMINATOR`.
    pub discriminator: u64,
    /// Record layout version.
    pub version: u8,
    /// Disambiguator byte of the record's derived address.
    pub bump: u8,
    /// The vault owner who granted the authorization.
    pub owner: Address,
    /// The vault record the authorization applies to.
    pub vault: Address,
    /// The authorized delegate identity.
    pub delegate: Address,
    /// Whether the authorization is live; revocation clears it.
    pub is_active: bool,
    /// Capability bitmask over the `PERM_*` bits.
    pub permissions: u64,
    /// Risk cap on total open exposure.
    pub max_notional: u64,
    /// Running exposure consumption.
    pub used_notional: u64,
    /// Host-clock tick after which the delegate is invalid.
    pub expiry_slot: u64,
    /// Replay-defeat counter; forced to its maximum on revocation.
    pub nonce: u64,
    /// Creation time, seconds.
    pub created_at: i64,
    /// Last mutation time, seconds.
    pub updated_at: i64,
}

impl DelegateAccount {
    /// A record of the right kind: its discriminator matches.
    pub open spec fn wf(&self) -> bool {
        self.discriminator == DELEGATE_DISCRIMINATOR
    }

    /// A fresh active authorization with no exposure consumed yet.
    pub fn new(
        owner: Address,
        vault: Address,
        delegate: Address,
        permissions: u64,
        max_notional: u64,
        expiry_slot: u64,
        bump: u8,
        now: i64,
    ) -> (r: DelegateAccount)
        ensures
            r == (DelegateAccount {
                discriminator: DELEGATE_DISCRIMINATOR,
                version: RECORD_VERSION,
                bump,
                owner,
                vault,
                delegate,
                is_active: true,
                permissions,
                max_notional,
                used_notional: 0,
                expiry_slot,
                nonce: 0,
                created_at: now,
                updated_at: now,
            }),
            r.wf(),
    {
        DelegateAccount {
            discriminator: DELEGATE_DISCRIMINATOR,
            version: RECORD_VERSION,
            bump,
            owner,
            vault,
            delegate,
            is_active: true,
            permissions,
            max_notional,
            used_notional: 0,
            expiry_slot,
            nonce: 0,
            created_at: now,
            updated_at: now,
        }
    }

    /// What `has_permission` returns: the capability bit is set.
    pub open spec fn spec_has_permission(&self, permission: u64) -> bool {
        self.permissions & permission != 0
    }

    /// Whether the record grants the capability bit(s) in `permission`.
    pub fn has_permission(&self, permission: u64) -> (r: bool)
        ensures
            r == self.spec_has_permission(permission),
    {
        self.permissions & permission != 0
    }

    /// What `is_valid` returns: live and not past its expiry tick.
    pub open spec fn spec_is_valid(&self, current_slot: u64) -> bool {
        self.is_active && current_slot <= self.expiry_slot
    }

    /// Whether the authorization is live at `current_slot`.
    pub fn is_valid(&self, current_slot: u64) -> (r: bool)
        ensures
            r == self.spec_is_valid(current_slot),
    {
        self.is_active && current_slot <= self.expiry_slot
    }

    /// What `can_use_notional` returns: consuming `additional_notional`
    /// more exposure stays within the cap (compared saturating, so an
    /// overflowing sum counts as the maximum).
    pub open spec fn spec_can_use_notional(&self, additional_notional: u64) -> bool {
        (if self.used_notional + additional_notional > u64::MAX {
            u64::MAX as int
        } else {
            self.used_notional + additional_notional
        }) <= self.max_notional
    }

    /// Whether `additional_notional` more exposure stays within the cap.
    pub fn can_use_notional(&self, additional_notional: u64) -> (r: bool)
        ensures
            r == self.spec_can_use_notional(additional_notional),
    {
        self.used_notional.saturating_add(additional_notional) <= self.max_notional
    }

    /// Stamps the mutation time.
    pub fn update_timestamp(&mut self, now: i64)
        ensures
            *final(self) == (DelegateAccount { updated_at: now, ..*old(self) }),
    {
        self.updated_at = now;
    }
}

} // verus!
