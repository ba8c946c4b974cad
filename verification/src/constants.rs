//! Protocol-wide constants.

use vstd::prelude::*;

verus! {

/// Mint address of USDC on mainnet.
pub const USDC_MINT_MAINNET: &'static str = "EPjFWdd5AufqSSqeM2qN1xzybapC8G4wEGGkZwyTDt1v";

/// Mint address of USDC on devnet.
pub const USDC_MINT_DEVNET: &'static str = "4zMMC9srt5Ri5X14GAgXhaHii3GnPAEERYPJgZJDncDU";

/// Default share of a forfeiture that goes to the treasury: 70%.
pub const DEFAULT_TREASURY_SPLIT_BPS: u16 = 7000;

/// Default fee on a partial completion: 1%.
pub const DEFAULT_PARTIAL_FEE_BPS: u16 = 100;

/// Default penalty for editing a pledge: 10%.
pub const DEFAULT_EDIT_PENALTY_BPS: u16 = 1000;

/// Default grace period after the deadline: one day, in seconds.
pub const DEFAULT_GRACE_PERIOD: i64 = 86400;

/// One whole, in basis points.
pub const BPS_DENOMINATOR: u64 = 10000;

/// Seed of the address of the configuration record: the bytes of `config`.
pub const CONFIG_SEED: [u8; 6] = [0x63, 0x6f, 0x6e, 0x66, 0x69, 0x67];

/// Seed of the address of a pledge record: the bytes of `pledge`.
pub const PLEDGE_SEED: [u8; 6] = [0x70, 0x6c, 0x65, 0x64, 0x67, 0x65];

/// Seed of the address of a custody account: the bytes of `vault`.
pub const VAULT_SEED: [u8; 5] = [0x76, 0x61, 0x75, 0x6c, 0x74];

/// Largest treasury split that a configuration may hold.
pub const MAX_TREASURY_SPLIT_BPS: u16 = 10000;

/// Largest partial fee or edit penalty that a configuration may hold.
pub const MAX_FEE_BPS: u16 = 1000;

/// Largest completion percentage.
pub const MAX_COMPLETION_PERCENTAGE: u8 = 100;

} // verus!
