use vstd::prelude::*;

verus! {

/// `SysvarRent111111111111111111111111111111111`
pub const SYSVAR_RENT: [u8; 32] = [
    6, 167, 213, 23, 25, 44, 92, 81, 33, 140, 201, 76, 61, 74, 241, 127, 88, 218, 238, 8, 155, 161,
    253, 68, 227, 219, 217, 138, 0, 0, 0, 0,
];

/// `SysvarStakeHistory1111111111111111111111111`
pub const SYSVAR_STAKE_HISTORY: [u8; 32] = [
    6, 167, 213, 23, 25, 53, 132, 208, 254, 237, 155, 179, 67, 29, 19, 32, 107, 229, 68, 40, 27, 87,
    184, 86, 108, 197, 55, 95, 244, 0, 0, 0,
];

/// `SysvarC1ock11111111111111111111111111111111`
pub const SYSVAR_CLOCK: [u8; 32] = [
    6, 167, 213, 23, 24, 199, 116, 201, 40, 86, 99, 152, 105, 29, 94, 182, 139, 94, 184, 163, 155,
    75, 109, 92, 115, 85, 91, 33, 0, 0, 0, 0,
];

/// `Stake11111111111111111111111111111111111111`
pub const STAKE_PROGRAM: [u8; 32] = [
    6, 161, 216, 23, 145, 55, 84, 42, 152, 52, 55, 189, 254, 42, 122, 178, 85, 127, 83, 92, 138, 120,
    114, 43, 104, 164, 157, 192, 0, 0, 0, 0,
];

/// `StakeConfig11111111111111111111111111111111`
pub const SYSVAR_STAKE_CONFIG: [u8; 32] = [
    6, 161, 216, 23, 165, 2, 5, 11, 104, 7, 145, 230, 206, 109, 184, 142, 30, 91, 113, 80, 246, 31,
    198, 121, 10, 78, 180, 209, 0, 0, 0, 0,
];

/// `11111111111111111111111111111111`
pub const SYSTEM_PROGRAM: [u8; 32] = [
    0, 0, 0, 0, 0, 0, 0, 0, 0, 0, 0, 0, 0, 0, 0, 0, 0, 0, 0, 0, 0, 0, 0, 0, 0, 0, 0, 0, 0, 0, 0, 0,
];

/// `TokenkegQfeZyiNwAJbNbGKPFXCWuBvf9Ss623VQ5DA`
pub const TOKEN_PROGRAM: [u8; 32] = [
    6, 221, 246, 225, 215, 101, 161, 147, 217, 203, 225, 70, 206, 235, 121, 172, 28, 180, 133, 237,
    95, 91, 55, 145, 58, 140, 245, 133, 126, 255, 0, 169,
];

/// `ATokenGPvbdGVxr1b2hvZbsiqW5xWH25efTNsLJA8knL`
pub const ASSOCIATED_TOKEN_PROGRAM: [u8; 32] = [
    140, 151, 37, 143, 78, 36, 137, 241, 187, 61, 16, 41, 20, 142, 13, 131, 11, 90, 19, 153, 218,
    255, 16, 132, 4, 142, 123, 216, 219, 233, 248, 89,
];

/// Lamports that keep a stake account rent exempt; the reserve must keep
/// strictly more than this after a withdrawal.
pub const STAKE_ACCOUNT_RENT_EXEMPT_LAMPORTS: u64 = 2282880;

/// Minimum amount of staked lamports required in a validator stake account
/// enforced by the stake pool program.
pub const MIN_ACTIVE_STAKE: u64 = 1_000_000;

} // verus!
