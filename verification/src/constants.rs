//! Fixed names and program addresses.

use vstd::prelude::*;

verus! {

/// Seed text of the program's derived accounts.
pub const SEED: &'static str = "anchor";

/// The asset registry program, `CoREENxT6tW1HoK8ypY1SxRMZTcVPm7R94rH4PZNhX7d`.
pub const MPL_CORE_ID: [u8; 32] = [
    175, 84, 171, 16, 189, 151, 165, 66, 160, 158, 247, 179, 152, 137, 221, 12,
    211, 148, 164, 204, 233, 223, 166, 205, 201, 126, 190, 45, 35, 91, 167, 72,
];

/// The on-chain oracle that external checks are bound to,
/// `AwPRxL5f6GDVajyE1bBcfSWdQT58nWMoS36A1uFtpCZY`.
pub const ONCHAIN_METAPLEX_ORACLE_PLUGIN: [u8; 32] = [
    147, 167, 232, 113, 113, 41, 118, 30, 93, 131, 215, 128, 28, 61, 109, 56,
    156, 179, 113, 98, 64, 6, 21, 91, 114, 207, 12, 205, 213, 222, 14, 51,
];

/// The no-op program that receives log data,
/// `noopb9bkMVfRPU8AsbpTUg8AQkHtKwMYZiFUjNRtMmV`.
pub const SPL_NOOP_PROGRAM: [u8; 32] = [
    11, 188, 15, 192, 187, 71, 202, 47, 116, 196, 17, 46, 148, 171, 19, 207,
    163, 198, 52, 229, 220, 23, 234, 203, 3, 205, 26, 35, 205, 126, 120, 124,
];

} // verus!
