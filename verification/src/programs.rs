//! The addresses of the programs and published accounts that the
//! distributor refers to.

use vstd::prelude::*;
use crate::address::Address;

verus! {

/// The token program, which keeps token accounts and moves tokens.
pub open spec fn token_program() -> Address {
    Address {
        bytes: [
            6u8, 221, 246, 225, 215, 101, 161, 147, 217, 203, 225, 70, 206, 235, 121, 172, 28,
            180, 133, 237, 95, 91, 55, 145, 58, 140, 245, 133, 126, 255, 0, 169,
        ],
    }
}

/// The token program, which keeps token accounts and moves tokens.
pub fn token_program_id() -> (id: Address)
    ensures
        id == token_program(),
{
    Address::new(
        [
            6u8, 221, 246, 225, 215, 101, 161, 147, 217, 203, 225, 70, 206, 235, 121, 172, 28,
            180, 133, 237, 95, 91, 55, 145, 58, 140, 245, 133, 126, 255, 0, 169,
        ],
    )
}

/// The metadata program, the registry of what an asset is.
pub open spec fn metadata_program() -> Address {
    Address {
        bytes: [
            11u8, 112, 101, 177, 227, 209, 124, 69, 56, 157, 82, 127, 107, 4, 195, 205, 88,
            184, 108, 115, 26, 160, 253, 181, 73, 182, 209, 188, 3, 248, 41, 70,
        ],
    }
}

/// The metadata program, the registry of what an asset is.
pub fn metadata_program_id() -> (id: Address)
    ensures
        id == metadata_program(),
{
    Address::new(
        [
            11u8, 112, 101, 177, 227, 209, 124, 69, 56, 157, 82, 127, 107, 4, 195, 205, 88,
            184, 108, 115, 26, 160, 253, 181, 73, 182, 209, 188, 3, 248, 41, 70,
        ],
    )
}

/// The system program, which creates accounts and moves lamports.
pub open spec fn system_program() -> Address {
    Address {
        bytes: [
            0u8, 0, 0, 0, 0, 0, 0, 0, 0, 0, 0, 0, 0, 0, 0, 0, 0, 0, 0, 0, 0, 0, 0, 0, 0, 0, 0,
            0, 0, 0, 0, 0,
        ],
    }
}

/// The system program, which creates accounts and moves lamports.
pub fn system_program_id() -> (id: Address)
    ensures
        id == system_program(),
{
    Address::new(
        [
            0u8, 0, 0, 0, 0, 0, 0, 0, 0, 0, 0, 0, 0, 0, 0, 0, 0, 0, 0, 0, 0, 0, 0, 0, 0, 0, 0,
            0, 0, 0, 0, 0,
        ],
    )
}

/// The account that publishes the rent rule.
pub open spec fn rent_sysvar() -> Address {
    Address {
        bytes: [
            6u8, 167, 213, 23, 25, 44, 92, 81, 33, 140, 201, 76, 61, 74, 241, 127, 88, 218,
            238, 8, 155, 161, 253, 68, 227, 219, 217, 138, 0, 0, 0, 0,
        ],
    }
}

/// The account that publishes the rent rule.
pub fn rent_sysvar_id() -> (id: Address)
    ensures
        id == rent_sysvar(),
{
    Address::new(
        [
            6u8, 167, 213, 23, 25, 44, 92, 81, 33, 140, 201, 76, 61, 74, 241, 127, 88, 218,
            238, 8, 155, 161, 253, 68, 227, 219, 217, 138, 0, 0, 0, 0,
        ],
    )
}

/// The account that publishes the time.
pub open spec fn clock_sysvar() -> Address {
    Address {
        bytes: [
            6u8, 167, 213, 23, 24, 199, 116, 201, 40, 86, 99, 152, 105, 29, 94, 182, 139, 94,
            184, 163, 155, 75, 109, 92, 115, 85, 91, 33, 0, 0, 0, 0,
        ],
    }
}

/// The account that publishes the time.
pub fn clock_sysvar_id() -> (id: Address)
    ensures
        id == clock_sysvar(),
{
    Address::new(
        [
            6u8, 167, 213, 23, 24, 199, 116, 201, 40, 86, 99, 152, 105, 29, 94, 182, 139, 94,
            184, 163, 155, 75, 109, 92, 115, 85, 91, 33, 0, 0, 0, 0,
        ],
    )
}

} // verus!
