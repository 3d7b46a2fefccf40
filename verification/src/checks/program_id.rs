//! The programs that the exchange calls, by their addresses.

use vstd::prelude::*;
use crate::account::AccountInfo;
use crate::address::Address;
use crate::checks::is_pubkey_matching;
use crate::error::ProgramError;

verus! {

/// The bytes of the system program's address.
pub const SYSTEM_PROGRAM_ID: [u8; 32] = [
    0, 0, 0, 0, 0, 0, 0, 0, 0, 0, 0, 0, 0, 0, 0, 0,
    0, 0, 0, 0, 0, 0, 0, 0, 0, 0, 0, 0, 0, 0, 0, 0,
];

/// The bytes of the token program's address.
pub const TOKEN_PROGRAM_ID: [u8; 32] = [
    6, 221, 246, 225, 215, 101, 161, 147, 217, 203, 225, 70, 206, 235, 121, 172,
    28, 180, 133, 237, 95, 91, 55, 145, 58, 140, 245, 133, 126, 255, 0, 169,
];

/// The bytes of the associated-token program's address.
pub const ATA_PROGRAM_ID: [u8; 32] = [
    140, 151, 37, 143, 78, 36, 137, 241, 187, 61, 16, 41, 20, 142, 13, 131,
    11, 90, 19, 153, 218, 255, 16, 132, 4, 142, 123, 216, 219, 233, 248, 89,
];

/// The bytes of the address at which the host keeps its rent schedule.
pub const RENT_SYSVAR_ID: [u8; 32] = [
    6, 167, 213, 23, 25, 44, 92, 81, 33, 140, 201, 76, 61, 74, 241, 127,
    88, 218, 238, 8, 155, 161, 253, 68, 227, 219, 217, 138, 0, 0, 0, 0,
];

/// The address at which the host keeps its rent schedule.
pub fn rent_sysvar_id() -> (a: Address)
    ensures
        a@ == RENT_SYSVAR_ID@,
        a.bytes == RENT_SYSVAR_ID,
{
    Address::new_from_array(RENT_SYSVAR_ID)
}

/// The system program's address.
pub fn system_program_id() -> (a: Address)
    ensures
        a@ == SYSTEM_PROGRAM_ID@,
        a.bytes == SYSTEM_PROGRAM_ID,
{
    Address::new_from_array(SYSTEM_PROGRAM_ID)
}

/// The token program's address.
pub fn token_program_id() -> (a: Address)
    ensures
        a@ == TOKEN_PROGRAM_ID@,
        a.bytes == TOKEN_PROGRAM_ID,
{
    Address::new_from_array(TOKEN_PROGRAM_ID)
}

/// The associated-token program's address.
pub fn ata_program_id() -> (a: Address)
    ensures
        a@ == ATA_PROGRAM_ID@,
        a.bytes == ATA_PROGRAM_ID,
{
    Address::new_from_array(ATA_PROGRAM_ID)
}

/// The account is the program expected; `IncorrectProgramId` where it is
/// another.
fn is_program(actual: &AccountInfo, expected: &Address) -> (r: Result<(), ProgramError>)
    ensures
        actual.key@ == expected@ ==> r is Ok,
        actual.key@ != expected@ ==> r == Err::<(), ProgramError>(ProgramError::IncorrectProgramId),
{
    is_pubkey_matching(actual, expected, ProgramError::IncorrectProgramId)
}

/// The account is the system program; `IncorrectProgramId` where it is not.
pub fn is_system_program(actual: &AccountInfo) -> (r: Result<(), ProgramError>)
    ensures
        actual.key@ == SYSTEM_PROGRAM_ID@ ==> r is Ok,
        actual.key@ != SYSTEM_PROGRAM_ID@ ==> r == Err::<(), ProgramError>(
            ProgramError::IncorrectProgramId,
        ),
{
    is_program(actual, &system_program_id())
}

/// The account is the token program; `IncorrectProgramId` where it is not.
pub fn is_token_program(actual: &AccountInfo) -> (r: Result<(), ProgramError>)
    ensures
        actual.key@ == TOKEN_PROGRAM_ID@ ==> r is Ok,
        actual.key@ != TOKEN_PROGRAM_ID@ ==> r == Err::<(), ProgramError>(
            ProgramError::IncorrectProgramId,
        ),
{
    is_program(actual, &token_program_id())
}

/// The account is the associated-token program; `IncorrectProgramId` where
/// it is not.
pub fn is_ata_program(actual: &AccountInfo) -> (r: Result<(), ProgramError>)
    ensures
        actual.key@ == ATA_PROGRAM_ID@ ==> r is Ok,
        actual.key@ != ATA_PROGRAM_ID@ ==> r == Err::<(), ProgramError>(
            ProgramError::IncorrectProgramId,
        ),
{
    is_program(actual, &ata_program_id())
}

} // verus!
