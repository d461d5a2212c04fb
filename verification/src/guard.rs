use vstd::prelude::*;

use crate::account::Account;
use crate::error::ProcessError;
use crate::pubkey::Pubkey;

verus! {

/// Fails with `InvalidAccountOwner` unless the account is owned by the given
/// program. Pure validation, no side effects.
pub fn require_owned_by(account: &Account, expected_program_id: &Pubkey) -> (r: Result<
    (),
    ProcessError,
>)
    ensures
        r == (if account.owner@ == expected_program_id@ {
            Result::<(), ProcessError>::Ok(())
        } else {
            Result::<(), ProcessError>::Err(ProcessError::InvalidAccountOwner)
        }),
{
    if account.owner == *expected_program_id {
        Ok(())
    } else {
        Err(ProcessError::InvalidAccountOwner)
    }
}

/// Fails with `MissingRequiredSignature` unless the account co-signed the
/// transaction.
pub fn require_signer(account: &Account) -> (r: Result<(), ProcessError>)
    ensures
        r == (if account.is_signer {
            Result::<(), ProcessError>::Ok(())
        } else {
            Result::<(), ProcessError>::Err(ProcessError::MissingRequiredSignature)
        }),
{
    if account.is_signer {
        Ok(())
    } else {
        Err(ProcessError::MissingRequiredSignature)
    }
}

/// Fails with `InvalidInstructionData` unless the two accounts are distinct.
pub fn require_distinct(account_a: &Account, account_b: &Account) -> (r: Result<(), ProcessError>)
    ensures
        r == (if account_a.key@ != account_b.key@ {
            Result::<(), ProcessError>::Ok(())
        } else {
            Result::<(), ProcessError>::Err(ProcessError::InvalidInstructionData)
        }),
{
    if account_a.key == account_b.key {
        Err(ProcessError::InvalidInstructionData)
    } else {
        Ok(())
    }
}

/// Fails with `InvalidAccountData` unless the byte string has exactly the
/// expected length.
pub fn require_exact_length(bytes: &Vec<u8>, expected_len: usize) -> (r: Result<(), ProcessError>)
    ensures
        r == (if bytes@.len() == expected_len {
            Result::<(), ProcessError>::Ok(())
        } else {
            Result::<(), ProcessError>::Err(ProcessError::InvalidAccountData)
        }),
{
    if bytes.len() == expected_len {
        Ok(())
    } else {
        Err(ProcessError::InvalidAccountData)
    }
}

} // verus!
