use vstd::prelude::*;

use crate::account::{model_of, Account, AccountModel, Config, ConfigModel};
use crate::codec::{decode_meta, encode, encode_spec, meta_authority, meta_tag, meta_well_formed};
use crate::error::ProcessError;
use crate::guard::{require_distinct, require_exact_length, require_owned_by, require_signer};
use crate::proof_type::{instruction_from_tag, spec_instruction_from_tag, Instruction, ProofType};
use crate::pubkey::Pubkey;
use crate::verdict::{proof_verdict, run_verifier};

verus! {

/// The call-stack height of an instruction invoked directly by a transaction.
/// Nested invocations from another program sit higher and are rejected.
pub const TRANSACTION_LEVEL_STACK_HEIGHT: usize = 1;

/// What one verify instruction decides and changes: the result, and the
/// account list afterwards. On a negative verdict the instruction fails; with
/// no accounts attached a positive verdict is verify-only and changes
/// nothing; otherwise account 0 must be program-owned, hold an uninitialized
/// record of exactly the encoded size, and is overwritten with the record
/// naming account 1 as authority. Any failure leaves every account unchanged.
pub open spec fn verify_step(
    t: ProofType,
    data: Seq<u8>,
    accs: Seq<AccountModel>,
    program_id: Seq<u8>,
) -> (Result<(), ProcessError>, Seq<AccountModel>) {
    match proof_verdict(t, data) {
        None => (Err(ProcessError::InvalidInstructionData), accs),
        Some(ctx) => if accs.len() == 0 {
            (Ok(()), accs)
        } else if accs.len() < 2 {
            (Err(ProcessError::NotEnoughAccountKeys), accs)
        } else if accs[0].owner != program_id {
            (Err(ProcessError::InvalidAccountOwner), accs)
        } else if !meta_well_formed(accs[0].data) {
            (Err(ProcessError::InvalidAccountData), accs)
        } else if meta_tag(accs[0].data) != 0 {
            (Err(ProcessError::AccountAlreadyInitialized), accs)
        } else if encode_spec(accs[1].key, t, ctx).len() != accs[0].data.len() {
            (Err(ProcessError::InvalidAccountData), accs)
        } else {
            (
                Ok(()),
                accs.update(0, AccountModel { data: encode_spec(accs[1].key, t, ctx), ..accs[0] }),
            )
        },
    }
}

/// What one close instruction decides and changes. Account 0 is the context
/// record, account 1 the refund destination, account 2 the claimed authority:
/// the authority must have signed, the destination must be a distinct
/// account, and the record must name the authority. On success the whole
/// balance moves to the destination and account 0 is destroyed: zero balance,
/// empty data, ownership reassigned to the neutral system owner. Any failure
/// leaves every account unchanged.
pub open spec fn close_step(accs: Seq<AccountModel>, system_program_id: Seq<u8>) -> (
    Result<(), ProcessError>,
    Seq<AccountModel>,
) {
    if accs.len() < 3 {
        (Err(ProcessError::NotEnoughAccountKeys), accs)
    } else if !accs[2].is_signer {
        (Err(ProcessError::MissingRequiredSignature), accs)
    } else if accs[0].key == accs[1].key {
        (Err(ProcessError::InvalidInstructionData), accs)
    } else if !meta_well_formed(accs[0].data) {
        (Err(ProcessError::InvalidAccountData), accs)
    } else if meta_authority(accs[0].data) != accs[2].key {
        (Err(ProcessError::InvalidAccountOwner), accs)
    } else if accs[1].lamports + accs[0].lamports > u64::MAX {
        (Err(ProcessError::ArithmeticOverflow), accs)
    } else {
        (
            Ok(()),
            accs.update(
                1,
                AccountModel {
                    lamports: (accs[1].lamports + accs[0].lamports) as u64,
                    ..accs[1]
                },
            ).update(
                0,
                AccountModel {
                    lamports: 0,
                    data: Seq::<u8>::empty(),
                    owner: system_program_id,
                    ..accs[0]
                },
            ),
        )
    }
}

/// What one whole instruction decides and changes: the result, the account
/// list afterwards, and the remaining compute budget. A nested call is
/// rejected before anything else; then the fixed cost is charged (draining
/// the budget to zero if it cannot pay); then the leading tag byte routes to
/// the close or verify operation.
pub open spec fn process_step(
    data: Seq<u8>,
    accs: Seq<AccountModel>,
    stack_height: usize,
    budget: u64,
    config: ConfigModel,
) -> (Result<(), ProcessError>, Seq<AccountModel>, u64) {
    if stack_height != TRANSACTION_LEVEL_STACK_HEIGHT {
        (Err(ProcessError::UnsupportedProgramId), accs, budget)
    } else if budget < config.compute_cost {
        (Err(ProcessError::InsufficientBudget), accs, 0u64)
    } else {
        let remaining = (budget - config.compute_cost) as u64;
        if data.len() == 0 {
            (Err(ProcessError::InvalidInstructionData), accs, remaining)
        } else {
            match spec_instruction_from_tag(data[0]) {
                None => (Err(ProcessError::InvalidInstructionData), accs, remaining),
                Some(Instruction::CloseContextState) => {
                    let step = close_step(accs, config.system_program_id);
                    (step.0, step.1, remaining)
                },
                Some(Instruction::VerifyProof(t)) => {
                    let step = verify_step(t, data, accs, config.program_id);
                    (step.0, step.1, remaining)
                },
            }
        }
    }
}

/// Charges the fixed processing cost against the compute budget before any
/// other work, as the meter does: the budget is drained even when it cannot
/// pay, and the instruction then aborts.
pub fn consume_budget(compute_budget: &mut u64, cost: u64) -> (r: Result<(), ProcessError>)
    ensures
        *final(compute_budget) == if *old(compute_budget) >= cost {
            (*old(compute_budget) - cost) as u64
        } else {
            0u64
        },
        r == (if *old(compute_budget) >= cost {
            Result::<(), ProcessError>::Ok(())
        } else {
            Result::<(), ProcessError>::Err(ProcessError::InsufficientBudget)
        }),
{
    if *compute_budget >= cost {
        *compute_budget = *compute_budget - cost;
        Ok(())
    } else {
        *compute_budget = 0;
        Err(ProcessError::InsufficientBudget)
    }
}

/// Verifies a proof of the given kind and, when accounts are attached,
/// materializes the verified context into account 0 with account 1 as the
/// authority. Behaves exactly as [`verify_step`] says; in particular every
/// failure leaves all accounts byte-for-byte unchanged.
pub fn process_verify_proof(
    proof_type: ProofType,
    instruction_data: &Vec<u8>,
    accounts: &mut Vec<Account>,
    program_id: &Pubkey,
) -> (r: Result<(), ProcessError>)
    ensures
        ({
            let step = verify_step(
                proof_type,
                instruction_data@,
                model_of(old(accounts)@),
                program_id@,
            );
            r == step.0 && model_of(final(accounts)@) == step.1
        }),
{
    let context_data = match run_verifier(proof_type, instruction_data) {
        Some(c) => c,
        None => {
            return Err(ProcessError::InvalidInstructionData);
        },
    };
    if accounts.len() == 0 {
        return Ok(());
    }
    if accounts.len() < 2 {
        return Err(ProcessError::NotEnoughAccountKeys);
    }
    let context_state_authority: Pubkey = accounts[1].key;
    match require_owned_by(&accounts[0], program_id) {
        Ok(_) => {},
        Err(e) => {
            return Err(e);
        },
    }
    let meta = match decode_meta(&accounts[0].data) {
        Ok(m) => m,
        Err(e) => {
            return Err(e);
        },
    };
    if meta.proof_tag != 0 {
        return Err(ProcessError::AccountAlreadyInitialized);
    }
    let encoded = encode(&context_state_authority, proof_type, &context_data);
    match require_exact_length(&accounts[0].data, encoded.len()) {
        Ok(_) => {},
        Err(e) => {
            return Err(e);
        },
    }
    let context_account = &mut accounts[0];
    context_account.data = encoded;
    proof {
        let step = verify_step(
            proof_type,
            instruction_data@,
            model_of(old(accounts)@),
            program_id@,
        );
        assert(model_of(accounts@) =~= step.1);
    }
    Ok(())
}

/// Authorizes and executes destruction of the context record in account 0,
/// refunding its whole balance to account 1 under the signature of the
/// recorded authority in account 2. Behaves exactly as [`close_step`] says;
/// in particular every failure leaves all accounts byte-for-byte unchanged.
pub fn process_close_proof_context(
    accounts: &mut Vec<Account>,
    system_program_id: &Pubkey,
) -> (r: Result<(), ProcessError>)
    ensures
        ({
            let step = close_step(model_of(old(accounts)@), system_program_id@);
            r == step.0 && model_of(final(accounts)@) == step.1
        }),
{
    if accounts.len() < 3 {
        return Err(ProcessError::NotEnoughAccountKeys);
    }
    match require_signer(&accounts[2]) {
        Ok(_) => {},
        Err(e) => {
            return Err(e);
        },
    }
    match require_distinct(&accounts[0], &accounts[1]) {
        Ok(_) => {},
        Err(e) => {
            return Err(e);
        },
    }
    let meta = match decode_meta(&accounts[0].data) {
        Ok(m) => m,
        Err(e) => {
            return Err(e);
        },
    };
    if !(meta.authority == accounts[2].key) {
        return Err(ProcessError::InvalidAccountOwner);
    }
    let context_lamports = accounts[0].lamports;
    let new_destination_lamports = match accounts[1].lamports.checked_add(context_lamports) {
        Some(s) => s,
        None => {
            return Err(ProcessError::ArithmeticOverflow);
        },
    };
    let destination_account = &mut accounts[1];
    destination_account.lamports = new_destination_lamports;
    let context_account = &mut accounts[0];
    context_account.lamports = 0;
    context_account.data = Vec::new();
    context_account.owner = *system_program_id;
    proof {
        let step = close_step(model_of(old(accounts)@), system_program_id@);
        assert(model_of(accounts@) =~= step.1);
    }
    Ok(())
}

/// The top-level entry point: rejects nested invocations, charges the fixed
/// processing cost, parses the instruction tag and routes to the close or
/// verify operation. Behaves exactly as [`process_step`] says.
pub fn process_instruction(
    instruction_data: &Vec<u8>,
    accounts: &mut Vec<Account>,
    stack_height: usize,
    compute_budget: &mut u64,
    config: &Config,
) -> (r: Result<(), ProcessError>)
    ensures
        ({
            let step = process_step(
                instruction_data@,
                model_of(old(accounts)@),
                stack_height,
                *old(compute_budget),
                config@,
            );
            r == step.0 && model_of(final(accounts)@) == step.1 && *final(compute_budget)
                == step.2
        }),
{
    if stack_height != TRANSACTION_LEVEL_STACK_HEIGHT {
        return Err(ProcessError::UnsupportedProgramId);
    }
    match consume_budget(compute_budget, config.compute_cost) {
        Ok(_) => {},
        Err(e) => {
            return Err(e);
        },
    }
    if instruction_data.len() == 0 {
        return Err(ProcessError::InvalidInstructionData);
    }
    match instruction_from_tag(instruction_data[0]) {
        None => Err(ProcessError::InvalidInstructionData),
        Some(Instruction::CloseContextState) => process_close_proof_context(
            accounts,
            &config.system_program_id,
        ),
        Some(Instruction::VerifyProof(t)) => process_verify_proof(
            t,
            instruction_data,
            accounts,
            &config.program_id,
        ),
    }
}

} // verus!
