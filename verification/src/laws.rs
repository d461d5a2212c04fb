use vstd::prelude::*;

use crate::account::{AccountModel, ConfigModel};
use crate::codec::{meta_authority, meta_tag, meta_well_formed};
use crate::error::ProcessError;
use crate::processor::{close_step, process_step, verify_step, TRANSACTION_LEVEL_STACK_HEIGHT};
use crate::proof_type::{spec_tag_of, ProofType};
use crate::pubkey::PUBKEY_LEN;
use crate::verdict::proof_verdict;

verus! {

/// An account image that an exec [`crate::account::Account`] can actually
/// take: addresses are 32 bytes long.
pub open spec fn account_wf(a: AccountModel) -> bool {
    a.key.len() == PUBKEY_LEN && a.owner.len() == PUBKEY_LEN
}

/// Validity of a whole account list.
pub open spec fn accounts_wf(accs: Seq<AccountModel>) -> bool {
    forall|i: int| 0 <= i < accs.len() ==> account_wf(#[trigger] accs[i])
}

/// At-most-once initialization: once a verify instruction has materialized a
/// context record into account 0, no later verify instruction whose proof
/// passes verification can succeed on that account again; it fails with
/// `AccountAlreadyInitialized`, whatever proof kind and blob it carries.
pub proof fn lemma_at_most_once_init(
    t1: ProofType,
    d1: Seq<u8>,
    t2: ProofType,
    d2: Seq<u8>,
    accs: Seq<AccountModel>,
    program_id: Seq<u8>,
)
    requires
        accounts_wf(accs),
        accs.len() >= 1,
        verify_step(t1, d1, accs, program_id).0 is Ok,
        proof_verdict(t2, d2) is Some,
    ensures
        verify_step(t2, d2, verify_step(t1, d1, accs, program_id).1, program_id).0
            == Err::<(), ProcessError>(ProcessError::AccountAlreadyInitialized),
{
    let accs2 = verify_step(t1, d1, accs, program_id).1;
    let ctx = proof_verdict(t1, d1)->Some_0;
    assert(account_wf(accs[1]));
    assert(meta_tag(accs2[0].data) == spec_tag_of(t1));
    assert(spec_tag_of(t1) != 0);
}

/// All-or-nothing: whenever an instruction fails, at any check, every account
/// it referenced is unchanged afterwards.
pub proof fn lemma_all_or_nothing(
    data: Seq<u8>,
    accs: Seq<AccountModel>,
    stack_height: usize,
    budget: u64,
    config: ConfigModel,
)
    ensures
        process_step(data, accs, stack_height, budget, config).0 is Err ==> process_step(
            data,
            accs,
            stack_height,
            budget,
            config,
        ).1 == accs,
{
}

/// Authority gating: a close succeeds only under the signature of exactly the
/// authority recorded in the context account; any other signer is rejected
/// with `InvalidAccountOwner` before anything is paid out.
pub proof fn lemma_authority_gating(accs: Seq<AccountModel>, system_program_id: Seq<u8>)
    ensures
        close_step(accs, system_program_id).0 is Ok ==> (accs[2].is_signer && meta_authority(
            accs[0].data,
        ) == accs[2].key),
        (accs.len() >= 3 && accs[2].is_signer && accs[0].key != accs[1].key && meta_well_formed(
            accs[0].data,
        ) && meta_authority(accs[0].data) != accs[2].key) ==> close_step(
            accs,
            system_program_id,
        ).0 == Err::<(), ProcessError>(ProcessError::InvalidAccountOwner),
{
}

/// Self-close rejection: a close whose refund destination is the context
/// account itself fails with `InvalidInstructionData`, regardless of the
/// validity of the claimed authority.
pub proof fn lemma_self_close_rejected(accs: Seq<AccountModel>, system_program_id: Seq<u8>)
    requires
        accs.len() >= 3,
        accs[2].is_signer,
        accs[0].key == accs[1].key,
    ensures
        close_step(accs, system_program_id).0 == Err::<(), ProcessError>(
            ProcessError::InvalidInstructionData,
        ),
{
}

/// Nested-call rejection: an instruction invoked above the transaction level
/// fails with `UnsupportedProgramId` before any account is read or any budget
/// is charged: accounts and budget are exactly as before.
pub proof fn lemma_nested_call_rejected(
    data: Seq<u8>,
    accs: Seq<AccountModel>,
    stack_height: usize,
    budget: u64,
    config: ConfigModel,
)
    requires
        stack_height != TRANSACTION_LEVEL_STACK_HEIGHT,
    ensures
        process_step(data, accs, stack_height, budget, config) == (
            Err::<(), ProcessError>(ProcessError::UnsupportedProgramId),
            accs,
            budget,
        ),
{
}

} // verus!
