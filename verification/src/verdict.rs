use vstd::prelude::*;

use solana_zk_token_sdk::instruction::{
    CiphertextCiphertextEqualityProofData, TransferData, TransferWithFeeData, WithdrawData,
    ZeroBalanceProofData, ZkProofData,
};
use solana_zk_token_sdk::instruction::{
    CiphertextCiphertextEqualityProofContext, PubkeyValidityData, PubkeyValidityProofContext,
    TransferProofContext, TransferWithFeeProofContext, WithdrawProofContext,
    ZeroBalanceProofContext,
};
use solana_zk_token_sdk::zk_token_proof_instruction::ProofInstruction;

use crate::proof_type::ProofType;

verus! {

/// Byte length of the context component of each proof kind, as the external
/// verifier lays it out.
pub const ZERO_BALANCE_CONTEXT_LEN: usize = 96;

pub const WITHDRAW_CONTEXT_LEN: usize = 96;

pub const CIPHERTEXT_CIPHERTEXT_EQUALITY_CONTEXT_LEN: usize = 192;

pub const TRANSFER_CONTEXT_LEN: usize = 416;

pub const TRANSFER_WITH_FEE_CONTEXT_LEN: usize = 650;

pub const PUBKEY_VALIDITY_CONTEXT_LEN: usize = 32;

/// What the external verifier decides for a zero-balance instruction blob:
/// the context bytes of the verified proof, or nothing if the blob does not
/// parse or the proof is rejected. The decision is a function of the blob
/// alone; only the trusted wrapper below says anything about it.
pub uninterp spec fn zero_balance_verdict(data: Seq<u8>) -> Option<Seq<u8>>;

/// As `zero_balance_verdict`, for a withdraw instruction blob.
pub uninterp spec fn withdraw_verdict(data: Seq<u8>) -> Option<Seq<u8>>;

/// As `zero_balance_verdict`, for a ciphertext-ciphertext equality blob.
pub uninterp spec fn ciphertext_ciphertext_equality_verdict(data: Seq<u8>) -> Option<Seq<u8>>;

/// As `zero_balance_verdict`, for a transfer instruction blob.
pub uninterp spec fn transfer_verdict(data: Seq<u8>) -> Option<Seq<u8>>;

/// As `zero_balance_verdict`, for a transfer-with-fee instruction blob.
pub uninterp spec fn transfer_with_fee_verdict(data: Seq<u8>) -> Option<Seq<u8>>;

/// As `zero_balance_verdict`, for a pubkey-validity instruction blob.
pub uninterp spec fn pubkey_validity_verdict(data: Seq<u8>) -> Option<Seq<u8>>;

/// What the external verifier decides for an instruction blob of the given
/// proof kind. No instruction requests the `Uninitialized` sentinel, so no
/// blob verifies against it.
pub open spec fn proof_verdict(t: ProofType, data: Seq<u8>) -> Option<Seq<u8>> {
    match t {
        ProofType::Uninitialized => None,
        ProofType::ZeroBalance => zero_balance_verdict(data),
        ProofType::Withdraw => withdraw_verdict(data),
        ProofType::CiphertextCiphertextEquality => ciphertext_ciphertext_equality_verdict(data),
        ProofType::Transfer => transfer_verdict(data),
        ProofType::TransferWithFee => transfer_with_fee_verdict(data),
        ProofType::PubkeyValidity => pubkey_validity_verdict(data),
    }
}

/// Relies on `ZkProofData::verify_proof` for `ZeroBalanceProofData`, with
/// `ProofInstruction::proof_data` casting the instruction bytes after the tag
/// to the proof data and `bytemuck::bytes_of` serializing the 96-byte context
/// component on success. Verification reads the blob alone.
#[verifier::external_body]
fn verify_zero_balance(data: &Vec<u8>) -> (r: Option<Vec<u8>>)
    ensures
        (r matches Some(c) ==> zero_balance_verdict(data@) == Some(c@) && c@.len()
            == ZERO_BALANCE_CONTEXT_LEN),
        r is None ==> zero_balance_verdict(data@) is None,
{
    let d = ProofInstruction::proof_data::<ZeroBalanceProofData, ZeroBalanceProofContext>(data)?;
    d.verify_proof().ok()?;
    Some(bytemuck::bytes_of(d.context_data()).to_vec())
}

/// Relies on `ZkProofData::verify_proof` for `WithdrawData`, with
/// `ProofInstruction::proof_data` casting the instruction bytes after the tag
/// to the proof data and `bytemuck::bytes_of` serializing the 96-byte context
/// component on success. Verification reads the blob alone.
#[verifier::external_body]
fn verify_withdraw(data: &Vec<u8>) -> (r: Option<Vec<u8>>)
    ensures
        (r matches Some(c) ==> withdraw_verdict(data@) == Some(c@) && c@.len()
            == WITHDRAW_CONTEXT_LEN),
        r is None ==> withdraw_verdict(data@) is None,
{
    let d = ProofInstruction::proof_data::<WithdrawData, WithdrawProofContext>(data)?;
    d.verify_proof().ok()?;
    Some(bytemuck::bytes_of(d.context_data()).to_vec())
}

/// Relies on `ZkProofData::verify_proof` for
/// `CiphertextCiphertextEqualityProofData`, with
/// `ProofInstruction::proof_data` casting the instruction bytes after the tag
/// to the proof data and `bytemuck::bytes_of` serializing the 192-byte
/// context component on success. Verification reads the blob alone.
#[verifier::external_body]
fn verify_ciphertext_ciphertext_equality(data: &Vec<u8>) -> (r: Option<Vec<u8>>)
    ensures
        (r matches Some(c) ==> ciphertext_ciphertext_equality_verdict(data@) == Some(c@)
            && c@.len() == CIPHERTEXT_CIPHERTEXT_EQUALITY_CONTEXT_LEN),
        r is None ==> ciphertext_ciphertext_equality_verdict(data@) is None,
{
    let d = ProofInstruction::proof_data::<
        CiphertextCiphertextEqualityProofData,
        CiphertextCiphertextEqualityProofContext,
    >(data)?;
    d.verify_proof().ok()?;
    Some(bytemuck::bytes_of(d.context_data()).to_vec())
}

/// Relies on `ZkProofData::verify_proof` for `TransferData`, with
/// `ProofInstruction::proof_data` casting the instruction bytes after the tag
/// to the proof data and `bytemuck::bytes_of` serializing the 416-byte
/// context component on success. Verification reads the blob alone.
#[verifier::external_body]
fn verify_transfer(data: &Vec<u8>) -> (r: Option<Vec<u8>>)
    ensures
        (r matches Some(c) ==> transfer_verdict(data@) == Some(c@) && c@.len()
            == TRANSFER_CONTEXT_LEN),
        r is None ==> transfer_verdict(data@) is None,
{
    let d = ProofInstruction::proof_data::<TransferData, TransferProofContext>(data)?;
    d.verify_proof().ok()?;
    Some(bytemuck::bytes_of(d.context_data()).to_vec())
}

/// Relies on `ZkProofData::verify_proof` for `TransferWithFeeData`, with
/// `ProofInstruction::proof_data` casting the instruction bytes after the tag
/// to the proof data and `bytemuck::bytes_of` serializing the 650-byte
/// context component on success. Verification reads the blob alone.
#[verifier::external_body]
fn verify_transfer_with_fee(data: &Vec<u8>) -> (r: Option<Vec<u8>>)
    ensures
        (r matches Some(c) ==> transfer_with_fee_verdict(data@) == Some(c@) && c@.len()
            == TRANSFER_WITH_FEE_CONTEXT_LEN),
        r is None ==> transfer_with_fee_verdict(data@) is None,
{
    let d = ProofInstruction::proof_data::<TransferWithFeeData, TransferWithFeeProofContext>(
        data,
    )?;
    d.verify_proof().ok()?;
    Some(bytemuck::bytes_of(d.context_data()).to_vec())
}

/// Relies on `ZkProofData::verify_proof` for `PubkeyValidityData`, with
/// `ProofInstruction::proof_data` casting the instruction bytes after the tag
/// to the proof data and `bytemuck::bytes_of` serializing the 32-byte context
/// component on success. Verification reads the blob alone.
#[verifier::external_body]
fn verify_pubkey_validity(data: &Vec<u8>) -> (r: Option<Vec<u8>>)
    ensures
        (r matches Some(c) ==> pubkey_validity_verdict(data@) == Some(c@) && c@.len()
            == PUBKEY_VALIDITY_CONTEXT_LEN),
        r is None ==> pubkey_validity_verdict(data@) is None,
{
    let d = ProofInstruction::proof_data::<PubkeyValidityData, PubkeyValidityProofContext>(data)?;
    d.verify_proof().ok()?;
    Some(bytemuck::bytes_of(d.context_data()).to_vec())
}

/// Invokes the external verifier for the given proof kind on a whole
/// instruction blob (tag byte included). Returns the verified proof's context
/// bytes, or nothing exactly when the verdict is negative.
pub fn run_verifier(proof_type: ProofType, data: &Vec<u8>) -> (r: Option<Vec<u8>>)
    ensures
        (r matches Some(c) ==> proof_verdict(proof_type, data@) == Some(c@)),
        r is None ==> proof_verdict(proof_type, data@) is None,
{
    match proof_type {
        ProofType::Uninitialized => None,
        ProofType::ZeroBalance => verify_zero_balance(data),
        ProofType::Withdraw => verify_withdraw(data),
        ProofType::CiphertextCiphertextEquality => verify_ciphertext_ciphertext_equality(data),
        ProofType::Transfer => verify_transfer(data),
        ProofType::TransferWithFee => verify_transfer_with_fee(data),
        ProofType::PubkeyValidity => verify_pubkey_validity(data),
    }
}

} // verus!
