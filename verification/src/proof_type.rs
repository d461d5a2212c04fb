use vstd::prelude::*;

verus! {

/// The closed set of proof kinds this program verifies. `Uninitialized` is a
/// sentinel: a context account whose record carries this tag has not been
/// created yet and holds no verified result.
#[derive(Clone, Copy, Debug, PartialEq, Eq, Structural)]
pub enum ProofType {
    Uninitialized,
    ZeroBalance,
    Withdraw,
    CiphertextCiphertextEquality,
    Transfer,
    TransferWithFee,
    PubkeyValidity,
}

/// One decoded instruction: tear a context account down, or verify a proof of
/// the given kind (never `Uninitialized`: no instruction tag maps to it).
#[derive(Clone, Copy, Debug, PartialEq, Eq, Structural)]
pub enum Instruction {
    CloseContextState,
    VerifyProof(ProofType),
}

/// The byte that tags a context record of the given proof type.
pub open spec fn spec_tag_of(t: ProofType) -> u8 {
    match t {
        ProofType::Uninitialized => 0,
        ProofType::ZeroBalance => 1,
        ProofType::Withdraw => 2,
        ProofType::CiphertextCiphertextEquality => 3,
        ProofType::Transfer => 4,
        ProofType::TransferWithFee => 5,
        ProofType::PubkeyValidity => 6,
    }
}

/// The proof type a record tag byte stands for, if any.
pub open spec fn spec_type_from_tag(tag: u8) -> Option<ProofType> {
    if tag == 0 {
        Some(ProofType::Uninitialized)
    } else if tag == 1 {
        Some(ProofType::ZeroBalance)
    } else if tag == 2 {
        Some(ProofType::Withdraw)
    } else if tag == 3 {
        Some(ProofType::CiphertextCiphertextEquality)
    } else if tag == 4 {
        Some(ProofType::Transfer)
    } else if tag == 5 {
        Some(ProofType::TransferWithFee)
    } else if tag == 6 {
        Some(ProofType::PubkeyValidity)
    } else {
        None
    }
}

/// The instruction a leading instruction-data byte requests, if any. Tag 0 is
/// the close instruction; tags 1 through 6 request verification of the proof
/// type that shares the tag.
pub open spec fn spec_instruction_from_tag(tag: u8) -> Option<Instruction> {
    if tag == 0 {
        Some(Instruction::CloseContextState)
    } else {
        match spec_type_from_tag(tag) {
            Some(t) => Some(Instruction::VerifyProof(t)),
            None => None,
        }
    }
}

pub fn tag_of(t: ProofType) -> (r: u8)
    ensures
        r == spec_tag_of(t),
{
    match t {
        ProofType::Uninitialized => 0,
        ProofType::ZeroBalance => 1,
        ProofType::Withdraw => 2,
        ProofType::CiphertextCiphertextEquality => 3,
        ProofType::Transfer => 4,
        ProofType::TransferWithFee => 5,
        ProofType::PubkeyValidity => 6,
    }
}

pub fn type_from_tag(tag: u8) -> (r: Option<ProofType>)
    ensures
        r == spec_type_from_tag(tag),
{
    if tag == 0 {
        Some(ProofType::Uninitialized)
    } else if tag == 1 {
        Some(ProofType::ZeroBalance)
    } else if tag == 2 {
        Some(ProofType::Withdraw)
    } else if tag == 3 {
        Some(ProofType::CiphertextCiphertextEquality)
    } else if tag == 4 {
        Some(ProofType::Transfer)
    } else if tag == 5 {
        Some(ProofType::TransferWithFee)
    } else if tag == 6 {
        Some(ProofType::PubkeyValidity)
    } else {
        None
    }
}

pub fn instruction_from_tag(tag: u8) -> (r: Option<Instruction>)
    ensures
        r == spec_instruction_from_tag(tag),
{
    if tag == 0 {
        Some(Instruction::CloseContextState)
    } else {
        match type_from_tag(tag) {
            Some(t) => Some(Instruction::VerifyProof(t)),
            None => None,
        }
    }
}

/// Tagging a proof type and reading the tag back is the identity.
pub proof fn lemma_tag_round_trip(t: ProofType)
    ensures
        spec_type_from_tag(spec_tag_of(t)) == Some(t),
{
}

/// Only the `Uninitialized` sentinel is tagged with the zero byte.
pub proof fn lemma_tag_zero_iff_uninitialized(t: ProofType)
    ensures
        (spec_tag_of(t) == 0) <==> (t == ProofType::Uninitialized),
{
}

/// A decoded verify instruction never asks for the `Uninitialized` sentinel.
pub proof fn lemma_no_verify_uninitialized(tag: u8)
    ensures
        spec_instruction_from_tag(tag) != Some(
            Instruction::VerifyProof(ProofType::Uninitialized),
        ),
{
}

} // verus!
