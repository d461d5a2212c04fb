use zk_proof_program::codec::{decode, decode_meta, encode, CONTEXT_META_LEN};
use zk_proof_program::error::ProcessError;
use zk_proof_program::proof_type::{instruction_from_tag, tag_of, type_from_tag, Instruction, ProofType};
use zk_proof_program::pubkey::Pubkey;

#[test]
fn encode_layout_is_authority_tag_payload() {
    let authority = Pubkey::new([0xAA; 32]);
    let payload = vec![5u8, 6u8];
    let encoded = encode(&authority, ProofType::ZeroBalance, &payload);
    let mut expected = vec![0xAAu8; 32];
    expected.push(1);
    expected.push(5);
    expected.push(6);
    assert_eq!(encoded, expected);
}

#[test]
fn decode_reproduces_encode_inputs() {
    let authority = Pubkey::new([3; 32]);
    let payload = vec![9u8, 8u8, 7u8];
    let encoded = encode(&authority, ProofType::Transfer, &payload);
    assert_eq!(encoded.len(), CONTEXT_META_LEN + 3);
    let state = decode(&encoded).unwrap();
    assert_eq!(state.authority.bytes, [3; 32]);
    assert!(state.proof_type == ProofType::Transfer);
    assert_eq!(state.payload, payload);
}

#[test]
fn decode_reproduces_every_proof_type() {
    let authority = Pubkey::new([250; 32]);
    let payload = vec![1u8];
    let kinds = [
        ProofType::Uninitialized,
        ProofType::ZeroBalance,
        ProofType::Withdraw,
        ProofType::CiphertextCiphertextEquality,
        ProofType::Transfer,
        ProofType::TransferWithFee,
        ProofType::PubkeyValidity,
    ];
    for kind in kinds {
        let encoded = encode(&authority, kind, &payload);
        let state = decode(&encoded).unwrap();
        assert_eq!(state.authority.bytes, [250; 32]);
        assert!(state.proof_type == kind);
        assert_eq!(state.payload, payload);
    }
}

#[test]
fn decode_empty_payload_round_trips() {
    let authority = Pubkey::new([0; 32]);
    let payload: Vec<u8> = Vec::new();
    let encoded = encode(&authority, ProofType::PubkeyValidity, &payload);
    assert_eq!(encoded.len(), CONTEXT_META_LEN);
    let state = decode(&encoded).unwrap();
    assert!(state.proof_type == ProofType::PubkeyValidity);
    assert_eq!(state.payload.len(), 0);
}

#[test]
fn decode_short_bytes_fails() {
    let data = vec![0u8; 32];
    assert_eq!(decode(&data).err(), Some(ProcessError::InvalidAccountData));
    assert_eq!(
        decode_meta(&data).map(|m| m.proof_tag),
        Err(ProcessError::InvalidAccountData)
    );
}

#[test]
fn decode_unknown_tag_fails_but_meta_keeps_raw_byte() {
    let mut data = vec![7u8; 32];
    data.push(9);
    assert_eq!(decode(&data).err(), Some(ProcessError::InvalidAccountData));
    let meta = decode_meta(&data).unwrap();
    assert_eq!(meta.proof_tag, 9);
    assert_eq!(meta.authority.bytes, [7; 32]);
}

#[test]
fn record_tags_are_stable() {
    assert_eq!(tag_of(ProofType::Uninitialized), 0);
    assert_eq!(tag_of(ProofType::ZeroBalance), 1);
    assert_eq!(tag_of(ProofType::Withdraw), 2);
    assert_eq!(tag_of(ProofType::CiphertextCiphertextEquality), 3);
    assert_eq!(tag_of(ProofType::Transfer), 4);
    assert_eq!(tag_of(ProofType::TransferWithFee), 5);
    assert_eq!(tag_of(ProofType::PubkeyValidity), 6);
    assert!(type_from_tag(6) == Some(ProofType::PubkeyValidity));
    assert!(type_from_tag(7).is_none());
}

#[test]
fn instruction_tags_route_close_and_verify() {
    assert!(instruction_from_tag(0) == Some(Instruction::CloseContextState));
    assert!(instruction_from_tag(4) == Some(Instruction::VerifyProof(ProofType::Transfer)));
    assert!(instruction_from_tag(6) == Some(Instruction::VerifyProof(ProofType::PubkeyValidity)));
    assert!(instruction_from_tag(7).is_none());
    assert!(instruction_from_tag(255).is_none());
}
