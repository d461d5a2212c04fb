use solana_zk_token_sdk::encryption::elgamal::ElGamalKeypair;
use solana_zk_token_sdk::encryption::pedersen::PedersenOpening;
use solana_zk_token_sdk::instruction::{
    CiphertextCiphertextEqualityProofData, FeeParameters, PubkeyValidityData, TransferData,
    TransferWithFeeData, WithdrawData, ZeroBalanceProofData, ZkProofData,
};

use zk_proof_program::account::{Account, Config};
use zk_proof_program::codec::{decode, CONTEXT_META_LEN};
use zk_proof_program::error::ProcessError;
use zk_proof_program::processor::process_instruction;
use zk_proof_program::proof_type::ProofType;
use zk_proof_program::pubkey::Pubkey;
use zk_proof_program::verdict::TRANSFER_CONTEXT_LEN;

const PROGRAM_ID: [u8; 32] = [11; 32];
const SYSTEM_ID: [u8; 32] = [0; 32];
const COST: u64 = 100_000;

fn config() -> Config {
    Config {
        program_id: Pubkey::new(PROGRAM_ID),
        system_program_id: Pubkey::new(SYSTEM_ID),
        compute_cost: COST,
    }
}

fn run(data: &Vec<u8>, accounts: &mut Vec<Account>) -> Result<(), ProcessError> {
    let mut budget: u64 = 2 * COST;
    process_instruction(data, accounts, 1, &mut budget, &config())
}

fn instruction_bytes<T: bytemuck::Pod>(tag: u8, proof_data: &T) -> Vec<u8> {
    let mut v = vec![tag];
    v.extend_from_slice(bytemuck::bytes_of(proof_data));
    v
}

fn corrupted(data: &Vec<u8>) -> Vec<u8> {
    let mut bad = data.clone();
    let last = bad.len() - 1;
    bad[last] ^= 1;
    bad
}

fn pubkey_validity_bytes() -> Vec<u8> {
    let keypair = ElGamalKeypair::new_rand();
    let proof_data = PubkeyValidityData::new(&keypair).unwrap();
    instruction_bytes(6, &proof_data)
}

fn zero_balance_bytes() -> Vec<u8> {
    let keypair = ElGamalKeypair::new_rand();
    let ciphertext = keypair.pubkey().encrypt(0u64);
    let proof_data = ZeroBalanceProofData::new(&keypair, &ciphertext).unwrap();
    instruction_bytes(1, &proof_data)
}

fn withdraw_bytes() -> Vec<u8> {
    let keypair = ElGamalKeypair::new_rand();
    let ciphertext = keypair.pubkey().encrypt(0u64);
    let proof_data = WithdrawData::new(0, &keypair, 0, &ciphertext).unwrap();
    instruction_bytes(2, &proof_data)
}

fn equality_bytes() -> Vec<u8> {
    let source_keypair = ElGamalKeypair::new_rand();
    let destination_keypair = ElGamalKeypair::new_rand();
    let amount: u64 = 0;
    let source_ciphertext = source_keypair.pubkey().encrypt(amount);
    let destination_opening = PedersenOpening::new_rand();
    let destination_ciphertext = destination_keypair
        .pubkey()
        .encrypt_with(amount, &destination_opening);
    let proof_data = CiphertextCiphertextEqualityProofData::new(
        &source_keypair,
        destination_keypair.pubkey(),
        &source_ciphertext,
        &destination_ciphertext,
        &destination_opening,
        amount,
    )
    .unwrap();
    instruction_bytes(3, &proof_data)
}

fn transfer_proof_data() -> TransferData {
    let source_keypair = ElGamalKeypair::new_rand();
    let destination_keypair = ElGamalKeypair::new_rand();
    let auditor_keypair = ElGamalKeypair::new_rand();
    let spendable_balance: u64 = 0;
    let spendable_ciphertext = source_keypair.pubkey().encrypt(spendable_balance);
    TransferData::new(
        0,
        (spendable_balance, &spendable_ciphertext),
        &source_keypair,
        (destination_keypair.pubkey(), auditor_keypair.pubkey()),
    )
    .unwrap()
}

fn transfer_with_fee_bytes() -> Vec<u8> {
    let source_keypair = ElGamalKeypair::new_rand();
    let destination_keypair = ElGamalKeypair::new_rand();
    let auditor_keypair = ElGamalKeypair::new_rand();
    let withheld_authority_keypair = ElGamalKeypair::new_rand();
    let spendable_balance: u64 = 120;
    let spendable_ciphertext = source_keypair.pubkey().encrypt(spendable_balance);
    let fee_parameters = FeeParameters {
        fee_rate_basis_points: 400,
        maximum_fee: 3,
    };
    let proof_data = TransferWithFeeData::new(
        0,
        (spendable_balance, &spendable_ciphertext),
        &source_keypair,
        (destination_keypair.pubkey(), auditor_keypair.pubkey()),
        fee_parameters,
        withheld_authority_keypair.pubkey(),
    )
    .unwrap();
    instruction_bytes(5, &proof_data)
}

fn context_account(lamports: u64, data_len: usize) -> Account {
    Account {
        key: Pubkey::new([1; 32]),
        owner: Pubkey::new(PROGRAM_ID),
        lamports,
        data: vec![0u8; data_len],
        is_signer: false,
    }
}

fn authority_account() -> Account {
    Account {
        key: Pubkey::new([2; 32]),
        owner: Pubkey::new(SYSTEM_ID),
        lamports: 0,
        data: Vec::new(),
        is_signer: false,
    }
}

#[test]
fn pubkey_validity_with_no_accounts_succeeds_untouched() {
    let data = pubkey_validity_bytes();
    let mut accounts: Vec<Account> = Vec::new();
    assert_eq!(run(&data, &mut accounts), Ok(()));
    assert_eq!(accounts.len(), 0);
}

#[test]
fn pubkey_validity_corrupted_proof_is_rejected() {
    let data = corrupted(&pubkey_validity_bytes());
    let mut accounts: Vec<Account> = Vec::new();
    assert_eq!(run(&data, &mut accounts), Err(ProcessError::InvalidInstructionData));
}

#[test]
fn zero_balance_proof_verifies() {
    let data = zero_balance_bytes();
    let mut accounts: Vec<Account> = Vec::new();
    assert_eq!(run(&data, &mut accounts), Ok(()));
}

#[test]
fn zero_balance_corrupted_proof_is_rejected() {
    let data = corrupted(&zero_balance_bytes());
    let mut accounts: Vec<Account> = Vec::new();
    assert_eq!(run(&data, &mut accounts), Err(ProcessError::InvalidInstructionData));
}

#[test]
fn withdraw_proof_verifies() {
    let data = withdraw_bytes();
    let mut accounts: Vec<Account> = Vec::new();
    assert_eq!(run(&data, &mut accounts), Ok(()));
}

#[test]
fn withdraw_corrupted_proof_is_rejected() {
    let data = corrupted(&withdraw_bytes());
    let mut accounts: Vec<Account> = Vec::new();
    assert_eq!(run(&data, &mut accounts), Err(ProcessError::InvalidInstructionData));
}

#[test]
fn ciphertext_equality_proof_verifies() {
    let data = equality_bytes();
    let mut accounts: Vec<Account> = Vec::new();
    assert_eq!(run(&data, &mut accounts), Ok(()));
}

#[test]
fn ciphertext_equality_corrupted_proof_is_rejected() {
    let data = corrupted(&equality_bytes());
    let mut accounts: Vec<Account> = Vec::new();
    assert_eq!(run(&data, &mut accounts), Err(ProcessError::InvalidInstructionData));
}

#[test]
fn transfer_with_fee_proof_verifies() {
    let data = transfer_with_fee_bytes();
    let mut accounts: Vec<Account> = Vec::new();
    assert_eq!(run(&data, &mut accounts), Ok(()));
}

#[test]
fn transfer_with_fee_corrupted_proof_is_rejected() {
    let data = corrupted(&transfer_with_fee_bytes());
    let mut accounts: Vec<Account> = Vec::new();
    assert_eq!(run(&data, &mut accounts), Err(ProcessError::InvalidInstructionData));
}

#[test]
fn transfer_with_context_account_materializes_record() {
    let proof_data = transfer_proof_data();
    let data = instruction_bytes(4, &proof_data);
    let mut accounts = vec![
        context_account(1000, CONTEXT_META_LEN + TRANSFER_CONTEXT_LEN),
        authority_account(),
    ];
    assert_eq!(run(&data, &mut accounts), Ok(()));
    let state = decode(&accounts[0].data).unwrap();
    assert_eq!(state.authority.bytes, [2; 32]);
    assert!(state.proof_type == ProofType::Transfer);
    assert_eq!(state.payload, bytemuck::bytes_of(proof_data.context_data()).to_vec());
    assert_eq!(accounts[0].lamports, 1000);
    assert!(accounts[0].owner == Pubkey::new(PROGRAM_ID));
}

#[test]
fn transfer_reinitialization_is_rejected() {
    let proof_data = transfer_proof_data();
    let data = instruction_bytes(4, &proof_data);
    let mut accounts = vec![
        context_account(1000, CONTEXT_META_LEN + TRANSFER_CONTEXT_LEN),
        authority_account(),
    ];
    assert_eq!(run(&data, &mut accounts), Ok(()));
    let written = accounts[0].data.clone();
    assert_eq!(run(&data, &mut accounts), Err(ProcessError::AccountAlreadyInitialized));
    assert_eq!(accounts[0].data, written);
}

#[test]
fn transfer_wrongly_sized_account_is_rejected() {
    let proof_data = transfer_proof_data();
    let data = instruction_bytes(4, &proof_data);
    let mut accounts = vec![
        context_account(1000, CONTEXT_META_LEN + TRANSFER_CONTEXT_LEN - 1),
        authority_account(),
    ];
    assert_eq!(run(&data, &mut accounts), Err(ProcessError::InvalidAccountData));
    assert_eq!(accounts[0].data, vec![0u8; CONTEXT_META_LEN + TRANSFER_CONTEXT_LEN - 1]);
}

#[test]
fn transfer_foreign_owned_account_is_rejected() {
    let proof_data = transfer_proof_data();
    let data = instruction_bytes(4, &proof_data);
    let mut accounts = vec![
        Account {
            key: Pubkey::new([1; 32]),
            owner: Pubkey::new([99; 32]),
            lamports: 1000,
            data: vec![0u8; CONTEXT_META_LEN + TRANSFER_CONTEXT_LEN],
            is_signer: false,
        },
        authority_account(),
    ];
    assert_eq!(run(&data, &mut accounts), Err(ProcessError::InvalidAccountOwner));
    assert_eq!(accounts[0].data, vec![0u8; CONTEXT_META_LEN + TRANSFER_CONTEXT_LEN]);
}

#[test]
fn transfer_single_account_is_rejected() {
    let proof_data = transfer_proof_data();
    let data = instruction_bytes(4, &proof_data);
    let mut accounts = vec![context_account(1000, CONTEXT_META_LEN + TRANSFER_CONTEXT_LEN)];
    assert_eq!(run(&data, &mut accounts), Err(ProcessError::NotEnoughAccountKeys));
}

#[test]
fn created_context_is_closed_by_its_authority() {
    let proof_data = transfer_proof_data();
    let data = instruction_bytes(4, &proof_data);
    let mut accounts = vec![
        context_account(1000, CONTEXT_META_LEN + TRANSFER_CONTEXT_LEN),
        authority_account(),
    ];
    assert_eq!(run(&data, &mut accounts), Ok(()));

    let context = accounts.remove(0);
    let destination = Account {
        key: Pubkey::new([5; 32]),
        owner: Pubkey::new(SYSTEM_ID),
        lamports: 10,
        data: Vec::new(),
        is_signer: false,
    };
    let authority = Account {
        key: Pubkey::new([2; 32]),
        owner: Pubkey::new(SYSTEM_ID),
        lamports: 0,
        data: Vec::new(),
        is_signer: true,
    };
    let mut close_accounts = vec![context, destination, authority];
    let close_data = vec![0u8];
    assert_eq!(run(&close_data, &mut close_accounts), Ok(()));
    assert_eq!(close_accounts[1].lamports, 1010);
    assert_eq!(close_accounts[0].lamports, 0);
    assert_eq!(close_accounts[0].data.len(), 0);
    assert!(close_accounts[0].owner == Pubkey::new(SYSTEM_ID));
}
