use vstd::prelude::*;

use crate::pubkey::Pubkey;

verus! {

/// One instruction-supplied account, as the ledger runtime hands it to the
/// processor: its address, the program that owns it, its balance, its stored
/// bytes, and whether it co-signed the transaction. The runtime guarantees
/// exclusive access to every account for the duration of one instruction.
#[derive(Debug)]
pub struct Account {
    pub key: Pubkey,
    pub owner: Pubkey,
    pub lamports: u64,
    pub data: Vec<u8>,
    pub is_signer: bool,
}

/// The mathematical image of an [`Account`]: the same five attributes with
/// addresses and stored bytes as sequences.
#[verifier::ext_equal]
pub struct AccountModel {
    pub key: Seq<u8>,
    pub owner: Seq<u8>,
    pub lamports: u64,
    pub data: Seq<u8>,
    pub is_signer: bool,
}

impl View for Account {
    type V = AccountModel;

    open spec fn view(&self) -> AccountModel {
        AccountModel {
            key: self.key@,
            owner: self.owner@,
            lamports: self.lamports,
            data: self.data@,
            is_signer: self.is_signer,
        }
    }
}

/// The images of a whole account list.
pub open spec fn model_of(accounts: Seq<Account>) -> Seq<AccountModel> {
    accounts.map_values(|a: Account| a@)
}

/// The identities and cost parameter the host passes in explicitly, so that
/// the processor embeds no global constants: this program's own identity, the
/// neutral owner that closed accounts are handed to, and the fixed compute
/// cost charged per instruction.
pub struct Config {
    pub program_id: Pubkey,
    pub system_program_id: Pubkey,
    pub compute_cost: u64,
}

/// The mathematical image of a [`Config`].
#[verifier::ext_equal]
pub struct ConfigModel {
    pub program_id: Seq<u8>,
    pub system_program_id: Seq<u8>,
    pub compute_cost: u64,
}

impl View for Config {
    type V = ConfigModel;

    open spec fn view(&self) -> ConfigModel {
        ConfigModel {
            program_id: self.program_id@,
            system_program_id: self.system_program_id@,
            compute_cost: self.compute_cost,
        }
    }
}

} // verus!
