//! The instruction that moves lamports between two accounts of the ledger.

use vstd::prelude::*;
use anchor_lang::prelude::Pubkey;
use anchor_lang::solana_program::system_instruction;
use crate::account::AccountId;

verus! {

/// One account named by an instruction, and what the instruction may do with
/// it.
#[derive(Clone, Copy, Debug, PartialEq, Eq)]
pub struct AccountMeta {
    pub pubkey: AccountId,
    pub is_signer: bool,
    pub is_writable: bool,
}

/// An instruction for the host ledger: the program that runs it, the accounts
/// it names, and the bytes the program reads.
#[derive(Clone, Debug, PartialEq, Eq)]
pub struct Instruction {
    pub program_id: AccountId,
    pub accounts: Vec<AccountMeta>,
    pub data: Vec<u8>,
}

/// The bytes by which the ledger's system program is asked to move `lamports`:
/// what `system_instruction::transfer` puts in the instruction's data.
pub uninterp spec fn transfer_data(lamports: u64) -> Seq<u8>;

/// The identifier of the ledger's system program: 32 zero bytes.
pub open spec fn system_program_id() -> Seq<u8> {
    Seq::new(32, |i: int| 0u8)
}

impl Instruction {
    /// The instruction asks the system program to move `lamports` from `from`,
    /// which signs, to `to`.
    pub open spec fn is_transfer(&self, from: AccountId, to: AccountId, lamports: u64) -> bool {
        &&& self.program_id@ == system_program_id()
        &&& self.accounts@ == seq![
            (AccountMeta { pubkey: from, is_signer: true, is_writable: true }),
            (AccountMeta { pubkey: to, is_signer: false, is_writable: true }),
        ]
        &&& self.data@ == transfer_data(lamports)
    }
}

/// Calls `system_instruction::transfer` of solana_program, as anchor_lang
/// hands it on. Believed of it, not proved: the instruction is one for the
/// system program; it names two writable accounts, first `from` as a signer,
/// then `to` as none; its data is a function of `lamports` alone.
#[verifier::external_body]
pub(crate) fn system_transfer(from: &AccountId, to: &AccountId, lamports: u64) -> (r: Instruction)
    ensures
        r.program_id@ == system_program_id(),
        r.accounts@ == seq![
            (AccountMeta { pubkey: *from, is_signer: true, is_writable: true }),
            (AccountMeta { pubkey: *to, is_signer: false, is_writable: true }),
        ],
        r.data@ == transfer_data(lamports),
{
    let from_key = Pubkey::new_from_array(from.bytes);
    let to_key = Pubkey::new_from_array(to.bytes);
    let ix = system_instruction::transfer(&from_key, &to_key, lamports);
    Instruction {
        program_id: AccountId { bytes: ix.program_id.to_bytes() },
        accounts: ix.accounts.iter().map(|m| AccountMeta {
            pubkey: AccountId { bytes: m.pubkey.to_bytes() },
            is_signer: m.is_signer,
            is_writable: m.is_writable,
        }).collect(),
        data: ix.data,
    }
}

} // verus!
