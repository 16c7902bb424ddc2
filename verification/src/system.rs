//! The system collaborator's requests: moving lamports, giving an account
//! its space, and handing an account to the program that is to own it.

use vstd::prelude::*;
use vstd::bytes::spec_u64_to_le_bytes;
use solana_program::pubkey::Pubkey;
use solana_program::system_instruction;
use crate::address::Address;
use crate::instruction::{AccountMeta, Instruction, InstructionView};
use crate::programs::system_program;

verus! {

/// The bytes by which the system program is told to move `lamports`: the
/// number of the instruction in four bytes, then the amount, both little
/// end first.
pub open spec fn system_transfer_data(lamports: u64) -> Seq<u8> {
    seq![2u8, 0, 0, 0] + spec_u64_to_le_bytes(lamports)
}

/// The bytes by which the system program is told to give an account a
/// space of `space` bytes: the number of the instruction in four bytes,
/// then the size, both little end first.
pub open spec fn system_allocate_data(space: u64) -> Seq<u8> {
    seq![8u8, 0, 0, 0] + spec_u64_to_le_bytes(space)
}

/// The bytes by which the system program is told to make `owner` the
/// program that owns an account: the number of the instruction in four
/// bytes, little end first, then the owner's address.
pub open spec fn system_assign_data(owner: Address) -> Seq<u8> {
    seq![1u8, 0, 0, 0] + owner@
}

/// The system program's request that moves `lamports` from `from`, which
/// signs, to `to`.
pub open spec fn system_transfer_request(from: Address, to: Address, lamports: u64) -> InstructionView {
    InstructionView {
        program_id: system_program(),
        accounts: seq![
            AccountMeta { pubkey: from, is_signer: true, is_writable: true },
            AccountMeta { pubkey: to, is_signer: false, is_writable: true },
        ],
        data: system_transfer_data(lamports),
    }
}

/// The system program's request that gives `account`, which signs, a space
/// of `space` bytes.
pub open spec fn system_allocate_request(account: Address, space: u64) -> InstructionView {
    InstructionView {
        program_id: system_program(),
        accounts: seq![AccountMeta { pubkey: account, is_signer: true, is_writable: true }],
        data: system_allocate_data(space),
    }
}

/// The system program's request that makes `owner` the program that owns
/// `account`, which signs.
pub open spec fn system_assign_request(account: Address, owner: Address) -> InstructionView {
    InstructionView {
        program_id: system_program(),
        accounts: seq![AccountMeta { pubkey: account, is_signer: true, is_writable: true }],
        data: system_assign_data(owner),
    }
}

/// `system_instruction::transfer` of solana_program: the request is to the
/// system program and names the payer, writable and signing, then the
/// receiver, writable; its data is the instruction's number, 2, and the
/// amount.
#[verifier::external_body]
pub(crate) fn transfer(from: &Address, to: &Address, lamports: u64) -> (request: Instruction)
    ensures
        request@ == system_transfer_request(*from, *to, lamports),
{
    let ix = system_instruction::transfer(
        &Pubkey::new_from_array(from.bytes),
        &Pubkey::new_from_array(to.bytes),
        lamports,
    );
    let metas = ix.accounts.iter().map(|m| AccountMeta {
        pubkey: Address { bytes: m.pubkey.to_bytes() },
        is_signer: m.is_signer,
        is_writable: m.is_writable,
    });
    let program_id = Address { bytes: ix.program_id.to_bytes() };
    Instruction { program_id, accounts: metas.collect(), data: ix.data }
}

/// `system_instruction::allocate` of solana_program: the request is to the
/// system program and names the account, writable and signing; its data is
/// the instruction's number, 8, and the size.
#[verifier::external_body]
pub(crate) fn allocate(account: &Address, space: u64) -> (request: Instruction)
    ensures
        request@ == system_allocate_request(*account, space),
{
    let ix = system_instruction::allocate(&Pubkey::new_from_array(account.bytes), space);
    let metas = ix.accounts.iter().map(|m| AccountMeta {
        pubkey: Address { bytes: m.pubkey.to_bytes() },
        is_signer: m.is_signer,
        is_writable: m.is_writable,
    });
    let program_id = Address { bytes: ix.program_id.to_bytes() };
    Instruction { program_id, accounts: metas.collect(), data: ix.data }
}

/// `system_instruction::assign` of solana_program: the request is to the
/// system program and names the account, writable and signing; its data is
/// the instruction's number, 1, and the owner's address.
#[verifier::external_body]
pub(crate) fn assign(account: &Address, owner: &Address) -> (request: Instruction)
    ensures
        request@ == system_assign_request(*account, *owner),
{
    let ix = system_instruction::assign(
        &Pubkey::new_from_array(account.bytes),
        &Pubkey::new_from_array(owner.bytes),
    );
    let metas = ix.accounts.iter().map(|m| AccountMeta {
        pubkey: Address { bytes: m.pubkey.to_bytes() },
        is_signer: m.is_signer,
        is_writable: m.is_writable,
    });
    let program_id = Address { bytes: ix.program_id.to_bytes() };
    Instruction { program_id, accounts: metas.collect(), data: ix.data }
}

} // verus!
