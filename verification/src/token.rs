//! The token collaborator as the distributor meets it: what a token
//! account's bytes say, and the requests that hand an account to a new
//! owner and that move tokens.

use vstd::prelude::*;
use vstd::bytes::spec_u64_to_le_bytes;
use solana_program::program_pack::Pack;
use solana_program::pubkey::Pubkey;
use spl_token::instruction::AuthorityType;
use crate::address::Address;
use crate::instruction::{AccountMeta, Instruction, InstructionView};

verus! {

/// What the distributor reads of a token account.
#[derive(Clone, Copy, Debug, PartialEq, Eq)]
pub struct TokenAccount {
    /// The token type that the account holds.
    pub mint: Address,
    /// Who may dispose of the account.
    pub owner: Address,
    /// How many tokens the account holds.
    pub amount: u64,
}

/// What the token program's own reader makes of an account's bytes: the
/// account, or the code of the failure it reports.
pub uninterp spec fn unpacked_token_account(data: Seq<u8>) -> Result<TokenAccount, u64>;

/// The number under which a request to another program than the token
/// program is refused.
pub const INCORRECT_PROGRAM_ID: u64 = 0x7_0000_0000;

/// The bytes by which the token program is told to move `amount` tokens:
/// the number of the instruction, then the amount, little end first.
pub open spec fn token_transfer_data(amount: u64) -> Seq<u8> {
    seq![3u8] + spec_u64_to_le_bytes(amount)
}

/// The bytes by which the token program is told to make `new_owner` the
/// owner of a token account: the number of the instruction, the number of
/// the kind of authority, the mark that a new authority follows, and its
/// address.
pub open spec fn token_set_owner_data(new_owner: Address) -> Seq<u8> {
    seq![6u8, 2, 1] + new_owner@
}

/// The token program's request that moves `amount` tokens from `source`
/// to `destination` on the word of `authority`, with `signer` named as the
/// one who signs.
pub open spec fn token_transfer_request(
    token_program: Address,
    source: Address,
    destination: Address,
    authority: Address,
    signer: Address,
    amount: u64,
) -> InstructionView {
    InstructionView {
        program_id: token_program,
        accounts: seq![
            AccountMeta { pubkey: source, is_signer: false, is_writable: true },
            AccountMeta { pubkey: destination, is_signer: false, is_writable: true },
            AccountMeta { pubkey: authority, is_signer: false, is_writable: false },
            AccountMeta { pubkey: signer, is_signer: true, is_writable: false },
        ],
        data: token_transfer_data(amount),
    }
}

/// The token program's request that makes `new_owner` the owner of the
/// token account `account`, on the word of its owner `owner`, with `signer`
/// named as the one who signs.
pub open spec fn token_set_owner_request(
    token_program: Address,
    account: Address,
    new_owner: Address,
    owner: Address,
    signer: Address,
) -> InstructionView {
    InstructionView {
        program_id: token_program,
        accounts: seq![
            AccountMeta { pubkey: account, is_signer: false, is_writable: true },
            AccountMeta { pubkey: owner, is_signer: false, is_writable: false },
            AccountMeta { pubkey: signer, is_signer: true, is_writable: false },
        ],
        data: token_set_owner_data(new_owner),
    }
}

/// `Account::unpack` of spl_token (`Pack::unpack` of solana_program): what
/// it returns is a function of the bytes alone. Of the account it reads,
/// the token type, the owner and the amount are handed on; a failure is
/// handed on as its numeric code.
#[verifier::external_body]
pub(crate) fn unpack_token_account(data: &[u8]) -> (r: Result<TokenAccount, u64>)
    ensures
        r == unpacked_token_account(data@),
{
    match spl_token::state::Account::unpack(data) {
        Ok(account) => Ok(
            TokenAccount {
                mint: Address { bytes: account.mint.to_bytes() },
                owner: Address { bytes: account.owner.to_bytes() },
                amount: account.amount,
            },
        ),
        Err(error) => Err(u64::from(error)),
    }
}

/// `spl_token::instruction::transfer`, with one signer named. It refuses
/// every program but the token program, as an incorrect program. For the
/// token program the request names the source and the destination, both
/// writable, then the authority and the signer, both read-only, of which
/// the signer signs; its data is the instruction's number, 3, and the
/// amount.
#[verifier::external_body]
pub(crate) fn transfer(
    token_program: &Address,
    source: &Address,
    destination: &Address,
    authority: &Address,
    signer: &Address,
    amount: u64,
) -> (r: Result<Instruction, u64>)
    ensures
        match r {
            Ok(request) => *token_program == crate::programs::token_program() && request@
                == token_transfer_request(
                *token_program,
                *source,
                *destination,
                *authority,
                *signer,
                amount,
            ),
            Err(code) => *token_program != crate::programs::token_program() && code == INCORRECT_PROGRAM_ID,
        },
{
    let key = |a: &Address| Pubkey::new_from_array(a.bytes);
    let (from, to, signers) = (key(source), key(destination), [&key(signer)]);
    let program = key(token_program);
    let ix = spl_token::instruction::transfer(&program, &from, &to, &key(authority), &signers, amount)
        .map_err(u64::from)?;
    let metas = ix.accounts.iter().map(|m| AccountMeta {
        pubkey: Address { bytes: m.pubkey.to_bytes() },
        is_signer: m.is_signer,
        is_writable: m.is_writable,
    });
    let program_id = Address { bytes: ix.program_id.to_bytes() };
    Ok(Instruction { program_id, accounts: metas.collect(), data: ix.data })
}

/// `spl_token::instruction::set_authority`, for the authority of the kind
/// `AccountOwner`, a new authority given and one signer named. It refuses
/// every program but the token program, as an incorrect program. For the
/// token program the request names the account, writable, then the owner
/// and the signer, both read-only, of which the signer signs; its data is
/// the instruction's number, 6, the kind's number, 2, and the new owner,
/// marked as present.
#[verifier::external_body]
pub(crate) fn set_account_owner(
    token_program: &Address,
    account: &Address,
    new_owner: &Address,
    owner: &Address,
    signer: &Address,
) -> (r: Result<Instruction, u64>)
    ensures
        match r {
            Ok(request) => *token_program == crate::programs::token_program() && request@
                == token_set_owner_request(*token_program, *account, *new_owner, *owner, *signer),
            Err(code) => *token_program != crate::programs::token_program() && code == INCORRECT_PROGRAM_ID,
        },
{
    let key = |a: &Address| Pubkey::new_from_array(a.bytes);
    let (kind, next, signers) = (AuthorityType::AccountOwner, key(new_owner), [&key(signer)]);
    let (program, owned, holder) = (key(token_program), key(account), key(owner));
    let ix = spl_token::instruction::set_authority(&program, &owned, Some(&next), kind, &holder, &signers)
        .map_err(u64::from)?;
    let metas = ix.accounts.iter().map(|m| AccountMeta {
        pubkey: Address { bytes: m.pubkey.to_bytes() },
        is_signer: m.is_signer,
        is_writable: m.is_writable,
    });
    let program_id = Address { bytes: ix.program_id.to_bytes() };
    Ok(Instruction { program_id, accounts: metas.collect(), data: ix.data })
}

} // verus!
