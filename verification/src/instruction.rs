//! The two operations as they are submitted: their fields, their wire
//! form, and the requests that carry them to the program.

use vstd::prelude::*;
use vstd::bytes::*;
use vstd::utf8::*;
use crate::address::Address;
use crate::programs::{
    clock_sysvar, clock_sysvar_id, rent_sysvar, rent_sysvar_id, system_program,
    system_program_id, token_program, token_program_id,
};
use crate::wire::{
    bits_i64, copy_range, i64_bits, i64_bits_round_trip, i64_from_bits, i64_to_bits, push_text,
    push_u64, read_u32, read_u64, text_bytes, text_fits, text_from_utf8,
};

verus! {

/// Fields of the operation that opens a campaign.
#[derive(PartialEq, Debug, Clone)]
pub struct CreateTokenDistributorArgs {
    pub reward_amount_total: u64,
    pub reward_amount_per_nft: u64,
    pub start_ts: i64,
    pub collection_symbol: String,
}

/// The operations that the distributor carries out.
#[derive(Clone, Debug, PartialEq)]
pub enum ClaimTokenInstruction {
    /// Opens a campaign. Accounts, in order: the authority (signer), the
    /// campaign's state (writable), the custody account (writable), the
    /// collection's creator, the rent rule, the token program.
    CreateTokenDistributor(CreateTokenDistributorArgs),
    /// Claims the reward of one asset. Accounts, in order: the claimant
    /// (signer), the campaign's state (writable), the custody account
    /// (writable), the destination (writable), the derived authority, the
    /// claimant's asset account, the asset's metadata, the receipt
    /// (writable), the clock, the rent rule, the token program, the system
    /// program.
    ClaimTokens(),
}

/// An operation as mathematical values.
pub enum OperationView {
    CreateTokenDistributor {
        reward_amount_total: u64,
        reward_amount_per_nft: u64,
        start_ts: i64,
        collection_symbol: Seq<char>,
    },
    ClaimTokens,
}

impl View for ClaimTokenInstruction {
    type V = OperationView;

    open spec fn view(&self) -> OperationView {
        match self {
            ClaimTokenInstruction::CreateTokenDistributor(args) => {
                OperationView::CreateTokenDistributor {
                    reward_amount_total: args.reward_amount_total,
                    reward_amount_per_nft: args.reward_amount_per_nft,
                    start_ts: args.start_ts,
                    collection_symbol: args.collection_symbol@,
                }
            },
            ClaimTokenInstruction::ClaimTokens() => OperationView::ClaimTokens,
        }
    }
}

impl OperationView {
    /// Whether the operation has a wire form.
    pub open spec fn encodable(self) -> bool {
        match self {
            OperationView::CreateTokenDistributor { collection_symbol, .. } => text_fits(
                collection_symbol,
            ),
            OperationView::ClaimTokens => true,
        }
    }

    /// The wire form: the operation's number as one byte, then its fields in
    /// order, numbers little end first, the symbol with its length in front.
    pub open spec fn bytes(self) -> Seq<u8> {
        match self {
            OperationView::CreateTokenDistributor {
                reward_amount_total,
                reward_amount_per_nft,
                start_ts,
                collection_symbol,
            } => seq![0u8] + spec_u64_to_le_bytes(reward_amount_total) + spec_u64_to_le_bytes(
                reward_amount_per_nft,
            ) + spec_u64_to_le_bytes(i64_bits(start_ts)) + text_bytes(collection_symbol),
            OperationView::ClaimTokens => seq![1u8],
        }
    }
}

/// The operation that `input` spells; `None` where it spells none. Every
/// byte must belong to the operation.
pub open spec fn parse_operation(input: Seq<u8>) -> Option<OperationView> {
    if input.len() < 1 {
        None
    } else if input[0] == 1 {
        if input.len() == 1 {
            Some(OperationView::ClaimTokens)
        } else {
            None
        }
    } else if input[0] == 0 && input.len() >= 29 {
        let n = spec_u32_from_le_bytes(input.subrange(25, 29)) as int;
        if input.len() == 29 + n && valid_utf8(input.subrange(29, 29 + n)) {
            Some(
                OperationView::CreateTokenDistributor {
                    reward_amount_total: spec_u64_from_le_bytes(input.subrange(1, 9)),
                    reward_amount_per_nft: spec_u64_from_le_bytes(input.subrange(9, 17)),
                    start_ts: bits_i64(spec_u64_from_le_bytes(input.subrange(17, 25))),
                    collection_symbol: decode_utf8(input.subrange(29, 29 + n)),
                },
            )
        } else {
            None
        }
    } else {
        None
    }
}

/// Reading the wire form of an operation gives the operation back.
pub proof fn parse_encoded_operation(op: OperationView)
    requires
        op.encodable(),
    ensures
        parse_operation(op.bytes()) == Some(op),
{
    lemma_auto_spec_u64_to_from_le_bytes();
    lemma_auto_spec_u32_to_from_le_bytes();
    match op {
        OperationView::CreateTokenDistributor {
            reward_amount_total,
            reward_amount_per_nft,
            start_ts,
            collection_symbol,
        } => {
            i64_bits_round_trip(start_ts, 0);
            encode_utf8_valid_utf8(collection_symbol);
            encode_utf8_decode_utf8(collection_symbol);
            let input = op.bytes();
            let text = encode_utf8(collection_symbol);
            let n = text.len() as int;
            assert(input[0] == 0);
            assert(input.subrange(1, 9) =~= spec_u64_to_le_bytes(reward_amount_total));
            assert(input.subrange(9, 17) =~= spec_u64_to_le_bytes(reward_amount_per_nft));
            assert(input.subrange(17, 25) =~= spec_u64_to_le_bytes(i64_bits(start_ts)));
            assert(input.subrange(25, 29) =~= spec_u32_to_le_bytes(n as u32));
            assert(input.subrange(29, 29 + n) =~= text);
        },
        OperationView::ClaimTokens => {},
    }
}

impl ClaimTokenInstruction {
    /// Reads an operation from its wire form.
    pub fn try_from_slice(input: &[u8]) -> (r: Option<ClaimTokenInstruction>)
        ensures
            r is Some <==> parse_operation(input@) is Some,
            r is Some ==> r->0@ == parse_operation(input@)->0,
    {
        let len: usize = input.len();
        if len < 1 {
            return None;
        }
        let tag: u8 = input[0];
        if tag == 1 {
            if len == 1 {
                return Some(ClaimTokenInstruction::ClaimTokens());
            }
            return None;
        }
        if tag != 0 || len < 29 {
            return None;
        }
        let n: usize = read_u32(input, 25) as usize;
        if len - 29 != n {
            return None;
        }
        let symbol = match text_from_utf8(copy_range(input, 29, 29 + n)) {
            Some(text) => text,
            None => {
                return None;
            },
        };
        Some(
            ClaimTokenInstruction::CreateTokenDistributor(
                CreateTokenDistributorArgs {
                    reward_amount_total: read_u64(input, 1),
                    reward_amount_per_nft: read_u64(input, 9),
                    start_ts: i64_from_bits(read_u64(input, 17)),
                    collection_symbol: symbol,
                },
            ),
        )
    }

    /// The wire form of the operation; `None` where the symbol is too long
    /// for its length to be written.
    pub fn try_to_vec(&self) -> (r: Option<Vec<u8>>)
        ensures
            r is Some <==> self@.encodable(),
            r is Some ==> r->0@ == self@.bytes(),
    {
        let mut out: Vec<u8> = Vec::new();
        match self {
            ClaimTokenInstruction::CreateTokenDistributor(args) => {
                out.push(0u8);
                push_u64(&mut out, args.reward_amount_total);
                push_u64(&mut out, args.reward_amount_per_nft);
                push_u64(&mut out, i64_to_bits(args.start_ts));
                if !push_text(&mut out, args.collection_symbol.as_str()) {
                    return None;
                }
                assert(out@ =~= self@.bytes());
            },
            ClaimTokenInstruction::ClaimTokens() => {
                out.push(1u8);
                assert(out@ =~= self@.bytes());
            },
        }
        Some(out)
    }
}

/// How a request refers to one account.
#[derive(Clone, Copy, Debug, PartialEq, Eq)]
pub struct AccountMeta {
    /// The account's address.
    pub pubkey: Address,
    /// Whether the request needs the account's signature.
    pub is_signer: bool,
    /// Whether the request may change the account.
    pub is_writable: bool,
}

impl AccountMeta {
    /// A reference to an account that the request may change.
    pub fn new(pubkey: Address, is_signer: bool) -> (meta: AccountMeta)
        ensures
            meta == (AccountMeta { pubkey, is_signer, is_writable: true }),
    {
        AccountMeta { pubkey, is_signer, is_writable: true }
    }

    /// A reference to an account that the request only reads.
    pub fn new_readonly(pubkey: Address, is_signer: bool) -> (meta: AccountMeta)
        ensures
            meta == (AccountMeta { pubkey, is_signer, is_writable: false }),
    {
        AccountMeta { pubkey, is_signer, is_writable: false }
    }
}

/// A request to a program: the program, the accounts it refers to, and the
/// bytes that say what is asked.
#[derive(Clone, Debug, PartialEq, Eq)]
pub struct Instruction {
    pub program_id: Address,
    pub accounts: Vec<AccountMeta>,
    pub data: Vec<u8>,
}

/// A request as mathematical values.
pub struct InstructionView {
    pub program_id: Address,
    pub accounts: Seq<AccountMeta>,
    pub data: Seq<u8>,
}

impl View for Instruction {
    type V = InstructionView;

    open spec fn view(&self) -> InstructionView {
        InstructionView {
            program_id: self.program_id,
            accounts: self.accounts@,
            data: self.data@,
        }
    }
}

/// The accounts that a request to open a campaign refers to.
pub open spec fn create_accounts(
    authority_account: Address,
    distributor_state_account: Address,
    reward_token_account: Address,
    collection_creator_account: Address,
) -> Seq<AccountMeta> {
    seq![
        AccountMeta { pubkey: authority_account, is_signer: true, is_writable: true },
        AccountMeta { pubkey: distributor_state_account, is_signer: false, is_writable: true },
        AccountMeta { pubkey: reward_token_account, is_signer: false, is_writable: true },
        AccountMeta { pubkey: collection_creator_account, is_signer: false, is_writable: false },
        AccountMeta { pubkey: rent_sysvar(), is_signer: false, is_writable: false },
        AccountMeta { pubkey: token_program(), is_signer: false, is_writable: false },
    ]
}

/// The request that opens a campaign; `None` where the symbol is too long
/// for its length to be written.
#[allow(clippy::too_many_arguments)]
pub fn create_token_distributor(
    program_id: Address,
    authority_account: Address,
    distributor_state_account: Address,
    reward_token_account: Address,
    collection_creator_account: Address,
    reward_amount_total: u64,
    reward_amount_per_nft: u64,
    start_ts: i64,
    collection_symbol: String,
) -> (request: Option<Instruction>)
    ensures
        request is Some <==> text_fits(collection_symbol@),
        request is Some ==> {
            let r = request->0@;
            &&& r.program_id == program_id
            &&& r.data == (OperationView::CreateTokenDistributor {
                reward_amount_total,
                reward_amount_per_nft,
                start_ts,
                collection_symbol: collection_symbol@,
            }).bytes()
            &&& r.accounts == create_accounts(
                authority_account,
                distributor_state_account,
                reward_token_account,
                collection_creator_account,
            )
        },
{
    let operation = ClaimTokenInstruction::CreateTokenDistributor(
        CreateTokenDistributorArgs {
            reward_amount_total,
            reward_amount_per_nft,
            start_ts,
            collection_symbol,
        },
    );
    let data = match operation.try_to_vec() {
        Some(data) => data,
        None => {
            return None;
        },
    };
    let mut accounts: Vec<AccountMeta> = Vec::new();
    accounts.push(AccountMeta::new(authority_account, true));
    accounts.push(AccountMeta::new(distributor_state_account, false));
    accounts.push(AccountMeta::new(reward_token_account, false));
    accounts.push(AccountMeta::new_readonly(collection_creator_account, false));
    accounts.push(AccountMeta::new_readonly(rent_sysvar_id(), false));
    accounts.push(AccountMeta::new_readonly(token_program_id(), false));
    let request = Instruction { program_id, accounts, data };
    assert(request@.accounts =~= create_accounts(
        authority_account,
        distributor_state_account,
        reward_token_account,
        collection_creator_account,
    ));
    Some(request)
}

/// The accounts that a request to claim refers to.
pub open spec fn claim_accounts(
    claimant_main_account: Address,
    distributor_state_account: Address,
    distributor_reward_account: Address,
    claimant_reward_account: Address,
    pda_account: Address,
    claimant_nft_account: Address,
    nft_metadata_account: Address,
    proof_of_receipt_account: Address,
) -> Seq<AccountMeta> {
    seq![
        AccountMeta { pubkey: claimant_main_account, is_signer: true, is_writable: true },
        AccountMeta { pubkey: distributor_state_account, is_signer: false, is_writable: true },
        AccountMeta { pubkey: distributor_reward_account, is_signer: false, is_writable: true },
        AccountMeta { pubkey: claimant_reward_account, is_signer: false, is_writable: true },
        AccountMeta { pubkey: pda_account, is_signer: false, is_writable: false },
        AccountMeta { pubkey: claimant_nft_account, is_signer: false, is_writable: false },
        AccountMeta { pubkey: nft_metadata_account, is_signer: false, is_writable: false },
        AccountMeta { pubkey: proof_of_receipt_account, is_signer: false, is_writable: true },
        AccountMeta { pubkey: clock_sysvar(), is_signer: false, is_writable: false },
        AccountMeta { pubkey: rent_sysvar(), is_signer: false, is_writable: false },
        AccountMeta { pubkey: token_program(), is_signer: false, is_writable: false },
        AccountMeta { pubkey: system_program(), is_signer: false, is_writable: false },
    ]
}

/// The request that claims the reward of one asset. It names every account
/// that a claim reads, in the order in which the claim reads them, the
/// system program last.
#[allow(clippy::too_many_arguments)]
pub fn claim_tokens(
    program_id: Address,
    claimant_main_account: Address,
    distributor_state_account: Address,
    distributor_reward_account: Address,
    claimant_reward_account: Address,
    pda_account: Address,
    claimant_nft_account: Address,
    nft_metadata_account: Address,
    proof_of_receipt_account: Address,
) -> (request: Instruction)
    ensures
        request@.program_id == program_id,
        request@.data == OperationView::ClaimTokens.bytes(),
        request@.accounts.len() == 12,
        request@.accounts == claim_accounts(
            claimant_main_account,
            distributor_state_account,
            distributor_reward_account,
            claimant_reward_account,
            pda_account,
            claimant_nft_account,
            nft_metadata_account,
            proof_of_receipt_account,
        ),
{
    let mut data: Vec<u8> = Vec::new();
    data.push(1u8);
    assert(data@ =~= OperationView::ClaimTokens.bytes());
    let mut accounts: Vec<AccountMeta> = Vec::new();
    accounts.push(AccountMeta::new(claimant_main_account, true));
    accounts.push(AccountMeta::new(distributor_state_account, false));
    accounts.push(AccountMeta::new(distributor_reward_account, false));
    accounts.push(AccountMeta::new(claimant_reward_account, false));
    accounts.push(AccountMeta::new_readonly(pda_account, false));
    accounts.push(AccountMeta::new_readonly(claimant_nft_account, false));
    accounts.push(AccountMeta::new_readonly(nft_metadata_account, false));
    accounts.push(AccountMeta::new(proof_of_receipt_account, false));
    accounts.push(AccountMeta::new_readonly(clock_sysvar_id(), false));
    accounts.push(AccountMeta::new_readonly(rent_sysvar_id(), false));
    accounts.push(AccountMeta::new_readonly(token_program_id(), false));
    accounts.push(AccountMeta::new_readonly(system_program_id(), false));
    let request = Instruction { program_id, accounts, data };
    assert(request@.accounts =~= claim_accounts(
        claimant_main_account,
        distributor_state_account,
        distributor_reward_account,
        claimant_reward_account,
        pda_account,
        claimant_nft_account,
        nft_metadata_account,
        proof_of_receipt_account,
    ));
    request
}

} // verus!
