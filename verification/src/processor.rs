//! The two operations: opening a campaign and claiming the reward of one
//! asset. Each looks at the accounts it was given, decides, and answers
//! with a plan. Every check comes before the first step: a plan that fails
//! asks nothing of anyone.

use vstd::prelude::*;
use vstd::utf8::*;
use crate::account::AccountInfo;
use crate::address::Address;
use crate::authority::{
    custody_authority, custody_seeds, custody_signer_seeds, find_custody_authority,
    find_metadata_address, find_receipt_address, metadata_address, receipt_address,
    receipt_seeds, receipt_signer_seeds, signing_seeds,
};
use crate::error::{DistributorError, Failure};
use crate::instruction::{
    parse_operation, ClaimTokenInstruction, Instruction, InstructionView, OperationView,
};
use crate::metadata::{metadata_creators, read_creators};
use crate::plan::{actions_view, Action, ActionView, Plan, PlanView};
use crate::programs::{system_program, system_program_id, token_program, token_program_id};
use crate::state::{
    receipt_bytes, DistributorAccount, DistributorView, ProofOfReceiptAccount,
    MAX_DISTRIBUTOR_DATA_LENGTH, MAX_SYMBOL_LENGTH, PROOF_OF_RECEIPT_DATA_LENGTH,
};
use crate::token::{
    set_account_owner, token_set_owner_request, token_transfer_request, transfer,
    unpack_token_account, unpacked_token_account, TokenAccount,
};
use crate::utils::{
    checked_parse, create_or_allocate_account_raw, creation_steps, store, stored,
    try_from_slice_checked,
};

verus! {

/// What opening a campaign asks of the accounts before anything is read
/// from them: that there are enough of them, that the token program is the
/// token program, that the authority signed, that the program owns the
/// state's slot, and that the slot holds the rent rule's minimum.
pub open spec fn create_preconditions(
    program_id: Address,
    accounts: Seq<AccountInfo>,
    minimum_balance: u64,
) -> Result<(), Failure> {
    if accounts.len() < 6 {
        Err(Failure::NotEnoughAccountKeys)
    } else if accounts[5].key != token_program() {
        Err(Failure::IncorrectProgramId)
    } else if !accounts[0].is_signer {
        Err(Failure::Distributor(DistributorError::IncorrectSigner))
    } else if accounts[1].owner != program_id {
        Err(Failure::Distributor(DistributorError::IncorrectOwner))
    } else if accounts[1].lamports < minimum_balance {
        Err(Failure::Distributor(DistributorError::NotRentExempt))
    } else {
        Ok(())
    }
}

/// The custody account as the token program reads it, accepted where it
/// holds at least the pool.
pub open spec fn pool_check(unpacked: Result<TokenAccount, u64>, reward_amount_total: u64) -> Result<
    TokenAccount,
    Failure,
> {
    match unpacked {
        Err(code) => Err(Failure::Relayed(code)),
        Ok(custody) => if custody.amount < reward_amount_total {
            Err(Failure::Distributor(DistributorError::ExpectedAmountMismatch))
        } else {
            Ok(custody)
        },
    }
}

/// A symbol is accepted where its UTF-8 form has at most
/// `MAX_SYMBOL_LENGTH` bytes.
pub open spec fn symbol_check(collection_symbol: Seq<char>) -> Result<(), Failure> {
    if encode_utf8(collection_symbol).len() > MAX_SYMBOL_LENGTH {
        Err(Failure::Distributor(DistributorError::InvalidInstruction))
    } else {
        Ok(())
    }
}

/// The slot that is to take a new campaign is accepted where it has the
/// size of a state, reads as a state, and that state is not initialized.
pub open spec fn fresh_slot_check(slot: Seq<u8>) -> Result<(), Failure> {
    match checked_parse::<DistributorAccount>(slot, MAX_DISTRIBUTOR_DATA_LENGTH) {
        Err(failure) => Err(failure),
        Ok(found) => if found.is_initialized {
            Err(Failure::AccountAlreadyInitialized)
        } else {
            Ok(())
        },
    }
}

/// The state of a campaign that has just been opened: nothing claimed yet.
pub open spec fn opened_state(
    authority: Address,
    reward_token_account: Address,
    reward_mint: Address,
    reward_amount_total: u64,
    reward_amount_per_nft: u64,
    start_ts: i64,
    collection_symbol: Seq<char>,
    collection_creator: Address,
) -> DistributorView {
    DistributorView {
        is_initialized: true,
        authority: authority@,
        reward_token_account: reward_token_account@,
        reward_mint: reward_mint@,
        reward_amount_total,
        reward_amount_per_nft,
        amount_claimed: 0,
        start_ts,
        collection_symbol,
        collection_creator: collection_creator@,
    }
}

/// The plan of an opening whose checks have passed: hand the custody
/// account over, then write the new state into the state's slot. Where the
/// state does not fit the slot, nothing is asked.
pub open spec fn hand_over_plan(
    request: InstructionView,
    accounts: Seq<AccountInfo>,
    record: DistributorView,
) -> PlanView {
    if accounts.len() < 6 {
        PlanView::rejected(Failure::NotEnoughAccountKeys)
    } else {
        match stored::<DistributorAccount>(accounts[1].data@, record) {
            Err(failure) => PlanView::rejected(failure),
            Ok(data) => PlanView {
                actions: seq![
                    ActionView::Invoke {
                        instruction: request,
                        accounts: seq![accounts[2].key, accounts[0].key, accounts[5].key],
                        signer_seeds: Seq::empty(),
                    },
                    ActionView::Store { account: accounts[1].key, data },
                ],
                outcome: Ok(()),
            },
        }
    }
}

/// The plan of opening a campaign. The checks, in order: the accounts, the
/// pool, the symbol, the slot, the derivation.
pub open spec fn create_plan(
    program_id: Address,
    accounts: Seq<AccountInfo>,
    reward_amount_total: u64,
    reward_amount_per_nft: u64,
    start_ts: i64,
    collection_symbol: Seq<char>,
    minimum_balance: u64,
) -> PlanView {
    match create_preconditions(program_id, accounts, minimum_balance) {
        Err(failure) => PlanView::rejected(failure),
        Ok(_) => match pool_check(unpacked_token_account(accounts[2].data@), reward_amount_total) {
            Err(failure) => PlanView::rejected(failure),
            Ok(custody) => match symbol_check(collection_symbol) {
                Err(failure) => PlanView::rejected(failure),
                Ok(_) => match fresh_slot_check(accounts[1].data@) {
                    Err(failure) => PlanView::rejected(failure),
                    Ok(_) => match custody_authority(accounts[1].key, program_id) {
                        None => PlanView::rejected(Failure::InvalidSeeds),
                        Some((authority, _)) => hand_over_plan(
                            token_set_owner_request(
                                accounts[5].key,
                                accounts[2].key,
                                authority,
                                accounts[0].key,
                                accounts[0].key,
                            ),
                            accounts,
                            opened_state(
                                accounts[0].key,
                                accounts[2].key,
                                custody.mint,
                                reward_amount_total,
                                reward_amount_per_nft,
                                start_ts,
                                collection_symbol,
                                accounts[3].key,
                            ),
                        ),
                    },
                },
            },
        },
    }
}

/// What a derivation gave, or the failure where it gave nothing.
pub fn require_derived(derived: Option<(Address, u8)>) -> (r: Result<(Address, u8), Failure>)
    ensures
        r == match derived {
            Some(found) => Ok::<(Address, u8), Failure>(found),
            None => Err::<(Address, u8), Failure>(Failure::InvalidSeeds),
        },
{
    match derived {
        Some(found) => Ok(found),
        None => Err(Failure::InvalidSeeds),
    }
}

/// Applies the checks of an opening that read nothing from the accounts.
pub fn check_create_accounts(
    program_id: &Address,
    accounts: &[AccountInfo],
    minimum_balance: u64,
) -> (r: Result<(), Failure>)
    ensures
        r == create_preconditions(*program_id, accounts@, minimum_balance),
{
    if accounts.len() < 6 {
        return Err(Failure::NotEnoughAccountKeys);
    }
    if !accounts[5].key.same(&token_program_id()) {
        return Err(Failure::IncorrectProgramId);
    }
    if !accounts[0].is_signer {
        return Err(Failure::Distributor(DistributorError::IncorrectSigner));
    }
    if !accounts[1].owner.same(program_id) {
        return Err(Failure::Distributor(DistributorError::IncorrectOwner));
    }
    if accounts[1].lamports < minimum_balance {
        return Err(Failure::Distributor(DistributorError::NotRentExempt));
    }
    Ok(())
}

/// Accepts the custody account, as the token program reads it, where it
/// holds at least the pool.
pub fn check_pool(unpacked: Result<TokenAccount, u64>, reward_amount_total: u64) -> (r: Result<
    TokenAccount,
    Failure,
>)
    ensures
        r == pool_check(unpacked, reward_amount_total),
{
    match unpacked {
        Err(code) => Err(Failure::Relayed(code)),
        Ok(custody) => {
            if custody.amount < reward_amount_total {
                Err(Failure::Distributor(DistributorError::ExpectedAmountMismatch))
            } else {
                Ok(custody)
            }
        },
    }
}

/// Accepts a symbol of at most `MAX_SYMBOL_LENGTH` bytes.
pub fn check_symbol(collection_symbol: &str) -> (r: Result<(), Failure>)
    ensures
        r == symbol_check(collection_symbol@),
{
    if collection_symbol.as_bytes().len() > MAX_SYMBOL_LENGTH {
        Err(Failure::Distributor(DistributorError::InvalidInstruction))
    } else {
        Ok(())
    }
}

/// Accepts the slot that is to take a new campaign where it reads as a
/// state that is not initialized.
pub fn check_fresh_slot(slot: &[u8]) -> (r: Result<(), Failure>)
    ensures
        r == fresh_slot_check(slot@),
{
    let read: Result<DistributorAccount, Failure> = try_from_slice_checked(
        slot,
        MAX_DISTRIBUTOR_DATA_LENGTH,
    );
    match read {
        Err(failure) => Err(failure),
        Ok(found) => {
            if found.is_initialized {
                Err(Failure::AccountAlreadyInitialized)
            } else {
                Ok(())
            }
        },
    }
}

/// Plans an opening whose checks have passed, from the request that hands
/// the custody account over and the state to write.
pub fn plan_hand_over(
    request: Instruction,
    accounts: &[AccountInfo],
    record: &DistributorAccount,
) -> (plan: Plan)
    ensures
        plan@ == hand_over_plan(request@, accounts@, record@),
{
    if accounts.len() < 6 {
        return Plan::rejected(Failure::NotEnoughAccountKeys);
    }
    let data = match store(accounts[1].data.as_slice(), record) {
        Err(failure) => {
            return Plan::rejected(failure);
        },
        Ok(data) => data,
    };
    let ghost request_view = request@;
    let mut handed: Vec<Address> = Vec::new();
    handed.push(accounts[2].key);
    handed.push(accounts[0].key);
    handed.push(accounts[5].key);
    let hand_over = Action::Invoke { instruction: request, accounts: handed, signer_seeds: Vec::new() };
    assert(hand_over@ == (ActionView::Invoke {
        instruction: request_view,
        accounts: seq![accounts@[2].key, accounts@[0].key, accounts@[5].key],
        signer_seeds: Seq::empty(),
    })) by {
        assert(hand_over@->Invoke_accounts =~= seq![
            accounts@[2].key,
            accounts@[0].key,
            accounts@[5].key,
        ]);
        assert(hand_over@->Invoke_signer_seeds =~= Seq::empty());
    }
    let mut actions: Vec<Action> = Vec::new();
    actions.push(hand_over);
    actions.push(Action::Store { account: accounts[1].key, data });
    let plan = Plan { actions, outcome: Ok(()) };
    assert(plan@.actions =~= hand_over_plan(request_view, accounts@, record@).actions);
    plan
}

/// Plans the opening of a campaign over the pool in the custody account.
/// `minimum_balance` is what the rent rule asks of an account of the size
/// of the state's slot.
pub fn process_create_distributor(
    program_id: &Address,
    accounts: &[AccountInfo],
    reward_amount_total: u64,
    reward_amount_per_nft: u64,
    start_ts: i64,
    collection_symbol: String,
    minimum_balance: u64,
) -> (plan: Plan)
    ensures
        plan@ == create_plan(
            *program_id,
            accounts@,
            reward_amount_total,
            reward_amount_per_nft,
            start_ts,
            collection_symbol@,
            minimum_balance,
        ),
        plan@.outcome is Err ==> plan@.is_idle(),
{
    match check_create_accounts(program_id, accounts, minimum_balance) {
        Err(failure) => {
            return Plan::rejected(failure);
        },
        Ok(_) => {},
    }
    let unpacked = unpack_token_account(accounts[2].data.as_slice());
    let custody = match check_pool(unpacked, reward_amount_total) {
        Err(failure) => {
            return Plan::rejected(failure);
        },
        Ok(custody) => custody,
    };
    match check_symbol(collection_symbol.as_str()) {
        Err(failure) => {
            return Plan::rejected(failure);
        },
        Ok(_) => {},
    }
    match check_fresh_slot(accounts[1].data.as_slice()) {
        Err(failure) => {
            return Plan::rejected(failure);
        },
        Ok(_) => {},
    }
    let authority = match require_derived(find_custody_authority(&accounts[1].key, program_id)) {
        Err(failure) => {
            return Plan::rejected(failure);
        },
        Ok((authority, _)) => authority,
    };
    let request = match set_account_owner(
        &accounts[5].key,
        &accounts[2].key,
        &authority,
        &accounts[0].key,
        &accounts[0].key,
    ) {
        // The token program is in its place, so the request is built.
        Err(code) => {
            return Plan::rejected(Failure::Relayed(code));
        },
        Ok(request) => request,
    };
    let record = DistributorAccount {
        is_initialized: true,
        authority: accounts[0].key,
        reward_token_account: accounts[2].key,
        reward_mint: custody.mint,
        reward_amount_total,
        reward_amount_per_nft,
        amount_claimed: 0,
        start_ts,
        collection_symbol,
        collection_creator: accounts[3].key,
    };
    plan_hand_over(request, accounts, &record)
}

/// What a claim asks of the accounts before anything is read from them:
/// that there are enough of them, that the token program and the system
/// program are what they are called, that the claimant signed, and that
/// the program owns the state's slot.
pub open spec fn claim_preconditions(program_id: Address, accounts: Seq<AccountInfo>) -> Result<
    (),
    Failure,
> {
    if accounts.len() < 11 {
        Err(Failure::NotEnoughAccountKeys)
    } else if accounts[10].key != token_program() {
        Err(Failure::IncorrectProgramId)
    } else if accounts.len() < 12 {
        Err(Failure::NotEnoughAccountKeys)
    } else if accounts[11].key != system_program() {
        Err(Failure::Distributor(DistributorError::InvalidSystemProgram))
    } else if !accounts[0].is_signer {
        Err(Failure::Distributor(DistributorError::IncorrectSigner))
    } else if accounts[1].owner != program_id {
        Err(Failure::Distributor(DistributorError::IncorrectOwner))
    } else {
        Ok(())
    }
}

/// The campaign's state as read from its slot, accepted where the campaign
/// has started.
pub open spec fn started_state(slot: Seq<u8>, now: i64) -> Result<DistributorView, Failure> {
    match checked_parse::<DistributorAccount>(slot, MAX_DISTRIBUTOR_DATA_LENGTH) {
        Err(failure) => Err(failure),
        Ok(state) => if now < state.start_ts {
            Err(Failure::Distributor(DistributorError::DistributionNotStarted))
        } else {
            Ok(state)
        },
    }
}

/// The asset account as the token program reads it, accepted where the
/// claimant owns it.
pub open spec fn ownership_check(unpacked: Result<TokenAccount, u64>, claimant: Address) -> Result<
    TokenAccount,
    Failure,
> {
    match unpacked {
        Err(code) => Err(Failure::Relayed(code)),
        Ok(asset) => if asset.owner != claimant {
            Err(Failure::Distributor(DistributorError::IncorrectOwner))
        } else {
            Ok(asset)
        },
    }
}

/// The supplied metadata account is the one that the registry keeps for
/// the asset.
pub open spec fn metadata_place_check(derived: Option<(Address, u8)>, supplied: Address) -> Result<
    (),
    Failure,
> {
    match derived {
        None => Err(Failure::InvalidSeeds),
        Some((place, _)) => if supplied != place {
            Err(Failure::Distributor(DistributorError::InvalidMetadataAccount))
        } else {
            Ok(())
        },
    }
}

/// Whether `wanted` is on the list.
pub open spec fn lists_creator(list: Seq<Address>, wanted: Seq<u8>) -> bool {
    exists|i: int| 0 <= i < list.len() && (#[trigger] list[i])@ == wanted
}

/// The asset's creator list, as the registry reads it, names the
/// collection's creator.
pub open spec fn creator_check(creators: Result<Option<Seq<Address>>, u64>, wanted: Seq<u8>) -> Result<
    (),
    Failure,
> {
    match creators {
        Err(code) => Err(Failure::Relayed(code)),
        Ok(None) => Err(Failure::NoCreatorsPresentOnMetadata),
        Ok(Some(list)) => if lists_creator(list, wanted) {
            Ok(())
        } else {
            Err(Failure::CreatorNotFound)
        },
    }
}

/// What the metadata account's bytes say to the question whether the asset
/// belongs to the collection. An account without bytes is no metadata.
pub open spec fn collection_check(metadata: Seq<u8>, wanted: Seq<u8>) -> Result<(), Failure> {
    if metadata.len() == 0 {
        Err(Failure::Distributor(DistributorError::InvalidMetadataAccount))
    } else {
        creator_check(metadata_creators(metadata), wanted)
    }
}

/// The supplied authority account is the custody authority derived for
/// the campaign.
pub open spec fn authority_check(derived: Option<(Address, u8)>, supplied: Address) -> Result<
    (Address, u8),
    Failure,
> {
    match derived {
        None => Err(Failure::InvalidSeeds),
        Some((authority, bump)) => if supplied != authority {
            Err(Failure::Distributor(DistributorError::InvalidAccounts))
        } else {
            Ok((authority, bump))
        },
    }
}

/// Whether the pool still covers one more reward.
pub open spec fn pool_covers(state: DistributorView) -> bool {
    state.amount_claimed + state.reward_amount_per_nft <= state.reward_amount_total
}

/// The state after one more reward was paid.
pub open spec fn paid_state(state: DistributorView) -> DistributorView {
    DistributorView {
        amount_claimed: (state.amount_claimed + state.reward_amount_per_nft) as u64,
        ..state
    }
}

/// The receipt of an asset whose reward was paid.
pub open spec fn paid_receipt() -> ProofOfReceiptAccount {
    ProofOfReceiptAccount { received_tokens: true }
}

/// What is done about the receipt: its slot is brought into being, at the
/// claimant's cost, where it has no bytes yet; a receipt that is there must
/// not be marked; then it is marked. Where the receipt is refused, nothing
/// is done. `minimum_balance` is what the rent rule asks of an account of
/// the size of a receipt's slot.
pub open spec fn receipt_steps(
    program_id: Address,
    accounts: Seq<AccountInfo>,
    mint: Address,
    bump: u8,
    minimum_balance: u64,
) -> Result<Seq<ActionView>, Failure> {
    let slot = accounts[7].data@;
    let mark = ActionView::Store { account: accounts[7].key, data: receipt_bytes(paid_receipt()) };
    if accounts.len() < 8 {
        Err(Failure::NotEnoughAccountKeys)
    } else if slot.len() == 0 {
        Ok(
            creation_steps(
                program_id,
                accounts[7].key,
                accounts[7].lamports,
                accounts[0].key,
                minimum_balance,
                PROOF_OF_RECEIPT_DATA_LENGTH,
                signing_seeds(receipt_seeds(mint), bump),
            ).push(mark),
        )
    } else {
        match checked_parse::<ProofOfReceiptAccount>(slot, PROOF_OF_RECEIPT_DATA_LENGTH) {
            Err(failure) => Err(failure),
            Ok(receipt) => if receipt.received_tokens {
                Err(Failure::Distributor(DistributorError::TokensAlreadyClaimed))
            } else {
                Ok(seq![mark])
            },
        }
    }
}

/// The plan of a claim that is eligible. Three checks are left, in this
/// order: the receipt's account is the asset's; the receipt is not marked;
/// the pool covers the reward. A second claim for an asset is thus told
/// that it is a second claim, whatever is left in the pool. Then the steps:
/// move the reward, signed for as the custody authority; write the state
/// with the reward added to what was claimed; see to the receipt.
pub open spec fn payout_plan(
    request: InstructionView,
    bump: u8,
    program_id: Address,
    accounts: Seq<AccountInfo>,
    state: DistributorView,
    mint: Address,
    receipt: Option<(Address, u8)>,
    minimum_balance: u64,
) -> PlanView {
    if accounts.len() < 11 {
        PlanView::rejected(Failure::NotEnoughAccountKeys)
    } else {
        match receipt {
            None => PlanView::rejected(Failure::InvalidSeeds),
            Some((place, receipt_bump)) => if place != accounts[7].key {
                PlanView::rejected(Failure::Distributor(DistributorError::InvalidAccounts))
            } else {
                match receipt_steps(program_id, accounts, mint, receipt_bump, minimum_balance) {
                    Err(failure) => PlanView::rejected(failure),
                    Ok(marking) => if !pool_covers(state) {
                        PlanView::rejected(Failure::Distributor(DistributorError::AmountOverflow))
                    } else {
                        match stored::<DistributorAccount>(accounts[1].data@, paid_state(state)) {
                            Err(failure) => PlanView::rejected(failure),
                            Ok(data) => PlanView {
                                actions: seq![
                                    ActionView::Invoke {
                                        instruction: request,
                                        accounts: seq![
                                            accounts[2].key,
                                            accounts[3].key,
                                            accounts[4].key,
                                            accounts[10].key,
                                        ],
                                        signer_seeds: signing_seeds(
                                            custody_seeds(accounts[1].key),
                                            bump,
                                        ),
                                    },
                                    ActionView::Store { account: accounts[1].key, data },
                                ] + marking,
                                outcome: Ok(()),
                            },
                        }
                    },
                }
            },
        }
    }
}

/// The plan of a claim of the reward of one asset at the time `now`. The
/// checks, in order: the accounts, the state and the time, the owner of
/// the asset, the place of the metadata, the collection, the custody
/// account, the custody authority, and those of `payout_plan`.
/// `minimum_balance` is what the rent rule asks of an account of the size
/// of a receipt's slot.
pub open spec fn claim_plan(
    program_id: Address,
    accounts: Seq<AccountInfo>,
    now: i64,
    minimum_balance: u64,
) -> PlanView {
    match claim_preconditions(program_id, accounts) {
        Err(failure) => PlanView::rejected(failure),
        Ok(_) => match started_state(accounts[1].data@, now) {
            Err(failure) => PlanView::rejected(failure),
            Ok(state) => match ownership_check(
                unpacked_token_account(accounts[5].data@),
                accounts[0].key,
            ) {
                Err(failure) => PlanView::rejected(failure),
                Ok(asset) => match metadata_place_check(
                    metadata_address(asset.mint),
                    accounts[6].key,
                ) {
                    Err(failure) => PlanView::rejected(failure),
                    Ok(_) => match collection_check(accounts[6].data@, state.collection_creator) {
                        Err(failure) => PlanView::rejected(failure),
                        Ok(_) => if accounts[2].key@ != state.reward_token_account {
                            PlanView::rejected(
                                Failure::Distributor(DistributorError::InvalidAccounts),
                            )
                        } else {
                            match authority_check(
                                custody_authority(accounts[1].key, program_id),
                                accounts[4].key,
                            ) {
                                Err(failure) => PlanView::rejected(failure),
                                Ok((authority, bump)) => payout_plan(
                                    token_transfer_request(
                                        accounts[10].key,
                                        accounts[2].key,
                                        accounts[3].key,
                                        authority,
                                        authority,
                                        state.reward_amount_per_nft,
                                    ),
                                    bump,
                                    program_id,
                                    accounts,
                                    state,
                                    asset.mint,
                                    receipt_address(asset.mint, program_id),
                                    minimum_balance,
                                ),
                            }
                        },
                    },
                },
            },
        },
    }
}

/// Applies the checks of a claim that read nothing from the accounts.
pub fn check_claim_accounts(program_id: &Address, accounts: &[AccountInfo]) -> (r: Result<
    (),
    Failure,
>)
    ensures
        r == claim_preconditions(*program_id, accounts@),
{
    if accounts.len() < 11 {
        return Err(Failure::NotEnoughAccountKeys);
    }
    if !accounts[10].key.same(&token_program_id()) {
        return Err(Failure::IncorrectProgramId);
    }
    if accounts.len() < 12 {
        return Err(Failure::NotEnoughAccountKeys);
    }
    if !accounts[11].key.same(&system_program_id()) {
        return Err(Failure::Distributor(DistributorError::InvalidSystemProgram));
    }
    if !accounts[0].is_signer {
        return Err(Failure::Distributor(DistributorError::IncorrectSigner));
    }
    if !accounts[1].owner.same(program_id) {
        return Err(Failure::Distributor(DistributorError::IncorrectOwner));
    }
    Ok(())
}

/// Reads the campaign's state from its slot and accepts it where the
/// campaign has started.
pub fn read_started_state(slot: &[u8], now: i64) -> (r: Result<DistributorAccount, Failure>)
    ensures
        r is Ok <==> started_state(slot@, now) is Ok,
        r is Ok ==> r->Ok_0@ == started_state(slot@, now)->Ok_0,
        r is Err ==> r->Err_0 == started_state(slot@, now)->Err_0,
{
    let read: Result<DistributorAccount, Failure> = try_from_slice_checked(
        slot,
        MAX_DISTRIBUTOR_DATA_LENGTH,
    );
    match read {
        Err(failure) => Err(failure),
        Ok(state) => {
            if now < state.start_ts {
                Err(Failure::Distributor(DistributorError::DistributionNotStarted))
            } else {
                Ok(state)
            }
        },
    }
}

/// Accepts the asset account, as the token program reads it, where the
/// claimant owns it.
pub fn check_ownership(unpacked: Result<TokenAccount, u64>, claimant: &Address) -> (r: Result<
    TokenAccount,
    Failure,
>)
    ensures
        r == ownership_check(unpacked, *claimant),
{
    match unpacked {
        Err(code) => Err(Failure::Relayed(code)),
        Ok(asset) => {
            if !asset.owner.same(claimant) {
                Err(Failure::Distributor(DistributorError::IncorrectOwner))
            } else {
                Ok(asset)
            }
        },
    }
}

/// Accepts the supplied metadata account where it is the one derived for
/// the asset.
pub fn check_metadata_place(derived: Option<(Address, u8)>, supplied: &Address) -> (r: Result<
    (),
    Failure,
>)
    ensures
        r == metadata_place_check(derived, *supplied),
{
    match require_derived(derived) {
        Err(failure) => Err(failure),
        Ok((place, _)) => {
            if !supplied.same(&place) {
                Err(Failure::Distributor(DistributorError::InvalidMetadataAccount))
            } else {
                Ok(())
            }
        },
    }
}

/// Whether `wanted` is on the list.
pub fn on_list(list: &Vec<Address>, wanted: &Address) -> (found: bool)
    ensures
        found == lists_creator(list@, wanted@),
{
    let mut i: usize = 0;
    while i < list.len()
        invariant
            i <= list@.len(),
            forall|j: int| 0 <= j < i ==> (#[trigger] list@[j])@ != wanted@,
        decreases list@.len() - i,
    {
        if list[i].same(wanted) {
            return true;
        }
        i += 1;
    }
    false
}

/// Accepts the asset's creator list, as the registry reads it, where it
/// names the collection's creator.
pub fn check_creators(creators: Result<Option<Vec<Address>>, u64>, wanted: &Address) -> (r: Result<
    (),
    Failure,
>)
    ensures
        r == creator_check(
            match creators {
                Ok(Some(list)) => Ok(Some(list@)),
                Ok(None) => Ok(None),
                Err(code) => Err(code),
            },
            wanted@,
        ),
{
    match creators {
        Err(code) => Err(Failure::Relayed(code)),
        Ok(None) => Err(Failure::NoCreatorsPresentOnMetadata),
        Ok(Some(list)) => {
            if on_list(&list, wanted) {
                Ok(())
            } else {
                Err(Failure::CreatorNotFound)
            }
        },
    }
}

/// Asks the metadata account's bytes whether the asset belongs to the
/// collection of the creator `wanted`.
pub fn check_collection(metadata: &[u8], wanted: &Address) -> (r: Result<(), Failure>)
    ensures
        r == collection_check(metadata@, wanted@),
{
    if metadata.len() == 0 {
        return Err(Failure::Distributor(DistributorError::InvalidMetadataAccount));
    }
    check_creators(read_creators(metadata), wanted)
}

/// Accepts the supplied authority account where it is the custody
/// authority derived for the campaign.
pub fn check_authority(derived: Option<(Address, u8)>, supplied: &Address) -> (r: Result<
    (Address, u8),
    Failure,
>)
    ensures
        r == authority_check(derived, *supplied),
{
    match require_derived(derived) {
        Err(failure) => Err(failure),
        Ok((authority, bump)) => {
            if !supplied.same(&authority) {
                Err(Failure::Distributor(DistributorError::InvalidAccounts))
            } else {
                Ok((authority, bump))
            }
        },
    }
}

/// Whether the pool still covers one more reward.
pub fn check_pool_covers(state: &DistributorAccount) -> (covered: bool)
    ensures
        covered == pool_covers(state@),
{
    state.amount_claimed <= state.reward_amount_total && state.reward_amount_per_nft
        <= state.reward_amount_total - state.amount_claimed
}

/// Plans what is done about the receipt. `minimum_balance` is what the
/// rent rule asks of an account of the size of a receipt's slot.
pub fn plan_receipt(
    program_id: &Address,
    accounts: &[AccountInfo],
    mint: &Address,
    bump: u8,
    minimum_balance: u64,
) -> (r: Result<Vec<Action>, Failure>)
    ensures
        r is Ok <==> receipt_steps(*program_id, accounts@, *mint, bump, minimum_balance) is Ok,
        r is Ok ==> actions_view(r->Ok_0@) == receipt_steps(
            *program_id,
            accounts@,
            *mint,
            bump,
            minimum_balance,
        )->Ok_0,
        r is Err ==> r->Err_0 == receipt_steps(
            *program_id,
            accounts@,
            *mint,
            bump,
            minimum_balance,
        )->Err_0,
{
    if accounts.len() < 8 {
        return Err(Failure::NotEnoughAccountKeys);
    }
    let mut actions: Vec<Action> = Vec::new();
    let slot = accounts[7].data.as_slice();
    if slot.len() == 0 {
        actions = create_or_allocate_account_raw(
            *program_id,
            &accounts[7],
            minimum_balance,
            &accounts[0],
            PROOF_OF_RECEIPT_DATA_LENGTH,
            &receipt_signer_seeds(mint, bump),
        );
    } else {
        let read: Result<ProofOfReceiptAccount, Failure> = try_from_slice_checked(
            slot,
            PROOF_OF_RECEIPT_DATA_LENGTH,
        );
        match read {
            Err(failure) => {
                return Err(failure);
            },
            Ok(receipt) => {
                if receipt.received_tokens {
                    return Err(Failure::Distributor(DistributorError::TokensAlreadyClaimed));
                }
            },
        }
    }
    let mut data: Vec<u8> = Vec::new();
    data.push(1u8);
    assert(data@ =~= receipt_bytes(paid_receipt()));
    actions.push(Action::Store { account: accounts[7].key, data });
    assert(actions_view(actions@) =~= receipt_steps(
        *program_id,
        accounts@,
        *mint,
        bump,
        minimum_balance,
    )->Ok_0);
    Ok(actions)
}

/// Plans a claim that is eligible, from the request that moves the reward,
/// the disambiguation byte of the custody authority, the state as read,
/// the asset's type and the place derived for its receipt.
pub fn plan_payout(
    request: Instruction,
    bump: u8,
    program_id: &Address,
    accounts: &[AccountInfo],
    state: DistributorAccount,
    mint: &Address,
    receipt: Option<(Address, u8)>,
    minimum_balance: u64,
) -> (plan: Plan)
    ensures
        plan@ == payout_plan(
            request@,
            bump,
            *program_id,
            accounts@,
            state@,
            *mint,
            receipt,
            minimum_balance,
        ),
{
    if accounts.len() < 11 {
        return Plan::rejected(Failure::NotEnoughAccountKeys);
    }
    let (place, receipt_bump) = match require_derived(receipt) {
        Err(failure) => {
            return Plan::rejected(failure);
        },
        Ok(found) => found,
    };
    if !place.same(&accounts[7].key) {
        return Plan::rejected(Failure::Distributor(DistributorError::InvalidAccounts));
    }
    let mut marking = match plan_receipt(program_id, accounts, mint, receipt_bump, minimum_balance) {
        Err(failure) => {
            return Plan::rejected(failure);
        },
        Ok(marking) => marking,
    };
    if !check_pool_covers(&state) {
        return Plan::rejected(Failure::Distributor(DistributorError::AmountOverflow));
    }
    let ghost request_view = request@;
    let ghost state_view = state@;
    let ghost marking_view = actions_view(marking@);
    let mut paid = state;
    paid.amount_claimed = paid.amount_claimed + paid.reward_amount_per_nft;
    assert(paid@ == paid_state(state_view));
    let data = match store(accounts[1].data.as_slice(), &paid) {
        Err(failure) => {
            return Plan::rejected(failure);
        },
        Ok(data) => data,
    };
    let mut handed: Vec<Address> = Vec::new();
    handed.push(accounts[2].key);
    handed.push(accounts[3].key);
    handed.push(accounts[4].key);
    handed.push(accounts[10].key);
    let pay = Action::Invoke {
        instruction: request,
        accounts: handed,
        signer_seeds: custody_signer_seeds(&accounts[1].key, bump),
    };
    assert(pay@ == (ActionView::Invoke {
        instruction: request_view,
        accounts: seq![accounts@[2].key, accounts@[3].key, accounts@[4].key, accounts@[10].key],
        signer_seeds: signing_seeds(custody_seeds(accounts@[1].key), bump),
    })) by {
        assert(pay@->Invoke_accounts =~= seq![
            accounts@[2].key,
            accounts@[3].key,
            accounts@[4].key,
            accounts@[10].key,
        ]);
    }
    let record = Action::Store { account: accounts[1].key, data };
    let mut actions: Vec<Action> = Vec::new();
    actions.push(pay);
    actions.push(record);
    assert(actions_view(actions@) =~= seq![pay@, record@]);
    actions.append(&mut marking);
    assert(actions_view(actions@) =~= seq![pay@, record@] + marking_view);
    Plan { actions, outcome: Ok(()) }
}

/// Plans the claim of the reward of one asset at the time `now`.
/// `minimum_balance` is what the rent rule asks of an account of the size
/// of a receipt's slot.
pub fn process_claim_tokens(
    program_id: &Address,
    accounts: &[AccountInfo],
    now: i64,
    minimum_balance: u64,
) -> (plan: Plan)
    ensures
        plan@ == claim_plan(*program_id, accounts@, now, minimum_balance),
        plan@.outcome is Err ==> plan@.is_idle(),
{
    match check_claim_accounts(program_id, accounts) {
        Err(failure) => {
            return Plan::rejected(failure);
        },
        Ok(_) => {},
    }
    let state = match read_started_state(accounts[1].data.as_slice(), now) {
        Err(failure) => {
            return Plan::rejected(failure);
        },
        Ok(state) => state,
    };
    let unpacked = unpack_token_account(accounts[5].data.as_slice());
    let asset = match check_ownership(unpacked, &accounts[0].key) {
        Err(failure) => {
            return Plan::rejected(failure);
        },
        Ok(asset) => asset,
    };
    match check_metadata_place(find_metadata_address(&asset.mint), &accounts[6].key) {
        Err(failure) => {
            return Plan::rejected(failure);
        },
        Ok(_) => {},
    }
    match check_collection(accounts[6].data.as_slice(), &state.collection_creator) {
        Err(failure) => {
            return Plan::rejected(failure);
        },
        Ok(_) => {},
    }
    if !accounts[2].key.same(&state.reward_token_account) {
        return Plan::rejected(Failure::Distributor(DistributorError::InvalidAccounts));
    }
    let (authority, bump) = match check_authority(
        find_custody_authority(&accounts[1].key, program_id),
        &accounts[4].key,
    ) {
        Err(failure) => {
            return Plan::rejected(failure);
        },
        Ok(found) => found,
    };
    let request = match transfer(
        &accounts[10].key,
        &accounts[2].key,
        &accounts[3].key,
        &authority,
        &authority,
        state.reward_amount_per_nft,
    ) {
        // The token program is in its place, so the request is built.
        Err(code) => {
            return Plan::rejected(Failure::Relayed(code));
        },
        Ok(request) => request,
    };
    let receipt = find_receipt_address(&asset.mint, program_id);
    plan_payout(request, bump, program_id, accounts, state, &asset.mint, receipt, minimum_balance)
}

/// The plan of the operation that `input` spells.
pub open spec fn instruction_plan(
    program_id: Address,
    accounts: Seq<AccountInfo>,
    input: Seq<u8>,
    now: i64,
    minimum_balance: u64,
) -> PlanView {
    match parse_operation(input) {
        None => PlanView::rejected(Failure::BorshIoError),
        Some(
            OperationView::CreateTokenDistributor {
                reward_amount_total,
                reward_amount_per_nft,
                start_ts,
                collection_symbol,
            },
        ) => create_plan(
            program_id,
            accounts,
            reward_amount_total,
            reward_amount_per_nft,
            start_ts,
            collection_symbol,
            minimum_balance,
        ),
        Some(OperationView::ClaimTokens) => claim_plan(program_id, accounts, now, minimum_balance),
    }
}

/// Reads the operation that `input` spells and plans it. `now` is the
/// time, which a claim asks for; `minimum_balance` is what the rent rule
/// asks of the account that the operation is about: of the size of the
/// state's slot for an opening, of the size of a receipt's slot for a
/// claim.
pub fn process_instruction(
    program_id: &Address,
    accounts: &[AccountInfo],
    input: &[u8],
    now: i64,
    minimum_balance: u64,
) -> (plan: Plan)
    ensures
        plan@ == instruction_plan(*program_id, accounts@, input@, now, minimum_balance),
        plan@.outcome is Err ==> plan@.is_idle(),
{
    match ClaimTokenInstruction::try_from_slice(input) {
        None => Plan::rejected(Failure::BorshIoError),
        Some(ClaimTokenInstruction::CreateTokenDistributor(args)) => process_create_distributor(
            program_id,
            accounts,
            args.reward_amount_total,
            args.reward_amount_per_nft,
            args.start_ts,
            args.collection_symbol,
            minimum_balance,
        ),
        Some(ClaimTokenInstruction::ClaimTokens()) => process_claim_tokens(
            program_id,
            accounts,
            now,
            minimum_balance,
        ),
    }
}

} // verus!
