//! What holds of the two operations, whatever the accounts say.

use vstd::prelude::*;
use vstd::utf8::*;
use crate::account::AccountInfo;
use crate::address::Address;
use crate::authority::{
    address_of, bump_of, custody_authority, metadata_address, receipt_address, receipt_seeds,
    signing_seeds,
};
use crate::error::{DistributorError, Failure};
use crate::instruction::claim_accounts;
use crate::plan::PlanView;
use crate::processor::{
    authority_check, claim_plan, claim_preconditions, collection_check, create_plan,
    create_preconditions, fresh_slot_check, metadata_place_check, opened_state,
    ownership_check, paid_receipt, paid_state, pool_check, pool_covers, started_state,
    symbol_check,
};
use crate::programs::{system_program, token_program};
use crate::state::{
    distributor_bytes_len, parse_distributor, parse_receipt, parse_stored_distributor,
    parsed_distributor_is_front, receipt_bytes, DistributorAccount, DistributorView,
    ProofOfReceiptAccount, MAX_DISTRIBUTOR_DATA_LENGTH, MAX_SYMBOL_LENGTH,
    PROOF_OF_RECEIPT_DATA_LENGTH,
};
use crate::token::{
    token_set_owner_request, token_transfer_request, unpacked_token_account, TokenAccount,
};
use crate::utils::{checked_parse, creation_steps};

verus! {

/// An operation that fails asks nothing of anyone: no request goes out and
/// no byte is stored.
pub proof fn failed_operation_asks_nothing(
    program_id: Address,
    accounts: Seq<AccountInfo>,
    reward_amount_total: u64,
    reward_amount_per_nft: u64,
    start_ts: i64,
    collection_symbol: Seq<char>,
    minimum_balance: u64,
    now: i64,
)
    ensures
        create_plan(
            program_id,
            accounts,
            reward_amount_total,
            reward_amount_per_nft,
            start_ts,
            collection_symbol,
            minimum_balance,
        ).outcome is Err ==> create_plan(
            program_id,
            accounts,
            reward_amount_total,
            reward_amount_per_nft,
            start_ts,
            collection_symbol,
            minimum_balance,
        ).is_idle(),
        claim_plan(program_id, accounts, now, minimum_balance).outcome is Err ==> claim_plan(
            program_id,
            accounts,
            now,
            minimum_balance,
        ).is_idle(),
{
}

/// A claim that comes before the campaign's start asks nothing of anyone
/// and fails; where the accounts are in order, it fails as not started.
pub proof fn claim_before_start_is_rejected(
    program_id: Address,
    accounts: Seq<AccountInfo>,
    now: i64,
    minimum_balance: u64,
)
    requires
        checked_parse::<DistributorAccount>(accounts[1].data@, MAX_DISTRIBUTOR_DATA_LENGTH) is Ok,
        now < checked_parse::<DistributorAccount>(
            accounts[1].data@,
            MAX_DISTRIBUTOR_DATA_LENGTH,
        )->Ok_0.start_ts,
    ensures
        claim_plan(program_id, accounts, now, minimum_balance).is_idle(),
        claim_plan(program_id, accounts, now, minimum_balance).outcome is Err,
        claim_preconditions(program_id, accounts) is Ok ==> claim_plan(
            program_id,
            accounts,
            now,
            minimum_balance,
        ) == PlanView::rejected(Failure::Distributor(DistributorError::DistributionNotStarted)),
{
}

/// A claim for an asset whose account names another owner than the
/// claimant asks nothing of anyone, so no transfer is attempted, and
/// fails. Where the accounts are in order and the state's slot holds a
/// state whose start has come, it fails as a wrong owner.
pub proof fn claim_by_stranger_is_rejected(
    program_id: Address,
    accounts: Seq<AccountInfo>,
    now: i64,
    minimum_balance: u64,
    asset: TokenAccount,
)
    requires
        unpacked_token_account(accounts[5].data@) == Ok::<TokenAccount, u64>(asset),
        asset.owner != accounts[0].key,
    ensures
        claim_plan(program_id, accounts, now, minimum_balance).is_idle(),
        claim_plan(program_id, accounts, now, minimum_balance).outcome is Err,
        claim_preconditions(program_id, accounts) is Ok && checked_parse::<DistributorAccount>(
            accounts[1].data@,
            MAX_DISTRIBUTOR_DATA_LENGTH,
        ) is Ok && checked_parse::<DistributorAccount>(
            accounts[1].data@,
            MAX_DISTRIBUTOR_DATA_LENGTH,
        )->Ok_0.start_ts <= now ==> claim_plan(program_id, accounts, now, minimum_balance)
            == PlanView::rejected(Failure::Distributor(DistributorError::IncorrectOwner)),
{
}

/// An opening over a slot that holds a live campaign asks nothing of
/// anyone and fails: the campaign is not reset and the custody account is
/// not handed on. Where the accounts, the pool and the symbol are in
/// order, it fails as already initialized.
pub proof fn opening_over_live_campaign_is_rejected(
    program_id: Address,
    accounts: Seq<AccountInfo>,
    reward_amount_total: u64,
    reward_amount_per_nft: u64,
    start_ts: i64,
    collection_symbol: Seq<char>,
    minimum_balance: u64,
)
    requires
        parse_distributor(accounts[1].data@) is Some,
        parse_distributor(accounts[1].data@)->0.is_initialized,
    ensures
        ({
            let plan = create_plan(
                program_id,
                accounts,
                reward_amount_total,
                reward_amount_per_nft,
                start_ts,
                collection_symbol,
                minimum_balance,
            );
            &&& plan.is_idle()
            &&& plan.outcome is Err
            &&& create_preconditions(program_id, accounts, minimum_balance) is Ok && pool_check(
                unpacked_token_account(accounts[2].data@),
                reward_amount_total,
            ) is Ok && symbol_check(collection_symbol) is Ok && accounts[1].data@.len()
                == MAX_DISTRIBUTOR_DATA_LENGTH ==> plan == PlanView::rejected(
                Failure::AccountAlreadyInitialized,
            )
        }),
{
}

/// An opening with a symbol of more than `MAX_SYMBOL_LENGTH` bytes asks
/// nothing of anyone and fails; where the accounts and the pool are in
/// order, it fails as an invalid instruction.
pub proof fn opening_with_long_symbol_is_rejected(
    program_id: Address,
    accounts: Seq<AccountInfo>,
    reward_amount_total: u64,
    reward_amount_per_nft: u64,
    start_ts: i64,
    collection_symbol: Seq<char>,
    minimum_balance: u64,
)
    requires
        encode_utf8(collection_symbol).len() > MAX_SYMBOL_LENGTH,
    ensures
        ({
            let plan = create_plan(
                program_id,
                accounts,
                reward_amount_total,
                reward_amount_per_nft,
                start_ts,
                collection_symbol,
                minimum_balance,
            );
            &&& plan.is_idle()
            &&& plan.outcome is Err
            &&& create_preconditions(program_id, accounts, minimum_balance) is Ok && pool_check(
                unpacked_token_account(accounts[2].data@),
                reward_amount_total,
            ) is Ok ==> plan == PlanView::rejected(
                Failure::Distributor(DistributorError::InvalidInstruction),
            )
        }),
{
}

/// An opening that succeeds found a slot that was not initialized and a
/// symbol within its bound, and does two things and no more. It asks the
/// token program to make the address derived from the tag and the state's
/// address the owner of the custody account, on the word of the authority.
/// And it leaves in the state's slot a state that reads back as the fields
/// supplied, initialized, with nothing claimed, which keeps the accounting
/// rule.
pub proof fn opening_starts_unclaimed(
    program_id: Address,
    accounts: Seq<AccountInfo>,
    reward_amount_total: u64,
    reward_amount_per_nft: u64,
    start_ts: i64,
    collection_symbol: Seq<char>,
    minimum_balance: u64,
)
    requires
        create_plan(
            program_id,
            accounts,
            reward_amount_total,
            reward_amount_per_nft,
            start_ts,
            collection_symbol,
            minimum_balance,
        ).outcome is Ok,
    ensures
        ({
            let plan = create_plan(
                program_id,
                accounts,
                reward_amount_total,
                reward_amount_per_nft,
                start_ts,
                collection_symbol,
                minimum_balance,
            );
            let derived = custody_authority(accounts[1].key, program_id);
            let written = parse_distributor(plan.actions[1]->Store_data);
            &&& fresh_slot_check(accounts[1].data@) is Ok
            &&& !parse_distributor(accounts[1].data@)->0.is_initialized
            &&& encode_utf8(collection_symbol).len() <= MAX_SYMBOL_LENGTH
            &&& derived is Some
            &&& plan.actions.len() == 2
            &&& plan.actions[0] is Invoke
            &&& plan.actions[0]->Invoke_instruction == token_set_owner_request(
                token_program(),
                accounts[2].key,
                address_of(derived),
                accounts[0].key,
                accounts[0].key,
            )
            &&& plan.actions[1] is Store
            &&& plan.actions[1]->Store_account == accounts[1].key
            &&& plan.actions[1]->Store_data.len() == accounts[1].data@.len()
            &&& written is Some
            &&& written->0.is_initialized
            &&& written->0.amount_claimed == 0
            &&& written->0.balanced()
            &&& written->0.authority == accounts[0].key@
            &&& written->0.reward_token_account == accounts[2].key@
            &&& written->0.reward_mint == unpacked_token_account(accounts[2].data@)->Ok_0.mint@
            &&& written->0.collection_creator == accounts[3].key@
            &&& written->0.reward_amount_total == reward_amount_total
            &&& written->0.reward_amount_per_nft == reward_amount_per_nft
            &&& written->0.start_ts == start_ts
            &&& written->0.collection_symbol == collection_symbol
        }),
{
    let custody = unpacked_token_account(accounts[2].data@)->Ok_0;
    let record = opened_state(
        accounts[0].key,
        accounts[2].key,
        custody.mint,
        reward_amount_total,
        reward_amount_per_nft,
        start_ts,
        collection_symbol,
        accounts[3].key,
    );
    let slot = accounts[1].data@;
    let form = record.bytes();
    assert(record.shaped());
    parse_stored_distributor(record, slot.subrange(form.len() as int, slot.len() as int));
    assert(record.amount_claimed == 0nat * record.reward_amount_per_nft);
}

/// The state that a claim finds in the state's slot.
pub open spec fn state_found(accounts: Seq<AccountInfo>) -> DistributorView {
    parse_distributor(accounts[1].data@)->0
}

/// A claim for which the pool no longer covers a reward asks nothing of
/// anyone and fails: nothing is moved and the amount claimed stays within
/// the pool.
pub proof fn claim_past_pool_is_rejected(
    program_id: Address,
    accounts: Seq<AccountInfo>,
    now: i64,
    minimum_balance: u64,
)
    requires
        parse_distributor(accounts[1].data@) is Some,
        !pool_covers(state_found(accounts)),
    ensures
        claim_plan(program_id, accounts, now, minimum_balance).is_idle(),
        claim_plan(program_id, accounts, now, minimum_balance).outcome is Err,
{
}

/// A claim that succeeds found a pool that covered the reward. It asks for
/// the reward to be moved, leaves in the state's slot a state that reads
/// back as the one found with one reward more claimed and nothing else
/// changed, brings the receipt's account into being where it had no bytes,
/// and leaves the asset's receipt marked as paid. The state it leaves keeps the
/// accounting rule where the state found kept it: what was claimed is a
/// whole number of rewards and no more than the pool.
pub proof fn claim_books_one_reward(
    program_id: Address,
    accounts: Seq<AccountInfo>,
    now: i64,
    minimum_balance: u64,
)
    requires
        claim_plan(program_id, accounts, now, minimum_balance).outcome is Ok,
    ensures
        ({
            let plan = claim_plan(program_id, accounts, now, minimum_balance);
            let found = state_found(accounts);
            let last = plan.actions.len() - 1;
            &&& parse_distributor(accounts[1].data@) is Some
            &&& pool_covers(found)
            &&& custody_authority(accounts[1].key, program_id) is Some
            &&& accounts[4].key == address_of(custody_authority(accounts[1].key, program_id))
            &&& 3 <= plan.actions.len() <= 6
            &&& plan.actions[0] is Invoke
            &&& plan.actions[0]->Invoke_instruction == token_transfer_request(
                token_program(),
                accounts[2].key,
                accounts[3].key,
                accounts[4].key,
                accounts[4].key,
                found.reward_amount_per_nft,
            )
            &&& plan.actions[1] is Store
            &&& plan.actions[1]->Store_account == accounts[1].key
            &&& plan.actions[1]->Store_data.len() == accounts[1].data@.len()
            &&& parse_distributor(plan.actions[1]->Store_data) == Some(paid_state(found))
            &&& paid_state(found).amount_claimed == found.amount_claimed
                + found.reward_amount_per_nft
            &&& paid_state(found) == (DistributorView {
                amount_claimed: paid_state(found).amount_claimed,
                ..found
            })
            &&& paid_state(found).within_pool()
            &&& found.whole_rewards() ==> paid_state(found).whole_rewards()
            &&& found.balanced() ==> paid_state(found).balanced()
            &&& accounts[7].data@.len() != 0 ==> plan.actions.len() == 3
            &&& accounts[7].data@.len() == 0 ==> plan.actions.subrange(2, last) == creation_steps(
                program_id,
                accounts[7].key,
                accounts[7].lamports,
                accounts[0].key,
                minimum_balance,
                PROOF_OF_RECEIPT_DATA_LENGTH,
                signing_seeds(
                    receipt_seeds(unpacked_token_account(accounts[5].data@)->Ok_0.mint),
                    bump_of(
                        receipt_address(
                            unpacked_token_account(accounts[5].data@)->Ok_0.mint,
                            program_id,
                        ),
                    ),
                ),
            )
            &&& plan.actions[last] is Store
            &&& plan.actions[last]->Store_account == accounts[7].key
            &&& plan.actions[last]->Store_data == receipt_bytes(paid_receipt())
            &&& parse_receipt(plan.actions[last]->Store_data) == Some(paid_receipt())
        }),
{
    let found = state_found(accounts);
    let slot = accounts[1].data@;
    parsed_distributor_is_front(slot);
    let paid = paid_state(found);
    let form = paid.bytes();
    parse_stored_distributor(paid, slot.subrange(form.len() as int, slot.len() as int));
    if found.whole_rewards() {
        let k = choose|k: nat| found.amount_claimed == #[trigger] (k * found.reward_amount_per_nft);
        assert(paid.amount_claimed == (k + 1) * found.reward_amount_per_nft) by (nonlinear_arith)
            requires
                paid.amount_claimed == found.amount_claimed + found.reward_amount_per_nft,
                found.amount_claimed == k * found.reward_amount_per_nft,
        ;
        assert(paid.whole_rewards());
    }
}

/// A claim succeeds where every check is met: the accounts are in order,
/// the state's slot holds a state whose start has come, the claimant owns
/// the asset, the metadata account is the asset's and lists the
/// collection's creator, the custody account is the campaign's, the
/// authority account and the receipt account are the derived ones, the
/// receipt is absent or not marked, and the pool covers the reward.
pub proof fn eligible_claim_succeeds(
    program_id: Address,
    accounts: Seq<AccountInfo>,
    now: i64,
    minimum_balance: u64,
)
    requires
        claim_preconditions(program_id, accounts) is Ok,
        started_state(accounts[1].data@, now) is Ok,
        ownership_check(unpacked_token_account(accounts[5].data@), accounts[0].key) is Ok,
        metadata_place_check(
            metadata_address(unpacked_token_account(accounts[5].data@)->Ok_0.mint),
            accounts[6].key,
        ) is Ok,
        collection_check(accounts[6].data@, state_found(accounts).collection_creator) is Ok,
        accounts[2].key@ == state_found(accounts).reward_token_account,
        authority_check(custody_authority(accounts[1].key, program_id), accounts[4].key) is Ok,
        receipt_address(unpacked_token_account(accounts[5].data@)->Ok_0.mint, program_id) is Some,
        address_of(
            receipt_address(unpacked_token_account(accounts[5].data@)->Ok_0.mint, program_id),
        ) == accounts[7].key,
        accounts[7].data@.len() == 0 || parse_receipt(accounts[7].data@) == Some(
            ProofOfReceiptAccount { received_tokens: false },
        ) && accounts[7].data@.len() == 1,
        pool_covers(state_found(accounts)),
    ensures
        claim_plan(program_id, accounts, now, minimum_balance).outcome is Ok,
{
    let slot = accounts[1].data@;
    parsed_distributor_is_front(slot);
    let paid = paid_state(state_found(accounts));
    distributor_bytes_len(paid);
    distributor_bytes_len(state_found(accounts));
}

/// Whether `after` shows the accounts of a claim as its plan leaves them:
/// the state's slot and the receipt's slot hold what the plan stored in
/// them, and everything that a claim looks at is otherwise as it was in
/// `before`.
pub open spec fn settled(before: Seq<AccountInfo>, plan: PlanView, after: Seq<AccountInfo>) -> bool {
    &&& after.len() == before.len()
    &&& forall|i: int|
        0 <= i < before.len() ==> (#[trigger] after[i]).key == before[i].key && after[i].is_signer
            == before[i].is_signer
    &&& after[1].owner == before[1].owner
    &&& after[5].data@ == before[5].data@
    &&& after[6].data@ == before[6].data@
    &&& after[1].data@ == plan.actions[1]->Store_data
    &&& after[7].data@ == plan.actions[plan.actions.len() - 1]->Store_data
}

/// Claiming twice for one asset: where the first claim succeeds, it books
/// one reward and marks the receipt, and a second claim on the accounts as
/// the first left them, at the same time or later, asks nothing of anyone
/// and fails as already claimed, so that the amount claimed stays what the
/// first claim made it.
pub proof fn second_claim_is_rejected(
    program_id: Address,
    accounts: Seq<AccountInfo>,
    now: i64,
    minimum_balance: u64,
    later_accounts: Seq<AccountInfo>,
    later: i64,
    later_minimum: u64,
)
    requires
        claim_plan(program_id, accounts, now, minimum_balance).outcome is Ok,
        settled(accounts, claim_plan(program_id, accounts, now, minimum_balance), later_accounts),
        now <= later,
    ensures
        state_found(later_accounts).amount_claimed == state_found(accounts).amount_claimed
            + state_found(accounts).reward_amount_per_nft,
        parse_receipt(later_accounts[7].data@) == Some(paid_receipt()),
        claim_plan(program_id, later_accounts, later, later_minimum) == PlanView::rejected(
            Failure::Distributor(DistributorError::TokensAlreadyClaimed),
        ),
{
    claim_books_one_reward(program_id, accounts, now, minimum_balance);
    let found = state_found(accounts);
    let paid = paid_state(found);
    let slot = later_accounts[1].data@;
    assert(parse_distributor(slot) == Some(paid));
    assert(later_accounts[0].key == accounts[0].key);
    assert(later_accounts[1].key == accounts[1].key);
    assert(later_accounts[2].key == accounts[2].key);
    assert(later_accounts[3].key == accounts[3].key);
    assert(later_accounts[4].key == accounts[4].key);
    assert(later_accounts[6].key == accounts[6].key);
    assert(later_accounts[7].key == accounts[7].key);
    assert(later_accounts[10].key == accounts[10].key);
    assert(later_accounts[11].key == accounts[11].key);
    assert(later_accounts[0].is_signer == accounts[0].is_signer);
}

/// The request that `claim_tokens` builds names as many accounts as a
/// claim reads, with the token program and the system program where a
/// claim looks for them.
pub proof fn claim_request_names_what_a_claim_reads(
    claimant_main_account: Address,
    distributor_state_account: Address,
    distributor_reward_account: Address,
    claimant_reward_account: Address,
    pda_account: Address,
    claimant_nft_account: Address,
    nft_metadata_account: Address,
    proof_of_receipt_account: Address,
)
    ensures
        ({
            let named = claim_accounts(
                claimant_main_account,
                distributor_state_account,
                distributor_reward_account,
                claimant_reward_account,
                pda_account,
                claimant_nft_account,
                nft_metadata_account,
                proof_of_receipt_account,
            );
            &&& named.len() == 12
            &&& named[0].pubkey == claimant_main_account && named[0].is_signer
            &&& named[10].pubkey == token_program()
            &&& named[11].pubkey == system_program()
            &&& !named[11].is_signer && !named[11].is_writable
        }),
{
}

} // verus!
