use borsh::{BorshDeserialize, BorshSerialize};
use solana_program::program_error::ProgramError;
use solana_program::pubkey::Pubkey;
use spl_token_metadata::error::MetadataError;
use token_distributor::account::AccountInfo;
use token_distributor::address::Address;
use token_distributor::error::{DistributorError, Failure, DISTRIBUTOR_ERROR_COUNT};
use token_distributor::programs::{
    clock_sysvar_id, metadata_program_id, rent_sysvar_id, system_program_id, token_program_id,
};
use token_distributor::state::{
    DistributorAccount, ProofOfReceiptAccount, Record, MAX_DISTRIBUTOR_DATA_LENGTH,
    MAX_SYMBOL_LENGTH, PROOF_OF_RECEIPT_DATA_LENGTH,
};
use token_distributor::utils::{store, try_from_slice_checked, PREFIX};

type StateTuple = (bool, [u8; 32], [u8; 32], [u8; 32], u64, u64, u64, i64, String, [u8; 32]);

fn sample_state() -> DistributorAccount {
    DistributorAccount {
        is_initialized: true,
        authority: Address::new([1u8; 32]),
        reward_token_account: Address::new([2u8; 32]),
        reward_mint: Address::new([3u8; 32]),
        reward_amount_total: 1_000,
        reward_amount_per_nft: 10,
        amount_claimed: 20,
        start_ts: -5,
        collection_symbol: "APES".to_string(),
        collection_creator: Address::new([4u8; 32]),
    }
}

fn as_tuple(state: &DistributorAccount) -> StateTuple {
    (
        state.is_initialized,
        state.authority.bytes,
        state.reward_token_account.bytes,
        state.reward_mint.bytes,
        state.reward_amount_total,
        state.reward_amount_per_nft,
        state.amount_claimed,
        state.start_ts,
        state.collection_symbol.clone(),
        state.collection_creator.bytes,
    )
}

fn account_with(data: Vec<u8>) -> AccountInfo {
    AccountInfo {
        key: Address::new([9u8; 32]),
        is_signer: false,
        lamports: 0,
        data,
        owner: Address::new([8u8; 32]),
    }
}

#[test]
fn error_codes_follow_the_order_of_the_list() {
    let all = [
        (DistributorError::InvalidInstruction, "Invalid Instruction"),
        (DistributorError::IncorrectSigner, "Incorrect signer"),
        (DistributorError::NotRentExempt, "State account not rent exempt"),
        (DistributorError::InvalidMint, "Invalid mint"),
        (DistributorError::ExpectedAmountMismatch, "Expected amount mismatch"),
        (DistributorError::UnauthorizedAccount, "Unauthorized account"),
        (DistributorError::IncorrectOwner, "Incorrect account owner"),
        (DistributorError::InvalidAccounts, "Invalid accounts"),
        (DistributorError::InvalidMetadataAccount, "Invalid metadata account"),
        (DistributorError::InvalidSystemProgram, "Invalid system program"),
        (DistributorError::AmountOverflow, "Amount overflow transferring lamports"),
        (DistributorError::AmountUnderflow, "Amount underflow transferring lamports"),
        (DistributorError::DataTypeMismatch, "Data type mismatch"),
        (DistributorError::DistributionNotStarted, "Distribution not started"),
        (DistributorError::IncorrectSymbol, "Incorrect symbol in metadata"),
        (DistributorError::TokensAlreadyClaimed, "Tokens already claimed"),
    ];
    assert_eq!(all.len() as u32, DISTRIBUTOR_ERROR_COUNT);
    for (position, (error, message)) in all.iter().enumerate() {
        assert_eq!(error.code(), position as u32);
        assert_eq!(error.message(), *message);
        assert_eq!(DistributorError::from_code(position as u32), Some(*error));
    }
}

#[test]
fn codes_past_the_list_name_no_error() {
    assert_eq!(DistributorError::from_code(16), None);
    assert_eq!(DistributorError::from_code(u32::MAX), None);
}

#[test]
fn failures_compare_by_kind_and_code() {
    assert_eq!(Failure::Relayed(4), Failure::Relayed(4));
    assert_ne!(Failure::Relayed(4), Failure::Relayed(5));
    assert_ne!(
        Failure::Distributor(DistributorError::InvalidAccounts),
        Failure::Distributor(DistributorError::IncorrectOwner)
    );
}

#[test]
fn failures_are_reported_under_the_run_times_numbers() {
    let number = |e: ProgramError| -> u64 { e.into() };
    assert_eq!(
        Failure::Distributor(DistributorError::InvalidInstruction).code(),
        number(ProgramError::Custom(0))
    );
    assert_eq!(Failure::Distributor(DistributorError::InvalidInstruction).code(), 1 << 32);
    assert_eq!(Failure::Distributor(DistributorError::IncorrectSigner).code(), 1);
    assert_eq!(
        Failure::Distributor(DistributorError::TokensAlreadyClaimed).code(),
        number(ProgramError::Custom(15))
    );
    assert_eq!(
        Failure::NoCreatorsPresentOnMetadata.code(),
        number(MetadataError::NoCreatorsPresentOnMetadata.into())
    );
    assert_eq!(Failure::CreatorNotFound.code(), number(MetadataError::CreatorNotFound.into()));
    assert_eq!(Failure::NotEnoughAccountKeys.code(), number(ProgramError::NotEnoughAccountKeys));
    assert_eq!(Failure::IncorrectProgramId.code(), number(ProgramError::IncorrectProgramId));
    assert_eq!(Failure::InvalidSeeds.code(), number(ProgramError::InvalidSeeds));
    assert_eq!(
        Failure::AccountAlreadyInitialized.code(),
        number(ProgramError::AccountAlreadyInitialized)
    );
    assert_eq!(
        Failure::BorshIoError.code(),
        number(ProgramError::BorshIoError("Unknown".to_string()))
    );
    assert_eq!(Failure::Relayed(4 << 32).code(), number(ProgramError::InvalidAccountData));
    assert_eq!(Failure::Relayed(77).code(), 77);
}

#[test]
fn well_known_addresses_are_those_of_the_collaborators() {
    assert_eq!(token_program_id().bytes, spl_token::id().to_bytes());
    assert_eq!(metadata_program_id().bytes, spl_token_metadata::id().to_bytes());
    assert_eq!(system_program_id().bytes, solana_program::system_program::id().to_bytes());
    assert_eq!(rent_sysvar_id().bytes, solana_program::sysvar::rent::id().to_bytes());
    assert_eq!(clock_sysvar_id().bytes, solana_program::sysvar::clock::id().to_bytes());
}

#[test]
fn addresses_compare_byte_by_byte() {
    let a = Address::new([7u8; 32]);
    let mut other = [7u8; 32];
    other[31] = 8;
    assert!(a.same(&Address::new([7u8; 32])));
    assert!(!a.same(&Address::new(other)));
    assert_eq!(a.to_vec(), vec![7u8; 32]);
    assert_eq!(Pubkey::new_from_array(a.bytes).to_bytes(), a.bytes);
}

#[test]
fn sizes_of_the_slots() {
    assert_eq!(MAX_SYMBOL_LENGTH, 10);
    assert_eq!(MAX_DISTRIBUTOR_DATA_LENGTH, 187);
    assert_eq!(PROOF_OF_RECEIPT_DATA_LENGTH, 1);
    assert_eq!(PREFIX, "distributor");
}

#[test]
fn stored_state_has_the_layout_of_its_fields_in_order() {
    let state = sample_state();
    let form = state.encode().unwrap();
    assert_eq!(form.len(), 165 + 4);
    assert_eq!(form, as_tuple(&state).try_to_vec().unwrap());
    assert_eq!(form[0], 1);
    assert_eq!(&form[1..33], &[1u8; 32]);
    assert_eq!(&form[97..105], &1_000u64.to_le_bytes());
    assert_eq!(&form[113..121], &20u64.to_le_bytes());
    assert_eq!(&form[121..129], &(-5i64).to_le_bytes());
    assert_eq!(&form[129..133], &[4, 0, 0, 0]);
    assert_eq!(&form[133..137], b"APES");
    assert_eq!(&form[137..169], &[4u8; 32]);
}

#[test]
fn stored_state_reads_back() {
    let state = sample_state();
    let mut slot = state.encode().unwrap();
    slot.resize(MAX_DISTRIBUTOR_DATA_LENGTH, 0xee);
    assert_eq!(DistributorAccount::decode(&slot), Some(state.clone()));
    let mut rest: &[u8] = &slot;
    let by_borsh = StateTuple::deserialize(&mut rest).unwrap();
    assert_eq!(by_borsh, as_tuple(&state));
}

#[test]
fn extreme_numbers_read_back() {
    let mut state = sample_state();
    state.reward_amount_total = u64::MAX;
    state.amount_claimed = u64::MAX - 1;
    state.start_ts = i64::MIN;
    state.collection_symbol = "héllo€".to_string();
    let form = state.encode().unwrap();
    assert_eq!(form, as_tuple(&state).try_to_vec().unwrap());
    assert_eq!(DistributorAccount::decode(&form), Some(state.clone()));
    state.start_ts = i64::MAX;
    let form = state.encode().unwrap();
    assert_eq!(form, as_tuple(&state).try_to_vec().unwrap());
    assert_eq!(DistributorAccount::decode(&form), Some(state));
}

#[test]
fn zeroed_slot_reads_as_a_state_not_yet_initialized() {
    let slot = vec![0u8; MAX_DISTRIBUTOR_DATA_LENGTH];
    let state = DistributorAccount::decode(&slot).unwrap();
    assert!(!state.is_initialized);
    assert_eq!(state.amount_claimed, 0);
    assert_eq!(state.collection_symbol, "");
    assert_eq!(state.authority, Address::new([0u8; 32]));
}

#[test]
fn malformed_state_is_not_read() {
    let good = sample_state().encode().unwrap();
    assert_eq!(DistributorAccount::decode(&[]), None);
    assert_eq!(DistributorAccount::decode(&good[..132]), None);
    assert_eq!(DistributorAccount::decode(&good[..good.len() - 1]), None);
    let mut bad_flag = good.clone();
    bad_flag[0] = 2;
    assert_eq!(DistributorAccount::decode(&bad_flag), None);
    let mut bad_text = good.clone();
    bad_text[133] = 0xff;
    assert_eq!(DistributorAccount::decode(&bad_text), None);
    let mut long_text = good.clone();
    long_text[129..133].copy_from_slice(&u32::MAX.to_le_bytes());
    assert_eq!(DistributorAccount::decode(&long_text), None);
    for bad in [&bad_flag, &bad_text, &long_text] {
        let mut rest: &[u8] = bad;
        assert!(StateTuple::deserialize(&mut rest).is_err());
    }
}

#[test]
fn receipt_is_one_flag() {
    let paid = ProofOfReceiptAccount { received_tokens: true };
    let unpaid = ProofOfReceiptAccount { received_tokens: false };
    assert_eq!(paid.encode(), Some(vec![1]));
    assert_eq!(unpaid.encode(), Some(vec![0]));
    assert_eq!(ProofOfReceiptAccount::decode(&[1]), Some(paid));
    assert_eq!(ProofOfReceiptAccount::decode(&[0]), Some(unpaid));
    assert_eq!(ProofOfReceiptAccount::decode(&[0, 7]), Some(unpaid));
    assert_eq!(ProofOfReceiptAccount::decode(&[2]), None);
    assert_eq!(ProofOfReceiptAccount::decode(&[]), None);
    assert_eq!(true.try_to_vec().unwrap(), vec![1]);
}

#[test]
fn slot_of_the_wrong_size_is_a_type_mismatch() {
    let short: Result<DistributorAccount, Failure> = try_from_slice_checked(&[0u8; 186], 187);
    assert_eq!(short, Err(Failure::Distributor(DistributorError::DataTypeMismatch)));
    let long: Result<ProofOfReceiptAccount, Failure> = try_from_slice_checked(&[0u8, 0], 1);
    assert_eq!(long, Err(Failure::Distributor(DistributorError::DataTypeMismatch)));
    let empty: Result<ProofOfReceiptAccount, Failure> = try_from_slice_checked(&[], 1);
    assert_eq!(empty, Err(Failure::Distributor(DistributorError::DataTypeMismatch)));
}

#[test]
fn slot_of_the_right_size_with_bad_bytes_is_a_decoding_failure() {
    let mut slot = vec![0u8; 187];
    slot[0] = 9;
    let read: Result<DistributorAccount, Failure> = try_from_slice_checked(&slot, 187);
    assert_eq!(read, Err(Failure::BorshIoError));
    let read: Result<ProofOfReceiptAccount, Failure> = try_from_slice_checked(&[3], 1);
    assert_eq!(read, Err(Failure::BorshIoError));
}

#[test]
fn records_are_read_from_their_accounts() {
    let state = sample_state();
    let mut slot = state.encode().unwrap();
    slot.resize(187, 0);
    assert_eq!(DistributorAccount::from_account_info(&account_with(slot)), Ok(state));
    assert_eq!(
        DistributorAccount::from_account_info(&account_with(vec![0u8; 100])),
        Err(Failure::Distributor(DistributorError::DataTypeMismatch))
    );
    assert_eq!(
        ProofOfReceiptAccount::from_account_info(&account_with(vec![1])),
        Ok(ProofOfReceiptAccount { received_tokens: true })
    );
    assert_eq!(
        ProofOfReceiptAccount::from_account_info(&account_with(vec![])),
        Err(Failure::Distributor(DistributorError::DataTypeMismatch))
    );
}

#[test]
fn storing_overwrites_the_front_and_keeps_the_rest() {
    let state = sample_state();
    let slot = vec![0xabu8; 187];
    let written = store(&slot, &state).unwrap();
    let form = state.encode().unwrap();
    assert_eq!(written.len(), 187);
    assert_eq!(&written[..form.len()], &form[..]);
    assert!(written[form.len()..].iter().all(|b| *b == 0xab));
    assert_eq!(store(&[5u8], &ProofOfReceiptAccount { received_tokens: true }), Ok(vec![1]));
}

#[test]
fn storing_fails_where_the_slot_is_too_small() {
    let mut state = sample_state();
    state.collection_symbol = "x".repeat(22);
    assert_eq!(store(&vec![0u8; 187], &state).map(|d| d.len()), Ok(187));
    state.collection_symbol = "x".repeat(23);
    assert_eq!(store(&vec![0u8; 187], &state), Err(Failure::BorshIoError));
    assert_eq!(
        store(&[], &ProofOfReceiptAccount { received_tokens: false }),
        Err(Failure::BorshIoError)
    );
}
