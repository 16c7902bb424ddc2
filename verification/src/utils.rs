//! Reading and writing records in account slots, and bringing an account
//! into being.

use vstd::prelude::*;
use vstd::slice::slice_to_vec;
use crate::account::AccountInfo;
use crate::address::Address;
use crate::error::{DistributorError, Failure};
use crate::authority::seed_bytes;
use crate::plan::{actions_view, Action, ActionView};
use crate::programs::{system_program, system_program_id};
use crate::state::Record;
use crate::system::{
    allocate, assign, system_allocate_request, system_assign_request, system_transfer_request,
    transfer,
};

verus! {

/// The tag under which a campaign's custody authority is derived.
pub const PREFIX: &'static str = "distributor";

/// What reading a record from a slot of the expected size gives.
pub open spec fn checked_parse<T: Record>(data: Seq<u8>, data_size: usize) -> Result<
    T::Model,
    Failure,
> {
    if data.len() != data_size {
        Err(Failure::Distributor(DistributorError::DataTypeMismatch))
    } else if T::parse(data) is None {
        Err(Failure::BorshIoError)
    } else {
        Ok(T::parse(data)->0)
    }
}

/// Reads a record from a slot, which must have exactly `data_size` bytes.
pub fn try_from_slice_checked<T: Record>(data: &[u8], data_size: usize) -> (r: Result<T, Failure>)
    ensures
        r is Ok <==> checked_parse::<T>(data@, data_size) is Ok,
        r is Ok ==> r->Ok_0.model() == checked_parse::<T>(data@, data_size)->Ok_0,
        r is Err ==> r->Err_0 == checked_parse::<T>(data@, data_size)->Err_0,
{
    if data.len() != data_size {
        return Err(Failure::Distributor(DistributorError::DataTypeMismatch));
    }
    match T::decode(data) {
        Some(record) => Ok(record),
        None => Err(Failure::BorshIoError),
    }
}

/// A slot after a record's stored form was written over its front.
pub open spec fn overwritten(slot: Seq<u8>, form: Seq<u8>) -> Seq<u8> {
    form + slot.subrange(form.len() as int, slot.len() as int)
}

/// What writing a record into a slot gives: the slot's new bytes, or the
/// failure where the record has no stored form or the slot is too small.
pub open spec fn stored<T: Record>(slot: Seq<u8>, m: T::Model) -> Result<Seq<u8>, Failure> {
    if T::storable(m) && T::stored_form(m).len() <= slot.len() {
        Ok(overwritten(slot, T::stored_form(m)))
    } else {
        Err(Failure::BorshIoError)
    }
}

/// Writes a record over the front of a slot and returns the slot's new
/// bytes; the bytes behind the record stay.
pub fn store<T: Record>(slot: &[u8], record: &T) -> (r: Result<Vec<u8>, Failure>)
    ensures
        r is Ok <==> stored::<T>(slot@, record.model()) is Ok,
        r is Ok ==> r->Ok_0@ == stored::<T>(slot@, record.model())->Ok_0,
        r is Err ==> r->Err_0 == Failure::BorshIoError,
{
    let form = match record.encode() {
        Some(form) => form,
        None => {
            return Err(Failure::BorshIoError);
        },
    };
    let n: usize = form.len();
    if n > slot.len() {
        return Err(Failure::BorshIoError);
    }
    let mut out: Vec<u8> = form;
    let mut i: usize = n;
    while i < slot.len()
        invariant
            n <= i <= slot@.len(),
            out@.len() == i,
            out@.subrange(0, n as int) == T::stored_form(record.model()),
            forall|j: int| n <= j < i ==> out@[j] == slot@[j],
        decreases slot@.len() - i,
    {
        out.push(slot[i]);
        i += 1;
    }
    assert(out@ =~= overwritten(slot@, T::stored_form(record.model())));
    Ok(out)
}

/// A copy of a list of seeds.
pub fn copy_seeds(seeds: &Vec<Vec<u8>>) -> (copy: Vec<Vec<u8>>)
    ensures
        seed_bytes(copy@) == seed_bytes(seeds@),
{
    let mut copy: Vec<Vec<u8>> = Vec::new();
    let mut i: usize = 0;
    while i < seeds.len()
        invariant
            i <= seeds@.len(),
            copy@.len() == i,
            forall|j: int| 0 <= j < i ==> copy@[j]@ == seeds@[j]@,
        decreases seeds@.len() - i,
    {
        copy.push(slice_to_vec(seeds[i].as_slice()));
        i += 1;
    }
    assert(seed_bytes(copy@) =~= seed_bytes(seeds@));
    copy
}

/// What must be added to an account that holds `held` lamports so that it
/// holds the rent rule's minimum, and at least one lamport.
pub open spec fn required_lamports(minimum_balance: u64, held: u64) -> u64 {
    let floor = if minimum_balance < 1 {
        1u64
    } else {
        minimum_balance
    };
    if floor <= held {
        0u64
    } else {
        (floor - held) as u64
    }
}

/// The steps that bring an account into being: the payer tops it up where
/// it holds too little, then it is given its space and handed to the
/// program, both signed for with the seeds.
pub open spec fn creation_steps(
    program_id: Address,
    new_account: Address,
    held: u64,
    payer: Address,
    minimum_balance: u64,
    size: usize,
    signer_seeds: Seq<Seq<u8>>,
) -> Seq<ActionView> {
    let required = required_lamports(minimum_balance, held);
    let fund = if required > 0 {
        seq![
            ActionView::Invoke {
                instruction: system_transfer_request(payer, new_account, required),
                accounts: seq![payer, new_account, system_program()],
                signer_seeds: Seq::empty(),
            },
        ]
    } else {
        Seq::empty()
    };
    fund + seq![
        ActionView::Invoke {
            instruction: system_allocate_request(new_account, size as u64),
            accounts: seq![new_account, system_program()],
            signer_seeds,
        },
        ActionView::Invoke {
            instruction: system_assign_request(new_account, program_id),
            accounts: seq![new_account, system_program()],
            signer_seeds,
        },
    ]
}

/// Plans the creation of an account of `size` bytes that the program owns.
/// `minimum_balance` is what the rent rule asks of an account of that
/// size.
pub fn create_or_allocate_account_raw(
    program_id: Address,
    new_account_info: &AccountInfo,
    minimum_balance: u64,
    payer_info: &AccountInfo,
    size: usize,
    signer_seeds: &Vec<Vec<u8>>,
) -> (steps: Vec<Action>)
    ensures
        actions_view(steps@) == creation_steps(
            program_id,
            new_account_info.key,
            new_account_info.lamports,
            payer_info.key,
            minimum_balance,
            size,
            seed_bytes(signer_seeds@),
        ),
{
    let system_program = system_program_id();
    let floor: u64 = if minimum_balance < 1 {
        1
    } else {
        minimum_balance
    };
    let required: u64 = if floor <= new_account_info.lamports {
        0
    } else {
        floor - new_account_info.lamports
    };
    let mut steps: Vec<Action> = Vec::new();
    if required > 0 {
        let mut accounts: Vec<Address> = Vec::new();
        accounts.push(payer_info.key);
        accounts.push(new_account_info.key);
        accounts.push(system_program);
        let step = Action::Invoke {
            instruction: transfer(&payer_info.key, &new_account_info.key, required),
            accounts,
            signer_seeds: Vec::new(),
        };
        assert(step@->Invoke_accounts =~= seq![payer_info.key, new_account_info.key, system_program]);
        assert(step@->Invoke_signer_seeds =~= Seq::empty());
        steps.push(step);
    }
    let mut accounts: Vec<Address> = Vec::new();
    accounts.push(new_account_info.key);
    accounts.push(system_program);
    let step = Action::Invoke {
        instruction: allocate(&new_account_info.key, size as u64),
        accounts,
        signer_seeds: copy_seeds(signer_seeds),
    };
    assert(step@->Invoke_accounts =~= seq![new_account_info.key, system_program]);
    steps.push(step);
    let mut accounts: Vec<Address> = Vec::new();
    accounts.push(new_account_info.key);
    accounts.push(system_program);
    let step = Action::Invoke {
        instruction: assign(&new_account_info.key, &program_id),
        accounts,
        signer_seeds: copy_seeds(signer_seeds),
    };
    assert(step@->Invoke_accounts =~= seq![new_account_info.key, system_program]);
    steps.push(step);
    assert(actions_view(steps@) =~= creation_steps(
        program_id,
        new_account_info.key,
        new_account_info.lamports,
        payer_info.key,
        minimum_balance,
        size,
        seed_bytes(signer_seeds@),
    ));
    steps
}

} // verus!
