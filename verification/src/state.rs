//! The two persistent records: the state of one distribution campaign and
//! the receipt that marks an asset's reward as paid.

use vstd::prelude::*;
use vstd::bytes::*;
use vstd::utf8::*;
use crate::account::AccountInfo;
use crate::address::Address;
use crate::error::Failure;
use crate::utils::{checked_parse, try_from_slice_checked};
use crate::wire::{
    bits_i64, copy_range, flag_byte, i64_bits, i64_bits_round_trip, i64_from_bits, i64_to_bits,
    push_address, push_text, push_u64, read_address, read_u32, read_u64, text_bytes, text_fits,
    text_from_utf8,
};

verus! {

/// Longest collection symbol, in bytes of its UTF-8 form, that a campaign
/// carries.
pub const MAX_SYMBOL_LENGTH: usize = 10;

/// Size in bytes of the slot that holds a campaign's state. The fixed part
/// of a state takes 165 bytes; what is left has room for the symbol.
pub const MAX_DISTRIBUTOR_DATA_LENGTH: usize = 187;

/// Size in bytes of the slot that holds a receipt.
pub const PROOF_OF_RECEIPT_DATA_LENGTH: usize = 1;

/// The state of one distribution campaign.
#[derive(Clone, Debug, PartialEq, Eq)]
pub struct DistributorAccount {
    pub is_initialized: bool,
    pub authority: Address,
    pub reward_token_account: Address,
    pub reward_mint: Address,
    pub reward_amount_total: u64,
    pub reward_amount_per_nft: u64,
    pub amount_claimed: u64,
    pub start_ts: i64,
    pub collection_symbol: String,
    pub collection_creator: Address,
}

/// What a campaign's state says, as mathematical values.
pub struct DistributorView {
    pub is_initialized: bool,
    pub authority: Seq<u8>,
    pub reward_token_account: Seq<u8>,
    pub reward_mint: Seq<u8>,
    pub reward_amount_total: u64,
    pub reward_amount_per_nft: u64,
    pub amount_claimed: u64,
    pub start_ts: i64,
    pub collection_symbol: Seq<char>,
    pub collection_creator: Seq<u8>,
}

impl View for DistributorAccount {
    type V = DistributorView;

    open spec fn view(&self) -> DistributorView {
        DistributorView {
            is_initialized: self.is_initialized,
            authority: self.authority@,
            reward_token_account: self.reward_token_account@,
            reward_mint: self.reward_mint@,
            reward_amount_total: self.reward_amount_total,
            reward_amount_per_nft: self.reward_amount_per_nft,
            amount_claimed: self.amount_claimed,
            start_ts: self.start_ts,
            collection_symbol: self.collection_symbol@,
            collection_creator: self.collection_creator@,
        }
    }
}

impl DistributorView {
    /// Whether the addresses have their 32 bytes each.
    pub open spec fn shaped(self) -> bool {
        &&& self.authority.len() == 32
        &&& self.reward_token_account.len() == 32
        &&& self.reward_mint.len() == 32
        &&& self.collection_creator.len() == 32
    }

    /// What has been paid out is a whole number of rewards.
    pub open spec fn whole_rewards(self) -> bool {
        exists|k: nat| self.amount_claimed == #[trigger] (k * self.reward_amount_per_nft)
    }

    /// What has been paid out is no more than the pool.
    pub open spec fn within_pool(self) -> bool {
        self.amount_claimed <= self.reward_amount_total
    }

    /// The accounting rule of a campaign: what has been paid out is a whole
    /// number of rewards and no more than the pool.
    pub open spec fn balanced(self) -> bool {
        self.whole_rewards() && self.within_pool()
    }

    /// The stored form of the state: the fields in order, flags as one
    /// byte, addresses raw, numbers little end first, the symbol with its
    /// length in front.
    pub open spec fn bytes(self) -> Seq<u8> {
        seq![flag_byte(self.is_initialized)] + self.authority + self.reward_token_account
            + self.reward_mint + spec_u64_to_le_bytes(self.reward_amount_total)
            + spec_u64_to_le_bytes(self.reward_amount_per_nft) + spec_u64_to_le_bytes(
            self.amount_claimed,
        ) + spec_u64_to_le_bytes(i64_bits(self.start_ts)) + text_bytes(self.collection_symbol)
            + self.collection_creator
    }
}

/// Length of the symbol that the stored form in `data` announces.
pub open spec fn stored_symbol_length(data: Seq<u8>) -> int {
    spec_u32_from_le_bytes(data.subrange(129, 133)) as int
}

/// The state that the front of `data` holds; `None` where the bytes are too
/// few, the flag is no flag, or the symbol is not UTF-8. Bytes behind the
/// state are not looked at.
pub open spec fn parse_distributor(data: Seq<u8>) -> Option<DistributorView> {
    if data.len() < 133 || data[0] > 1 {
        None
    } else {
        let n = stored_symbol_length(data);
        if data.len() < 133 + n + 32 || !valid_utf8(data.subrange(133, 133 + n)) {
            None
        } else {
            Some(
                DistributorView {
                    is_initialized: data[0] == 1,
                    authority: data.subrange(1, 33),
                    reward_token_account: data.subrange(33, 65),
                    reward_mint: data.subrange(65, 97),
                    reward_amount_total: spec_u64_from_le_bytes(data.subrange(97, 105)),
                    reward_amount_per_nft: spec_u64_from_le_bytes(data.subrange(105, 113)),
                    amount_claimed: spec_u64_from_le_bytes(data.subrange(113, 121)),
                    start_ts: bits_i64(spec_u64_from_le_bytes(data.subrange(121, 129))),
                    collection_symbol: decode_utf8(data.subrange(133, 133 + n)),
                    collection_creator: data.subrange(133 + n, 133 + n + 32),
                },
            )
        }
    }
}

/// The stored form of a state is 165 bytes and the symbol's own.
pub proof fn distributor_bytes_len(v: DistributorView)
    requires
        v.shaped(),
        text_fits(v.collection_symbol),
    ensures
        v.bytes().len() == 165 + encode_utf8(v.collection_symbol).len(),
{
    lemma_auto_spec_u64_to_from_le_bytes();
    lemma_auto_spec_u32_to_from_le_bytes();
}

/// Reading back what was stored gives the state that was stored, whatever
/// bytes follow it in the slot.
pub proof fn parse_stored_distributor(v: DistributorView, rest: Seq<u8>)
    requires
        v.shaped(),
        text_fits(v.collection_symbol),
    ensures
        parse_distributor(v.bytes() + rest) == Some(v),
{
    lemma_auto_spec_u64_to_from_le_bytes();
    lemma_auto_spec_u32_to_from_le_bytes();
    i64_bits_round_trip(v.start_ts, 0);
    encode_utf8_valid_utf8(v.collection_symbol);
    encode_utf8_decode_utf8(v.collection_symbol);
    let data = v.bytes() + rest;
    let text = encode_utf8(v.collection_symbol);
    let n = text.len() as int;
    assert(data[0] == flag_byte(v.is_initialized));
    assert(data.subrange(1, 33) =~= v.authority);
    assert(data.subrange(33, 65) =~= v.reward_token_account);
    assert(data.subrange(65, 97) =~= v.reward_mint);
    assert(data.subrange(97, 105) =~= spec_u64_to_le_bytes(v.reward_amount_total));
    assert(data.subrange(105, 113) =~= spec_u64_to_le_bytes(v.reward_amount_per_nft));
    assert(data.subrange(113, 121) =~= spec_u64_to_le_bytes(v.amount_claimed));
    assert(data.subrange(121, 129) =~= spec_u64_to_le_bytes(i64_bits(v.start_ts)));
    assert(data.subrange(129, 133) =~= spec_u32_to_le_bytes(n as u32));
    assert(stored_symbol_length(data) == n);
    assert(data.subrange(133, 133 + n) =~= text);
    assert(data.subrange(133 + n, 133 + n + 32) =~= v.collection_creator);
    assert(parse_distributor(data)->0 == v);
}

/// A state that was read from bytes can be stored, and its stored form is
/// the front of those bytes.
pub proof fn parsed_distributor_is_front(data: Seq<u8>)
    requires
        parse_distributor(data) is Some,
    ensures
        parse_distributor(data)->0.shaped(),
        text_fits(parse_distributor(data)->0.collection_symbol),
        parse_distributor(data)->0.bytes().len() == 165 + stored_symbol_length(data),
        parse_distributor(data)->0.bytes().len() <= data.len(),
        parse_distributor(data)->0.bytes() == data.subrange(
            0,
            165 + stored_symbol_length(data),
        ),
{
    lemma_auto_spec_u64_to_from_le_bytes();
    lemma_auto_spec_u32_to_from_le_bytes();
    let v = parse_distributor(data)->0;
    let n = stored_symbol_length(data);
    let text = data.subrange(133, 133 + n);
    decode_utf8_encode_utf8(text);
    assert(encode_utf8(v.collection_symbol) == text);
    i64_bits_round_trip(0, spec_u64_from_le_bytes(data.subrange(121, 129)));
    assert(spec_u32_to_le_bytes(n as u32) == data.subrange(129, 133));
    assert(spec_u64_to_le_bytes(v.reward_amount_total) == data.subrange(97, 105));
    assert(spec_u64_to_le_bytes(v.reward_amount_per_nft) == data.subrange(105, 113));
    assert(spec_u64_to_le_bytes(v.amount_claimed) == data.subrange(113, 121));
    assert(spec_u64_to_le_bytes(i64_bits(v.start_ts)) == data.subrange(121, 129));
    assert(seq![flag_byte(v.is_initialized)] =~= data.subrange(0, 1));
    assert(v.bytes() =~= data.subrange(0, 165 + n));
}

/// A record that is kept as bytes in an account's slot.
pub trait Record: Sized {
    /// What a record says, as mathematical values.
    type Model;

    /// The model of this record.
    spec fn model(&self) -> Self::Model;

    /// The record's stored form.
    spec fn stored_form(m: Self::Model) -> Seq<u8>;

    /// Whether the record can be stored at all.
    spec fn storable(m: Self::Model) -> bool;

    /// The record that the front of `data` holds, if it holds one.
    spec fn parse(data: Seq<u8>) -> Option<Self::Model>;

    /// Reads a record from the front of `data`.
    fn decode(data: &[u8]) -> (r: Option<Self>)
        ensures
            r is Some <==> Self::parse(data@) is Some,
            r is Some ==> r->0.model() == Self::parse(data@)->0,
    ;

    /// The stored form of the record; `None` where it has none.
    fn encode(&self) -> (r: Option<Vec<u8>>)
        ensures
            r is Some <==> Self::storable(self.model()),
            r is Some ==> r->0@ == Self::stored_form(self.model()),
    ;
}

impl Record for DistributorAccount {
    type Model = DistributorView;

    open spec fn model(&self) -> DistributorView {
        self@
    }

    open spec fn stored_form(m: DistributorView) -> Seq<u8> {
        m.bytes()
    }

    open spec fn storable(m: DistributorView) -> bool {
        text_fits(m.collection_symbol)
    }

    open spec fn parse(data: Seq<u8>) -> Option<DistributorView> {
        parse_distributor(data)
    }

    fn decode(data: &[u8]) -> (r: Option<DistributorAccount>) {
        let len: usize = data.len();
        if len < 133 {
            return None;
        }
        let flag: u8 = data[0];
        if flag > 1 {
            return None;
        }
        let n: usize = read_u32(data, 129) as usize;
        if len - 133 < n || len - 133 - n < 32 {
            return None;
        }
        let symbol = match text_from_utf8(copy_range(data, 133, 133 + n)) {
            Some(text) => text,
            None => {
                return None;
            },
        };
        Some(
            DistributorAccount {
                is_initialized: flag == 1,
                authority: read_address(data, 1),
                reward_token_account: read_address(data, 33),
                reward_mint: read_address(data, 65),
                reward_amount_total: read_u64(data, 97),
                reward_amount_per_nft: read_u64(data, 105),
                amount_claimed: read_u64(data, 113),
                start_ts: i64_from_bits(read_u64(data, 121)),
                collection_symbol: symbol,
                collection_creator: read_address(data, 133 + n),
            },
        )
    }

    fn encode(&self) -> (r: Option<Vec<u8>>) {
        let mut out: Vec<u8> = Vec::new();
        out.push(if self.is_initialized { 1u8 } else { 0u8 });
        push_address(&mut out, &self.authority);
        push_address(&mut out, &self.reward_token_account);
        push_address(&mut out, &self.reward_mint);
        push_u64(&mut out, self.reward_amount_total);
        push_u64(&mut out, self.reward_amount_per_nft);
        push_u64(&mut out, self.amount_claimed);
        push_u64(&mut out, i64_to_bits(self.start_ts));
        if !push_text(&mut out, self.collection_symbol.as_str()) {
            return None;
        }
        push_address(&mut out, &self.collection_creator);
        assert(out@ =~= self@.bytes());
        Some(out)
    }
}

/// The receipt of one asset: whether its reward has been paid.
#[derive(Clone, Copy, Debug, PartialEq, Eq, Structural)]
pub struct ProofOfReceiptAccount {
    pub received_tokens: bool,
}

/// The receipt that the front of `data` holds; `None` where there is no
/// byte or the byte is no flag.
pub open spec fn parse_receipt(data: Seq<u8>) -> Option<ProofOfReceiptAccount> {
    if data.len() < 1 || data[0] > 1 {
        None
    } else {
        Some(ProofOfReceiptAccount { received_tokens: data[0] == 1 })
    }
}

/// The stored form of a receipt: its flag as one byte.
pub open spec fn receipt_bytes(r: ProofOfReceiptAccount) -> Seq<u8> {
    seq![flag_byte(r.received_tokens)]
}

/// Reading back a stored receipt gives the receipt that was stored.
pub proof fn parse_stored_receipt(r: ProofOfReceiptAccount, rest: Seq<u8>)
    ensures
        parse_receipt(receipt_bytes(r) + rest) == Some(r),
        receipt_bytes(r).len() == 1,
{
}

/// A slot of fresh, zeroed storage holds a receipt that is not yet paid.
pub proof fn fresh_receipt_is_unpaid()
    ensures
        parse_receipt(seq![0u8]) == Some(ProofOfReceiptAccount { received_tokens: false }),
{
}

impl Record for ProofOfReceiptAccount {
    type Model = ProofOfReceiptAccount;

    open spec fn model(&self) -> ProofOfReceiptAccount {
        *self
    }

    open spec fn stored_form(m: ProofOfReceiptAccount) -> Seq<u8> {
        receipt_bytes(m)
    }

    open spec fn storable(m: ProofOfReceiptAccount) -> bool {
        true
    }

    open spec fn parse(data: Seq<u8>) -> Option<ProofOfReceiptAccount> {
        parse_receipt(data)
    }

    fn decode(data: &[u8]) -> (r: Option<ProofOfReceiptAccount>) {
        if data.len() < 1 {
            return None;
        }
        let flag: u8 = data[0];
        if flag > 1 {
            return None;
        }
        Some(ProofOfReceiptAccount { received_tokens: flag == 1 })
    }

    fn encode(&self) -> (r: Option<Vec<u8>>) {
        let mut out: Vec<u8> = Vec::new();
        out.push(if self.received_tokens { 1u8 } else { 0u8 });
        assert(out@ =~= receipt_bytes(*self));
        Some(out)
    }
}

impl DistributorAccount {
    /// Reads a campaign's state from the account that holds it.
    pub fn from_account_info(a: &AccountInfo) -> (r: Result<DistributorAccount, Failure>)
        ensures
            r is Ok <==> checked_parse::<DistributorAccount>(
                a.data@,
                MAX_DISTRIBUTOR_DATA_LENGTH,
            ) is Ok,
            r is Ok ==> r->Ok_0@ == checked_parse::<DistributorAccount>(
                a.data@,
                MAX_DISTRIBUTOR_DATA_LENGTH,
            )->Ok_0,
            r is Err ==> r->Err_0 == checked_parse::<DistributorAccount>(
                a.data@,
                MAX_DISTRIBUTOR_DATA_LENGTH,
            )->Err_0,
    {
        try_from_slice_checked(a.data.as_slice(), MAX_DISTRIBUTOR_DATA_LENGTH)
    }
}

impl ProofOfReceiptAccount {
    /// Reads a receipt from the account that holds it.
    pub fn from_account_info(a: &AccountInfo) -> (r: Result<ProofOfReceiptAccount, Failure>)
        ensures
            r == checked_parse::<ProofOfReceiptAccount>(a.data@, PROOF_OF_RECEIPT_DATA_LENGTH),
    {
        try_from_slice_checked(a.data.as_slice(), PROOF_OF_RECEIPT_DATA_LENGTH)
    }
}

} // verus!
