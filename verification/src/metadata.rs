//! The asset registry as the distributor meets it: who is listed as
//! creator of an asset.

use vstd::prelude::*;
use spl_token_metadata::state::{Key, Metadata, MAX_METADATA_LEN};
use crate::address::Address;

verus! {

/// What the registry's own reader makes of a metadata record's bytes: the
/// addresses on its creator list, in order (`None` where the record has no
/// such list), or the code of the failure it reports.
pub uninterp spec fn metadata_creators(data: Seq<u8>) -> Result<Option<Seq<Address>>, u64>;

/// `try_from_slice_checked` of spl_token_metadata's `utils`, for a record
/// of the kind `MetadataV1` and of the registry's record size, which is
/// what `Metadata::from_account_info` does with an account's bytes: what it
/// returns is a function of the bytes alone. Of the record it reads, the
/// addresses on the creator list are handed on; a failure is handed on as
/// its numeric code. The outside function looks at the first byte before
/// anything else, so there must be one.
#[verifier::external_body]
pub(crate) fn read_creators(data: &[u8]) -> (r: Result<Option<Vec<Address>>, u64>)
    requires
        data@.len() > 0,
    ensures
        match r {
            Ok(Some(list)) => metadata_creators(data@) == Ok::<Option<Seq<Address>>, u64>(
                Some(list@),
            ),
            Ok(None) => metadata_creators(data@) == Ok::<Option<Seq<Address>>, u64>(None),
            Err(code) => metadata_creators(data@) == Err::<Option<Seq<Address>>, u64>(code),
        },
{
    let read: Result<Metadata, _> = spl_token_metadata::utils::try_from_slice_checked(
        data,
        Key::MetadataV1,
        MAX_METADATA_LEN,
    );
    match read {
        Ok(record) => Ok(
            record.data.creators.map(
                |list| list.iter().map(|c| Address { bytes: c.address.to_bytes() }).collect(),
            ),
        ),
        Err(error) => Err(u64::from(error)),
    }
}

} // verus!
