//! The creator list of an NFT's provenance record, as the metadata
//! registry stores it.
use crate::key::Key;
use spl_token_metadata::state::{Key as RecordKind, Metadata, MAX_METADATA_LEN};
use vstd::prelude::*;

verus! {

/// One creator entry of an NFT's provenance record.
#[derive(Clone, Copy, Debug)]
pub struct Creator {
    pub address: Key,
    pub verified: bool,
}

/// The creators, as (address, verified) pairs, that the provenance record
/// stored in `data` lists; `None` where `data` is not a well-formed record
/// or lists no creators.
pub uninterp spec fn metadata_creators(data: Seq<u8>) -> Option<Seq<(Seq<u8>, bool)>>;

pub open spec fn creators_view(v: Seq<Creator>) -> Seq<(Seq<u8>, bool)> {
    v.map_values(|c: Creator| (c.address@, c.verified))
}

/// Relies on spl_token_metadata's `utils::try_from_slice_checked` with
/// `Key::MetadataV1` and `MAX_METADATA_LEN`, which is what
/// `Metadata::from_account_info` runs on an account's bytes: it refuses a
/// record of another kind or size and otherwise decodes it. It indexes the
/// first byte, so `data` must not be empty.
#[verifier::external_body]
fn decode_metadata_creators(data: &[u8]) -> (r: Option<Vec<Creator>>)
    requires
        data@.len() > 0,
    ensures
        match metadata_creators(data@) {
            Some(cs) => r matches Some(v) && creators_view(v@) == cs,
            None => r is None,
        },
{
    let kind = RecordKind::MetadataV1;
    match spl_token_metadata::utils::try_from_slice_checked::<Metadata>(data, kind, MAX_METADATA_LEN) {
        Ok(m) => m.data.creators.map(|cs| {
            cs.iter().map(|c| Creator { address: Key { bytes: c.address.to_bytes() }, verified: c.verified }).collect()
        }),
        Err(_) => None,
    }
}

/// What the provenance record's bytes give: no creators for an empty
/// account, else the registry's reading of them.
pub open spec fn provenance_of(data: Seq<u8>) -> Option<Seq<(Seq<u8>, bool)>> {
    if data.len() == 0 {
        None
    } else {
        metadata_creators(data)
    }
}

/// Reads the creator list of the provenance record stored in `data`.
pub fn read_provenance(data: &[u8]) -> (r: Option<Vec<Creator>>)
    ensures
        match provenance_of(data@) {
            Some(cs) => r matches Some(v) && creators_view(v@) == cs,
            None => r is None,
        },
{
    if data.len() == 0 {
        None
    } else {
        decode_metadata_creators(data)
    }
}

/// The first creator of a list, which names the NFT's collection.
pub open spec fn first_creator(c: Option<Seq<(Seq<u8>, bool)>>) -> Option<(Seq<u8>, bool)> {
    match c {
        Some(v) => if v.len() > 0 {
            Some(v[0])
        } else {
            None
        },
        None => None,
    }
}

/// The first creator of the provenance record stored in `data`.
pub fn first_of(data: &[u8]) -> (r: Option<Creator>)
    ensures
        match first_creator(provenance_of(data@)) {
            Some((a, f)) => r matches Some(c) && c.address@ == a && c.verified == f,
            None => r is None,
        },
{
    match read_provenance(data) {
        Some(v) => {
            if v.len() > 0 {
                proof {
                    assert(creators_view(v@)[0] == (v@[0].address@, v@[0].verified));
                }
                Some(v[0])
            } else {
                None
            }
        },
        None => None,
    }
}

} // verus!
