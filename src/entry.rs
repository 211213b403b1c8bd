//! Reading a cached branch detail: an entry is served only when it was read
//! and decodes.
use vstd::prelude::*;
use codecov::branch_detail::BranchDetailAPIResponse;
use crate::fetch::CacheRead;

verus! {

#[verifier::external_type_specification]
#[verifier::external_body]
pub struct ExBranchDetailAPIResponse(BranchDetailAPIResponse);

/// Whether these bytes decode, as JSON, to a branch detail.
pub uninterp spec fn decodes_as_branch_detail(b: Seq<u8>) -> bool;

/// Relies on serde_json::from_slice with codecov's `Deserialize` for
/// `BranchDetailAPIResponse`: whether it succeeds depends on the bytes alone.
#[verifier::external_body]
fn decode_branch_detail(data: &[u8]) -> (r: Option<BranchDetailAPIResponse>)
    ensures
        r is Some <==> decodes_as_branch_detail(data@),
{
    serde_json::from_slice::<BranchDetailAPIResponse>(data).ok()
}

/// Why an entry could not be read.
#[derive(PartialEq, Eq, Structural, Clone, Copy, Debug)]
pub enum LoadError {
    /// There is no entry under the key.
    NotFound,
    /// The entry could not be read for another reason.
    Io,
}

/// What reading an entry gave: how the fetcher is to take it, and the decoded
/// detail where there is one. A failure to read or decode is a miss, never an
/// error.
pub fn read_cached_entry(loaded: Result<Vec<u8>, LoadError>) -> (r: (
    CacheRead,
    Option<BranchDetailAPIResponse>,
))
    ensures
        (r.0 is Decoded) <==> r.1 is Some,
        match loaded {
            Err(LoadError::NotFound) => r.0 is Missing,
            Err(LoadError::Io) => r.0 is Unreadable,
            Ok(b) => if decodes_as_branch_detail(b@) {
                r.0 is Decoded
            } else {
                r.0 is Undecodable
            },
        },
{
    match loaded {
        Err(LoadError::NotFound) => (CacheRead::Missing, None),
        Err(LoadError::Io) => (CacheRead::Unreadable, None),
        Ok(b) => match decode_branch_detail(b.as_slice()) {
            Some(detail) => (CacheRead::Decoded, Some(detail)),
            None => (CacheRead::Undecodable, None),
        },
    }
}

} // verus!
