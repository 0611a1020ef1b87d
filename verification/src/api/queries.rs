//! Query parameters of the internal lookup endpoints.
use vstd::prelude::*;

verus! {

/// `?card_number=` of the segment lookup.
#[derive(Debug)]
pub struct SegmentQuery {
    pub card_number: String,
}

/// `?user_uuid=` of the The1 account lookup.
#[derive(Debug, Clone, Copy)]
pub struct The1AccountQuery {
    pub user_uuid: u128,
}

} // verus!
