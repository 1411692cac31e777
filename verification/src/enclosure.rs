//! A file attached to a feed item.
use vstd::prelude::*;
use vstd::std_specs::cmp::PartialEqSpecImpl;
use crate::follower::Timestamp;

verus! {

/// An enclosure of a feed item.
#[derive(Debug)]
pub struct Enclosure {
    pub id: i32,
    pub item_id: i32,
    pub url: String,
    pub content_type: Option<String>,
    pub size: Option<i32>,
    pub created_at: Timestamp,
    pub updated_at: Timestamp,
}

impl PartialEq for Enclosure {
    /// Enclosures are the same when their identifiers are, or when they
    /// attach the same address to the same item.
    fn eq(&self, other: &Self) -> (same: bool) {
        self.id == other.id || (self.item_id == other.item_id && self.url == other.url)
    }
}

impl PartialEqSpecImpl for Enclosure {
    open spec fn obeys_eq_spec() -> bool {
        true
    }

    open spec fn eq_spec(&self, other: &Self) -> bool {
        self.id == other.id || (self.item_id == other.item_id && self.url@ == other.url@)
    }
}

} // verus!
