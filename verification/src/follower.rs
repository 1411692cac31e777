//! A follower of a feed, and where deliveries for it go.
use vstd::prelude::*;
use vstd::std_specs::cmp::PartialEqSpecImpl;
use crate::error::DeliveryError;

verus! {

/// An instant: seconds since the Unix epoch and the nanoseconds past that
/// second.
#[derive(Debug, Clone, Copy, PartialEq, Eq, Structural)]
pub struct Timestamp {
    pub secs: i64,
    pub nanos: u32,
}

/// An actor that follows a feed.
#[derive(Debug)]
pub struct Follower {
    pub id: i64,
    pub feed_id: i64,
    /// The actor's address.
    pub actor: String,
    pub created_at: Timestamp,
    pub updated_at: Timestamp,
}

impl PartialEq for Follower {
    /// Followers are the same when their identifiers are, whatever else
    /// they hold.
    fn eq(&self, other: &Self) -> (same: bool) {
        self.id == other.id
    }
}

impl PartialEqSpecImpl for Follower {
    open spec fn obeys_eq_spec() -> bool {
        true
    }

    open spec fn eq_spec(&self, other: &Self) -> bool {
        self.id == other.id
    }
}

/// The path that is appended to an actor's address to reach its inbox.
pub open spec fn inbox_suffix() -> Seq<char> {
    "/inbox"@
}

/// The inbox of the actor at `actor`: the address with `/inbox` appended.
pub open spec fn inbox_of(actor: Seq<char>) -> Seq<char> {
    actor + inbox_suffix()
}

impl Follower {
    /// Resolves the address that accepts deliveries for this follower: the
    /// actor's address with `/inbox` appended. No request is made, and the
    /// call never fails.
    pub fn find_inbox(&self) -> (inbox: Result<String, DeliveryError>)
        ensures
            inbox matches Ok(uri) && uri@ == inbox_of(self.actor@),
    {
        let mut uri: String = self.actor.clone();
        uri.append("/inbox");
        Ok(uri)
    }
}

} // verus!
