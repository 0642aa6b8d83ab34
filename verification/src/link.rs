use vstd::prelude::*;

use crate::clock::DefaultInstant;
use crate::url_record::ParsedUrl;

verus! {

/// Relies on `rand::random`: a uniformly sampled value, so nothing is
/// promised of it.
#[verifier::external_body]
fn random_id() -> u64 {
    rand::random()
}

/// A stored link: an id, the origin and target URLs, and the instants the
/// record was created and last updated. Stores hand out copies of it, never
/// references into their own state.
#[derive(Debug)]
pub struct Link {
    pub id: u64,
    pub origin: ParsedUrl,
    pub target: ParsedUrl,
    pub created_at: DefaultInstant,
    pub updated_at: DefaultInstant,
}

impl Clone for Link {
    fn clone(&self) -> (r: Self)
        ensures
            r == *self,
    {
        Link {
            id: self.id,
            origin: self.origin.clone(),
            target: self.target.clone(),
            created_at: self.created_at.clone(),
            updated_at: self.updated_at.clone(),
        }
    }
}

impl Default for Link {
    /// A placeholder record: a randomly drawn id, equal placeholder origin
    /// and target, and both timestamps taken now. Not an id allocator: the
    /// draw has no collision handling.
    fn default() -> (r: Self)
        ensures
            r.origin == r.target,
    {
        let origin = match ParsedUrl::parse("https://example.com") {
            Some(u) => u,
            None => ParsedUrl {
                text: "https://example.com/".to_owned(),
                host: Some("example.com".to_owned()),
            },
        };
        let target = origin.clone();
        Link {
            id: random_id(),
            origin,
            target,
            created_at: DefaultInstant::default(),
            updated_at: DefaultInstant::default(),
        }
    }
}

} // verus!
