use std::collections::HashMap;
use vstd::prelude::*;

use crate::error::LinkError;
use crate::link::Link;

verus! {

broadcast use vstd::std_specs::hash::group_hash_axioms;

/// The capability set of a link store: read, insert, replace and remove
/// records keyed by id. `links` is the abstract contents a backend holds;
/// every operation is stated against it.
pub trait LinkStore: Sized {
    spec fn links(&self) -> Map<u64, Link>;

    /// A copy of the record under `id`, or nothing; absence is a normal
    /// result, not an error.
    fn get(&self, id: u64) -> (r: Option<Link>)
        ensures
            match r {
                Some(l) => self.links().contains_key(id) && l == self.links()[id],
                None => !self.links().contains_key(id),
            },
    ;

    /// Insert `link` under its own id, overwriting any record already there
    /// (upsert); always succeeds.
    fn create(&mut self, link: Link) -> (r: Result<(), LinkError>)
        ensures
            r == Ok::<(), LinkError>(()),
            final(self).links() == old(self).links().insert(link.id, link),
    ;

    /// Replace the record under `id` wholesale. Fails with `NotFound`, the
    /// contents unchanged, exactly when `id` is absent.
    fn update(&mut self, id: u64, link: Link) -> (r: Result<(), LinkError>)
        ensures
            old(self).links().contains_key(id) ==> {
                &&& r == Ok::<(), LinkError>(())
                &&& final(self).links() == old(self).links().insert(id, link)
            },
            !old(self).links().contains_key(id) ==> {
                &&& r == Err::<(), LinkError>(LinkError::NotFound)
                &&& final(self).links() == old(self).links()
            },
    ;

    /// Remove the record under `id`. Fails with `NotFound`, the contents
    /// unchanged, exactly when `id` is absent.
    fn delete(&mut self, id: u64) -> (r: Result<(), LinkError>)
        ensures
            old(self).links().contains_key(id) ==> {
                &&& r == Ok::<(), LinkError>(())
                &&& final(self).links() == old(self).links().remove(id)
            },
            !old(self).links().contains_key(id) ==> {
                &&& r == Err::<(), LinkError>(LinkError::NotFound)
                &&& final(self).links() == old(self).links()
            },
    ;
}

/// The reference backend: one owned mapping from id to record. A concurrent
/// front end shares one value of this type behind one exclusive lock, so
/// every operation below is a whole critical section.
#[derive(Debug)]
pub struct InMemoryLinkStore {
    pub entries: HashMap<u64, Link>,
}

impl InMemoryLinkStore {
    /// An empty store.
    pub fn new() -> (r: Self)
        ensures
            r.links() == Map::<u64, Link>::empty(),
    {
        InMemoryLinkStore { entries: HashMap::new() }
    }
}

impl Default for InMemoryLinkStore {
    /// An empty store.
    fn default() -> (r: Self)
        ensures
            r.links() == Map::<u64, Link>::empty(),
    {
        InMemoryLinkStore::new()
    }
}

impl LinkStore for InMemoryLinkStore {
    open spec fn links(&self) -> Map<u64, Link> {
        self.entries@
    }

    fn get(&self, id: u64) -> (r: Option<Link>) {
        match self.entries.get(&id) {
            Some(l) => Some(l.clone()),
            None => None,
        }
    }

    fn create(&mut self, link: Link) -> (r: Result<(), LinkError>) {
        let id = link.id;
        self.entries.insert(id, link);
        Ok(())
    }

    fn update(&mut self, id: u64, link: Link) -> (r: Result<(), LinkError>) {
        if self.entries.contains_key(&id) {
            self.entries.insert(id, link);
            Ok(())
        } else {
            Err(LinkError::NotFound)
        }
    }

    fn delete(&mut self, id: u64) -> (r: Result<(), LinkError>) {
        match self.entries.remove(&id) {
            Some(_) => Ok(()),
            None => Err(LinkError::NotFound),
        }
    }
}

/// Law: creating a record and then reading its id yields that record.
pub proof fn lemma_create_then_get(links: Map<u64, Link>, link: Link)
    ensures
        links.insert(link.id, link).contains_key(link.id),
        links.insert(link.id, link)[link.id] == link,
{
}

/// Law: after a delete, the deleted id reads back as absent.
pub proof fn lemma_delete_then_get(links: Map<u64, Link>, id: u64)
    ensures
        !links.remove(id).contains_key(id),
{
}

/// Law: two creates under one id leave the second record, and it alone, in
/// place of the first (upsert).
pub proof fn lemma_create_overwrites(links: Map<u64, Link>, first: Link, second: Link)
    requires
        first.id == second.id,
    ensures
        links.insert(first.id, first).insert(second.id, second) == links.insert(
            second.id,
            second,
        ),
        links.insert(first.id, first).insert(second.id, second)[second.id] == second,
{
    assert(links.insert(first.id, first).insert(second.id, second) =~= links.insert(
        second.id,
        second,
    ));
}

/// The contents after records are created in order: each inserted under its
/// own id, earliest first.
pub open spec fn create_all(links: Map<u64, Link>, records: Seq<Link>) -> Map<u64, Link>
    decreases records.len(),
{
    if records.len() == 0 {
        links
    } else {
        create_all(links, records.drop_last()).insert(records.last().id, records.last())
    }
}

/// Law: creates of records with pairwise distinct ids lose none of them —
/// whatever the order the store served them in, every record is afterwards
/// retrievable under its own id.
pub proof fn lemma_distinct_creates_all_retrievable(links: Map<u64, Link>, records: Seq<Link>)
    requires
        forall|i: int, j: int|
            0 <= i < j < records.len() ==> #[trigger] records[i].id != #[trigger] records[j].id,
    ensures
        forall|i: int|
            0 <= i < records.len() ==> {
                &&& create_all(links, records).contains_key(#[trigger] records[i].id)
                &&& create_all(links, records)[records[i].id] == records[i]
            },
    decreases records.len(),
{
    if records.len() > 0 {
        let prefix = records.drop_last();
        lemma_distinct_creates_all_retrievable(links, prefix);
        assert forall|i: int| 0 <= i < records.len() implies {
            &&& create_all(links, records).contains_key(#[trigger] records[i].id)
            &&& create_all(links, records)[records[i].id] == records[i]
        } by {
            if i < records.len() - 1 {
                assert(prefix[i] == records[i]);
                assert(records[i].id != records[records.len() - 1].id);
            }
        }
    }
}

} // verus!
