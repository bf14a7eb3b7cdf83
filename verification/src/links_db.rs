//! The link store: what it answers, what holds of its links at all times,
//! and a store that keeps its links in memory.

use vstd::prelude::*;
use crate::model::{Link, LinkView};

verus! {

/// What a store answers to the request to insert a link.
#[derive(Clone, Copy, Debug, PartialEq, Eq)]
pub enum InsertReply {
    /// The link is stored.
    Inserted,
    /// A stored link has the same short code; nothing was stored.
    UniqueViolation,
    /// Any other fault of the store; nothing was stored.
    Failed,
}

/// What a store answers to the request to count its links.
#[derive(Clone, Copy, Debug, PartialEq, Eq)]
pub enum CountReply {
    Count(i64),
    Failed,
}

/// What a store answers to the request for the link under a short code.
#[derive(Debug, PartialEq, Eq)]
pub enum FetchReply {
    Row(Link),
    Missing,
    Failed,
}

/// The code under which SQLite reports that a unique index refused a row.
pub const UNIQUE_VIOLATION_CODE: &'static str = "2067";

/// What a failed insert means, by the code that the database gave for it, if
/// it gave one: only the unique index counts as a collision.
pub open spec fn failure_verdict(code: Option<Seq<char>>) -> InsertReply {
    if code == Some(UNIQUE_VIOLATION_CODE@) {
        InsertReply::UniqueViolation
    } else {
        InsertReply::Failed
    }
}

/// The code of a database error, by its text.
pub open spec fn code_view(code: Option<&str>) -> Option<Seq<char>> {
    match code {
        Some(text) => Some(text@),
        None => None,
    }
}

/// Tells a collision from any other fault of the store. `code` is what the
/// database gave as the error's code; a fault that is not the database's own
/// has none.
pub fn classify_failure(code: Option<&str>) -> (reply: InsertReply)
    ensures
        reply == failure_verdict(code_view(code)),
{
    match code {
        Some(text) => {
            if text.to_owned() == UNIQUE_VIOLATION_CODE.to_owned() {
                InsertReply::UniqueViolation
            } else {
                InsertReply::Failed
            }
        },
        None => InsertReply::Failed,
    }
}

/// Some stored link has this short code.
pub open spec fn has_code(links: Seq<LinkView>, code: Seq<char>) -> bool {
    exists|i: int| 0 <= i < links.len() && (#[trigger] links[i]).short == code
}

/// Some stored link has this record identifier.
pub open spec fn has_id(links: Seq<LinkView>, id: Seq<char>) -> bool {
    exists|i: int| 0 <= i < links.len() && (#[trigger] links[i]).uuid == id
}

/// No two stored links share a short code.
pub open spec fn codes_distinct(links: Seq<LinkView>) -> bool {
    forall|i: int, j: int|
        0 <= i < j < links.len() ==> (#[trigger] links[i]).short != (#[trigger] links[j]).short
}

/// No two stored links share a record identifier.
pub open spec fn ids_distinct(links: Seq<LinkView>) -> bool {
    forall|i: int, j: int|
        0 <= i < j < links.len() ==> (#[trigger] links[i]).uuid != (#[trigger] links[j]).uuid
}

/// What every store holds at all times: the record identifier is its key, and
/// the short code is unique.
pub open spec fn store_ok(links: Seq<LinkView>) -> bool {
    codes_distinct(links) && ids_distinct(links)
}

/// The answer to an insert. A record identifier that is already stored is a
/// fault of its own; only a short code that is taken counts as a unique
/// violation.
pub open spec fn insert_verdict(links: Seq<LinkView>, link: LinkView) -> InsertReply {
    if has_id(links, link.uuid) {
        InsertReply::Failed
    } else if has_code(links, link.short) {
        InsertReply::UniqueViolation
    } else {
        InsertReply::Inserted
    }
}

/// The store after an insert that was answered with `reply`.
pub open spec fn store_after(links: Seq<LinkView>, link: LinkView, reply: InsertReply) -> Seq<
    LinkView,
> {
    if reply is Inserted {
        links.push(link)
    } else {
        links
    }
}

/// The link that is stored under a short code, if there is one.
pub open spec fn find_code(links: Seq<LinkView>, code: Seq<char>) -> Option<LinkView> {
    if has_code(links, code) {
        Some(links[choose|i: int| 0 <= i < links.len() && (#[trigger] links[i]).short == code])
    } else {
        None
    }
}

/// An insert that the store accepts keeps it in order.
pub proof fn lemma_insert_keeps_store_ok(links: Seq<LinkView>, link: LinkView)
    requires
        store_ok(links),
    ensures
        store_ok(store_after(links, link, insert_verdict(links, link))),
{
    let after = store_after(links, link, insert_verdict(links, link));
    if insert_verdict(links, link) is Inserted {
        // Two links of old differ as before; an old link and the new one
        // differ because neither the code nor the identifier was taken.
        assert forall|i: int, j: int| 0 <= i < j < after.len() implies (#[trigger] after[i]).short
            != (#[trigger] after[j]).short && after[i].uuid != after[j].uuid by {
            assert(after[i] == links[i]);
        }
    }
}

/// In a store that is in order, a link is found under its own short code.
pub proof fn lemma_find_stored(links: Seq<LinkView>, at: int)
    requires
        codes_distinct(links),
        0 <= at < links.len(),
    ensures
        find_code(links, links[at].short) == Some(links[at]),
{
    let code = links[at].short;
    let chosen = choose|i: int| 0 <= i < links.len() && (#[trigger] links[i]).short == code;
    assert(chosen == at);
}

/// A link store held in memory, in the order in which the links came.
pub struct LinkStore {
    links: Vec<Link>,
}

impl View for LinkStore {
    type V = Seq<LinkView>;

    closed spec fn view(&self) -> Seq<LinkView> {
        self.links@.map_values(|link: Link| link@)
    }
}

impl LinkStore {
    #[verifier::type_invariant]
    spec fn in_order(self) -> bool {
        store_ok(self@)
    }

    /// An empty store.
    pub fn new() -> (store: LinkStore)
        ensures
            store@ == Seq::<LinkView>::empty(),
    {
        LinkStore { links: Vec::new() }
    }

    /// The number of stored links.
    pub fn count(&self) -> (n: usize)
        ensures
            n == self@.len(),
            store_ok(self@),
    {
        proof {
            use_type_invariant(self);
        }
        self.links.len()
    }

    /// Where the link with this short code stands.
    fn position_of_code(&self, code: &String) -> (at: Option<usize>)
        ensures
            match at {
                Some(i) => i < self@.len() && self@[i as int].short == code@,
                None => !has_code(self@, code@),
            },
    {
        let mut i: usize = 0;
        while i < self.links.len()
            invariant
                i <= self.links.len(),
                forall|j: int| 0 <= j < i ==> (#[trigger] self@[j]).short != code@,
            decreases self.links.len() - i,
        {
            if self.links[i].short == *code {
                return Some(i);
            }
            i += 1;
        }
        None
    }

    /// Whether a link with this record identifier is stored.
    fn holds_id(&self, id: &String) -> (held: bool)
        ensures
            held == has_id(self@, id@),
    {
        let mut i: usize = 0;
        while i < self.links.len()
            invariant
                i <= self.links.len(),
                forall|j: int| 0 <= j < i ==> (#[trigger] self@[j]).uuid != id@,
            decreases self.links.len() - i,
        {
            if self.links[i].uuid == *id {
                assert(self@[i as int].uuid == id@);
                return true;
            }
            i += 1;
        }
        false
    }

    /// Stores a link unless its record identifier or its short code is taken.
    pub fn insert_unique(&mut self, link: Link) -> (reply: InsertReply)
        ensures
            reply == insert_verdict(old(self)@, link@),
            final(self)@ == store_after(old(self)@, link@, reply),
            store_ok(final(self)@),
    {
        proof {
            use_type_invariant(&*self);
            lemma_insert_keeps_store_ok(self@, link@);
        }
        if self.holds_id(&link.uuid) {
            return InsertReply::Failed;
        }
        if self.position_of_code(&link.short).is_some() {
            return InsertReply::UniqueViolation;
        }
        let ghost before = self@;
        // The links are taken out for the push and put back after it.
        let mut links: Vec<Link> = Vec::new();
        std::mem::swap(&mut links, &mut self.links);
        links.push(link);
        assert(links@.map_values(|link: Link| link@) =~= before.push(link@));
        self.links = links;
        InsertReply::Inserted
    }

    /// The link that is stored under a short code.
    pub fn get(&self, short: &str) -> (found: Option<Link>)
        ensures
            match found {
                Some(link) => find_code(self@, short@) == Some(link@),
                None => find_code(self@, short@) is None,
            },
            store_ok(self@),
    {
        proof {
            use_type_invariant(self);
        }
        let code = short.to_owned();
        match self.position_of_code(&code) {
            Some(at) => {
                proof {
                    lemma_find_stored(self@, at as int);
                }
                Some(self.links[at].clone())
            },
            None => None,
        }
    }

    /// All stored links, in the order in which they came.
    pub fn list(&self) -> (all: Vec<Link>)
        ensures
            all@.map_values(|link: Link| link@) == self@,
            store_ok(self@),
    {
        proof {
            use_type_invariant(self);
        }
        let mut all: Vec<Link> = Vec::new();
        let mut i: usize = 0;
        while i < self.links.len()
            invariant
                i <= self.links.len(),
                all@ == self.links@.take(i as int),
            decreases self.links.len() - i,
        {
            all.push(self.links[i].clone());
            i += 1;
        }
        all
    }
}

} // verus!
