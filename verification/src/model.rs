//! Links, the rules for their targets, and the link service.

use vstd::prelude::*;
use vstd::utf8::encode_utf8;
use crate::allocation::{
    after_count, after_insert, all_collide, allocate, candidate_link, capacity_verdict,
    first_step, lemma_allocate_errors, lemma_allocate_skips, lemma_allocated_link, next_step,
    AttemptView, CreateRequest, Progress, MAX_CREATE_TRIES, MAX_LINKS,
};
use crate::error::Error;
use crate::links_db::{
    find_code, has_code, has_id, insert_verdict, lemma_find_stored, lemma_insert_keeps_store_ok,
    store_ok, CountReply, FetchReply, LinkStore,
};
use crate::pattern::{regex_is_match, regex_match};
use crate::short_code::is_version_7;

verus! {

/// Maximum length of a target URL in bytes. URLs may be longer than this, but
/// most CDNs refuse them.
pub const MAX_URL_LENGTH: usize = 3072;

/// The pattern that a target must match: only http and https links are taken.
pub const TARGET_PATTERN: &'static str = "^(?i)https?://";

/// A stored mapping from a short code to a target URL.
#[derive(Debug, PartialEq, Eq)]
pub struct Link {
    /// The record identifier, in its hyphenated text form.
    pub uuid: String,
    /// The short code.
    pub short: String,
    /// The URL that the short code stands for.
    pub target: String,
}

/// What a client sends to have a link made.
#[derive(Debug, PartialEq, Eq)]
pub struct LinkForCreate {
    pub target: String,
}

/// A link as three texts.
pub struct LinkView {
    pub uuid: Seq<char>,
    pub short: Seq<char>,
    pub target: Seq<char>,
}

impl View for Link {
    type V = LinkView;

    open spec fn view(&self) -> LinkView {
        LinkView { uuid: self.uuid@, short: self.short@, target: self.target@ }
    }
}

impl Clone for Link {
    fn clone(&self) -> (copy: Link)
        ensures
            copy == *self,
    {
        Link { uuid: self.uuid.clone(), short: self.short.clone(), target: self.target.clone() }
    }
}

/// The number of bytes that a text takes in UTF-8.
pub open spec fn byte_len(text: Seq<char>) -> nat {
    encode_utf8(text).len()
}

/// The first two rules for a target: it is not empty, and it is no longer
/// than `MAX_URL_LENGTH` bytes.
pub open spec fn size_verdict(target: Seq<char>) -> Result<(), Error> {
    if target.len() == 0 {
        Err(Error::LinkCreateFailedEmptyTarget)
    } else if byte_len(target) > MAX_URL_LENGTH {
        Err(Error::LinkCreateFailedTargetTooLong)
    } else {
        Ok(())
    }
}

/// The third rule, given what the search for `TARGET_PATTERN` answered.
pub open spec fn protocol_verdict(found: Option<bool>) -> Result<(), Error> {
    if found == Some(true) {
        Ok(())
    } else {
        Err(Error::LinkCreateFailedBadProtocol)
    }
}

/// The three rules in their order; the first that fails names the error.
pub open spec fn target_verdict(target: Seq<char>) -> Result<(), Error> {
    match size_verdict(target) {
        Err(e) => Err(e),
        Ok(_) => protocol_verdict(regex_match(TARGET_PATTERN@, target)),
    }
}

/// A target that a link may carry.
pub open spec fn valid_target(target: Seq<char>) -> bool {
    target_verdict(target) is Ok
}

/// Rejects the empty target and the one that is too long.
pub fn check_size(target: &str) -> (verdict: Result<(), Error>)
    ensures
        verdict == size_verdict(target@),
{
    if target.is_empty() {
        return Err(Error::LinkCreateFailedEmptyTarget);
    }
    if target.as_bytes().len() > MAX_URL_LENGTH {
        return Err(Error::LinkCreateFailedTargetTooLong);
    }
    Ok(())
}

/// Rejects the target in which the pattern was not found.
pub fn check_protocol(found: Option<bool>) -> (verdict: Result<(), Error>)
    ensures
        verdict == protocol_verdict(found),
{
    match found {
        Some(true) => Ok(()),
        _ => Err(Error::LinkCreateFailedBadProtocol),
    }
}

/// Checks a target against the three rules, in their order. The pattern is
/// searched for only in a target that passed the first two.
pub fn validate_target(target: &str) -> (verdict: Result<(), Error>)
    ensures
        verdict == target_verdict(target@),
        verdict is Ok <==> valid_target(target@),
{
    match check_size(target) {
        Err(e) => Err(e),
        Ok(_) => check_protocol(regex_is_match(TARGET_PATTERN, target)),
    }
}

/// A link, or the error that stands in its place, by its view.
pub open spec fn result_view(result: Result<Link, Error>) -> Result<LinkView, Error> {
    match result {
        Ok(link) => Ok(link@),
        Err(e) => Err(e),
    }
}

/// Every stored target has passed validation.
pub open spec fn targets_valid(links: Seq<LinkView>) -> bool {
    forall|i: int| 0 <= i < links.len() ==> valid_target((#[trigger] links[i]).target)
}

/// What holds of the links of a controller at all times: short codes and record
/// identifiers are unique, every target is valid, and there are no more links
/// than `MAX_LINKS`.
pub open spec fn links_ok(links: Seq<LinkView>) -> bool {
    store_ok(links) && targets_valid(links) && links.len() <= MAX_LINKS
}

/// How a request to create a link for `target` ends on the links `before`, and
/// which links there are `after` it. The target is validated first, then the
/// number of links is held against the limit; neither failure changes
/// anything. After that the result is that of `allocate` on the identifiers
/// that were drawn, and only a link that was made is added.
pub open spec fn create_outcome(
    before: Seq<LinkView>,
    target: Seq<char>,
    result: Result<LinkView, Error>,
    after: Seq<LinkView>,
) -> bool {
    &&& after == match result {
        Ok(link) => before.push(link),
        Err(_) => before,
    }
    &&& match target_verdict(target) {
        Err(e) => result == Err::<LinkView, Error>(e),
        Ok(_) => match capacity_verdict(before.len() as int) {
            Err(e) => result == Err::<LinkView, Error>(e),
            Ok(_) => exists|ids: Seq<Seq<u8>>| result == #[trigger] allocate(before, target, ids, 0),
        },
    }
}

/// What a lookup of `code` gives on the links `links`.
pub open spec fn get_outcome(links: Seq<LinkView>, code: Seq<char>) -> Result<LinkView, Error> {
    match find_code(links, code) {
        Some(link) => Ok(link),
        None => Err(Error::LinkGetNoSuchLink),
    }
}

/// What a lookup gives once the store has answered.
pub open spec fn fetch_outcome(reply: FetchReply) -> Result<LinkView, Error> {
    match reply {
        FetchReply::Row(link) => Ok(link@),
        FetchReply::Missing => Err(Error::LinkGetNoSuchLink),
        FetchReply::Failed => Err(Error::LinkGetDBError),
    }
}

/// Turns the store's answer to a lookup into the result of the request: the
/// row that was found, the absence of a row, or a fault of the store.
pub fn fetched(reply: FetchReply) -> (result: Result<Link, Error>)
    ensures
        result_view(result) == fetch_outcome(reply),
{
    match reply {
        FetchReply::Row(link) => Ok(link),
        FetchReply::Missing => Err(Error::LinkGetNoSuchLink),
        FetchReply::Failed => Err(Error::LinkGetDBError),
    }
}

/// The link service: the one entry point for creating, getting and listing
/// links. It holds nothing but its store.
pub struct ModelController {
    store: LinkStore,
}

impl View for ModelController {
    type V = Seq<LinkView>;

    closed spec fn view(&self) -> Seq<LinkView> {
        self.store@
    }
}

impl ModelController {
    #[verifier::type_invariant]
    closed spec fn well_kept(self) -> bool {
        links_ok(self.store@)
    }

    /// A controller over an empty store.
    pub fn new() -> (made: Result<ModelController, Error>)
        ensures
            made matches Ok(mc) && mc@ == Seq::<LinkView>::empty(),
    {
        Ok(ModelController { store: LinkStore::new() })
    }

    /// Adds a new short link. The target is validated, then the number of
    /// links is held against the limit, then candidates under fresh
    /// identifiers are inserted until the store accepts one, a fault of the
    /// store ends the request, or the tries are used up.
    pub fn create_link(&mut self, link_fc: LinkForCreate) -> (result: Result<Link, Error>)
        ensures
            create_outcome(old(self)@, link_fc.target@, result_view(result), final(self)@),
            result matches Ok(link) ==> link@.target == link_fc.target@ && insert_verdict(
                old(self)@,
                link@,
            ) is Inserted,
            links_ok(final(self)@),
    {
        proof {
            use_type_invariant(&*self);
        }
        let ghost before = self@;
        let ghost target = link_fc.target@;
        let request = match CreateRequest::new(link_fc) {
            Ok(request) => request,
            Err(e) => {
                return Err(e);
            },
        };
        let reply = CountReply::Count(self.store.count() as i64);
        let mut attempt = match after_count(request, reply) {
            Ok(attempt) => attempt,
            Err(e) => {
                return Err(e);
            },
        };
        // The identifiers drawn so far. All but the last gave a candidate
        // whose short code was taken; the last is under way.
        let ghost mut ids: Seq<Seq<u8>> = seq![
            choose|fresh: Seq<u8>|
                is_version_7(fresh) && Ok::<AttemptView, Error>(attempt@) == #[trigger] first_step(
                    target,
                    reply,
                    fresh,
                ),
        ];
        loop
            invariant
                before == old(self)@,
                target == link_fc.target@,
                self@ == before,
                store_ok(before),
                targets_valid(before),
                before.len() < MAX_LINKS,
                target_verdict(target) is Ok,
                ids.len() == attempt@.collisions + 1,
                attempt@.collisions < MAX_CREATE_TRIES,
                attempt@.link == candidate_link(ids[ids.len() - 1], target),
                all_collide(before, target, ids, attempt@.collisions),
            decreases MAX_CREATE_TRIES - attempt@.collisions,
        {
            let ghost tried = attempt@;
            let link = attempt.link().clone();
            // The store is taken out for the insert and put back after it.
            let mut store = LinkStore::new();
            std::mem::swap(&mut store, &mut self.store);
            let reply = store.insert_unique(link);
            proof {
                lemma_allocate_skips(before, target, ids, tried.collisions);
            }
            self.store = store;
            let progress = after_insert(attempt, reply);
            let ghost fresh = choose|fresh: Seq<u8>|
                is_version_7(fresh) && progress@ == #[trigger] next_step(tried, reply, fresh);
            match progress {
                Progress::Created(link) => {
                    return Ok(link);
                },
                Progress::Failed(e) => {
                    assert(allocate(before, target, ids, tried.collisions) == Err::<
                        LinkView,
                        Error,
                    >(e)) by {
                        if reply is UniqueViolation {
                            assert(allocate(before, target, ids, tried.collisions + 1) is Err);
                        }
                    }
                    return Err(e);
                },
                Progress::Insert(next) => {
                    proof {
                        let longer = ids.push(fresh);
                        assert forall|j: int| 0 <= j < next@.collisions implies insert_verdict(
                            before,
                            #[trigger] candidate_link(longer[j], target),
                        ) is UniqueViolation by {
                            assert(longer[j] == ids[j]);
                        }
                        ids = longer;
                    }
                    attempt = next;
                },
            }
        }
    }

    /// The link that belongs to a short code.
    pub fn get_link(&self, short: &str) -> (result: Result<Link, Error>)
        ensures
            result_view(result) == get_outcome(self@, short@),
            result is Ok <==> has_code(self@, short@),
            links_ok(self@),
    {
        proof {
            use_type_invariant(self);
        }
        match self.store.get(short) {
            Some(link) => fetched(FetchReply::Row(link)),
            None => fetched(FetchReply::Missing),
        }
    }

    /// All links, for diagnosis only: in a real service nobody should be able
    /// to enumerate every link.
    pub fn list_links(&self) -> (result: Result<Vec<Link>, Error>)
        ensures
            result matches Ok(all) && all@.map_values(|link: Link| link@) == self@,
            links_ok(self@),
    {
        proof {
            use_type_invariant(self);
        }
        Ok(self.store.list())
    }
}

/// Round trip. The link that a request has created is found again under its
/// short code, and its target is the one that was asked for.
pub proof fn lemma_round_trip(
    before: Seq<LinkView>,
    target: Seq<char>,
    link: LinkView,
    after: Seq<LinkView>,
)
    requires
        store_ok(before),
        create_outcome(before, target, Ok(link), after),
    ensures
        get_outcome(after, link.short) == Ok::<LinkView, Error>(link),
        link.target == target,
{
    let ids = choose|ids: Seq<Seq<u8>>|
        Ok::<LinkView, Error>(link) == #[trigger] allocate(before, target, ids, 0);
    lemma_allocated_link(before, target, ids, 0);
    lemma_insert_keeps_store_ok(before, link);
    lemma_find_stored(after, after.len() - 1);
}

/// Uniqueness. Whatever a request does to links among which no short code
/// and no record identifier occurs twice, none occurs twice afterwards
/// either, and a link that was made brings a short code and a record
/// identifier that no link had before.
pub proof fn lemma_create_keeps_unique(
    before: Seq<LinkView>,
    target: Seq<char>,
    result: Result<LinkView, Error>,
    after: Seq<LinkView>,
)
    requires
        store_ok(before),
        create_outcome(before, target, result, after),
    ensures
        forall|i: int, j: int|
            0 <= i < j < after.len() ==> (#[trigger] after[i]).short != (#[trigger] after[j]).short
                && after[i].uuid != after[j].uuid,
        result matches Ok(link) ==> !has_code(before, link.short) && !has_id(before, link.uuid),
{
    if let Ok(link) = result {
        let ids = choose|ids: Seq<Seq<u8>>|
            Ok::<LinkView, Error>(link) == #[trigger] allocate(before, target, ids, 0);
        lemma_allocated_link(before, target, ids, 0);
        lemma_insert_keeps_store_ok(before, link);
    }
}

/// Validity. A request stores no link whose target has not passed
/// validation.
pub proof fn lemma_create_keeps_valid(
    before: Seq<LinkView>,
    target: Seq<char>,
    result: Result<LinkView, Error>,
    after: Seq<LinkView>,
)
    requires
        targets_valid(before),
        create_outcome(before, target, result, after),
    ensures
        targets_valid(after),
        result is Ok ==> valid_target(target),
{
    if let Ok(link) = result {
        let ids = choose|ids: Seq<Seq<u8>>|
            Ok::<LinkView, Error>(link) == #[trigger] allocate(before, target, ids, 0);
        lemma_allocated_link(before, target, ids, 0);
    }
}

/// The first link. Where there are no links yet, no candidate can collide: a
/// request for a valid target makes its link, and it is the only one then.
pub proof fn lemma_first_link_is_made(
    target: Seq<char>,
    result: Result<LinkView, Error>,
    after: Seq<LinkView>,
)
    requires
        create_outcome(Seq::empty(), target, result, after),
    ensures
        valid_target(target) ==> result is Ok && after == seq![result->Ok_0],
{
    if valid_target(target) {
        assert(after =~= seq![result->Ok_0]);
    }
}

/// Capacity boundary. With `MAX_LINKS` links or more, a request for a valid
/// target ends with `LinkCreateFailedCapacityExceeded` and changes nothing.
/// With fewer links the capacity is never what a request fails for.
pub proof fn lemma_capacity_boundary(
    before: Seq<LinkView>,
    target: Seq<char>,
    result: Result<LinkView, Error>,
    after: Seq<LinkView>,
)
    requires
        create_outcome(before, target, result, after),
    ensures
        valid_target(target) && before.len() >= MAX_LINKS ==> result == Err::<LinkView, Error>(
            Error::LinkCreateFailedCapacityExceeded,
        ) && after == before,
        before.len() < MAX_LINKS ==> result != Err::<LinkView, Error>(
            Error::LinkCreateFailedCapacityExceeded,
        ),
{
    if before.len() < MAX_LINKS && target_verdict(target) is Ok {
        let ids = choose|ids: Seq<Seq<u8>>| result == #[trigger] allocate(before, target, ids, 0);
        lemma_allocate_errors(before, target, ids, 0);
    }
}

/// List completeness. After three links were made from nothing, the links
/// that a listing shows are these three and no others.
pub proof fn lemma_list_after_three(
    first_target: Seq<char>,
    first: LinkView,
    one: Seq<LinkView>,
    second_target: Seq<char>,
    second: LinkView,
    two: Seq<LinkView>,
    third_target: Seq<char>,
    third: LinkView,
    three: Seq<LinkView>,
)
    requires
        create_outcome(Seq::empty(), first_target, Ok(first), one),
        create_outcome(one, second_target, Ok(second), two),
        create_outcome(two, third_target, Ok(third), three),
    ensures
        three == seq![first, second, third],
        three.to_set() == set![first, second, third],
{
    let listed = seq![first, second, third];
    assert(three =~= listed);
    assert(listed[0] == first && listed[1] == second && listed[2] == third);
    assert(listed.to_set() =~= set![first, second, third]);
}

} // verus!
