//! The allocation of a short code for a new link: the capacity guard and the
//! steps from one answer of the store to the next request to it.
//!
//! The steps do no input or output. Whoever holds the store asks it for its
//! count, hands the answer to [`after_count`], inserts the candidate that
//! comes back, hands the answer to [`after_insert`], and goes on until the
//! link is created or the request has failed.

use vstd::prelude::*;
use crate::error::Error;
use crate::links_db::{insert_verdict, CountReply, InsertReply};
use crate::model::{valid_target, validate_target, Link, LinkForCreate, LinkView};
use crate::short_code::{
    generate, hyphenated, is_version_7, record_id_text, short_code, short_code_text,
};

verus! {

/// How many times an insert is tried when the short code turns out to be
/// taken. With the limit on the number of links a collision has a chance of
/// about three in a hundred, so a thousand tries are never used up unless
/// something else is wrong.
pub const MAX_CREATE_TRIES: usize = 1000;

/// The number of stored links at which creation stops. Short codes are
/// sixteen bits wide; the limit keeps the chance that a new one is taken near
/// three in a hundred. Wider codes for larger stores are not provided, so a
/// store that has reached the limit takes no further link.
pub const MAX_LINKS: i64 = 65;

/// The capacity guard: a store that holds `MAX_LINKS` links or more takes no
/// further link.
pub open spec fn capacity_verdict(existing: int) -> Result<(), Error> {
    if existing >= MAX_LINKS {
        Err(Error::LinkCreateFailedCapacityExceeded)
    } else {
        Ok(())
    }
}

/// Holds the number of stored links against `MAX_LINKS`.
pub fn check_capacity(existing: i64) -> (verdict: Result<(), Error>)
    ensures
        verdict == capacity_verdict(existing as int),
{
    if existing >= MAX_LINKS {
        Err(Error::LinkCreateFailedCapacityExceeded)
    } else {
        Ok(())
    }
}

/// The link that is tried for a target under a record identifier.
pub open spec fn candidate_link(id: Seq<u8>, target: Seq<char>) -> LinkView {
    LinkView { uuid: hyphenated(id), short: short_code_text(id), target }
}

/// Makes the link that is tried for a target under a given record
/// identifier.
pub fn candidate(id: &[u8; 16], target: &str) -> (link: Link)
    ensures
        link@ == candidate_link(id@, target@),
{
    Link { uuid: record_id_text(id), short: short_code(id), target: target.to_owned() }
}

/// The candidate for a target under an identifier that the generator has
/// just drawn.
pub fn fresh_candidate(target: &str) -> (link: Link)
    ensures
        exists|fresh: Seq<u8>|
            is_version_7(fresh) && link@ == #[trigger] candidate_link(fresh, target@),
{
    let (id, text, code) = generate();
    let link = Link { uuid: text, short: code, target: target.to_owned() };
    assert(link@ == candidate_link(id@, target@));
    link
}

/// A request whose target has passed validation and for which the store has
/// not been asked anything yet.
#[derive(Debug, PartialEq, Eq)]
pub struct CreateRequest {
    target: String,
}

impl View for CreateRequest {
    type V = Seq<char>;

    closed spec fn view(&self) -> Seq<char> {
        self.target@
    }
}

impl CreateRequest {
    #[verifier::type_invariant]
    spec fn checked(self) -> bool {
        valid_target(self.target@)
    }

    /// Validates the target. Nothing is generated and no store is asked
    /// before this has succeeded.
    pub fn new(link_fc: LinkForCreate) -> (request: Result<CreateRequest, Error>)
        ensures
            match request {
                Ok(request) => valid_target(link_fc.target@) && request@ == link_fc.target@,
                Err(e) => crate::model::target_verdict(link_fc.target@) == Err::<(), Error>(e),
            },
    {
        match validate_target(link_fc.target.as_str()) {
            Ok(_) => Ok(CreateRequest { target: link_fc.target }),
            Err(e) => Err(e),
        }
    }

    /// The target that was asked for.
    pub fn target(&self) -> (target: &str)
        ensures
            target@ == self@,
            valid_target(target@),
    {
        proof {
            use_type_invariant(self);
        }
        self.target.as_str()
    }
}

/// A link that is to be inserted, and the number of collisions that came
/// before it.
#[derive(Debug, PartialEq, Eq)]
pub struct Attempt {
    link: Link,
    collisions: usize,
}

/// An attempt by its link's texts and the number of collisions before it.
pub struct AttemptView {
    pub link: LinkView,
    pub collisions: nat,
}

impl AttemptView {
    /// The number of this attempt among the inserts tried for one request.
    pub open spec fn number(self) -> nat {
        self.collisions + 1
    }
}

impl View for Attempt {
    type V = AttemptView;

    closed spec fn view(&self) -> AttemptView {
        AttemptView { link: self.link@, collisions: self.collisions as nat }
    }
}

impl Attempt {
    #[verifier::type_invariant]
    spec fn in_budget(self) -> bool {
        valid_target(self.link.target@) && self.collisions < MAX_CREATE_TRIES
    }

    /// The link to hand to the store.
    pub fn link(&self) -> (link: &Link)
        ensures
            link@ == self@.link,
            valid_target(link@.target),
    {
        proof {
            use_type_invariant(self);
        }
        &self.link
    }

    /// How many inserts for this request met a short code that was taken.
    pub fn collisions(&self) -> (n: usize)
        ensures
            n == self@.collisions,
            n < MAX_CREATE_TRIES,
    {
        proof {
            use_type_invariant(self);
        }
        self.collisions
    }
}

/// Where a request stands once the store has answered an insert.
#[derive(Debug, PartialEq, Eq)]
pub enum Progress {
    /// The short code was taken: insert this next candidate.
    Insert(Attempt),
    /// The link is stored.
    Created(Link),
    /// The request has failed.
    Failed(Error),
}

/// Where a request stands, over views.
pub enum ProgressView {
    Insert(AttemptView),
    Created(LinkView),
    Failed(Error),
}

impl View for Progress {
    type V = ProgressView;

    open spec fn view(&self) -> ProgressView {
        match self {
            Progress::Insert(attempt) => ProgressView::Insert(attempt@),
            Progress::Created(link) => ProgressView::Created(link@),
            Progress::Failed(e) => ProgressView::Failed(*e),
        }
    }
}

/// A first attempt, or the error that stands in its place, by its view.
pub open spec fn first_view(first: Result<Attempt, Error>) -> Result<AttemptView, Error> {
    match first {
        Ok(attempt) => Ok(attempt@),
        Err(e) => Err(e),
    }
}

/// Whether a request goes on once the store has answered the count: a count
/// that failed is a fault of the store, and a count at the limit stops the
/// request.
pub open spec fn count_verdict(reply: CountReply) -> Result<(), Error> {
    match reply {
        CountReply::Failed => Err(Error::LinkCreateFailedDBError),
        CountReply::Count(existing) => capacity_verdict(existing as int),
    }
}

/// The first attempt for a target, or why there is none.
pub open spec fn first_step(target: Seq<char>, reply: CountReply, fresh: Seq<u8>) -> Result<
    AttemptView,
    Error,
> {
    match count_verdict(reply) {
        Err(e) => Err(e),
        Ok(_) => Ok(AttemptView { link: candidate_link(fresh, target), collisions: 0 }),
    }
}

/// What the answer to an insert means for the request that made `collisions`
/// collisions before it.
#[derive(Clone, Copy, Debug, PartialEq, Eq)]
pub enum Turn {
    /// The link is stored.
    Created,
    /// The short code was taken and tries are left.
    Retry,
    /// The request ends with this error.
    GiveUp(Error),
}

/// Only a short code that was taken is tried again, and only while tries are
/// left. Any other fault of the store ends the request at once.
pub open spec fn turn(collisions: nat, reply: InsertReply) -> Turn {
    match reply {
        InsertReply::Inserted => Turn::Created,
        InsertReply::Failed => Turn::GiveUp(Error::LinkCreateFailedDBError),
        InsertReply::UniqueViolation => if collisions + 1 >= MAX_CREATE_TRIES {
            Turn::GiveUp(Error::LinkCreateFailedTooManyCollisions)
        } else {
            Turn::Retry
        },
    }
}

/// What follows an insert: the link is created, or the request ends, or the
/// next candidate is tried under a fresh identifier.
pub open spec fn next_step(attempt: AttemptView, reply: InsertReply, fresh: Seq<u8>) -> ProgressView {
    match turn(attempt.collisions, reply) {
        Turn::Created => ProgressView::Created(attempt.link),
        Turn::GiveUp(e) => ProgressView::Failed(e),
        Turn::Retry => ProgressView::Insert(
            AttemptView {
                link: candidate_link(fresh, attempt.link.target),
                collisions: attempt.collisions + 1,
            },
        ),
    }
}

/// Some identifier of the version 7 layout.
spec fn sample_id() -> Seq<u8> {
    Seq::new(
        16,
        |at: int|
            if at == 6 {
                0x70u8
            } else if at == 8 {
                0x80u8
            } else {
                0u8
            },
    )
}

/// Decides on the store's answer to the count whether the request goes on.
pub fn check_count(reply: CountReply) -> (verdict: Result<(), Error>)
    ensures
        verdict == count_verdict(reply),
{
    match reply {
        CountReply::Failed => Err(Error::LinkCreateFailedDBError),
        CountReply::Count(existing) => check_capacity(existing),
    }
}

impl CreateRequest {
    /// The first attempt for this request, with `link` as its candidate.
    fn first_attempt(self, link: Link) -> (attempt: Attempt)
        requires
            link@.target == self@,
        ensures
            attempt@ == (AttemptView { link: link@, collisions: 0 }),
    {
        proof {
            use_type_invariant(&self);
        }
        Attempt { link, collisions: 0 }
    }
}

impl Attempt {
    /// What the store's answer to this attempt means.
    pub fn judge(&self, reply: InsertReply) -> (verdict: Turn)
        ensures
            verdict == turn(self@.collisions, reply),
    {
        match reply {
            InsertReply::Inserted => Turn::Created,
            InsertReply::Failed => Turn::GiveUp(Error::LinkCreateFailedDBError),
            InsertReply::UniqueViolation => if self.collisions() + 1 >= MAX_CREATE_TRIES {
                Turn::GiveUp(Error::LinkCreateFailedTooManyCollisions)
            } else {
                Turn::Retry
            },
        }
    }

    /// The attempt that follows this one after a collision, with `link` as
    /// its candidate.
    fn retry(self, link: Link) -> (next: Attempt)
        requires
            self@.collisions + 1 < MAX_CREATE_TRIES,
            link@.target == self@.link.target,
        ensures
            next@ == (AttemptView { link: link@, collisions: self@.collisions + 1 }),
    {
        proof {
            use_type_invariant(&self);
        }
        Attempt { link, collisions: self.collisions + 1 }
    }

    /// The link of an attempt that the store has accepted.
    fn into_link(self) -> (link: Link)
        ensures
            link@ == self@.link,
    {
        self.link
    }
}

/// The step after the count, with the identifier for the first candidate
/// given.
pub fn after_count_with(request: CreateRequest, reply: CountReply, fresh: &[u8; 16]) -> (first:
    Result<Attempt, Error>)
    ensures
        first_view(first) == first_step(request@, reply, fresh@),
{
    match check_count(reply) {
        Err(e) => Err(e),
        Ok(_) => {
            let link = candidate(fresh, request.target());
            Ok(request.first_attempt(link))
        },
    }
}

/// The step after the count: the request ends, or its first candidate is to
/// be inserted. A fresh identifier is drawn only where a candidate is made.
///
/// The count is what the store said when it was asked. Where several requests
/// run at once on one store, each may pass the guard before any of them has
/// inserted, and the store may end up with a few links more than `MAX_LINKS`:
/// on a shared store the limit is a soft one.
pub fn after_count(request: CreateRequest, reply: CountReply) -> (first: Result<Attempt, Error>)
    ensures
        exists|fresh: Seq<u8>|
            is_version_7(fresh) && first_view(first) == #[trigger] first_step(
                request@,
                reply,
                fresh,
            ),
{
    match check_count(reply) {
        Err(e) => {
            assert(first_step(request@, reply, sample_id()) == Err::<AttemptView, Error>(e));
            Err(e)
        },
        Ok(_) => {
            let ghost target = request@;
            let link = fresh_candidate(request.target());
            let ghost fresh = choose|fresh: Seq<u8>|
                is_version_7(fresh) && link@ == #[trigger] candidate_link(fresh, target);
            let attempt = request.first_attempt(link);
            assert(first_step(target, reply, fresh) == Ok::<AttemptView, Error>(attempt@));
            Ok(attempt)
        },
    }
}

/// The step after an insert, with the identifier for the next candidate
/// given.
pub fn after_insert_with(attempt: Attempt, reply: InsertReply, fresh: &[u8; 16]) -> (progress:
    Progress)
    ensures
        progress@ == next_step(attempt@, reply, fresh@),
{
    match attempt.judge(reply) {
        Turn::Created => Progress::Created(attempt.into_link()),
        Turn::GiveUp(e) => Progress::Failed(e),
        Turn::Retry => {
            let link = candidate(fresh, attempt.link().target.as_str());
            Progress::Insert(attempt.retry(link))
        },
    }
}

/// The step after an insert: the link is created, or the request ends, or
/// the next candidate is to be inserted. A fresh identifier is drawn only
/// where another candidate is made.
pub fn after_insert(attempt: Attempt, reply: InsertReply) -> (progress: Progress)
    ensures
        exists|fresh: Seq<u8>|
            is_version_7(fresh) && progress@ == #[trigger] next_step(attempt@, reply, fresh),
{
    let ghost before = attempt@;
    match attempt.judge(reply) {
        Turn::Created => {
            let progress = Progress::Created(attempt.into_link());
            assert(progress@ == next_step(before, reply, sample_id()));
            progress
        },
        Turn::GiveUp(e) => {
            assert(Progress::Failed(e)@ == next_step(before, reply, sample_id()));
            Progress::Failed(e)
        },
        Turn::Retry => {
            let link = fresh_candidate(attempt.link().target.as_str());
            let ghost fresh = choose|fresh: Seq<u8>|
                is_version_7(fresh) && link@ == #[trigger] candidate_link(
                    fresh,
                    before.link.target,
                );
            let progress = Progress::Insert(attempt.retry(link));
            assert(progress@ == next_step(before, reply, fresh));
            progress
        },
    }
}

/// The link under which a request ends in a store that never changes
/// meanwhile, when the identifiers drawn are `ids` and `tries` of them have
/// met a short code that was taken.
pub open spec fn allocate(store: Seq<LinkView>, target: Seq<char>, ids: Seq<Seq<u8>>, tries: nat)
    -> Result<LinkView, Error>
    decreases MAX_CREATE_TRIES - tries,
{
    if tries >= MAX_CREATE_TRIES {
        Err(Error::LinkCreateFailedTooManyCollisions)
    } else {
        let link = candidate_link(ids[tries as int], target);
        match insert_verdict(store, link) {
            InsertReply::Inserted => Ok(link),
            InsertReply::Failed => Err(Error::LinkCreateFailedDBError),
            InsertReply::UniqueViolation => allocate(store, target, ids, tries + 1),
        }
    }
}

/// The first `k` of `ids` all give a short code that the store holds.
pub open spec fn all_collide(store: Seq<LinkView>, target: Seq<char>, ids: Seq<Seq<u8>>, k: nat)
    -> bool {
    forall|j: int|
        0 <= j < k ==> insert_verdict(store, #[trigger] candidate_link(ids[j], target))
            is UniqueViolation
}

/// Tries that collide change nothing but the number of tries left.
pub proof fn lemma_allocate_skips(
    store: Seq<LinkView>,
    target: Seq<char>,
    ids: Seq<Seq<u8>>,
    k: nat,
)
    requires
        k <= MAX_CREATE_TRIES,
        all_collide(store, target, ids, k),
    ensures
        allocate(store, target, ids, 0) == allocate(store, target, ids, k),
    decreases k,
{
    if k > 0 {
        lemma_allocate_skips(store, target, ids, (k - 1) as nat);
        let link = candidate_link(ids[k - 1], target);
        assert(insert_verdict(store, link) is UniqueViolation);
    }
}

/// Bounded retry. Where the first `k` identifiers drawn give short codes that
/// are taken, and the next one a link that the store accepts, the request ends
/// with that link, as long as `k` is below `MAX_CREATE_TRIES`. Where
/// `MAX_CREATE_TRIES` identifiers or more collide, the request ends with
/// `LinkCreateFailedTooManyCollisions`.
pub proof fn lemma_bounded_retry(
    store: Seq<LinkView>,
    target: Seq<char>,
    ids: Seq<Seq<u8>>,
    k: nat,
)
    requires
        all_collide(store, target, ids, k),
    ensures
        k < MAX_CREATE_TRIES && insert_verdict(store, candidate_link(ids[k as int], target))
            is Inserted ==> allocate(store, target, ids, 0) == Ok::<LinkView, Error>(
            candidate_link(ids[k as int], target),
        ),
        k >= MAX_CREATE_TRIES ==> allocate(store, target, ids, 0) == Err::<LinkView, Error>(
            Error::LinkCreateFailedTooManyCollisions,
        ),
{
    if k < MAX_CREATE_TRIES {
        lemma_allocate_skips(store, target, ids, k);
    } else {
        lemma_allocate_skips(store, target, ids, MAX_CREATE_TRIES as nat);
    }
}

/// The state of a request after `k` collisions in a row, the `j`-th of them
/// followed by a candidate under `ids[j]`.
pub open spec fn after_collisions(first: AttemptView, ids: Seq<Seq<u8>>, k: nat) -> ProgressView
    decreases k,
{
    if k == 0 {
        ProgressView::Insert(first)
    } else {
        match after_collisions(first, ids, (k - 1) as nat) {
            ProgressView::Insert(attempt) => next_step(
                attempt,
                InsertReply::UniqueViolation,
                ids[k - 1],
            ),
            ended => ended,
        }
    }
}

/// Bounded retry, step by step. After `k` collisions a first attempt has
/// become attempt number `k + 1` for the same target, which creates its link
/// as soon as the store accepts it, as long as `k` is below
/// `MAX_CREATE_TRIES`. From `MAX_CREATE_TRIES` collisions on the request has
/// failed with `LinkCreateFailedTooManyCollisions`.
pub proof fn lemma_steps_after_collisions(first: AttemptView, ids: Seq<Seq<u8>>, k: nat)
    requires
        first.collisions == 0,
    ensures
        k < MAX_CREATE_TRIES ==> {
            &&& after_collisions(first, ids, k) matches ProgressView::Insert(attempt)
            &&& attempt.number() == k + 1
            &&& attempt.link.target == first.link.target
            &&& k > 0 ==> attempt.link == candidate_link(ids[k - 1], first.link.target)
            &&& forall|fresh: Seq<u8>|
                #[trigger] next_step(attempt, InsertReply::Inserted, fresh)
                    == ProgressView::Created(attempt.link)
        },
        k >= MAX_CREATE_TRIES ==> after_collisions(first, ids, k) == ProgressView::Failed(
            Error::LinkCreateFailedTooManyCollisions,
        ),
    decreases k,
{
    if k > 0 {
        lemma_steps_after_collisions(first, ids, (k - 1) as nat);
    }
}

/// A request that ends with a link ends with a candidate for its target that
/// the store accepts.
pub proof fn lemma_allocated_link(
    store: Seq<LinkView>,
    target: Seq<char>,
    ids: Seq<Seq<u8>>,
    tries: nat,
)
    requires
        allocate(store, target, ids, tries) is Ok,
    ensures
        ({
            let link = allocate(store, target, ids, tries)->Ok_0;
            &&& link.target == target
            &&& insert_verdict(store, link) is Inserted
            &&& exists|j: int| tries <= j < MAX_CREATE_TRIES && link == candidate_link(ids[j], target)
        }),
    decreases MAX_CREATE_TRIES - tries,
{
    if tries < MAX_CREATE_TRIES {
        let link = candidate_link(ids[tries as int], target);
        if insert_verdict(store, link) is UniqueViolation {
            lemma_allocated_link(store, target, ids, tries + 1);
        }
    }
}

/// A request that fails once it has passed the capacity guard fails for the
/// collisions or for a fault of the store.
pub proof fn lemma_allocate_errors(
    store: Seq<LinkView>,
    target: Seq<char>,
    ids: Seq<Seq<u8>>,
    tries: nat,
)
    ensures
        allocate(store, target, ids, tries) matches Err(e) ==> e
            == Error::LinkCreateFailedTooManyCollisions || e == Error::LinkCreateFailedDBError,
    decreases MAX_CREATE_TRIES - tries,
{
    if tries < MAX_CREATE_TRIES {
        lemma_allocate_errors(store, target, ids, tries + 1);
    }
}

} // verus!
