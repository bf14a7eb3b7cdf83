use curtailing::allocation::{
    after_count, after_count_with, after_insert, after_insert_with, candidate, check_capacity,
    check_count, Attempt, CreateRequest, Progress, Turn, MAX_CREATE_TRIES, MAX_LINKS,
};
use curtailing::error::Error;
use curtailing::links_db::{CountReply, InsertReply, LinkStore};
use curtailing::model::LinkForCreate;

const TARGET: &str = "https://example.com/some/page";

fn id(n: u16) -> [u8; 16] {
    let mut id = [0u8; 16];
    id[0] = 0x01;
    id[6] = 0x70;
    id[8] = 0x80;
    id[12] = (n >> 8) as u8;
    id[13] = (n & 0xff) as u8;
    id[14] = (n >> 8) as u8;
    id[15] = (n & 0xff) as u8;
    id
}

fn request() -> CreateRequest {
    CreateRequest::new(LinkForCreate { target: TARGET.to_string() }).unwrap()
}

fn first_attempt() -> Attempt {
    after_count_with(request(), CountReply::Count(0), &id(0)).unwrap()
}

#[test]
fn limits_are_a_thousand_tries_and_65_links() {
    assert_eq!(MAX_CREATE_TRIES, 1000);
    assert_eq!(MAX_LINKS, 65);
}

#[test]
fn capacity_guard_stops_at_65_links() {
    assert_eq!(check_capacity(0), Ok(()));
    assert_eq!(check_capacity(64), Ok(()));
    assert_eq!(check_capacity(65), Err(Error::LinkCreateFailedCapacityExceeded));
    assert_eq!(check_capacity(66), Err(Error::LinkCreateFailedCapacityExceeded));
    assert_eq!(check_capacity(i64::MAX), Err(Error::LinkCreateFailedCapacityExceeded));
    assert_eq!(check_capacity(-1), Ok(()));
    assert_eq!(check_capacity(i64::MIN), Ok(()));
}

#[test]
fn failed_count_is_a_store_error() {
    assert_eq!(check_count(CountReply::Failed), Err(Error::LinkCreateFailedDBError));
    assert_eq!(check_count(CountReply::Count(64)), Ok(()));
    assert_eq!(
        check_count(CountReply::Count(65)),
        Err(Error::LinkCreateFailedCapacityExceeded)
    );
}

#[test]
fn request_is_made_of_a_valid_target_only() {
    assert_eq!(request().target(), TARGET);
    assert_eq!(
        CreateRequest::new(LinkForCreate { target: String::new() }),
        Err(Error::LinkCreateFailedEmptyTarget)
    );
    assert_eq!(
        CreateRequest::new(LinkForCreate { target: "ftp://example.com".to_string() }),
        Err(Error::LinkCreateFailedBadProtocol)
    );
    assert_eq!(
        CreateRequest::new(LinkForCreate { target: format!("https://{}", "a".repeat(3065)) }),
        Err(Error::LinkCreateFailedTargetTooLong)
    );
}

#[test]
fn step_after_count_makes_the_first_candidate() {
    let attempt = after_count_with(request(), CountReply::Count(64), &id(7)).unwrap();
    assert_eq!(attempt.collisions(), 0);
    assert_eq!(*attempt.link(), candidate(&id(7), TARGET));
    assert_eq!(attempt.link().target, TARGET);
}

#[test]
fn step_after_count_stops_at_the_limit() {
    assert_eq!(
        after_count_with(request(), CountReply::Count(65), &id(7)),
        Err(Error::LinkCreateFailedCapacityExceeded)
    );
    assert_eq!(
        after_count_with(request(), CountReply::Count(1000), &id(7)),
        Err(Error::LinkCreateFailedCapacityExceeded)
    );
    assert_eq!(
        after_count(request(), CountReply::Count(65)),
        Err(Error::LinkCreateFailedCapacityExceeded)
    );
}

#[test]
fn step_after_count_gives_up_on_a_store_fault() {
    assert_eq!(
        after_count_with(request(), CountReply::Failed, &id(7)),
        Err(Error::LinkCreateFailedDBError)
    );
    assert_eq!(after_count(request(), CountReply::Failed), Err(Error::LinkCreateFailedDBError));
}

#[test]
fn step_after_count_draws_a_fresh_identifier() {
    let a = after_count(request(), CountReply::Count(3)).unwrap();
    let b = after_count(request(), CountReply::Count(3)).unwrap();
    assert_eq!(a.collisions(), 0);
    assert_eq!(a.link().target, TARGET);
    assert_eq!(a.link().uuid.len(), 36);
    assert_ne!(a.link().uuid, b.link().uuid);
}

#[test]
fn accepted_insert_creates_the_link() {
    let attempt = first_attempt();
    let link = attempt.link().clone();
    assert_eq!(
        after_insert_with(attempt, InsertReply::Inserted, &id(1)),
        Progress::Created(link.clone())
    );
    assert_eq!(after_insert(first_attempt(), InsertReply::Inserted), Progress::Created(link));
}

#[test]
fn store_fault_is_not_tried_again() {
    assert_eq!(
        after_insert_with(first_attempt(), InsertReply::Failed, &id(1)),
        Progress::Failed(Error::LinkCreateFailedDBError)
    );
    assert_eq!(
        after_insert(first_attempt(), InsertReply::Failed),
        Progress::Failed(Error::LinkCreateFailedDBError)
    );
}

#[test]
fn collision_is_tried_again_under_a_fresh_identifier() {
    match after_insert_with(first_attempt(), InsertReply::UniqueViolation, &id(1)) {
        Progress::Insert(next) => {
            assert_eq!(next.collisions(), 1);
            assert_eq!(*next.link(), candidate(&id(1), TARGET));
        },
        other => panic!("no second attempt: {:?}", other),
    }
    match after_insert(first_attempt(), InsertReply::UniqueViolation) {
        Progress::Insert(next) => {
            assert_eq!(next.collisions(), 1);
            assert_eq!(next.link().target, TARGET);
            assert_ne!(next.link().uuid, first_attempt().link().uuid);
        },
        other => panic!("no second attempt: {:?}", other),
    }
}

/// Answers `k` inserts with a collision and hands out what stands then.
fn after_collisions(k: u16) -> Progress {
    let mut progress = Progress::Insert(first_attempt());
    for n in 0..k {
        progress = match progress {
            Progress::Insert(attempt) => {
                after_insert_with(attempt, InsertReply::UniqueViolation, &id(n + 1))
            },
            ended => return ended,
        };
    }
    progress
}

#[test]
fn create_succeeds_on_attempt_k_plus_one() {
    for k in [0u16, 1, 2, 17, 998, 999] {
        match after_collisions(k) {
            Progress::Insert(attempt) => {
                assert_eq!(attempt.collisions(), k as usize);
                assert_eq!(*attempt.link(), candidate(&id(k), TARGET));
                let link = attempt.link().clone();
                assert_eq!(
                    after_insert_with(attempt, InsertReply::Inserted, &id(0)),
                    Progress::Created(link)
                );
            },
            other => panic!("ended after {} collisions: {:?}", k, other),
        }
    }
}

#[test]
fn thousand_collisions_end_the_request() {
    assert_eq!(
        after_collisions(1000),
        Progress::Failed(Error::LinkCreateFailedTooManyCollisions)
    );
    assert_eq!(
        after_collisions(5000),
        Progress::Failed(Error::LinkCreateFailedTooManyCollisions)
    );
    match after_collisions(999) {
        Progress::Insert(last) => {
            assert_eq!(
                after_insert(last, InsertReply::UniqueViolation),
                Progress::Failed(Error::LinkCreateFailedTooManyCollisions)
            );
        },
        other => panic!("ended early: {:?}", other),
    }
}

#[test]
fn judge_tells_the_three_turns_apart() {
    let attempt = first_attempt();
    assert_eq!(attempt.judge(InsertReply::Inserted), Turn::Created);
    assert_eq!(attempt.judge(InsertReply::UniqueViolation), Turn::Retry);
    assert_eq!(
        attempt.judge(InsertReply::Failed),
        Turn::GiveUp(Error::LinkCreateFailedDBError)
    );
    match after_collisions(999) {
        Progress::Insert(last) => {
            assert_eq!(last.judge(InsertReply::Inserted), Turn::Created);
            assert_eq!(
                last.judge(InsertReply::UniqueViolation),
                Turn::GiveUp(Error::LinkCreateFailedTooManyCollisions)
            );
        },
        other => panic!("ended early: {:?}", other),
    }
}

/// An identifier whose short code is that of `id(low)`, and which differs
/// from it and from every other `twin` in the bytes before.
fn twin(low: u16, n: u16) -> [u8; 16] {
    let mut twin = id(low);
    twin[0] = 0x02;
    twin[1] = (n >> 8) as u8;
    twin[2] = (n & 0xff) as u8;
    twin
}

/// Runs one request against `store`, drawing the identifiers from `ids` in
/// turn, and hands out how it ended and how many inserts were tried.
fn run(store: &mut LinkStore, ids: &[[u8; 16]]) -> (Result<curtailing::model::Link, Error>, usize) {
    let count = CountReply::Count(store.count() as i64);
    let mut attempt = match after_count_with(request(), count, &ids[0]) {
        Ok(attempt) => attempt,
        Err(e) => return (Err(e), 0),
    };
    let mut inserts = 0;
    loop {
        let reply = store.insert_unique(attempt.link().clone());
        inserts += 1;
        let next = ids[inserts.min(ids.len() - 1)];
        match after_insert_with(attempt, reply, &next) {
            Progress::Created(link) => return (Ok(link), inserts),
            Progress::Failed(e) => return (Err(e), inserts),
            Progress::Insert(again) => attempt = again,
        }
    }
}

#[test]
fn forced_collisions_delay_the_link_by_one_attempt_each() {
    for k in [0u16, 1, 2, 10, 500, 999] {
        let mut store = LinkStore::new();
        assert_eq!(store.insert_unique(candidate(&id(0x1234), "http://taken")), InsertReply::Inserted);
        let mut ids: Vec<[u8; 16]> = (0..k).map(|n| twin(0x1234, n)).collect();
        ids.push(id(0x4321));
        let (result, inserts) = run(&mut store, &ids);
        assert_eq!(result, Ok(candidate(&id(0x4321), TARGET)));
        assert_eq!(inserts, k as usize + 1);
        assert_eq!(store.count(), 2);
        assert_eq!(store.get(&result.unwrap().short).unwrap().target, TARGET);
    }
}

#[test]
fn forced_collisions_use_up_the_tries() {
    for k in [1000u16, 1001, 3000] {
        let mut store = LinkStore::new();
        assert_eq!(store.insert_unique(candidate(&id(0x1234), "http://taken")), InsertReply::Inserted);
        let mut ids: Vec<[u8; 16]> = (0..k).map(|n| twin(0x1234, n)).collect();
        ids.push(id(0x4321));
        let (result, inserts) = run(&mut store, &ids);
        assert_eq!(result, Err(Error::LinkCreateFailedTooManyCollisions));
        assert_eq!(inserts, 1000);
        assert_eq!(store.count(), 1);
    }
}

#[test]
fn taken_identifier_ends_the_request_at_once() {
    let mut store = LinkStore::new();
    assert_eq!(store.insert_unique(candidate(&id(0x1234), "http://taken")), InsertReply::Inserted);
    let (result, inserts) = run(&mut store, &[id(0x1234), id(0x4321)]);
    assert_eq!(result, Err(Error::LinkCreateFailedDBError));
    assert_eq!(inserts, 1);
    assert_eq!(store.count(), 1);
}
