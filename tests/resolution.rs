use rpg::bridge::{
    resolve_create, resolve_create_at, resolve_fetch, validate_input, Action, Event, Job, OffloadError, Outcome,
    PoolFailure, RepositoryError, Resolution, Step,
};
use rpg::error::ResolverError;
use rpg::models::{Timestamp, User, UserId};
use rpg::schema::{self, UserInput, UserMutation, UserQuery};

fn stored_user() -> User {
    User {
        id: UserId { value: 0x0190_1234_5678_7abc_8def_0123_4567_89ab },
        first_name: "Jane".to_string(),
        last_name: "Doe".to_string(),
        email_address: "jane@doe.com".to_string(),
        created_at: Timestamp { micros: 1_700_000_000_000_000 },
        updated_at: Timestamp { micros: 1_700_000_000_000_000 },
        deleted_at: None,
    }
}

fn full_input(first: &str, last: &str, email: &str) -> UserInput {
    UserInput {
        first_name: Some(first.to_string()),
        last_name: Some(last.to_string()),
        email_address: Some(email.to_string()),
    }
}

/// Feeds `answers` to the step in turn; returns the outcome and the actions
/// asked for on the way, by name.
fn drive(mut step: Step, answers: Vec<Event>) -> (Outcome, Vec<&'static str>) {
    let mut actions = Vec::new();
    let mut answers = answers.into_iter();
    loop {
        match step {
            Step::Finished(o) => return (o, actions),
            Step::Continue(r, a) => {
                actions.push(match a {
                    Action::AcquireLease => "acquire",
                    Action::Execute(_) => "execute",
                    Action::ReleaseLease => "release",
                });
                let e = answers.next().expect("the resolution asked for more than was scripted");
                step = r.step(e);
            }
        }
    }
}

fn served(answer: Event) -> Vec<Event> {
    vec![Event::LeaseGranted, answer, Event::LeaseReturned]
}

fn unprocessable_reason(o: &Outcome) -> Option<String> {
    match o {
        Outcome::Failed(ResolverError::UnprocessableContent(reason)) => Some(reason.clone()),
        _ => None,
    }
}

#[test]
fn test_user() {
    let user = stored_user();
    let step = UserQuery.user(Some(user.id));
    let (outcome, _) = drive(step, served(Event::Completed(Some(user.clone()))));
    let result = outcome.into_response().unwrap();
    assert_eq!(
        result,
        Some(schema::User {
            id: Some(user.id),
            first_name: Some(user.first_name),
            last_name: Some(user.last_name),
            email_address: Some(user.email_address),
            created_at: Some(user.created_at),
            updated_at: Some(user.updated_at),
            deleted_at: user.deleted_at,
        })
    )
}

#[test]
fn test_user_not_found() {
    let id = UserId { value: 0x0190_0000_0000_7000_8000_0000_0000_0001 };
    let (outcome, actions) = drive(UserQuery.user(Some(id)), served(Event::Completed(None)));
    assert_eq!(actions, vec!["acquire", "execute", "release"]);
    assert_eq!(outcome.into_response().unwrap(), None);
}

#[test]
fn user_resolver_test_user_missing_id() {
    let (outcome, actions) = drive(UserQuery.user(None), vec![]);
    assert!(actions.is_empty());
    let err = outcome.into_response().unwrap_err();
    assert_eq!(err, ResolverError::UnprocessableContent("reason".to_string()));
    assert_eq!(err.code(), "UNPROCESSABLE_CONTENT");
}

#[test]
fn user_resolver_test_create_user() {
    let input = full_input("Jane", "Doe", "jane.doe@example.com");
    let step = UserMutation.create_user(Some(input));
    let prepared = match step {
        Step::Continue(Resolution::AcquiringLease(Job::Create(ref u)), Action::AcquireLease) => {
            u.clone()
        }
        _ => panic!("a complete input must wait for a lease"),
    };
    let (outcome, _) = drive(step, served(Event::Completed(Some(prepared))));
    let result = outcome.into_response().unwrap();
    if let Some(user) = result {
        assert_eq!(user.first_name, Some("Jane".to_string()));
        assert_eq!(user.last_name, Some("Doe".to_string()));
        assert_eq!(user.email_address, Some("jane.doe@example.com".to_string()));
        assert_eq!(user.created_at, user.updated_at);
        assert_eq!(user.deleted_at, None);
    } else {
        panic!("the created user must be returned");
    }
}

#[test]
fn user_resolver_test_create_user_missing_input() {
    let (outcome, actions) = drive(UserMutation.create_user(None), vec![]);
    assert!(actions.is_empty());
    let err = outcome.into_response().unwrap_err();
    assert_eq!(err, ResolverError::UnprocessableContent("reason".to_string()));
    assert_eq!(err.code(), "UNPROCESSABLE_CONTENT");
}

#[test]
fn missing_attributes_are_rejected_before_any_lease() {
    let cases = vec![
        (
            UserInput { first_name: None, last_name: Some("Doe".into()), email_address: Some("j@d.com".into()) },
            "firstName is required",
        ),
        (
            UserInput { first_name: Some("Jane".into()), last_name: None, email_address: Some("j@d.com".into()) },
            "lastName is required",
        ),
        (
            UserInput { first_name: Some("Jane".into()), last_name: Some("Doe".into()), email_address: None },
            "emailAddress is required",
        ),
        (
            UserInput { first_name: None, last_name: None, email_address: None },
            "firstName is required",
        ),
    ];
    for (input, reason) in cases {
        let (outcome, actions) = drive(resolve_create(Some(input)), vec![]);
        assert!(actions.is_empty());
        assert_eq!(unprocessable_reason(&outcome), Some(reason.to_string()));
    }
}

#[test]
fn validate_input_keeps_the_attributes() {
    let attrs = validate_input(Some(full_input("Ada", "Lovelace", "ada@example.com"))).unwrap();
    assert_eq!(attrs.first_name, "Ada");
    assert_eq!(attrs.last_name, "Lovelace");
    assert_eq!(attrs.email_address, "ada@example.com");
}

#[test]
fn fetch_waits_for_a_lease_and_runs_one_lookup() {
    let id = UserId { value: 42 };
    match resolve_fetch(Some(id)) {
        Step::Continue(r, Action::AcquireLease) => match r.step(Event::LeaseGranted) {
            Step::Continue(Resolution::Executing, Action::Execute(Job::Fetch(got))) => {
                assert_eq!(got, id)
            }
            _ => panic!("a granted lease must run the lookup"),
        },
        _ => panic!("a lookup with an identifier must wait for a lease"),
    }
}

#[test]
fn infrastructure_failures_look_the_same() {
    let id = UserId { value: 7 };
    let mut codes = Vec::new();
    for why in [PoolFailure::Exhausted, PoolFailure::Unavailable, PoolFailure::TimedOut] {
        let (o, actions) = drive(resolve_fetch(Some(id)), vec![Event::LeaseRefused(why)]);
        assert_eq!(actions, vec!["acquire"]);
        codes.push(o.into_response().unwrap_err());
    }
    for answer in [Event::OffloadFailed, Event::RepositoryFailed] {
        let (o, actions) = drive(resolve_fetch(Some(id)), served(answer));
        assert_eq!(actions, vec!["acquire", "execute", "release"]);
        codes.push(o.into_response().unwrap_err());
    }
    for err in codes {
        assert_eq!(err, ResolverError::InternalServer);
        assert_eq!(err.code(), "INTERNAL_SERVER_ERROR");
    }
}

#[test]
fn a_held_lease_is_released_on_every_path() {
    let answers = vec![
        Event::Completed(Some(stored_user())),
        Event::Completed(None),
        Event::OffloadFailed,
        Event::RepositoryFailed,
        Event::LeaseGranted,
    ];
    for answer in answers {
        let (_, actions) = drive(resolve_fetch(Some(UserId { value: 1 })), served(answer));
        assert_eq!(actions, vec!["acquire", "execute", "release"]);
    }
}

#[test]
fn release_is_asked_again_until_the_lease_is_back() {
    let (outcome, actions) = drive(
        resolve_fetch(Some(UserId { value: 1 })),
        vec![Event::LeaseGranted, Event::Completed(None), Event::OffloadFailed, Event::LeaseReturned],
    );
    assert_eq!(actions, vec!["acquire", "execute", "release", "release"]);
    assert!(matches!(outcome, Outcome::NotFound));
}

#[test]
fn many_requests_hold_one_lease_each() {
    let mut pending: Vec<Resolution> = Vec::new();
    for k in 0..5u128 {
        match resolve_fetch(Some(UserId { value: k })) {
            Step::Continue(r, Action::AcquireLease) => pending.push(r),
            _ => panic!("a lookup with an identifier must wait for a lease"),
        }
    }
    let capacity = 2;
    let mut outstanding = 0;
    let mut finished = 0;
    let mut executing: Vec<Resolution> = Vec::new();
    while finished < 5 {
        while outstanding < capacity && !pending.is_empty() {
            let r = pending.remove(0);
            match r.step(Event::LeaseGranted) {
                Step::Continue(r, Action::Execute(_)) => {
                    outstanding += 1;
                    executing.push(r);
                }
                _ => panic!("a granted lease must run the job"),
            }
            assert!(outstanding <= capacity);
        }
        let r = executing.remove(0);
        let r = match r.step(Event::RepositoryFailed) {
            Step::Continue(r, Action::ReleaseLease) => r,
            _ => panic!("a failed job must give its lease back"),
        };
        outstanding -= 1;
        match r.step(Event::LeaseReturned) {
            Step::Finished(Outcome::Failed(ResolverError::InternalServer)) => finished += 1,
            _ => panic!("a returned lease must finish the request"),
        }
    }
    assert_eq!(outstanding, 0);
}

#[test]
fn a_lease_that_comes_back_early_fails_the_request() {
    let (outcome, actions) = drive(
        resolve_fetch(Some(UserId { value: 3 })),
        vec![Event::LeaseGranted, Event::LeaseReturned],
    );
    assert_eq!(actions, vec!["acquire", "execute"]);
    assert!(matches!(outcome, Outcome::Failed(ResolverError::InternalServer)));
}

#[test]
fn work_results_become_events() {
    assert!(matches!(Event::from_work(Ok(Ok(None))), Event::Completed(None)));
    assert!(matches!(
        Event::from_work(Ok(Ok(Some(stored_user())))),
        Event::Completed(Some(ref u)) if *u == stored_user()
    ));
    assert!(matches!(Event::from_work(Ok(Err(RepositoryError))), Event::RepositoryFailed));
    assert!(matches!(Event::from_work(Err(OffloadError)), Event::OffloadFailed));
}

#[test]
fn created_record_is_found_again_with_the_same_response() {
    let input = full_input("Jane", "Doe", "jane@doe.com");
    let step = UserMutation.create_user(Some(input));
    let prepared = match step {
        Step::Continue(Resolution::AcquiringLease(Job::Create(ref u)), _) => u.clone(),
        _ => panic!("a complete input must wait for a lease"),
    };
    let (created, _) = drive(step, served(Event::Completed(Some(prepared.clone()))));
    let created = created.into_response().unwrap().unwrap();
    assert!(created.id.is_some());
    assert_eq!(created.full_name(), Some("Jane Doe".to_string()));
    assert_eq!(created.deleted_at, None);

    let (fetched, _) =
        drive(UserQuery.user(created.id), served(Event::Completed(Some(prepared))));
    let fetched = fetched.into_response().unwrap().unwrap();
    assert_eq!(fetched, created);
    assert_eq!(fetched.full_name(), created.full_name());
}

#[test]
fn create_before_1970_is_an_internal_failure() {
    let input = full_input("Jane", "Doe", "jane@doe.com");
    let (outcome, actions) = drive(resolve_create_at(Some(input), Timestamp { micros: -1 }), vec![]);
    assert!(actions.is_empty());
    assert_eq!(outcome.into_response().unwrap_err(), ResolverError::InternalServer);
}

#[test]
fn create_at_an_instant_uses_it_for_both_times() {
    let now = Timestamp { micros: 1_700_000_000_123_456 };
    let input = full_input("Jane", "Doe", "jane@doe.com");
    match resolve_create_at(Some(input), now) {
        Step::Continue(Resolution::AcquiringLease(Job::Create(u)), Action::AcquireLease) => {
            assert_eq!(u.created_at, now);
            assert_eq!(u.updated_at, now);
            assert_eq!(u.deleted_at, None);
            assert_eq!(u.first_name, "Jane");
            // the top 48 bits of a version 7 identifier hold the Unix milliseconds
            assert_eq!(u.id.value >> 80, 1_700_000_000_123);
        }
        _ => panic!("a complete input at a valid instant must wait for a lease"),
    }
}
