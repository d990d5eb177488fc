use blogdrown::api::{QueryFailure, Status};
use blogdrown::model::Updated;
use blogdrown::policy::{answer, decide, step, Action, Changed, Decision, Event, Mutation, Outcome, Stage};
use blogdrown::token::Timestamp;

const A: u128 = 1;
const B: u128 = 2;

fn at(secs: i64) -> Timestamp {
    Timestamp { secs, nanos: 0 }
}

/// Runs a guarded change against a resource of `owner` that storage changes
/// at `stored`, and tells the actions taken and the outcome.
fn run(auth: u128, owner: Option<u128>, stored: Option<Timestamp>) -> (Vec<Action>, Outcome) {
    let mut stage = Stage::Start;
    let mut event = Event::Request;
    let mut taken = Vec::new();
    loop {
        let (next, action) = step(auth, stage, event).unwrap();
        taken.push(action);
        stage = next;
        event = match action {
            Action::Begin => Event::Opened,
            Action::FindOwner => Event::Owner(owner),
            Action::Rollback => Event::RolledBack,
            Action::Write => Event::Written(stored),
            Action::Commit => Event::Committed,
            Action::Respond(outcome) => {
                assert_eq!(stage, Stage::Finished);
                return (taken, outcome);
            }
        };
    }
}

#[test]
fn decide_allows_the_owner_only() {
    assert_eq!(decide(A, A), Decision::Allow);
    assert_eq!(decide(A, B), Decision::Deny);
    assert_eq!(decide(0, u128::MAX), Decision::Deny);
    assert_eq!(decide(u128::MAX, u128::MAX), Decision::Allow);
}

#[test]
fn stranger_may_not_update_a_post_but_the_owner_may() {
    let created = at(100);
    // identity A owns the post; identity B tries to update it
    let (taken, outcome) = run(B, Some(A), Some(at(200)));
    assert_eq!(taken, vec![Action::Begin, Action::FindOwner, Action::Rollback, Action::Respond(Outcome::Forbidden)]);
    let (s, e) = answer(Mutation::EditPost, outcome).unwrap_err();
    assert_eq!(s.code(), 403);
    assert_eq!(e.message(), "User lacks permission to edit blogpost");
    // identity A makes the same call
    let (taken, outcome) = run(A, Some(A), Some(at(200)));
    assert_eq!(
        taken,
        vec![Action::Begin, Action::FindOwner, Action::Write, Action::Commit, Action::Respond(Outcome::Done(Some(at(200))))]
    );
    match answer(Mutation::EditPost, outcome).unwrap() {
        Changed::Edited(Updated { updated_at }) => assert!(created.before(updated_at)),
        Changed::Removed => panic!("an edit was reported as a removal"),
    }
}

#[test]
fn stranger_deleting_a_comment_changes_nothing() {
    let (taken, outcome) = run(B, Some(A), None);
    assert!(!taken.contains(&Action::Write));
    assert!(!taken.contains(&Action::Commit));
    assert!(taken.contains(&Action::Rollback));
    assert_eq!(outcome, Outcome::Forbidden);
    let (s, e) = answer(Mutation::DeleteComment, outcome).unwrap_err();
    assert_eq!(s, Status::Forbidden);
    assert_eq!(s.code(), 403);
    assert_eq!(e.message(), "You do not have permission to delete this comment");
    assert_eq!(e.len(), 0);
}

#[test]
fn owner_deletes() {
    let (taken, outcome) = run(A, Some(A), None);
    assert_eq!(taken, vec![Action::Begin, Action::FindOwner, Action::Write, Action::Commit, Action::Respond(Outcome::Done(None))]);
    assert_eq!(answer(Mutation::DeletePost, outcome).unwrap(), Changed::Removed);
}

#[test]
fn missing_resource_is_not_found() {
    let (taken, outcome) = run(A, None, None);
    assert_eq!(taken, vec![Action::Begin, Action::FindOwner, Action::Respond(Outcome::NotFound)]);
    let (s, e) = answer(Mutation::EditComment, outcome).unwrap_err();
    assert_eq!(s, Status::NotFound);
    assert_eq!(e.message(), "Not Found");
}

#[test]
fn refusal_messages() {
    let cases = [
        (Mutation::EditPost, "User lacks permission to edit blogpost"),
        (Mutation::DeletePost, "You do not have permission to delete this blogpost"),
        (Mutation::EditComment, "You do not have permission to edit this comment"),
        (Mutation::DeleteComment, "You do not have permission to delete this comment"),
    ];
    for (op, text) in cases {
        let (s, e) = answer(op, Outcome::Forbidden).unwrap_err();
        assert_eq!(s, Status::Forbidden);
        assert_eq!(e.message(), text);
    }
}

#[test]
fn storage_failure_ends_the_change() {
    let stages = [Stage::Opening, Stage::Finding, Stage::Refusing, Stage::Writing, Stage::Committing(None)];
    for stage in stages {
        assert_eq!(
            step(A, stage, Event::Failed(QueryFailure::UniqueKeyViolation)),
            Some((Stage::Finished, Action::Respond(Outcome::Failed(QueryFailure::UniqueKeyViolation))))
        );
    }
    let (s, e) = answer(Mutation::EditPost, Outcome::Failed(QueryFailure::UniqueKeyViolation)).unwrap_err();
    assert_eq!(s, Status::InternalServerError);
    assert_eq!(e.get("unique"), Some("Unique Constraint violated"));
}

#[test]
fn events_out_of_place_are_not_taken() {
    assert_eq!(step(A, Stage::Start, Event::Committed), None);
    assert_eq!(step(A, Stage::Start, Event::Failed(QueryFailure::Other)), None);
    assert_eq!(step(A, Stage::Start, Event::Owner(Some(A))), None);
    assert_eq!(step(A, Stage::Opening, Event::Written(None)), None);
    assert_eq!(step(A, Stage::Finding, Event::Committed), None);
    assert_eq!(step(A, Stage::Refusing, Event::Written(None)), None);
    assert_eq!(step(A, Stage::Writing, Event::Committed), None);
    assert_eq!(step(A, Stage::Finished, Event::Request), None);
    assert_eq!(step(A, Stage::Finished, Event::Failed(QueryFailure::Other)), None);
}
