//! Who may change a resource, and the course of a change that is guarded by
//! that rule: the owner is read, compared and the change made inside one
//! transaction.

use crate::api::{answers, is_not_found, is_query_failure, ApiError, Error, QueryFailure, Status};
use crate::model::Updated;
use crate::token::Timestamp;
use vstd::prelude::*;

verus! {

/// The verdict on a change.
#[derive(Clone, Copy, Debug, PartialEq, Eq, Structural)]
pub enum Decision {
    Allow,
    Deny,
}

/// A resource may be changed by its owner and by nobody else.
pub open spec fn spec_decide(authenticated: u128, owner: u128) -> Decision {
    if authenticated == owner {
        Decision::Allow
    } else {
        Decision::Deny
    }
}

/// Decides whether the authenticated identity may change a resource of `owner`.
/// The owner has been read by the caller; nothing is read or changed here.
#[verifier::when_used_as_spec(spec_decide)]
pub fn decide(authenticated: u128, owner: u128) -> (d: Decision)
    ensures
        d == spec_decide(authenticated, owner),
{
    if authenticated == owner {
        Decision::Allow
    } else {
        Decision::Deny
    }
}

/// The changes that only an owner may make.
#[derive(Clone, Copy, Debug, PartialEq, Eq, Structural)]
pub enum Mutation {
    EditPost,
    DeletePost,
    EditComment,
    DeleteComment,
}

/// How a guarded change ended.
#[derive(Clone, Copy, Debug, PartialEq, Eq)]
pub enum Outcome {
    /// The change was made and committed; an edit carries the moment stored.
    Done(Option<Timestamp>),
    /// Storage failed.
    Failed(QueryFailure),
    /// The resource does not exist.
    NotFound,
    /// The authenticated identity is not the owner.
    Forbidden,
}

/// What the caller is to do next.
#[derive(Clone, Copy, Debug, PartialEq, Eq)]
pub enum Action {
    /// Open a transaction.
    Begin,
    /// Read the owner of the resource inside the transaction.
    FindOwner,
    /// Undo the transaction.
    Rollback,
    /// Make the change inside the transaction.
    Write,
    /// Commit the transaction.
    Commit,
    /// Answer the request.
    Respond(Outcome),
}

/// How far a guarded change has come.
#[derive(Clone, Copy, Debug, PartialEq, Eq)]
pub enum Stage {
    Start,
    Opening,
    Finding,
    Refusing,
    Writing,
    Committing(Option<Timestamp>),
    Finished,
}

/// What happened since the last action.
#[derive(Clone, Copy, Debug, PartialEq, Eq)]
pub enum Event {
    /// The request arrived.
    Request,
    /// The transaction is open.
    Opened,
    /// The owner was looked up; `None` where the resource does not exist.
    Owner(Option<u128>),
    /// The transaction was undone.
    RolledBack,
    /// The change was made; an edit reports the moment stored.
    Written(Option<Timestamp>),
    /// The transaction was committed.
    Committed,
    /// Storage failed at the last action.
    Failed(QueryFailure),
}

/// The course of a guarded change for the identity `auth`: the stage that
/// follows on an event and the action to take, or `None` where the event does
/// not belong to the stage.
pub open spec fn spec_step(auth: u128, stage: Stage, event: Event) -> Option<(Stage, Action)> {
    match (stage, event) {
        (Stage::Start, Event::Request) => Some((Stage::Opening, Action::Begin)),
        (Stage::Opening, Event::Opened) => Some((Stage::Finding, Action::FindOwner)),
        (Stage::Finding, Event::Owner(None)) => Some(
            (Stage::Finished, Action::Respond(Outcome::NotFound)),
        ),
        (Stage::Finding, Event::Owner(Some(owner))) => if spec_decide(auth, owner)
            == Decision::Allow {
            Some((Stage::Writing, Action::Write))
        } else {
            Some((Stage::Refusing, Action::Rollback))
        },
        (Stage::Refusing, Event::RolledBack) => Some(
            (Stage::Finished, Action::Respond(Outcome::Forbidden)),
        ),
        (Stage::Writing, Event::Written(at)) => Some((Stage::Committing(at), Action::Commit)),
        (Stage::Committing(at), Event::Committed) => Some(
            (Stage::Finished, Action::Respond(Outcome::Done(at))),
        ),
        (Stage::Opening, Event::Failed(q)) => Some(
            (Stage::Finished, Action::Respond(Outcome::Failed(q))),
        ),
        (Stage::Finding, Event::Failed(q)) => Some(
            (Stage::Finished, Action::Respond(Outcome::Failed(q))),
        ),
        (Stage::Refusing, Event::Failed(q)) => Some(
            (Stage::Finished, Action::Respond(Outcome::Failed(q))),
        ),
        (Stage::Writing, Event::Failed(q)) => Some(
            (Stage::Finished, Action::Respond(Outcome::Failed(q))),
        ),
        (Stage::Committing(_), Event::Failed(q)) => Some(
            (Stage::Finished, Action::Respond(Outcome::Failed(q))),
        ),
        _ => None,
    }
}

/// Takes one step of a guarded change. The caller performs the action and
/// comes back with the event that it led to, until the action is to respond.
#[verifier::when_used_as_spec(spec_step)]
pub fn step(auth: u128, stage: Stage, event: Event) -> (r: Option<(Stage, Action)>)
    ensures
        r == spec_step(auth, stage, event),
{
    match (stage, event) {
        (Stage::Start, Event::Request) => Some((Stage::Opening, Action::Begin)),
        (Stage::Opening, Event::Opened) => Some((Stage::Finding, Action::FindOwner)),
        (Stage::Finding, Event::Owner(None)) => Some(
            (Stage::Finished, Action::Respond(Outcome::NotFound)),
        ),
        (Stage::Finding, Event::Owner(Some(owner))) => match decide(auth, owner) {
            Decision::Allow => Some((Stage::Writing, Action::Write)),
            Decision::Deny => Some((Stage::Refusing, Action::Rollback)),
        },
        (Stage::Refusing, Event::RolledBack) => Some(
            (Stage::Finished, Action::Respond(Outcome::Forbidden)),
        ),
        (Stage::Writing, Event::Written(at)) => Some((Stage::Committing(at), Action::Commit)),
        (Stage::Committing(at), Event::Committed) => Some(
            (Stage::Finished, Action::Respond(Outcome::Done(at))),
        ),
        (Stage::Start, Event::Failed(_)) => None,
        (Stage::Finished, Event::Failed(_)) => None,
        (_, Event::Failed(q)) => Some((Stage::Finished, Action::Respond(Outcome::Failed(q)))),
        _ => None,
    }
}

/// A change is only ever made for the owner: the step that orders the write
/// is the one that has just read an owner equal to the authenticated identity.
pub proof fn lemma_write_only_for_owner(auth: u128, stage: Stage, event: Event)
    requires
        spec_step(auth, stage, event) matches Some(next) && next.1 == Action::Write,
    ensures
        stage == Stage::Finding,
        event == Event::Owner(Some(auth)),
        spec_step(auth, stage, event) == Some((Stage::Writing, Action::Write)),
{
}

/// Reading an owner other than the authenticated identity leads to a rollback
/// and from there to a refusal: no write and no commit lies on that way.
pub proof fn lemma_stranger_is_refused(auth: u128, owner: u128)
    requires
        auth != owner,
    ensures
        spec_step(auth, Stage::Finding, Event::Owner(Some(owner))) == Some(
            (Stage::Refusing, Action::Rollback),
        ),
        spec_step(auth, Stage::Refusing, Event::RolledBack) == Some(
            (Stage::Finished, Action::Respond(Outcome::Forbidden)),
        ),
        forall|e: Event| #[trigger]
            spec_step(auth, Stage::Refusing, e) matches Some(next) ==> next.0 == Stage::Finished,
{
}

/// A change is reported as done only when its transaction has been committed,
/// and a commit is only ordered after the write.
pub proof fn lemma_done_means_committed(auth: u128, stage: Stage, event: Event)
    ensures
        spec_step(auth, stage, event) matches Some(next) && next.1 is Respond
            && next.1->Respond_0 is Done ==> stage is Committing && event == Event::Committed,
        spec_step(auth, stage, event) matches Some(next) && next.1 == Action::Commit
            ==> stage == Stage::Writing && event is Written,
        spec_step(auth, stage, event) matches Some(next) && next.0 is Committing
            ==> stage == Stage::Writing,
{
}

/// The message that tells a stranger why a change was refused.
pub open spec fn refusal_text(op: Mutation) -> Seq<char> {
    match op {
        Mutation::EditPost => "User lacks permission to edit blogpost"@,
        Mutation::DeletePost => "You do not have permission to delete this blogpost"@,
        Mutation::EditComment => "You do not have permission to edit this comment"@,
        Mutation::DeleteComment => "You do not have permission to delete this comment"@,
    }
}

/// The error that reports how a guarded change failed: a refusal is
/// "forbidden" with a message that names the change, a missing resource is
/// "not found", a storage failure is an internal error.
pub open spec fn failure_answers(op: Mutation, outcome: Outcome, e: ApiError) -> bool {
    match outcome {
        Outcome::Done(_) => false,
        Outcome::Failed(q) => is_query_failure(e, q),
        Outcome::NotFound => is_not_found(e),
        Outcome::Forbidden => answers(
            e,
            Status::Forbidden,
            refusal_text(op),
            Map::<Seq<char>, Seq<char>>::empty(),
        ),
    }
}

/// What a guarded change reports when it was made.
#[derive(Clone, Copy, Debug, PartialEq, Eq)]
pub enum Changed {
    /// An edit, with the moment at which it was stored.
    Edited(Updated),
    /// A removal.
    Removed,
}

/// The report of a change that was made: an edit is told by the moment that
/// storage returned for it.
pub open spec fn report(at: Option<Timestamp>) -> Changed {
    match at {
        Some(t) => Changed::Edited(Updated { updated_at: t }),
        None => Changed::Removed,
    }
}

/// Turns the outcome of a guarded change into the answer for the caller: the
/// report of the change where it was made, else the error.
pub fn answer(op: Mutation, outcome: Outcome) -> (r: Result<Changed, ApiError>)
    ensures
        r is Ok <==> outcome is Done,
        r matches Ok(c) ==> outcome matches Outcome::Done(at) && c == report(at),
        r matches Err(e) ==> failure_answers(op, outcome, e),
{
    match outcome {
        Outcome::Done(Some(at)) => Ok(Changed::Edited(Updated { updated_at: at })),
        Outcome::Done(None) => Ok(Changed::Removed),
        Outcome::Failed(q) => Err(Error::from_query(q)),
        Outcome::NotFound => Err(Error::not_found()),
        Outcome::Forbidden => {
            let e = match op {
                Mutation::EditPost => Error::new("User lacks permission to edit blogpost"),
                Mutation::DeletePost => Error::new(
                    "You do not have permission to delete this blogpost",
                ),
                Mutation::EditComment => Error::new(
                    "You do not have permission to edit this comment",
                ),
                Mutation::DeleteComment => Error::new(
                    "You do not have permission to delete this comment",
                ),
            };
            Err((Status::Forbidden, e))
        },
    }
}

} // verus!
