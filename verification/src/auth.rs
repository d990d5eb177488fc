//! Sessions: the cookie that carries the token, the guard that every
//! protected request passes, and the decisions of sign-up and login.

use crate::api::{answers, is_not_found, is_query_failure, ApiError, Error, QueryFailure, Status};
use crate::bounded::BoundString;
use crate::ident::{fresh_id, storage_key, uuid_hyphenated};
use crate::model::{AuthUser, Login, MinUser, Signup};
use crate::password::{hash_under, scrypt_accepts, scrypt_hash, scrypt_verify, text_of};
use crate::token::{issued, verified, RequireLogin, Timestamp};
use vstd::prelude::*;
use vstd::string::StringExecFns;

verus! {

/// How far a cookie travels with requests that other sites cause.
#[derive(Clone, Copy, Debug, PartialEq, Eq, Structural)]
pub enum SameSite {
    Strict,
    Lax,
    Unrestricted,
}

/// A cookie with the attributes the service sets.
#[derive(Debug)]
pub struct SessionCookie {
    pub name: String,
    pub value: String,
    pub same_site: SameSite,
    pub http_only: bool,
    pub path: String,
    pub secure: bool,
}

/// The cookie `c` is the session cookie with the value `value`: it is called
/// `session`, is kept from scripts, travels with top-level navigation only,
/// holds for the whole site, and in production is sent over TLS only.
pub open spec fn is_session_cookie(c: SessionCookie, value: Seq<char>, production: bool) -> bool {
    &&& c.name@ == "session"@
    &&& c.value@ == value
    &&& c.same_site == SameSite::Lax
    &&& c.http_only
    &&& c.path@ == "/"@
    &&& c.secure == production
}

/// The session cookie for a token.
pub fn session_cookie(value: String, production: bool) -> (c: SessionCookie)
    ensures
        is_session_cookie(c, value@, production),
{
    SessionCookie {
        name: "session".to_owned(),
        value,
        same_site: SameSite::Lax,
        http_only: true,
        path: "/".to_owned(),
        secure: production,
    }
}

/// The cookie whose removal ends the session: the session cookie without a value.
pub fn logout(production: bool) -> (c: SessionCookie)
    ensures
        is_session_cookie(c, Seq::<char>::empty(), production),
{
    session_cookie(String::new(), production)
}

impl RequireLogin {
    /// The key under which storage keeps the user of this session.
    pub fn uuid(&self) -> (s: String)
        ensures
            s@ == uuid_hyphenated(self.id),
    {
        storage_key(self.id)
    }
}

/// The one answer to every request that the guard turns away. It does not
/// tell which check failed.
pub open spec fn is_rejection(e: ApiError) -> bool {
    answers(
        e,
        Status::Unauthorized,
        "Logging in is required for this endpoint"@,
        Map::<Seq<char>, Seq<char>>::empty(),
    )
}

/// The answer to a request that the guard turns away.
pub fn reject() -> (e: ApiError)
    ensures
        is_rejection(e),
{
    (Status::Unauthorized, Error::new("Logging in is required for this endpoint"))
}

/// The text of the cookie, if there is one.
pub open spec fn cookie_text(cookie: Option<&str>) -> Option<Seq<char>> {
    match cookie {
        Some(c) => Some(c@),
        None => None,
    }
}

/// The session that a request presents at the moment `now`: the cookie must
/// be there, its token must verify under `key`, and no more than thirty days
/// may have passed since it was issued.
pub open spec fn presented(cookie: Option<Seq<char>>, key: Seq<u8>, now: Timestamp) -> Option<
    RequireLogin,
> {
    match cookie {
        None => None,
        Some(token) => match verified(token, key) {
            None => None,
            Some(claim) => if claim.creat.spec_expired_at(now) {
                None
            } else {
                Some(claim)
            },
        },
    }
}

impl RequireLogin {
    /// The first part of the guard, which needs no storage: reads the session
    /// that the request presents. The caller then looks the user up, under
    /// [`RequireLogin::uuid`], and finishes with [`RequireLogin::confirm`].
    pub fn from_request_parts(cookie: Option<&str>, key: &[u8], now: Timestamp) -> (r: Result<
        RequireLogin,
        ApiError,
    >)
        ensures
            r is Ok <==> presented(cookie_text(cookie), key@, now) is Some,
            r matches Ok(claim) ==> Some(claim) == presented(cookie_text(cookie), key@, now),
            r matches Err(e) ==> is_rejection(e),
    {
        let token = match cookie {
            Some(t) => t,
            None => { return Err(reject()); },
        };
        let login = match RequireLogin::verify_with_key(token, key) {
            Ok(l) => l,
            Err(_) => { return Err(reject()); },
        };
        if login.creat.expired_at(now) {
            return Err(reject());
        }
        Ok(login)
    }

    /// The second part of the guard: the session stands only if its user
    /// still exists.
    pub fn confirm(self, exists: bool) -> (r: Result<RequireLogin, ApiError>)
        ensures
            r is Ok <==> exists,
            r matches Ok(claim) ==> claim == self,
            r matches Err(e) ==> is_rejection(e),
    {
        if exists {
            Ok(self)
        } else {
            Err(reject())
        }
    }
}

/// A user as storage returns it.
#[derive(Debug)]
pub struct AccountRow {
    pub id: u128,
    pub username: String,
    pub email: String,
    pub password: String,
    pub created_at: Timestamp,
}

/// The profile `u` shows the account `row`.
pub open spec fn shows_account(u: AuthUser, row: AccountRow) -> bool {
    &&& u.min.id == row.id
    &&& u.min.username@ == row.username@
    &&& u.email@ == row.email@
    &&& u.created_at == row.created_at
}

/// The profile of an account as its owner sees it.
pub fn auth_user(row: &AccountRow) -> (u: AuthUser)
    ensures
        shows_account(u, *row),
{
    AuthUser {
        email: BoundString::new_unchecked(row.email.clone()),
        created_at: row.created_at,
        min: MinUser { id: row.id, username: BoundString::new_unchecked(row.username.clone()) },
    }
}

/// Answers the question for the caller's own profile from what storage found
/// under the session's user.
pub fn auth_info(found: &Result<Option<AccountRow>, QueryFailure>) -> (r: Result<
    AuthUser,
    ApiError,
>)
    ensures
        found matches Err(q) ==> r matches Err(e) && is_query_failure(e, *q),
        found matches Ok(None) ==> r matches Err(e) && is_not_found(e),
        found matches Ok(Some(row)) ==> r matches Ok(u) && shows_account(u, *row),
{
    match found {
        Err(q) => Err(Error::from_query(*q)),
        Ok(None) => Err(Error::not_found()),
        Ok(Some(row)) => Ok(auth_user(row)),
    }
}

/// How far a sign-up has come.
#[derive(Clone, Copy, Debug, PartialEq, Eq, Structural)]
pub enum SignupStage {
    Start,
    Counting,
    Examining,
    Storing,
    Finished,
}

/// What happened since the last action of a sign-up.
#[derive(Clone, Copy, Debug, PartialEq, Eq, Structural)]
pub enum SignupEvent {
    /// The request arrived.
    Request,
    /// So many accounts hold the wanted username or the wanted email.
    Counted(i64),
    /// So many accounts hold the username, and so many the email.
    Conflicts(i64, i64),
    /// The account was stored.
    Stored,
    /// Storage failed at the last action.
    Failed(QueryFailure),
}

/// How a sign-up ended.
#[derive(Clone, Copy, Debug, PartialEq, Eq, Structural)]
pub enum SignupOutcome {
    /// The account exists now.
    Created,
    /// The username, the email or both are taken.
    Taken { username: bool, email: bool },
    /// Storage failed.
    Failed(QueryFailure),
}

/// What the caller of a sign-up is to do next.
#[derive(Clone, Copy, Debug, PartialEq, Eq, Structural)]
pub enum SignupAction {
    /// Count the accounts that hold the username or the email.
    CountEither,
    /// Count the holders of the username and those of the email, each apart.
    CountEach,
    /// Store the account that [`signup`] prepares.
    Store,
    /// Answer the request.
    Respond(SignupOutcome),
}

/// The course of a sign-up: the stage that follows on an event and the action
/// to take, or `None` where the event does not belong to the stage. The
/// account is stored only if nobody holds the username or the email; else
/// both are examined, each apart, and the request is refused.
pub open spec fn spec_signup_step(stage: SignupStage, event: SignupEvent) -> Option<
    (SignupStage, SignupAction),
> {
    match (stage, event) {
        (SignupStage::Start, SignupEvent::Request) => Some(
            (SignupStage::Counting, SignupAction::CountEither),
        ),
        (SignupStage::Counting, SignupEvent::Counted(n)) => if n == 0 {
            Some((SignupStage::Storing, SignupAction::Store))
        } else {
            Some((SignupStage::Examining, SignupAction::CountEach))
        },
        (SignupStage::Examining, SignupEvent::Conflicts(u, e)) => Some(
            (
                SignupStage::Finished,
                SignupAction::Respond(SignupOutcome::Taken { username: u != 0, email: e != 0 }),
            ),
        ),
        (SignupStage::Storing, SignupEvent::Stored) => Some(
            (SignupStage::Finished, SignupAction::Respond(SignupOutcome::Created)),
        ),
        (SignupStage::Counting, SignupEvent::Failed(q)) => Some(
            (SignupStage::Finished, SignupAction::Respond(SignupOutcome::Failed(q))),
        ),
        (SignupStage::Examining, SignupEvent::Failed(q)) => Some(
            (SignupStage::Finished, SignupAction::Respond(SignupOutcome::Failed(q))),
        ),
        (SignupStage::Storing, SignupEvent::Failed(q)) => Some(
            (SignupStage::Finished, SignupAction::Respond(SignupOutcome::Failed(q))),
        ),
        _ => None,
    }
}

/// Takes one step of a sign-up. The caller performs the action and comes back
/// with the event that it led to, until the action is to respond.
#[verifier::when_used_as_spec(spec_signup_step)]
pub fn signup_step(stage: SignupStage, event: SignupEvent) -> (r: Option<
    (SignupStage, SignupAction),
>)
    ensures
        r == spec_signup_step(stage, event),
{
    match (stage, event) {
        (SignupStage::Start, SignupEvent::Request) => Some(
            (SignupStage::Counting, SignupAction::CountEither),
        ),
        (SignupStage::Counting, SignupEvent::Counted(n)) => if n == 0 {
            Some((SignupStage::Storing, SignupAction::Store))
        } else {
            Some((SignupStage::Examining, SignupAction::CountEach))
        },
        (SignupStage::Examining, SignupEvent::Conflicts(u, e)) => Some(
            (
                SignupStage::Finished,
                SignupAction::Respond(SignupOutcome::Taken { username: u != 0, email: e != 0 }),
            ),
        ),
        (SignupStage::Storing, SignupEvent::Stored) => Some(
            (SignupStage::Finished, SignupAction::Respond(SignupOutcome::Created)),
        ),
        (SignupStage::Start, SignupEvent::Failed(_)) => None,
        (SignupStage::Finished, SignupEvent::Failed(_)) => None,
        (_, SignupEvent::Failed(q)) => Some(
            (SignupStage::Finished, SignupAction::Respond(SignupOutcome::Failed(q))),
        ),
        _ => None,
    }
}

/// An account is stored only when the count has shown that nobody holds the
/// username or the email, and is reported as created only when it was stored.
pub proof fn lemma_signup_stores_only_the_new(stage: SignupStage, event: SignupEvent)
    ensures
        spec_signup_step(stage, event) matches Some(next) && next.1 == SignupAction::Store
            ==> stage == SignupStage::Counting && event == SignupEvent::Counted(0),
        spec_signup_step(stage, event) matches Some(next) && next.1 == SignupAction::Respond(
            SignupOutcome::Created,
        ) ==> stage == SignupStage::Storing && event == SignupEvent::Stored,
        spec_signup_step(stage, event) matches Some(next) ==> (next.0 == SignupStage::Storing
            ==> next.1 == SignupAction::Store),
{
}

/// The per-field messages of a refused sign-up: one for the username if it is
/// taken, one for the email if it is taken.
pub open spec fn conflict_fields(
    username: Seq<char>,
    email: Seq<char>,
    username_taken: bool,
    email_taken: bool,
) -> Map<Seq<char>, Seq<char>> {
    let none = Map::<Seq<char>, Seq<char>>::empty();
    let first = if username_taken {
        none.insert("username"@, "Username "@ + username + " already exists"@)
    } else {
        none
    };
    if email_taken {
        first.insert("email"@, "Email "@ + email + " already exists"@)
    } else {
        first
    }
}

/// Refuses a sign-up whose username or email is taken. Both are looked at,
/// and each one that is taken is named.
pub fn signup_conflict(signup: &Signup, username_taken: bool, email_taken: bool) -> (e: ApiError)
    ensures
        answers(
            e,
            Status::BadRequest,
            "User Already Exists"@,
            conflict_fields(signup.username@, signup.email@, username_taken, email_taken),
        ),
{
    let mut err = Error::new("User Already Exists");
    if username_taken {
        let text = String::from_str("Username ").concat(signup.username.as_str()).concat(
            " already exists",
        );
        err.add("username", text.as_str());
    }
    if email_taken {
        let text = String::from_str("Email ").concat(signup.email.as_str()).concat(
            " already exists",
        );
        err.add("email", text.as_str());
    }
    (Status::BadRequest, err)
}

/// The account that sign-up stores.
#[derive(Debug)]
pub struct NewAccount {
    pub id: u128,
    pub id_key: String,
    pub username: String,
    pub email: String,
    pub password: String,
}

/// Prepares the account of a sign-up for storage, under a fresh key: the
/// username and the email as given, and in place of the password what hashing
/// it under a salt drawn afresh gives at the cost of the deployment.
pub fn signup(request: Signup, production: bool) -> (r: Option<NewAccount>)
    ensures
        exists|salt: Seq<char>| #[trigger]
            hash_under(request.password@, salt, production) == stored_hash(r),
        r matches Some(a) ==> a.id_key@ == uuid_hyphenated(a.id) && a.username@
            == request.username@ && a.email@ == request.email@ && scrypt_accepts(
            request.password@,
            a.password@,
        ),
{
    let hash = scrypt_hash(request.password.as_str(), production);
    let id: u128 = fresh_id();
    account_of(request, id, hash)
}

/// The hash that an account holds, where there is an account.
pub open spec fn stored_hash(account: Option<NewAccount>) -> Option<Seq<char>> {
    match account {
        Some(a) => Some(a.password@),
        None => None,
    }
}

/// The account that is stored for a sign-up under the identifier `id`, once
/// the password has been hashed: the username and the email as given, the key
/// of the identifier, and the hash in place of the password. Without a hash
/// there is no account: a password is never stored as it came.
pub fn account_of(request: Signup, id: u128, hash: Option<String>) -> (r: Option<NewAccount>)
    ensures
        r is Some <==> hash is Some,
        stored_hash(r) == text_of(hash),
        r matches Some(a) ==> a.id == id && a.id_key@ == uuid_hyphenated(id) && a.username@
            == request.username@ && a.email@ == request.email@,
{
    match hash {
        Some(password) => Some(
            NewAccount {
                id,
                id_key: storage_key(id),
                username: request.username.into_inner(),
                email: request.email.into_inner(),
                password,
            },
        ),
        None => None,
    }
}

/// Opens a session for the user `id` at the moment `now`: issues the token
/// and puts it into the session cookie. `None` means that no token could be
/// issued.
pub fn open_session(id: u128, now: Timestamp, key: &[u8], production: bool) -> (r: Option<
    SessionCookie,
>)
    ensures
        r is Some <==> issued(RequireLogin { id, creat: now }, key@) is Some,
        r matches Some(c) ==> is_session_cookie(
            c,
            issued(RequireLogin { id, creat: now }, key@)->0,
            production,
        ),
        r matches Some(c) ==> now.plain() ==> presented(Some(c.value@), key@, now) == Some(
            RequireLogin { id, creat: now },
        ),
{
    let claim = RequireLogin { id, creat: now };
    match claim.sign_with_key(key) {
        Some(token) => Some(session_cookie(token, production)),
        None => None,
    }
}

/// The one answer to every login that fails. It does not tell whether the
/// email or the password was wrong.
pub open spec fn is_bad_credentials(e: ApiError) -> bool {
    answers(e, Status::Unauthorized, "Bad Credentials"@, Map::<Seq<char>, Seq<char>>::empty())
}

/// Judges a login against the account that storage found under the email: it
/// stands if there is such an account and its stored hash accepts the password.
pub fn login(request: &Login, found: &Result<Option<AccountRow>, QueryFailure>) -> (r: Result<
    AuthUser,
    ApiError,
>)
    ensures
        found matches Err(q) ==> r matches Err(e) && is_query_failure(e, *q),
        found matches Ok(None) ==> r matches Err(e) && is_bad_credentials(e),
        found matches Ok(Some(row)) ==> (if scrypt_accepts(request.password@, row.password@) {
            r matches Ok(u) && shows_account(u, *row)
        } else {
            r matches Err(e) && is_bad_credentials(e)
        }),
{
    let row = match found {
        Err(q) => { return Err(Error::from_query(*q)); },
        Ok(None) => { return Err((Status::Unauthorized, Error::new("Bad Credentials"))); },
        Ok(Some(row)) => row,
    };
    match scrypt_verify(request.password.as_str(), row.password.as_str()) {
        Ok(()) => Ok(auth_user(row)),
        Err(()) => Err((Status::Unauthorized, Error::new("Bad Credentials"))),
    }
}

} // verus!
