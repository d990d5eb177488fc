use blogdrown::api::{QueryFailure, Status};
use blogdrown::auth::{
    account_of, auth_info, login, logout, open_session, reject, session_cookie, signup, signup_conflict, signup_step, AccountRow,
    SameSite, SignupAction, SignupEvent, SignupOutcome, SignupStage,
};
use blogdrown::model::{Login, Signup};
use blogdrown::password::{scrypt_hash, scrypt_verify};
use blogdrown::token::{RequireLogin, Timestamp};

const DAY: i64 = 86_400;
const KEY: &[u8] = b"server secret";

fn at(secs: i64) -> Timestamp {
    Timestamp { secs, nanos: 0 }
}

fn assert_rejected(r: Result<RequireLogin, blogdrown::api::ApiError>) {
    let (s, e) = r.unwrap_err();
    assert_eq!(s, Status::Unauthorized);
    assert_eq!(e.message(), "Logging in is required for this endpoint");
    assert_eq!(e.len(), 0);
}

#[test]
fn session_cookie_attributes() {
    let c = session_cookie("tok".to_string(), true);
    assert_eq!(c.name, "session");
    assert_eq!(c.value, "tok");
    assert_eq!(c.same_site, SameSite::Lax);
    assert!(c.http_only);
    assert_eq!(c.path, "/");
    assert!(c.secure);
    assert!(!session_cookie("tok".to_string(), false).secure);
}

#[test]
fn logout_cookie_is_empty() {
    let c = logout(false);
    assert_eq!(c.name, "session");
    assert_eq!(c.value, "");
    assert_eq!(c.path, "/");
    assert!(!c.secure);
}

#[test]
fn guard_rejects_a_missing_cookie() {
    assert_rejected(RequireLogin::from_request_parts(None, KEY, at(1_700_000_000)));
}

#[test]
fn guard_rejects_a_bad_token() {
    assert_rejected(RequireLogin::from_request_parts(Some("garbage"), KEY, at(1_700_000_000)));
    let claim = RequireLogin { id: 5, creat: at(1_700_000_000) };
    let token = claim.sign_with_key(b"another key").unwrap();
    assert_rejected(RequireLogin::from_request_parts(Some(&token), KEY, at(1_700_000_000)));
}

#[test]
fn guard_rejects_a_token_of_31_days() {
    let now = at(1_700_000_000);
    let claim = RequireLogin { id: 5, creat: at(now.secs - 31 * DAY) };
    let token = claim.sign_with_key(KEY).unwrap();
    assert_eq!(RequireLogin::verify_with_key(&token, KEY), Ok(claim));
    assert_rejected(RequireLogin::from_request_parts(Some(&token), KEY, now));
}

#[test]
fn guard_accepts_a_token_of_29_days() {
    let now = at(1_700_000_000);
    let claim = RequireLogin { id: 5, creat: at(now.secs - 29 * DAY) };
    let token = claim.sign_with_key(KEY).unwrap();
    let login = RequireLogin::from_request_parts(Some(&token), KEY, now).unwrap();
    assert_eq!(login, claim);
    assert_eq!(login.uuid(), "00000000-0000-0000-0000-000000000005");
    assert_eq!(login.confirm(true).unwrap(), claim);
}

#[test]
fn guard_accepts_exactly_thirty_days() {
    let now = at(1_700_000_000);
    let claim = RequireLogin { id: 5, creat: at(now.secs - 30 * DAY) };
    let token = claim.sign_with_key(KEY).unwrap();
    assert_eq!(RequireLogin::from_request_parts(Some(&token), KEY, now).unwrap(), claim);
    assert_rejected(RequireLogin::from_request_parts(Some(&token), KEY, Timestamp { secs: now.secs, nanos: 1 }));
}

#[test]
fn guard_rejects_a_user_that_is_gone() {
    let claim = RequireLogin { id: 5, creat: at(1_700_000_000) };
    assert_rejected(claim.confirm(false));
    let (s, e) = reject();
    assert_eq!(s, Status::Unauthorized);
    assert_eq!(e.message(), "Logging in is required for this endpoint");
}

fn request() -> Signup {
    Signup::new("someone@example.org".to_string(), "someone".to_string(), "hunter2hunter2".to_string()).unwrap()
}

/// Runs a sign-up against a storage in which so many accounts hold the
/// username and so many the email, and tells the actions taken and the outcome.
fn run_signup(username_holders: i64, email_holders: i64) -> (Vec<SignupAction>, SignupOutcome) {
    let mut stage = SignupStage::Start;
    let mut event = SignupEvent::Request;
    let mut taken = Vec::new();
    loop {
        let (next, action) = signup_step(stage, event).unwrap();
        taken.push(action);
        stage = next;
        event = match action {
            SignupAction::CountEither => SignupEvent::Counted(username_holders.max(email_holders)),
            SignupAction::CountEach => SignupEvent::Conflicts(username_holders, email_holders),
            SignupAction::Store => SignupEvent::Stored,
            SignupAction::Respond(outcome) => {
                assert_eq!(stage, SignupStage::Finished);
                return (taken, outcome);
            }
        };
    }
}

#[test]
fn signup_of_a_new_user_is_stored() {
    let (taken, outcome) = run_signup(0, 0);
    assert_eq!(taken, vec![SignupAction::CountEither, SignupAction::Store, SignupAction::Respond(SignupOutcome::Created)]);
    assert_eq!(outcome, SignupOutcome::Created);
}

#[test]
fn signup_with_a_used_username_names_the_username_only() {
    let (taken, outcome) = run_signup(1, 0);
    assert!(!taken.contains(&SignupAction::Store));
    assert_eq!(outcome, SignupOutcome::Taken { username: true, email: false });
    let (s, e) = signup_conflict(&request(), true, false);
    assert_eq!(s, Status::BadRequest);
    assert_eq!(s.code(), 400);
    assert_eq!(e.message(), "User Already Exists");
    assert_eq!(e.get("username"), Some("Username someone already exists"));
    assert_eq!(e.get("email"), None);
    assert_eq!(e.len(), 1);
}

#[test]
fn signup_with_a_used_email_names_the_email_only() {
    let (_, outcome) = run_signup(0, 2);
    assert_eq!(outcome, SignupOutcome::Taken { username: false, email: true });
    let (s, e) = signup_conflict(&request(), false, true);
    assert_eq!(s, Status::BadRequest);
    assert_eq!(e.get("email"), Some("Email someone@example.org already exists"));
    assert_eq!(e.get("username"), None);
}

#[test]
fn signup_with_both_used_names_both() {
    let (_, outcome) = run_signup(3, 1);
    assert_eq!(outcome, SignupOutcome::Taken { username: true, email: true });
    let (_, e) = signup_conflict(&request(), true, true);
    assert_eq!(e.len(), 2);
    assert_eq!(e.get("username"), Some("Username someone already exists"));
    assert_eq!(e.get("email"), Some("Email someone@example.org already exists"));
    let (s, e) = signup_conflict(&request(), false, false);
    assert_eq!(s, Status::BadRequest);
    assert_eq!(e.len(), 0);
}

#[test]
fn signup_ends_on_a_storage_failure() {
    for stage in [SignupStage::Counting, SignupStage::Examining, SignupStage::Storing] {
        assert_eq!(
            signup_step(stage, SignupEvent::Failed(QueryFailure::UniqueKeyViolation)),
            Some((SignupStage::Finished, SignupAction::Respond(SignupOutcome::Failed(QueryFailure::UniqueKeyViolation))))
        );
    }
    assert_eq!(signup_step(SignupStage::Start, SignupEvent::Failed(QueryFailure::Other)), None);
    assert_eq!(signup_step(SignupStage::Finished, SignupEvent::Request), None);
    assert_eq!(signup_step(SignupStage::Counting, SignupEvent::Stored), None);
    assert_eq!(signup_step(SignupStage::Storing, SignupEvent::Counted(0)), None);
    assert_eq!(signup_step(SignupStage::Examining, SignupEvent::Counted(0)), None);
}

#[test]
fn signup_stores_a_hash_not_the_password() {
    let a = signup(request(), false).unwrap();
    assert_eq!(a.username, "someone");
    assert_eq!(a.email, "someone@example.org");
    assert_ne!(a.password, "hunter2hunter2");
    assert_eq!(scrypt_verify("hunter2hunter2", &a.password), Ok(()));
    assert!(blogdrown::ident::expect_uuid(&a.id_key).is_some());
    let b = signup(request(), false).unwrap();
    assert_ne!(a.id_key, b.id_key);
}

#[test]
fn open_session_gives_a_cookie_that_the_guard_accepts() {
    let now = Timestamp { secs: 1_700_000_000, nanos: 42 };
    let c = open_session(77, now, KEY, true).unwrap();
    assert_eq!(c.name, "session");
    assert!(c.secure);
    assert_eq!(c.same_site, SameSite::Lax);
    let login = RequireLogin::from_request_parts(Some(&c.value), KEY, now).unwrap();
    assert_eq!(login, RequireLogin { id: 77, creat: now });
    assert!(open_session(77, at(i64::MAX), KEY, true).is_none());
}

fn account(password: &str) -> AccountRow {
    AccountRow {
        id: 9,
        username: "someone".to_string(),
        email: "someone@example.org".to_string(),
        password: scrypt_hash(password, false).unwrap(),
        created_at: at(1000),
    }
}

fn attempt(password: &str) -> Login {
    Login::new("someone@example.org".to_string(), password.to_string()).unwrap()
}

#[test]
fn login_with_the_right_password() {
    let u = login(&attempt("hunter2hunter2"), &Ok(Some(account("hunter2hunter2")))).unwrap();
    assert_eq!(u.min.id, 9);
    assert_eq!(u.min.username.as_str(), "someone");
    assert_eq!(u.email.as_str(), "someone@example.org");
    assert_eq!(u.created_at, at(1000));
}

#[test]
fn login_failures_look_alike() {
    let (s1, e1) = login(&attempt("wrong-password"), &Ok(Some(account("hunter2hunter2")))).unwrap_err();
    let (s2, e2) = login(&attempt("hunter2hunter2"), &Ok(None)).unwrap_err();
    assert_eq!(s1, Status::Unauthorized);
    assert_eq!(s2, Status::Unauthorized);
    assert_eq!(e1.message(), "Bad Credentials");
    assert_eq!(e2.message(), "Bad Credentials");
    assert_eq!(e1.len(), 0);
    assert_eq!(e2.len(), 0);
}

#[test]
fn login_with_failed_storage() {
    let (s, e) = login(&attempt("hunter2hunter2"), &Err(QueryFailure::Other)).unwrap_err();
    assert_eq!(s, Status::InternalServerError);
    assert_eq!(e.message(), "Prisma Validation Error");
}

#[test]
fn auth_info_answers() {
    let u = auth_info(&Ok(Some(account("hunter2hunter2")))).unwrap();
    assert_eq!(u.min.id, 9);
    assert_eq!(u.email.as_str(), "someone@example.org");
    let (s, _) = auth_info(&Ok(None)).unwrap_err();
    assert_eq!(s, Status::NotFound);
    let (s, _) = auth_info(&Err(QueryFailure::RecordNotFound)).unwrap_err();
    assert_eq!(s, Status::InternalServerError);
}

#[test]
fn account_holds_the_hash_in_place_of_the_password() {
    let a = account_of(request(), 0x771a3bce02e94428a68eb1e7e82b7f9f, Some("$scrypt$stored".to_string())).unwrap();
    assert_eq!(a.id, 0x771a3bce02e94428a68eb1e7e82b7f9f);
    assert_eq!(a.id_key, "771a3bce-02e9-4428-a68e-b1e7e82b7f9f");
    assert_eq!(a.username, "someone");
    assert_eq!(a.email, "someone@example.org");
    assert_eq!(a.password, "$scrypt$stored");
}

#[test]
fn without_a_hash_there_is_no_account() {
    assert!(account_of(request(), 1, None).is_none());
}

#[test]
fn signup_hashes_at_the_cost_of_the_deployment() {
    let a = signup(request(), false).unwrap();
    assert!(a.password.starts_with("$scrypt$ln=5,r=5,p=1$"));
    assert_eq!(blogdrown::ident::expect_uuid(&a.id_key), Some(a.id));
}
