//! Signed session tokens: a claim that names a user and the moment of issue,
//! carried as a JSON Web Token under HMAC-SHA384.

use crate::api::same_text;
use chrono::{DateTime, FixedOffset, SecondsFormat, Utc};
use hmac::{Hmac, Mac};
use jwt::{SignWithKey, VerifyWithKey};
use sha2::Sha384;
use std::collections::BTreeMap;
use ulid::Ulid;
use vstd::prelude::*;

verus! {

/// A moment in time: whole seconds since the Unix epoch and the nanoseconds
/// within the second.
#[derive(Clone, Copy, Debug, PartialEq, Eq, Structural)]
pub struct Timestamp {
    pub secs: i64,
    pub nanos: u32,
}

/// The number of seconds in thirty days, the lifetime of a session.
pub const SESSION_SECONDS: i64 = 2_592_000;

/// The first second of the year 0.
pub const FIRST_PLAIN_SECOND: i64 = -62_167_219_200;

/// The last second of the year 9999.
pub const LAST_PLAIN_SECOND: i64 = 253_402_300_799;

impl Timestamp {
    /// `self` lies strictly before `other`.
    pub open spec fn spec_before(self, other: Timestamp) -> bool {
        self.secs < other.secs || (self.secs == other.secs && self.nanos < other.nanos)
    }

    #[verifier::when_used_as_spec(spec_before)]
    pub fn before(self, other: Timestamp) -> (b: bool)
        ensures
            b == self.spec_before(other),
    {
        self.secs < other.secs || (self.secs == other.secs && self.nanos < other.nanos)
    }

    /// A session issued at `self` has run out at `now`: more than thirty days
    /// have passed.
    pub open spec fn spec_expired_at(self, now: Timestamp) -> bool {
        self.secs + SESSION_SECONDS < now.secs || (self.secs + SESSION_SECONDS == now.secs
            && self.nanos < now.nanos)
    }

    #[verifier::when_used_as_spec(spec_expired_at)]
    pub fn expired_at(self, now: Timestamp) -> (b: bool)
        ensures
            b == self.spec_expired_at(now),
    {
        if self.secs > i64::MAX - SESSION_SECONDS {
            false
        } else {
            let end: i64 = self.secs + SESSION_SECONDS;
            end < now.secs || (end == now.secs && self.nanos < now.nanos)
        }
    }

    /// A moment of the years 0 to 9999 outside a leap second: one that RFC 3339
    /// writes with a year of four digits. Such a moment survives being written
    /// into a token and read back.
    pub open spec fn plain(self) -> bool {
        FIRST_PLAIN_SECOND <= self.secs <= LAST_PLAIN_SECOND && self.nanos < 1_000_000_000
    }
}

/// The claim of a session: who logged in, and when.
#[derive(Clone, Copy, Debug, PartialEq, Eq, Structural)]
pub struct RequireLogin {
    pub id: u128,
    pub creat: Timestamp,
}

/// A token that was altered, is malformed, or does not carry a session claim.
/// Which of these it was is deliberately not told.
#[derive(Clone, Copy, Debug, PartialEq, Eq, Structural)]
pub struct TamperedOrMalformed;

/// The 26 characters that the `ulid` crate prints for `id`.
pub uninterp spec fn ulid_text(id: u128) -> Seq<char>;

/// The number that the `ulid` crate reads from `text`, if it reads one.
pub uninterp spec fn ulid_value(text: Seq<char>) -> Option<u128>;

/// The RFC 3339 text that `chrono` writes for a moment in UTC, or `None` where
/// `chrono` cannot represent the moment.
pub uninterp spec fn rfc3339_text(secs: i64, nanos: u32) -> Option<Seq<char>>;

/// The moment that `chrono` reads from `text`, if it reads one.
pub uninterp spec fn rfc3339_instant(text: Seq<char>) -> Option<(i64, u32)>;

/// The token that the `jwt` crate makes of a set of claims under an HMAC-SHA384 key.
pub uninterp spec fn jwt_token(claims: Seq<(Seq<char>, Seq<char>)>, key: Seq<u8>) -> Option<
    Seq<char>,
>;

/// The claims, in the order of their names, that the `jwt` crate reads from a
/// token whose signature it accepts under the key; `None` where it accepts none.
pub uninterp spec fn jwt_claims(token: Seq<char>, key: Seq<u8>) -> Option<
    Seq<(Seq<char>, Seq<char>)>,
>;

/// The claims as pairs of plain text.
pub open spec fn claims_view(claims: Seq<(String, String)>) -> Seq<(Seq<char>, Seq<char>)> {
    Seq::new(claims.len(), |i: int| (claims[i].0@, claims[i].1@))
}

/// The value of the first claim called `name`.
pub open spec fn lookup(claims: Seq<(Seq<char>, Seq<char>)>, name: Seq<char>) -> Option<
    Seq<char>,
>
    decreases claims.len(),
{
    if claims.len() == 0 {
        None
    } else if claims[0].0 == name {
        Some(claims[0].1)
    } else {
        lookup(claims.drop_first(), name)
    }
}

/// No two claims share a name.
pub open spec fn distinct_names(claims: Seq<(Seq<char>, Seq<char>)>) -> bool {
    forall|i: int, j: int| 0 <= i < j < claims.len() ==> (#[trigger] claims[i]).0 != (
    #[trigger] claims[j]).0
}

/// Prints `id` with `Ulid::to_string`. The contract names the text and claims
/// the round trip that the `ulid` crate documents: `Ulid::from_string` reads
/// the same number back.
#[verifier::external_body]
fn ulid_print(id: u128) -> (s: String)
    ensures
        s@ == ulid_text(id),
        ulid_value(s@) == Some(id),
{
    Ulid(id).to_string()
}

/// Reads a number with `Ulid::from_string`. The contract names the outcome.
#[verifier::external_body]
fn ulid_parse(text: &str) -> (r: Option<u128>)
    ensures
        r == ulid_value(text@),
{
    match Ulid::from_string(text) {
        Ok(u) => Some(u.0),
        Err(_) => None,
    }
}

/// Builds the moment with `DateTime::from_timestamp` and writes it with
/// `DateTime::to_rfc3339_opts`, with as many fractional digits as the moment
/// needs and `Z` for the offset. The contract names the text, and claims that
/// for a plain moment `chrono` reads the same moment back from it.
#[verifier::external_body]
fn rfc3339_print(at: Timestamp) -> (r: Option<String>)
    ensures
        r is Some <==> rfc3339_text(at.secs, at.nanos) is Some,
        r matches Some(t) ==> Some(t@) == rfc3339_text(at.secs, at.nanos) && (at.plain()
            ==> rfc3339_instant(t@) == Some((at.secs, at.nanos))),
{
    let moment = DateTime::<Utc>::from_timestamp(at.secs, at.nanos)?;
    Some(moment.to_rfc3339_opts(SecondsFormat::AutoSi, true))
}

/// Reads a moment with the `FromStr` impl of `DateTime<FixedOffset>` and takes
/// its seconds and nanoseconds with `timestamp` and `timestamp_subsec_nanos`.
/// The contract names the outcome.
#[verifier::external_body]
fn rfc3339_parse(text: &str) -> (r: Option<(i64, u32)>)
    ensures
        r == rfc3339_instant(text@),
{
    match text.parse::<DateTime<FixedOffset>>() {
        Ok(moment) => Some((moment.timestamp(), moment.timestamp_subsec_nanos())),
        Err(_) => None,
    }
}

/// Signs the claims with `SignWithKey::sign_with_key` under the key that
/// `Hmac::<Sha384>::new_from_slice` makes of `key`; the claims are handed over
/// as a `BTreeMap`. The contract names the token, and claims that the `jwt`
/// crate accepts its own token under the same key and reads from it, under
/// each name, the value that was signed, provided that no name was given twice.
#[verifier::external_body]
fn jwt_sign(claims: &Vec<(String, String)>, key: &[u8]) -> (r: Option<String>)
    ensures
        r is Some <==> jwt_token(claims_view(claims@), key@) is Some,
        r matches Some(t) ==> Some(t@) == jwt_token(claims_view(claims@), key@),
        r matches Some(t) ==> distinct_names(claims_view(claims@)) ==> (jwt_claims(t@, key@) matches Some(
            c,
        ) && forall|name: Seq<char>| #[trigger] lookup(c, name) == lookup(claims_view(claims@), name)),
{
    let key: Hmac<Sha384> = Hmac::new_from_slice(key).ok()?;
    let claims: BTreeMap<String, String> = claims.iter().cloned().collect();
    claims.sign_with_key(&key).ok()
}

/// Verifies the token with `VerifyWithKey::verify_with_key` under the key that
/// `Hmac::<Sha384>::new_from_slice` makes of `key`, and reads its claims as a
/// `BTreeMap` of strings, which is handed out in the order of the names. The
/// contract names the outcome.
#[verifier::external_body]
fn jwt_verify(token: &str, key: &[u8]) -> (r: Option<Vec<(String, String)>>)
    ensures
        r is Some <==> jwt_claims(token@, key@) is Some,
        r matches Some(c) ==> Some(claims_view(c@)) == jwt_claims(token@, key@),
{
    let key: Hmac<Sha384> = Hmac::new_from_slice(key).ok()?;
    let claims: BTreeMap<String, String> = token.verify_with_key(&key).ok()?;
    Some(claims.into_iter().collect())
}

/// The claims that stand for a session: the user under `id`, the moment of
/// issue under `creat`.
pub open spec fn session_claims(id_text: Seq<char>, creat_text: Seq<char>) -> Seq<
    (Seq<char>, Seq<char>),
> {
    seq![("id"@, id_text), ("creat"@, creat_text)]
}

/// The token issued for `claim` under `key`: its claims are the ULID of the
/// user and the RFC 3339 text of the moment. `None` where the moment cannot be
/// written or the signing fails.
pub open spec fn issued(claim: RequireLogin, key: Seq<u8>) -> Option<Seq<char>> {
    match rfc3339_text(claim.creat.secs, claim.creat.nanos) {
        Some(creat_text) => jwt_token(session_claims(ulid_text(claim.id), creat_text), key),
        None => None,
    }
}

/// The session that a set of verified claims stands for: both `id` and
/// `creat` must be there and must read as a ULID and as a moment. Other claims
/// are ignored.
pub open spec fn decoded(claims: Seq<(Seq<char>, Seq<char>)>) -> Option<RequireLogin> {
    match (lookup(claims, "id"@), lookup(claims, "creat"@)) {
        (Some(id_text), Some(creat_text)) => match (
            ulid_value(id_text),
            rfc3339_instant(creat_text),
        ) {
            (Some(id), Some(at)) => Some(
                RequireLogin { id, creat: Timestamp { secs: at.0, nanos: at.1 } },
            ),
            _ => None,
        },
        _ => None,
    }
}

/// The session that `token` proves under `key`, if it proves one.
pub open spec fn verified(token: Seq<char>, key: Seq<u8>) -> Option<RequireLogin> {
    match jwt_claims(token, key) {
        Some(claims) => decoded(claims),
        None => None,
    }
}

/// Finds the value of the first claim called `name`.
pub fn find_claim<'a>(claims: &'a Vec<(String, String)>, name: &str) -> (r: Option<&'a str>)
    ensures
        r is Some <==> lookup(claims_view(claims@), name@) is Some,
        r matches Some(v) ==> Some(v@) == lookup(claims_view(claims@), name@),
{
    let ghost all = claims_view(claims@);
    let n: usize = claims.len();
    let mut i: usize = 0;
    proof {
        assert(all.subrange(0, n as int) =~= all);
    }
    while i < n
        invariant
            i <= n,
            n == claims@.len(),
            all == claims_view(claims@),
            lookup(all, name@) == lookup(all.subrange(i as int, n as int), name@),
        decreases n - i,
    {
        proof {
            let rest = all.subrange(i as int, n as int);
            assert(rest[0] == all[i as int]);
            assert(rest.drop_first() =~= all.subrange(i + 1, n as int));
        }
        if same_text(claims[i].0.as_str(), name) {
            return Some(claims[i].1.as_str());
        }
        i = i + 1;
    }
    proof {
        assert(all.subrange(n as int, n as int).len() == 0);
    }
    None
}

/// Reads a session out of verified claims.
pub fn decode_claims(claims: &Vec<(String, String)>) -> (r: Option<RequireLogin>)
    ensures
        r == decoded(claims_view(claims@)),
{
    let id_text = match find_claim(claims, "id") {
        Some(t) => t,
        None => { return None; },
    };
    let creat_text = match find_claim(claims, "creat") {
        Some(t) => t,
        None => { return None; },
    };
    let id: u128 = match ulid_parse(id_text) {
        Some(v) => v,
        None => { return None; },
    };
    match rfc3339_parse(creat_text) {
        Some(at) => Some(RequireLogin { id, creat: Timestamp { secs: at.0, nanos: at.1 } }),
        None => None,
    }
}

impl RequireLogin {
    /// The moment of issue can be written into a token and read back.
    pub open spec fn valid(self) -> bool {
        self.creat.plain()
    }

    /// Issues the token for this claim under `key`. For a valid claim, the
    /// token that comes back verifies under the same key, and verifying it
    /// gives this claim again.
    pub fn sign_with_key(&self, key: &[u8]) -> (r: Option<String>)
        ensures
            r is Some <==> issued(*self, key@) is Some,
            r matches Some(t) ==> Some(t@) == issued(*self, key@),
            r matches Some(t) ==> self.valid() ==> verified(t@, key@) == Some(*self),
    {
        let id_text = ulid_print(self.id);
        let creat_text = match rfc3339_print(self.creat) {
            Some(t) => t,
            None => { return None; },
        };
        let ghost id_view = id_text@;
        let ghost creat_view = creat_text@;
        let mut claims: Vec<(String, String)> = Vec::new();
        claims.push(("id".to_owned(), id_text));
        claims.push(("creat".to_owned(), creat_text));
        let ghost fields = session_claims(id_view, creat_view);
        proof {
            assert(claims_view(claims@) =~= fields);
            lemma_session_lookup(id_view, creat_view);
        }
        let r = jwt_sign(&claims, key);
        proof {
            if r is Some && self.valid() {
                let c = jwt_claims(r->0@, key@)->0;
                assert(lookup(c, "id"@) == lookup(fields, "id"@));
                assert(lookup(c, "creat"@) == lookup(fields, "creat"@));
            }
        }
        r
    }

    /// Verifies `token` under `key` and reads the session it proves. Every
    /// failure, of the signature, of the structure or of the claims, is the
    /// same refusal.
    pub fn verify_with_key(token: &str, key: &[u8]) -> (r: Result<RequireLogin, TamperedOrMalformed>)
        ensures
            r is Ok <==> verified(token@, key@) is Some,
            r matches Ok(claim) ==> Some(claim) == verified(token@, key@),
    {
        match jwt_verify(token, key) {
            Some(claims) => match decode_claims(&claims) {
                Some(claim) => Ok(claim),
                None => Err(TamperedOrMalformed),
            },
            None => Err(TamperedOrMalformed),
        }
    }
}

/// The claims of a session have distinct names, and `id` and `creat` are found
/// among them with their values.
pub proof fn lemma_session_lookup(id_text: Seq<char>, creat_text: Seq<char>)
    ensures
        distinct_names(session_claims(id_text, creat_text)),
        lookup(session_claims(id_text, creat_text), "id"@) == Some(id_text),
        lookup(session_claims(id_text, creat_text), "creat"@) == Some(creat_text),
{
    reveal_strlit("id");
    reveal_strlit("creat");
    let fields = session_claims(id_text, creat_text);
    assert("id"@.len() == 2);
    assert("creat"@.len() == 5);
    assert(fields[0].0 == "id"@);
    assert(fields.drop_first()[0] == fields[1]);
    reveal_with_fuel(lookup, 3);
}

} // verus!
