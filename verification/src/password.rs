//! Hashing of credentials with scrypt, and verification against a stored hash.

use rand::thread_rng;
use scrypt::password_hash::{PasswordHash, PasswordHasher, PasswordVerifier, SaltString};
use scrypt::{Params, Scrypt};
use vstd::prelude::*;

verus! {

/// The cost of one scrypt computation: the base-two logarithm of the work
/// factor, the block size, the parallelism and the length of the output.
#[derive(Clone, Copy, Debug, PartialEq, Eq, Structural)]
pub struct ScryptCost {
    pub log_n: u8,
    pub r: u32,
    pub p: u32,
    pub len: usize,
}

/// The cost that each deployment hashes with. Production pays for a work
/// factor of 2^14 with wide blocks; elsewhere a cheap setting keeps sign-up fast.
pub open spec fn spec_cost_for(production: bool) -> ScryptCost {
    if production {
        ScryptCost { log_n: 14, r: 10, p: 2, len: 32 }
    } else {
        ScryptCost { log_n: 5, r: 5, p: 1, len: 32 }
    }
}

/// The cost is chosen by the deployment alone, never by a request.
#[verifier::when_used_as_spec(spec_cost_for)]
pub fn cost_for(production: bool) -> (c: ScryptCost)
    ensures
        c == spec_cost_for(production),
{
    if production {
        ScryptCost { log_n: 14, r: 10, p: 2, len: 32 }
    } else {
        ScryptCost { log_n: 5, r: 5, p: 1, len: 32 }
    }
}

/// The PHC string that scrypt derives from a password under a salt and a
/// cost, or `None` where the `scrypt` crate refuses the salt or the cost.
pub uninterp spec fn scrypt_phc(
    password: Seq<char>,
    salt: Seq<char>,
    log_n: u8,
    r: u32,
    p: u32,
    len: usize,
) -> Option<Seq<char>>;

/// Whether the `scrypt` crate accepts `password` for the stored hash `hash`.
pub uninterp spec fn scrypt_accepts(password: Seq<char>, hash: Seq<char>) -> bool;

/// Calls `SaltString::generate` on the thread's random generator. The salt is
/// random, so nothing is claimed of it.
#[verifier::external_body]
fn fresh_salt() -> (salt: String) {
    SaltString::generate(&mut thread_rng()).as_str().to_owned()
}

/// Calls `Scrypt::hash_password_customized` with the cost built by
/// `Params::new` and the salt read by `SaltString::from_b64`, and prints the
/// hash as a PHC string. The contract names the outcome, and claims what the
/// `password-hash` crate is for: verification recomputes the hash from the
/// salt and the cost that the string carries, so it accepts the password that
/// the string was derived from. Only the two costs of the service are
/// admitted: scrypt takes memory in proportion to the cost.
#[verifier::external_body]
fn scrypt_derive(password: &str, salt: &str, cost: ScryptCost) -> (out: Option<String>)
    requires
        cost == spec_cost_for(true) || cost == spec_cost_for(false),
    ensures
        out is Some <==> scrypt_phc(password@, salt@, cost.log_n, cost.r, cost.p, cost.len) is Some,
        out matches Some(h) ==> Some(h@) == scrypt_phc(
            password@,
            salt@,
            cost.log_n,
            cost.r,
            cost.p,
            cost.len,
        ) && scrypt_accepts(password@, h@),
{
    let params = Params::new(cost.log_n, cost.r, cost.p, cost.len).ok()?;
    let salt = SaltString::from_b64(salt).ok()?;
    let hash = Scrypt.hash_password_customized(password.as_bytes(), None, None, params, &salt).ok()?;
    Some(hash.to_string())
}

/// Calls `PasswordHash::new` on the stored string and `Scrypt::verify_password`
/// on the result, which works at the cost that the string carries. The
/// contract names the verdict; a string that does not parse is a refusal.
#[verifier::external_body]
fn scrypt_check(password: &str, hash: &str) -> (ok: bool)
    ensures
        ok == scrypt_accepts(password@, hash@),
{
    match PasswordHash::new(hash) {
        Ok(parsed) => Scrypt.verify_password(password.as_bytes(), &parsed).is_ok(),
        Err(_) => false,
    }
}

/// Derives the hash of `password` under `salt` with the cost of the deployment.
/// What comes back is accepted by [`scrypt_verify`] for the same password.
pub fn hash_with_salt(password: &str, salt: &str, production: bool) -> (out: Option<String>)
    ensures
        out is Some <==> hash_under(password@, salt@, production) is Some,
        out matches Some(h) ==> Some(h@) == hash_under(password@, salt@, production)
            && scrypt_accepts(password@, h@),
{
    scrypt_derive(password, salt, cost_for(production))
}

/// The hash of `password` under `salt` at the cost of the deployment.
pub open spec fn hash_under(password: Seq<char>, salt: Seq<char>, production: bool) -> Option<
    Seq<char>,
> {
    let c = spec_cost_for(production);
    scrypt_phc(password, salt, c.log_n, c.r, c.p, c.len)
}

/// Hashes `password` under a salt drawn afresh, at the cost of the deployment.
/// What comes back, a hash or the failure of the hashing, is what deriving
/// under the salt drawn gives at that cost, and [`scrypt_verify`] accepts the
/// same password for a hash that comes back. Callers treat a failure as fatal.
pub fn scrypt_hash(password: &str, production: bool) -> (out: Option<String>)
    ensures
        exists|salt: Seq<char>| #[trigger] hash_under(password@, salt, production) == text_of(out),
        out matches Some(h) ==> scrypt_accepts(password@, h@),
{
    let salt = fresh_salt();
    let out = hash_with_salt(password, salt.as_str(), production);
    proof {
        assert(hash_under(password@, salt@, production) == text_of(out));
    }
    out
}

/// The text of a hash that may be missing.
pub open spec fn text_of(hash: Option<String>) -> Option<Seq<char>> {
    match hash {
        Some(h) => Some(h@),
        None => None,
    }
}

/// Checks `password` against the stored `hash`, with the salt and the cost that
/// the hash itself carries.
pub fn scrypt_verify(password: &str, hash: &str) -> (r: Result<(), ()>)
    ensures
        r is Ok <==> scrypt_accepts(password@, hash@),
{
    if scrypt_check(password, hash) {
        Ok(())
    } else {
        Err(())
    }
}

} // verus!
