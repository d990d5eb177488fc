use blogdrown::password::{cost_for, hash_with_salt, scrypt_hash, scrypt_verify};

#[test]
fn hash_then_verify_accepts() {
    let h = scrypt_hash("correct horse", false).unwrap();
    assert_eq!(scrypt_verify("correct horse", &h), Ok(()));
}

#[test]
fn another_password_is_refused() {
    let h = scrypt_hash("correct horse", false).unwrap();
    assert_eq!(scrypt_verify("battery staple", &h), Err(()));
}

#[test]
fn hash_is_not_the_password() {
    let h = scrypt_hash("correct horse", false).unwrap();
    assert_ne!(h, "correct horse");
    assert!(h.starts_with("$scrypt$ln=5,r=5,p=1$"));
}

#[test]
fn two_hashes_differ_by_their_salt() {
    let a = scrypt_hash("pw-one-two", false).unwrap();
    let b = scrypt_hash("pw-one-two", false).unwrap();
    assert_ne!(a, b);
}

#[test]
fn cost_follows_the_deployment() {
    let p = cost_for(true);
    assert_eq!((p.log_n, p.r, p.p, p.len), (14, 10, 2, 32));
    let d = cost_for(false);
    assert_eq!((d.log_n, d.r, d.p, d.len), (5, 5, 1, 32));
}

#[test]
fn fixed_salt_gives_a_fixed_hash() {
    let a = hash_with_salt("secret-pass", "c2FsdHNhbHRzYWx0", false).unwrap();
    let b = hash_with_salt("secret-pass", "c2FsdHNhbHRzYWx0", false).unwrap();
    assert_eq!(a, b);
    assert!(a.starts_with("$scrypt$ln=5,r=5,p=1$c2FsdHNhbHRzYWx0$"));
    assert_eq!(scrypt_verify("secret-pass", &a), Ok(()));
}

#[test]
fn bad_salt_is_refused() {
    assert!(hash_with_salt("secret-pass", "!!", false).is_none());
}

#[test]
fn garbage_hash_is_refused() {
    assert_eq!(scrypt_verify("anything", "not a hash"), Err(()));
    assert_eq!(scrypt_verify("anything", ""), Err(()));
}
