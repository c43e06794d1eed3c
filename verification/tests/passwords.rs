use shop_server::util::{hash_password, verify_password};

#[test]
fn hashed_password_verifies() {
    let hash = hash_password("hunter2".to_string()).expect("hashing works");
    assert!(hash.starts_with("$argon2id$"));
    assert!(verify_password("hunter2".to_string(), hash.clone()));
}

#[test]
fn other_password_does_not_verify() {
    let hash = hash_password("hunter2".to_string()).expect("hashing works");
    assert!(!verify_password("hunter3".to_string(), hash));
}

#[test]
fn hash_is_salted() {
    let a = hash_password("same".to_string()).unwrap();
    let b = hash_password("same".to_string()).unwrap();
    assert_ne!(a, b);
}

#[test]
fn malformed_hash_accepts_nothing() {
    assert!(!verify_password("hunter2".to_string(), "not a hash".to_string()));
    assert!(!verify_password("".to_string(), "".to_string()));
}

#[test]
fn hash_has_default_argon2id_form() {
    let hash = hash_password("2".to_string()).unwrap();
    assert_eq!(hash.len(), 97);
    assert!(hash.starts_with("$argon2id$v=19$m=19456,t=2,p=1$"));
    assert_eq!(&hash[53..54], "$");
}
