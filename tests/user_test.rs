use blogapp05::{AuthError, Model, RegisterParams, UserTable};

fn params(email: &str, password: &str, name: &str) -> RegisterParams {
    RegisterParams {
        email: email.to_string(),
        password: password.to_string(),
        name: name.to_string(),
    }
}

#[test]
fn integration_test_user_registration() {
    let mut db = UserTable::new();
    let p = params("integration@example.com", "password123", "Integration User");
    let k = Model::create_with_password(&mut db, &p).expect("Failed to create user");
    let user = db.get(k);
    assert_eq!(user.email, "integration@example.com");
    assert_ne!(user.password, "password123");
}

#[test]
fn register_fills_a_fresh_row() {
    let mut db = UserTable::new();
    let k = Model::create_with_password(&mut db, &params("a@x.com", "p1", "A")).unwrap();
    assert_eq!(k, 0);
    assert_eq!(db.len(), 1);
    let user = db.get(k);
    assert_eq!(user.id, 1);
    assert_eq!(user.name, "A");
    assert_eq!(user.password.len(), 60);
    assert!(user.password.starts_with("$2b$12$"));
    assert_eq!(user.pid.as_ref().unwrap().len(), 36);
    assert!(user.created_at > 1_600_000_000);
    assert_eq!(user.created_at, user.updated_at);
    assert!(user.verification_token.is_none());
    assert!(user.reset_token.is_none());
    assert!(user.magic_link_token.is_none());
    assert!(user.email_verified_at.is_none());
    assert_eq!(user.api_key, "");
}

#[test]
fn register_same_email_twice_fails() {
    let mut db = UserTable::new();
    let first = Model::create_with_password(&mut db, &params("dup@x.com", "p1", "A"));
    assert!(first.is_ok());
    let second = Model::create_with_password(&mut db, &params("dup@x.com", "other", "B"));
    assert_eq!(second, Err(AuthError::UniquenessViolation));
    assert_eq!(db.len(), 1);
    assert_eq!(db.get(0).name, "A");
}

#[test]
fn register_then_verify_password_scenario() {
    let mut db = UserTable::new();
    let k = Model::create_with_password(&mut db, &params("a@x.com", "p1", "A")).unwrap();
    let user = db.get(k);
    assert_ne!(user.password, "p1");
    assert!(user.verify_password("p1"));
    assert!(!user.verify_password("wrong"));
}

#[test]
fn verify_password_on_malformed_hash_is_false() {
    let mut db = UserTable::new();
    db.insert_account(&params("m@x.com", "p", "M"), "not a hash".to_string(), "pid-1".to_string(), 10)
        .unwrap();
    assert!(!db.get(0).verify_password("not a hash"));
}

#[test]
fn two_accounts_get_distinct_ids_and_pids() {
    let mut db = UserTable::new();
    db.insert_account(&params("a@x.com", "p", "A"), "h1".to_string(), "pid-a".to_string(), 5).unwrap();
    db.insert_account(&params("b@x.com", "p", "B"), "h2".to_string(), "pid-b".to_string(), 6).unwrap();
    assert_eq!(db.get(0).id, 1);
    assert_eq!(db.get(1).id, 2);
    assert_eq!(Model::find_by_pid(&db, "pid-b"), Some(1));
    assert_eq!(Model::find_by_pid(&db, "pid-c"), None);
    assert_eq!(db.find_by_email("a@x.com"), Some(0));
    assert_eq!(db.find_by_email("c@x.com"), None);
}

#[test]
fn insert_with_taken_pid_fails() {
    let mut db = UserTable::new();
    db.insert_account(&params("a@x.com", "p", "A"), "h1".to_string(), "same".to_string(), 5).unwrap();
    let r = db.insert_account(&params("b@x.com", "p", "B"), "h2".to_string(), "same".to_string(), 6);
    assert_eq!(r, Err(AuthError::UniquenessViolation));
    assert_eq!(db.len(), 1);
}

#[test]
fn insert_with_taken_email_fails() {
    let mut db = UserTable::new();
    db.insert_account(&params("a@x.com", "p", "A"), "h1".to_string(), "pid-1".to_string(), 5).unwrap();
    let r = db.insert_account(&params("a@x.com", "q", "B"), "h2".to_string(), "pid-2".to_string(), 6);
    assert_eq!(r, Err(AuthError::UniquenessViolation));
    assert_eq!(db.len(), 1);
}

#[test]
fn verify_password_on_short_hashes_is_false() {
    let mut db = UserTable::new();
    db.insert_account(&params("e@x.com", "p", "E"), "".to_string(), "pid-e".to_string(), 1).unwrap();
    db.insert_account(&params("f@x.com", "p", "F"), "p1".to_string(), "pid-f".to_string(), 1).unwrap();
    assert!(!db.get(0).verify_password(""));
    assert!(!db.get(1).verify_password("p1"));
}
