use blogapp05::{AuthError, Model, RegisterParams, TokenPurpose, UserTable};

fn table_with(emails: &[&str]) -> UserTable {
    let mut db = UserTable::new();
    for (i, e) in emails.iter().enumerate() {
        let p = RegisterParams {
            email: e.to_string(),
            password: "pw".to_string(),
            name: "N".to_string(),
        };
        db.insert_account(&p, "hash".to_string(), format!("pid-{}", i), 100).unwrap();
    }
    db
}

#[test]
fn new_reset_token_supersedes_old_one() {
    let mut db = table_with(&["a@x.com"]);
    Model::set_forgot_password_sent(&mut db, 0).unwrap();
    let first = db.get(0).reset_token.clone().unwrap();
    assert_eq!(first.len(), 36);
    assert!(db.get(0).reset_sent_at.is_some());
    assert_eq!(Model::find_by_reset_token(&db, &first), Some(0));
    Model::set_forgot_password_sent(&mut db, 0).unwrap();
    let second = db.get(0).reset_token.clone().unwrap();
    assert_ne!(first, second);
    assert_eq!(Model::find_by_reset_token(&db, &first), None);
    assert_eq!(Model::find_by_reset_token(&db, &second), Some(0));
}

#[test]
fn magic_link_is_single_use() {
    let mut db = table_with(&["a@x.com", "b@x.com"]);
    Model::create_magic_link(&mut db, 1).unwrap();
    let token = db.get(1).magic_link_token.clone().unwrap();
    assert_eq!(Model::find_by_magic_token(&db, &token), Some(1));
    assert_eq!(Model::clear_magic_link(&mut db, &token), Ok(1));
    assert!(db.get(1).magic_link_token.is_none());
    assert!(db.get(1).email_verified_at.is_some());
    assert!(db.get(0).email_verified_at.is_none());
    assert_eq!(Model::clear_magic_link(&mut db, &token), Err(AuthError::NotFound));
}

#[test]
fn magic_link_keeps_earlier_verification_time() {
    let mut db = table_with(&["a@x.com"]);
    db.issue(0, TokenPurpose::Verification, "v-token".to_string(), 200).unwrap();
    assert_eq!(db.get(0).email_verification_sent_at, Some(200));
    assert_eq!(db.consume(TokenPurpose::Verification, "v-token", 300), Ok(0));
    assert_eq!(db.get(0).email_verified_at, Some(300));
    db.issue(0, TokenPurpose::MagicLink, "m-token".to_string(), 400).unwrap();
    assert_eq!(db.consume(TokenPurpose::MagicLink, "m-token", 500), Ok(0));
    assert_eq!(db.get(0).email_verified_at, Some(300));
    assert_eq!(db.get(0).updated_at, 500);
}

#[test]
fn verification_token_marks_email_verified() {
    let mut db = table_with(&["a@x.com"]);
    Model::set_email_verification_sent(&mut db, 0).unwrap();
    let token = db.get(0).verification_token.clone().unwrap();
    assert!(db.get(0).email_verification_sent_at.is_some());
    assert_eq!(Model::find_by_verification_token(&db, &token), Some(0));
    assert_eq!(Model::verified(&mut db, &token), Ok(0));
    assert!(db.get(0).verification_token.is_none());
    assert!(db.get(0).email_verified_at.is_some());
    assert_eq!(Model::verified(&mut db, &token), Err(AuthError::NotFound));
}

#[test]
fn unknown_tokens_are_not_found() {
    let mut db = table_with(&["a@x.com"]);
    assert_eq!(Model::verified(&mut db, "nope"), Err(AuthError::NotFound));
    assert_eq!(Model::clear_magic_link(&mut db, "nope"), Err(AuthError::NotFound));
    assert_eq!(Model::reset_password(&mut db, "nope", "new"), Err(AuthError::NotFound));
    assert_eq!(db.get(0).password, "hash");
}

#[test]
fn tokens_of_one_purpose_do_not_match_another() {
    let mut db = table_with(&["a@x.com"]);
    db.issue(0, TokenPurpose::PasswordReset, "t".to_string(), 1).unwrap();
    assert_eq!(Model::find_by_magic_token(&db, "t"), None);
    assert_eq!(Model::find_by_verification_token(&db, "t"), None);
    assert_eq!(db.consume(TokenPurpose::MagicLink, "t", 2), Err(AuthError::NotFound));
    assert_eq!(db.get(0).reset_token.as_deref(), Some("t"));
}

#[test]
fn issuing_a_held_token_fails() {
    let mut db = table_with(&["a@x.com", "b@x.com"]);
    db.issue(0, TokenPurpose::MagicLink, "t".to_string(), 1).unwrap();
    let r = db.issue(1, TokenPurpose::MagicLink, "t".to_string(), 2);
    assert_eq!(r, Err(AuthError::UniquenessViolation));
    assert!(db.get(1).magic_link_token.is_none());
    let again = db.issue(0, TokenPurpose::MagicLink, "t".to_string(), 3);
    assert_eq!(again, Err(AuthError::UniquenessViolation));
    assert!(db.issue(1, TokenPurpose::PasswordReset, "t".to_string(), 4).is_ok());
}

#[test]
fn reset_password_replaces_hash_and_clears_token() {
    let mut db = table_with(&["a@x.com"]);
    db.issue(0, TokenPurpose::PasswordReset, "r-token".to_string(), 10).unwrap();
    assert_eq!(Model::reset_password(&mut db, "r-token", "fresh"), Ok(0));
    let user = db.get(0);
    assert!(user.reset_token.is_none());
    assert_ne!(user.password, "fresh");
    assert!(user.verify_password("fresh"));
    assert!(!user.verify_password("pw"));
    assert_eq!(Model::reset_password(&mut db, "r-token", "again"), Err(AuthError::NotFound));
}

#[test]
fn redeem_reset_stores_given_hash() {
    let mut db = table_with(&["a@x.com"]);
    db.issue(0, TokenPurpose::PasswordReset, "r".to_string(), 10).unwrap();
    assert_eq!(db.redeem_reset("r", "new-hash".to_string(), 20), Ok(0));
    assert_eq!(db.get(0).password, "new-hash");
    assert_eq!(db.get(0).updated_at, 20);
    assert!(db.get(0).reset_token.is_none());
}

#[test]
fn row_issue_and_consume_change_only_their_fields() {
    let mut db = table_with(&["a@x.com"]);
    db.issue(0, TokenPurpose::MagicLink, "m".to_string(), 7).unwrap();
    let m = db.get(0);
    assert_eq!(m.magic_link_token.as_deref(), Some("m"));
    assert_eq!(m.updated_at, 7);
    assert_eq!(m.created_at, 100);
    assert!(m.reset_sent_at.is_none());
    assert!(m.email_verification_sent_at.is_none());
    assert_eq!(db.consume(TokenPurpose::MagicLink, "m", 9), Ok(0));
    assert_eq!(db.get(0).email_verified_at, Some(9));
    assert_eq!(db.get(0).password, "hash");
}
