use user_registration::store::StoreError;
use user_registration::user_repository::UserRepository;
use user_registration::user_security_repository::UserSecurityRepository;
use user_registration::user_security_repository::counter_upserts_accumulate;

#[test]
fn user_ids_ascend_from_one() {
    let mut repo = UserRepository::new();
    let first = repo.insert("Ada".to_owned(), "ada@example.com".to_owned()).unwrap();
    let second = repo.insert("Grace".to_owned(), "grace@example.com".to_owned()).unwrap();
    assert_eq!(first.id, 1);
    assert_eq!(second.id, 2);
    assert_eq!(first.name, "Ada");
    assert_eq!(first.email, "ada@example.com");
    assert_eq!(first.created_at, first.updated_at);
    assert!(first.deleted_at.is_none());
}

#[test]
fn duplicate_credential_is_refused() {
    let mut repo = UserSecurityRepository::new();
    let first = repo.insert_password(1, "digest".to_owned(), "salt".to_owned());
    assert_eq!(first, Ok(1));
    let second = repo.insert_password(1, "other".to_owned(), "other".to_owned());
    assert_eq!(second, Err(StoreError::Constraint));
    let other_user = repo.insert_password(2, "digest".to_owned(), "salt".to_owned());
    assert_eq!(other_user, Ok(2));
}

#[test]
fn history_rows_get_ascending_ids() {
    let mut repo = UserSecurityRepository::new();
    let first = repo
        .insert_security_history(1, "REGISTRATION".to_owned(), None, None)
        .unwrap();
    let second = repo
        .insert_security_history(1, "LOGIN".to_owned(), Some("127.0.0.1".to_owned()), None)
        .unwrap();
    assert_eq!(first, 1);
    assert_eq!(second, 2);
}

#[test]
fn counter_upsert_creates_then_increments() {
    let mut repo = UserSecurityRepository::new();
    assert_eq!(repo.insert_security_counter("USER_REGISTRATION".to_owned()), Ok(1));
    assert_eq!(repo.insert_security_counter("USER_REGISTRATION".to_owned()), Ok(2));
    assert_eq!(repo.insert_security_counter("USER_REGISTRATION".to_owned()), Ok(3));
}

#[test]
fn counters_of_different_types_are_independent() {
    let mut repo = UserSecurityRepository::new();
    assert_eq!(repo.insert_security_counter("USER_REGISTRATION".to_owned()), Ok(1));
    assert_eq!(repo.insert_security_counter("PASSWORD_RESET".to_owned()), Ok(1));
    assert_eq!(repo.insert_security_counter("USER_REGISTRATION".to_owned()), Ok(2));
    assert_eq!(repo.insert_security_counter("PASSWORD_RESET".to_owned()), Ok(2));
}

#[test]
fn n_upserts_leave_counter_at_n() {
    let mut repo = UserSecurityRepository::new();
    counter_upserts_accumulate(&mut repo, "USER_REGISTRATION", 25);
    assert_eq!(repo.insert_security_counter("USER_REGISTRATION".to_owned()), Ok(26));
}
