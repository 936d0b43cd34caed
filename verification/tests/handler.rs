use user_registration::command::UserRegisterCommand;
use user_registration::event::EventBus;
use user_registration::handler::UserRegisterCommandHandler;
use user_registration::password::PasswordEncrypter;
use user_registration::pipeline::Stage;
use user_registration::user_repository::UserRepository;
use user_registration::user_security_repository::UserSecurityRepository;

#[test]
fn registration_creates_user_credential_history_counter_and_event() {
    let mut handler = UserRegisterCommandHandler::new(
        UserRepository::new(),
        UserSecurityRepository::new(),
    );
    let mut bus = EventBus::new();
    let command = UserRegisterCommand {
        name: "Ada".to_owned(),
        email: "ada@example.com".to_owned(),
        password: "secret123".to_owned(),
    };
    let result = handler.handle(command, &mut bus).unwrap();
    assert_eq!(result.id, 1);
    assert_eq!(bus.published_count(), 1);
    let event = bus.published_at(0);
    assert_eq!(event.subject, "user.registered");
    assert_eq!(
        String::from_utf8(event.payload.clone()).unwrap(),
        "{\"event\":\"user.registered\",\"user\":{\"id\":1,\"username\":\"Ada\",\"email\":\"ada@example.com\"}}"
    );

    let second = UserRegisterCommand {
        name: "Grace".to_owned(),
        email: "grace@example.com".to_owned(),
        password: "secret456".to_owned(),
    };
    let second_result = handler.handle(second, &mut bus).unwrap();
    assert_eq!(second_result.id, 2);
    assert_eq!(bus.published_count(), 2);

    let counted = handler
        .user_security_repository
        .insert_security_counter("USER_REGISTRATION".to_owned());
    assert_eq!(counted, Ok(3));
}

#[test]
fn registered_credential_verifies_against_the_password() {
    let mut handler = UserRegisterCommandHandler::new(
        UserRepository::new(),
        UserSecurityRepository::new(),
    );
    let mut bus = EventBus::new();
    let command = UserRegisterCommand {
        name: "Ada".to_owned(),
        email: "ada@example.com".to_owned(),
        password: "secret123".to_owned(),
    };
    let result = handler.handle(command, &mut bus).unwrap();
    assert_eq!(result.id, 1);

    assert_eq!(handler.user_repository.user_count(), 1);
    let user = handler.user_repository.user_at(0);
    assert_eq!(user.id, 1);
    assert_eq!(user.name, "Ada");
    assert_eq!(user.email, "ada@example.com");

    assert_eq!(handler.user_security_repository.history_count(), 1);
    let audit = handler.user_security_repository.history_at(0);
    assert_eq!(audit.user_id, 1);
    assert_eq!(audit.action_type, "REGISTRATION");
    assert!(audit.ip_address.is_none());
    assert!(audit.device_info.is_none());

    assert_eq!(handler.user_security_repository.counter_count(), 1);
    let counter = handler.user_security_repository.counter_at(0);
    assert_eq!(counter.counter_type, "USER_REGISTRATION");
    assert_eq!(counter.counter_value, 1);

    // The stored digest verifies against the command's password; it is
    // never the plaintext itself.
    assert_eq!(handler.user_security_repository.credential_count(), 1);
    let stored = handler.user_security_repository.credential_at(0);
    assert_eq!(stored.user_id, 1);
    assert_ne!(stored.password_hash, "secret123");
    let encrypter = PasswordEncrypter::new();
    let hash = stored.password_hash.clone();
    let salt = stored.salt.clone();
    assert!(encrypter.verify("secret123", &hash, &salt).unwrap());
}

#[test]
fn security_failure_reports_stage_and_keeps_committed_writes() {
    let mut handler = UserRegisterCommandHandler::new(
        UserRepository::new(),
        UserSecurityRepository::new(),
    );
    // Seed a credential under the id the user store will assign next, so the
    // credential write of the registration hits the unique constraint.
    let seeded = handler
        .user_security_repository
        .insert_password(1, "stale digest".to_owned(), "stale salt".to_owned());
    assert_eq!(seeded, Ok(1));

    let mut bus = EventBus::new();
    let command = UserRegisterCommand {
        name: "Ada".to_owned(),
        email: "ada@example.com".to_owned(),
        password: "secret123".to_owned(),
    };
    let err = handler.handle(command, &mut bus).unwrap_err();
    assert_eq!(err.stage, Stage::Security);
    assert_eq!(bus.published_count(), 0);

    // The user row committed before the failing stage stays; the sibling
    // security writes that succeeded are not rolled back: the audit row and
    // the counter landed, so the next history id is 2 and the counter is at 2.
    let next_user = handler
        .user_repository
        .insert("Grace".to_owned(), "grace@example.com".to_owned())
        .unwrap();
    assert_eq!(next_user.id, 2);
    let next_history = handler
        .user_security_repository
        .insert_security_history(2, "REGISTRATION".to_owned(), None, None)
        .unwrap();
    assert_eq!(next_history, 2);
    let counter = handler
        .user_security_repository
        .insert_security_counter("USER_REGISTRATION".to_owned());
    assert_eq!(counter, Ok(2));
}
