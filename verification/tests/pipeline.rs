use user_registration::command::UserRegisterCommand;
use user_registration::entity::User;
use user_registration::password::PasswordEncrypter;
use user_registration::pipeline::ErrorCause;
use user_registration::pipeline::PipelineAction;
use user_registration::pipeline::PipelineError;
use user_registration::pipeline::PipelineEvent;
use user_registration::pipeline::PipelineState;
use user_registration::pipeline::Stage;
use user_registration::pipeline::pending_action;
use user_registration::pipeline::step;
use user_registration::store::StoreError;

fn sample_command() -> UserRegisterCommand {
    UserRegisterCommand {
        name: "Ada".to_owned(),
        email: "ada@example.com".to_owned(),
        password: "secret123".to_owned(),
    }
}

fn sample_user() -> User {
    User {
        id: 1,
        name: "Ada".to_owned(),
        email: "ada@example.com".to_owned(),
        created_at: 1000,
        updated_at: 1000,
        deleted_at: None,
    }
}

#[test]
fn happy_path_walks_to_completed() {
    let state = PipelineState::Received { command: sample_command() };
    match pending_action(&state) {
        PipelineAction::InsertUser { name, email } => {
            assert_eq!(name, "Ada");
            assert_eq!(email, "ada@example.com");
        },
        _ => panic!("expected an insert action"),
    }

    let state = step(state, PipelineEvent::UserInserted { result: Ok(sample_user()) });
    match pending_action(&state) {
        PipelineAction::DeriveCredential { password } => assert_eq!(password, "secret123"),
        _ => panic!("expected a derive action"),
    }

    let credential = PasswordEncrypter::new().hash("secret123").unwrap();
    let digest = credential.hash.clone();
    let state = step(state, PipelineEvent::CredentialHashed { result: Ok(credential) });
    match pending_action(&state) {
        PipelineAction::WriteSecurity { user_id, password_hash, salt: _, action_type, counter_type } => {
            assert_eq!(user_id, 1);
            assert_eq!(password_hash, digest);
            assert_eq!(action_type, "REGISTRATION");
            assert_eq!(counter_type, "USER_REGISTRATION");
        },
        _ => panic!("expected a security write action"),
    }

    let state = step(state, PipelineEvent::SecurityWritten { result: Ok((1, 1, 1)) });
    match pending_action(&state) {
        PipelineAction::PublishEvent { user } => assert_eq!(user.id, 1),
        _ => panic!("expected a publish action"),
    }

    let state = step(state, PipelineEvent::EventPublished { result: Ok(()) });
    match pending_action(&state) {
        PipelineAction::Finish { id } => assert_eq!(id, 1),
        _ => panic!("expected to finish"),
    }

    let state = step(state, PipelineEvent::ResultDelivered);
    assert!(matches!(state, PipelineState::Completed { id: 1 }));
}

#[test]
fn user_insert_failure_aborts_before_anything_else() {
    let state = PipelineState::Received { command: sample_command() };
    let state = step(
        state,
        PipelineEvent::UserInserted { result: Err(StoreError::Unreachable) },
    );
    assert!(matches!(
        state,
        PipelineState::Failed {
            error: PipelineError {
                stage: Stage::UserInsert,
                cause: ErrorCause::Store(StoreError::Unreachable),
            },
        }
    ));
    assert!(matches!(
        pending_action(&state),
        PipelineAction::ReportFailure {
            error: PipelineError { stage: Stage::UserInsert, .. },
        }
    ));
}

#[test]
fn hash_failure_leaves_the_machine_failed_at_hash() {
    let state = PipelineState::UserCreated {
        user: sample_user(),
        password: "secret123".to_owned(),
    };
    let state = step(
        state,
        PipelineEvent::CredentialHashed {
            result: Err(user_registration::password::PasswordError::Crypto),
        },
    );
    assert!(matches!(
        state,
        PipelineState::Failed { error: PipelineError { stage: Stage::Hash, .. } }
    ));
}

#[test]
fn security_failure_carries_the_security_stage() {
    let state = PipelineState::CredentialDerived {
        user: sample_user(),
        credential: PasswordEncrypter::new(),
    };
    let state = step(
        state,
        PipelineEvent::SecurityWritten { result: Err(StoreError::Constraint) },
    );
    assert!(matches!(
        state,
        PipelineState::Failed {
            error: PipelineError {
                stage: Stage::Security,
                cause: ErrorCause::Store(StoreError::Constraint),
            },
        }
    ));
}

#[test]
fn failed_state_is_terminal() {
    let failure = PipelineError {
        stage: Stage::Publish,
        cause: ErrorCause::Publish(user_registration::event::PublishError::Timeout),
    };
    let state = PipelineState::Failed { error: failure };
    let state = step(state, PipelineEvent::ResultDelivered);
    assert!(matches!(
        state,
        PipelineState::Failed { error: PipelineError { stage: Stage::Publish, .. } }
    ));
    let state = step(state, PipelineEvent::EventPublished { result: Ok(()) });
    assert!(matches!(
        state,
        PipelineState::Failed { error: PipelineError { stage: Stage::Publish, .. } }
    ));
}

#[test]
fn publish_failure_fails_after_stores_committed() {
    let state = PipelineState::SecurityRecorded { user: sample_user() };
    let state = step(
        state,
        PipelineEvent::EventPublished {
            result: Err(user_registration::event::PublishError::Timeout),
        },
    );
    assert!(matches!(
        state,
        PipelineState::Failed {
            error: PipelineError {
                stage: Stage::Publish,
                cause: ErrorCause::Publish(user_registration::event::PublishError::Timeout),
            },
        }
    ));
}
