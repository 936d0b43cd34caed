//! The registration pipeline as a state machine.
//!
//! A registration walks `Received → UserCreated → CredentialDerived →
//! SecurityRecorded → Published → Completed`; a failure at any stage moves it
//! to the terminal `Failed` state carrying the stage and its cause. The
//! machine itself performs no writes: `pending_action` says what has to be
//! done in each state, the surrounding runtime performs it — against the
//! stores and the broker of its choosing — and feeds the outcome back
//! through `step`. No step is retried here; retry policy belongs to the
//! caller.

use vstd::prelude::*;
use crate::command::UserRegisterCommand;
use crate::entity::User;
use crate::event::PublishError;
use crate::password::PasswordEncrypter;
use crate::password::PasswordError;
use crate::store::StoreError;

verus! {

/// The audit tag every registration appends to the security history.
pub open spec fn registration_action() -> Seq<char> {
    "REGISTRATION"@
}

/// The counter key every registration increments.
pub open spec fn registration_counter() -> Seq<char> {
    "USER_REGISTRATION"@
}

/// The stage at which a registration failed.
#[derive(Clone, Copy, Debug, PartialEq, Eq, Structural)]
pub enum Stage {
    UserInsert,
    Hash,
    Security,
    Publish,
}

/// What went wrong underneath a failed stage.
#[derive(Clone, Copy, Debug, PartialEq, Eq, Structural)]
pub enum ErrorCause {
    Store(StoreError),
    Hash(PasswordError),
    Publish(PublishError),
}

/// A pipeline failure: the stage that failed, and its cause. The stage tag is
/// what a caller may branch on; the cause preserves the underlying error for
/// diagnostics.
#[derive(Clone, Copy, Debug, PartialEq, Eq, Structural)]
pub struct PipelineError {
    pub stage: Stage,
    pub cause: ErrorCause,
}

/// Where one registration stands.
pub enum PipelineState {
    Received { command: UserRegisterCommand },
    UserCreated { user: User, password: String },
    CredentialDerived { user: User, credential: PasswordEncrypter },
    SecurityRecorded { user: User },
    Published { id: i32 },
    Completed { id: i32 },
    Failed { error: PipelineError },
}

/// What the runtime must do next for a registration in a given state.
pub enum PipelineAction {
    /// Insert the user row and report the stored row.
    InsertUser { name: String, email: String },
    /// Derive the salted credential for the password.
    DeriveCredential { password: String },
    /// Issue the three security writes — credential, audit row with the
    /// given action tag, upsert of the given counter — concurrently, and
    /// report the first failure if any.
    WriteSecurity {
        user_id: i32,
        password_hash: String,
        salt: String,
        action_type: String,
        counter_type: String,
    },
    /// Publish the registered-user event for this user.
    PublishEvent { user: User },
    /// Hand the result id back to the caller.
    Finish { id: i32 },
    /// Report the failure; nothing further runs.
    ReportFailure { error: PipelineError },
}

/// The outcome of one performed action, fed back into the machine.
#[allow(inconsistent_fields)]
pub enum PipelineEvent {
    UserInserted { result: Result<User, StoreError> },
    CredentialHashed { result: Result<PasswordEncrypter, PasswordError> },
    SecurityWritten { result: Result<(i32, i64, i64), StoreError> },
    EventPublished { result: Result<(), PublishError> },
    ResultDelivered,
}

/// The transition relation: from a state and the outcome of its pending
/// action to the next state. An outcome that does not belong to the state
/// leaves the state as it is.
pub open spec fn spec_step(state: PipelineState, event: PipelineEvent) -> PipelineState {
    match (state, event) {
        (
            PipelineState::Received { command },
            PipelineEvent::UserInserted { result },
        ) => match result {
            Result::Ok(user) => PipelineState::UserCreated { user, password: command.password },
            Result::Err(e) => PipelineState::Failed {
                error: PipelineError { stage: Stage::UserInsert, cause: ErrorCause::Store(e) },
            },
        },
        (
            PipelineState::UserCreated { user, password },
            PipelineEvent::CredentialHashed { result },
        ) => match result {
            Result::Ok(credential) => PipelineState::CredentialDerived { user, credential },
            Result::Err(e) => PipelineState::Failed {
                error: PipelineError { stage: Stage::Hash, cause: ErrorCause::Hash(e) },
            },
        },
        (
            PipelineState::CredentialDerived { user, credential },
            PipelineEvent::SecurityWritten { result },
        ) => match result {
            Result::Ok(_) => PipelineState::SecurityRecorded { user },
            Result::Err(e) => PipelineState::Failed {
                error: PipelineError { stage: Stage::Security, cause: ErrorCause::Store(e) },
            },
        },
        (
            PipelineState::SecurityRecorded { user },
            PipelineEvent::EventPublished { result },
        ) => match result {
            Result::Ok(_) => PipelineState::Published { id: user.id },
            Result::Err(e) => PipelineState::Failed {
                error: PipelineError { stage: Stage::Publish, cause: ErrorCause::Publish(e) },
            },
        },
        (PipelineState::Published { id }, PipelineEvent::ResultDelivered) => PipelineState::Completed {
            id,
        },
        (s, _) => s,
    }
}

/// The action pending in each state: the write or publish the runtime has to
/// perform next, the result to deliver, or the failure to report. The two
/// tags a registration writes — REGISTRATION on the audit row and
/// USER_REGISTRATION on the counter — are part of the security-write action.
pub open spec fn pending_action_matches(state: PipelineState, action: PipelineAction) -> bool {
    match state {
        PipelineState::Received { command } => action == (PipelineAction::InsertUser {
            name: command.name,
            email: command.email,
        }),
        PipelineState::UserCreated { user, password } => action
            == (PipelineAction::DeriveCredential { password }),
        PipelineState::CredentialDerived { user, credential } => match action {
            PipelineAction::WriteSecurity {
                user_id,
                password_hash,
                salt,
                action_type,
                counter_type,
            } => {
                &&& user_id == user.id
                &&& password_hash == credential.hash
                &&& salt == credential.salt
                &&& action_type@ == registration_action()
                &&& counter_type@ == registration_counter()
            },
            _ => false,
        },
        PipelineState::SecurityRecorded { user } => action == (PipelineAction::PublishEvent {
            user,
        }),
        PipelineState::Published { id } => action == (PipelineAction::Finish { id }),
        PipelineState::Completed { id } => action == (PipelineAction::Finish { id }),
        PipelineState::Failed { error } => action == (PipelineAction::ReportFailure { error }),
    }
}

/// Advance the machine by one observed outcome.
pub fn step(state: PipelineState, event: PipelineEvent) -> (r: PipelineState)
    ensures
        r == spec_step(state, event),
{
    match (state, event) {
        (
            PipelineState::Received { command },
            PipelineEvent::UserInserted { result },
        ) => match result {
            Result::Ok(user) => PipelineState::UserCreated { user, password: command.password },
            Result::Err(e) => PipelineState::Failed {
                error: PipelineError { stage: Stage::UserInsert, cause: ErrorCause::Store(e) },
            },
        },
        (
            PipelineState::UserCreated { user, password },
            PipelineEvent::CredentialHashed { result },
        ) => match result {
            Result::Ok(credential) => PipelineState::CredentialDerived { user, credential },
            Result::Err(e) => PipelineState::Failed {
                error: PipelineError { stage: Stage::Hash, cause: ErrorCause::Hash(e) },
            },
        },
        (
            PipelineState::CredentialDerived { user, credential },
            PipelineEvent::SecurityWritten { result },
        ) => match result {
            Result::Ok(_) => PipelineState::SecurityRecorded { user },
            Result::Err(e) => PipelineState::Failed {
                error: PipelineError { stage: Stage::Security, cause: ErrorCause::Store(e) },
            },
        },
        (
            PipelineState::SecurityRecorded { user },
            PipelineEvent::EventPublished { result },
        ) => match result {
            Result::Ok(_) => PipelineState::Published { id: user.id },
            Result::Err(e) => PipelineState::Failed {
                error: PipelineError { stage: Stage::Publish, cause: ErrorCause::Publish(e) },
            },
        },
        (PipelineState::Published { id }, PipelineEvent::ResultDelivered) => {
            PipelineState::Completed { id }
        },
        (s, _) => s,
    }
}

/// What the runtime has to do next for `state`.
pub fn pending_action(state: &PipelineState) -> (r: PipelineAction)
    ensures
        pending_action_matches(*state, r),
{
    match state {
        PipelineState::Received { command } => PipelineAction::InsertUser {
            name: command.name.clone(),
            email: command.email.clone(),
        },
        PipelineState::UserCreated { user: _, password } => PipelineAction::DeriveCredential {
            password: password.clone(),
        },
        PipelineState::CredentialDerived { user, credential } => PipelineAction::WriteSecurity {
            user_id: user.id,
            password_hash: credential.hash.clone(),
            salt: credential.salt.clone(),
            action_type: "REGISTRATION".to_owned(),
            counter_type: "USER_REGISTRATION".to_owned(),
        },
        PipelineState::SecurityRecorded { user } => PipelineAction::PublishEvent {
            user: user.clone(),
        },
        PipelineState::Published { id } => PipelineAction::Finish { id: *id },
        PipelineState::Completed { id } => PipelineAction::Finish { id: *id },
        PipelineState::Failed { error } => PipelineAction::ReportFailure { error: *error },
    }
}

/// Law: five successful outcomes walk one registration through the whole
/// pipeline — `Received → UserCreated → CredentialDerived → SecurityRecorded
/// → Published → Completed` — and the id it completes with is the inserted
/// user's.
pub proof fn lemma_happy_path_completes(
    command: UserRegisterCommand,
    user: User,
    credential: PasswordEncrypter,
    ids: (i32, i64, i64),
)
    ensures
        ({
            let s1 = spec_step(
                PipelineState::Received { command },
                PipelineEvent::UserInserted { result: Result::Ok(user) },
            );
            let s2 = spec_step(
                s1,
                PipelineEvent::CredentialHashed { result: Result::Ok(credential) },
            );
            let s3 = spec_step(s2, PipelineEvent::SecurityWritten { result: Result::Ok(ids) });
            let s4 = spec_step(s3, PipelineEvent::EventPublished { result: Result::Ok(()) });
            let s5 = spec_step(s4, PipelineEvent::ResultDelivered);
            &&& s1 == (PipelineState::UserCreated { user, password: command.password })
            &&& s2 == (PipelineState::CredentialDerived { user, credential })
            &&& s3 == (PipelineState::SecurityRecorded { user })
            &&& s4 == (PipelineState::Published { id: user.id })
            &&& s5 == (PipelineState::Completed { id: user.id })
        }),
{
}

/// Law: failure is terminal — once the machine is `Failed`, no outcome moves
/// it, so nothing downstream of a failed stage ever runs.
pub proof fn lemma_failed_is_terminal(error: PipelineError, event: PipelineEvent)
    ensures
        spec_step(PipelineState::Failed { error }, event) == (PipelineState::Failed { error }),
{
}

/// Law: completion is terminal — a registration that has handed out its
/// result never changes again.
pub proof fn lemma_completed_is_terminal(id: i32, event: PipelineEvent)
    ensures
        spec_step(PipelineState::Completed { id }, event) == (PipelineState::Completed { id }),
{
}

} // verus!
