//! The registration command handler: the orchestrator that walks one command
//! through user insert, credential derivation, the three security writes and
//! the event publish, with fail-fast error reporting and no rollback.
//!
//! The three security writes mirror a concurrent fan-out with a join: all
//! three are issued, the handler waits for all of them, and the first failure
//! in issue order wins while the writes that succeeded stay committed. No
//! stage is retried; a failure is handed to the caller with the stage it
//! happened at.

use vstd::prelude::*;
use crate::command::UserRegisterCommand;
use crate::command::UserRegisterCommandResult;
use crate::event::EventBus;
use crate::event::registered_event_payload;
use crate::event::registered_event_subject;
use crate::event::encode_registered_event;
use crate::password::PasswordEncrypter;
use crate::password::PasswordError;
use crate::password::hash_post;
use crate::pipeline::ErrorCause;
use crate::pipeline::PipelineError;
use crate::pipeline::Stage;
use crate::pipeline::registration_action;
use crate::pipeline::registration_counter;
use crate::store::StoreError;
use crate::user_repository::UserRepository;
use crate::user_security_repository::UserSecurityRepository;
use crate::user_security_repository::counter_value;
use crate::user_security_repository::has_counter;
use crate::user_security_repository::has_credential;
use vstd::utf8::encode_utf8;

verus! {

/// Whether the security store would accept the counter upsert of one more
/// registration: the present value, or the counter id space, has room left.
pub open spec fn counter_upsert_accepted(sr: UserSecurityRepository) -> bool {
    if has_counter(sr.counters(), registration_counter()) {
        counter_value(sr.counters(), registration_counter()) < i32::MAX
    } else {
        sr.fresh_counter_id() < i64::MAX
    }
}

/// Whether every store write of a registration for the next fresh user id
/// would be accepted: the only thing the stores cannot decide is then the
/// credential derivation itself.
pub open spec fn stores_accept(ur: UserRepository, sr: UserSecurityRepository) -> bool {
    &&& ur.fresh_id() < i32::MAX
    &&& !has_credential(sr.credentials(), ur.fresh_id())
    &&& sr.fresh_credential_id() < i32::MAX
    &&& sr.fresh_history_id() < i64::MAX
    &&& counter_upsert_accepted(sr)
}

#[derive(Debug)]
pub struct UserRegisterCommandHandler {
    pub user_repository: UserRepository,
    pub user_security_repository: UserSecurityRepository,
}

impl UserRegisterCommandHandler {
    pub fn new(user_repository: UserRepository, user_security_repository: UserSecurityRepository)
        -> (r: Self)
        ensures
            r.user_repository == user_repository,
            r.user_security_repository == user_security_repository,
    {
        UserRegisterCommandHandler { user_repository, user_security_repository }
    }

    /// Handle one registration command against the given stores and event
    /// channel.
    ///
    /// On success the returned id is the one the user store assigned, and one
    /// user row, one credential row whose digest verifies against the
    /// command's password, one audit row tagged REGISTRATION and one
    /// increment of the USER_REGISTRATION counter exist for it, with the
    /// registered-user event on the channel. Success is owed exactly when
    /// every store accepts the registration (`stores_accept`): the credential
    /// derivation succeeds for every password. On failure the stage says how
    /// far the pipeline came: nothing ran after the failed stage, and nothing
    /// that committed before it is rolled back.
    pub fn handle(&mut self, command: UserRegisterCommand, bus: &mut EventBus) -> (r: Result<
        UserRegisterCommandResult,
        PipelineError,
    >)
        requires
            old(self).user_repository.wf(),
            old(self).user_security_repository.wf(),
        ensures
            final(self).user_repository.wf(),
            final(self).user_security_repository.wf(),
            r matches Ok(res) ==> ({
                let id = old(self).user_repository.fresh_id();
                let user = final(self).user_repository.users().last();
                let cred = final(self).user_security_repository.credentials().last();
                let hist = final(self).user_security_repository.history().last();
                let ev = final(bus).published().last();
                &&& res.id as int == id
                &&& user.id as int == id
                &&& user.name == command.name
                &&& user.email == command.email
                &&& user.deleted_at is None
                &&& final(self).user_repository.users() == old(self).user_repository.users().push(
                    user,
                )
                &&& final(self).user_security_repository.credentials() == old(
                    self,
                ).user_security_repository.credentials().push(cred)
                &&& cred.user_id == user.id
                &&& hash_post(command.password@, cred.password_hash@, cred.salt@)
                &&& final(self).user_security_repository.history() == old(
                    self,
                ).user_security_repository.history().push(hist)
                &&& hist.user_id == user.id
                &&& hist.action_type@ == registration_action()
                &&& hist.ip_address is None
                &&& hist.device_info is None
                &&& has_counter(
                    final(self).user_security_repository.counters(),
                    registration_counter(),
                )
                &&& counter_value(
                    final(self).user_security_repository.counters(),
                    registration_counter(),
                ) == counter_value(
                    old(self).user_security_repository.counters(),
                    registration_counter(),
                ) + 1
                &&& final(bus).published() == old(bus).published().push(ev)
                &&& ev.subject@ == "user.registered"@
                &&& ev.payload@ == registered_event_payload(
                    id,
                    encode_utf8(user.name@),
                    encode_utf8(user.email@),
                )
            }),
            r is Ok <==> stores_accept(
                old(self).user_repository,
                old(self).user_security_repository,
            ),
            r is Err ==> final(bus).published() == old(bus).published(),
            r matches Err(e) ==> (e.stage == Stage::UserInsert || e.stage == Stage::Hash
                || e.stage == Stage::Security),
            r matches Err(e) ==> (e.stage == Stage::UserInsert <==> old(
                self,
            ).user_repository.fresh_id() == i32::MAX),
            r matches Err(e) ==> e.stage == Stage::UserInsert ==> ({
                &&& final(self).user_repository == old(self).user_repository
                &&& final(self).user_security_repository == old(self).user_security_repository
                &&& e.cause == ErrorCause::Store(StoreError::Constraint)
            }),
            r matches Err(e) ==> e.stage == Stage::Hash ==> ({
                let user = final(self).user_repository.users().last();
                &&& final(self).user_repository.users() == old(self).user_repository.users().push(
                    user,
                )
                &&& user.id as int == old(self).user_repository.fresh_id()
                &&& user.name == command.name
                &&& user.email == command.email
                &&& final(self).user_security_repository == old(self).user_security_repository
                &&& e.cause == ErrorCause::Hash(PasswordError::Crypto)
            }),
            r matches Err(e) ==> e.stage == Stage::Security ==> ({
                let id = old(self).user_repository.fresh_id();
                let sr_old = old(self).user_security_repository;
                let sr_new = final(self).user_security_repository;
                &&& final(self).user_repository.users() == old(self).user_repository.users().push(
                    final(self).user_repository.users().last(),
                )
                &&& final(self).user_repository.users().last().id as int == id
                &&& e.cause matches ErrorCause::Store(_)
                &&& !(stores_accept(old(self).user_repository, sr_old))
                &&& (!has_credential(sr_old.credentials(), id) && sr_old.fresh_credential_id()
                    < i32::MAX ==> sr_new.credentials() == sr_old.credentials().push(
                    sr_new.credentials().last(),
                ) && sr_new.credentials().last().user_id as int == id)
                &&& ((has_credential(sr_old.credentials(), id) || sr_old.fresh_credential_id()
                    == i32::MAX) ==> sr_new.credentials() == sr_old.credentials())
                &&& (sr_old.fresh_history_id() < i64::MAX ==> sr_new.history()
                    == sr_old.history().push(sr_new.history().last())
                    && sr_new.history().last().user_id as int == id
                    && sr_new.history().last().action_type@ == registration_action())
                &&& (sr_old.fresh_history_id() == i64::MAX ==> sr_new.history()
                    == sr_old.history())
                &&& (counter_upsert_accepted(sr_old) ==> counter_value(
                    sr_new.counters(),
                    registration_counter(),
                ) == counter_value(sr_old.counters(), registration_counter()) + 1)
                &&& (!counter_upsert_accepted(sr_old) ==> sr_new.counters() == sr_old.counters())
            }),
    {
        let user = match self.user_repository.insert(command.name.clone(), command.email.clone()) {
            Ok(u) => u,
            Err(e) => {
                return Err(PipelineError { stage: Stage::UserInsert, cause: ErrorCause::Store(e) });
            },
        };
        let encrypter = PasswordEncrypter::new();
        let encrypted_password = match encrypter.hash(command.password.as_str()) {
            Ok(enc) => enc,
            Err(e) => {
                return Err(PipelineError { stage: Stage::Hash, cause: ErrorCause::Hash(e) });
            },
        };
        let password_write = self.user_security_repository.insert_password(
            user.id,
            encrypted_password.hash.clone(),
            encrypted_password.salt.clone(),
        );
        let history_write = self.user_security_repository.insert_security_history(
            user.id,
            "REGISTRATION".to_owned(),
            None,
            None,
        );
        let counter_write = self.user_security_repository.insert_security_counter(
            "USER_REGISTRATION".to_owned(),
        );
        match password_write {
            Ok(_) => {},
            Err(e) => {
                return Err(PipelineError { stage: Stage::Security, cause: ErrorCause::Store(e) });
            },
        }
        match history_write {
            Ok(_) => {},
            Err(e) => {
                return Err(PipelineError { stage: Stage::Security, cause: ErrorCause::Store(e) });
            },
        }
        match counter_write {
            Ok(_) => {},
            Err(e) => {
                return Err(PipelineError { stage: Stage::Security, cause: ErrorCause::Store(e) });
            },
        }
        let payload = encode_registered_event(user.id, user.name.as_str(), user.email.as_str());
        match bus.publish(registered_event_subject().to_owned(), payload) {
            Ok(_) => {},
            Err(e) => {
                return Err(PipelineError { stage: Stage::Publish, cause: ErrorCause::Publish(e) });
            },
        }
        Ok(UserRegisterCommandResult { id: user.id })
    }
}

} // verus!
