//! The user orchestrator: registration as sign-up followed by the mirror
//! write, and the pass-through operations. Each network call is made by the
//! caller, which hands the reply back to the step that decides on it.
use vstd::prelude::*;

use crate::errors::{provider_error, store_fault_text, ProviderFault, StoreFault, UserError};
use crate::identity::{
    access_token_of, authenticate_outcome, confirm_outcome, CognitoService, ConfirmSignUpRequest,
    InitiateAuthReply, InitiateAuthRequest, ListUsersRequest, SignUpRequest, LIST_PAGE_LIMIT,
};
use crate::models::{CreateUser, User};
use crate::secret_hash::secret_hash_of;
use crate::store::{
    creates_table, scanned_emails, user_emails, AttributeValue, PutItemRequest, TableStatus,
    TableStep, UserStore, TABLE_CAPACITY_UNITS,
};

verus! {

/// The two services, and whether registration mirrors users into the store.
pub struct UserManager {
    pub cognito: CognitoService,
    pub store: UserStore,
    pub mirrors_to_store: bool,
}

/// A registration under way: the provider has been asked to sign up
/// `email`, to be stored under `user_id`.
#[derive(Debug, Clone)]
pub struct Registration {
    pub user_id: String,
    pub email: String,
}

/// What follows a sign-up reply.
#[derive(Debug)]
pub enum RegisterStep {
    /// Write the user's record into the store.
    PutUser(PutItemRequest),
    /// Registration is over, with the user's id or the error.
    Finished(Result<String, UserError>),
}

/// The record write that mirrors a registration.
pub open spec fn is_mirror_write(store: UserStore, reg: Registration, q: PutItemRequest) -> bool {
    &&& q.table_name@ == store.table_name@
    &&& q.item@.len() == 2
    &&& q.item@[0].0@ == store.key_attribute@
    &&& q.item@[0].1 matches AttributeValue::S(v) && v@ == reg.user_id@
    &&& q.item@[1].0@ == "email"@
    &&& q.item@[1].1 matches AttributeValue::S(v) && v@ == reg.email@
}

/// The sign-up request of `email` with `password` for this client.
pub open spec fn is_sign_up_of(
    cognito: CognitoService,
    email: Seq<char>,
    password: Seq<char>,
    q: SignUpRequest,
) -> bool {
    &&& q.client_id@ == cognito.client_id@
    &&& q.username@ == email
    &&& q.password@ == password
    &&& q.secret_hash@ == secret_hash_of(email, cognito.client_id@, cognito.client_secret@)
    &&& q.user_attributes@.len() == 1
    &&& q.user_attributes@[0].name@ == "email"@
    &&& q.user_attributes@[0].value@ == email
}

/// Relies on `Uuid::new_v4` of uuid 1 for a random identifier, written in
/// the hyphenated form of its `Display`: 36 characters.
#[verifier::external_body]
fn new_user_id() -> (r: String)
    ensures
        r@.len() == 36,
{
    uuid::Uuid::new_v4().to_string()
}

impl UserManager {
    pub fn new(cognito: CognitoService, store: UserStore, mirrors_to_store: bool) -> (r: Self)
        ensures
            r.cognito == cognito,
            r.store == store,
            r.mirrors_to_store == mirrors_to_store,
    {
        UserManager { cognito, store, mirrors_to_store }
    }

    /// Starts registering `email` under `user_id`: the sign-up to send.
    pub fn register_user(&self, email: &str, password: &str, user_id: String) -> (r: Result<
        (Registration, SignUpRequest),
        UserError,
    >)
        ensures
            r is Err <==> self.cognito.client_secret@.len() == 0,
            r matches Err(e) ==> e is Configuration,
            r matches Ok((reg, q)) ==> reg.user_id@ == user_id@ && reg.email@ == email@
                && is_sign_up_of(self.cognito, email@, password@, q),
    {
        match self.cognito.register_user(email, password) {
            Ok(q) => Ok((Registration { user_id, email: email.to_owned() }, q)),
            Err(e) => Err(e),
        }
    }

    /// Starts registering a new user under a fresh random identifier.
    pub fn create_user(&self, payload: &CreateUser) -> (r: Result<
        (Registration, SignUpRequest),
        UserError,
    >)
        ensures
            r is Err <==> self.cognito.client_secret@.len() == 0,
            r matches Err(e) ==> e is Configuration,
            r matches Ok((reg, q)) ==> reg.user_id@.len() == 36 && reg.email@ == payload.email@
                && is_sign_up_of(self.cognito, payload.email@, payload.password@, q),
    {
        let user_id = new_user_id();
        self.register_user(payload.email.as_str(), payload.password.as_str(), user_id)
    }

    /// Decides on the sign-up reply: a refused sign-up ends registration
    /// with the provider's error; an accepted one goes on to the mirror
    /// write, or ends with the user's id where nothing is mirrored.
    pub fn sign_up_replied(&self, reg: &Registration, reply: Result<(), ProviderFault>) -> (r:
        RegisterStep)
        ensures
            reply matches Err(f) ==> r matches RegisterStep::Finished(Err(e)) && e
                == provider_error(f),
            reply is Ok && self.mirrors_to_store ==> (r matches RegisterStep::PutUser(q)
                && is_mirror_write(self.store, *reg, q)),
            reply is Ok && !self.mirrors_to_store ==> (r matches RegisterStep::Finished(Ok(id))
                && id@ == reg.user_id@),
    {
        match reply {
            Err(f) => RegisterStep::Finished(Err(f.into_user_error())),
            Ok(()) => {
                if self.mirrors_to_store {
                    RegisterStep::PutUser(
                        self.store.save_user(reg.user_id.as_str(), reg.email.as_str()),
                    )
                } else {
                    RegisterStep::Finished(Ok(reg.user_id.clone()))
                }
            },
        }
    }

    /// Decides on the reply to the mirror write. The user is registered with
    /// the provider at this point, and nothing undoes that: a failed write
    /// is reported as a consistency gap that names the user.
    pub fn user_saved(&self, reg: &Registration, reply: Result<(), StoreFault>) -> (r: Result<
        String,
        UserError,
    >)
        ensures
            reply is Ok ==> (r matches Ok(id) && id@ == reg.user_id@),
            reply matches Err(f) ==> r matches Err(UserError::ConsistencyGap { user_id, email, cause })
                && user_id@ == reg.user_id@ && email@ == reg.email@ && cause@ == store_fault_text(f),
    {
        match reply {
            Ok(()) => Ok(reg.user_id.clone()),
            Err(f) => Err(
                UserError::ConsistencyGap {
                    user_id: reg.user_id.clone(),
                    email: reg.email.clone(),
                    cause: f.text(),
                },
            ),
        }
    }

    /// The confirmation of `email` with `code`; no retry, no check of the
    /// code's form.
    pub fn confirm_email(&self, email: &str, code: &str) -> (r: Result<
        ConfirmSignUpRequest,
        UserError,
    >)
        ensures
            r is Err <==> self.cognito.client_secret@.len() == 0,
            r matches Ok(q) ==> q.username@ == email@ && q.confirmation_code@ == code@
                && q.client_id@ == self.cognito.client_id@ && q.secret_hash@ == secret_hash_of(
                email@,
                self.cognito.client_id@,
                self.cognito.client_secret@,
            ),
    {
        self.cognito.confirm_user(email, code)
    }

    /// What the confirmation reply means.
    pub fn email_confirmed(&self, reply: Result<(), ProviderFault>) -> (r: Result<(), UserError>)
        ensures
            reply is Ok <==> r is Ok,
            reply matches Err(f) ==> r == Err::<(), UserError>(provider_error(f)),
    {
        confirm_outcome(reply)
    }

    /// The password sign-in of `username`.
    pub fn authenticate_user(&self, username: &str, password: &str) -> (r: Result<
        InitiateAuthRequest,
        UserError,
    >)
        ensures
            r is Err <==> self.cognito.client_secret@.len() == 0,
            r matches Ok(q) ==> {
                &&& q.client_id@ == self.cognito.client_id@
                &&& q.auth_parameters@.len() == 3
                &&& q.auth_parameters@[0].0@ == "USERNAME"@
                &&& q.auth_parameters@[0].1@ == username@
                &&& q.auth_parameters@[1].0@ == "PASSWORD"@
                &&& q.auth_parameters@[1].1@ == password@
                &&& q.auth_parameters@[2].0@ == "SECRET_HASH"@
                &&& q.auth_parameters@[2].1@ == secret_hash_of(
                    username@,
                    self.cognito.client_id@,
                    self.cognito.client_secret@,
                )
            },
    {
        self.cognito.authenticate_user_client_flow(username, password)
    }

    /// What the sign-in reply means: the token, or no token where the
    /// provider completed without one.
    pub fn authenticated(&self, reply: Result<InitiateAuthReply, ProviderFault>) -> (r: Result<
        Option<String>,
        UserError,
    >)
        ensures
            reply is Ok <==> r is Ok,
            reply matches Ok(a) ==> r matches Ok(t) && (match t {
                Some(s) => access_token_of(a) == Some(s@),
                None => access_token_of(a) is None,
            }),
            reply matches Err(f) ==> r == Err::<Option<String>, UserError>(provider_error(f)),
    {
        authenticate_outcome(reply)
    }

    /// One page of the provider's users.
    pub fn list_users_from_cognito(&self) -> (r: ListUsersRequest)
        ensures
            r.user_pool_id@ == self.cognito.user_pool_id@,
            r.limit == LIST_PAGE_LIMIT,
    {
        self.cognito.list_users()
    }

    /// The users of one scanned page of the store.
    pub fn list_users_from_dynamo(
        &self,
        reply: Result<Vec<Vec<(String, AttributeValue)>>, StoreFault>,
    ) -> (r: Result<Vec<User>, UserError>)
        ensures
            reply is Ok <==> r is Ok,
            reply matches Ok(items) ==> r matches Ok(users) && user_emails(users@) == scanned_emails(
                items@,
            ),
            reply matches Err(f) ==> r matches Err(UserError::Transport(m)) && m@
                == store_fault_text(f),
    {
        self.store.list_users(reply)
    }

    /// Decides on the listing of tables while making sure the users table
    /// exists.
    pub fn ensure_users_table(&self, reply: Result<Vec<String>, StoreFault>) -> (r: TableStep)
        ensures
            reply matches Err(f) ==> r matches TableStep::Finished(Err(UserError::Transport(m)))
                && m@ == store_fault_text(f),
            reply matches Ok(names) ==> (if !creates_table(names.deep_view(), self.store.table_name@) {
                r matches TableStep::Finished(Ok(TableStatus::AlreadyExisted))
            } else {
                r matches TableStep::CreateTable(q) && q.table_name@ == self.store.table_name@
                    && q.key_attribute@ == self.store.key_attribute@ && q.read_capacity_units
                    == TABLE_CAPACITY_UNITS && q.write_capacity_units == TABLE_CAPACITY_UNITS
            }),
    {
        self.store.tables_listed(reply)
    }
}

} // verus!
