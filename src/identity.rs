//! The identity provider's side: the requests for sign-up, confirmation,
//! sign-in and listing, and what their replies mean.
use vstd::prelude::*;

use crate::errors::{provider_error, ProviderFault, UserError};
use crate::secret_hash::{calculate_secret_hash, secret_hash_of};

verus! {

/// The provider's single-page limit on a user listing.
pub const LIST_PAGE_LIMIT: i32 = 60;

/// The configuration of a confidential client of the identity provider.
pub struct CognitoService {
    pub client_id: String,
    pub client_secret: String,
    pub user_pool_id: String,
}

/// A named attribute of a user.
#[derive(Debug, Clone)]
pub struct UserAttribute {
    pub name: String,
    pub value: String,
}

/// A sign-up: username, password, secret hash and attributes.
#[derive(Debug, Clone)]
pub struct SignUpRequest {
    pub client_id: String,
    pub username: String,
    pub password: String,
    pub secret_hash: String,
    pub user_attributes: Vec<UserAttribute>,
}

/// The confirmation of a sign-up with the code sent to the user.
#[derive(Debug, Clone)]
pub struct ConfirmSignUpRequest {
    pub client_id: String,
    pub username: String,
    pub confirmation_code: String,
    pub secret_hash: String,
}

/// The password sign-in flow, with its parameters `USERNAME`, `PASSWORD`
/// and `SECRET_HASH`, in that order.
#[derive(Debug, Clone)]
pub struct InitiateAuthRequest {
    pub client_id: String,
    pub auth_parameters: Vec<(String, String)>,
}

/// One page of the users of a pool.
#[derive(Debug, Clone)]
pub struct ListUsersRequest {
    pub user_pool_id: String,
    pub limit: i32,
}

/// What a sign-in may hand back: the access token, where the flow is
/// complete.
#[derive(Debug, Clone)]
pub struct AuthenticationResult {
    pub access_token: Option<String>,
}

/// The reply to a sign-in; without a result where the provider asks for a
/// further challenge.
#[derive(Debug, Clone)]
pub struct InitiateAuthReply {
    pub authentication_result: Option<AuthenticationResult>,
}

/// The token that a sign-in reply carries, if any.
pub open spec fn access_token_of(reply: InitiateAuthReply) -> Option<Seq<char>> {
    match reply.authentication_result {
        Some(res) => match res.access_token {
            Some(t) => Some(t@),
            None => None,
        },
        None => None,
    }
}

/// The usernames of a listing, in order, leaving out users without one.
pub open spec fn present_usernames(users: Seq<Option<String>>) -> Seq<Seq<char>>
    decreases users.len(),
{
    if users.len() == 0 {
        Seq::empty()
    } else {
        let rest = present_usernames(users.drop_last());
        match users.last() {
            Some(u) => rest.push(u@),
            None => rest,
        }
    }
}

impl CognitoService {
    pub fn new(client_id: String, client_secret: String, user_pool_id: String) -> (r: Self)
        ensures
            r.client_id@ == client_id@,
            r.client_secret@ == client_secret@,
            r.user_pool_id@ == user_pool_id@,
    {
        CognitoService { client_id, client_secret, user_pool_id }
    }

    /// The secret hash of this client for `username`.
    pub fn calculate_secret_hash(&self, username: &str) -> (r: Result<String, UserError>)
        ensures
            r is Err <==> self.client_secret@.len() == 0,
            r matches Err(e) ==> e is Configuration,
            r matches Ok(h) ==> h@ == secret_hash_of(
                username@,
                self.client_id@,
                self.client_secret@,
            ),
    {
        calculate_secret_hash(username, self.client_id.as_str(), self.client_secret.as_str())
    }

    /// The sign-up of `email` as username, with its password and its email
    /// attribute.
    pub fn register_user(&self, email: &str, password: &str) -> (r: Result<
        SignUpRequest,
        UserError,
    >)
        ensures
            r is Err <==> self.client_secret@.len() == 0,
            r matches Err(e) ==> e is Configuration,
            r matches Ok(q) ==> {
                &&& q.client_id@ == self.client_id@
                &&& q.username@ == email@
                &&& q.password@ == password@
                &&& q.secret_hash@ == secret_hash_of(email@, self.client_id@, self.client_secret@)
                &&& q.user_attributes@.len() == 1
                &&& q.user_attributes@[0].name@ == "email"@
                &&& q.user_attributes@[0].value@ == email@
            },
    {
        let secret_hash = match self.calculate_secret_hash(email) {
            Ok(h) => h,
            Err(e) => return Err(e),
        };
        let attribute = UserAttribute {
            name: String::from_str("email"),
            value: email.to_owned(),
        };
        Ok(SignUpRequest {
            client_id: self.client_id.clone(),
            username: email.to_owned(),
            password: password.to_owned(),
            secret_hash,
            user_attributes: vec![attribute],
        })
    }

    /// The confirmation of `username` with `code`.
    pub fn confirm_user(&self, username: &str, code: &str) -> (r: Result<
        ConfirmSignUpRequest,
        UserError,
    >)
        ensures
            r is Err <==> self.client_secret@.len() == 0,
            r matches Err(e) ==> e is Configuration,
            r matches Ok(q) ==> {
                &&& q.client_id@ == self.client_id@
                &&& q.username@ == username@
                &&& q.confirmation_code@ == code@
                &&& q.secret_hash@ == secret_hash_of(
                    username@,
                    self.client_id@,
                    self.client_secret@,
                )
            },
    {
        let secret_hash = match self.calculate_secret_hash(username) {
            Ok(h) => h,
            Err(e) => return Err(e),
        };
        Ok(ConfirmSignUpRequest {
            client_id: self.client_id.clone(),
            username: username.to_owned(),
            confirmation_code: code.to_owned(),
            secret_hash,
        })
    }

    /// The password sign-in of `username`.
    pub fn authenticate_user_client_flow(&self, username: &str, password: &str) -> (r: Result<
        InitiateAuthRequest,
        UserError,
    >)
        ensures
            r is Err <==> self.client_secret@.len() == 0,
            r matches Err(e) ==> e is Configuration,
            r matches Ok(q) ==> {
                &&& q.client_id@ == self.client_id@
                &&& q.auth_parameters@.len() == 3
                &&& q.auth_parameters@[0].0@ == "USERNAME"@
                &&& q.auth_parameters@[0].1@ == username@
                &&& q.auth_parameters@[1].0@ == "PASSWORD"@
                &&& q.auth_parameters@[1].1@ == password@
                &&& q.auth_parameters@[2].0@ == "SECRET_HASH"@
                &&& q.auth_parameters@[2].1@ == secret_hash_of(
                    username@,
                    self.client_id@,
                    self.client_secret@,
                )
            },
    {
        let secret_hash = match self.calculate_secret_hash(username) {
            Ok(h) => h,
            Err(e) => return Err(e),
        };
        let parameters = vec![
            (String::from_str("USERNAME"), username.to_owned()),
            (String::from_str("PASSWORD"), password.to_owned()),
            (String::from_str("SECRET_HASH"), secret_hash),
        ];
        Ok(InitiateAuthRequest { client_id: self.client_id.clone(), auth_parameters: parameters })
    }

    /// One page of this pool's users.
    pub fn list_users(&self) -> (r: ListUsersRequest)
        ensures
            r.user_pool_id@ == self.user_pool_id@,
            r.limit == LIST_PAGE_LIMIT,
    {
        ListUsersRequest { user_pool_id: self.user_pool_id.clone(), limit: LIST_PAGE_LIMIT }
    }
}

/// What a confirmation reply means.
pub fn confirm_outcome(reply: Result<(), ProviderFault>) -> (r: Result<(), UserError>)
    ensures
        reply is Ok <==> r is Ok,
        reply matches Err(f) ==> r == Err::<(), UserError>(provider_error(f)),
{
    match reply {
        Ok(()) => Ok(()),
        Err(f) => Err(f.into_user_error()),
    }
}

/// What a sign-in reply means: the access token where the flow completed,
/// no token (and no error) where the provider asks for more.
pub fn authenticate_outcome(reply: Result<InitiateAuthReply, ProviderFault>) -> (r: Result<
    Option<String>,
    UserError,
>)
    ensures
        reply is Ok <==> r is Ok,
        reply matches Ok(a) ==> r matches Ok(t) && (match t {
            Some(s) => access_token_of(a) == Some(s@),
            None => access_token_of(a) is None,
        }),
        reply matches Err(f) ==> r == Err::<Option<String>, UserError>(provider_error(f)),
{
    match reply {
        Ok(a) => match a.authentication_result {
            Some(res) => Ok(res.access_token),
            None => Ok(None),
        },
        Err(f) => Err(f.into_user_error()),
    }
}

/// The usernames of one page of a listing; users without one are left out.
pub fn list_users_outcome(reply: Result<Vec<Option<String>>, ProviderFault>) -> (r: Result<
    Vec<String>,
    UserError,
>)
    ensures
        reply is Ok <==> r is Ok,
        reply matches Ok(users) ==> r matches Ok(names) && names.deep_view() == present_usernames(
            users@,
        ),
        reply matches Err(f) ==> r == Err::<Vec<String>, UserError>(provider_error(f)),
{
    match reply {
        Ok(users) => Ok(present_names(&users)),
        Err(f) => Err(f.into_user_error()),
    }
}

fn present_names(users: &Vec<Option<String>>) -> (r: Vec<String>)
    ensures
        r.deep_view() == present_usernames(users@),
{
    let mut names: Vec<String> = Vec::new();
    let mut i: usize = 0;
    while i < users.len()
        invariant
            i <= users@.len(),
            names.deep_view() == present_usernames(users@.subrange(0, i as int)),
        decreases users@.len() - i,
    {
        let ghost before = users@.subrange(0, i as int);
        let ghost after = users@.subrange(0, i + 1);
        assert(after.drop_last() =~= before);
        match &users[i] {
            Some(u) => names.push(u.clone()),
            None => {},
        }
        proof {
            assert(names.deep_view() =~= present_usernames(after));
        }
        i = i + 1;
    }
    assert(users@.subrange(0, i as int) =~= users@);
    names
}

} // verus!
