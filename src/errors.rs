//! What can go wrong, as the library reports it, and the replies of the two
//! services that it is decided from.
use vstd::prelude::*;

verus! {

/// A failure reported by the identity provider, by the name of its
/// exception. `Other` is any other service fault or a transport failure,
/// with its description.
#[derive(Debug, Clone)]
pub enum ProviderFault {
    UsernameExists,
    InvalidPassword,
    InvalidParameter,
    CodeMismatch,
    ExpiredCode,
    UserNotFound,
    NotAuthorized,
    UserNotConfirmed,
    Other(String),
}

/// A failure reported by the record store. `ResourceInUse` is its answer to
/// creating a table that exists already.
#[derive(Debug, Clone)]
pub enum StoreFault {
    ResourceInUse,
    Other(String),
}

/// The error of every operation of the library.
#[derive(Debug, Clone)]
pub enum UserError {
    /// The client secret is empty: no secret hash can be derived.
    Configuration,
    /// The identity provider knows this username already.
    DuplicateUser,
    /// The password does not meet the provider's policy.
    InvalidPassword,
    /// A parameter or attribute was refused by the provider.
    InvalidAttribute,
    /// The confirmation code is wrong.
    CodeMismatch,
    /// The confirmation code has expired.
    CodeExpired,
    /// The provider does not know the user.
    UserNotFound,
    /// Wrong username or password.
    NotAuthorized,
    /// The user has not confirmed the account yet.
    UserNotConfirmed,
    /// A service could not be reached or failed otherwise.
    Transport(String),
    /// The provider registered the user but the record store did not save
    /// the record: the two are out of step until the record is written.
    ConsistencyGap { user_id: String, email: String, cause: String },
}

/// The provider's fault, as an error of the library.
pub open spec fn provider_error(f: ProviderFault) -> UserError {
    match f {
        ProviderFault::UsernameExists => UserError::DuplicateUser,
        ProviderFault::InvalidPassword => UserError::InvalidPassword,
        ProviderFault::InvalidParameter => UserError::InvalidAttribute,
        ProviderFault::CodeMismatch => UserError::CodeMismatch,
        ProviderFault::ExpiredCode => UserError::CodeExpired,
        ProviderFault::UserNotFound => UserError::UserNotFound,
        ProviderFault::NotAuthorized => UserError::NotAuthorized,
        ProviderFault::UserNotConfirmed => UserError::UserNotConfirmed,
        ProviderFault::Other(m) => UserError::Transport(m),
    }
}

/// The description of a store fault.
pub open spec fn store_fault_text(f: StoreFault) -> Seq<char> {
    match f {
        StoreFault::ResourceInUse => "resource in use"@,
        StoreFault::Other(m) => m@,
    }
}

/// The text that reports an error to a client.
pub open spec fn error_text(e: UserError) -> Seq<char> {
    match e {
        UserError::Configuration => "client secret is empty"@,
        UserError::DuplicateUser => "user already exists"@,
        UserError::InvalidPassword => "password does not meet the policy"@,
        UserError::InvalidAttribute => "invalid parameter"@,
        UserError::CodeMismatch => "confirmation code does not match"@,
        UserError::CodeExpired => "confirmation code has expired"@,
        UserError::UserNotFound => "user not found"@,
        UserError::NotAuthorized => "incorrect username or password"@,
        UserError::UserNotConfirmed => "user is not confirmed"@,
        UserError::Transport(m) => m@,
        UserError::ConsistencyGap { cause, .. } => "registered but not saved: "@ + cause@,
    }
}

impl UserError {
    /// The text that reports this error to a client.
    pub fn message(&self) -> (r: String)
        ensures
            r@ == error_text(*self),
    {
        match self {
            UserError::Configuration => String::from_str("client secret is empty"),
            UserError::DuplicateUser => String::from_str("user already exists"),
            UserError::InvalidPassword => String::from_str("password does not meet the policy"),
            UserError::InvalidAttribute => String::from_str("invalid parameter"),
            UserError::CodeMismatch => String::from_str("confirmation code does not match"),
            UserError::CodeExpired => String::from_str("confirmation code has expired"),
            UserError::UserNotFound => String::from_str("user not found"),
            UserError::NotAuthorized => String::from_str("incorrect username or password"),
            UserError::UserNotConfirmed => String::from_str("user is not confirmed"),
            UserError::Transport(m) => m.clone(),
            UserError::ConsistencyGap { cause, .. } => {
                String::from_str("registered but not saved: ").concat(cause.as_str())
            },
        }
    }
}

impl ProviderFault {
    /// Maps a fault of the identity provider to the library's error.
    pub fn into_user_error(self) -> (r: UserError)
        ensures
            r == provider_error(self),
    {
        match self {
            ProviderFault::UsernameExists => UserError::DuplicateUser,
            ProviderFault::InvalidPassword => UserError::InvalidPassword,
            ProviderFault::InvalidParameter => UserError::InvalidAttribute,
            ProviderFault::CodeMismatch => UserError::CodeMismatch,
            ProviderFault::ExpiredCode => UserError::CodeExpired,
            ProviderFault::UserNotFound => UserError::UserNotFound,
            ProviderFault::NotAuthorized => UserError::NotAuthorized,
            ProviderFault::UserNotConfirmed => UserError::UserNotConfirmed,
            ProviderFault::Other(m) => UserError::Transport(m),
        }
    }
}

impl StoreFault {
    /// The description of the fault.
    pub fn text(&self) -> (r: String)
        ensures
            r@ == store_fault_text(*self),
    {
        match self {
            StoreFault::ResourceInUse => String::from_str("resource in use"),
            StoreFault::Other(m) => m.clone(),
        }
    }
}

} // verus!
