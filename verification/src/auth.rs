//! Decision core of the SASL adapter. The mechanism driver asks for
//! one of two things: the password of an authid (password-query), or a
//! verdict on an (authid, password) pair (validate-simple). Both are
//! answered through the policy authentication hook; these functions
//! decide what to hand the driver for each hook result.
use vstd::prelude::*;

use crate::context::{Credentials, CredentialsModel, Status, StatusModel};

verus! {

/// The callback requests of the mechanism driver that the adapter
/// serves; anything else is refused.
#[derive(Clone, Copy, PartialEq, Eq, Structural, Debug)]
pub enum Property {
    /// The mechanism asks for the password of the authid.
    Password,
    /// The mechanism asks whether the (authid, password) pair is valid.
    ValidateSimple,
    /// Any other request.
    Other,
}

/// Failures of the callback.
#[derive(Clone, Copy, PartialEq, Eq, Structural, Debug)]
pub enum CallbackError {
    /// The session carries no authid.
    NoAuthid,
    /// The session carries no password.
    NoPassword,
    /// The request is not one the adapter serves.
    NoCallback,
    /// The policy did not produce what the request needs.
    AuthenticationError,
}

/// What the callback hands back to the mechanism driver on success.
#[derive(Clone, Debug)]
pub enum CallbackOutcome {
    /// Validate-simple: the pair is valid, let the mechanism complete.
    Proceed,
    /// Password-query: store this password into the session.
    SetPassword { password: Vec<u8> },
}

/// Specification view of `CallbackOutcome`.
pub enum CallbackOutcomeModel {
    Proceed,
    SetPassword { password: Seq<u8> },
}

impl View for CallbackOutcome {
    type V = CallbackOutcomeModel;

    open spec fn view(&self) -> CallbackOutcomeModel {
        match self {
            CallbackOutcome::Proceed => CallbackOutcomeModel::Proceed,
            CallbackOutcome::SetPassword { password } => CallbackOutcomeModel::SetPassword {
                password: password@,
            },
        }
    }
}

/// The credentials the adapter carries into the policy hook for a
/// request: a query for `Password`, a verification for
/// `ValidateSimple`, an error when the session lacks the needed
/// property or the request is foreign.
pub open spec fn spec_credentials_request(
    prop: Property,
    authid: Option<Seq<u8>>,
    authpass: Option<Seq<u8>>,
) -> Result<CredentialsModel, CallbackError> {
    match prop {
        Property::Password => match authid {
            Option::Some(id) => Result::Ok(CredentialsModel::Query { authid: id }),
            Option::None => Result::Err(CallbackError::NoAuthid),
        },
        Property::ValidateSimple => match (authid, authpass) {
            (Option::None, _) => Result::Err(CallbackError::NoAuthid),
            (Option::Some(_), Option::None) => Result::Err(CallbackError::NoPassword),
            (Option::Some(id), Option::Some(pw)) => Result::Ok(
                CredentialsModel::Verify { authid: id, authpass: pw },
            ),
        },
        Property::Other => Result::Err(CallbackError::NoCallback),
    }
}

/// What the callback does with the policy's answer: validate-simple
/// succeeds only on `Accept`; password-query succeeds only on `Info`,
/// whose payload is the password; everything else is an
/// authentication error.
pub open spec fn spec_interpret_policy(prop: Property, status: StatusModel) -> Result<
    CallbackOutcomeModel,
    CallbackError,
> {
    match prop {
        Property::ValidateSimple => match status {
            StatusModel::Accept => Result::Ok(CallbackOutcomeModel::Proceed),
            _ => Result::Err(CallbackError::AuthenticationError),
        },
        Property::Password => match status {
            StatusModel::Info { payload } => Result::Ok(
                CallbackOutcomeModel::SetPassword { password: payload },
            ),
            _ => Result::Err(CallbackError::AuthenticationError),
        },
        Property::Other => Result::Err(CallbackError::AuthenticationError),
    }
}

/// Function called by the SASL backend.
pub struct Callback;

impl Callback {
    /// Build the credentials for the policy hook from the session
    /// properties the mechanism driver holds.
    pub fn credentials_request(
        prop: Property,
        authid: Option<&Vec<u8>>,
        authpass: Option<&Vec<u8>>,
    ) -> (r: Result<Credentials, CallbackError>)
        ensures
            (match r {
                Result::Ok(c) => Result::<CredentialsModel, CallbackError>::Ok(c@),
                Result::Err(e) => Result::<CredentialsModel, CallbackError>::Err(e),
            }) == spec_credentials_request(
                prop,
                match authid {
                    Option::Some(v) => Option::Some(v@),
                    Option::None => Option::None,
                },
                match authpass {
                    Option::Some(v) => Option::Some(v@),
                    Option::None => Option::None,
                },
            ),
    {
        match prop {
            Property::Password => match authid {
                Option::Some(id) => Result::Ok(
                    Credentials::Query { authid: crate::context::clone_bytes(id) },
                ),
                Option::None => Result::Err(CallbackError::NoAuthid),
            },
            Property::ValidateSimple => match (authid, authpass) {
                (Option::None, _) => Result::Err(CallbackError::NoAuthid),
                (Option::Some(_), Option::None) => Result::Err(CallbackError::NoPassword),
                (Option::Some(id), Option::Some(pw)) => Result::Ok(
                    Credentials::Verify {
                        authid: crate::context::clone_bytes(id),
                        authpass: crate::context::clone_bytes(pw),
                    },
                ),
            },
            Property::Other => Result::Err(CallbackError::NoCallback),
        }
    }

    /// Decide what to hand the mechanism driver for the policy's
    /// answer to the authentication hook.
    pub fn interpret_policy(prop: Property, status: Status) -> (r: Result<
        CallbackOutcome,
        CallbackError,
    >)
        ensures
            (match r {
                Result::Ok(o) => Result::<CallbackOutcomeModel, CallbackError>::Ok(o@),
                Result::Err(e) => Result::<CallbackOutcomeModel, CallbackError>::Err(e),
            }) == spec_interpret_policy(prop, status@),
    {
        match prop {
            Property::ValidateSimple => match status {
                Status::Accept => Result::Ok(CallbackOutcome::Proceed),
                _ => Result::Err(CallbackError::AuthenticationError),
            },
            Property::Password => match status {
                Status::Info { payload } => Result::Ok(
                    CallbackOutcome::SetPassword { password: payload },
                ),
                _ => Result::Err(CallbackError::AuthenticationError),
            },
            Property::Other => Result::Err(CallbackError::AuthenticationError),
        }
    }
}

} // verus!
