//! The token with which most account requests end.
use vstd::prelude::*;

use crate::effect::Action;
use crate::error::{Fault, LemmyError};
use crate::model::{Context, LocalUserId};

verus! {

#[derive(Debug, PartialEq, Eq)]
pub struct LoginResponse {
    pub jwt: Option<String>,
    pub verify_email_sent: bool,
    pub registration_created: bool,
}

/// Signing a token for a local user, with the server's secret and host name.
pub open spec fn token_for(id: LocalUserId, context: Context) -> Action {
    Action::IssueJwt {
        local_user_id: id.0,
        jwt_secret: context.secret.jwt_secret,
        hostname: context.settings.hostname,
    }
}

/// The answer once signing has been tried: the token, or why there is none.
pub open spec fn answer_with(token: Result<String, Fault>) -> Result<LoginResponse, LemmyError> {
    match token {
        Ok(jwt) => Ok(
            LoginResponse {
                jwt: Some(jwt),
                verify_email_sent: false,
                registration_created: false,
            },
        ),
        Err(fault) => Err(fault.as_it_is()),
    }
}

pub(crate) fn issue_jwt(id: LocalUserId, context: &Context) -> (action: Action)
    ensures
        action == token_for(id, *context),
{
    Action::IssueJwt {
        local_user_id: id.0,
        jwt_secret: context.secret.jwt_secret.clone(),
        hostname: context.settings.hostname.clone(),
    }
}

pub(crate) fn logged_in(token: Result<String, Fault>) -> (outcome: Result<
    LoginResponse,
    LemmyError,
>)
    ensures
        outcome == answer_with(token),
{
    match token {
        Ok(jwt) => Ok(
            LoginResponse {
                jwt: Some(jwt),
                verify_email_sent: false,
                registration_created: false,
            },
        ),
        Err(fault) => Err(fault.pass()),
    }
}

} // verus!
