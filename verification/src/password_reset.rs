//! Choosing a new password with the help of a mail.
use vstd::prelude::*;
use vstd::pervasive::unreached;

use crate::effect::{Action, Reply};
use crate::error::{LemmyError, Message};
use crate::machine::{Perform, Resume, Step};
use crate::model::{ConnectionId, Context, LocalUserId};
use crate::run::{lemma_first_steps, run_of, Run};
use crate::session::{answer_with, issue_jwt, logged_in, token_for, LoginResponse};

verus! {

/// Asks for a mail with a token for choosing a new password.
#[derive(Debug, PartialEq, Eq)]
pub struct PasswordReset {
    pub email: String,
}

#[derive(Clone, Copy, Debug, PartialEq, Eq, Structural)]
pub struct PasswordResetResponse {}

/// The requests for a mail that wait, by what they wait for.
pub enum PasswordResetState {
    User,
    Mail,
}

/// What follows an outcome.
pub type PasswordResetStep = Step<PasswordResetState, PasswordResetResponse>;

impl PasswordResetState {
    /// What the request does next, handed this outcome.
    pub open spec fn next(self, reply: Reply) -> PasswordResetStep {
        match self {
            PasswordResetState::User => match reply->User_0 {
                Ok(user) => Step::Call(
                    PasswordResetState::Mail,
                    Action::SendPasswordResetEmail { user },
                ),
                Err(fault) => Step::Return(
                    Err(fault.labelled(Message::CouldntFindThatUsernameOrEmail)),
                ),
            },
            PasswordResetState::Mail => match reply->Checked_0 {
                Ok(_) => Step::Return(Ok(PasswordResetResponse {  })),
                Err(fault) => Step::Return(Err(fault.as_it_is())),
            },
        }
    }
}

impl Resume for PasswordResetState {
    type Response = PasswordResetResponse;

    open spec fn accepts(self, reply: Reply) -> bool {
        match self {
            PasswordResetState::User => reply is User,
            PasswordResetState::Mail => reply is Checked,
        }
    }

    open spec fn leads_to(self, context: Context, reply: Reply, step: PasswordResetStep) -> bool {
        step == self.next(reply)
    }

    open spec fn stages(self) -> nat {
        match self {
            PasswordResetState::User => 2,
            PasswordResetState::Mail => 1,
        }
    }

    open spec fn repeats(self) -> nat {
        0
    }

    proof fn progress(self, context: Context, reply: Reply, step: PasswordResetStep) {
    }

    proof fn failure(self, context: Context, reply: Reply, step: PasswordResetStep) {
    }

    fn resume(self, context: &Context, reply: Reply) -> (step: PasswordResetStep) {
        match (self, reply) {
            (PasswordResetState::User, Reply::User(found)) => match found {
                Ok(user) => Step::Call(
                    PasswordResetState::Mail,
                    Action::SendPasswordResetEmail { user },
                ),
                Err(fault) => Step::Return(
                    Err(fault.with_message(Message::CouldntFindThatUsernameOrEmail)),
                ),
            },
            (PasswordResetState::Mail, Reply::Checked(sent)) => match sent {
                Ok(_) => Step::Return(Ok(PasswordResetResponse {  })),
                Err(fault) => Step::Return(Err(fault.pass())),
            },
            _ => unreached(),
        }
    }
}

impl Perform for PasswordReset {
    type Response = PasswordResetResponse;

    type State = PasswordResetState;

    open spec fn begins_with(
        self,
        context: Context,
        websocket_id: Option<ConnectionId>,
        step: PasswordResetStep,
    ) -> bool {
        step == PasswordResetStep::Call(
            PasswordResetState::User,
            Action::FindUserByEmail { email: self.email },
        )
    }

    proof fn prepared(
        self,
        context: Context,
        websocket_id: Option<ConnectionId>,
        step: PasswordResetStep,
    ) {
    }

    fn perform(self, context: &Context, websocket_id: Option<ConnectionId>) -> (step:
        PasswordResetStep) {
        Step::Call(PasswordResetState::User, Action::FindUserByEmail { email: self.email })
    }
}

/// The mail goes to the user who was found under the address in the request, and to nobody else.
/// Nothing is written.
pub proof fn reset_mail_goes_to_the_owner(
    request: PasswordReset,
    context: Context,
    websocket_id: Option<ConnectionId>,
    run: Run<PasswordResetState, PasswordResetResponse>,
    i: int,
    action: Action,
)
    requires
        run_of(request, context, websocket_id, run),
        run.asks(i, action),
    ensures
        !action.writes(),
        action.mails() ==> {
            &&& run.asks(0, Action::FindUserByEmail { email: request.email })
            &&& run.replies[0] matches Reply::User(Ok(user))
            &&& action == Action::SendPasswordResetEmail { user }
        },
{
    lemma_first_steps(request, context, websocket_id, run);
}

/// A request for a mail succeeds exactly where the user is found and the mail is sent.
pub proof fn reset_mail_is_sent(
    request: PasswordReset,
    context: Context,
    websocket_id: Option<ConnectionId>,
    run: Run<PasswordResetState, PasswordResetResponse>,
)
    requires
        run_of(request, context, websocket_id, run),
    ensures
        run.succeeds() <==> {
            &&& run.replies.len() == 2
            &&& run.replies[0] matches Reply::User(Ok(user))
            &&& run.passes(1, Action::SendPasswordResetEmail { user })
        },
        run.succeeds() ==> run.asks(0, Action::FindUserByEmail { email: request.email }),
{
    lemma_first_steps(request, context, websocket_id, run);
}

/// Stores a new password for the user to whom a token was mailed.
#[derive(Debug, PartialEq, Eq)]
pub struct PasswordChange {
    pub token: String,
    pub password: String,
    pub password_verify: String,
}

/// The requests for a new password that wait, by what they wait for.
pub enum PasswordChangeState {
    ResetRequest { password: String, password_verify: String },
    Length { password: String, password_verify: String, local_user_id: LocalUserId },
    Update,
    Token,
}

/// What follows an outcome.
pub type PasswordChangeStep = Step<PasswordChangeState, LoginResponse>;

impl PasswordChangeState {
    /// What the request does next, handed this outcome.
    pub open spec fn next(self, context: Context, reply: Reply) -> PasswordChangeStep {
        match self {
            PasswordChangeState::ResetRequest { password, password_verify } => {
                match reply->ResetRequest_0 {
                    Ok(request) => Step::Call(
                        PasswordChangeState::Length {
                            password,
                            password_verify,
                            local_user_id: request.local_user_id,
                        },
                        Action::CheckPasswordLength { password },
                    ),
                    Err(fault) => Step::Return(Err(fault.as_it_is())),
                }
            },
            PasswordChangeState::Length { password, password_verify, local_user_id } => {
                match reply->Checked_0 {
                    Ok(_) => if password@ == password_verify@ {
                        Step::Call(
                            PasswordChangeState::Update,
                            Action::UpdatePassword { local_user_id, password },
                        )
                    } else {
                        Step::Return(Err(LemmyError::Message(Message::PasswordsDontMatch)))
                    },
                    Err(fault) => Step::Return(Err(fault.as_it_is())),
                }
            },
            PasswordChangeState::Update => match reply->LocalUser_0 {
                Ok(updated) => Step::Call(
                    PasswordChangeState::Token,
                    token_for(updated.id, context),
                ),
                Err(fault) => Step::Return(Err(fault.labelled(Message::CouldntUpdateUser))),
            },
            PasswordChangeState::Token => Step::Return(answer_with(reply->Jwt_0)),
        }
    }
}

impl Resume for PasswordChangeState {
    type Response = LoginResponse;

    open spec fn accepts(self, reply: Reply) -> bool {
        match self {
            PasswordChangeState::ResetRequest { .. } => reply is ResetRequest,
            PasswordChangeState::Length { .. } => reply is Checked,
            PasswordChangeState::Update => reply is LocalUser,
            PasswordChangeState::Token => reply is Jwt,
        }
    }

    open spec fn leads_to(self, context: Context, reply: Reply, step: PasswordChangeStep) -> bool {
        step == self.next(context, reply)
    }

    open spec fn stages(self) -> nat {
        match self {
            PasswordChangeState::ResetRequest { .. } => 4,
            PasswordChangeState::Length { .. } => 3,
            PasswordChangeState::Update => 2,
            PasswordChangeState::Token => 1,
        }
    }

    open spec fn repeats(self) -> nat {
        0
    }

    proof fn progress(self, context: Context, reply: Reply, step: PasswordChangeStep) {
    }

    proof fn failure(self, context: Context, reply: Reply, step: PasswordChangeStep) {
    }

    fn resume(self, context: &Context, reply: Reply) -> (step: PasswordChangeStep) {
        match (self, reply) {
            (
                PasswordChangeState::ResetRequest { password, password_verify },
                Reply::ResetRequest(found),
            ) => match found {
                Ok(request) => {
                    let local_user_id = request.local_user_id;
                    let action = Action::CheckPasswordLength { password: password.clone() };
                    Step::Call(
                        PasswordChangeState::Length { password, password_verify, local_user_id },
                        action,
                    )
                },
                Err(fault) => Step::Return(Err(fault.pass())),
            },
            (
                PasswordChangeState::Length { password, password_verify, local_user_id },
                Reply::Checked(checked),
            ) => match checked {
                Ok(_) => {
                    if password != password_verify {
                        return Step::Return(Err(LemmyError::Message(Message::PasswordsDontMatch)));
                    }
                    Step::Call(
                        PasswordChangeState::Update,
                        Action::UpdatePassword { local_user_id, password },
                    )
                },
                Err(fault) => Step::Return(Err(fault.pass())),
            },
            (PasswordChangeState::Update, Reply::LocalUser(updated)) => match updated {
                Ok(updated) => Step::Call(
                    PasswordChangeState::Token,
                    issue_jwt(updated.id, context),
                ),
                Err(fault) => Step::Return(Err(fault.with_message(Message::CouldntUpdateUser))),
            },
            (PasswordChangeState::Token, Reply::Jwt(token)) => Step::Return(logged_in(token)),
            _ => unreached(),
        }
    }
}

impl Perform for PasswordChange {
    type Response = LoginResponse;

    type State = PasswordChangeState;

    open spec fn begins_with(
        self,
        context: Context,
        websocket_id: Option<ConnectionId>,
        step: PasswordChangeStep,
    ) -> bool {
        step == PasswordChangeStep::Call(
            PasswordChangeState::ResetRequest {
                password: self.password,
                password_verify: self.password_verify,
            },
            Action::ReadResetRequest { token: self.token },
        )
    }

    proof fn prepared(
        self,
        context: Context,
        websocket_id: Option<ConnectionId>,
        step: PasswordChangeStep,
    ) {
    }

    fn perform(self, context: &Context, websocket_id: Option<ConnectionId>) -> (step:
        PasswordChangeStep) {
        Step::Call(
            PasswordChangeState::ResetRequest {
                password: self.password,
                password_verify: self.password_verify,
            },
            Action::ReadResetRequest { token: self.token },
        )
    }
}

/// A password is stored only for the user to whom the token was mailed, and only where it passed
/// the check of its length and was typed twice. Nothing else is written.
pub proof fn token_guards_the_password(
    request: PasswordChange,
    context: Context,
    websocket_id: Option<ConnectionId>,
    run: Run<PasswordChangeState, LoginResponse>,
    i: int,
    action: Action,
)
    requires
        run_of(request, context, websocket_id, run),
        run.asks(i, action),
        action.writes(),
    ensures
        i == 2,
        run.asks(0, Action::ReadResetRequest { token: request.token }),
        run.passes(1, Action::CheckPasswordLength { password: request.password }),
        request.password@ == request.password_verify@,
        run.replies[0] matches Reply::ResetRequest(Ok(found)) && {
            action == Action::UpdatePassword {
                local_user_id: found.local_user_id,
                password: request.password,
            }
        },
{
    lemma_first_steps(request, context, websocket_id, run);
}

/// A password of the right length that was typed in two ways is refused.
pub proof fn mistyped_password_is_refused(
    request: PasswordChange,
    context: Context,
    websocket_id: Option<ConnectionId>,
    run: Run<PasswordChangeState, LoginResponse>,
)
    requires
        run_of(request, context, websocket_id, run),
        run.replies.len() > 1,
        run.replies[1] matches Reply::Checked(Ok(_)),
        request.password@ != request.password_verify@,
    ensures
        run.steps.len() == 3,
        run.steps[2] == PasswordChangeStep::Return(
            Err(LemmyError::Message(Message::PasswordsDontMatch)),
        ),
{
    lemma_first_steps(request, context, websocket_id, run);
}

/// A request for a new password succeeds exactly where nothing fails and the password was typed
/// twice. It is then stored, and the answer holds the token that was signed for the user who was
/// changed.
pub proof fn chosen_password_is_stored(
    request: PasswordChange,
    context: Context,
    websocket_id: Option<ConnectionId>,
    run: Run<PasswordChangeState, LoginResponse>,
)
    requires
        run_of(request, context, websocket_id, run),
    ensures
        run.succeeds() <==> {
            &&& run.replies.len() == 4
            &&& request.password@ == request.password_verify@
            &&& run.replies[0] matches Reply::ResetRequest(Ok(_))
            &&& run.replies[1] matches Reply::Checked(Ok(_))
            &&& run.replies[2] matches Reply::LocalUser(Ok(_))
            &&& run.replies[3] matches Reply::Jwt(Ok(_))
        },
        run.succeeds() ==> {
            let updated = run.replies[2]->LocalUser_0->Ok_0;
            &&& run.asks(0, Action::ReadResetRequest { token: request.token })
            &&& run.passes(1, Action::CheckPasswordLength { password: request.password })
            &&& run.asks(
                2,
                Action::UpdatePassword {
                    local_user_id: run.replies[0]->ResetRequest_0->Ok_0.local_user_id,
                    password: request.password,
                },
            )
            &&& run.asks(3, token_for(updated.id, context))
            &&& run.answers(
                LoginResponse {
                    jwt: Some(run.replies[3]->Jwt_0->Ok_0),
                    verify_email_sent: false,
                    registration_created: false,
                },
            )
        },
{
    lemma_first_steps(request, context, websocket_id, run);
}

/// A token is signed only for the user whose password was stored.
pub proof fn token_follows_the_chosen_password(
    request: PasswordChange,
    context: Context,
    websocket_id: Option<ConnectionId>,
    run: Run<PasswordChangeState, LoginResponse>,
    i: int,
    action: Action,
)
    requires
        run_of(request, context, websocket_id, run),
        run.asks(i, action),
        action is IssueJwt,
    ensures
        i == 3,
        run.steps[2] matches Step::Call(_, Action::UpdatePassword { .. }),
        run.replies[2] matches Reply::LocalUser(Ok(updated)) && action == token_for(
            updated.id,
            context,
        ),
{
    lemma_first_steps(request, context, websocket_id, run);
}

/// A request for a mail, outcome by outcome: the user with the address in the request is found, and
/// mailed.
pub proof fn reset_outcome_by_outcome(
    request: PasswordReset,
    context: Context,
    websocket_id: Option<ConnectionId>,
    run: Run<PasswordResetState, PasswordResetResponse>,
)
    requires
        run_of(request, context, websocket_id, run),
    ensures
        run.asks(0, Action::FindUserByEmail { email: request.email }),
        run.replies.len() > 0 ==> match run.replies[0] {
            Reply::User(Ok(user)) => run.asks(1, Action::SendPasswordResetEmail { user }),
            Reply::User(Err(fault)) => run.fails(
                1,
                fault,
                Some(Message::CouldntFindThatUsernameOrEmail),
            ),
            _ => false,
        },
        run.replies.len() > 1 ==> match run.replies[1] {
            Reply::Checked(Ok(_)) => run.responds(2, (PasswordResetResponse {  })),
            Reply::Checked(Err(fault)) => run.fails(2, fault, None),
            _ => false,
        },
        run.replies.len() <= 2,
{
    lemma_first_steps(request, context, websocket_id, run);
}

/// The storing of a password, outcome by outcome. The token finds the user, the length of the
/// password is checked, and it must have been typed twice. Then it is stored for that user, and a
/// token signed for the user who was changed.
pub proof fn storing_outcome_by_outcome(
    request: PasswordChange,
    context: Context,
    websocket_id: Option<ConnectionId>,
    run: Run<PasswordChangeState, LoginResponse>,
)
    requires
        run_of(request, context, websocket_id, run),
    ensures
        run.asks(0, Action::ReadResetRequest { token: request.token }),
        run.replies.len() > 0 ==> match run.replies[0] {
            Reply::ResetRequest(Ok(_)) => run.asks(
                1,
                Action::CheckPasswordLength { password: request.password },
            ),
            Reply::ResetRequest(Err(fault)) => run.fails(1, fault, None),
            _ => false,
        },
        run.replies.len() > 1 ==> match (run.replies[0], run.replies[1]) {
            (Reply::ResetRequest(Ok(found)), Reply::Checked(Ok(_))) => {
                let same = request.password@ == request.password_verify@;
                &&& !same ==> run.refuses(2, Message::PasswordsDontMatch)
                &&& same ==> run.asks(
                    2,
                    Action::UpdatePassword {
                        local_user_id: found.local_user_id,
                        password: request.password,
                    },
                )
            },
            (Reply::ResetRequest(Ok(_)), Reply::Checked(Err(fault))) => run.fails(2, fault, None),
            _ => false,
        },
        run.replies.len() > 2 ==> match run.replies[2] {
            Reply::LocalUser(Ok(updated)) => run.asks(
                3,
                Action::IssueJwt {
                    local_user_id: updated.id.0,
                    jwt_secret: context.secret.jwt_secret,
                    hostname: context.settings.hostname,
                },
            ),
            Reply::LocalUser(Err(fault)) => run.fails(3, fault, Some(Message::CouldntUpdateUser)),
            _ => false,
        },
        run.replies.len() > 3 ==> match run.replies[3] {
            Reply::Jwt(Ok(jwt)) => run.responds(
                4,
                LoginResponse {
                    jwt: Some(jwt),
                    verify_email_sent: false,
                    registration_created: false,
                },
            ),
            Reply::Jwt(Err(fault)) => run.fails(4, fault, None),
            _ => false,
        },
        run.replies.len() <= 4,
{
    lemma_first_steps(request, context, websocket_id, run);
}

} // verus!
