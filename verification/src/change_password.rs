//! Choosing a new password with the help of the old one.
use vstd::prelude::*;
use vstd::pervasive::unreached;

use crate::effect::{Action, Reply};
use crate::error::{LemmyError, Message};
use crate::machine::{Perform, Resume, Step};
use crate::model::{ConnectionId, Context, LocalUserId, LocalUserView};
use crate::password::{bcrypt_verdict, goes_with, password_valid};
use crate::run::{lemma_first_steps, run_of, Run};
use crate::session::{answer_with, issue_jwt, logged_in, token_for, LoginResponse};

verus! {

#[derive(Debug, PartialEq, Eq)]
pub struct ChangePassword {
    pub new_password: String,
    pub new_password_verify: String,
    pub old_password: String,
    pub auth: String,
}

/// The requests that wait, by what they wait for.
pub enum ChangePasswordState {
    User(ChangePassword),
    Length { data: ChangePassword, user: LocalUserView },
    Update,
    Token,
}

/// What follows an outcome.
pub type ChangePasswordStep = Step<ChangePasswordState, LoginResponse>;

/// The old password was checked: the new one is stored where the old one is valid.
pub open spec fn replacement(
    new_password: String,
    local_user_id: LocalUserId,
    valid: bool,
) -> ChangePasswordStep {
    if valid {
        Step::Call(
            ChangePasswordState::Update,
            Action::UpdatePassword { local_user_id, password: new_password },
        )
    } else {
        Step::Return(Err(LemmyError::Message(Message::PasswordIncorrect)))
    }
}

/// Goes on with a new password that can be stored, given whether the old one is valid.
pub fn replace_password(new_password: String, local_user_id: LocalUserId, valid: bool) -> (step:
    ChangePasswordStep)
    ensures
        step == replacement(new_password, local_user_id, valid),
{
    if !valid {
        return Step::Return(Err(LemmyError::Message(Message::PasswordIncorrect)));
    }
    Step::Call(
        ChangePasswordState::Update,
        Action::UpdatePassword { local_user_id, password: new_password },
    )
}

impl ChangePasswordState {
    /// What the request does next, handed this outcome.
    pub open spec fn next(self, context: Context, reply: Reply) -> ChangePasswordStep {
        match self {
            ChangePasswordState::User(data) => match reply->User_0 {
                Ok(user) => Step::Call(
                    ChangePasswordState::Length { data, user },
                    Action::CheckPasswordLength { password: data.new_password },
                ),
                Err(fault) => Step::Return(Err(fault.as_it_is())),
            },
            ChangePasswordState::Length { data, user } => match reply->Checked_0 {
                Ok(_) => if data.new_password@ == data.new_password_verify@ {
                    replacement(
                        data.new_password,
                        user.local_user.id,
                        goes_with(data.old_password@, user.local_user.password_encrypted@),
                    )
                } else {
                    Step::Return(Err(LemmyError::Message(Message::PasswordsDontMatch)))
                },
                Err(fault) => Step::Return(Err(fault.as_it_is())),
            },
            ChangePasswordState::Update => match reply->LocalUser_0 {
                Ok(updated) => Step::Call(
                    ChangePasswordState::Token,
                    token_for(updated.id, context),
                ),
                Err(fault) => Step::Return(Err(fault.as_it_is())),
            },
            ChangePasswordState::Token => Step::Return(answer_with(reply->Jwt_0)),
        }
    }
}

impl Resume for ChangePasswordState {
    type Response = LoginResponse;

    open spec fn accepts(self, reply: Reply) -> bool {
        match self {
            ChangePasswordState::User(_) => reply is User,
            ChangePasswordState::Length { .. } => reply is Checked,
            ChangePasswordState::Update => reply is LocalUser,
            ChangePasswordState::Token => reply is Jwt,
        }
    }

    open spec fn leads_to(self, context: Context, reply: Reply, step: ChangePasswordStep) -> bool {
        step == self.next(context, reply)
    }

    open spec fn stages(self) -> nat {
        match self {
            ChangePasswordState::User(_) => 4,
            ChangePasswordState::Length { .. } => 3,
            ChangePasswordState::Update => 2,
            ChangePasswordState::Token => 1,
        }
    }

    open spec fn repeats(self) -> nat {
        0
    }

    proof fn progress(self, context: Context, reply: Reply, step: ChangePasswordStep) {
    }

    proof fn failure(self, context: Context, reply: Reply, step: ChangePasswordStep) {
    }

    fn resume(self, context: &Context, reply: Reply) -> (step: ChangePasswordStep) {
        match (self, reply) {
            (ChangePasswordState::User(data), Reply::User(found)) => match found {
                Ok(user) => {
                    let password = data.new_password.clone();
                    Step::Call(
                        ChangePasswordState::Length { data, user },
                        Action::CheckPasswordLength { password },
                    )
                },
                Err(fault) => Step::Return(Err(fault.pass())),
            },
            (ChangePasswordState::Length { data, user }, Reply::Checked(checked)) => match checked {
                Ok(_) => {
                    if data.new_password != data.new_password_verify {
                        return Step::Return(Err(LemmyError::Message(Message::PasswordsDontMatch)));
                    }
                    let valid = password_valid(
                        data.old_password.as_str(),
                        user.local_user.password_encrypted.as_str(),
                    );
                    replace_password(data.new_password, user.local_user.id, valid)
                },
                Err(fault) => Step::Return(Err(fault.pass())),
            },
            (ChangePasswordState::Update, Reply::LocalUser(updated)) => match updated {
                Ok(updated) => Step::Call(
                    ChangePasswordState::Token,
                    issue_jwt(updated.id, context),
                ),
                Err(fault) => Step::Return(Err(fault.pass())),
            },
            (ChangePasswordState::Token, Reply::Jwt(token)) => Step::Return(logged_in(token)),
            _ => unreached(),
        }
    }
}

impl Perform for ChangePassword {
    type Response = LoginResponse;

    type State = ChangePasswordState;

    open spec fn begins_with(
        self,
        context: Context,
        websocket_id: Option<ConnectionId>,
        step: ChangePasswordStep,
    ) -> bool {
        step == ChangePasswordStep::Call(
            ChangePasswordState::User(self),
            Action::UserFromJwt { jwt: self.auth },
        )
    }

    proof fn prepared(
        self,
        context: Context,
        websocket_id: Option<ConnectionId>,
        step: ChangePasswordStep,
    ) {
    }

    fn perform(self, context: &Context, websocket_id: Option<ConnectionId>) -> (step:
        ChangePasswordStep) {
        let jwt = self.auth.clone();
        Step::Call(ChangePasswordState::User(self), Action::UserFromJwt { jwt })
    }
}

/// A password is replaced only for the user whose token came with the request, and only where the
/// new one passed the check of its length and was typed twice, and the old one goes with the
/// stored hash. Nothing else is written.
pub proof fn old_password_guards_the_new(
    request: ChangePassword,
    context: Context,
    websocket_id: Option<ConnectionId>,
    run: Run<ChangePasswordState, LoginResponse>,
    i: int,
    action: Action,
)
    requires
        run_of(request, context, websocket_id, run),
        run.asks(i, action),
        action.writes(),
    ensures
        i == 2,
        run.asks(0, Action::UserFromJwt { jwt: request.auth }),
        run.passes(1, Action::CheckPasswordLength { password: request.new_password }),
        request.new_password@ == request.new_password_verify@,
        run.replies[0] matches Reply::User(Ok(user)) && {
            &&& goes_with(request.old_password@, user.local_user.password_encrypted@)
            &&& action == Action::UpdatePassword {
                local_user_id: user.local_user.id,
                password: request.new_password,
            }
        },
{
    lemma_first_steps(request, context, websocket_id, run);
}

/// What keeps a password from being replaced, once its length has passed: it was typed in two
/// ways, which is said first, or the old password is wrong.
pub proof fn refused_replacements(
    request: ChangePassword,
    context: Context,
    websocket_id: Option<ConnectionId>,
    run: Run<ChangePasswordState, LoginResponse>,
    user: LocalUserView,
)
    requires
        run_of(request, context, websocket_id, run),
        run.replies.len() > 1,
        run.replies[0] == Reply::User(Ok(user)),
        run.replies[1] matches Reply::Checked(Ok(_)),
    ensures
        request.new_password@ != request.new_password_verify@ ==> run.steps[2]
            == ChangePasswordStep::Return(Err(LemmyError::Message(Message::PasswordsDontMatch))),
        request.new_password@ == request.new_password_verify@ && !goes_with(
            request.old_password@,
            user.local_user.password_encrypted@,
        ) ==> run.steps[2] == ChangePasswordStep::Return(
            Err(LemmyError::Message(Message::PasswordIncorrect)),
        ),
{
    lemma_first_steps(request, context, websocket_id, run);
}

/// The outcomes on which a password is replaced.
pub open spec fn replaces(request: ChangePassword, replies: Seq<Reply>) -> bool {
    &&& replies.len() == 4
    &&& request.new_password@ == request.new_password_verify@
    &&& replies[0] matches Reply::User(Ok(user))
    &&& goes_with(request.old_password@, user.local_user.password_encrypted@)
    &&& replies[1] matches Reply::Checked(Ok(_))
    &&& replies[2] matches Reply::LocalUser(Ok(_))
    &&& replies[3] matches Reply::Jwt(Ok(_))
}

/// A request succeeds exactly on the outcomes on which the password is replaced. The new password
/// is then stored, and the answer holds the token that was signed for the user who was changed.
pub proof fn new_password_is_stored(
    request: ChangePassword,
    context: Context,
    websocket_id: Option<ConnectionId>,
    run: Run<ChangePasswordState, LoginResponse>,
)
    requires
        run_of(request, context, websocket_id, run),
    ensures
        run.succeeds() <==> replaces(request, run.replies),
        run.succeeds() ==> {
            let user = run.replies[0]->User_0->Ok_0;
            let updated = run.replies[2]->LocalUser_0->Ok_0;
            &&& run.asks(0, Action::UserFromJwt { jwt: request.auth })
            &&& run.passes(1, Action::CheckPasswordLength { password: request.new_password })
            &&& run.asks(
                2,
                Action::UpdatePassword {
                    local_user_id: user.local_user.id,
                    password: request.new_password,
                },
            )
            &&& run.asks(3, token_for(updated.id, context))
            &&& run.answers(
                LoginResponse {
                    jwt: Some(run.replies[3]->Jwt_0->Ok_0),
                    verify_email_sent: false,
                    registration_created: false,
                },
            )
        },
{
    lemma_first_steps(request, context, websocket_id, run);
}

/// A token is signed only for the user whose password was replaced.
pub proof fn token_follows_the_new_password(
    request: ChangePassword,
    context: Context,
    websocket_id: Option<ConnectionId>,
    run: Run<ChangePasswordState, LoginResponse>,
    i: int,
    action: Action,
)
    requires
        run_of(request, context, websocket_id, run),
        run.asks(i, action),
        action is IssueJwt,
    ensures
        i == 3,
        run.steps[2] matches Step::Call(_, Action::UpdatePassword { .. }),
        run.replies[2] matches Reply::LocalUser(Ok(updated)) && action == token_for(
            updated.id,
            context,
        ),
{
    lemma_first_steps(request, context, websocket_id, run);
}

/// A change of password, outcome by outcome. The token finds the user, the length of the new
/// password is checked, the new password must have been typed twice and the old one go with the
/// user's hash. Then the new password is stored for that user, and a token signed for the user who
/// was changed.
pub proof fn change_outcome_by_outcome(
    request: ChangePassword,
    context: Context,
    websocket_id: Option<ConnectionId>,
    run: Run<ChangePasswordState, LoginResponse>,
)
    requires
        run_of(request, context, websocket_id, run),
    ensures
        run.asks(0, Action::UserFromJwt { jwt: request.auth }),
        run.replies.len() > 0 ==> match run.replies[0] {
            Reply::User(Ok(_)) => run.asks(
                1,
                Action::CheckPasswordLength { password: request.new_password },
            ),
            Reply::User(Err(fault)) => run.fails(1, fault, None),
            _ => false,
        },
        run.replies.len() > 1 ==> match (run.replies[0], run.replies[1]) {
            (Reply::User(Ok(user)), Reply::Checked(Ok(_))) => {
                let same = request.new_password@ == request.new_password_verify@;
                let verdict = bcrypt_verdict(
                    request.old_password@,
                    user.local_user.password_encrypted@,
                );
                &&& !same ==> run.refuses(2, Message::PasswordsDontMatch)
                &&& same && verdict != Some(true) ==> run.refuses(2, Message::PasswordIncorrect)
                &&& same && verdict == Some(true) ==> run.asks(
                    2,
                    Action::UpdatePassword {
                        local_user_id: user.local_user.id,
                        password: request.new_password,
                    },
                )
            },
            (Reply::User(Ok(_)), Reply::Checked(Err(fault))) => run.fails(2, fault, None),
            _ => false,
        },
        run.replies.len() > 2 ==> match run.replies[2] {
            Reply::LocalUser(Ok(updated)) => run.asks(
                3,
                Action::IssueJwt {
                    local_user_id: updated.id.0,
                    jwt_secret: context.secret.jwt_secret,
                    hostname: context.settings.hostname,
                },
            ),
            Reply::LocalUser(Err(fault)) => run.fails(3, fault, None),
            _ => false,
        },
        run.replies.len() > 3 ==> match run.replies[3] {
            Reply::Jwt(Ok(jwt)) => run.responds(
                4,
                LoginResponse {
                    jwt: Some(jwt),
                    verify_email_sent: false,
                    registration_created: false,
                },
            ),
            Reply::Jwt(Err(fault)) => run.fails(4, fault, None),
            _ => false,
        },
        run.replies.len() <= 4,
{
    lemma_first_steps(request, context, websocket_id, run);
}

} // verus!
