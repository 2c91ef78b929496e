//! Confirming a mail address by the token that was mailed to it.
use vstd::prelude::*;
use vstd::pervasive::unreached;

use crate::effect::{Action, Reply};
use crate::error::Message;
use crate::machine::{Perform, Resume, Step};
use crate::model::{ConnectionId, Context, LocalUserForm, LocalUserId, LocalUserView};
use crate::run::{lemma_first_steps, run_of, Run};
use crate::session::{answer_with, issue_jwt, logged_in, token_for, LoginResponse};

verus! {

#[derive(Debug, PartialEq, Eq)]
pub struct VerifyEmail {
    pub token: String,
}

/// The requests that wait, by what they wait for.
pub enum VerifyEmailState {
    Verification,
    Update { local_user_id: LocalUserId },
    User { local_user_id: LocalUserId },
    Mail { local_user_id: LocalUserId, user: LocalUserView },
    Deletion { user: LocalUserView },
    Site { user: LocalUserView },
    Application { id: LocalUserId },
    Token,
}

/// What follows an outcome.
pub type VerifyEmailStep = Step<VerifyEmailState, LoginResponse>;

/// The change by which a user gets a confirmed address.
pub open spec fn confirmed(email: String) -> LocalUserForm {
    LocalUserForm {
        email_verified: Some(true),
        email: Some(Some(email)),
        ..LocalUserForm::unchanged()
    }
}

impl VerifyEmailState {
    /// What the request does next, handed this outcome.
    pub open spec fn next(self, context: Context, reply: Reply) -> VerifyEmailStep {
        match self {
            VerifyEmailState::Verification => match reply->Verification_0 {
                Ok(verification) => Step::Call(
                    VerifyEmailState::Update { local_user_id: verification.local_user_id },
                    Action::UpdateLocalUser {
                        local_user_id: verification.local_user_id,
                        form: confirmed(verification.email),
                    },
                ),
                Err(fault) => Step::Return(Err(fault.labelled(Message::TokenNotFound))),
            },
            VerifyEmailState::Update { local_user_id } => match reply->LocalUser_0 {
                Ok(_) => Step::Call(
                    VerifyEmailState::User { local_user_id },
                    Action::ReadUser { local_user_id },
                ),
                Err(fault) => Step::Return(Err(fault.as_it_is())),
            },
            VerifyEmailState::User { local_user_id } => match reply->User_0 {
                Ok(user) => Step::Call(
                    VerifyEmailState::Mail { local_user_id, user },
                    Action::SendEmailVerificationSuccess { user },
                ),
                Err(fault) => Step::Return(Err(fault.as_it_is())),
            },
            VerifyEmailState::Mail { local_user_id, user } => match reply->Checked_0 {
                Ok(_) => Step::Call(
                    VerifyEmailState::Deletion { user },
                    Action::DeleteVerifications { local_user_id },
                ),
                Err(fault) => Step::Return(Err(fault.as_it_is())),
            },
            VerifyEmailState::Deletion { user } => match reply->Checked_0 {
                Ok(_) => Step::Call(VerifyEmailState::Site { user }, Action::ReadSiteSimple),
                Err(fault) => Step::Return(Err(fault.as_it_is())),
            },
            VerifyEmailState::Site { user } => match reply->Site_0 {
                Ok(site) => Step::Call(
                    VerifyEmailState::Application { id: user.local_user.id },
                    Action::CheckRegistrationApplication { site, user },
                ),
                Err(fault) => Step::Return(Err(fault.as_it_is())),
            },
            VerifyEmailState::Application { id } => match reply->Checked_0 {
                Ok(_) => Step::Call(VerifyEmailState::Token, token_for(id, context)),
                Err(fault) => Step::Return(Err(fault.as_it_is())),
            },
            VerifyEmailState::Token => Step::Return(answer_with(reply->Jwt_0)),
        }
    }
}

impl Resume for VerifyEmailState {
    type Response = LoginResponse;

    open spec fn accepts(self, reply: Reply) -> bool {
        match self {
            VerifyEmailState::Verification => reply is Verification,
            VerifyEmailState::Update { .. } => reply is LocalUser,
            VerifyEmailState::User { .. } => reply is User,
            VerifyEmailState::Mail { .. } => reply is Checked,
            VerifyEmailState::Deletion { .. } => reply is Checked,
            VerifyEmailState::Site { .. } => reply is Site,
            VerifyEmailState::Application { .. } => reply is Checked,
            VerifyEmailState::Token => reply is Jwt,
        }
    }

    open spec fn leads_to(self, context: Context, reply: Reply, step: VerifyEmailStep) -> bool {
        step == self.next(context, reply)
    }

    open spec fn stages(self) -> nat {
        match self {
            VerifyEmailState::Verification => 8,
            VerifyEmailState::Update { .. } => 7,
            VerifyEmailState::User { .. } => 6,
            VerifyEmailState::Mail { .. } => 5,
            VerifyEmailState::Deletion { .. } => 4,
            VerifyEmailState::Site { .. } => 3,
            VerifyEmailState::Application { .. } => 2,
            VerifyEmailState::Token => 1,
        }
    }

    open spec fn repeats(self) -> nat {
        0
    }

    proof fn progress(self, context: Context, reply: Reply, step: VerifyEmailStep) {
    }

    proof fn failure(self, context: Context, reply: Reply, step: VerifyEmailStep) {
    }

    fn resume(self, context: &Context, reply: Reply) -> (step: VerifyEmailStep) {
        match (self, reply) {
            (VerifyEmailState::Verification, Reply::Verification(read)) => match read {
                Ok(verification) => {
                    let local_user_id = verification.local_user_id;
                    let form = LocalUserForm {
                        // necessary in case this is a new signup
                        email_verified: Some(true),
                        // necessary in case email of an existing user was changed
                        email: Some(Some(verification.email)),
                        ..LocalUserForm::default()
                    };
                    Step::Call(
                        VerifyEmailState::Update { local_user_id },
                        Action::UpdateLocalUser { local_user_id, form },
                    )
                },
                Err(fault) => Step::Return(Err(fault.with_message(Message::TokenNotFound))),
            },
            (VerifyEmailState::Update { local_user_id }, Reply::LocalUser(updated)) => {
                match updated {
                    Ok(_) => Step::Call(
                        VerifyEmailState::User { local_user_id },
                        Action::ReadUser { local_user_id },
                    ),
                    Err(fault) => Step::Return(Err(fault.pass())),
                }
            },
            (VerifyEmailState::User { local_user_id }, Reply::User(read)) => match read {
                Ok(user) => {
                    let receiver = user.clone();
                    Step::Call(
                        VerifyEmailState::Mail { local_user_id, user },
                        Action::SendEmailVerificationSuccess { user: receiver },
                    )
                },
                Err(fault) => Step::Return(Err(fault.pass())),
            },
            (VerifyEmailState::Mail { local_user_id, user }, Reply::Checked(sent)) => match sent {
                Ok(_) => Step::Call(
                    VerifyEmailState::Deletion { user },
                    Action::DeleteVerifications { local_user_id },
                ),
                Err(fault) => Step::Return(Err(fault.pass())),
            },
            (VerifyEmailState::Deletion { user }, Reply::Checked(deleted)) => match deleted {
                Ok(_) => Step::Call(VerifyEmailState::Site { user }, Action::ReadSiteSimple),
                Err(fault) => Step::Return(Err(fault.pass())),
            },
            (VerifyEmailState::Site { user }, Reply::Site(read)) => match read {
                Ok(site) => Step::Call(
                    VerifyEmailState::Application { id: user.local_user.id },
                    Action::CheckRegistrationApplication { site, user },
                ),
                Err(fault) => Step::Return(Err(fault.pass())),
            },
            (VerifyEmailState::Application { id }, Reply::Checked(checked)) => match checked {
                Ok(_) => Step::Call(VerifyEmailState::Token, issue_jwt(id, context)),
                Err(fault) => Step::Return(Err(fault.pass())),
            },
            (VerifyEmailState::Token, Reply::Jwt(token)) => Step::Return(logged_in(token)),
            _ => unreached(),
        }
    }
}

impl Perform for VerifyEmail {
    type Response = LoginResponse;

    type State = VerifyEmailState;

    open spec fn begins_with(
        self,
        context: Context,
        websocket_id: Option<ConnectionId>,
        step: VerifyEmailStep,
    ) -> bool {
        step == VerifyEmailStep::Call(
            VerifyEmailState::Verification,
            Action::ReadVerification { token: self.token },
        )
    }

    proof fn prepared(
        self,
        context: Context,
        websocket_id: Option<ConnectionId>,
        step: VerifyEmailStep,
    ) {
    }

    fn perform(self, context: &Context, websocket_id: Option<ConnectionId>) -> (step:
        VerifyEmailStep) {
        Step::Call(
            VerifyEmailState::Verification,
            Action::ReadVerification { token: self.token },
        )
    }
}

/// Nothing is written before the token is found. What is written then is the address that the
/// token was mailed to, for the user it was mailed for, and the removal of that user's tokens
/// once the address is stored and the user has been told.
pub proof fn only_the_address_of_the_token_is_stored(
    request: VerifyEmail,
    context: Context,
    websocket_id: Option<ConnectionId>,
    run: Run<VerifyEmailState, LoginResponse>,
    i: int,
    action: Action,
)
    requires
        run_of(request, context, websocket_id, run),
        run.asks(i, action),
        action.writes(),
    ensures
        run.asks(0, Action::ReadVerification { token: request.token }),
        run.replies[0] matches Reply::Verification(Ok(verification)) && {
            ||| i == 1 && action == Action::UpdateLocalUser {
                local_user_id: verification.local_user_id,
                form: confirmed(verification.email),
            }
            ||| {
                &&& i == 4
                &&& run.replies[1] matches Reply::LocalUser(Ok(_))
                &&& run.replies[2] matches Reply::User(Ok(user))
                &&& run.passes(3, Action::SendEmailVerificationSuccess { user })
                &&& action == Action::DeleteVerifications {
                    local_user_id: verification.local_user_id,
                }
            }
        },
{
    lemma_first_steps(request, context, websocket_id, run);
}

/// The outcomes on which an address is confirmed and its owner let in: none fails.
pub open spec fn confirms(replies: Seq<Reply>) -> bool {
    &&& replies.len() == 8
    &&& replies[0] matches Reply::Verification(Ok(_))
    &&& replies[1] matches Reply::LocalUser(Ok(_))
    &&& replies[2] matches Reply::User(Ok(_))
    &&& replies[3] matches Reply::Checked(Ok(_))
    &&& replies[4] matches Reply::Checked(Ok(_))
    &&& replies[5] matches Reply::Site(Ok(_))
    &&& replies[6] matches Reply::Checked(Ok(_))
    &&& replies[7] matches Reply::Jwt(Ok(_))
}

/// A request succeeds exactly where nothing fails. The address is then stored as confirmed, its
/// owner told, the tokens are gone, the user's application was checked, and the answer holds the
/// token that was signed for the user.
pub proof fn confirmed_address_is_stored(
    request: VerifyEmail,
    context: Context,
    websocket_id: Option<ConnectionId>,
    run: Run<VerifyEmailState, LoginResponse>,
)
    requires
        run_of(request, context, websocket_id, run),
    ensures
        run.succeeds() <==> confirms(run.replies),
        run.succeeds() ==> {
            let verification = run.replies[0]->Verification_0->Ok_0;
            let local_user_id = verification.local_user_id;
            let user = run.replies[2]->User_0->Ok_0;
            let site = run.replies[5]->Site_0->Ok_0;
            &&& run.asks(0, Action::ReadVerification { token: request.token })
            &&& run.asks(
                1,
                Action::UpdateLocalUser { local_user_id, form: confirmed(verification.email) },
            )
            &&& run.asks(2, Action::ReadUser { local_user_id })
            &&& run.asks(3, Action::SendEmailVerificationSuccess { user })
            &&& run.asks(4, Action::DeleteVerifications { local_user_id })
            &&& run.asks(5, Action::ReadSiteSimple)
            &&& run.asks(6, Action::CheckRegistrationApplication { site, user })
            &&& run.asks(7, token_for(user.local_user.id, context))
            &&& run.answers(
                LoginResponse {
                    jwt: Some(run.replies[7]->Jwt_0->Ok_0),
                    verify_email_sent: false,
                    registration_created: false,
                },
            )
        },
{
    lemma_first_steps(request, context, websocket_id, run);
}

/// A token is signed only after the address was stored and the application checked, and for the
/// user who was checked.
pub proof fn token_follows_the_confirmation(
    request: VerifyEmail,
    context: Context,
    websocket_id: Option<ConnectionId>,
    run: Run<VerifyEmailState, LoginResponse>,
    i: int,
    action: Action,
)
    requires
        run_of(request, context, websocket_id, run),
        run.asks(i, action),
        action is IssueJwt,
    ensures
        i == 7,
        ({
            &&& run.replies[1] matches Reply::LocalUser(Ok(_))
            &&& run.replies[2] matches Reply::User(Ok(user))
            &&& run.replies[5] matches Reply::Site(Ok(site))
            &&& run.passes(6, Action::CheckRegistrationApplication { site, user })
            &&& action == token_for(user.local_user.id, context)
        }),
{
    lemma_first_steps(request, context, websocket_id, run);
}

/// The confirmation of an address, outcome by outcome. The user for whom the token was mailed gets
/// the address it was mailed to, as confirmed, and nothing else of the user changes; then the user
/// is read and told, the user's tokens are dropped, the application is checked, and a token signed.
pub proof fn confirmation_outcome_by_outcome(
    request: VerifyEmail,
    context: Context,
    websocket_id: Option<ConnectionId>,
    run: Run<VerifyEmailState, LoginResponse>,
)
    requires
        run_of(request, context, websocket_id, run),
    ensures
        run.asks(0, Action::ReadVerification { token: request.token }),
        run.replies.len() > 0 ==> match run.replies[0] {
            Reply::Verification(Ok(verification)) => {
                &&& run.steps[1] matches Step::Call(
                    _,
                    Action::UpdateLocalUser { local_user_id, form },
                )
                &&& local_user_id == verification.local_user_id
                &&& form.email == Some(Some(verification.email))
                &&& form.email_verified == Some(true)
                &&& form.person_id is None
                &&& form.password_encrypted is None
                &&& form.show_nsfw is None
                &&& form.show_bot_accounts is None
                &&& form.show_scores is None
                &&& form.theme is None
                &&& form.default_sort_type is None
                &&& form.default_listing_type is None
                &&& form.lang is None
                &&& form.show_avatars is None
                &&& form.show_read_posts is None
                &&& form.show_new_post_notifs is None
                &&& form.send_notifications_to_email is None
                &&& form.accepted_application is None
            },
            Reply::Verification(Err(fault)) => run.fails(1, fault, Some(Message::TokenNotFound)),
            _ => false,
        },
        run.replies.len() > 1 ==> match (run.replies[0], run.replies[1]) {
            (Reply::Verification(Ok(verification)), Reply::LocalUser(Ok(_))) => run.asks(
                2,
                Action::ReadUser { local_user_id: verification.local_user_id },
            ),
            (Reply::Verification(Ok(_)), Reply::LocalUser(Err(fault))) => run.fails(2, fault, None),
            _ => false,
        },
        run.replies.len() > 2 ==> match run.replies[2] {
            Reply::User(Ok(user)) => run.asks(3, Action::SendEmailVerificationSuccess { user }),
            Reply::User(Err(fault)) => run.fails(3, fault, None),
            _ => false,
        },
        run.replies.len() > 3 ==> match (run.replies[0], run.replies[3]) {
            (Reply::Verification(Ok(verification)), Reply::Checked(Ok(_))) => run.asks(
                4,
                Action::DeleteVerifications { local_user_id: verification.local_user_id },
            ),
            (Reply::Verification(Ok(_)), Reply::Checked(Err(fault))) => run.fails(4, fault, None),
            _ => false,
        },
        run.replies.len() > 4 ==> match run.replies[4] {
            Reply::Checked(Ok(_)) => run.asks(5, Action::ReadSiteSimple),
            Reply::Checked(Err(fault)) => run.fails(5, fault, None),
            _ => false,
        },
        run.replies.len() > 5 ==> match (run.replies[2], run.replies[5]) {
            (Reply::User(Ok(user)), Reply::Site(Ok(site))) => run.asks(
                6,
                Action::CheckRegistrationApplication { site, user },
            ),
            (Reply::User(Ok(_)), Reply::Site(Err(fault))) => run.fails(6, fault, None),
            _ => false,
        },
        run.replies.len() > 6 ==> match (run.replies[2], run.replies[6]) {
            (Reply::User(Ok(user)), Reply::Checked(Ok(_))) => run.asks(
                7,
                Action::IssueJwt {
                    local_user_id: user.local_user.id.0,
                    jwt_secret: context.secret.jwt_secret,
                    hostname: context.settings.hostname,
                },
            ),
            (Reply::User(Ok(_)), Reply::Checked(Err(fault))) => run.fails(7, fault, None),
            _ => false,
        },
        run.replies.len() > 7 ==> match run.replies[7] {
            Reply::Jwt(Ok(jwt)) => run.responds(
                8,
                LoginResponse {
                    jwt: Some(jwt),
                    verify_email_sent: false,
                    registration_created: false,
                },
            ),
            Reply::Jwt(Err(fault)) => run.fails(8, fault, None),
            _ => false,
        },
        run.replies.len() <= 8,
{
    lemma_first_steps(request, context, websocket_id, run);
}

} // verus!
