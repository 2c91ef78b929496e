//! Logging in with a password.
use vstd::prelude::*;
use vstd::pervasive::unreached;

use crate::effect::{Action, Reply};
use crate::error::{LemmyError, Message};
use crate::machine::{Perform, Resume, Step};
use crate::model::{ConnectionId, Context, LocalUserId, LocalUserView, Site};
use crate::password::{bcrypt_verdict, goes_with, password_valid};
use crate::run::{lemma_first_steps, linked, run_of, Run};
use crate::session::{answer_with, issue_jwt, logged_in, token_for, LoginResponse};

verus! {

#[derive(Debug, PartialEq, Eq)]
pub struct Login {
    pub username_or_email: String,
    pub password: String,
}

/// The requests that wait, by what they wait for.
pub enum LoginState {
    FindUser { password: String },
    ReadSite { user: LocalUserView },
    CheckApplication { id: LocalUserId },
    IssueJwt,
}

/// What follows an outcome.
pub type LoginStep = Step<LoginState, LoginResponse>;

/// A user was found: go on where the password is valid.
pub open spec fn found(user: LocalUserView, valid: bool) -> LoginStep {
    if valid {
        Step::Call(LoginState::ReadSite { user }, Action::ReadSiteSimple)
    } else {
        Step::Return(Err(LemmyError::Message(Message::PasswordIncorrect)))
    }
}

/// Whether a site keeps a user out until the user's mail address is verified.
pub open spec fn must_verify_email(site: Site, user: LocalUserView) -> bool {
    site.require_email_verification && !user.local_user.email_verified
}

impl LoginState {
    /// What the request does next, handed this outcome.
    pub open spec fn next(self, context: Context, reply: Reply) -> LoginStep {
        match self {
            LoginState::FindUser { password } => match reply->User_0 {
                Ok(user) => found(
                    user,
                    goes_with(password@, user.local_user.password_encrypted@),
                ),
                Err(fault) => Step::Return(
                    Err(fault.labelled(Message::CouldntFindThatUsernameOrEmail)),
                ),
            },
            LoginState::ReadSite { user } => match reply->Site_0 {
                Ok(site) => if must_verify_email(site, user) {
                    Step::Return(Err(LemmyError::Message(Message::EmailNotVerified)))
                } else {
                    Step::Call(
                        LoginState::CheckApplication { id: user.local_user.id },
                        Action::CheckRegistrationApplication { site, user },
                    )
                },
                Err(fault) => Step::Return(Err(fault.as_it_is())),
            },
            LoginState::CheckApplication { id } => match reply->Checked_0 {
                Ok(_) => Step::Call(LoginState::IssueJwt, token_for(id, context)),
                Err(fault) => Step::Return(Err(fault.as_it_is())),
            },
            LoginState::IssueJwt => Step::Return(answer_with(reply->Jwt_0)),
        }
    }
}

/// Goes on with the user who was found, given whether the password is valid.
pub fn user_found(user: LocalUserView, valid: bool) -> (step: LoginStep)
    ensures
        step == found(user, valid),
{
    if !valid {
        return Step::Return(Err(LemmyError::Message(Message::PasswordIncorrect)));
    }
    Step::Call(LoginState::ReadSite { user }, Action::ReadSiteSimple)
}

impl Resume for LoginState {
    type Response = LoginResponse;

    open spec fn accepts(self, reply: Reply) -> bool {
        match self {
            LoginState::FindUser { .. } => reply is User,
            LoginState::ReadSite { .. } => reply is Site,
            LoginState::CheckApplication { .. } => reply is Checked,
            LoginState::IssueJwt => reply is Jwt,
        }
    }

    open spec fn leads_to(
        self,
        context: Context,
        reply: Reply,
        step: LoginStep,
    ) -> bool {
        step == self.next(context, reply)
    }

    open spec fn stages(self) -> nat {
        match self {
            LoginState::FindUser { .. } => 4,
            LoginState::ReadSite { .. } => 3,
            LoginState::CheckApplication { .. } => 2,
            LoginState::IssueJwt => 1,
        }
    }

    open spec fn repeats(self) -> nat {
        0
    }

    proof fn progress(self, context: Context, reply: Reply, step: LoginStep) {
    }

    proof fn failure(self, context: Context, reply: Reply, step: LoginStep) {
    }

    fn resume(self, context: &Context, reply: Reply) -> (step: LoginStep) {
        match (self, reply) {
            (LoginState::FindUser { password }, Reply::User(found)) => match found {
                Ok(user) => {
                    let valid = password_valid(
                        password.as_str(),
                        user.local_user.password_encrypted.as_str(),
                    );
                    user_found(user, valid)
                },
                Err(fault) => Step::Return(
                    Err(fault.with_message(Message::CouldntFindThatUsernameOrEmail)),
                ),
            },
            (LoginState::ReadSite { user }, Reply::Site(read)) => match read {
                Ok(site) => {
                    if site.require_email_verification && !user.local_user.email_verified {
                        return Step::Return(Err(LemmyError::Message(Message::EmailNotVerified)));
                    }
                    Step::Call(
                        LoginState::CheckApplication { id: user.local_user.id },
                        Action::CheckRegistrationApplication { site, user },
                    )
                },
                Err(fault) => Step::Return(Err(fault.pass())),
            },
            (LoginState::CheckApplication { id }, Reply::Checked(checked)) => match checked {
                Ok(_) => Step::Call(LoginState::IssueJwt, issue_jwt(id, context)),
                Err(fault) => Step::Return(Err(fault.pass())),
            },
            (LoginState::IssueJwt, Reply::Jwt(token)) => Step::Return(logged_in(token)),
            _ => unreached(),
        }
    }
}

impl Perform for Login {
    type Response = LoginResponse;

    type State = LoginState;

    open spec fn begins_with(
        self,
        context: Context,
        websocket_id: Option<ConnectionId>,
        step: LoginStep,
    ) -> bool {
        step == LoginStep::Call(
            LoginState::FindUser { password: self.password },
            Action::FindUserByEmailOrName { username_or_email: self.username_or_email },
        )
    }

    proof fn prepared(
        self,
        context: Context,
        websocket_id: Option<ConnectionId>,
        step: LoginStep,
    ) {
    }

    fn perform(self, context: &Context, websocket_id: Option<ConnectionId>) -> (step:
        LoginStep) {
        Step::Call(
            LoginState::FindUser { password: self.password },
            Action::FindUserByEmailOrName { username_or_email: self.username_or_email },
        )
    }
}

/// The outcomes that let a user in: the user is found and the password goes with the stored hash,
/// the site does not wait for the mail address, the application does not stand in the way, and the
/// token is signed.
pub open spec fn lets_in(request: Login, replies: Seq<Reply>) -> bool {
    &&& replies.len() == 4
    &&& replies[0] matches Reply::User(Ok(user)) && {
        &&& goes_with(request.password@, user.local_user.password_encrypted@)
        &&& replies[1] matches Reply::Site(Ok(site)) && !must_verify_email(site, user)
    }
    &&& replies[2] matches Reply::Checked(Ok(_))
    &&& replies[3] matches Reply::Jwt(Ok(_))
}

/// A login succeeds exactly on the outcomes that let the user in, and the answer then holds the
/// token that was signed for the number of the user who was found.
pub proof fn login_lets_in(
    request: Login,
    context: Context,
    websocket_id: Option<ConnectionId>,
    run: Run<LoginState, LoginResponse>,
)
    requires
        run_of(request, context, websocket_id, run),
    ensures
        run.succeeds() <==> lets_in(request, run.replies),
        run.succeeds() ==> {
            let user = run.replies[0]->User_0->Ok_0;
            let site = run.replies[1]->Site_0->Ok_0;
            let token = run.replies[3]->Jwt_0->Ok_0;
            &&& run.asks(
                0,
                Action::FindUserByEmailOrName { username_or_email: request.username_or_email },
            )
            &&& run.asks(1, Action::ReadSiteSimple)
            &&& run.asks(2, Action::CheckRegistrationApplication { site, user })
            &&& run.asks(3, token_for(user.local_user.id, context))
            &&& run.answers(
                LoginResponse {
                    jwt: Some(token),
                    verify_email_sent: false,
                    registration_created: false,
                },
            )
        },
{
    lemma_first_steps(request, context, websocket_id, run);
}

/// A wrong password is refused as such as soon as the user is found, and nothing more is asked.
pub proof fn wrong_password_is_refused(
    request: Login,
    context: Context,
    websocket_id: Option<ConnectionId>,
    run: Run<LoginState, LoginResponse>,
    user: LocalUserView,
)
    requires
        run_of(request, context, websocket_id, run),
        run.replies.len() > 0,
        run.replies[0] == Reply::User(Ok(user)),
        !goes_with(request.password@, user.local_user.password_encrypted@),
    ensures
        run.steps.len() == 2,
        run.steps[1] == LoginStep::Return(
            Err(LemmyError::Message(Message::PasswordIncorrect)),
        ),
{
    assert(linked(run, context, 0));
    if run.replies.len() > 1 {
        assert(linked(run, context, 1));
    }
}

/// Logging in changes nothing that is stored, and sends no mail.
pub proof fn login_only_reads(
    request: Login,
    context: Context,
    websocket_id: Option<ConnectionId>,
    run: Run<LoginState, LoginResponse>,
    i: int,
    action: Action,
)
    requires
        run_of(request, context, websocket_id, run),
        run.asks(i, action),
    ensures
        !action.writes(),
        !action.mails(),
{
    if i > 0 {
        assert(linked(run, context, i - 1));
    }
}

/// No token is signed unless the user was found, the password goes with the stored hash, the mail
/// address need not be verified first, and the application was checked; and the token is for that
/// user.
pub proof fn no_token_without_the_password(
    request: Login,
    context: Context,
    websocket_id: Option<ConnectionId>,
    run: Run<LoginState, LoginResponse>,
    i: int,
    action: Action,
)
    requires
        run_of(request, context, websocket_id, run),
        run.asks(i, action),
        action is IssueJwt,
    ensures
        i == 3,
        ({
            &&& run.replies[0] matches Reply::User(Ok(user))
            &&& goes_with(request.password@, user.local_user.password_encrypted@)
            &&& run.replies[1] matches Reply::Site(Ok(site))
            &&& !must_verify_email(site, user)
            &&& run.passes(2, Action::CheckRegistrationApplication { site, user })
            &&& action == token_for(user.local_user.id, context)
        }),
{
    lemma_first_steps(request, context, websocket_id, run);
}

/// A login, outcome by outcome. The user is looked up by the name or address in the request. The
/// password is checked against the hash of the user who was found, then the site is read, then the
/// application checked, then a token signed with the server's secret for its host; and each outcome
/// that does not lead on is answered with an error of its own.
pub proof fn login_outcome_by_outcome(
    request: Login,
    context: Context,
    websocket_id: Option<ConnectionId>,
    run: Run<LoginState, LoginResponse>,
)
    requires
        run_of(request, context, websocket_id, run),
    ensures
        run.asks(
            0,
            Action::FindUserByEmailOrName { username_or_email: request.username_or_email },
        ),
        run.replies.len() > 0 ==> match run.replies[0] {
            Reply::User(Ok(user)) => {
                let verdict = bcrypt_verdict(
                    request.password@,
                    user.local_user.password_encrypted@,
                );
                &&& verdict == Some(true) ==> run.asks(1, Action::ReadSiteSimple)
                &&& verdict != Some(true) ==> run.refuses(1, Message::PasswordIncorrect)
            },
            Reply::User(Err(fault)) => run.fails(
                1,
                fault,
                Some(Message::CouldntFindThatUsernameOrEmail),
            ),
            _ => false,
        },
        run.replies.len() > 1 ==> match (run.replies[0], run.replies[1]) {
            (Reply::User(Ok(user)), Reply::Site(Ok(site))) => {
                let wanted = site.require_email_verification;
                let verified = user.local_user.email_verified;
                &&& wanted && !verified ==> run.refuses(2, Message::EmailNotVerified)
                &&& !wanted || verified ==> run.asks(
                    2,
                    Action::CheckRegistrationApplication { site, user },
                )
            },
            (Reply::User(Ok(_)), Reply::Site(Err(fault))) => run.fails(2, fault, None),
            _ => false,
        },
        run.replies.len() > 2 ==> match (run.replies[0], run.replies[2]) {
            (Reply::User(Ok(user)), Reply::Checked(Ok(_))) => run.asks(
                3,
                Action::IssueJwt {
                    local_user_id: user.local_user.id.0,
                    jwt_secret: context.secret.jwt_secret,
                    hostname: context.settings.hostname,
                },
            ),
            (Reply::User(Ok(_)), Reply::Checked(Err(fault))) => run.fails(3, fault, None),
            _ => false,
        },
        run.replies.len() > 3 ==> match run.replies[3] {
            Reply::Jwt(Ok(jwt)) => run.responds(
                4,
                LoginResponse {
                    jwt: Some(jwt),
                    verify_email_sent: false,
                    registration_created: false,
                },
            ),
            Reply::Jwt(Err(fault)) => run.fails(4, fault, None),
            _ => false,
        },
        run.replies.len() <= 4,
{
    lemma_first_steps(request, context, websocket_id, run);
}

/// A user who was found with the right password, once the site has been read, is refused for the
/// mail address if and only if the site requires verified addresses and the user's is not. A site
/// that does not require it never refuses for it, and a verified user never is refused for it.
pub proof fn unverified_address_is_the_only_ground(
    request: Login,
    context: Context,
    websocket_id: Option<ConnectionId>,
    run: Run<LoginState, LoginResponse>,
    user: LocalUserView,
    site: Site,
)
    requires
        run_of(request, context, websocket_id, run),
        run.replies.len() > 1,
        run.replies[0] == Reply::User(Ok(user)),
        run.replies[1] == Reply::Site(Ok(site)),
    ensures
        run.refuses(2, Message::EmailNotVerified) <==> site.require_email_verification
            && !user.local_user.email_verified,
        !site.require_email_verification || user.local_user.email_verified ==> run.asks(
            2,
            Action::CheckRegistrationApplication { site, user },
        ),
{
    lemma_first_steps(request, context, websocket_id, run);
}

} // verus!
