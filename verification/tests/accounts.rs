use local_user::change_password::{replace_password, ChangePassword, ChangePasswordState};
use local_user::effect::{Action, Reply};
use local_user::error::{Fault, LemmyError, Message, OutsideError};
use local_user::login::{user_found, Login, LoginState};
use local_user::machine::{Perform, Resume, Step};
use local_user::model::{
    CaptchaSettings, Context, EmailVerification, LocalUser, LocalUserForm, LocalUserId,
    LocalUserView, PasswordResetRequest, Person, PersonId, Secret, Settings, Site,
};
use local_user::password::password_valid;
use local_user::password_reset::{
    PasswordChange, PasswordReset, PasswordResetResponse, PasswordResetState,
};
use local_user::session::LoginResponse;
use local_user::verify_email::{VerifyEmail, VerifyEmailState};

const HASH: &str = "$2a$04$UuTkLRZZ6QofpDOlMz32MuuxEHA43WOemOYHPz6.SjsVsyO1tDU96";

fn context() -> Context {
    Context {
        settings: Settings {
            captcha: CaptchaSettings { enabled: true, difficulty: "easy".to_string() },
            actor_name_max_length: 20,
            hostname: "lemmy.example".to_string(),
        },
        secret: Secret { jwt_secret: "pepper".to_string() },
    }
}

fn user() -> LocalUserView {
    LocalUserView {
        local_user: LocalUser {
            id: LocalUserId(11),
            email: Some("ada@example.org".to_string()),
            password_encrypted: HASH.to_string(),
            email_verified: true,
            show_bot_accounts: false,
        },
        person: Person {
            id: PersonId(7),
            name: "ada".to_string(),
            admin: true,
            public_key: "key".to_string(),
        },
        rest: "columns".to_string(),
    }
}

fn refused(text: &str) -> Fault {
    Fault::Refused(OutsideError { text: text.to_string() })
}

fn database(text: &str) -> Fault {
    Fault::Database(OutsideError { text: text.to_string() })
}

fn outside(text: &str, message: Option<Message>) -> LemmyError {
    LemmyError::Outside(OutsideError { text: text.to_string() }, message)
}

fn asked<S, R>(step: Step<S, R>) -> (S, Action) {
    match step {
        Step::Call(state, action) => (state, action),
        Step::Return(_) => panic!("answered"),
        Step::Abort(_) => panic!("abandoned"),
    }
}

fn answer<S, R>(step: Step<S, R>) -> Result<R, LemmyError> {
    match step {
        Step::Return(outcome) => outcome,
        Step::Call(_, _) => panic!("still waiting"),
        Step::Abort(_) => panic!("abandoned"),
    }
}

fn site(require_email_verification: bool) -> Site {
    Site { creator_id: PersonId(1), require_email_verification, rest: "site".to_string() }
}

fn token() -> Result<LoginResponse, LemmyError> {
    Ok(LoginResponse {
        jwt: Some("signed".to_string()),
        verify_email_sent: false,
        registration_created: false,
    })
}

fn assert_signs(action: Action, id: i32) {
    match action {
        Action::IssueJwt { local_user_id, jwt_secret, hostname } => {
            assert_eq!(local_user_id, id);
            assert_eq!(jwt_secret, "pepper");
            assert_eq!(hostname, "lemmy.example");
        }
        _ => panic!("no token is signed"),
    }
}

#[test]
fn messages_are_spelled_as_clients_know_them() {
    let spelled = [
        (Message::BioLengthOverflow, "bio_length_overflow"),
        (Message::CantBlockYourself, "cant_block_yourself"),
        (Message::CouldntFindThatUsernameOrEmail, "couldnt_find_that_username_or_email"),
        (Message::CouldntUpdateComment, "couldnt_update_comment"),
        (Message::CouldntUpdatePrivateMessage, "couldnt_update_private_message"),
        (Message::CouldntUpdateUser, "couldnt_update_user"),
        (Message::EmailAlreadyExists, "email_already_exists"),
        (Message::EmailNotVerified, "email_not_verified"),
        (Message::InvalidMatrixId, "invalid_matrix_id"),
        (Message::InvalidUsername, "invalid_username"),
        (Message::PasswordIncorrect, "password_incorrect"),
        (Message::PasswordsDontMatch, "passwords_dont_match"),
        (Message::PersonBlockAlreadyExists, "person_block_already_exists"),
        (Message::TokenNotFound, "token_not_found"),
        (Message::UserAlreadyExists, "user_already_exists"),
    ];
    for (message, text) in spelled {
        assert_eq!(message.as_str(), text);
    }
}

#[test]
fn messages_are_put_on_statements_only() {
    assert_eq!(refused("down").pass(), outside("down", None));
    assert_eq!(database("down").pass(), outside("down", None));
    assert_eq!(refused("down").with_message(Message::TokenNotFound), outside("down", None));
    assert_eq!(
        database("down").with_message(Message::TokenNotFound),
        outside("down", Some(Message::TokenNotFound))
    );
}

#[test]
fn bcrypt_tells_passwords_apart() {
    assert!(password_valid("password", HASH));
    assert!(!password_valid("Password", HASH));
    assert!(!password_valid("", HASH));
    let other = "$2b$04$EGdrhbKUv8Oc9vGiXX0HQOxSg445d458Muh7DAHskb6QbtCvdxcie";
    assert!(password_valid("correctbatteryhorsestapler", other));
    assert!(!password_valid("password", other));
}

#[test]
fn no_password_goes_with_an_unreadable_hash() {
    assert!(!password_valid("password", ""));
    assert!(!password_valid("password", "password"));
    assert!(!password_valid(HASH, HASH));
    let extra = "$2a$04$n4Uy0eSnMfvnESYL.bLwuuj0U/ETSsoTpRT9GVk$5bektyVVa5xnIi";
    assert!(!password_valid("correctbatteryhorsestapler", extra));
}

fn login(password: &str) -> (LoginState, Action) {
    let request =
        Login { username_or_email: "ada".to_string(), password: password.to_string() };
    asked(request.perform(&context(), None))
}

#[test]
fn login_with_the_right_password() {
    let context = context();
    let (state, action) = login("password");
    assert!(
        matches!(action, Action::FindUserByEmailOrName { username_or_email } if username_or_email == "ada")
    );
    let (state, action) = asked(state.resume(&context, Reply::User(Ok(user()))));
    assert!(matches!(action, Action::ReadSiteSimple));
    let (state, action) = asked(state.resume(&context, Reply::Site(Ok(site(true)))));
    match action {
        Action::CheckRegistrationApplication { site: checked, user: applicant } => {
            assert_eq!(checked, site(true));
            assert_eq!(applicant, user());
        }
        _ => panic!("the application is not checked"),
    }
    let (state, action) = asked(state.resume(&context, Reply::Checked(Ok(()))));
    assert_signs(action, 11);
    assert_eq!(answer(state.resume(&context, Reply::Jwt(Ok("signed".to_string())))), token());
}

#[test]
fn login_with_a_wrong_password() {
    let (state, _) = login("passw0rd");
    assert_eq!(
        answer(state.resume(&context(), Reply::User(Ok(user())))),
        Err(LemmyError::Message(Message::PasswordIncorrect))
    );
}

#[test]
fn login_goes_on_only_with_a_valid_password() {
    assert!(matches!(
        user_found(user(), true),
        Step::Call(LoginState::ReadSite { .. }, Action::ReadSiteSimple)
    ));
    assert_eq!(
        answer(user_found(user(), false)),
        Err(LemmyError::Message(Message::PasswordIncorrect))
    );
}

#[test]
fn login_of_an_unknown_user() {
    let (state, _) = login("password");
    assert_eq!(
        answer(state.resume(&context(), Reply::User(Err(database("not found"))))),
        Err(outside("not found", Some(Message::CouldntFindThatUsernameOrEmail)))
    );
    let (state, _) = login("password");
    assert_eq!(
        answer(state.resume(&context(), Reply::User(Err(refused("no connection"))))),
        Err(outside("no connection", None))
    );
}

#[test]
fn login_waits_for_the_mail_address() {
    let mut unverified = user();
    unverified.local_user.email_verified = false;
    let state = LoginState::ReadSite { user: unverified.clone() };
    assert_eq!(
        answer(state.resume(&context(), Reply::Site(Ok(site(true))))),
        Err(LemmyError::Message(Message::EmailNotVerified))
    );
    let state = LoginState::ReadSite { user: unverified };
    let (_, action) = asked(state.resume(&context(), Reply::Site(Ok(site(false)))));
    assert!(matches!(action, Action::CheckRegistrationApplication { .. }));
}

#[test]
fn login_passes_faults_on() {
    let state = LoginState::ReadSite { user: user() };
    assert_eq!(
        answer(state.resume(&context(), Reply::Site(Err(database("no site"))))),
        Err(outside("no site", None))
    );
    let state = LoginState::CheckApplication { id: LocalUserId(11) };
    assert_eq!(
        answer(state.resume(&context(), Reply::Checked(Err(refused("pending"))))),
        Err(outside("pending", None))
    );
    assert_eq!(
        answer(LoginState::IssueJwt.resume(&context(), Reply::Jwt(Err(refused("no key"))))),
        Err(outside("no key", None))
    );
}

fn change_password(old: &str, new: &str, again: &str) -> (ChangePasswordState, Action) {
    let request = ChangePassword {
        new_password: new.to_string(),
        new_password_verify: again.to_string(),
        old_password: old.to_string(),
        auth: "jwt".to_string(),
    };
    let (state, action) = asked(request.perform(&context(), None));
    assert!(matches!(action, Action::UserFromJwt { jwt } if jwt == "jwt"));
    asked(state.resume(&context(), Reply::User(Ok(user()))))
}

#[test]
fn change_password_stores_the_new_one() {
    let context = context();
    let (state, action) = change_password("password", "hunter2hunter2", "hunter2hunter2");
    assert!(
        matches!(action, Action::CheckPasswordLength { password } if password == "hunter2hunter2")
    );
    let (state, action) = asked(state.resume(&context, Reply::Checked(Ok(()))));
    match action {
        Action::UpdatePassword { local_user_id, password } => {
            assert_eq!(local_user_id, LocalUserId(11));
            assert_eq!(password, "hunter2hunter2");
        }
        _ => panic!("the password is not stored"),
    }
    let mut updated = user().local_user;
    updated.id = LocalUserId(12);
    let (state, action) = asked(state.resume(&context, Reply::LocalUser(Ok(updated))));
    assert_signs(action, 12);
    assert_eq!(answer(state.resume(&context, Reply::Jwt(Ok("signed".to_string())))), token());
}

#[test]
fn change_password_refuses() {
    let context = context();
    let (state, _) = change_password("password", "hunter2hunter2", "hunter2");
    assert_eq!(
        answer(state.resume(&context, Reply::Checked(Ok(())))),
        Err(LemmyError::Message(Message::PasswordsDontMatch))
    );
    let (state, _) = change_password("wrong", "hunter2hunter2", "hunter2");
    assert_eq!(
        answer(state.resume(&context, Reply::Checked(Ok(())))),
        Err(LemmyError::Message(Message::PasswordsDontMatch))
    );
    let (state, _) = change_password("wrong", "hunter2hunter2", "hunter2hunter2");
    assert_eq!(
        answer(state.resume(&context, Reply::Checked(Ok(())))),
        Err(LemmyError::Message(Message::PasswordIncorrect))
    );
    let (state, _) = change_password("password", "short", "short");
    assert_eq!(
        answer(state.resume(&context, Reply::Checked(Err(refused("invalid_password"))))),
        Err(outside("invalid_password", None))
    );
    let faulty = ChangePasswordState::Update;
    assert_eq!(
        answer(faulty.resume(&context, Reply::LocalUser(Err(database("full"))))),
        Err(outside("full", None))
    );
}

#[test]
fn replace_password_needs_the_old_one() {
    assert!(matches!(
        replace_password("new".to_string(), LocalUserId(3), true),
        Step::Call(
            ChangePasswordState::Update,
            Action::UpdatePassword { local_user_id: LocalUserId(3), password }
        ) if password == "new"
    ));
    assert_eq!(
        answer(replace_password("new".to_string(), LocalUserId(3), false)),
        Err(LemmyError::Message(Message::PasswordIncorrect))
    );
}

#[test]
fn password_reset_mails_the_owner() {
    let context = context();
    let request = PasswordReset { email: "ada@example.org".to_string() };
    let (state, action) = asked(request.perform(&context, None));
    assert!(matches!(action, Action::FindUserByEmail { email } if email == "ada@example.org"));
    let (state, action) = asked(state.resume(&context, Reply::User(Ok(user()))));
    assert!(matches!(action, Action::SendPasswordResetEmail { user: receiver } if receiver == user()));
    assert_eq!(answer(state.resume(&context, Reply::Checked(Ok(())))), Ok(PasswordResetResponse {}));
}

#[test]
fn password_reset_of_an_unknown_address() {
    let context = context();
    assert_eq!(
        answer(PasswordResetState::User.resume(&context, Reply::User(Err(database("none"))))),
        Err(outside("none", Some(Message::CouldntFindThatUsernameOrEmail)))
    );
    assert_eq!(
        answer(PasswordResetState::Mail.resume(&context, Reply::Checked(Err(refused("smtp"))))),
        Err(outside("smtp", None))
    );
}

fn password_change(password: &str, again: &str) -> PasswordChange {
    PasswordChange {
        token: "reset".to_string(),
        password: password.to_string(),
        password_verify: again.to_string(),
    }
}

#[test]
fn password_change_stores_the_password() {
    let context = context();
    let request = password_change("hunter2hunter2", "hunter2hunter2");
    let (state, action) = asked(request.perform(&context, None));
    assert!(matches!(action, Action::ReadResetRequest { token } if token == "reset"));
    let found = PasswordResetRequest { local_user_id: LocalUserId(9) };
    let (state, action) = asked(state.resume(&context, Reply::ResetRequest(Ok(found))));
    assert!(
        matches!(action, Action::CheckPasswordLength { password } if password == "hunter2hunter2")
    );
    let (state, action) = asked(state.resume(&context, Reply::Checked(Ok(()))));
    match action {
        Action::UpdatePassword { local_user_id, password } => {
            assert_eq!(local_user_id, LocalUserId(9));
            assert_eq!(password, "hunter2hunter2");
        }
        _ => panic!("the password is not stored"),
    }
    let (state, action) = asked(state.resume(&context, Reply::LocalUser(Ok(user().local_user))));
    assert_signs(action, 11);
    assert_eq!(answer(state.resume(&context, Reply::Jwt(Ok("signed".to_string())))), token());
}

#[test]
fn password_change_refuses() {
    let context = context();
    let found = PasswordResetRequest { local_user_id: LocalUserId(9) };

    let (state, _) = asked(password_change("one", "two").perform(&context, None));
    assert_eq!(
        answer(state.resume(&context, Reply::ResetRequest(Err(database("no token"))))),
        Err(outside("no token", None))
    );

    let (state, _) = asked(password_change("one", "two").perform(&context, None));
    let (state, _) = asked(state.resume(&context, Reply::ResetRequest(Ok(found))));
    assert_eq!(
        answer(state.resume(&context, Reply::Checked(Ok(())))),
        Err(LemmyError::Message(Message::PasswordsDontMatch))
    );

    let (state, _) = asked(password_change("one", "one").perform(&context, None));
    let (state, _) = asked(state.resume(&context, Reply::ResetRequest(Ok(found))));
    let (state, _) = asked(state.resume(&context, Reply::Checked(Ok(()))));
    assert_eq!(
        answer(state.resume(&context, Reply::LocalUser(Err(database("full"))))),
        Err(outside("full", Some(Message::CouldntUpdateUser)))
    );
}

#[test]
fn verify_email_stores_the_confirmed_address() {
    let context = context();
    let request = VerifyEmail { token: "mailed".to_string() };
    let (state, action) = asked(request.perform(&context, None));
    assert!(matches!(action, Action::ReadVerification { token } if token == "mailed"));

    let verification =
        EmailVerification { local_user_id: LocalUserId(9), email: "new@example.org".to_string() };
    let (state, action) = asked(state.resume(&context, Reply::Verification(Ok(verification))));
    match action {
        Action::UpdateLocalUser { local_user_id, form } => {
            assert_eq!(local_user_id, LocalUserId(9));
            assert_eq!(
                form,
                LocalUserForm {
                    email_verified: Some(true),
                    email: Some(Some("new@example.org".to_string())),
                    ..LocalUserForm::default()
                }
            );
        }
        _ => panic!("the address is not stored"),
    }

    let (state, action) = asked(state.resume(&context, Reply::LocalUser(Ok(user().local_user))));
    assert!(matches!(action, Action::ReadUser { local_user_id: LocalUserId(9) }));
    let (state, action) = asked(state.resume(&context, Reply::User(Ok(user()))));
    assert!(
        matches!(action, Action::SendEmailVerificationSuccess { user: told } if told == user())
    );
    let (state, action) = asked(state.resume(&context, Reply::Checked(Ok(()))));
    assert!(matches!(action, Action::DeleteVerifications { local_user_id: LocalUserId(9) }));
    let (state, action) = asked(state.resume(&context, Reply::Checked(Ok(()))));
    assert!(matches!(action, Action::ReadSiteSimple));
    let (state, action) = asked(state.resume(&context, Reply::Site(Ok(site(true)))));
    match action {
        Action::CheckRegistrationApplication { site: checked, user: applicant } => {
            assert_eq!(checked, site(true));
            assert_eq!(applicant, user());
        }
        _ => panic!("the application is not checked"),
    }
    let (state, action) = asked(state.resume(&context, Reply::Checked(Ok(()))));
    assert_signs(action, 11);
    assert_eq!(answer(state.resume(&context, Reply::Jwt(Ok("signed".to_string())))), token());
}

#[test]
fn verify_email_fails() {
    let context = context();
    assert_eq!(
        answer(
            VerifyEmailState::Verification
                .resume(&context, Reply::Verification(Err(database("none"))))
        ),
        Err(outside("none", Some(Message::TokenNotFound)))
    );
    assert_eq!(
        answer(
            VerifyEmailState::Verification
                .resume(&context, Reply::Verification(Err(refused("no connection"))))
        ),
        Err(outside("no connection", None))
    );
    let state = VerifyEmailState::Mail { local_user_id: LocalUserId(9), user: user() };
    assert_eq!(
        answer(state.resume(&context, Reply::Checked(Err(refused("smtp"))))),
        Err(outside("smtp", None))
    );
    let state = VerifyEmailState::Application { id: LocalUserId(9) };
    assert_eq!(
        answer(state.resume(&context, Reply::Checked(Err(refused("pending"))))),
        Err(outside("pending", None))
    );
}

#[test]
fn default_form_changes_nothing() {
    let form = LocalUserForm::default();
    assert_eq!(form.person_id, None);
    assert_eq!(form.email, None);
    assert_eq!(form.password_encrypted, None);
    assert_eq!(form.theme, None);
    assert_eq!(form.email_verified, None);
    assert_eq!(form.accepted_application, None);
}
