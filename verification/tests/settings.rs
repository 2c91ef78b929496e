use local_user::clock::{EARLIEST, LATEST};
use local_user::effect::{Action, Reply};
use local_user::error::{Fault, LemmyError, Message, OutsideError};
use local_user::machine::{Perform, Resume, Step};
use local_user::model::{
    CaptchaSettings, Context, LocalUser, LocalUserForm, LocalUserId, LocalUserView, NaiveDateTime,
    Person, PersonForm, PersonId, Secret, Settings, Site,
};
use local_user::save_user_settings::{
    local_user_failure, Draft, SaveUserSettings, SaveUserSettingsState, SaveUserSettingsStep,
};
use local_user::session::LoginResponse;

const HASH: &str = "hash";

fn context() -> Context {
    Context {
        settings: Settings {
            captcha: CaptchaSettings { enabled: true, difficulty: "easy".to_string() },
            actor_name_max_length: 20,
            hostname: "lemmy.example".to_string(),
        },
        secret: Secret { jwt_secret: "pepper".to_string() },
    }
}

fn user() -> LocalUserView {
    LocalUserView {
        local_user: LocalUser {
            id: LocalUserId(11),
            email: Some("ada@example.org".to_string()),
            password_encrypted: HASH.to_string(),
            email_verified: true,
            show_bot_accounts: false,
        },
        person: Person {
            id: PersonId(7),
            name: "ada".to_string(),
            admin: true,
            public_key: "key".to_string(),
        },
        rest: "columns".to_string(),
    }
}

fn refused(text: &str) -> Fault {
    Fault::Refused(OutsideError { text: text.to_string() })
}

fn database(text: &str) -> Fault {
    Fault::Database(OutsideError { text: text.to_string() })
}

fn outside(text: &str, message: Option<Message>) -> LemmyError {
    LemmyError::Outside(OutsideError { text: text.to_string() }, message)
}

fn asked<S, R>(step: Step<S, R>) -> (S, Action) {
    match step {
        Step::Call(state, action) => (state, action),
        Step::Return(_) => panic!("answered"),
        Step::Abort(_) => panic!("abandoned"),
    }
}

fn answer<S, R>(step: Step<S, R>) -> Result<R, LemmyError> {
    match step {
        Step::Return(outcome) => outcome,
        Step::Call(_, _) => panic!("still waiting"),
        Step::Abort(_) => panic!("abandoned"),
    }
}

fn site_that_verifies(require_email_verification: bool) -> Reply {
    Reply::Site(Ok(Site {
        creator_id: PersonId(1),
        require_email_verification,
        rest: "site".to_string(),
    }))
}

fn nothing() -> SaveUserSettings {
    SaveUserSettings {
        show_nsfw: None,
        theme: None,
        default_sort_type: None,
        default_listing_type: None,
        lang: None,
        avatar: None,
        banner: None,
        display_name: None,
        email: None,
        bio: None,
        matrix_user_id: None,
        show_avatars: None,
        send_notifications_to_email: None,
        bot_account: None,
        show_bot_accounts: None,
        show_read_posts: None,
        show_new_post_notifs: None,
        show_scores: None,
        auth: "jwt".to_string(),
    }
}

/// What an optional text means for its column, in the simplest reading.
fn overwritten(value: &Option<String>) -> Option<Option<String>> {
    match value {
        None => None,
        Some(text) if text.is_empty() => Some(None),
        Some(text) => Some(Some(text.clone())),
    }
}

/// Answers all work up to the columns that are looked at first.
fn columns(data: SaveUserSettings) -> SaveUserSettingsStep {
    let context = context();
    let (state, action) = asked(data.perform(&context, None));
    assert!(matches!(action, Action::UserFromJwt { jwt } if jwt == "jwt"));
    let mut step = state.resume(&context, Reply::User(Ok(user())));
    for _ in 0..2 {
        let (state, action) = asked(step);
        step = match action {
            Action::OverwriteToUrl { value } => {
                state.resume(&context, Reply::Url(Ok(overwritten(&value))))
            }
            _ => panic!("no address is read"),
        };
    }
    for _ in 0..3 {
        let (state, action) = asked(step);
        step = match action {
            Action::Overwrite { value } => state.resume(&context, Reply::Text(overwritten(&value))),
            _ => panic!("no text is read"),
        };
    }
    step
}

#[test]
fn settings_are_written_as_requested() {
    let context = context();
    let data = SaveUserSettings {
        show_nsfw: Some(true),
        theme: Some("dark".to_string()),
        default_sort_type: Some(2),
        default_listing_type: Some(1),
        lang: Some("de".to_string()),
        avatar: Some("https://example.org/a.png".to_string()),
        banner: Some(String::new()),
        display_name: Some("Ada".to_string()),
        email: Some("new@example.org".to_string()),
        bio: Some("mathematician".to_string()),
        matrix_user_id: Some("@ada:example.org".to_string()),
        show_avatars: Some(false),
        send_notifications_to_email: Some(true),
        bot_account: Some(false),
        show_bot_accounts: Some(true),
        show_read_posts: Some(false),
        show_new_post_notifs: Some(true),
        show_scores: Some(false),
        auth: "jwt".to_string(),
    };
    let (state, action) = asked(columns(data));
    assert!(matches!(action, Action::ReadSiteSimple));
    let (state, action) = asked(state.resume(&context, site_that_verifies(false)));
    let email = match action {
        Action::Overwrite { value } => overwritten(&value),
        _ => panic!("the address is not read"),
    };
    assert_eq!(email, Some(Some("new@example.org".to_string())));
    let (state, action) = asked(state.resume(&context, Reply::Text(email)));
    assert!(
        matches!(action, Action::CheckDisplayName { name, max_length: 20 } if name == "Ada")
    );
    let (state, action) = asked(state.resume(&context, Reply::Valid(true)));
    assert!(
        matches!(action, Action::CheckMatrixId { matrix_user_id } if matrix_user_id == "@ada:example.org")
    );
    let (state, action) = asked(state.resume(&context, Reply::Valid(true)));
    assert!(matches!(action, Action::Now));
    let now = NaiveDateTime { secs: 1_640_995_200, nanos: 5 };
    let (state, action) = asked(state.resume(&context, Reply::Time(now)));
    match action {
        Action::UpdatePerson { person_id, form } => {
            assert_eq!(person_id, PersonId(7));
            assert_eq!(
                form,
                PersonForm {
                    name: "ada".to_string(),
                    avatar: Some(Some("https://example.org/a.png".to_string())),
                    banner: Some(None),
                    inbox_url: None,
                    display_name: Some(Some("Ada".to_string())),
                    published: None,
                    updated: Some(now),
                    banned: None,
                    deleted: None,
                    actor_id: None,
                    bio: Some(Some("mathematician".to_string())),
                    local: None,
                    admin: None,
                    private_key: None,
                    public_key: "key".to_string(),
                    last_refreshed_at: None,
                    shared_inbox_url: None,
                    matrix_user_id: Some(Some("@ada:example.org".to_string())),
                    bot_account: Some(false),
                }
            );
        }
        _ => panic!("the person is not written"),
    }
    let (state, action) = asked(state.resume(&context, Reply::Checked(Ok(()))));
    match action {
        Action::UpdateLocalUser { local_user_id, form } => {
            assert_eq!(local_user_id, LocalUserId(11));
            assert_eq!(
                form,
                LocalUserForm {
                    person_id: Some(PersonId(7)),
                    email: Some(Some("new@example.org".to_string())),
                    password_encrypted: Some(HASH.to_string()),
                    show_nsfw: Some(true),
                    show_bot_accounts: Some(true),
                    show_scores: Some(false),
                    theme: Some("dark".to_string()),
                    default_sort_type: Some(2),
                    default_listing_type: Some(1),
                    lang: Some("de".to_string()),
                    show_avatars: Some(false),
                    show_read_posts: Some(false),
                    show_new_post_notifs: Some(true),
                    send_notifications_to_email: Some(true),
                    email_verified: None,
                    accepted_application: None,
                }
            );
        }
        _ => panic!("the local user is not written"),
    }
    let mut updated = user().local_user;
    updated.id = LocalUserId(12);
    let (state, action) = asked(state.resume(&context, Reply::LocalUser(Ok(updated))));
    match action {
        Action::IssueJwt { local_user_id, jwt_secret, hostname } => {
            assert_eq!(local_user_id, 12);
            assert_eq!(jwt_secret, "pepper");
            assert_eq!(hostname, "lemmy.example");
        }
        _ => panic!("no token is signed"),
    }
    assert_eq!(
        answer(state.resume(&context, Reply::Jwt(Ok("signed".to_string())))),
        Ok(LoginResponse {
            jwt: Some("signed".to_string()),
            verify_email_sent: false,
            registration_created: false,
        })
    );
}

#[test]
fn empty_request_goes_straight_to_the_clock() {
    let (state, action) = asked(columns(nothing()));
    assert!(matches!(action, Action::Now));
    let now = NaiveDateTime { secs: 0, nanos: 0 };
    let (_, action) = asked(state.resume(&context(), Reply::Time(now)));
    match action {
        Action::UpdatePerson { form, .. } => {
            assert_eq!(form.updated, Some(now));
            assert_eq!(form.bio, None);
            assert_eq!(form.display_name, None);
        }
        _ => panic!("the person is not written"),
    }
}

fn with_email(email: &str) -> SaveUserSettings {
    SaveUserSettings { email: Some(email.to_string()), ..nothing() }
}

#[test]
fn another_address_is_confirmed_by_mail() {
    let context = context();
    let (state, _) = asked(columns(with_email("new@example.org")));
    let (state, action) = asked(state.resume(&context, site_that_verifies(true)));
    match action {
        Action::SendVerificationEmail { local_user_id, email, username } => {
            assert_eq!(local_user_id, LocalUserId(11));
            assert_eq!(email, "new@example.org");
            assert_eq!(username, "ada");
        }
        _ => panic!("no mail is sent"),
    }
    let (state, action) = asked(state.resume(&context, Reply::Checked(Ok(()))));
    assert!(matches!(action, Action::Now));
    let now = NaiveDateTime { secs: 0, nanos: 0 };
    let (state, _) = asked(state.resume(&context, Reply::Time(now)));
    let (_, action) = asked(state.resume(&context, Reply::Checked(Ok(()))));
    assert!(matches!(action, Action::UpdateLocalUser { form, .. } if form.email.is_none()));
}

#[test]
fn mail_that_cannot_be_sent_ends_the_request() {
    let context = context();
    let (state, _) = asked(columns(with_email("new@example.org")));
    let (state, _) = asked(state.resume(&context, site_that_verifies(true)));
    assert_eq!(
        answer(state.resume(&context, Reply::Checked(Err(refused("smtp"))))),
        Err(outside("smtp", None))
    );
}

#[test]
fn same_address_is_not_confirmed_again() {
    let context = context();
    let (state, _) = asked(columns(with_email("ada@example.org")));
    let (_, action) = asked(state.resume(&context, site_that_verifies(true)));
    assert!(matches!(action, Action::Now));
}

#[test]
fn first_address_is_not_confirmed_here() {
    let context = context();
    let mut without = user();
    without.local_user.email = None;
    let draft = Draft {
        data: with_email("new@example.org"),
        user: without,
        avatar: None,
        banner: None,
        bio: None,
        display_name: None,
        matrix_user_id: None,
        email: None,
    };
    let state = SaveUserSettingsState::Site(draft);
    let (_, action) = asked(state.resume(&context, site_that_verifies(true)));
    assert!(matches!(action, Action::Now));
}

fn with_bio(bio: String) -> SaveUserSettings {
    SaveUserSettings { bio: Some(bio), ..nothing() }
}

#[test]
fn biography_of_three_hundred_characters() {
    let (_, action) = asked(columns(with_bio("b".repeat(300))));
    assert!(matches!(action, Action::Now));
    let (_, action) = asked(columns(with_bio("\u{1f600}".repeat(300))));
    assert!(matches!(action, Action::Now));
    let (_, action) = asked(columns(with_bio(String::new())));
    assert!(matches!(action, Action::Now));
}

#[test]
fn longer_biography_is_refused() {
    assert_eq!(
        answer(columns(with_bio("b".repeat(301)))),
        Err(LemmyError::Message(Message::BioLengthOverflow))
    );
    assert_eq!(
        answer(columns(with_bio("\u{e9}".repeat(301)))),
        Err(LemmyError::Message(Message::BioLengthOverflow))
    );
}

#[test]
fn long_biography_is_refused_after_the_mail() {
    let context = context();
    let data = SaveUserSettings { bio: Some("b".repeat(301)), ..with_email("new@example.org") };
    let (state, _) = asked(columns(data));
    let (state, action) = asked(state.resume(&context, site_that_verifies(true)));
    assert!(matches!(action, Action::SendVerificationEmail { .. }));
    assert_eq!(
        answer(state.resume(&context, Reply::Checked(Ok(())))),
        Err(LemmyError::Message(Message::BioLengthOverflow))
    );
}

fn checked_name(display_name: &str) -> String {
    let data = SaveUserSettings { display_name: Some(display_name.to_string()), ..nothing() };
    match asked(columns(data)).1 {
        Action::CheckDisplayName { name, .. } => name,
        _ => panic!("the display name is not checked"),
    }
}

#[test]
fn display_name_is_checked_without_white_space_around_it() {
    assert_eq!(checked_name("Ada Lovelace"), "Ada Lovelace");
    assert_eq!(checked_name("  Ada Lovelace\n"), "Ada Lovelace");
    assert_eq!(checked_name(" \t "), "");
    let spaces = "\u{9}\u{a}\u{b}\u{c}\u{d} \u{85}\u{a0}\u{1680}\u{2000}\u{2001}\u{2002}\u{2003}\
                  \u{2004}\u{2005}\u{2006}\u{2007}\u{2008}\u{2009}\u{200a}\u{2028}\u{2029}\u{202f}\
                  \u{205f}\u{3000}";
    assert_eq!(checked_name(&format!("{}Ada{}", spaces, spaces)), "Ada");
    for kept in ["\u{8}", "\u{e}", "\u{200b}", "\u{180e}", "\u{2060}", "\u{feff}"] {
        let name = format!("{}Ada{}", kept, kept);
        assert_eq!(checked_name(&name), name);
    }
}

#[test]
fn display_name_is_stored_as_it_came() {
    let context = context();
    let data = SaveUserSettings { display_name: Some(" Ada ".to_string()), ..nothing() };
    let (state, _) = asked(columns(data));
    let (state, _) = asked(state.resume(&context, Reply::Valid(true)));
    let now = NaiveDateTime { secs: 0, nanos: 0 };
    let (_, action) = asked(state.resume(&context, Reply::Time(now)));
    assert!(
        matches!(action, Action::UpdatePerson { form, .. } if form.display_name == Some(Some(" Ada ".to_string())))
    );
}

#[test]
fn invalid_names_are_refused() {
    let context = context();
    let data = SaveUserSettings { display_name: Some("@@".to_string()), ..nothing() };
    let (state, _) = asked(columns(data));
    assert_eq!(
        answer(state.resume(&context, Reply::Valid(false))),
        Err(LemmyError::Message(Message::InvalidUsername))
    );
    let data = SaveUserSettings { matrix_user_id: Some("ada".to_string()), ..nothing() };
    let (state, _) = asked(columns(data));
    assert_eq!(
        answer(state.resume(&context, Reply::Valid(false))),
        Err(LemmyError::Message(Message::InvalidMatrixId))
    );
}

#[test]
fn faults_while_saving() {
    let context = context();
    let state = SaveUserSettingsState::User(nothing());
    assert_eq!(
        answer(state.resume(&context, Reply::User(Err(refused("not_logged_in"))))),
        Err(outside("not_logged_in", None))
    );
    let (state, _) = asked(nothing().perform(&context, None));
    let (state, _) = asked(state.resume(&context, Reply::User(Ok(user()))));
    assert_eq!(
        answer(state.resume(&context, Reply::Url(Err(refused("invalid_url"))))),
        Err(outside("invalid_url", None))
    );
    let state = SaveUserSettingsState::Person {
        local_user_id: LocalUserId(11),
        form: LocalUserForm::default(),
    };
    assert_eq!(
        answer(state.resume(&context, Reply::Checked(Err(database("duplicate"))))),
        Err(outside("duplicate", Some(Message::UserAlreadyExists)))
    );
}

#[test]
fn taken_address_has_a_message_of_its_own() {
    let taken = "duplicate key value violates unique constraint \"local_user_email_key\"";
    assert_eq!(
        local_user_failure(database(taken)),
        outside(taken, Some(Message::EmailAlreadyExists))
    );
    assert_eq!(
        local_user_failure(database("something else")),
        outside("something else", Some(Message::UserAlreadyExists))
    );
    assert_eq!(local_user_failure(refused(taken)), outside(taken, None));
    assert_eq!(
        answer(
            SaveUserSettingsState::LocalUser
                .resume(&context(), Reply::LocalUser(Err(database(taken))))
        ),
        Err(outside(taken, Some(Message::EmailAlreadyExists)))
    );
}

fn time(secs: i64, nanos: u32) -> NaiveDateTime {
    NaiveDateTime { secs, nanos }
}

#[test]
fn minutes_are_added() {
    assert_eq!(time(0, 0).plus_minutes(10), Some(time(600, 0)));
    assert_eq!(time(-1, 999_999_999).plus_minutes(1), Some(time(59, 999_999_999)));
    assert_eq!(time(1_640_995_200, 7).plus_minutes(1440), Some(time(1_641_081_600, 7)));
}

#[test]
fn minutes_after_a_leap_second() {
    assert_eq!(time(59, 1_500_000_000).plus_minutes(10), Some(time(659, 500_000_000)));
    assert_eq!(time(-1, 1_000_000_000).plus_minutes(10), Some(time(599, 0)));
    assert_eq!(time(58, 1_500_000_000).plus_minutes(10), None);
    assert_eq!(time(59, 2_000_000_000).plus_minutes(10), None);
}

#[test]
fn minutes_at_the_ends_of_time() {
    assert_eq!(time(EARLIEST, 0).plus_minutes(10), Some(time(EARLIEST + 600, 0)));
    assert_eq!(time(EARLIEST - 1, 0).plus_minutes(10), None);
    assert_eq!(time(LATEST - 600, 0).plus_minutes(10), Some(time(LATEST, 0)));
    assert_eq!(time(LATEST - 599, 0).plus_minutes(10), None);
    assert_eq!(
        time(LATEST - 600, 1_999_999_999).plus_minutes(10),
        Some(time(LATEST, 999_999_999))
    );
    assert_eq!(time(LATEST, 0).plus_minutes(10), None);
    assert_eq!(time(LATEST + 1, 0).plus_minutes(10), None);
    assert_eq!(time(i64::MAX, 0).plus_minutes(10), None);
    assert_eq!(time(0, 0).plus_minutes(153_722_867_280_912), None);
}
