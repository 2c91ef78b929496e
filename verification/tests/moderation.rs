use local_user::add_admin::{creator_first, AddAdmin, AddAdminState};
use local_user::ban_person::{communities_led_by, Ban, BanPerson, BanPersonState, BanPersonStep};
use local_user::block_person::{BlockPerson, BlockPersonResponse, BlockPersonState};
use local_user::effect::{Action, Reply};
use local_user::error::{Fault, LemmyError, Message, OutsideError};
use local_user::machine::{Perform, Resume, Step};
use local_user::model::{
    AddAdminResponse, BanPersonResponse, CaptchaSettings, CommunityId, CommunityModeratorView,
    CommunitySafe, ConnectionId, Context, LocalUser, LocalUserId, LocalUserView, ModAddForm,
    ModBanForm, NaiveDateTime, Person, PersonBlockForm, PersonId, PersonSafe, PersonViewSafe,
    Secret, SendAllMessage, Settings, Site, UserOperation,
};

const HASH: &str = "hash";

fn context() -> Context {
    Context {
        settings: Settings {
            captcha: CaptchaSettings { enabled: true, difficulty: "easy".to_string() },
            actor_name_max_length: 20,
            hostname: "lemmy.example".to_string(),
        },
        secret: Secret { jwt_secret: "pepper".to_string() },
    }
}

fn user() -> LocalUserView {
    LocalUserView {
        local_user: LocalUser {
            id: LocalUserId(11),
            email: Some("ada@example.org".to_string()),
            password_encrypted: HASH.to_string(),
            email_verified: true,
            show_bot_accounts: false,
        },
        person: Person {
            id: PersonId(7),
            name: "ada".to_string(),
            admin: true,
            public_key: "key".to_string(),
        },
        rest: "columns".to_string(),
    }
}

fn refused(text: &str) -> Fault {
    Fault::Refused(OutsideError { text: text.to_string() })
}

fn database(text: &str) -> Fault {
    Fault::Database(OutsideError { text: text.to_string() })
}

fn outside(text: &str, message: Option<Message>) -> LemmyError {
    LemmyError::Outside(OutsideError { text: text.to_string() }, message)
}

fn asked<S, R>(step: Step<S, R>) -> (S, Action) {
    match step {
        Step::Call(state, action) => (state, action),
        Step::Return(_) => panic!("answered"),
        Step::Abort(_) => panic!("abandoned"),
    }
}

fn answer<S, R>(step: Step<S, R>) -> Result<R, LemmyError> {
    match step {
        Step::Return(outcome) => outcome,
        Step::Call(_, _) => panic!("still waiting"),
        Step::Abort(_) => panic!("abandoned"),
    }
}

fn person_view(id: i32, rest: &str) -> PersonViewSafe {
    PersonViewSafe { person: PersonSafe { id: PersonId(id) }, rest: rest.to_string() }
}

fn connection() -> Option<ConnectionId> {
    Some(ConnectionId(5))
}

fn ids(persons: &[PersonViewSafe]) -> Vec<i32> {
    persons.iter().map(|view| view.person.id.0).collect()
}

fn views(ids: &[i32]) -> Vec<PersonViewSafe> {
    ids.iter().map(|id| person_view(*id, "row")).collect()
}

#[test]
fn creator_comes_first() {
    assert_eq!(ids(&creator_first(views(&[4, 2, 9, 1]), PersonId(9)).unwrap()), [9, 4, 2, 1]);
    assert_eq!(ids(&creator_first(views(&[9, 4]), PersonId(9)).unwrap()), [9, 4]);
    assert_eq!(ids(&creator_first(views(&[9]), PersonId(9)).unwrap()), [9]);
    assert_eq!(creator_first(views(&[4, 2]), PersonId(9)), None);
    assert_eq!(creator_first(Vec::new(), PersonId(9)), None);
}

#[test]
fn first_entry_of_the_creator_counts() {
    let admins = vec![person_view(4, "a"), person_view(9, "b"), person_view(9, "c")];
    let ordered = creator_first(admins, PersonId(9)).unwrap();
    let rows: Vec<&str> = ordered.iter().map(|view| view.rest.as_str()).collect();
    assert_eq!(rows, ["b", "a", "c"]);
}

fn add_admin(added: bool) -> (AddAdminState, Action) {
    let request = AddAdmin { person_id: PersonId(3), added, auth: "jwt".to_string() };
    let (state, action) = asked(request.perform(&context(), connection()));
    assert!(matches!(action, Action::UserFromJwt { jwt } if jwt == "jwt"));
    let (state, action) = asked(state.resume(&context(), Reply::User(Ok(user()))));
    assert!(matches!(action, Action::CheckAdmin { user: asking } if asking == user()));
    asked(state.resume(&context(), Reply::Checked(Ok(()))))
}

#[test]
fn admin_is_added_logged_and_announced() {
    for added in [true, false] {
        let context = context();
        let (state, action) = add_admin(added);
        assert!(
            matches!(action, Action::SetAdmin { person_id: PersonId(3), added: way } if way == added)
        );
        let mut changed = user().person;
        changed.id = PersonId(33);
        let (state, action) = asked(state.resume(&context, Reply::Person(Ok(changed))));
        match action {
            Action::CreateModAdd { form } => assert_eq!(
                form,
                ModAddForm {
                    mod_person_id: PersonId(7),
                    other_person_id: PersonId(33),
                    removed: Some(!added),
                }
            ),
            _ => panic!("nothing is logged"),
        }
        let (state, action) = asked(state.resume(&context, Reply::Checked(Ok(()))));
        assert!(matches!(action, Action::ReadSite { site_id: 1 }));
        let site = Site {
            creator_id: PersonId(9),
            require_email_verification: false,
            rest: String::new(),
        };
        let (state, action) = asked(state.resume(&context, Reply::Site(Ok(site))));
        assert!(matches!(action, Action::ListAdmins));
        let (state, action) =
            asked(state.resume(&context, Reply::Admins(Ok(views(&[4, 9, 2])))));
        match action {
            Action::AnnounceAdmins { message } => assert_eq!(
                message,
                SendAllMessage {
                    op: UserOperation::AddAdmin,
                    response: AddAdminResponse { admins: views(&[9, 4, 2]) },
                    websocket_id: connection(),
                }
            ),
            _ => panic!("nothing is announced"),
        }
        assert_eq!(
            answer(state.resume(&context, Reply::Sent)),
            Ok(AddAdminResponse { admins: views(&[9, 4, 2]) })
        );
    }
}

#[test]
fn adding_an_admin_fails() {
    let context = context();
    let request = AddAdmin { person_id: PersonId(3), added: true, auth: "jwt".to_string() };
    let (state, _) = asked(request.perform(&context, None));
    let (state, _) = asked(state.resume(&context, Reply::User(Ok(user()))));
    assert_eq!(
        answer(state.resume(&context, Reply::Checked(Err(refused("not_an_admin"))))),
        Err(outside("not_an_admin", None))
    );

    let (state, _) = add_admin(true);
    assert_eq!(
        answer(state.resume(&context, Reply::Person(Err(database("full"))))),
        Err(outside("full", Some(Message::CouldntUpdateUser)))
    );

    let state = AddAdminState::Admins { creator_id: PersonId(9), websocket_id: None };
    assert_eq!(
        answer(state.resume(&context, Reply::Admins(Ok(views(&[4, 2]))))),
        Err(LemmyError::CreatorNotAmongAdmins)
    );
}

fn leads(community: i32, moderator: i32) -> CommunityModeratorView {
    CommunityModeratorView {
        community: CommunitySafe { id: CommunityId(community) },
        moderator: PersonSafe { id: PersonId(moderator) },
    }
}

#[test]
fn communities_of_one_leader() {
    let moderators = vec![leads(1, 3), leads(2, 8), leads(5, 3), leads(4, 3)];
    assert_eq!(
        communities_led_by(&moderators, PersonId(3)),
        [CommunityId(1), CommunityId(5), CommunityId(4)]
    );
    assert_eq!(communities_led_by(&moderators, PersonId(8)), [CommunityId(2)]);
    assert_eq!(communities_led_by(&moderators, PersonId(9)), []);
    assert_eq!(communities_led_by(&Vec::new(), PersonId(3)), []);
}

fn ban_request(ban: bool, remove_data: Option<bool>, expires: Option<i64>) -> BanPerson {
    BanPerson {
        person_id: PersonId(3),
        ban,
        remove_data,
        reason: Some("spam".to_string()),
        expires,
        auth: "jwt".to_string(),
    }
}

/// Answers all work up to the ban itself.
fn banned(request: BanPerson) -> BanPersonStep {
    let context = context();
    let ban = request.ban;
    let (state, action) = asked(request.perform(&context, connection()));
    assert!(matches!(action, Action::UserFromJwt { jwt } if jwt == "jwt"));
    let (state, action) = asked(state.resume(&context, Reply::User(Ok(user()))));
    assert!(matches!(action, Action::CheckAdmin { user: asking } if asking == user()));
    let (state, action) = asked(state.resume(&context, Reply::Checked(Ok(()))));
    assert!(
        matches!(action, Action::SetBanned { person_id: PersonId(3), banned } if banned == ban)
    );
    state.resume(&context, Reply::Checked(Ok(())))
}

/// Answers the work that is left once the ban is logged.
fn announced(state: BanPersonState, ban: bool) {
    let context = context();
    let (state, action) = asked(state.resume(&context, Reply::Checked(Ok(()))));
    assert!(matches!(action, Action::ReadPersonView { person_id: PersonId(3) }));
    let read = Reply::PersonView(Ok(person_view(3, "banned")));
    let (state, action) = asked(state.resume(&context, read));
    match action {
        Action::AnnounceBan { message } => assert_eq!(
            message,
            SendAllMessage {
                op: UserOperation::BanPerson,
                response: BanPersonResponse { person_view: person_view(3, "banned"), banned: ban },
                websocket_id: connection(),
            }
        ),
        _ => panic!("nothing is announced"),
    }
    assert_eq!(
        answer(state.resume(&context, Reply::Sent)),
        Ok(BanPersonResponse { person_view: person_view(3, "banned"), banned: ban })
    );
}

fn assert_logs(action: Action, ban: bool, expires: Option<NaiveDateTime>) {
    match action {
        Action::CreateModBan { form } => assert_eq!(
            form,
            ModBanForm {
                mod_person_id: PersonId(7),
                other_person_id: PersonId(3),
                reason: Some("spam".to_string()),
                banned: Some(ban),
                expires,
            }
        ),
        _ => panic!("nothing is logged"),
    }
}

#[test]
fn ban_that_leaves_the_data() {
    for remove_data in [None, Some(false)] {
        for ban in [true, false] {
            let (state, action) = asked(banned(ban_request(ban, remove_data, None)));
            assert_logs(action, ban, None);
            announced(state, ban);
        }
    }
}

#[test]
fn ban_with_an_end() {
    let (state, action) = asked(banned(ban_request(true, None, Some(1_700_000_000))));
    assert!(matches!(action, Action::FromUnix { seconds: 1_700_000_000 }));
    let end = NaiveDateTime { secs: 1_700_000_000, nanos: 0 };
    let (state, action) = asked(state.resume(&context(), Reply::Time(end)));
    assert_logs(action, true, Some(end));
    announced(state, true);
}

#[test]
fn ban_that_removes_the_data() {
    let context = context();
    let (state, action) = asked(banned(ban_request(true, Some(true), None)));
    assert!(matches!(
        action,
        Action::SetPostsRemoved { creator_id: PersonId(3), community_id: None, removed: true }
    ));
    let (state, action) = asked(state.resume(&context, Reply::Checked(Ok(()))));
    assert!(matches!(action, Action::ListFirstModerators));
    let moderators = vec![leads(1, 3), leads(2, 8), leads(5, 3)];
    let (state, action) =
        asked(state.resume(&context, Reply::FirstModerators(Ok(moderators))));
    assert!(matches!(
        action,
        Action::SetCommunityRemoved { community_id: CommunityId(1), removed: true }
    ));
    let (state, action) = asked(state.resume(&context, Reply::Checked(Ok(()))));
    assert!(matches!(
        action,
        Action::SetCommunityRemoved { community_id: CommunityId(5), removed: true }
    ));
    let (state, action) = asked(state.resume(&context, Reply::Checked(Ok(()))));
    assert!(matches!(
        action,
        Action::SetCommentsRemoved { creator_id: PersonId(3), removed: true }
    ));
    let (state, action) = asked(state.resume(&context, Reply::Checked(Ok(()))));
    assert_logs(action, true, None);
    announced(state, true);
}

#[test]
fn ban_of_a_person_who_leads_nothing() {
    let context = context();
    let (state, _) = asked(banned(ban_request(true, Some(true), None)));
    let (state, _) = asked(state.resume(&context, Reply::Checked(Ok(()))));
    let (_, action) =
        asked(state.resume(&context, Reply::FirstModerators(Ok(vec![leads(2, 8)]))));
    assert!(matches!(
        action,
        Action::SetCommentsRemoved { creator_id: PersonId(3), removed: true }
    ));
}

#[test]
fn ban_fails() {
    let context = context();
    let (state, _) = asked(ban_request(true, None, None).perform(&context, None));
    let (state, _) = asked(state.resume(&context, Reply::User(Ok(user()))));
    assert_eq!(
        answer(state.resume(&context, Reply::Checked(Err(refused("not_an_admin"))))),
        Err(outside("not_an_admin", None))
    );

    let ban = Ban {
        data: ban_request(true, None, None),
        mod_person_id: PersonId(7),
        websocket_id: None,
    };
    assert_eq!(
        answer(BanPersonState::Banned(ban).resume(&context, Reply::Checked(Err(database("full"))))),
        Err(outside("full", Some(Message::CouldntUpdateUser)))
    );

    let (state, _) = asked(banned(ban_request(true, Some(true), None)));
    assert_eq!(
        answer(state.resume(&context, Reply::Checked(Err(database("full"))))),
        Err(outside("full", None))
    );
}

fn block_request(person_id: i32, block: bool) -> BlockPerson {
    BlockPerson { person_id: PersonId(person_id), block, auth: "jwt".to_string() }
}

#[test]
fn block_is_made_and_lifted() {
    for block in [true, false] {
        let context = context();
        let (state, action) = asked(block_request(3, block).perform(&context, None));
        assert!(matches!(action, Action::UserFromJwt { jwt } if jwt == "jwt"));
        let (state, action) = asked(state.resume(&context, Reply::User(Ok(user()))));
        let expected = PersonBlockForm { person_id: PersonId(7), target_id: PersonId(3) };
        match action {
            Action::Block { form } => {
                assert!(block);
                assert_eq!(form, expected);
            }
            Action::Unblock { form } => {
                assert!(!block);
                assert_eq!(form, expected);
            }
            _ => panic!("no block is changed"),
        }
        let (state, action) = asked(state.resume(&context, Reply::Checked(Ok(()))));
        assert!(matches!(action, Action::ReadPersonView { person_id: PersonId(3) }));
        assert_eq!(
            answer(state.resume(&context, Reply::PersonView(Ok(person_view(3, "row"))))),
            Ok(BlockPersonResponse { person_view: person_view(3, "row"), blocked: block })
        );
    }
}

#[test]
fn persons_cannot_block_themselves() {
    for block in [true, false] {
        let (state, _) = asked(block_request(7, block).perform(&context(), None));
        assert_eq!(
            answer(state.resume(&context(), Reply::User(Ok(user())))),
            Err(LemmyError::Message(Message::CantBlockYourself))
        );
    }
}

#[test]
fn block_fails() {
    let context = context();
    let state = BlockPersonState::Change { target_id: PersonId(3), block: true };
    assert_eq!(
        answer(state.resume(&context, Reply::Checked(Err(database("duplicate"))))),
        Err(outside("duplicate", Some(Message::PersonBlockAlreadyExists)))
    );
    let state = BlockPersonState::Change { target_id: PersonId(3), block: false };
    assert_eq!(
        answer(state.resume(&context, Reply::Checked(Err(refused("no connection"))))),
        Err(outside("no connection", None))
    );
    let state = BlockPersonState::PersonView { block: true };
    assert_eq!(
        answer(state.resume(&context, Reply::PersonView(Err(database("gone"))))),
        Err(outside("gone", None))
    );
}
