use local_user::counts::{
    GetReportCount, GetReportCountResponse, GetReportCountState, GetUnreadCount,
    GetUnreadCountResponse, GetUnreadCountState,
};
use local_user::effect::{Action, Reply};
use local_user::error::{Fault, LemmyError, Message, OutsideError};
use local_user::machine::{Perform, Resume, Step};
use local_user::mark_all_as_read::{MarkAllAsRead, MarkAllAsReadState};
use local_user::mentions::{
    GetPersonMentions, GetPersonMentionsResponse, MarkPersonMentionAsRead,
    MarkPersonMentionAsReadState, PersonMentionResponse,
};
use local_user::model::{
    CaptchaSettings, Comment, CommentId, CommentQuery, CommentView, CommunityId, Context,
    LocalUser, LocalUserId, LocalUserView, Person, PersonId, PersonMention, PersonMentionId,
    PersonMentionQuery, PersonMentionView, Secret, Settings, SortType,
};
use local_user::replies::{GetReplies, GetRepliesResponse, GetRepliesState};

const HASH: &str = "hash";

fn context() -> Context {
    Context {
        settings: Settings {
            captcha: CaptchaSettings { enabled: true, difficulty: "easy".to_string() },
            actor_name_max_length: 20,
            hostname: "lemmy.example".to_string(),
        },
        secret: Secret { jwt_secret: "pepper".to_string() },
    }
}

fn user() -> LocalUserView {
    LocalUserView {
        local_user: LocalUser {
            id: LocalUserId(11),
            email: Some("ada@example.org".to_string()),
            password_encrypted: HASH.to_string(),
            email_verified: true,
            show_bot_accounts: false,
        },
        person: Person {
            id: PersonId(7),
            name: "ada".to_string(),
            admin: true,
            public_key: "key".to_string(),
        },
        rest: "columns".to_string(),
    }
}

fn refused(text: &str) -> Fault {
    Fault::Refused(OutsideError { text: text.to_string() })
}

fn database(text: &str) -> Fault {
    Fault::Database(OutsideError { text: text.to_string() })
}

fn outside(text: &str, message: Option<Message>) -> LemmyError {
    LemmyError::Outside(OutsideError { text: text.to_string() }, message)
}

fn asked<S, R>(step: Step<S, R>) -> (S, Action) {
    match step {
        Step::Call(state, action) => (state, action),
        Step::Return(_) => panic!("answered"),
        Step::Abort(_) => panic!("abandoned"),
    }
}

fn answer<S, R>(step: Step<S, R>) -> Result<R, LemmyError> {
    match step {
        Step::Return(outcome) => outcome,
        Step::Call(_, _) => panic!("still waiting"),
        Step::Abort(_) => panic!("abandoned"),
    }
}

fn comment(id: i32) -> CommentView {
    CommentView { comment: Comment { id: CommentId(id) }, rest: format!("comment {}", id) }
}

fn mention(id: i32, recipient: i32) -> PersonMention {
    PersonMention { id: PersonMentionId(id), recipient_id: PersonId(recipient) }
}

fn mention_view(id: i32) -> PersonMentionView {
    PersonMentionView { person_mention: mention(id, 7), rest: format!("mention {}", id) }
}

#[test]
fn replies_are_those_to_who_asks() {
    let context = context();
    let request = GetReplies {
        sort: Some("New".to_string()),
        page: Some(2),
        limit: Some(40),
        unread_only: Some(true),
        auth: "jwt".to_string(),
    };
    let (state, action) = asked(request.perform(&context, None));
    assert!(matches!(action, Action::UserFromJwt { jwt } if jwt == "jwt"));
    let (state, action) = asked(state.resume(&context, Reply::User(Ok(user()))));
    assert!(matches!(action, Action::ParseSort { sort } if sort == Some("New".to_string())));
    let sort = Some(SortType("New".to_string()));
    let (state, action) = asked(state.resume(&context, Reply::Sort(sort)));
    match action {
        Action::ListComments { query } => assert_eq!(
            query,
            CommentQuery {
                sort: Some(SortType("New".to_string())),
                unread_only: Some(true),
                recipient_id: Some(PersonId(7)),
                show_bot_accounts: Some(false),
                my_person_id: Some(PersonId(7)),
                page: Some(2),
                limit: Some(40),
            }
        ),
        _ => panic!("nothing is listed"),
    }
    let listed = vec![comment(1), comment(2)];
    assert_eq!(
        answer(state.resume(&context, Reply::Comments(Ok(listed)))),
        Ok(GetRepliesResponse { replies: vec![comment(1), comment(2)] })
    );
}

#[test]
fn replies_cannot_be_read() {
    let context = context();
    assert_eq!(
        answer(GetRepliesState::Replies.resume(&context, Reply::Comments(Err(database("gone"))))),
        Err(outside("gone", None))
    );
}

#[test]
fn mentions_are_those_of_who_asks() {
    let context = context();
    let request = GetPersonMentions {
        sort: None,
        page: None,
        limit: Some(5),
        unread_only: Some(false),
        auth: "jwt".to_string(),
    };
    let (state, action) = asked(request.perform(&context, None));
    assert!(matches!(action, Action::UserFromJwt { jwt } if jwt == "jwt"));
    let (state, action) = asked(state.resume(&context, Reply::User(Ok(user()))));
    assert!(matches!(action, Action::ParseSort { sort: None }));
    let (state, action) = asked(state.resume(&context, Reply::Sort(None)));
    match action {
        Action::ListMentions { query } => assert_eq!(
            query,
            PersonMentionQuery {
                recipient_id: Some(PersonId(7)),
                my_person_id: Some(PersonId(7)),
                sort: None,
                unread_only: Some(false),
                page: None,
                limit: Some(5),
            }
        ),
        _ => panic!("nothing is listed"),
    }
    assert_eq!(
        answer(state.resume(&context, Reply::Mentions(Ok(vec![mention_view(4)])))),
        Ok(GetPersonMentionsResponse { mentions: vec![mention_view(4)] })
    );
}

fn mark_mention(read: bool) -> (MarkPersonMentionAsReadState, Action) {
    let request = MarkPersonMentionAsRead {
        person_mention_id: PersonMentionId(4),
        read,
        auth: "jwt".to_string(),
    };
    let (state, action) = asked(request.perform(&context(), None));
    assert!(matches!(action, Action::UserFromJwt { jwt } if jwt == "jwt"));
    asked(state.resume(&context(), Reply::User(Ok(user()))))
}

#[test]
fn own_mention_is_marked() {
    for read in [true, false] {
        let context = context();
        let (state, action) = mark_mention(read);
        assert!(matches!(action, Action::ReadMention { person_mention_id: PersonMentionId(4) }));
        let (state, action) = asked(state.resume(&context, Reply::Mention(Ok(mention(44, 7)))));
        assert!(matches!(
            action,
            Action::SetMentionRead { person_mention_id: PersonMentionId(44), read: way } if way == read
        ));
        let (state, action) = asked(state.resume(&context, Reply::Checked(Ok(()))));
        assert!(matches!(
            action,
            Action::ReadMentionView {
                person_mention_id: PersonMentionId(44),
                my_person_id: Some(PersonId(7))
            }
        ));
        assert_eq!(
            answer(state.resume(&context, Reply::MentionView(Ok(mention_view(44))))),
            Ok(PersonMentionResponse { person_mention_view: mention_view(44) })
        );
    }
}

#[test]
fn mention_of_somebody_else_is_not_marked() {
    let (state, _) = mark_mention(true);
    assert_eq!(
        answer(state.resume(&context(), Reply::Mention(Ok(mention(4, 8))))),
        Err(LemmyError::Message(Message::CouldntUpdateComment))
    );
}

#[test]
fn mention_cannot_be_marked() {
    let (state, _) = mark_mention(true);
    assert_eq!(
        answer(state.resume(&context(), Reply::Mention(Err(database("gone"))))),
        Err(outside("gone", None))
    );
    let (state, _) = mark_mention(true);
    let (state, _) = asked(state.resume(&context(), Reply::Mention(Ok(mention(4, 7)))));
    assert_eq!(
        answer(state.resume(&context(), Reply::Checked(Err(database("full"))))),
        Err(outside("full", Some(Message::CouldntUpdateComment)))
    );
}

/// Answers all work up to the list of replies.
fn unread() -> MarkAllAsReadState {
    let context = context();
    let request = MarkAllAsRead { auth: "jwt".to_string() };
    let (state, action) = asked(request.perform(&context, None));
    assert!(matches!(action, Action::UserFromJwt { jwt } if jwt == "jwt"));
    let (state, action) = asked(state.resume(&context, Reply::User(Ok(user()))));
    match action {
        Action::ListComments { query } => assert_eq!(
            query,
            CommentQuery {
                sort: None,
                unread_only: Some(true),
                recipient_id: Some(PersonId(7)),
                show_bot_accounts: None,
                my_person_id: Some(PersonId(7)),
                page: Some(1),
                limit: Some(999),
            }
        ),
        _ => panic!("nothing is listed"),
    }
    state
}

#[test]
fn everything_unread_is_marked() {
    for count in [0, 1, 3] {
        let context = context();
        let listed: Vec<CommentView> = (0..count).map(|i| comment(10 + i)).collect();
        let mut step = unread().resume(&context, Reply::Comments(Ok(listed)));
        for i in 0..count {
            let (state, action) = asked(step);
            assert!(matches!(
                action,
                Action::SetCommentRead { comment_id: CommentId(id), read: true } if id == 10 + i
            ));
            step = state.resume(&context, Reply::Checked(Ok(())));
        }
        let (state, action) = asked(step);
        assert!(matches!(action, Action::MarkMentionsRead { person_id: PersonId(7) }));
        let (state, action) = asked(state.resume(&context, Reply::Checked(Ok(()))));
        assert!(matches!(action, Action::MarkPrivateMessagesRead { person_id: PersonId(7) }));
        assert_eq!(
            answer(state.resume(&context, Reply::Checked(Ok(())))),
            Ok(GetRepliesResponse { replies: Vec::new() })
        );
    }
}

#[test]
fn marking_everything_fails() {
    let context = context();
    let listed = vec![comment(10), comment(11)];
    let (state, _) = asked(unread().resume(&context, Reply::Comments(Ok(listed))));
    let (state, _) = asked(state.resume(&context, Reply::Checked(Ok(()))));
    assert_eq!(
        answer(state.resume(&context, Reply::Checked(Err(database("full"))))),
        Err(outside("full", Some(Message::CouldntUpdateComment)))
    );
    let state = MarkAllAsReadState::Mentions { person_id: PersonId(7) };
    assert_eq!(
        answer(state.resume(&context, Reply::Checked(Err(database("full"))))),
        Err(outside("full", Some(Message::CouldntUpdateComment)))
    );
    assert_eq!(
        answer(
            MarkAllAsReadState::PrivateMessages
                .resume(&context, Reply::Checked(Err(database("full"))))
        ),
        Err(outside("full", Some(Message::CouldntUpdatePrivateMessage)))
    );
}

#[test]
fn reports_are_counted() {
    for community_id in [None, Some(CommunityId(6))] {
        let context = context();
        let request = GetReportCount { community_id, auth: "jwt".to_string() };
        let (state, action) = asked(request.perform(&context, None));
        assert!(matches!(action, Action::UserFromJwt { jwt } if jwt == "jwt"));
        let (state, action) = asked(state.resume(&context, Reply::User(Ok(user()))));
        assert!(matches!(
            action,
            Action::CountCommentReports { person_id: PersonId(7), admin: true, community_id: within }
                if within == community_id
        ));
        let (state, action) = asked(state.resume(&context, Reply::Count(Ok(2))));
        assert!(matches!(
            action,
            Action::CountPostReports { person_id: PersonId(7), admin: true, community_id: within }
                if within == community_id
        ));
        assert_eq!(
            answer(state.resume(&context, Reply::Count(Ok(3)))),
            Ok(GetReportCountResponse { community_id, comment_reports: 2, post_reports: 3 })
        );
    }
    let state = GetReportCountState::PostReports { community_id: None, comment_reports: 2 };
    assert_eq!(
        answer(state.resume(&context(), Reply::Count(Err(database("gone"))))),
        Err(outside("gone", None))
    );
}

#[test]
fn unread_messages_are_counted() {
    let context = context();
    let request = GetUnreadCount { auth: "jwt".to_string() };
    let (state, action) = asked(request.perform(&context, None));
    assert!(matches!(action, Action::UserFromJwt { jwt } if jwt == "jwt"));
    let (state, action) = asked(state.resume(&context, Reply::User(Ok(user()))));
    assert!(matches!(action, Action::CountUnreadReplies { person_id: PersonId(7) }));
    let (state, action) = asked(state.resume(&context, Reply::Count(Ok(1))));
    assert!(matches!(action, Action::CountUnreadMentions { person_id: PersonId(7) }));
    let (state, action) = asked(state.resume(&context, Reply::Count(Ok(2))));
    assert!(matches!(action, Action::CountUnreadMessages { person_id: PersonId(7) }));
    assert_eq!(
        answer(state.resume(&context, Reply::Count(Ok(3)))),
        Ok(GetUnreadCountResponse { replies: 1, mentions: 2, private_messages: 3 })
    );
    assert_eq!(
        answer(GetUnreadCountState::User.resume(&context, Reply::User(Err(refused("expired"))))),
        Err(outside("expired", None))
    );
}
