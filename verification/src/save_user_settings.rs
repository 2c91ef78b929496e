//! Changing one's own settings.
use vstd::prelude::*;
use vstd::pervasive::unreached;
use vstd::string::StrSliceExecFns;

use crate::effect::{Action, Reply};
use crate::error::{Fault, LemmyError, Message};
use crate::machine::{Perform, Resume, Step};
use crate::model::{
    copy_text, ConnectionId, Context, LocalUserForm, LocalUserId, LocalUserView, NaiveDateTime,
    PersonForm, PersonId, Site,
};
use crate::run::{lemma_first_steps, linked, run_of, Run};
use crate::session::{answer_with, issue_jwt, logged_in, token_for, LoginResponse};
use crate::text::{trim, trimmed};

verus! {

/// How many characters a biography may have.
pub const BIO_MAX_LENGTH: usize = 300;

#[derive(Debug, PartialEq, Eq)]
pub struct SaveUserSettings {
    pub show_nsfw: Option<bool>,
    pub theme: Option<String>,
    pub default_sort_type: Option<i16>,
    pub default_listing_type: Option<i16>,
    pub lang: Option<String>,
    pub avatar: Option<String>,
    pub banner: Option<String>,
    pub display_name: Option<String>,
    pub email: Option<String>,
    pub bio: Option<String>,
    pub matrix_user_id: Option<String>,
    pub show_avatars: Option<bool>,
    pub send_notifications_to_email: Option<bool>,
    pub bot_account: Option<bool>,
    pub show_bot_accounts: Option<bool>,
    pub show_read_posts: Option<bool>,
    pub show_new_post_notifs: Option<bool>,
    pub show_scores: Option<bool>,
    pub auth: String,
}

/// What is known so far of the changes. What has not been looked at yet is `None`.
#[derive(Debug, PartialEq, Eq)]
pub struct Draft {
    pub data: SaveUserSettings,
    pub user: LocalUserView,
    pub avatar: Option<Option<String>>,
    pub banner: Option<Option<String>>,
    pub bio: Option<Option<String>>,
    pub display_name: Option<Option<String>>,
    pub matrix_user_id: Option<Option<String>>,
    pub email: Option<Option<String>>,
}

/// The requests that wait, by what they wait for.
pub enum SaveUserSettingsState {
    User(SaveUserSettings),
    Avatar(Draft),
    Banner(Draft),
    Bio(Draft),
    DisplayName(Draft),
    MatrixUserId(Draft),
    Site(Draft),
    VerificationEmail(Draft),
    Email(Draft),
    DisplayNameCheck(Draft),
    MatrixIdCheck(Draft),
    Time(Draft),
    Person { local_user_id: LocalUserId, form: LocalUserForm },
    LocalUser,
    Jwt,
}

/// What follows an outcome.
pub type SaveUserSettingsStep = Step<SaveUserSettingsState, LoginResponse>;

impl Draft {
    /// Nothing has been looked at yet.
    pub open spec fn blank(data: SaveUserSettings, user: LocalUserView) -> Draft {
        Draft {
            data,
            user,
            avatar: None,
            banner: None,
            bio: None,
            display_name: None,
            matrix_user_id: None,
            email: None,
        }
    }

    /// There is a new biography, and it is too long.
    pub open spec fn bio_too_long(self) -> bool {
        self.bio matches Some(Some(bio)) && bio@.len() > BIO_MAX_LENGTH
    }

    /// Whether the user is sent a mail by which to confirm the address in the request: the site
    /// wants addresses confirmed, and the user had another one before.
    pub open spec fn address_changes(self, site: Site) -> bool {
        &&& site.require_email_verification
        &&& self.data.email matches Some(email) && self.user.local_user.email matches Some(
            previous,
        ) && previous@ != email@
    }

    /// The change to the person.
    pub open spec fn person_form(self, now: NaiveDateTime) -> PersonForm {
        PersonForm {
            name: self.user.person.name,
            avatar: self.avatar,
            banner: self.banner,
            inbox_url: None,
            display_name: self.display_name,
            published: None,
            updated: Some(now),
            banned: None,
            deleted: None,
            actor_id: None,
            bio: self.bio,
            local: None,
            admin: None,
            private_key: None,
            public_key: self.user.person.public_key,
            last_refreshed_at: None,
            shared_inbox_url: None,
            matrix_user_id: self.matrix_user_id,
            bot_account: self.data.bot_account,
        }
    }

    /// The change to the local user.
    pub open spec fn local_user_form(self) -> LocalUserForm {
        LocalUserForm {
            person_id: Some(self.user.person.id),
            email: self.email,
            password_encrypted: Some(self.user.local_user.password_encrypted),
            show_nsfw: self.data.show_nsfw,
            show_bot_accounts: self.data.show_bot_accounts,
            show_scores: self.data.show_scores,
            theme: self.data.theme,
            default_sort_type: self.data.default_sort_type,
            default_listing_type: self.data.default_listing_type,
            lang: self.data.lang,
            show_avatars: self.data.show_avatars,
            show_read_posts: self.data.show_read_posts,
            show_new_post_notifs: self.data.show_new_post_notifs,
            send_notifications_to_email: self.data.send_notifications_to_email,
            email_verified: None,
            accepted_application: None,
        }
    }

    /// The draft is complete. Its biography is looked at, then its display name, without the white
    /// space around it, then its Matrix identifier.
    pub open spec fn is_checked_by(self, context: Context, step: SaveUserSettingsStep) -> bool {
        if self.bio_too_long() {
            step == SaveUserSettingsStep::Return(
                Err(LemmyError::Message(Message::BioLengthOverflow)),
            )
        } else {
            match self.display_name {
                Some(Some(display_name)) => step matches Step::Call(
                    state,
                    Action::CheckDisplayName { name, max_length },
                ) && {
                    &&& state == SaveUserSettingsState::DisplayNameCheck(self)
                    &&& name@ == trimmed(display_name@)
                    &&& max_length == context.settings.actor_name_max_length
                },
                _ => step == self.matrix_id_check(),
            }
        }
    }

    /// The Matrix identifier is looked at, if there is a new one, and then the clock.
    pub open spec fn matrix_id_check(self) -> SaveUserSettingsStep {
        match self.matrix_user_id {
            Some(Some(matrix_user_id)) => Step::Call(
                SaveUserSettingsState::MatrixIdCheck(self),
                Action::CheckMatrixId { matrix_user_id },
            ),
            _ => Step::Call(SaveUserSettingsState::Time(self), Action::Now),
        }
    }

    fn check(self, context: &Context) -> (step: SaveUserSettingsStep)
        ensures
            self.is_checked_by(*context, step),
    {
        if let Some(Some(bio)) = &self.bio {
            if bio.as_str().unicode_len() > BIO_MAX_LENGTH {
                return Step::Return(Err(LemmyError::Message(Message::BioLengthOverflow)));
            }
        }
        if let Some(Some(display_name)) = &self.display_name {
            let action = Action::CheckDisplayName {
                name: trim(display_name.as_str()),
                max_length: context.settings.actor_name_max_length,
            };
            return Step::Call(SaveUserSettingsState::DisplayNameCheck(self), action);
        }
        self.check_matrix_id()
    }

    fn check_matrix_id(self) -> (step: SaveUserSettingsStep)
        ensures
            step == self.matrix_id_check(),
    {
        if let Some(Some(matrix_user_id)) = &self.matrix_user_id {
            let action = Action::CheckMatrixId { matrix_user_id: matrix_user_id.clone() };
            return Step::Call(SaveUserSettingsState::MatrixIdCheck(self), action);
        }
        Step::Call(SaveUserSettingsState::Time(self), Action::Now)
    }
}

/// What the database says when a mail address is taken.
pub open spec fn address_taken(error: Seq<char>) -> bool {
    error == "duplicate key value violates unique constraint \"local_user_email_key\""@
}

/// Why the local user could not be changed.
pub open spec fn local_user_unchanged(fault: Fault) -> LemmyError {
    fault.labelled(
        if address_taken(fault.error().text@) {
            Message::EmailAlreadyExists
        } else {
            Message::UserAlreadyExists
        },
    )
}

/// Tells a mail address that is taken from other reasons.
pub fn local_user_failure(fault: Fault) -> (error: LemmyError)
    ensures
        error == local_user_unchanged(fault),
{
    let taken =
        "duplicate key value violates unique constraint \"local_user_email_key\"".to_string();
    let email_taken = match &fault {
        Fault::Refused(error) => error.text == taken,
        Fault::Database(error) => error.text == taken,
    };
    if email_taken {
        fault.with_message(Message::EmailAlreadyExists)
    } else {
        fault.with_message(Message::UserAlreadyExists)
    }
}

impl Resume for SaveUserSettingsState {
    type Response = LoginResponse;

    open spec fn accepts(self, reply: Reply) -> bool {
        match self {
            SaveUserSettingsState::User(_) => reply is User,
            SaveUserSettingsState::Avatar(_) => reply is Url,
            SaveUserSettingsState::Banner(_) => reply is Url,
            SaveUserSettingsState::Bio(_) => reply is Text,
            SaveUserSettingsState::DisplayName(_) => reply is Text,
            SaveUserSettingsState::MatrixUserId(_) => reply is Text,
            SaveUserSettingsState::Site(_) => reply is Site,
            SaveUserSettingsState::VerificationEmail(_) => reply is Checked,
            SaveUserSettingsState::Email(_) => reply is Text,
            SaveUserSettingsState::DisplayNameCheck(_) => reply is Valid,
            SaveUserSettingsState::MatrixIdCheck(_) => reply is Valid,
            SaveUserSettingsState::Time(_) => reply is Time,
            SaveUserSettingsState::Person { .. } => reply is Checked,
            SaveUserSettingsState::LocalUser => reply is LocalUser,
            SaveUserSettingsState::Jwt => reply is Jwt,
        }
    }

    open spec fn leads_to(self, context: Context, reply: Reply, step: SaveUserSettingsStep) -> bool {
        match self {
            SaveUserSettingsState::User(data) => step == match reply->User_0 {
                Ok(user) => SaveUserSettingsStep::Call(
                    SaveUserSettingsState::Avatar(Draft::blank(data, user)),
                    Action::OverwriteToUrl { value: data.avatar },
                ),
                Err(fault) => Step::Return(Err(fault.as_it_is())),
            },
            SaveUserSettingsState::Avatar(draft) => step == match reply->Url_0 {
                Ok(avatar) => SaveUserSettingsStep::Call(
                    SaveUserSettingsState::Banner(Draft { avatar, ..draft }),
                    Action::OverwriteToUrl { value: draft.data.banner },
                ),
                Err(fault) => Step::Return(Err(fault.as_it_is())),
            },
            SaveUserSettingsState::Banner(draft) => step == match reply->Url_0 {
                Ok(banner) => SaveUserSettingsStep::Call(
                    SaveUserSettingsState::Bio(Draft { banner, ..draft }),
                    Action::Overwrite { value: draft.data.bio },
                ),
                Err(fault) => Step::Return(Err(fault.as_it_is())),
            },
            SaveUserSettingsState::Bio(draft) => step == SaveUserSettingsStep::Call(
                SaveUserSettingsState::DisplayName(Draft { bio: reply->Text_0, ..draft }),
                Action::Overwrite { value: draft.data.display_name },
            ),
            SaveUserSettingsState::DisplayName(draft) => step == SaveUserSettingsStep::Call(
                SaveUserSettingsState::MatrixUserId(
                    Draft { display_name: reply->Text_0, ..draft },
                ),
                Action::Overwrite { value: draft.data.matrix_user_id },
            ),
            SaveUserSettingsState::MatrixUserId(draft) => {
                let draft = Draft { matrix_user_id: reply->Text_0, ..draft };
                if draft.data.email is Some {
                    step == SaveUserSettingsStep::Call(
                        SaveUserSettingsState::Site(draft),
                        Action::ReadSiteSimple,
                    )
                } else {
                    draft.is_checked_by(context, step)
                }
            },
            SaveUserSettingsState::Site(draft) => match reply->Site_0 {
                Ok(site) => if draft.address_changes(site) {
                    step == SaveUserSettingsStep::Call(
                        SaveUserSettingsState::VerificationEmail(draft),
                        Action::SendVerificationEmail {
                            local_user_id: draft.user.local_user.id,
                            email: draft.data.email->0,
                            username: draft.user.person.name,
                        },
                    )
                } else if site.require_email_verification {
                    draft.is_checked_by(context, step)
                } else {
                    step == SaveUserSettingsStep::Call(
                        SaveUserSettingsState::Email(draft),
                        Action::Overwrite { value: draft.data.email },
                    )
                },
                Err(fault) => step == SaveUserSettingsStep::Return(Err(fault.as_it_is())),
            },
            SaveUserSettingsState::VerificationEmail(draft) => match reply->Checked_0 {
                Ok(_) => draft.is_checked_by(context, step),
                Err(fault) => step == SaveUserSettingsStep::Return(Err(fault.as_it_is())),
            },
            SaveUserSettingsState::Email(draft) => {
                Draft { email: reply->Text_0, ..draft }.is_checked_by(context, step)
            },
            SaveUserSettingsState::DisplayNameCheck(draft) => step == if reply->Valid_0 {
                draft.matrix_id_check()
            } else {
                Step::Return(Err(LemmyError::Message(Message::InvalidUsername)))
            },
            SaveUserSettingsState::MatrixIdCheck(draft) => step == if reply->Valid_0 {
                SaveUserSettingsStep::Call(SaveUserSettingsState::Time(draft), Action::Now)
            } else {
                Step::Return(Err(LemmyError::Message(Message::InvalidMatrixId)))
            },
            SaveUserSettingsState::Time(draft) => step == SaveUserSettingsStep::Call(
                SaveUserSettingsState::Person {
                    local_user_id: draft.user.local_user.id,
                    form: draft.local_user_form(),
                },
                Action::UpdatePerson {
                    person_id: draft.user.person.id,
                    form: draft.person_form(reply->Time_0),
                },
            ),
            SaveUserSettingsState::Person { local_user_id, form } => step == match reply->Checked_0 {
                Ok(_) => SaveUserSettingsStep::Call(
                    SaveUserSettingsState::LocalUser,
                    Action::UpdateLocalUser { local_user_id, form },
                ),
                Err(fault) => Step::Return(Err(fault.labelled(Message::UserAlreadyExists))),
            },
            SaveUserSettingsState::LocalUser => step == match reply->LocalUser_0 {
                Ok(local_user) => SaveUserSettingsStep::Call(
                    SaveUserSettingsState::Jwt,
                    token_for(local_user.id, context),
                ),
                Err(fault) => Step::Return(Err(local_user_unchanged(fault))),
            },
            SaveUserSettingsState::Jwt => step == SaveUserSettingsStep::Return(
                answer_with(reply->Jwt_0),
            ),
        }
    }

    open spec fn stages(self) -> nat {
        match self {
            SaveUserSettingsState::User(_) => 15,
            SaveUserSettingsState::Avatar(_) => 14,
            SaveUserSettingsState::Banner(_) => 13,
            SaveUserSettingsState::Bio(_) => 12,
            SaveUserSettingsState::DisplayName(_) => 11,
            SaveUserSettingsState::MatrixUserId(_) => 10,
            SaveUserSettingsState::Site(_) => 9,
            SaveUserSettingsState::VerificationEmail(_) => 8,
            SaveUserSettingsState::Email(_) => 7,
            SaveUserSettingsState::DisplayNameCheck(_) => 6,
            SaveUserSettingsState::MatrixIdCheck(_) => 5,
            SaveUserSettingsState::Time(_) => 4,
            SaveUserSettingsState::Person { .. } => 3,
            SaveUserSettingsState::LocalUser => 2,
            SaveUserSettingsState::Jwt => 1,
        }
    }

    open spec fn repeats(self) -> nat {
        0
    }

    proof fn progress(self, context: Context, reply: Reply, step: SaveUserSettingsStep) {
    }

    proof fn failure(self, context: Context, reply: Reply, step: SaveUserSettingsStep) {
    }

    fn resume(self, context: &Context, reply: Reply) -> (step: SaveUserSettingsStep) {
        match (self, reply) {
            (SaveUserSettingsState::User(data), Reply::User(found)) => match found {
                Ok(user) => {
                    let value = copy_text(&data.avatar);
                    let draft = Draft {
                        data,
                        user,
                        avatar: None,
                        banner: None,
                        bio: None,
                        display_name: None,
                        matrix_user_id: None,
                        email: None,
                    };
                    Step::Call(
                        SaveUserSettingsState::Avatar(draft),
                        Action::OverwriteToUrl { value },
                    )
                },
                Err(fault) => Step::Return(Err(fault.pass())),
            },
            (SaveUserSettingsState::Avatar(draft), Reply::Url(url)) => match url {
                Ok(avatar) => {
                    let value = copy_text(&draft.data.banner);
                    Step::Call(
                        SaveUserSettingsState::Banner(Draft { avatar, ..draft }),
                        Action::OverwriteToUrl { value },
                    )
                },
                Err(fault) => Step::Return(Err(fault.pass())),
            },
            (SaveUserSettingsState::Banner(draft), Reply::Url(url)) => match url {
                Ok(banner) => {
                    let value = copy_text(&draft.data.bio);
                    Step::Call(
                        SaveUserSettingsState::Bio(Draft { banner, ..draft }),
                        Action::Overwrite { value },
                    )
                },
                Err(fault) => Step::Return(Err(fault.pass())),
            },
            (SaveUserSettingsState::Bio(draft), Reply::Text(bio)) => {
                let value = copy_text(&draft.data.display_name);
                Step::Call(
                    SaveUserSettingsState::DisplayName(Draft { bio, ..draft }),
                    Action::Overwrite { value },
                )
            },
            (SaveUserSettingsState::DisplayName(draft), Reply::Text(display_name)) => {
                let value = copy_text(&draft.data.matrix_user_id);
                Step::Call(
                    SaveUserSettingsState::MatrixUserId(Draft { display_name, ..draft }),
                    Action::Overwrite { value },
                )
            },
            (SaveUserSettingsState::MatrixUserId(draft), Reply::Text(matrix_user_id)) => {
                let draft = Draft { matrix_user_id, ..draft };
                if draft.data.email.is_some() {
                    return Step::Call(SaveUserSettingsState::Site(draft), Action::ReadSiteSimple);
                }
                draft.check(context)
            },
            (SaveUserSettingsState::Site(draft), Reply::Site(read)) => match read {
                Ok(site) => {
                    if !site.require_email_verification {
                        let value = copy_text(&draft.data.email);
                        return Step::Call(
                            SaveUserSettingsState::Email(draft),
                            Action::Overwrite { value },
                        );
                    }
                    if let Some(email) = &draft.data.email {
                        if let Some(previous) = &draft.user.local_user.email {
                            // The mail goes out only if the address is another one.
                            if !(*previous == *email) {
                                let action = Action::SendVerificationEmail {
                                    local_user_id: draft.user.local_user.id,
                                    email: email.clone(),
                                    username: draft.user.person.name.clone(),
                                };
                                return Step::Call(
                                    SaveUserSettingsState::VerificationEmail(draft),
                                    action,
                                );
                            }
                        }
                    }
                    // The address stays as it is until it is confirmed.
                    draft.check(context)
                },
                Err(fault) => Step::Return(Err(fault.pass())),
            },
            (SaveUserSettingsState::VerificationEmail(draft), Reply::Checked(sent)) => match sent {
                Ok(_) => draft.check(context),
                Err(fault) => Step::Return(Err(fault.pass())),
            },
            (SaveUserSettingsState::Email(draft), Reply::Text(email)) => {
                let draft = Draft { email, ..draft };
                draft.check(context)
            },
            (SaveUserSettingsState::DisplayNameCheck(draft), Reply::Valid(valid)) => {
                if !valid {
                    return Step::Return(Err(LemmyError::Message(Message::InvalidUsername)));
                }
                draft.check_matrix_id()
            },
            (SaveUserSettingsState::MatrixIdCheck(draft), Reply::Valid(valid)) => {
                if !valid {
                    return Step::Return(Err(LemmyError::Message(Message::InvalidMatrixId)));
                }
                Step::Call(SaveUserSettingsState::Time(draft), Action::Now)
            },
            (SaveUserSettingsState::Time(draft), Reply::Time(now)) => {
                let Draft { data, user, avatar, banner, bio, display_name, matrix_user_id, email } =
                    draft;
                let person_id = user.person.id;
                let person_form = PersonForm {
                    name: user.person.name,
                    avatar,
                    banner,
                    inbox_url: None,
                    display_name,
                    published: None,
                    updated: Some(now),
                    banned: None,
                    deleted: None,
                    actor_id: None,
                    bio,
                    local: None,
                    admin: None,
                    private_key: None,
                    public_key: user.person.public_key,
                    last_refreshed_at: None,
                    shared_inbox_url: None,
                    matrix_user_id,
                    bot_account: data.bot_account,
                };
                let local_user_form = LocalUserForm {
                    person_id: Some(person_id),
                    email,
                    password_encrypted: Some(user.local_user.password_encrypted),
                    show_nsfw: data.show_nsfw,
                    show_bot_accounts: data.show_bot_accounts,
                    show_scores: data.show_scores,
                    theme: data.theme,
                    default_sort_type: data.default_sort_type,
                    default_listing_type: data.default_listing_type,
                    lang: data.lang,
                    show_avatars: data.show_avatars,
                    show_read_posts: data.show_read_posts,
                    show_new_post_notifs: data.show_new_post_notifs,
                    send_notifications_to_email: data.send_notifications_to_email,
                    email_verified: None,
                    accepted_application: None,
                };
                Step::Call(
                    SaveUserSettingsState::Person {
                        local_user_id: user.local_user.id,
                        form: local_user_form,
                    },
                    Action::UpdatePerson { person_id, form: person_form },
                )
            },
            (
                SaveUserSettingsState::Person { local_user_id, form },
                Reply::Checked(changed),
            ) => match changed {
                Ok(_) => Step::Call(
                    SaveUserSettingsState::LocalUser,
                    Action::UpdateLocalUser { local_user_id, form },
                ),
                Err(fault) => Step::Return(Err(fault.with_message(Message::UserAlreadyExists))),
            },
            (SaveUserSettingsState::LocalUser, Reply::LocalUser(changed)) => match changed {
                Ok(local_user) => Step::Call(
                    SaveUserSettingsState::Jwt,
                    issue_jwt(local_user.id, context),
                ),
                Err(fault) => Step::Return(Err(local_user_failure(fault))),
            },
            (SaveUserSettingsState::Jwt, Reply::Jwt(token)) => Step::Return(logged_in(token)),
            _ => unreached(),
        }
    }
}

impl Perform for SaveUserSettings {
    type Response = LoginResponse;

    type State = SaveUserSettingsState;

    open spec fn begins_with(
        self,
        context: Context,
        websocket_id: Option<ConnectionId>,
        step: SaveUserSettingsStep,
    ) -> bool {
        step == SaveUserSettingsStep::Call(
            SaveUserSettingsState::User(self),
            Action::UserFromJwt { jwt: self.auth },
        )
    }

    proof fn prepared(
        self,
        context: Context,
        websocket_id: Option<ConnectionId>,
        step: SaveUserSettingsStep,
    ) {
    }

    fn perform(
        self,
        context: &Context,
        websocket_id: Option<ConnectionId>,
    ) -> (step: SaveUserSettingsStep) {
        let jwt = self.auth.clone();
        Step::Call(SaveUserSettingsState::User(self), Action::UserFromJwt { jwt })
    }
}

/// The draft that the first outcomes of a run amount to. The address in the request is looked at
/// only where the site does not want addresses confirmed.
pub open spec fn recorded(request: SaveUserSettings, replies: Seq<Reply>) -> Draft {
    Draft {
        data: request,
        user: replies[0]->User_0->Ok_0,
        avatar: replies[1]->Url_0->Ok_0,
        banner: replies[2]->Url_0->Ok_0,
        bio: replies[3]->Text_0,
        display_name: replies[4]->Text_0,
        matrix_user_id: replies[5]->Text_0,
        email: if request.email is Some && !replies[6]->Site_0->Ok_0.require_email_verification {
            replies[7]->Text_0
        } else {
            None
        },
    }
}

/// Before step `i` the display name, without the white space around it, was found valid.
pub open spec fn display_name_approved(
    run: Run<SaveUserSettingsState, LoginResponse>,
    display_name: Seq<char>,
    i: int,
) -> bool {
    exists|j: int|
        0 <= j < i && run.replies[j] == Reply::Valid(true) && (
        #[trigger] run.steps[j] matches Step::Call(_, Action::CheckDisplayName { name, .. })
            && name@ == trimmed(display_name))
}

/// Before step `i` the Matrix identifier was found valid.
pub open spec fn matrix_id_approved(
    run: Run<SaveUserSettingsState, LoginResponse>,
    matrix_user_id: String,
    i: int,
) -> bool {
    exists|j: int|
        0 <= j < i && run.replies[j] == Reply::Valid(true) && #[trigger] run.asks(
            j,
            Action::CheckMatrixId { matrix_user_id },
        )
}

/// Before step `i` everything in the draft was found acceptable.
pub open spec fn approved(
    run: Run<SaveUserSettingsState, LoginResponse>,
    draft: Draft,
    i: int,
) -> bool {
    &&& !draft.bio_too_long()
    &&& draft.display_name matches Some(Some(display_name)) ==> display_name_approved(
        run,
        display_name@,
        i,
    )
    &&& draft.matrix_user_id matches Some(Some(matrix_user_id)) ==> matrix_id_approved(
        run,
        matrix_user_id,
        i,
    )
}

/// Before step `k` it was settled what becomes of the address in the request.
spec fn address_settled(
    request: SaveUserSettings,
    run: Run<SaveUserSettingsState, LoginResponse>,
    k: int,
) -> bool {
    &&& k >= 6
    &&& request.email is Some ==> {
        &&& k >= 7
        &&& run.replies[6] matches Reply::Site(Ok(site)) && (!site.require_email_verification ==> {
            &&& k >= 8
            &&& run.asks(7, Action::Overwrite { value: request.email })
            &&& run.replies[7] is Text
        })
    }
}

/// What the draft at step `k` owes to the outcomes before it.
spec fn on_record(
    request: SaveUserSettings,
    run: Run<SaveUserSettingsState, LoginResponse>,
    k: int,
) -> bool {
    let replies = run.replies;
    let full = recorded(request, replies);
    let six = Draft { email: None, ..full };
    match run.steps[k] {
        Step::Call(state, action) => match state {
            SaveUserSettingsState::User(data) => k == 0 && data == request,
            SaveUserSettingsState::Avatar(draft) => {
                k == 1 && draft == Draft::blank(request, full.user)
            },
            SaveUserSettingsState::Banner(draft) => {
                k == 2 && draft == Draft {
                    avatar: full.avatar,
                    ..Draft::blank(request, full.user)
                }
            },
            SaveUserSettingsState::Bio(draft) => {
                k == 3 && draft == Draft {
                    avatar: full.avatar,
                    banner: full.banner,
                    ..Draft::blank(request, full.user)
                }
            },
            SaveUserSettingsState::DisplayName(draft) => {
                k == 4 && draft == Draft { display_name: None, matrix_user_id: None, ..six }
            },
            SaveUserSettingsState::MatrixUserId(draft) => {
                k == 5 && draft == Draft { matrix_user_id: None, ..six }
            },
            SaveUserSettingsState::Site(draft) => k == 6 && draft == six && request.email is Some,
            SaveUserSettingsState::VerificationEmail(draft) => {
                &&& k == 7 && draft == six && six == full
                &&& replies[6] matches Reply::Site(Ok(site)) && draft.address_changes(site)
            },
            SaveUserSettingsState::Email(draft) => {
                &&& k == 7 && draft == six && request.email is Some
                &&& run.asks(7, Action::Overwrite { value: request.email })
                &&& replies[6] matches Reply::Site(Ok(site)) && !site.require_email_verification
            },
            SaveUserSettingsState::DisplayNameCheck(draft) => {
                &&& address_settled(request, run, k)
                &&& draft == full && !full.bio_too_long()
                &&& full.display_name matches Some(Some(display_name))
                    && action matches Action::CheckDisplayName { name, .. } && name@ == trimmed(
                    display_name@,
                )
            },
            SaveUserSettingsState::MatrixIdCheck(draft) => {
                &&& address_settled(request, run, k)
                &&& draft == full && approved(
                    run,
                    Draft { matrix_user_id: None, ..full },
                    k,
                )
                &&& full.matrix_user_id matches Some(Some(matrix_user_id)) && run.asks(
                    k,
                    Action::CheckMatrixId { matrix_user_id },
                )
            },
            SaveUserSettingsState::Time(draft) => {
                address_settled(request, run, k) && draft == full && approved(run, full, k)
            },
            SaveUserSettingsState::Person { local_user_id, form } => {
                &&& address_settled(request, run, k)
                &&& approved(run, full, k)
                &&& local_user_id == full.user.local_user.id && form == full.local_user_form()
                &&& replies[k - 1] matches Reply::Time(now) && action == Action::UpdatePerson {
                    person_id: full.user.person.id,
                    form: full.person_form(now),
                }
            },
            SaveUserSettingsState::LocalUser => {
                &&& address_settled(request, run, k)
                &&& approved(run, full, k)
                &&& replies[k - 1] matches Reply::Checked(Ok(_))
                &&& run.steps[k - 1] matches Step::Call(_, Action::UpdatePerson { .. })
                &&& action == Action::UpdateLocalUser {
                    local_user_id: full.user.local_user.id,
                    form: full.local_user_form(),
                }
            },
            SaveUserSettingsState::Jwt => {
                &&& replies[k - 1] matches Reply::LocalUser(Ok(local_user))
                &&& run.steps[k - 1] matches Step::Call(_, Action::UpdateLocalUser { .. })
            },
        },
        _ => true,
    }
}

proof fn lemma_on_record(
    request: SaveUserSettings,
    context: Context,
    websocket_id: Option<ConnectionId>,
    run: Run<SaveUserSettingsState, LoginResponse>,
    k: int,
)
    requires
        run_of(request, context, websocket_id, run),
        0 <= k < run.steps.len(),
    ensures
        on_record(request, run, k),
    decreases k,
{
    if k > 0 {
        lemma_on_record(request, context, websocket_id, run, k - 1);
        assert(linked(run, context, k - 1));
    }
}

/// The user behind the token was found, and each of the columns that are looked at first was.
pub open spec fn looked_at(
    request: SaveUserSettings,
    run: Run<SaveUserSettingsState, LoginResponse>,
) -> bool {
    &&& run.asks(0, Action::UserFromJwt { jwt: request.auth })
    &&& run.replies[0] matches Reply::User(Ok(_))
    &&& run.asks(1, Action::OverwriteToUrl { value: request.avatar })
    &&& run.replies[1] matches Reply::Url(Ok(_))
    &&& run.asks(2, Action::OverwriteToUrl { value: request.banner })
    &&& run.replies[2] matches Reply::Url(Ok(_))
    &&& run.asks(3, Action::Overwrite { value: request.bio })
    &&& run.replies[3] is Text
    &&& run.asks(4, Action::Overwrite { value: request.display_name })
    &&& run.replies[4] is Text
    &&& run.asks(5, Action::Overwrite { value: request.matrix_user_id })
    &&& run.replies[5] is Text
}

/// Nothing is written before everything in the request was looked at and found acceptable. What is
/// then written is the person behind the token, and after it the local user behind the token, as
/// the outcomes on record amount to.
pub proof fn only_approved_settings_are_written(
    request: SaveUserSettings,
    context: Context,
    websocket_id: Option<ConnectionId>,
    run: Run<SaveUserSettingsState, LoginResponse>,
    i: int,
    action: Action,
)
    requires
        run_of(request, context, websocket_id, run),
        run.asks(i, action),
        action.writes(),
    ensures
        looked_at(request, run),
        ({
            let draft = recorded(request, run.replies);
            &&& approved(run, draft, i)
            &&& {
                ||| run.replies[i - 1] matches Reply::Time(now) && action == Action::UpdatePerson {
                    person_id: draft.user.person.id,
                    form: draft.person_form(now),
                }
                ||| run.replies[i - 1] matches Reply::Checked(Ok(_)) && action
                    == Action::UpdateLocalUser {
                    local_user_id: draft.user.local_user.id,
                    form: draft.local_user_form(),
                }
            }
        }),
{
    lemma_on_record(request, context, websocket_id, run, i);
    lemma_first_steps(request, context, websocket_id, run);
    if i > 0 {
        assert(linked(run, context, i - 1));
    }
}

/// Where the site wants addresses confirmed, saving settings leaves the address alone. It is
/// changed only where the site is known not to want that.
pub proof fn address_waits_for_confirmation(
    request: SaveUserSettings,
    context: Context,
    websocket_id: Option<ConnectionId>,
    run: Run<SaveUserSettingsState, LoginResponse>,
    i: int,
    local_user_id: LocalUserId,
    form: LocalUserForm,
)
    requires
        run_of(request, context, websocket_id, run),
        run.asks(i, Action::UpdateLocalUser { local_user_id, form }),
        form.email is Some,
    ensures
        request.email is Some,
        run.replies[6] matches Reply::Site(Ok(site)) && !site.require_email_verification,
        run.asks(7, Action::Overwrite { value: request.email }),
        run.replies[7] == Reply::Text(form.email),
{
    lemma_on_record(request, context, websocket_id, run, i);
    if i > 0 {
        assert(linked(run, context, i - 1));
    }
}

/// A mail to confirm the address goes out to the new address of the user behind the token, and
/// only where the site wants that and the user had another address before.
pub proof fn verification_mail_only_for_another_address(
    request: SaveUserSettings,
    context: Context,
    websocket_id: Option<ConnectionId>,
    run: Run<SaveUserSettingsState, LoginResponse>,
    i: int,
    action: Action,
)
    requires
        run_of(request, context, websocket_id, run),
        run.asks(i, action),
        action.mails(),
    ensures
        ({
            let draft = recorded(request, run.replies);
            &&& run.replies[6] matches Reply::Site(Ok(site)) && draft.address_changes(site)
            &&& action == Action::SendVerificationEmail {
                local_user_id: draft.user.local_user.id,
                email: request.email->0,
                username: draft.user.person.name,
            }
        }),
{
    lemma_on_record(request, context, websocket_id, run, i);
    if i > 0 {
        lemma_on_record(request, context, websocket_id, run, i - 1);
        assert(linked(run, context, i - 1));
    }
}

/// Where the site wants addresses confirmed and the user had another address before, the mail does
/// go out.
pub proof fn verification_mail_for_another_address(
    request: SaveUserSettings,
    context: Context,
    websocket_id: Option<ConnectionId>,
    run: Run<SaveUserSettingsState, LoginResponse>,
    site: Site,
)
    requires
        run_of(request, context, websocket_id, run),
        run.replies.len() > 6,
        run.replies[6] == Reply::Site(Ok(site)),
        recorded(request, run.replies).address_changes(site),
    ensures
        ({
            let user = recorded(request, run.replies).user;
            run.asks(
                7,
                Action::SendVerificationEmail {
                    local_user_id: user.local_user.id,
                    email: request.email->0,
                    username: user.person.name,
                },
            )
        }),
{
    lemma_on_record(request, context, websocket_id, run, 6);
    assert(linked(run, context, 6));
}

/// Settings are saved only when both the person and the local user behind the token were written,
/// one after the other, and the answer holds a token signed for the local user as it was written.
pub proof fn saved_settings_were_written(
    request: SaveUserSettings,
    context: Context,
    websocket_id: Option<ConnectionId>,
    run: Run<SaveUserSettingsState, LoginResponse>,
)
    requires
        run_of(request, context, websocket_id, run),
        run.succeeds(),
    ensures
        ({
            let n = run.replies.len() as int;
            let draft = recorded(request, run.replies);
            &&& n > 3
            &&& run.replies[n - 4] matches Reply::Time(now) && run.asks(
                n - 3,
                Action::UpdatePerson {
                    person_id: draft.user.person.id,
                    form: draft.person_form(now),
                },
            )
            &&& run.asks(
                n - 2,
                Action::UpdateLocalUser {
                    local_user_id: draft.user.local_user.id,
                    form: draft.local_user_form(),
                },
            )
            &&& run.replies[n - 2] matches Reply::LocalUser(Ok(local_user)) && run.asks(
                n - 1,
                token_for(local_user.id, context),
            )
            &&& run.replies[n - 1] matches Reply::Jwt(Ok(token)) && run.answers(
                LoginResponse {
                    jwt: Some(token),
                    verify_email_sent: false,
                    registration_created: false,
                },
            )
        }),
{
    let n = run.replies.len() as int;
    assert(n > 0);
    assert(linked(run, context, n - 1));
    lemma_on_record(request, context, websocket_id, run, n - 1);
    if n > 1 {
        assert(linked(run, context, n - 2));
        lemma_on_record(request, context, websocket_id, run, n - 2);
    }
    if n > 2 {
        assert(linked(run, context, n - 3));
        lemma_on_record(request, context, websocket_id, run, n - 3);
    }
    if n > 3 {
        assert(linked(run, context, n - 4));
    }
}

/// A request whose biography is too long writes nothing and does not succeed.
pub proof fn long_bio_is_never_saved(
    request: SaveUserSettings,
    context: Context,
    websocket_id: Option<ConnectionId>,
    run: Run<SaveUserSettingsState, LoginResponse>,
)
    requires
        run_of(request, context, websocket_id, run),
        recorded(request, run.replies).bio_too_long(),
    ensures
        !run.succeeds(),
        forall|i: int, action: Action| run.asks(i, action) ==> !action.writes(),
{
    assert forall|i: int, action: Action| run.asks(i, action) implies !action.writes() by {
        if action.writes() {
            only_approved_settings_are_written(request, context, websocket_id, run, i, action);
        }
    }
    if run.succeeds() {
        saved_settings_were_written(request, context, websocket_id, run);
    }
}

/// The grounds on which the request itself refuses: the biography is too long, or the display name
/// or the Matrix identifier was just found invalid.
pub proof fn grounds_for_refusal(
    request: SaveUserSettings,
    context: Context,
    websocket_id: Option<ConnectionId>,
    run: Run<SaveUserSettingsState, LoginResponse>,
    message: Message,
)
    requires
        run_of(request, context, websocket_id, run),
        run.steps.last() == SaveUserSettingsStep::Return(Err(LemmyError::Message(message))),
    ensures
        ({
            let n = run.replies.len() as int;
            let draft = recorded(request, run.replies);
            match message {
                Message::BioLengthOverflow => draft.bio_too_long(),
                Message::InvalidUsername => {
                    &&& run.replies[n - 1] == Reply::Valid(false)
                    &&& draft.display_name matches Some(Some(display_name))
                    &&& run.steps[n - 1] matches Step::Call(
                        _,
                        Action::CheckDisplayName { name, max_length },
                    ) && {
                        &&& name@ == trimmed(display_name@)
                        &&& max_length == context.settings.actor_name_max_length
                    }
                },
                Message::InvalidMatrixId => {
                    &&& run.replies[n - 1] == Reply::Valid(false)
                    &&& draft.matrix_user_id matches Some(Some(matrix_user_id))
                    &&& run.asks(n - 1, Action::CheckMatrixId { matrix_user_id })
                },
                _ => false,
            }
        }),
{
    let n = run.replies.len() as int;
    assert(n > 0);
    assert(linked(run, context, n - 1));
    lemma_on_record(request, context, websocket_id, run, n - 1);
    if n > 1 {
        assert(linked(run, context, n - 2));
    }
}

/// A request that comes to its end succeeds exactly where no work for it failed, the biography is
/// not too long, and nothing was found invalid.
pub proof fn settings_are_saved(
    request: SaveUserSettings,
    context: Context,
    websocket_id: Option<ConnectionId>,
    run: Run<SaveUserSettingsState, LoginResponse>,
)
    requires
        run_of(request, context, websocket_id, run),
        !(run.steps.last() is Call),
    ensures
        run.succeeds() <==> {
            &&& !recorded(request, run.replies).bio_too_long()
            &&& forall|i: int|
                0 <= i < run.replies.len() ==> {
                    &&& (#[trigger] run.replies[i]).fault() is None
                    &&& run.replies[i] != Reply::Valid(false)
                }
        },
{
    let n = run.replies.len() as int;
    assert(n > 0);
    assert(linked(run, context, n - 1));
    lemma_on_record(request, context, websocket_id, run, n - 1);
    if run.succeeds() {
        if recorded(request, run.replies).bio_too_long() {
            long_bio_is_never_saved(request, context, websocket_id, run);
        }
        assert forall|i: int| 0 <= i < n implies {
            &&& (#[trigger] run.replies[i]).fault() is None
            &&& run.replies[i] != Reply::Valid(false)
        } by {
            assert(linked(run, context, i));
            if i + 1 < n {
                assert(linked(run, context, i + 1));
            }
        }
    }
}

/// A token is signed only for the local user who was written.
pub proof fn token_follows_the_settings(
    request: SaveUserSettings,
    context: Context,
    websocket_id: Option<ConnectionId>,
    run: Run<SaveUserSettingsState, LoginResponse>,
    i: int,
    action: Action,
)
    requires
        run_of(request, context, websocket_id, run),
        run.asks(i, action),
        action is IssueJwt,
    ensures
        i > 0,
        run.steps[i - 1] matches Step::Call(_, Action::UpdateLocalUser { .. }),
        run.replies[i - 1] matches Reply::LocalUser(Ok(local_user)) && action == token_for(
            local_user.id,
            context,
        ),
{
    lemma_on_record(request, context, websocket_id, run, i);
    if i > 0 {
        assert(linked(run, context, i - 1));
        lemma_on_record(request, context, websocket_id, run, i - 1);
    }
}

/// Whenever the local user is written, it is the one behind the token, and each column is set to what
/// the request says under the same name. The address is left alone where the request has none or the
/// site wants addresses confirmed; otherwise it is what the address in the request was found to mean.
/// The password stays as it is, and so do the marks of a confirmed address and of an accepted
/// application.
pub proof fn each_column_of_the_local_user_is_as_requested(
    request: SaveUserSettings,
    context: Context,
    websocket_id: Option<ConnectionId>,
    run: Run<SaveUserSettingsState, LoginResponse>,
    i: int,
    local_user_id: LocalUserId,
    form: LocalUserForm,
)
    requires
        run_of(request, context, websocket_id, run),
        run.asks(i, Action::UpdateLocalUser { local_user_id, form }),
    ensures
        ({
            &&& run.asks(0, Action::UserFromJwt { jwt: request.auth })
            &&& run.replies[0] matches Reply::User(Ok(user))
            &&& local_user_id == user.local_user.id
            &&& form.person_id == Some(user.person.id)
            &&& form.password_encrypted == Some(user.local_user.password_encrypted)
        }),
        form.show_nsfw == request.show_nsfw,
        form.show_bot_accounts == request.show_bot_accounts,
        form.show_scores == request.show_scores,
        form.theme == request.theme,
        form.default_sort_type == request.default_sort_type,
        form.default_listing_type == request.default_listing_type,
        form.lang == request.lang,
        form.show_avatars == request.show_avatars,
        form.show_read_posts == request.show_read_posts,
        form.show_new_post_notifs == request.show_new_post_notifs,
        form.send_notifications_to_email == request.send_notifications_to_email,
        form.email_verified is None,
        form.accepted_application is None,
        match request.email {
            Some(_) => {
                &&& run.asks(6, Action::ReadSiteSimple)
                &&& run.replies[6] matches Reply::Site(Ok(site))
                &&& site.require_email_verification ==> form.email is None
                &&& !site.require_email_verification ==> {
                    &&& run.asks(7, Action::Overwrite { value: request.email })
                    &&& run.replies[7] == Reply::Text(form.email)
                }
            },
            None => form.email is None,
        },
{
    lemma_on_record(request, context, websocket_id, run, i);
    lemma_first_steps(request, context, websocket_id, run);
    if i > 0 {
        assert(linked(run, context, i - 1));
    }
}

/// Whenever the person is written, it is the one behind the token, and each column that the request
/// can set is what the request's text of the same name was found to mean. The time of the change is
/// the clock's last reading, and everything else stays as it is.
pub proof fn each_column_of_the_person_is_as_requested(
    request: SaveUserSettings,
    context: Context,
    websocket_id: Option<ConnectionId>,
    run: Run<SaveUserSettingsState, LoginResponse>,
    i: int,
    person_id: PersonId,
    form: PersonForm,
)
    requires
        run_of(request, context, websocket_id, run),
        run.asks(i, Action::UpdatePerson { person_id, form }),
    ensures
        ({
            &&& run.asks(0, Action::UserFromJwt { jwt: request.auth })
            &&& run.replies[0] matches Reply::User(Ok(user))
            &&& person_id == user.person.id
            &&& form.name == user.person.name
            &&& form.public_key == user.person.public_key
        }),
        run.asks(1, Action::OverwriteToUrl { value: request.avatar }),
        run.replies[1] == Reply::Url(Ok(form.avatar)),
        run.asks(2, Action::OverwriteToUrl { value: request.banner }),
        run.replies[2] == Reply::Url(Ok(form.banner)),
        run.asks(3, Action::Overwrite { value: request.bio }),
        run.replies[3] == Reply::Text(form.bio),
        run.asks(4, Action::Overwrite { value: request.display_name }),
        run.replies[4] == Reply::Text(form.display_name),
        run.asks(5, Action::Overwrite { value: request.matrix_user_id }),
        run.replies[5] == Reply::Text(form.matrix_user_id),
        form.bot_account == request.bot_account,
        ({
            &&& run.asks(i - 1, Action::Now)
            &&& form.updated matches Some(now)
            &&& run.replies[i - 1] == Reply::Time(now)
        }),
        form.inbox_url is None,
        form.published is None,
        form.banned is None,
        form.deleted is None,
        form.actor_id is None,
        form.local is None,
        form.admin is None,
        form.private_key is None,
        form.last_refreshed_at is None,
        form.shared_inbox_url is None,
{
    lemma_on_record(request, context, websocket_id, run, i);
    lemma_first_steps(request, context, websocket_id, run);
    if i > 0 {
        assert(linked(run, context, i - 1));
        lemma_on_record(request, context, websocket_id, run, i - 1);
    }
    if i > 1 {
        assert(linked(run, context, i - 2));
    }
}

/// Whether the user behind the token had an address, and another one than the request has.
pub open spec fn has_another_address(request: SaveUserSettings, user: LocalUserView) -> bool {
    &&& request.email matches Some(email)
    &&& user.local_user.email matches Some(previous)
    &&& previous@ != email@
}

/// The step at which the checks begin: after the user and five columns, and, where the request has an
/// address, after the site and what had to be done about the address.
pub open spec fn checks_begin(request: SaveUserSettings, replies: Seq<Reply>) -> int {
    if request.email is None {
        6
    } else {
        match (replies[0], replies[6]) {
            (Reply::User(Ok(user)), Reply::Site(Ok(site))) => {
                if site.require_email_verification && !has_another_address(request, user) {
                    7
                } else {
                    8
                }
            },
            _ => 8,
        }
    }
}

/// Whether a reply gives a column a new text.
pub open spec fn gives_text(reply: Reply) -> bool {
    reply matches Reply::Text(Some(Some(_)))
}

/// The step at which the Matrix identifier is checked, if there is a new one: after the display name,
/// if there is a new one.
pub open spec fn matrix_check(request: SaveUserSettings, replies: Seq<Reply>) -> int {
    if gives_text(replies[4]) {
        checks_begin(request, replies) + 1
    } else {
        checks_begin(request, replies)
    }
}

/// The step at which the clock is read: after the Matrix identifier, if there is a new one.
pub open spec fn clock_read(request: SaveUserSettings, replies: Seq<Reply>) -> int {
    if gives_text(replies[5]) {
        matrix_check(request, replies) + 1
    } else {
        matrix_check(request, replies)
    }
}

/// At step `k` the Matrix identifier is checked, if there is a new one; otherwise the clock is read.
pub open spec fn matrix_or_clock(run: Run<SaveUserSettingsState, LoginResponse>, k: int) -> bool {
    match run.replies[5] {
        Reply::Text(Some(Some(matrix_user_id))) => run.asks(
            k,
            Action::CheckMatrixId { matrix_user_id },
        ),
        _ => run.asks(k, Action::Now),
    }
}

/// At step `k` the checks begin: a biography of more than 300 characters is refused; otherwise the
/// display name is checked, without the white space around it and up to the server's limit, if there
/// is a new one.
pub open spec fn checks(context: Context, run: Run<SaveUserSettingsState, LoginResponse>, k: int) -> bool {
    let long = {
        &&& run.replies[3] matches Reply::Text(Some(Some(bio)))
        &&& bio@.len() > 300
    };
    if long {
        run.refuses(k, Message::BioLengthOverflow)
    } else {
        match run.replies[4] {
            Reply::Text(Some(Some(display_name))) => {
                &&& run.steps[k] matches Step::Call(_, Action::CheckDisplayName { name, max_length })
                &&& name@ == trimmed(display_name@)
                &&& max_length == context.settings.actor_name_max_length
            },
            _ => matrix_or_clock(run, k),
        }
    }
}

/// Where each state of a run has its place.
spec fn placed(
    request: SaveUserSettings,
    run: Run<SaveUserSettingsState, LoginResponse>,
    k: int,
) -> bool {
    let begin = checks_begin(request, run.replies);
    let matrix = matrix_check(request, run.replies);
    let clock = clock_read(request, run.replies);
    match run.steps[k] {
        Step::Call(state, _) => {
            &&& k > 0 ==> (run.replies[0] matches Reply::User(Ok(_)))
            &&& k > 3 ==> run.replies[3] is Text
            &&& k > 4 ==> run.replies[4] is Text
            &&& k > 5 ==> run.replies[5] is Text
            &&& k > 6 && request.email is Some ==> (run.replies[6] matches Reply::Site(Ok(_)))
            &&& match state {
                SaveUserSettingsState::User(_) => k == 0,
                SaveUserSettingsState::Avatar(_) => k == 1,
                SaveUserSettingsState::Banner(_) => k == 2,
                SaveUserSettingsState::Bio(_) => k == 3,
                SaveUserSettingsState::DisplayName(_) => k == 4,
                SaveUserSettingsState::MatrixUserId(_) => k == 5,
                SaveUserSettingsState::Site(_) => k == 6 && request.email is Some,
                SaveUserSettingsState::VerificationEmail(_) => {
                    &&& k == 7 && begin == 8
                    &&& run.replies[6] matches Reply::Site(Ok(site))
                    &&& site.require_email_verification
                },
                SaveUserSettingsState::Email(_) => {
                    &&& k == 7 && begin == 8
                    &&& run.replies[6] matches Reply::Site(Ok(site))
                    &&& !site.require_email_verification
                },
                SaveUserSettingsState::DisplayNameCheck(_) => {
                    k == begin && gives_text(run.replies[4])
                },
                SaveUserSettingsState::MatrixIdCheck(_) => {
                    k == matrix && gives_text(run.replies[5])
                },
                SaveUserSettingsState::Time(_) => k == clock,
                SaveUserSettingsState::Person { .. } => k == clock + 1,
                SaveUserSettingsState::LocalUser => k == clock + 2,
                SaveUserSettingsState::Jwt => k == clock + 3,
            }
        },
        Step::Return(Ok(_)) => k == clock + 4,
        Step::Return(Err(_)) => true,
        Step::Abort(_) => false,
    }
}

proof fn lemma_placed(
    request: SaveUserSettings,
    context: Context,
    websocket_id: Option<ConnectionId>,
    run: Run<SaveUserSettingsState, LoginResponse>,
    k: int,
)
    requires
        run_of(request, context, websocket_id, run),
        0 <= k < run.steps.len(),
    ensures
        placed(request, run, k),
        on_record(request, run, k),
    decreases k,
{
    lemma_on_record(request, context, websocket_id, run, k);
    if k > 0 {
        lemma_placed(request, context, websocket_id, run, k - 1);
        assert(linked(run, context, k - 1));
    }
}

/// Saving begins with the user behind the token, then the columns of the person, one after the other.
/// Then, where the request has an address, the site is read: one that wants addresses confirmed has
/// a mail sent to the new address if the user had another one, and one that does not has the address
/// looked at like the other columns. After that the checks begin.
pub proof fn saving_begins(
    request: SaveUserSettings,
    context: Context,
    websocket_id: Option<ConnectionId>,
    run: Run<SaveUserSettingsState, LoginResponse>,
)
    requires
        run_of(request, context, websocket_id, run),
    ensures
        run.asks(0, Action::UserFromJwt { jwt: request.auth }),
        run.replies.len() > 0 ==> match run.replies[0] {
            Reply::User(Ok(_)) => run.asks(1, Action::OverwriteToUrl { value: request.avatar }),
            Reply::User(Err(fault)) => run.fails(1, fault, None),
            _ => false,
        },
        run.replies.len() > 1 ==> match run.replies[1] {
            Reply::Url(Ok(_)) => run.asks(2, Action::OverwriteToUrl { value: request.banner }),
            Reply::Url(Err(fault)) => run.fails(2, fault, None),
            _ => false,
        },
        run.replies.len() > 2 ==> match run.replies[2] {
            Reply::Url(Ok(_)) => run.asks(3, Action::Overwrite { value: request.bio }),
            Reply::Url(Err(fault)) => run.fails(3, fault, None),
            _ => false,
        },
        run.replies.len() > 3 ==> {
            &&& run.replies[3] is Text
            &&& run.asks(4, Action::Overwrite { value: request.display_name })
        },
        run.replies.len() > 4 ==> {
            &&& run.replies[4] is Text
            &&& run.asks(5, Action::Overwrite { value: request.matrix_user_id })
        },
        run.replies.len() > 5 ==> {
            &&& run.replies[5] is Text
            &&& request.email is Some ==> run.asks(6, Action::ReadSiteSimple)
            &&& request.email is None ==> checks(context, run, 6)
        },
        run.replies.len() > 6 && request.email is Some ==> match (run.replies[0], run.replies[6]) {
            (Reply::User(Ok(user)), Reply::Site(Ok(site))) => {
                let another = has_another_address(request, user);
                let confirms = site.require_email_verification;
                &&& confirms && another ==> run.asks(
                    7,
                    Action::SendVerificationEmail {
                        local_user_id: user.local_user.id,
                        email: request.email->0,
                        username: user.person.name,
                    },
                )
                &&& confirms && !another ==> checks(context, run, 7)
                &&& !confirms ==> run.asks(7, Action::Overwrite { value: request.email })
            },
            (Reply::User(Ok(_)), Reply::Site(Err(fault))) => run.fails(7, fault, None),
            _ => false,
        },
        run.replies.len() > 7 && request.email is Some ==> {
            let begin = checks_begin(request, run.replies);
            begin == 8 ==> match (run.replies[6], run.replies[7]) {
                (Reply::Site(Ok(site)), Reply::Checked(Ok(_))) => {
                    site.require_email_verification && checks(context, run, 8)
                },
                (Reply::Site(Ok(site)), Reply::Checked(Err(fault))) => {
                    site.require_email_verification && run.fails(8, fault, None)
                },
                (Reply::Site(Ok(site)), Reply::Text(_)) => {
                    !site.require_email_verification && checks(context, run, 8)
                },
                _ => false,
            }
        },
{
    let n = run.replies.len() as int;
    if n > 0 {
        assert(linked(run, context, 0));
    }
    if n > 1 {
        assert(linked(run, context, 1));
    }
    if n > 2 {
        assert(linked(run, context, 2));
    }
    if n > 3 {
        assert(linked(run, context, 3));
    }
    if n > 4 {
        assert(linked(run, context, 4));
    }
    if n > 5 {
        assert(linked(run, context, 5));
        lemma_placed(request, context, websocket_id, run, 5);
    }
    if n > 6 && request.email is Some {
        assert(linked(run, context, 6));
        lemma_placed(request, context, websocket_id, run, 6);
    }
    if n > 7 && request.email is Some {
        assert(linked(run, context, 7));
        lemma_placed(request, context, websocket_id, run, 7);
    }
}

/// A display name that was found invalid is refused, then a Matrix identifier that was. Then the clock
/// is read, and nothing else is looked at.
pub proof fn names_are_checked_in_turn(
    request: SaveUserSettings,
    context: Context,
    websocket_id: Option<ConnectionId>,
    run: Run<SaveUserSettingsState, LoginResponse>,
)
    requires
        run_of(request, context, websocket_id, run),
    ensures
        ({
            let begin = checks_begin(request, run.replies);
            let matrix = matrix_check(request, run.replies);
            let n = run.replies.len();
            &&& gives_text(run.replies[4]) && n > begin && n > 5 ==> match run.replies[begin] {
                Reply::Valid(true) => matrix_or_clock(run, begin + 1),
                Reply::Valid(false) => run.refuses(begin + 1, Message::InvalidUsername),
                _ => false,
            }
            &&& gives_text(run.replies[5]) && n > matrix && n > 5 ==> match run.replies[matrix] {
                Reply::Valid(true) => run.asks(matrix + 1, Action::Now),
                Reply::Valid(false) => run.refuses(matrix + 1, Message::InvalidMatrixId),
                _ => false,
            }
        }),
{
    let n = run.replies.len() as int;
    let begin = checks_begin(request, run.replies);
    let matrix = matrix_check(request, run.replies);
    if n > begin && n > 5 {
        lemma_placed(request, context, websocket_id, run, begin);
        assert(linked(run, context, begin));
    }
    if n > matrix && n > 5 {
        lemma_placed(request, context, websocket_id, run, matrix);
        assert(linked(run, context, matrix));
    }
}

/// Once the clock is read, the person is written, then the local user, then a token is signed for the
/// local user as it was written, with the server's secret and for its host, and handed out. A
/// statement that fails ends the request: under the message of an address that is taken where the
/// database says just that, and otherwise under that of a user who exists.
pub proof fn saving_ends(
    request: SaveUserSettings,
    context: Context,
    websocket_id: Option<ConnectionId>,
    run: Run<SaveUserSettingsState, LoginResponse>,
)
    requires
        run_of(request, context, websocket_id, run),
        run.replies.len() > 5,
    ensures
        ({
            let clock = clock_read(request, run.replies);
            let n = run.replies.len();
            &&& n > clock ==> {
                &&& run.replies[clock] is Time
                &&& run.steps[clock + 1] matches Step::Call(_, Action::UpdatePerson { .. })
            }
            &&& n > clock + 1 ==> match run.replies[clock + 1] {
                Reply::Checked(Ok(_)) => {
                    run.steps[clock + 2] matches Step::Call(_, Action::UpdateLocalUser { .. })
                },
                Reply::Checked(Err(fault)) => run.fails(
                    clock + 2,
                    fault,
                    Some(Message::UserAlreadyExists),
                ),
                _ => false,
            }
            &&& n > clock + 2 ==> match run.replies[clock + 2] {
                Reply::LocalUser(Ok(local_user)) => run.asks(
                    clock + 3,
                    Action::IssueJwt {
                        local_user_id: local_user.id.0,
                        jwt_secret: context.secret.jwt_secret,
                        hostname: context.settings.hostname,
                    },
                ),
                Reply::LocalUser(Err(fault)) => {
                    let text = match fault {
                        Fault::Refused(error) => error.text@,
                        Fault::Database(error) => error.text@,
                    };
                    let taken =
                        "duplicate key value violates unique constraint \"local_user_email_key\""@;
                    &&& text == taken ==> run.fails(
                        clock + 3,
                        fault,
                        Some(Message::EmailAlreadyExists),
                    )
                    &&& text != taken ==> run.fails(
                        clock + 3,
                        fault,
                        Some(Message::UserAlreadyExists),
                    )
                },
                _ => false,
            }
            &&& n > clock + 3 ==> match run.replies[clock + 3] {
                Reply::Jwt(Ok(jwt)) => run.responds(
                    clock + 4,
                    LoginResponse {
                        jwt: Some(jwt),
                        verify_email_sent: false,
                        registration_created: false,
                    },
                ),
                Reply::Jwt(Err(fault)) => run.fails(clock + 4, fault, None),
                _ => false,
            }
            &&& n <= clock + 4
        }),
{
    let n = run.replies.len() as int;
    let clock = clock_read(request, run.replies);
    if n > clock {
        lemma_placed(request, context, websocket_id, run, clock);
        assert(linked(run, context, clock));
    }
    if n > clock + 1 {
        lemma_placed(request, context, websocket_id, run, clock + 1);
        assert(linked(run, context, clock + 1));
    }
    if n > clock + 2 {
        lemma_placed(request, context, websocket_id, run, clock + 2);
        assert(linked(run, context, clock + 2));
    }
    if n > clock + 3 {
        lemma_placed(request, context, websocket_id, run, clock + 3);
        assert(linked(run, context, clock + 3));
    }
    if n > clock + 4 {
        lemma_placed(request, context, websocket_id, run, clock + 4);
        assert(linked(run, context, clock + 4));
    }
}

} // verus!
