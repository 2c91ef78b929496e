//! What the requests read of the server's data, and what they write to it.
//!
//! A row holds the columns that some request reads. Where a row is handed on whole, `rest` carries
//! its other columns, in whatever encoding the server chose; no request looks into it.
use vstd::prelude::*;

verus! {

#[derive(Clone, Copy, Debug, PartialEq, Eq, Structural)]
pub struct PersonId(pub i32);

#[derive(Clone, Copy, Debug, PartialEq, Eq, Structural)]
pub struct LocalUserId(pub i32);

#[derive(Clone, Copy, Debug, PartialEq, Eq, Structural)]
pub struct CommunityId(pub i32);

#[derive(Clone, Copy, Debug, PartialEq, Eq, Structural)]
pub struct CommentId(pub i32);

#[derive(Clone, Copy, Debug, PartialEq, Eq, Structural)]
pub struct PersonMentionId(pub i32);

/// The websocket connection that a request came over.
#[derive(Clone, Copy, Debug, PartialEq, Eq, Structural)]
pub struct ConnectionId(pub usize);

/// A date and time without a time zone: seconds since the start of 1970, and nanoseconds since the
/// last whole second, which reach into a second billion during a leap second.
#[derive(Clone, Copy, Debug, PartialEq, Eq, Structural)]
pub struct NaiveDateTime {
    pub secs: i64,
    pub nanos: u32,
}

#[derive(Debug, PartialEq, Eq)]
pub struct CaptchaSettings {
    pub enabled: bool,
    pub difficulty: String,
}

#[derive(Debug, PartialEq, Eq)]
pub struct Settings {
    pub captcha: CaptchaSettings,
    pub actor_name_max_length: usize,
    pub hostname: String,
}

#[derive(Debug, PartialEq, Eq)]
pub struct Secret {
    pub jwt_secret: String,
}

/// What a server is configured with.
#[derive(Debug, PartialEq, Eq)]
pub struct Context {
    pub settings: Settings,
    pub secret: Secret,
}

#[derive(Debug, PartialEq, Eq)]
pub struct LocalUser {
    pub id: LocalUserId,
    pub email: Option<String>,
    pub password_encrypted: String,
    pub email_verified: bool,
    pub show_bot_accounts: bool,
}

#[derive(Debug, PartialEq, Eq)]
pub struct Person {
    pub id: PersonId,
    pub name: String,
    pub admin: bool,
    pub public_key: String,
}

/// A local user together with the person behind it.
#[derive(Debug, PartialEq, Eq)]
pub struct LocalUserView {
    pub local_user: LocalUser,
    pub person: Person,
    pub rest: String,
}

#[derive(Debug, PartialEq, Eq)]
pub struct Site {
    pub creator_id: PersonId,
    pub require_email_verification: bool,
    pub rest: String,
}

/// A person without the columns that are kept from others.
#[derive(Clone, Copy, Debug, PartialEq, Eq, Structural)]
pub struct PersonSafe {
    pub id: PersonId,
}

#[derive(Debug, PartialEq, Eq)]
pub struct PersonViewSafe {
    pub person: PersonSafe,
    pub rest: String,
}

#[derive(Clone, Copy, Debug, PartialEq, Eq, Structural)]
pub struct CommunitySafe {
    pub id: CommunityId,
}

#[derive(Clone, Copy, Debug, PartialEq, Eq, Structural)]
pub struct CommunityModeratorView {
    pub community: CommunitySafe,
    pub moderator: PersonSafe,
}

#[derive(Clone, Copy, Debug, PartialEq, Eq, Structural)]
pub struct Comment {
    pub id: CommentId,
}

#[derive(Debug, PartialEq, Eq)]
pub struct CommentView {
    pub comment: Comment,
    pub rest: String,
}

#[derive(Clone, Copy, Debug, PartialEq, Eq, Structural)]
pub struct PersonMention {
    pub id: PersonMentionId,
    pub recipient_id: PersonId,
}

#[derive(Debug, PartialEq, Eq)]
pub struct PersonMentionView {
    pub person_mention: PersonMention,
    pub rest: String,
}

/// A request to reset a password, by the local user it is for.
#[derive(Clone, Copy, Debug, PartialEq, Eq, Structural)]
pub struct PasswordResetRequest {
    pub local_user_id: LocalUserId,
}

/// A mail address that waits for its owner to confirm it.
#[derive(Debug, PartialEq, Eq)]
pub struct EmailVerification {
    pub local_user_id: LocalUserId,
    pub email: String,
}

/// An order in which to list, by its name.
#[derive(Debug, PartialEq, Eq)]
pub struct SortType(pub String);

/// A change to a person. A column is left alone where its value is `None`; a column that may be
/// empty is emptied by `Some(None)`.
#[derive(Debug, PartialEq, Eq)]
pub struct PersonForm {
    pub name: String,
    pub avatar: Option<Option<String>>,
    pub banner: Option<Option<String>>,
    pub inbox_url: Option<String>,
    pub display_name: Option<Option<String>>,
    pub published: Option<NaiveDateTime>,
    pub updated: Option<NaiveDateTime>,
    pub banned: Option<bool>,
    pub deleted: Option<bool>,
    pub actor_id: Option<String>,
    pub bio: Option<Option<String>>,
    pub local: Option<bool>,
    pub admin: Option<bool>,
    pub private_key: Option<Option<String>>,
    pub public_key: String,
    pub last_refreshed_at: Option<NaiveDateTime>,
    pub shared_inbox_url: Option<Option<String>>,
    pub matrix_user_id: Option<Option<String>>,
    pub bot_account: Option<bool>,
}

/// A change to a local user, with `None` as in [`PersonForm`].
#[derive(Debug, PartialEq, Eq)]
pub struct LocalUserForm {
    pub person_id: Option<PersonId>,
    pub email: Option<Option<String>>,
    pub password_encrypted: Option<String>,
    pub show_nsfw: Option<bool>,
    pub show_bot_accounts: Option<bool>,
    pub show_scores: Option<bool>,
    pub theme: Option<String>,
    pub default_sort_type: Option<i16>,
    pub default_listing_type: Option<i16>,
    pub lang: Option<String>,
    pub show_avatars: Option<bool>,
    pub show_read_posts: Option<bool>,
    pub show_new_post_notifs: Option<bool>,
    pub send_notifications_to_email: Option<bool>,
    pub email_verified: Option<bool>,
    pub accepted_application: Option<bool>,
}

/// An entry in the log of moderators: a person was made an administrator, or is one no longer.
#[derive(Clone, Copy, Debug, PartialEq, Eq, Structural)]
pub struct ModAddForm {
    pub mod_person_id: PersonId,
    pub other_person_id: PersonId,
    pub removed: Option<bool>,
}

/// An entry in the log of moderators: a person was banned, or is no longer.
#[derive(Debug, PartialEq, Eq)]
pub struct ModBanForm {
    pub mod_person_id: PersonId,
    pub other_person_id: PersonId,
    pub reason: Option<String>,
    pub banned: Option<bool>,
    pub expires: Option<NaiveDateTime>,
}

/// One person blocking another.
#[derive(Clone, Copy, Debug, PartialEq, Eq, Structural)]
pub struct PersonBlockForm {
    pub person_id: PersonId,
    pub target_id: PersonId,
}

/// Which comments to list, and how. A criterion that is `None` is not applied.
#[derive(Debug, PartialEq, Eq)]
pub struct CommentQuery {
    pub sort: Option<SortType>,
    pub unread_only: Option<bool>,
    pub recipient_id: Option<PersonId>,
    pub show_bot_accounts: Option<bool>,
    pub my_person_id: Option<PersonId>,
    pub page: Option<i64>,
    pub limit: Option<i64>,
}

/// Which mentions to list, and how. A criterion that is `None` is not applied.
#[derive(Debug, PartialEq, Eq)]
pub struct PersonMentionQuery {
    pub recipient_id: Option<PersonId>,
    pub my_person_id: Option<PersonId>,
    pub sort: Option<SortType>,
    pub unread_only: Option<bool>,
    pub page: Option<i64>,
    pub limit: Option<i64>,
}

/// A captcha that waits to be solved.
#[derive(Debug, PartialEq, Eq)]
pub struct CaptchaItem {
    pub answer: String,
    pub uuid: String,
    pub expires: NaiveDateTime,
}

#[derive(Debug, PartialEq, Eq)]
pub struct AddAdminResponse {
    pub admins: Vec<PersonViewSafe>,
}

#[derive(Debug, PartialEq, Eq)]
pub struct BanPersonResponse {
    pub person_view: PersonViewSafe,
    pub banned: bool,
}

/// The requests that everyone connected is told of.
#[derive(Clone, Copy, Debug, PartialEq, Eq, Structural)]
pub enum UserOperation {
    AddAdmin,
    BanPerson,
}

/// A response that goes out to everyone connected.
#[derive(Debug, PartialEq, Eq)]
pub struct SendAllMessage<R> {
    pub op: UserOperation,
    pub response: R,
    pub websocket_id: Option<ConnectionId>,
}

impl LocalUserForm {
    /// The change that leaves every column alone.
    pub open spec fn unchanged() -> LocalUserForm {
        LocalUserForm {
            person_id: None,
            email: None,
            password_encrypted: None,
            show_nsfw: None,
            show_bot_accounts: None,
            show_scores: None,
            theme: None,
            default_sort_type: None,
            default_listing_type: None,
            lang: None,
            show_avatars: None,
            show_read_posts: None,
            show_new_post_notifs: None,
            send_notifications_to_email: None,
            email_verified: None,
            accepted_application: None,
        }
    }
}

impl Default for LocalUserForm {
    fn default() -> (form: LocalUserForm)
        ensures
            form == LocalUserForm::unchanged(),
    {
        LocalUserForm {
            person_id: None,
            email: None,
            password_encrypted: None,
            show_nsfw: None,
            show_bot_accounts: None,
            show_scores: None,
            theme: None,
            default_sort_type: None,
            default_listing_type: None,
            lang: None,
            show_avatars: None,
            show_read_posts: None,
            show_new_post_notifs: None,
            send_notifications_to_email: None,
            email_verified: None,
            accepted_application: None,
        }
    }
}

impl Clone for PersonViewSafe {
    fn clone(&self) -> (copy: PersonViewSafe)
        ensures
            copy == *self,
    {
        PersonViewSafe { person: self.person, rest: self.rest.clone() }
    }
}

impl Clone for LocalUser {
    fn clone(&self) -> (copy: LocalUser)
        ensures
            copy == *self,
    {
        LocalUser {
            id: self.id,
            email: copy_text(&self.email),
            password_encrypted: self.password_encrypted.clone(),
            email_verified: self.email_verified,
            show_bot_accounts: self.show_bot_accounts,
        }
    }
}

impl Clone for Person {
    fn clone(&self) -> (copy: Person)
        ensures
            copy == *self,
    {
        Person {
            id: self.id,
            name: self.name.clone(),
            admin: self.admin,
            public_key: self.public_key.clone(),
        }
    }
}

impl Clone for LocalUserView {
    fn clone(&self) -> (copy: LocalUserView)
        ensures
            copy == *self,
    {
        LocalUserView {
            local_user: self.local_user.clone(),
            person: self.person.clone(),
            rest: self.rest.clone(),
        }
    }
}

pub(crate) fn copy_text(text: &Option<String>) -> (copy: Option<String>)
    ensures
        copy == *text,
{
    match text {
        Some(text) => Some(text.clone()),
        None => None,
    }
}

} // verus!
