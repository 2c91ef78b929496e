//! The work that a request asks of its server, and the outcomes that the server hands back.
use vstd::prelude::*;

use crate::error::Fault;
use crate::model::{
    AddAdminResponse, BanPersonResponse, CaptchaItem, CommentId, CommentQuery, CommentView,
    CommunityId, CommunityModeratorView, EmailVerification, LocalUser, LocalUserForm, LocalUserId,
    LocalUserView, ModAddForm, ModBanForm, NaiveDateTime, PasswordResetRequest, Person,
    PersonBlockForm, PersonForm, PersonId, PersonMention, PersonMentionId, PersonMentionQuery,
    PersonMentionView, PersonViewSafe, SendAllMessage, Site, SortType,
};

verus! {

/// A piece of work.
#[allow(inconsistent_fields)]
pub enum Action {
    /// Find the local user with this name or mail address.
    FindUserByEmailOrName { username_or_email: String },
    /// Find the local user with this mail address.
    FindUserByEmail { email: String },
    /// Read the local user with this number.
    ReadUser { local_user_id: LocalUserId },
    /// Find the local user for whom this token was signed.
    UserFromJwt { jwt: String },
    /// Read the site.
    ReadSiteSimple,
    /// Read the site with this number.
    ReadSite { site_id: i32 },
    /// Check that the user may come in as far as the site's registration applications go.
    CheckRegistrationApplication { site: Site, user: LocalUserView },
    /// Check that the user is an administrator.
    CheckAdmin { user: LocalUserView },
    /// Check the length of a new password.
    CheckPasswordLength { password: String },
    /// Sign a token for the local user with this number.
    IssueJwt { local_user_id: i32, jwt_secret: String, hostname: String },
    /// Read the clock.
    Now,
    /// Turn a count of seconds since the start of 1970 into a date and time.
    FromUnix { seconds: i64 },
    /// Speak the letters of a captcha, as encoded audio.
    CaptchaWav { captcha: captcha::Captcha },
    /// Keep a captcha until it is solved or expires.
    StoreCaptcha { item: CaptchaItem },
    /// Tell what an optional text in a request means for the column it is about.
    Overwrite { value: Option<String> },
    /// Tell what an optional address in a request means for the column it is about.
    OverwriteToUrl { value: Option<String> },
    /// Mail a link to a new address, by which its owner confirms it.
    SendVerificationEmail { local_user_id: LocalUserId, email: String, username: String },
    /// Mail the user a token for choosing a new password.
    SendPasswordResetEmail { user: LocalUserView },
    /// Mail the user that the address is confirmed.
    SendEmailVerificationSuccess { user: LocalUserView },
    /// Tell whether this can be a display name.
    CheckDisplayName { name: String, max_length: usize },
    /// Tell whether this can be a Matrix identifier.
    CheckMatrixId { matrix_user_id: String },
    /// Change a person.
    UpdatePerson { person_id: PersonId, form: PersonForm },
    /// Change a local user.
    UpdateLocalUser { local_user_id: LocalUserId, form: LocalUserForm },
    /// Give a local user a new password.
    UpdatePassword { local_user_id: LocalUserId, password: String },
    /// Make a person an administrator, or no longer one.
    SetAdmin { person_id: PersonId, added: bool },
    /// Log that a person was made an administrator, or no longer one.
    CreateModAdd { form: ModAddForm },
    /// List the administrators.
    ListAdmins,
    /// Tell everyone connected who the administrators are.
    AnnounceAdmins { message: SendAllMessage<AddAdminResponse> },
    /// Ban a person, or lift the ban.
    SetBanned { person_id: PersonId, banned: bool },
    /// Mark the posts of a person as removed or not, in one community or in all.
    SetPostsRemoved { creator_id: PersonId, community_id: Option<CommunityId>, removed: bool },
    /// List each community with the moderator who leads it.
    ListFirstModerators,
    /// Mark a community as removed or not.
    SetCommunityRemoved { community_id: CommunityId, removed: bool },
    /// Mark the comments of a person as removed or not.
    SetCommentsRemoved { creator_id: PersonId, removed: bool },
    /// Log that a person was banned, or is no longer.
    CreateModBan { form: ModBanForm },
    /// Read a person, as others see it.
    ReadPersonView { person_id: PersonId },
    /// Tell everyone connected that a person was banned, or is no longer.
    AnnounceBan { message: SendAllMessage<BanPersonResponse> },
    /// Block one person for another.
    Block { form: PersonBlockForm },
    /// Lift the block of one person for another.
    Unblock { form: PersonBlockForm },
    /// Read the name of an order, if it is one.
    ParseSort { sort: Option<String> },
    /// List comments.
    ListComments { query: CommentQuery },
    /// List mentions.
    ListMentions { query: PersonMentionQuery },
    /// Read a mention.
    ReadMention { person_mention_id: PersonMentionId },
    /// Mark a mention as read or unread.
    SetMentionRead { person_mention_id: PersonMentionId, read: bool },
    /// Read a mention, as a person sees it.
    ReadMentionView { person_mention_id: PersonMentionId, my_person_id: Option<PersonId> },
    /// Mark a comment as read or unread.
    SetCommentRead { comment_id: CommentId, read: bool },
    /// Mark all mentions of a person as read.
    MarkMentionsRead { person_id: PersonId },
    /// Mark all private messages to a person as read.
    MarkPrivateMessagesRead { person_id: PersonId },
    /// Find the request to reset a password by its token.
    ReadResetRequest { token: String },
    /// Count the open reports of comments that a person may see.
    CountCommentReports { person_id: PersonId, admin: bool, community_id: Option<CommunityId> },
    /// Count the open reports of posts that a person may see.
    CountPostReports { person_id: PersonId, admin: bool, community_id: Option<CommunityId> },
    /// Count the replies that a person has not read.
    CountUnreadReplies { person_id: PersonId },
    /// Count the mentions that a person has not read.
    CountUnreadMentions { person_id: PersonId },
    /// Count the private messages that a person has not read.
    CountUnreadMessages { person_id: PersonId },
    /// Find a mail address that waits for confirmation by its token.
    ReadVerification { token: String },
    /// Forget the mail addresses of a local user that wait for confirmation.
    DeleteVerifications { local_user_id: LocalUserId },
}

/// The outcome of a piece of work.
pub enum Reply {
    User(Result<LocalUserView, Fault>),
    Site(Result<Site, Fault>),
    Checked(Result<(), Fault>),
    Jwt(Result<String, Fault>),
    Time(NaiveDateTime),
    Wav(String),
    Text(Option<Option<String>>),
    Url(Result<Option<Option<String>>, Fault>),
    Valid(bool),
    LocalUser(Result<LocalUser, Fault>),
    Person(Result<Person, Fault>),
    Admins(Result<Vec<PersonViewSafe>, Fault>),
    FirstModerators(Result<Vec<CommunityModeratorView>, Fault>),
    PersonView(Result<PersonViewSafe, Fault>),
    Sort(Option<SortType>),
    Comments(Result<Vec<CommentView>, Fault>),
    Mentions(Result<Vec<PersonMentionView>, Fault>),
    Mention(Result<PersonMention, Fault>),
    MentionView(Result<PersonMentionView, Fault>),
    Count(Result<i64, Fault>),
    ResetRequest(Result<PasswordResetRequest, Fault>),
    Verification(Result<EmailVerification, Fault>),
    Sent,
}

impl Action {
    /// Whether a reply is an outcome of this kind of work.
    pub open spec fn answered_by(self, reply: Reply) -> bool {
        match self {
            Action::FindUserByEmailOrName { .. } => reply is User,
            Action::FindUserByEmail { .. } => reply is User,
            Action::ReadUser { .. } => reply is User,
            Action::UserFromJwt { .. } => reply is User,
            Action::ReadSiteSimple => reply is Site,
            Action::ReadSite { .. } => reply is Site,
            Action::CheckRegistrationApplication { .. } => reply is Checked,
            Action::CheckAdmin { .. } => reply is Checked,
            Action::CheckPasswordLength { .. } => reply is Checked,
            Action::IssueJwt { .. } => reply is Jwt,
            Action::Now => reply is Time,
            Action::FromUnix { .. } => reply is Time,
            Action::CaptchaWav { .. } => reply is Wav,
            Action::StoreCaptcha { .. } => reply is Sent,
            Action::Overwrite { .. } => reply is Text,
            Action::OverwriteToUrl { .. } => reply is Url,
            Action::SendVerificationEmail { .. } => reply is Checked,
            Action::SendPasswordResetEmail { .. } => reply is Checked,
            Action::SendEmailVerificationSuccess { .. } => reply is Checked,
            Action::CheckDisplayName { .. } => reply is Valid,
            Action::CheckMatrixId { .. } => reply is Valid,
            Action::UpdatePerson { .. } => reply is Checked,
            Action::UpdateLocalUser { .. } => reply is LocalUser,
            Action::UpdatePassword { .. } => reply is LocalUser,
            Action::SetAdmin { .. } => reply is Person,
            Action::CreateModAdd { .. } => reply is Checked,
            Action::ListAdmins => reply is Admins,
            Action::AnnounceAdmins { .. } => reply is Sent,
            Action::SetBanned { .. } => reply is Checked,
            Action::SetPostsRemoved { .. } => reply is Checked,
            Action::ListFirstModerators => reply is FirstModerators,
            Action::SetCommunityRemoved { .. } => reply is Checked,
            Action::SetCommentsRemoved { .. } => reply is Checked,
            Action::CreateModBan { .. } => reply is Checked,
            Action::ReadPersonView { .. } => reply is PersonView,
            Action::AnnounceBan { .. } => reply is Sent,
            Action::Block { .. } => reply is Checked,
            Action::Unblock { .. } => reply is Checked,
            Action::ParseSort { .. } => reply is Sort,
            Action::ListComments { .. } => reply is Comments,
            Action::ListMentions { .. } => reply is Mentions,
            Action::ReadMention { .. } => reply is Mention,
            Action::SetMentionRead { .. } => reply is Checked,
            Action::ReadMentionView { .. } => reply is MentionView,
            Action::SetCommentRead { .. } => reply is Checked,
            Action::MarkMentionsRead { .. } => reply is Checked,
            Action::MarkPrivateMessagesRead { .. } => reply is Checked,
            Action::ReadResetRequest { .. } => reply is ResetRequest,
            Action::CountCommentReports { .. } => reply is Count,
            Action::CountPostReports { .. } => reply is Count,
            Action::CountUnreadReplies { .. } => reply is Count,
            Action::CountUnreadMentions { .. } => reply is Count,
            Action::CountUnreadMessages { .. } => reply is Count,
            Action::ReadVerification { .. } => reply is Verification,
            Action::DeleteVerifications { .. } => reply is Checked,
        }
    }

    /// Whether this changes what the server stores of persons, users, posts, comments and messages.
    /// The tokens that a mail sets up are not counted.
    pub open spec fn writes(self) -> bool {
        ||| self is UpdatePerson
        ||| self is UpdateLocalUser
        ||| self is UpdatePassword
        ||| self is SetAdmin
        ||| self is CreateModAdd
        ||| self is SetBanned
        ||| self is SetPostsRemoved
        ||| self is SetCommunityRemoved
        ||| self is SetCommentsRemoved
        ||| self is CreateModBan
        ||| self is Block
        ||| self is Unblock
        ||| self is SetMentionRead
        ||| self is SetCommentRead
        ||| self is MarkMentionsRead
        ||| self is MarkPrivateMessagesRead
        ||| self is DeleteVerifications
    }

    /// Whether this sends a mail.
    pub open spec fn mails(self) -> bool {
        ||| self is SendVerificationEmail
        ||| self is SendPasswordResetEmail
        ||| self is SendEmailVerificationSuccess
    }
}

impl Reply {
    /// Why the work failed, if it did.
    pub open spec fn fault(self) -> Option<Fault> {
        match self {
            Reply::User(Err(fault)) => Some(fault),
            Reply::Site(Err(fault)) => Some(fault),
            Reply::Checked(Err(fault)) => Some(fault),
            Reply::Jwt(Err(fault)) => Some(fault),
            Reply::Url(Err(fault)) => Some(fault),
            Reply::LocalUser(Err(fault)) => Some(fault),
            Reply::Person(Err(fault)) => Some(fault),
            Reply::Admins(Err(fault)) => Some(fault),
            Reply::FirstModerators(Err(fault)) => Some(fault),
            Reply::PersonView(Err(fault)) => Some(fault),
            Reply::Comments(Err(fault)) => Some(fault),
            Reply::Mentions(Err(fault)) => Some(fault),
            Reply::Mention(Err(fault)) => Some(fault),
            Reply::MentionView(Err(fault)) => Some(fault),
            Reply::Count(Err(fault)) => Some(fault),
            Reply::ResetRequest(Err(fault)) => Some(fault),
            Reply::Verification(Err(fault)) => Some(fault),
            _ => None,
        }
    }
}

} // verus!
