//! Banning a person, and lifting the ban.
use vstd::prelude::*;
use vstd::pervasive::unreached;

use crate::effect::{Action, Reply};
use crate::error::Message;
use crate::machine::{Perform, Resume, Step};
use crate::model::{
    copy_text, BanPersonResponse, CommunityId, CommunityModeratorView, ConnectionId, Context,
    LocalUserView, ModBanForm, NaiveDateTime, PersonId, SendAllMessage, UserOperation,
};
use crate::run::{a_fault_ends_the_request, linked, run_of, Run};

verus! {

#[derive(Debug, PartialEq, Eq)]
pub struct BanPerson {
    pub person_id: PersonId,
    pub ban: bool,
    /// Remove what the person brought to the site, too.
    pub remove_data: Option<bool>,
    pub reason: Option<String>,
    /// When the ban ends, in seconds since the start of 1970.
    pub expires: Option<i64>,
    pub auth: String,
}

impl BanPerson {
    pub open spec fn removes_data(self) -> bool {
        self.remove_data == Some(true)
    }
}

/// A request, and who makes it.
#[derive(Debug, PartialEq, Eq)]
pub struct Ban {
    pub data: BanPerson,
    pub mod_person_id: PersonId,
    pub websocket_id: Option<ConnectionId>,
}

/// The requests that wait, by what they wait for.
pub enum BanPersonState {
    User { data: BanPerson, websocket_id: Option<ConnectionId> },
    AdminCheck(Ban),
    Banned(Ban),
    Posts(Ban),
    FirstModerators(Ban),
    /// The community at `done` is being removed, and those before it are.
    Community { ban: Ban, communities: Vec<CommunityId>, done: usize },
    Comments(Ban),
    Expiry(Ban),
    Log(Ban),
    PersonView(Ban),
    Announcement(BanPersonResponse),
}

/// What follows an outcome.
pub type BanPersonStep = Step<BanPersonState, BanPersonResponse>;

/// The communities that a person leads.
pub open spec fn led_by(moderators: Seq<CommunityModeratorView>, person_id: PersonId) -> Seq<
    CommunityId,
> {
    moderators.filter(|view: CommunityModeratorView| view.moderator.id == person_id).map_values(
        |view: CommunityModeratorView| view.community.id,
    )
}

/// Picks out the communities that a person leads, in the order of the list.
pub fn communities_led_by(
    moderators: &Vec<CommunityModeratorView>,
    person_id: PersonId,
) -> (communities: Vec<CommunityId>)
    ensures
        communities@ == led_by(moderators@, person_id),
{
    let ghost leads = |view: CommunityModeratorView| view.moderator.id == person_id;
    let ghost community = |view: CommunityModeratorView| view.community.id;
    let mut communities: Vec<CommunityId> = Vec::new();
    let mut i: usize = 0;
    assert(led_by(moderators@.take(0), person_id) =~= Seq::empty()) by {
        reveal(Seq::filter);
    }
    while i < moderators.len()
        invariant
            i <= moderators.len(),
            leads == (|view: CommunityModeratorView| view.moderator.id == person_id),
            community == (|view: CommunityModeratorView| view.community.id),
            communities@ == led_by(moderators@.take(i as int), person_id),
        decreases moderators.len() - i,
    {
        let view = moderators[i];
        proof {
            reveal(Seq::filter);
            let before = moderators@.take(i as int);
            let after = moderators@.take(i + 1);
            assert(after.drop_last() =~= before);
            assert(after.last() == view);
            assert(before.filter(leads).push(view).map_values(community) =~= before.filter(
                leads,
            ).map_values(community).push(view.community.id));
        }
        if view.moderator.id == person_id {
            communities.push(view.community.id);
        }
        i = i + 1;
    }
    assert(moderators@.take(moderators@.len() as int) =~= moderators@);
    communities
}

impl Ban {
    /// The next community is removed, or, after the last, the comments.
    pub open spec fn removal(self, communities: Vec<CommunityId>, done: int) -> BanPersonStep {
        if done < communities.len() {
            Step::Call(
                BanPersonState::Community { ban: self, communities, done: done as usize },
                Action::SetCommunityRemoved { community_id: communities@[done], removed: true },
            )
        } else {
            self.comments_removal()
        }
    }

    pub open spec fn comments_removal(self) -> BanPersonStep {
        Step::Call(
            BanPersonState::Comments(self),
            Action::SetCommentsRemoved { creator_id: self.data.person_id, removed: true },
        )
    }

    /// The log entry is prepared.
    pub open spec fn expiry(self) -> BanPersonStep {
        match self.data.expires {
            Some(seconds) => Step::Call(BanPersonState::Expiry(self), Action::FromUnix { seconds }),
            None => self.log(None),
        }
    }

    pub open spec fn log_entry(self, expires: Option<NaiveDateTime>) -> ModBanForm {
        ModBanForm {
            mod_person_id: self.mod_person_id,
            other_person_id: self.data.person_id,
            reason: self.data.reason,
            banned: Some(self.data.ban),
            expires,
        }
    }

    pub open spec fn log(self, expires: Option<NaiveDateTime>) -> BanPersonStep {
        Step::Call(
            BanPersonState::Log(self),
            Action::CreateModBan { form: self.log_entry(expires) },
        )
    }

    fn remove(self, communities: Vec<CommunityId>, done: usize) -> (step: BanPersonStep)
        ensures
            step == self.removal(communities, done as int),
    {
        if done < communities.len() {
            let community_id = communities[done];
            return Step::Call(
                BanPersonState::Community { ban: self, communities, done },
                Action::SetCommunityRemoved { community_id, removed: true },
            );
        }
        let creator_id = self.data.person_id;
        Step::Call(
            BanPersonState::Comments(self),
            Action::SetCommentsRemoved { creator_id, removed: true },
        )
    }

    fn expire(self) -> (step: BanPersonStep)
        ensures
            step == self.expiry(),
    {
        match self.data.expires {
            Some(seconds) => Step::Call(BanPersonState::Expiry(self), Action::FromUnix { seconds }),
            None => self.write_log(None),
        }
    }

    fn write_log(self, expires: Option<NaiveDateTime>) -> (step: BanPersonStep)
        ensures
            step == self.log(expires),
    {
        let form = ModBanForm {
            mod_person_id: self.mod_person_id,
            other_person_id: self.data.person_id,
            reason: copy_text(&self.data.reason),
            banned: Some(self.data.ban),
            expires,
        };
        Step::Call(BanPersonState::Log(self), Action::CreateModBan { form })
    }
}

impl Resume for BanPersonState {
    type Response = BanPersonResponse;

    open spec fn accepts(self, reply: Reply) -> bool {
        match self {
            BanPersonState::User { .. } => reply is User,
            BanPersonState::AdminCheck(_) => reply is Checked,
            BanPersonState::Banned(_) => reply is Checked,
            BanPersonState::Posts(_) => reply is Checked,
            BanPersonState::FirstModerators(_) => reply is FirstModerators,
            BanPersonState::Community { communities, done, .. } => {
                reply is Checked && done < communities.len()
            },
            BanPersonState::Comments(_) => reply is Checked,
            BanPersonState::Expiry(_) => reply is Time,
            BanPersonState::Log(_) => reply is Checked,
            BanPersonState::PersonView(_) => reply is PersonView,
            BanPersonState::Announcement(_) => reply is Sent,
        }
    }

    open spec fn leads_to(self, context: Context, reply: Reply, step: BanPersonStep) -> bool {
        match self {
            BanPersonState::User { data, websocket_id } => step == match reply->User_0 {
                Ok(user) => BanPersonStep::Call(
                    BanPersonState::AdminCheck(
                        Ban { data, mod_person_id: user.person.id, websocket_id },
                    ),
                    Action::CheckAdmin { user },
                ),
                Err(fault) => Step::Return(Err(fault.as_it_is())),
            },
            BanPersonState::AdminCheck(ban) => step == match reply->Checked_0 {
                Ok(_) => BanPersonStep::Call(
                    BanPersonState::Banned(ban),
                    Action::SetBanned { person_id: ban.data.person_id, banned: ban.data.ban },
                ),
                Err(fault) => Step::Return(Err(fault.as_it_is())),
            },
            BanPersonState::Banned(ban) => step == match reply->Checked_0 {
                Ok(_) => if ban.data.removes_data() {
                    BanPersonStep::Call(
                        BanPersonState::Posts(ban),
                        Action::SetPostsRemoved {
                            creator_id: ban.data.person_id,
                            community_id: None,
                            removed: true,
                        },
                    )
                } else {
                    ban.expiry()
                },
                Err(fault) => Step::Return(Err(fault.labelled(Message::CouldntUpdateUser))),
            },
            BanPersonState::Posts(ban) => step == match reply->Checked_0 {
                Ok(_) => BanPersonStep::Call(
                    BanPersonState::FirstModerators(ban),
                    Action::ListFirstModerators,
                ),
                Err(fault) => Step::Return(Err(fault.as_it_is())),
            },
            BanPersonState::FirstModerators(ban) => match reply->FirstModerators_0 {
                Ok(moderators) => {
                    let led = led_by(moderators@, ban.data.person_id);
                    if led.len() > 0 {
                        step matches Step::Call(
                            BanPersonState::Community { ban: same, communities, done },
                            action,
                        ) && {
                            &&& same == ban
                            &&& communities@ == led
                            &&& done == 0
                            &&& action == Action::SetCommunityRemoved {
                                community_id: led[0],
                                removed: true,
                            }
                        }
                    } else {
                        step == ban.comments_removal()
                    }
                },
                Err(fault) => step == BanPersonStep::Return(Err(fault.as_it_is())),
            },
            BanPersonState::Community { ban, communities, done } => step == match reply->Checked_0 {
                Ok(_) => ban.removal(communities, done + 1),
                Err(fault) => Step::Return(Err(fault.as_it_is())),
            },
            BanPersonState::Comments(ban) => step == match reply->Checked_0 {
                Ok(_) => ban.expiry(),
                Err(fault) => Step::Return(Err(fault.as_it_is())),
            },
            BanPersonState::Expiry(ban) => step == ban.log(Some(reply->Time_0)),
            BanPersonState::Log(ban) => step == match reply->Checked_0 {
                Ok(_) => BanPersonStep::Call(
                    BanPersonState::PersonView(ban),
                    Action::ReadPersonView { person_id: ban.data.person_id },
                ),
                Err(fault) => Step::Return(Err(fault.as_it_is())),
            },
            BanPersonState::PersonView(ban) => step == match reply->PersonView_0 {
                Ok(person_view) => {
                    let response = BanPersonResponse { person_view, banned: ban.data.ban };
                    BanPersonStep::Call(
                        BanPersonState::Announcement(response),
                        Action::AnnounceBan {
                            message: SendAllMessage {
                                op: UserOperation::BanPerson,
                                response,
                                websocket_id: ban.websocket_id,
                            },
                        },
                    )
                },
                Err(fault) => Step::Return(Err(fault.as_it_is())),
            },
            BanPersonState::Announcement(response) => step == BanPersonStep::Return(Ok(response)),
        }
    }

    open spec fn stages(self) -> nat {
        match self {
            BanPersonState::User { .. } => 11,
            BanPersonState::AdminCheck(_) => 10,
            BanPersonState::Banned(_) => 9,
            BanPersonState::Posts(_) => 8,
            BanPersonState::FirstModerators(_) => 7,
            BanPersonState::Community { .. } => 6,
            BanPersonState::Comments(_) => 5,
            BanPersonState::Expiry(_) => 4,
            BanPersonState::Log(_) => 3,
            BanPersonState::PersonView(_) => 2,
            BanPersonState::Announcement(_) => 1,
        }
    }

    open spec fn repeats(self) -> nat {
        match self {
            BanPersonState::Community { communities, done, .. } => (communities.len()
                - done) as nat,
            _ => 0,
        }
    }

    proof fn progress(self, context: Context, reply: Reply, step: BanPersonStep) {
    }

    proof fn failure(self, context: Context, reply: Reply, step: BanPersonStep) {
    }

    fn resume(self, context: &Context, reply: Reply) -> (step: BanPersonStep) {
        match (self, reply) {
            (BanPersonState::User { data, websocket_id }, Reply::User(found)) => match found {
                Ok(user) => {
                    let mod_person_id = user.person.id;
                    Step::Call(
                        BanPersonState::AdminCheck(Ban { data, mod_person_id, websocket_id }),
                        Action::CheckAdmin { user },
                    )
                },
                Err(fault) => Step::Return(Err(fault.pass())),
            },
            (BanPersonState::AdminCheck(ban), Reply::Checked(admin)) => match admin {
                Ok(_) => {
                    let person_id = ban.data.person_id;
                    let banned = ban.data.ban;
                    Step::Call(
                        BanPersonState::Banned(ban),
                        Action::SetBanned { person_id, banned },
                    )
                },
                Err(fault) => Step::Return(Err(fault.pass())),
            },
            (BanPersonState::Banned(ban), Reply::Checked(changed)) => match changed {
                Ok(_) => {
                    if ban.data.remove_data.unwrap_or(false) {
                        let creator_id = ban.data.person_id;
                        return Step::Call(
                            BanPersonState::Posts(ban),
                            Action::SetPostsRemoved {
                                creator_id,
                                community_id: None,
                                removed: true,
                            },
                        );
                    }
                    ban.expire()
                },
                Err(fault) => Step::Return(Err(fault.with_message(Message::CouldntUpdateUser))),
            },
            (BanPersonState::Posts(ban), Reply::Checked(removed)) => match removed {
                Ok(_) => Step::Call(
                    BanPersonState::FirstModerators(ban),
                    Action::ListFirstModerators,
                ),
                Err(fault) => Step::Return(Err(fault.pass())),
            },
            (BanPersonState::FirstModerators(ban), Reply::FirstModerators(listed)) => match listed {
                Ok(moderators) => {
                    let communities = communities_led_by(&moderators, ban.data.person_id);
                    ban.remove(communities, 0)
                },
                Err(fault) => Step::Return(Err(fault.pass())),
            },
            (
                BanPersonState::Community { ban, communities, done },
                Reply::Checked(removed),
            ) => match removed {
                Ok(_) => ban.remove(communities, done + 1),
                Err(fault) => Step::Return(Err(fault.pass())),
            },
            (BanPersonState::Comments(ban), Reply::Checked(removed)) => match removed {
                Ok(_) => ban.expire(),
                Err(fault) => Step::Return(Err(fault.pass())),
            },
            (BanPersonState::Expiry(ban), Reply::Time(expires)) => ban.write_log(Some(expires)),
            (BanPersonState::Log(ban), Reply::Checked(logged)) => match logged {
                Ok(_) => {
                    let person_id = ban.data.person_id;
                    Step::Call(
                        BanPersonState::PersonView(ban),
                        Action::ReadPersonView { person_id },
                    )
                },
                Err(fault) => Step::Return(Err(fault.pass())),
            },
            (BanPersonState::PersonView(ban), Reply::PersonView(read)) => match read {
                Ok(person_view) => {
                    let message = SendAllMessage {
                        op: UserOperation::BanPerson,
                        response: BanPersonResponse {
                            person_view: person_view.clone(),
                            banned: ban.data.ban,
                        },
                        websocket_id: ban.websocket_id,
                    };
                    Step::Call(
                        BanPersonState::Announcement(
                            BanPersonResponse { person_view, banned: ban.data.ban },
                        ),
                        Action::AnnounceBan { message },
                    )
                },
                Err(fault) => Step::Return(Err(fault.pass())),
            },
            (BanPersonState::Announcement(response), Reply::Sent) => Step::Return(Ok(response)),
            _ => unreached(),
        }
    }
}

impl Perform for BanPerson {
    type Response = BanPersonResponse;

    type State = BanPersonState;

    open spec fn begins_with(
        self,
        context: Context,
        websocket_id: Option<ConnectionId>,
        step: BanPersonStep,
    ) -> bool {
        step == BanPersonStep::Call(
            BanPersonState::User { data: self, websocket_id },
            Action::UserFromJwt { jwt: self.auth },
        )
    }

    proof fn prepared(
        self,
        context: Context,
        websocket_id: Option<ConnectionId>,
        step: BanPersonStep,
    ) {
    }

    fn perform(self, context: &Context, websocket_id: Option<ConnectionId>) -> (step:
        BanPersonStep) {
        let jwt = self.auth.clone();
        Step::Call(BanPersonState::User { data: self, websocket_id }, Action::UserFromJwt { jwt })
    }
}

/// The administrator's check on who makes the request was asked for, and passed.
pub open spec fn made_by_admin(run: Run<BanPersonState, BanPersonResponse>) -> bool {
    &&& run.replies[0] matches Reply::User(Ok(user)) && run.asks(1, Action::CheckAdmin { user })
    &&& run.replies[1] matches Reply::Checked(Ok(_))
}

/// The communities that the banned person leads, as they were listed.
pub open spec fn listed(request: BanPerson, run: Run<BanPersonState, BanPersonResponse>) -> Seq<
    CommunityId,
> {
    led_by(run.replies[4]->FirstModerators_0->Ok_0@, request.person_id)
}

/// The posts of the banned person were removed, then each of the first `count` communities that the
/// person leads, in the order in which they were listed.
pub open spec fn removed_up_to(
    request: BanPerson,
    run: Run<BanPersonState, BanPersonResponse>,
    count: int,
) -> bool {
    &&& run.passes(
        3,
        Action::SetPostsRemoved {
            creator_id: request.person_id,
            community_id: None,
            removed: true,
        },
    )
    &&& run.asks(4, Action::ListFirstModerators)
    &&& run.replies[4] matches Reply::FirstModerators(Ok(_))
    &&& forall|j: int|
        0 <= j < count ==> run.passes(
            5 + j,
            Action::SetCommunityRemoved {
                community_id: #[trigger] listed(request, run)[j],
                removed: true,
            },
        )
}

/// Everything that the banned person brought to the site was removed: posts, the communities that
/// the person leads, comments.
pub open spec fn data_removed(
    request: BanPerson,
    run: Run<BanPersonState, BanPersonResponse>,
) -> bool {
    let count = listed(request, run).len() as int;
    &&& removed_up_to(request, run, count)
    &&& run.passes(
        5 + count,
        Action::SetCommentsRemoved { creator_id: request.person_id, removed: true },
    )
}

/// The log entry at step `i` says who bans whom, why, which way and until when. The end of the ban
/// is that in the request, turned into a date and time one step before.
pub open spec fn logged_as(
    request: BanPerson,
    run: Run<BanPersonState, BanPersonResponse>,
    i: int,
    form: ModBanForm,
) -> bool {
    &&& run.replies[0] matches Reply::User(Ok(user)) && form.mod_person_id == user.person.id
    &&& form.other_person_id == request.person_id
    &&& form.reason == request.reason
    &&& form.banned == Some(request.ban)
    &&& match request.expires {
        Some(seconds) => {
            &&& run.asks(i - 1, Action::FromUnix { seconds })
            &&& form.expires matches Some(expires) && run.replies[i - 1] == Reply::Time(expires)
        },
        None => form.expires is None,
    }
}

spec fn on_record(
    request: BanPerson,
    websocket_id: Option<ConnectionId>,
    run: Run<BanPersonState, BanPersonResponse>,
    k: int,
) -> bool {
    let known = Ban {
        data: request,
        mod_person_id: run.replies[0]->User_0->Ok_0.person.id,
        websocket_id,
    };
    let count = listed(request, run).len() as int;
    match run.steps[k] {
        Step::Call(state, action) => match state {
            BanPersonState::User { data, websocket_id: origin } => {
                k == 0 && data == request && origin == websocket_id
            },
            BanPersonState::AdminCheck(ban) => {
                &&& k == 1 && ban == known
                &&& run.replies[0] matches Reply::User(Ok(user)) && action == Action::CheckAdmin {
                    user,
                }
            },
            BanPersonState::Banned(ban) => {
                &&& k == 2 && ban == known && made_by_admin(run)
                &&& action == Action::SetBanned {
                    person_id: request.person_id,
                    banned: request.ban,
                }
            },
            BanPersonState::Posts(ban) => {
                &&& k == 3 && ban == known && made_by_admin(run) && request.removes_data()
                &&& action == Action::SetPostsRemoved {
                    creator_id: request.person_id,
                    community_id: None,
                    removed: true,
                }
            },
            BanPersonState::FirstModerators(ban) => {
                &&& k == 4 && ban == known && made_by_admin(run) && request.removes_data()
                &&& run.passes(
                    3,
                    Action::SetPostsRemoved {
                        creator_id: request.person_id,
                        community_id: None,
                        removed: true,
                    },
                )
                &&& action == Action::ListFirstModerators
            },
            BanPersonState::Community { ban, communities, done } => {
                &&& k == 5 + done && ban == known && made_by_admin(run) && request.removes_data()
                &&& communities@ == listed(request, run) && done < count
                &&& removed_up_to(request, run, done as int)
                &&& action == Action::SetCommunityRemoved {
                    community_id: communities@[done as int],
                    removed: true,
                }
            },
            BanPersonState::Comments(ban) => {
                &&& k == 5 + count && ban == known && made_by_admin(run) && request.removes_data()
                &&& removed_up_to(request, run, count)
                &&& action == Action::SetCommentsRemoved {
                    creator_id: request.person_id,
                    removed: true,
                }
            },
            BanPersonState::Expiry(ban) => {
                &&& ban == known && made_by_admin(run)
                &&& request.removes_data() ==> data_removed(request, run)
                &&& request.expires matches Some(seconds) && action == Action::FromUnix { seconds }
            },
            BanPersonState::Log(ban) => {
                &&& ban == known && made_by_admin(run)
                &&& request.removes_data() ==> data_removed(request, run)
                &&& match request.expires {
                    Some(seconds) => {
                        &&& run.asks(k - 1, Action::FromUnix { seconds })
                        &&& run.replies[k - 1] matches Reply::Time(expires) && action
                            == Action::CreateModBan { form: known.log_entry(Some(expires)) }
                    },
                    None => action == Action::CreateModBan { form: known.log_entry(None) },
                }
            },
            BanPersonState::PersonView(ban) => {
                &&& ban == known && made_by_admin(run)
                &&& request.removes_data() ==> data_removed(request, run)
            },
            BanPersonState::Announcement(response) => {
                &&& made_by_admin(run)
                &&& request.removes_data() ==> data_removed(request, run)
                &&& response.banned == request.ban
            },
        },
        _ => true,
    }
}

proof fn lemma_on_record(
    request: BanPerson,
    context: Context,
    websocket_id: Option<ConnectionId>,
    run: Run<BanPersonState, BanPersonResponse>,
    k: int,
)
    requires
        run_of(request, context, websocket_id, run),
        0 <= k < run.steps.len(),
    ensures
        on_record(request, websocket_id, run, k),
    decreases k,
{
    if k > 0 {
        lemma_on_record(request, context, websocket_id, run, k - 1);
        assert(linked(run, context, k - 1));
        match run.steps[k - 1] {
            Step::Call(BanPersonState::Community { ban, communities, done }, action) => {
                if run.replies[k - 1]->Checked_0 is Ok {
                    assert(run.passes(5 + done, action));
                    assert(removed_up_to(request, run, done + 1));
                }
            },
            Step::Call(BanPersonState::Comments(_), action) => {
                if run.replies[k - 1]->Checked_0 is Ok {
                    assert(run.passes(k - 1, action));
                    assert(data_removed(request, run));
                }
            },
            _ => {},
        }
    }
}

/// Nobody but an administrator bans a person, lifts a ban, or removes anything by doing so.
pub proof fn only_admins_ban(
    request: BanPerson,
    context: Context,
    websocket_id: Option<ConnectionId>,
    run: Run<BanPersonState, BanPersonResponse>,
    i: int,
    action: Action,
)
    requires
        run_of(request, context, websocket_id, run),
        run.asks(i, action),
        action.writes(),
    ensures
        i >= 2,
        run.asks(0, Action::UserFromJwt { jwt: request.auth }),
        made_by_admin(run),
{
    lemma_on_record(request, context, websocket_id, run, i);
    if i > 0 {
        assert(linked(run, context, i - 1));
    }
}

/// What a ban writes is about the person in the request alone. Unless the request asks to remove
/// data, that is the ban and its log entry; if it does, posts, comments and the communities that
/// the person leads are removed, too, and no others.
pub proof fn ban_writes_no_more(
    request: BanPerson,
    context: Context,
    websocket_id: Option<ConnectionId>,
    run: Run<BanPersonState, BanPersonResponse>,
    i: int,
    action: Action,
)
    requires
        run_of(request, context, websocket_id, run),
        run.asks(i, action),
        action.writes(),
    ensures
        match action {
            Action::SetBanned { person_id, banned } => {
                person_id == request.person_id && banned == request.ban
            },
            Action::SetPostsRemoved { creator_id, community_id, removed } => {
                &&& request.removes_data()
                &&& creator_id == request.person_id && community_id is None && removed
            },
            Action::SetCommunityRemoved { community_id, removed } => {
                &&& request.removes_data()
                &&& listed(request, run).contains(community_id) && removed
            },
            Action::SetCommentsRemoved { creator_id, removed } => {
                &&& request.removes_data()
                &&& creator_id == request.person_id && removed
            },
            Action::CreateModBan { form } => logged_as(request, run, i, form),
            _ => false,
        },
{
    lemma_on_record(request, context, websocket_id, run, i);
    if i > 0 {
        assert(linked(run, context, i - 1));
    }
    match run.steps[i] {
        Step::Call(BanPersonState::Community { done, .. }, _) => {
            assert(listed(request, run)[done as int] == action->SetCommunityRemoved_community_id);
        },
        _ => {},
    }
}

/// A ban that succeeds was carried out and logged, everything was removed if the request asks for
/// that, and everyone connected was told what the answer says.
pub proof fn ban_is_carried_out(
    request: BanPerson,
    context: Context,
    websocket_id: Option<ConnectionId>,
    run: Run<BanPersonState, BanPersonResponse>,
)
    requires
        run_of(request, context, websocket_id, run),
        run.succeeds(),
    ensures
        ({
            let n = run.replies.len() as int;
            &&& run.asks(0, Action::UserFromJwt { jwt: request.auth })
            &&& made_by_admin(run)
            &&& run.passes(
                2,
                Action::SetBanned { person_id: request.person_id, banned: request.ban },
            )
            &&& request.removes_data() ==> data_removed(request, run)
            &&& n > 5
            &&& run.steps[n - 3] matches Step::Call(_, Action::CreateModBan { form }) && logged_as(
                request,
                run,
                n - 3,
                form,
            )
            &&& run.replies[n - 3] matches Reply::Checked(Ok(_))
            &&& run.asks(n - 2, Action::ReadPersonView { person_id: request.person_id })
            &&& run.replies[n - 2] matches Reply::PersonView(Ok(person_view)) && {
                let response = BanPersonResponse { person_view, banned: request.ban };
                &&& run.answers(response)
                &&& run.asks(
                    n - 1,
                    Action::AnnounceBan {
                        message: SendAllMessage {
                            op: UserOperation::BanPerson,
                            response,
                            websocket_id,
                        },
                    },
                )
            }
        }),
{
    let n = run.replies.len() as int;
    assert(n > 0);
    assert(linked(run, context, n - 1));
    lemma_on_record(request, context, websocket_id, run, n - 1);
    if n > 1 {
        assert(linked(run, context, n - 2));
        lemma_on_record(request, context, websocket_id, run, n - 2);
    }
    if n > 2 {
        assert(linked(run, context, n - 3));
        lemma_on_record(request, context, websocket_id, run, n - 3);
    }
    if n > 3 {
        assert(linked(run, context, n - 4));
        lemma_on_record(request, context, websocket_id, run, n - 4);
    }
    assert(linked(run, context, 0));
    assert(linked(run, context, 1));
    assert(linked(run, context, 2));
    assert(linked(run, context, 3));
}

/// A ban that comes to its end succeeds exactly where no work for it failed: a request to ban
/// refuses nothing by itself.
pub proof fn ban_refuses_nothing_by_itself(
    request: BanPerson,
    context: Context,
    websocket_id: Option<ConnectionId>,
    run: Run<BanPersonState, BanPersonResponse>,
)
    requires
        run_of(request, context, websocket_id, run),
        !(run.steps.last() is Call),
    ensures
        run.succeeds() <==> forall|i: int|
            0 <= i < run.replies.len() ==> (#[trigger] run.replies[i]).fault() is None,
{
    let n = run.replies.len() as int;
    assert(n > 0);
    assert(linked(run, context, n - 1));
    if run.succeeds() {
        assert forall|i: int| 0 <= i < n implies (#[trigger] run.replies[i]).fault() is None by {
            match run.replies[i].fault() {
                Some(fault) => {
                    a_fault_ends_the_request(request, context, websocket_id, run, i, fault);
                },
                None => {},
            }
        }
    } else {
        assert(run.replies[n - 1].fault() is Some);
    }
}

/// These are the positions, in order, of all entries of a list that name a person as the leader.
pub open spec fn led_at(
    moderators: Seq<CommunityModeratorView>,
    person_id: PersonId,
    positions: Seq<int>,
) -> bool {
    &&& forall|j: int|
        0 <= j < positions.len() ==> {
            &&& 0 <= #[trigger] positions[j] < moderators.len()
            &&& moderators[positions[j]].moderator.id == person_id
        }
    &&& forall|j: int, k: int|
        0 <= j < k < positions.len() ==> #[trigger] positions[j] < #[trigger] positions[k]
    &&& forall|i: int|
        0 <= i < moderators.len() && (#[trigger] moderators[i]).moderator.id == person_id
            ==> positions.contains(i)
}

/// The communities that a person leads are those of all entries that name the person as the leader,
/// and of no others, in the order of the list.
pub proof fn led_communities_are_those_listed(
    moderators: Seq<CommunityModeratorView>,
    person_id: PersonId,
) -> (positions: Seq<int>)
    ensures
        led_at(moderators, person_id, positions),
        led_by(moderators, person_id).len() == positions.len(),
        forall|j: int|
            0 <= j < positions.len() ==> #[trigger] led_by(moderators, person_id)[j]
                == moderators[positions[j]].community.id,
    decreases moderators.len(),
{
    reveal(Seq::filter);
    if moderators.len() == 0 {
        Seq::empty()
    } else {
        let last = moderators.len() - 1;
        let before = moderators.drop_last();
        let led = |view: CommunityModeratorView| view.moderator.id == person_id;
        let positions = led_communities_are_those_listed(before, person_id);
        assert forall|i: int| 0 <= i < last && (#[trigger] moderators[i]).moderator.id
            == person_id implies positions.contains(i) by {
            assert(before[i] == moderators[i]);
        }
        if moderators.last().moderator.id == person_id {
            let all = positions.push(last);
            assert(moderators.filter(led) =~= before.filter(led).push(moderators.last()));
            assert forall|i: int| 0 <= i < moderators.len() && (#[trigger] moderators[i]).moderator.id
                == person_id implies all.contains(i) by {
                if i < last {
                    let j = positions.index_of(i);
                    assert(all[j] == i);
                } else {
                    assert(all[positions.len() as int] == i);
                }
            }
            assert forall|j: int| 0 <= j < all.len() implies #[trigger] led_by(
                moderators,
                person_id,
            )[j] == moderators[all[j]].community.id by {
                if j < positions.len() {
                    assert(led_by(before, person_id)[j] == before[positions[j]].community.id);
                }
            }
            all
        } else {
            assert(moderators.filter(led) =~= before.filter(led));
            assert forall|j: int| 0 <= j < positions.len() implies #[trigger] led_by(
                moderators,
                person_id,
            )[j] == moderators[positions[j]].community.id by {
                assert(led_by(before, person_id)[j] == before[positions[j]].community.id);
            }
            positions
        }
    }
}

/// At step `k` the ban is logged: by whom, of whom, why, which way, and until when.
pub open spec fn logs(
    request: BanPerson,
    user: LocalUserView,
    run: Run<BanPersonState, BanPersonResponse>,
    k: int,
    expires: Option<NaiveDateTime>,
) -> bool {
    run.asks(
        k,
        Action::CreateModBan {
            form: ModBanForm {
                mod_person_id: user.person.id,
                other_person_id: request.person_id,
                reason: request.reason,
                banned: Some(request.ban),
                expires,
            },
        },
    )
}

/// At step `k` the end of the ban is turned into a date and time, if the request has one; otherwise
/// the ban is logged without.
pub open spec fn closes(
    request: BanPerson,
    user: LocalUserView,
    run: Run<BanPersonState, BanPersonResponse>,
    k: int,
) -> bool {
    match request.expires {
        Some(seconds) => run.asks(k, Action::FromUnix { seconds }),
        None => logs(request, user, run, k, None),
    }
}

/// The step at which a ban comes to its end: the one after the ban itself, or, where data is
/// removed, the one after the posts, the list, the communities on it that the person leads, and the
/// comments.
pub open spec fn closing_step(request: BanPerson, positions: Seq<int>) -> int {
    if request.remove_data == Some(true) {
        6 + positions.len() as int
    } else {
        3
    }
}

/// Where each state of a run has its place.
spec fn placed(
    request: BanPerson,
    websocket_id: Option<ConnectionId>,
    run: Run<BanPersonState, BanPersonResponse>,
    k: int,
) -> bool {
    let known = Ban {
        data: request,
        mod_person_id: run.replies[0]->User_0->Ok_0.person.id,
        websocket_id,
    };
    let removes = request.remove_data == Some(true);
    let led = listed(request, run);
    let closing = if removes {
        6 + led.len() as int
    } else {
        3
    };
    let log = if request.expires is Some {
        closing + 1
    } else {
        closing
    };
    &&& run.steps[k] is Call && k > 0 ==> (run.replies[0] matches Reply::User(Ok(_)))
    &&& run.steps[k] is Call && k > 4 && removes ==> (run.replies[4] matches Reply::FirstModerators(
        Ok(_),
    ))
    &&& match run.steps[k] {
        Step::Call(state, _) => match state {
            BanPersonState::User { data, websocket_id: origin } => {
                k == 0 && data == request && origin == websocket_id
            },
            BanPersonState::AdminCheck(ban) => k == 1 && ban == known,
            BanPersonState::Banned(ban) => k == 2 && ban == known,
            BanPersonState::Posts(ban) => k == 3 && ban == known && removes,
            BanPersonState::FirstModerators(ban) => k == 4 && ban == known && removes,
            BanPersonState::Community { ban, communities, done } => {
                &&& k == 5 + done && ban == known && removes
                &&& communities@ == led && done < led.len()
            },
            BanPersonState::Comments(ban) => k == 5 + led.len() && ban == known && removes,
            BanPersonState::Expiry(ban) => k == closing && ban == known && request.expires is Some,
            BanPersonState::Log(ban) => k == log && ban == known,
            BanPersonState::PersonView(ban) => k == log + 1 && ban == known,
            BanPersonState::Announcement(response) => {
                &&& k == log + 2 && response.banned == request.ban
                &&& run.replies[log + 1] == Reply::PersonView(Ok(response.person_view))
            },
        },
        Step::Return(Err(_)) => true,
        Step::Return(Ok(_)) => k == log + 3,
        Step::Abort(_) => false,
    }
}

proof fn lemma_placed(
    request: BanPerson,
    context: Context,
    websocket_id: Option<ConnectionId>,
    run: Run<BanPersonState, BanPersonResponse>,
    k: int,
)
    requires
        run_of(request, context, websocket_id, run),
        0 <= k < run.steps.len(),
    ensures
        placed(request, websocket_id, run, k),
    decreases k,
{
    if k > 0 {
        assert(linked(run, context, k - 1));
        lemma_placed(request, context, websocket_id, run, k - 1);
    }
}

/// A ban begins with the user behind the token, who must be an administrator. The person in the
/// request is banned, or the ban is lifted, as the request says. After that, and only where the
/// request asks to remove data, the posts of that person are removed in all communities.
pub proof fn ban_begins(
    request: BanPerson,
    context: Context,
    websocket_id: Option<ConnectionId>,
    run: Run<BanPersonState, BanPersonResponse>,
)
    requires
        run_of(request, context, websocket_id, run),
    ensures
        run.asks(0, Action::UserFromJwt { jwt: request.auth }),
        run.replies.len() > 0 ==> match run.replies[0] {
            Reply::User(Ok(user)) => run.asks(1, Action::CheckAdmin { user }),
            Reply::User(Err(fault)) => run.fails(1, fault, None),
            _ => false,
        },
        run.replies.len() > 1 ==> match run.replies[1] {
            Reply::Checked(Ok(_)) => run.asks(
                2,
                Action::SetBanned { person_id: request.person_id, banned: request.ban },
            ),
            Reply::Checked(Err(fault)) => run.fails(2, fault, None),
            _ => false,
        },
        run.replies.len() > 2 ==> match (run.replies[0], run.replies[2]) {
            (Reply::User(Ok(user)), Reply::Checked(Ok(_))) => {
                &&& request.remove_data == Some(true) ==> run.asks(
                    3,
                    Action::SetPostsRemoved {
                        creator_id: request.person_id,
                        community_id: None,
                        removed: true,
                    },
                )
                &&& request.remove_data != Some(true) ==> closes(request, user, run, 3)
            },
            (Reply::User(Ok(_)), Reply::Checked(Err(fault))) => run.fails(
                3,
                fault,
                Some(Message::CouldntUpdateUser),
            ),
            _ => false,
        },
{
    if run.replies.len() > 0 {
        assert(linked(run, context, 0));
    }
    if run.replies.len() > 1 {
        assert(linked(run, context, 1));
    }
    if run.replies.len() > 2 {
        assert(linked(run, context, 2));
    }
}

/// At step `5 + j` the community at the `j`th of these positions is removed, or, after the last, the
/// comments of the person in the request.
pub open spec fn removal_goes_on(
    request: BanPerson,
    run: Run<BanPersonState, BanPersonResponse>,
    moderators: Seq<CommunityModeratorView>,
    positions: Seq<int>,
    j: int,
) -> bool {
    if j < positions.len() {
        run.asks(
            5 + j,
            Action::SetCommunityRemoved {
                community_id: moderators[positions[j]].community.id,
                removed: true,
            },
        )
    } else {
        run.asks(
            5 + j,
            Action::SetCommentsRemoved { creator_id: request.person_id, removed: true },
        )
    }
}

/// Where a request asks to remove data, the removal of the posts is followed by the list of leaders,
/// that by the removal of each community on it that the person leads, in the order of the list, and
/// of the comments; then the ban comes to its end. A statement that fails ends the request.
pub proof fn data_is_removed_in_turn(
    request: BanPerson,
    context: Context,
    websocket_id: Option<ConnectionId>,
    run: Run<BanPersonState, BanPersonResponse>,
    j: int,
) -> (positions: Seq<int>)
    requires
        run_of(request, context, websocket_id, run),
        request.remove_data == Some(true),
    ensures
        run.replies.len() > 3 ==> match run.replies[3] {
            Reply::Checked(Ok(_)) => run.asks(4, Action::ListFirstModerators),
            Reply::Checked(Err(fault)) => run.fails(4, fault, None),
            _ => false,
        },
        run.replies.len() > 4 ==> match run.replies[4] {
            Reply::FirstModerators(Ok(moderators)) => {
                &&& led_at(moderators@, request.person_id, positions)
                &&& removal_goes_on(request, run, moderators@, positions, 0)
            },
            Reply::FirstModerators(Err(fault)) => run.fails(5, fault, None),
            _ => false,
        },
        0 <= j < positions.len() && run.replies.len() > 5 + j ==> match (
            run.replies[4],
            run.replies[5 + j],
        ) {
            (Reply::FirstModerators(Ok(moderators)), Reply::Checked(Ok(_))) => removal_goes_on(
                request,
                run,
                moderators@,
                positions,
                j + 1,
            ),
            (Reply::FirstModerators(Ok(_)), Reply::Checked(Err(fault))) => run.fails(
                6 + j,
                fault,
                None,
            ),
            _ => false,
        },
        run.replies.len() > 5 + positions.len() ==> match (
            run.replies[0],
            run.replies[5 + positions.len() as int],
        ) {
            (Reply::User(Ok(user)), Reply::Checked(Ok(_))) => closes(
                request,
                user,
                run,
                closing_step(request, positions),
            ),
            (Reply::User(Ok(_)), Reply::Checked(Err(fault))) => run.fails(
                closing_step(request, positions),
                fault,
                None,
            ),
            _ => false,
        },
{
    let n = run.replies.len() as int;
    let positions = led_communities_are_those_listed(
        run.replies[4]->FirstModerators_0->Ok_0@,
        request.person_id,
    );
    if n > 3 {
        lemma_placed(request, context, websocket_id, run, 3);
        assert(linked(run, context, 3));
    }
    if n > 4 {
        lemma_placed(request, context, websocket_id, run, 4);
        assert(linked(run, context, 4));
    }
    if 0 <= j < positions.len() && n > 5 + j {
        lemma_placed(request, context, websocket_id, run, 5 + j);
        assert(linked(run, context, 5 + j));
    }
    if n > 5 + positions.len() {
        lemma_placed(request, context, websocket_id, run, 5 + positions.len() as int);
        assert(linked(run, context, 5 + positions.len() as int));
    }
    positions
}

/// A ban comes to its end by being logged, with the end of the ban as a date and time where the
/// request has one. Then the person is read, everyone connected is told, and the answer says the
/// same. A statement that fails ends the request.
pub proof fn ban_ends(
    request: BanPerson,
    context: Context,
    websocket_id: Option<ConnectionId>,
    run: Run<BanPersonState, BanPersonResponse>,
) -> (positions: Seq<int>)
    requires
        run_of(request, context, websocket_id, run),
    ensures
        request.remove_data == Some(true) && run.replies.len() > 4 ==> {
            run.replies[4] matches Reply::FirstModerators(Ok(moderators)) ==> led_at(
                moderators@,
                request.person_id,
                positions,
            )
        },
        ({
            let closing = closing_step(request, positions);
            let log = if request.expires is Some {
                closing + 1
            } else {
                closing
            };
            let n = run.replies.len();
            &&& request.expires is Some && n > closing ==> {
                &&& run.replies[0] matches Reply::User(Ok(user))
                &&& run.replies[closing] matches Reply::Time(expires)
                &&& logs(request, user, run, closing + 1, Some(expires))
            }
            &&& n > log ==> match run.replies[log] {
                Reply::Checked(Ok(_)) => run.asks(
                    log + 1,
                    Action::ReadPersonView { person_id: request.person_id },
                ),
                Reply::Checked(Err(fault)) => run.fails(log + 1, fault, None),
                _ => false,
            }
            &&& n > log + 1 ==> match run.replies[log + 1] {
                Reply::PersonView(Ok(person_view)) => run.asks(
                    log + 2,
                    Action::AnnounceBan {
                        message: SendAllMessage {
                            op: UserOperation::BanPerson,
                            response: BanPersonResponse { person_view, banned: request.ban },
                            websocket_id,
                        },
                    },
                ),
                Reply::PersonView(Err(fault)) => run.fails(log + 2, fault, None),
                _ => false,
            }
            &&& n > log + 2 ==> {
                &&& run.replies[log + 2] is Sent
                &&& run.replies[log + 1] matches Reply::PersonView(Ok(person_view))
                &&& run.responds(
                    log + 3,
                    BanPersonResponse { person_view, banned: request.ban },
                )
            }
            &&& n <= log + 3
        }),
{
    let n = run.replies.len() as int;
    let positions = if request.remove_data == Some(true) {
        led_communities_are_those_listed(
            run.replies[4]->FirstModerators_0->Ok_0@,
            request.person_id,
        )
    } else {
        Seq::empty()
    };
    let closing = closing_step(request, positions);
    if n > closing {
        lemma_placed(request, context, websocket_id, run, closing);
        assert(linked(run, context, closing));
    }
    if n > closing + 1 {
        lemma_placed(request, context, websocket_id, run, closing + 1);
        assert(linked(run, context, closing + 1));
    }
    if n > closing + 2 {
        lemma_placed(request, context, websocket_id, run, closing + 2);
        assert(linked(run, context, closing + 2));
    }
    if n > closing + 3 {
        lemma_placed(request, context, websocket_id, run, closing + 3);
        assert(linked(run, context, closing + 3));
    }
    if n > closing + 4 {
        lemma_placed(request, context, websocket_id, run, closing + 4);
        assert(linked(run, context, closing + 4));
    }
    positions
}

/// A ban that succeeds has removed the posts of the person, each community that the person leads and
/// the comments, if the request says `remove_data: Some(true)`, whatever else it says. If it says
/// anything else, nothing is ever removed.
pub proof fn data_is_removed_exactly_on_request(
    request: BanPerson,
    context: Context,
    websocket_id: Option<ConnectionId>,
    run: Run<BanPersonState, BanPersonResponse>,
) -> (positions: Seq<int>)
    requires
        run_of(request, context, websocket_id, run),
    ensures
        request.remove_data == Some(true) && run.succeeds() ==> {
            &&& run.passes(
                3,
                Action::SetPostsRemoved {
                    creator_id: request.person_id,
                    community_id: None,
                    removed: true,
                },
            )
            &&& run.asks(4, Action::ListFirstModerators)
            &&& run.replies[4] matches Reply::FirstModerators(Ok(moderators))
            &&& led_at(moderators@, request.person_id, positions)
            &&& forall|j: int|
                0 <= j < positions.len() ==> run.passes(
                    5 + j,
                    Action::SetCommunityRemoved {
                        community_id: moderators@[#[trigger] positions[j]].community.id,
                        removed: true,
                    },
                )
            &&& run.passes(
                5 + positions.len() as int,
                Action::SetCommentsRemoved { creator_id: request.person_id, removed: true },
            )
        },
        request.remove_data != Some(true) ==> forall|i: int, action: Action|
            #[trigger] run.asks(i, action) ==> {
                &&& !(action is SetPostsRemoved)
                &&& !(action is SetCommunityRemoved)
                &&& !(action is SetCommentsRemoved)
            },
{
    if request.remove_data != Some(true) {
        assert forall|i: int, action: Action| #[trigger] run.asks(i, action) implies {
            &&& !(action is SetPostsRemoved)
            &&& !(action is SetCommunityRemoved)
            &&& !(action is SetCommentsRemoved)
        } by {
            lemma_placed(request, context, websocket_id, run, i);
            if i > 0 {
                assert(linked(run, context, i - 1));
            }
        }
        Seq::empty()
    } else if run.succeeds() {
        ban_is_carried_out(request, context, websocket_id, run);
        let moderators = run.replies[4]->FirstModerators_0->Ok_0@;
        let positions = led_communities_are_those_listed(moderators, request.person_id);
        assert forall|j: int| 0 <= j < positions.len() implies run.passes(
            5 + j,
            Action::SetCommunityRemoved {
                community_id: moderators[#[trigger] positions[j]].community.id,
                removed: true,
            },
        ) by {
            assert(listed(request, run)[j] == moderators[positions[j]].community.id);
        }
        positions
    } else {
        Seq::empty()
    }
}

} // verus!
