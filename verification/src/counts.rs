//! Counting what waits for a person: reports to handle, messages to read.
use vstd::prelude::*;
use vstd::pervasive::unreached;

use crate::effect::{Action, Reply};
use crate::machine::{Perform, Resume, Step};
use crate::model::{CommunityId, ConnectionId, Context, PersonId};
use crate::run::{lemma_first_steps, run_of, Run};

verus! {

#[derive(Debug, PartialEq, Eq)]
pub struct GetReportCount {
    pub community_id: Option<CommunityId>,
    pub auth: String,
}

#[derive(Clone, Copy, Debug, PartialEq, Eq, Structural)]
pub struct GetReportCountResponse {
    pub community_id: Option<CommunityId>,
    pub comment_reports: i64,
    pub post_reports: i64,
}

/// The requests for counts of reports that wait, by what they wait for.
pub enum GetReportCountState {
    User { community_id: Option<CommunityId> },
    CommentReports { person_id: PersonId, admin: bool, community_id: Option<CommunityId> },
    PostReports { community_id: Option<CommunityId>, comment_reports: i64 },
}

/// What follows an outcome.
pub type GetReportCountStep = Step<GetReportCountState, GetReportCountResponse>;

impl GetReportCountState {
    /// What the request does next, handed this outcome.
    pub open spec fn next(self, reply: Reply) -> GetReportCountStep {
        match self {
            GetReportCountState::User { community_id } => match reply->User_0 {
                Ok(user) => {
                    let person_id = user.person.id;
                    let admin = user.person.admin;
                    Step::Call(
                        GetReportCountState::CommentReports { person_id, admin, community_id },
                        Action::CountCommentReports { person_id, admin, community_id },
                    )
                },
                Err(fault) => Step::Return(Err(fault.as_it_is())),
            },
            GetReportCountState::CommentReports { person_id, admin, community_id } => {
                match reply->Count_0 {
                    Ok(comment_reports) => Step::Call(
                        GetReportCountState::PostReports { community_id, comment_reports },
                        Action::CountPostReports { person_id, admin, community_id },
                    ),
                    Err(fault) => Step::Return(Err(fault.as_it_is())),
                }
            },
            GetReportCountState::PostReports { community_id, comment_reports } => {
                match reply->Count_0 {
                    Ok(post_reports) => Step::Return(
                        Ok(GetReportCountResponse { community_id, comment_reports, post_reports }),
                    ),
                    Err(fault) => Step::Return(Err(fault.as_it_is())),
                }
            },
        }
    }
}

impl Resume for GetReportCountState {
    type Response = GetReportCountResponse;

    open spec fn accepts(self, reply: Reply) -> bool {
        match self {
            GetReportCountState::User { .. } => reply is User,
            GetReportCountState::CommentReports { .. } => reply is Count,
            GetReportCountState::PostReports { .. } => reply is Count,
        }
    }

    open spec fn leads_to(self, context: Context, reply: Reply, step: GetReportCountStep) -> bool {
        step == self.next(reply)
    }

    open spec fn stages(self) -> nat {
        match self {
            GetReportCountState::User { .. } => 3,
            GetReportCountState::CommentReports { .. } => 2,
            GetReportCountState::PostReports { .. } => 1,
        }
    }

    open spec fn repeats(self) -> nat {
        0
    }

    proof fn progress(self, context: Context, reply: Reply, step: GetReportCountStep) {
    }

    proof fn failure(self, context: Context, reply: Reply, step: GetReportCountStep) {
    }

    fn resume(self, context: &Context, reply: Reply) -> (step: GetReportCountStep) {
        match (self, reply) {
            (GetReportCountState::User { community_id }, Reply::User(found)) => match found {
                Ok(user) => {
                    let person_id = user.person.id;
                    let admin = user.person.admin;
                    Step::Call(
                        GetReportCountState::CommentReports { person_id, admin, community_id },
                        Action::CountCommentReports { person_id, admin, community_id },
                    )
                },
                Err(fault) => Step::Return(Err(fault.pass())),
            },
            (
                GetReportCountState::CommentReports { person_id, admin, community_id },
                Reply::Count(counted),
            ) => match counted {
                Ok(comment_reports) => Step::Call(
                    GetReportCountState::PostReports { community_id, comment_reports },
                    Action::CountPostReports { person_id, admin, community_id },
                ),
                Err(fault) => Step::Return(Err(fault.pass())),
            },
            (
                GetReportCountState::PostReports { community_id, comment_reports },
                Reply::Count(counted),
            ) => match counted {
                Ok(post_reports) => Step::Return(
                    Ok(GetReportCountResponse { community_id, comment_reports, post_reports }),
                ),
                Err(fault) => Step::Return(Err(fault.pass())),
            },
            _ => unreached(),
        }
    }
}

impl Perform for GetReportCount {
    type Response = GetReportCountResponse;

    type State = GetReportCountState;

    open spec fn begins_with(
        self,
        context: Context,
        websocket_id: Option<ConnectionId>,
        step: GetReportCountStep,
    ) -> bool {
        step == GetReportCountStep::Call(
            GetReportCountState::User { community_id: self.community_id },
            Action::UserFromJwt { jwt: self.auth },
        )
    }

    proof fn prepared(
        self,
        context: Context,
        websocket_id: Option<ConnectionId>,
        step: GetReportCountStep,
    ) {
    }

    fn perform(self, context: &Context, websocket_id: Option<ConnectionId>) -> (step:
        GetReportCountStep) {
        Step::Call(
            GetReportCountState::User { community_id: self.community_id },
            Action::UserFromJwt { jwt: self.auth },
        )
    }
}

/// Counting reports changes nothing that is stored, and sends no mail. Reports are counted for the
/// user who asks, by whether that user is an administrator, in the community of the request.
pub proof fn reports_are_counted_for_who_asks(
    request: GetReportCount,
    context: Context,
    websocket_id: Option<ConnectionId>,
    run: Run<GetReportCountState, GetReportCountResponse>,
    i: int,
    action: Action,
)
    requires
        run_of(request, context, websocket_id, run),
        run.asks(i, action),
    ensures
        !action.writes(),
        !action.mails(),
        i > 0 ==> {
            &&& run.replies[0] matches Reply::User(Ok(user))
            &&& {
                let person_id = user.person.id;
                let admin = user.person.admin;
                let community_id = request.community_id;
                ||| action == Action::CountCommentReports { person_id, admin, community_id }
                ||| action == Action::CountPostReports { person_id, admin, community_id }
            }
        },
{
    lemma_first_steps(request, context, websocket_id, run);
}

/// A request succeeds exactly where the token and both counts can be read, and the answer holds
/// each count under its own name.
pub proof fn report_counts_are_answered(
    request: GetReportCount,
    context: Context,
    websocket_id: Option<ConnectionId>,
    run: Run<GetReportCountState, GetReportCountResponse>,
)
    requires
        run_of(request, context, websocket_id, run),
    ensures
        run.succeeds() <==> {
            &&& run.replies.len() == 3
            &&& run.replies[0] matches Reply::User(Ok(_))
            &&& run.replies[1] matches Reply::Count(Ok(_))
            &&& run.replies[2] matches Reply::Count(Ok(_))
        },
        run.succeeds() ==> {
            let person_id = run.replies[0]->User_0->Ok_0.person.id;
            let admin = run.replies[0]->User_0->Ok_0.person.admin;
            let community_id = request.community_id;
            &&& run.asks(0, Action::UserFromJwt { jwt: request.auth })
            &&& run.asks(1, Action::CountCommentReports { person_id, admin, community_id })
            &&& run.asks(2, Action::CountPostReports { person_id, admin, community_id })
            &&& run.answers(
                GetReportCountResponse {
                    community_id: request.community_id,
                    comment_reports: run.replies[1]->Count_0->Ok_0,
                    post_reports: run.replies[2]->Count_0->Ok_0,
                },
            )
        },
{
    lemma_first_steps(request, context, websocket_id, run);
}

#[derive(Debug, PartialEq, Eq)]
pub struct GetUnreadCount {
    pub auth: String,
}

#[derive(Clone, Copy, Debug, PartialEq, Eq, Structural)]
pub struct GetUnreadCountResponse {
    pub replies: i64,
    pub mentions: i64,
    pub private_messages: i64,
}

/// The requests for counts of messages that wait, by what they wait for.
pub enum GetUnreadCountState {
    User,
    Replies { person_id: PersonId },
    Mentions { person_id: PersonId, replies: i64 },
    PrivateMessages { replies: i64, mentions: i64 },
}

/// What follows an outcome.
pub type GetUnreadCountStep = Step<GetUnreadCountState, GetUnreadCountResponse>;

impl GetUnreadCountState {
    /// What the request does next, handed this outcome.
    pub open spec fn next(self, reply: Reply) -> GetUnreadCountStep {
        match self {
            GetUnreadCountState::User => match reply->User_0 {
                Ok(user) => Step::Call(
                    GetUnreadCountState::Replies { person_id: user.person.id },
                    Action::CountUnreadReplies { person_id: user.person.id },
                ),
                Err(fault) => Step::Return(Err(fault.as_it_is())),
            },
            GetUnreadCountState::Replies { person_id } => match reply->Count_0 {
                Ok(replies) => Step::Call(
                    GetUnreadCountState::Mentions { person_id, replies },
                    Action::CountUnreadMentions { person_id },
                ),
                Err(fault) => Step::Return(Err(fault.as_it_is())),
            },
            GetUnreadCountState::Mentions { person_id, replies } => match reply->Count_0 {
                Ok(mentions) => Step::Call(
                    GetUnreadCountState::PrivateMessages { replies, mentions },
                    Action::CountUnreadMessages { person_id },
                ),
                Err(fault) => Step::Return(Err(fault.as_it_is())),
            },
            GetUnreadCountState::PrivateMessages { replies, mentions } => match reply->Count_0 {
                Ok(private_messages) => Step::Return(
                    Ok(GetUnreadCountResponse { replies, mentions, private_messages }),
                ),
                Err(fault) => Step::Return(Err(fault.as_it_is())),
            },
        }
    }
}

impl Resume for GetUnreadCountState {
    type Response = GetUnreadCountResponse;

    open spec fn accepts(self, reply: Reply) -> bool {
        match self {
            GetUnreadCountState::User => reply is User,
            GetUnreadCountState::Replies { .. } => reply is Count,
            GetUnreadCountState::Mentions { .. } => reply is Count,
            GetUnreadCountState::PrivateMessages { .. } => reply is Count,
        }
    }

    open spec fn leads_to(self, context: Context, reply: Reply, step: GetUnreadCountStep) -> bool {
        step == self.next(reply)
    }

    open spec fn stages(self) -> nat {
        match self {
            GetUnreadCountState::User => 4,
            GetUnreadCountState::Replies { .. } => 3,
            GetUnreadCountState::Mentions { .. } => 2,
            GetUnreadCountState::PrivateMessages { .. } => 1,
        }
    }

    open spec fn repeats(self) -> nat {
        0
    }

    proof fn progress(self, context: Context, reply: Reply, step: GetUnreadCountStep) {
    }

    proof fn failure(self, context: Context, reply: Reply, step: GetUnreadCountStep) {
    }

    fn resume(self, context: &Context, reply: Reply) -> (step: GetUnreadCountStep) {
        match (self, reply) {
            (GetUnreadCountState::User, Reply::User(found)) => match found {
                Ok(user) => Step::Call(
                    GetUnreadCountState::Replies { person_id: user.person.id },
                    Action::CountUnreadReplies { person_id: user.person.id },
                ),
                Err(fault) => Step::Return(Err(fault.pass())),
            },
            (GetUnreadCountState::Replies { person_id }, Reply::Count(counted)) => match counted {
                Ok(replies) => Step::Call(
                    GetUnreadCountState::Mentions { person_id, replies },
                    Action::CountUnreadMentions { person_id },
                ),
                Err(fault) => Step::Return(Err(fault.pass())),
            },
            (
                GetUnreadCountState::Mentions { person_id, replies },
                Reply::Count(counted),
            ) => match counted {
                Ok(mentions) => Step::Call(
                    GetUnreadCountState::PrivateMessages { replies, mentions },
                    Action::CountUnreadMessages { person_id },
                ),
                Err(fault) => Step::Return(Err(fault.pass())),
            },
            (
                GetUnreadCountState::PrivateMessages { replies, mentions },
                Reply::Count(counted),
            ) => match counted {
                Ok(private_messages) => Step::Return(
                    Ok(GetUnreadCountResponse { replies, mentions, private_messages }),
                ),
                Err(fault) => Step::Return(Err(fault.pass())),
            },
            _ => unreached(),
        }
    }
}

impl Perform for GetUnreadCount {
    type Response = GetUnreadCountResponse;

    type State = GetUnreadCountState;

    open spec fn begins_with(
        self,
        context: Context,
        websocket_id: Option<ConnectionId>,
        step: GetUnreadCountStep,
    ) -> bool {
        step == GetUnreadCountStep::Call(
            GetUnreadCountState::User,
            Action::UserFromJwt { jwt: self.auth },
        )
    }

    proof fn prepared(
        self,
        context: Context,
        websocket_id: Option<ConnectionId>,
        step: GetUnreadCountStep,
    ) {
    }

    fn perform(self, context: &Context, websocket_id: Option<ConnectionId>) -> (step:
        GetUnreadCountStep) {
        Step::Call(GetUnreadCountState::User, Action::UserFromJwt { jwt: self.auth })
    }
}

/// Counting messages changes nothing that is stored, and sends no mail. They are counted for the
/// user who asks.
pub proof fn messages_are_counted_for_who_asks(
    request: GetUnreadCount,
    context: Context,
    websocket_id: Option<ConnectionId>,
    run: Run<GetUnreadCountState, GetUnreadCountResponse>,
    i: int,
    action: Action,
)
    requires
        run_of(request, context, websocket_id, run),
        run.asks(i, action),
    ensures
        !action.writes(),
        !action.mails(),
        i > 0 ==> {
            &&& run.replies[0] matches Reply::User(Ok(user))
            &&& {
                let person_id = user.person.id;
                ||| action == Action::CountUnreadReplies { person_id }
                ||| action == Action::CountUnreadMentions { person_id }
                ||| action == Action::CountUnreadMessages { person_id }
            }
        },
{
    lemma_first_steps(request, context, websocket_id, run);
}

/// A request succeeds exactly where the token and the three counts can be read, and the answer
/// holds each count under its own name.
pub proof fn unread_counts_are_answered(
    request: GetUnreadCount,
    context: Context,
    websocket_id: Option<ConnectionId>,
    run: Run<GetUnreadCountState, GetUnreadCountResponse>,
)
    requires
        run_of(request, context, websocket_id, run),
    ensures
        run.succeeds() <==> {
            &&& run.replies.len() == 4
            &&& run.replies[0] matches Reply::User(Ok(_))
            &&& run.replies[1] matches Reply::Count(Ok(_))
            &&& run.replies[2] matches Reply::Count(Ok(_))
            &&& run.replies[3] matches Reply::Count(Ok(_))
        },
        run.succeeds() ==> {
            let person_id = run.replies[0]->User_0->Ok_0.person.id;
            &&& run.asks(0, Action::UserFromJwt { jwt: request.auth })
            &&& run.asks(1, Action::CountUnreadReplies { person_id })
            &&& run.asks(2, Action::CountUnreadMentions { person_id })
            &&& run.asks(3, Action::CountUnreadMessages { person_id })
            &&& run.answers(
                GetUnreadCountResponse {
                    replies: run.replies[1]->Count_0->Ok_0,
                    mentions: run.replies[2]->Count_0->Ok_0,
                    private_messages: run.replies[3]->Count_0->Ok_0,
                },
            )
        },
{
    lemma_first_steps(request, context, websocket_id, run);
}

/// A count of reports, outcome by outcome: of comments, then of posts, both for who asks, as an
/// administrator or not, in the community of the request.
pub proof fn report_count_outcome_by_outcome(
    request: GetReportCount,
    context: Context,
    websocket_id: Option<ConnectionId>,
    run: Run<GetReportCountState, GetReportCountResponse>,
)
    requires
        run_of(request, context, websocket_id, run),
    ensures
        run.asks(0, Action::UserFromJwt { jwt: request.auth }),
        run.replies.len() > 0 ==> match run.replies[0] {
            Reply::User(Ok(user)) => run.asks(
                1,
                Action::CountCommentReports {
                    person_id: user.person.id,
                    admin: user.person.admin,
                    community_id: request.community_id,
                },
            ),
            Reply::User(Err(fault)) => run.fails(1, fault, None),
            _ => false,
        },
        run.replies.len() > 1 ==> match (run.replies[0], run.replies[1]) {
            (Reply::User(Ok(user)), Reply::Count(Ok(_))) => run.asks(
                2,
                Action::CountPostReports {
                    person_id: user.person.id,
                    admin: user.person.admin,
                    community_id: request.community_id,
                },
            ),
            (Reply::User(Ok(_)), Reply::Count(Err(fault))) => run.fails(2, fault, None),
            _ => false,
        },
        run.replies.len() > 2 ==> match (run.replies[1], run.replies[2]) {
            (Reply::Count(Ok(comments)), Reply::Count(Ok(posts))) => run.responds(
                3,
                GetReportCountResponse {
                    community_id: request.community_id,
                    comment_reports: comments,
                    post_reports: posts,
                },
            ),
            (Reply::Count(Ok(_)), Reply::Count(Err(fault))) => run.fails(3, fault, None),
            _ => false,
        },
        run.replies.len() <= 3,
{
    lemma_first_steps(request, context, websocket_id, run);
}

/// A count of messages, outcome by outcome: replies, then mentions, then private messages, all for
/// who asks.
pub proof fn unread_count_outcome_by_outcome(
    request: GetUnreadCount,
    context: Context,
    websocket_id: Option<ConnectionId>,
    run: Run<GetUnreadCountState, GetUnreadCountResponse>,
)
    requires
        run_of(request, context, websocket_id, run),
    ensures
        run.asks(0, Action::UserFromJwt { jwt: request.auth }),
        run.replies.len() > 0 ==> match run.replies[0] {
            Reply::User(Ok(user)) => run.asks(
                1,
                Action::CountUnreadReplies { person_id: user.person.id },
            ),
            Reply::User(Err(fault)) => run.fails(1, fault, None),
            _ => false,
        },
        run.replies.len() > 1 ==> match (run.replies[0], run.replies[1]) {
            (Reply::User(Ok(user)), Reply::Count(Ok(_))) => run.asks(
                2,
                Action::CountUnreadMentions { person_id: user.person.id },
            ),
            (Reply::User(Ok(_)), Reply::Count(Err(fault))) => run.fails(2, fault, None),
            _ => false,
        },
        run.replies.len() > 2 ==> match (run.replies[0], run.replies[2]) {
            (Reply::User(Ok(user)), Reply::Count(Ok(_))) => run.asks(
                3,
                Action::CountUnreadMessages { person_id: user.person.id },
            ),
            (Reply::User(Ok(_)), Reply::Count(Err(fault))) => run.fails(3, fault, None),
            _ => false,
        },
        run.replies.len() > 3 ==> match (run.replies[1], run.replies[2], run.replies[3]) {
            (Reply::Count(Ok(first)), Reply::Count(Ok(second)), Reply::Count(Ok(third))) => {
                run.responds(
                    4,
                    GetUnreadCountResponse {
                        replies: first,
                        mentions: second,
                        private_messages: third,
                    },
                )
            },
            (Reply::Count(Ok(_)), Reply::Count(Ok(_)), Reply::Count(Err(fault))) => run.fails(
                4,
                fault,
                None,
            ),
            _ => false,
        },
        run.replies.len() <= 4,
{
    lemma_first_steps(request, context, websocket_id, run);
}

} // verus!
