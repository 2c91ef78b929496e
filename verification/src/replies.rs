//! Reading the replies to a person.
use vstd::prelude::*;
use vstd::pervasive::unreached;

use crate::effect::{Action, Reply};
use crate::machine::{Perform, Resume, Step};
use crate::model::{
    copy_text, CommentQuery, CommentView, ConnectionId, Context, LocalUserView, SortType,
};
use crate::run::{lemma_first_steps, run_of, Run};

verus! {

#[derive(Debug, PartialEq, Eq)]
pub struct GetReplies {
    pub sort: Option<String>,
    pub page: Option<i64>,
    pub limit: Option<i64>,
    pub unread_only: Option<bool>,
    pub auth: String,
}

#[derive(Debug, PartialEq, Eq)]
pub struct GetRepliesResponse {
    pub replies: Vec<CommentView>,
}

/// The requests that wait, by what they wait for.
pub enum GetRepliesState {
    User(GetReplies),
    Sort { data: GetReplies, user: LocalUserView },
    Replies,
}

/// What follows an outcome.
pub type GetRepliesStep = Step<GetRepliesState, GetRepliesResponse>;

/// The replies to the user behind a request, as that user sees them.
pub open spec fn replies_to(
    data: GetReplies,
    user: LocalUserView,
    sort: Option<SortType>,
) -> CommentQuery {
    CommentQuery {
        sort,
        unread_only: data.unread_only,
        recipient_id: Some(user.person.id),
        show_bot_accounts: Some(user.local_user.show_bot_accounts),
        my_person_id: Some(user.person.id),
        page: data.page,
        limit: data.limit,
    }
}

impl GetRepliesState {
    /// What the request does next, handed this outcome.
    pub open spec fn next(self, reply: Reply) -> GetRepliesStep {
        match self {
            GetRepliesState::User(data) => match reply->User_0 {
                Ok(user) => Step::Call(
                    GetRepliesState::Sort { data, user },
                    Action::ParseSort { sort: data.sort },
                ),
                Err(fault) => Step::Return(Err(fault.as_it_is())),
            },
            GetRepliesState::Sort { data, user } => Step::Call(
                GetRepliesState::Replies,
                Action::ListComments { query: replies_to(data, user, reply->Sort_0) },
            ),
            GetRepliesState::Replies => match reply->Comments_0 {
                Ok(replies) => Step::Return(Ok(GetRepliesResponse { replies })),
                Err(fault) => Step::Return(Err(fault.as_it_is())),
            },
        }
    }
}

impl Resume for GetRepliesState {
    type Response = GetRepliesResponse;

    open spec fn accepts(self, reply: Reply) -> bool {
        match self {
            GetRepliesState::User(_) => reply is User,
            GetRepliesState::Sort { .. } => reply is Sort,
            GetRepliesState::Replies => reply is Comments,
        }
    }

    open spec fn leads_to(self, context: Context, reply: Reply, step: GetRepliesStep) -> bool {
        step == self.next(reply)
    }

    open spec fn stages(self) -> nat {
        match self {
            GetRepliesState::User(_) => 3,
            GetRepliesState::Sort { .. } => 2,
            GetRepliesState::Replies => 1,
        }
    }

    open spec fn repeats(self) -> nat {
        0
    }

    proof fn progress(self, context: Context, reply: Reply, step: GetRepliesStep) {
    }

    proof fn failure(self, context: Context, reply: Reply, step: GetRepliesStep) {
    }

    fn resume(self, context: &Context, reply: Reply) -> (step: GetRepliesStep) {
        match (self, reply) {
            (GetRepliesState::User(data), Reply::User(found)) => match found {
                Ok(user) => {
                    let sort = copy_text(&data.sort);
                    Step::Call(GetRepliesState::Sort { data, user }, Action::ParseSort { sort })
                },
                Err(fault) => Step::Return(Err(fault.pass())),
            },
            (GetRepliesState::Sort { data, user }, Reply::Sort(sort)) => {
                let query = CommentQuery {
                    sort,
                    unread_only: data.unread_only,
                    recipient_id: Some(user.person.id),
                    show_bot_accounts: Some(user.local_user.show_bot_accounts),
                    my_person_id: Some(user.person.id),
                    page: data.page,
                    limit: data.limit,
                };
                Step::Call(GetRepliesState::Replies, Action::ListComments { query })
            },
            (GetRepliesState::Replies, Reply::Comments(listed)) => match listed {
                Ok(replies) => Step::Return(Ok(GetRepliesResponse { replies })),
                Err(fault) => Step::Return(Err(fault.pass())),
            },
            _ => unreached(),
        }
    }
}

impl Perform for GetReplies {
    type Response = GetRepliesResponse;

    type State = GetRepliesState;

    open spec fn begins_with(
        self,
        context: Context,
        websocket_id: Option<ConnectionId>,
        step: GetRepliesStep,
    ) -> bool {
        step == GetRepliesStep::Call(
            GetRepliesState::User(self),
            Action::UserFromJwt { jwt: self.auth },
        )
    }

    proof fn prepared(
        self,
        context: Context,
        websocket_id: Option<ConnectionId>,
        step: GetRepliesStep,
    ) {
    }

    fn perform(self, context: &Context, websocket_id: Option<ConnectionId>) -> (step:
        GetRepliesStep) {
        let jwt = self.auth.clone();
        Step::Call(GetRepliesState::User(self), Action::UserFromJwt { jwt })
    }
}

/// Reading replies changes nothing that is stored, and sends no mail. The comments that are asked
/// for are those addressed to the user who asks.
pub proof fn only_own_replies_are_listed(
    request: GetReplies,
    context: Context,
    websocket_id: Option<ConnectionId>,
    run: Run<GetRepliesState, GetRepliesResponse>,
    i: int,
    action: Action,
)
    requires
        run_of(request, context, websocket_id, run),
        run.asks(i, action),
    ensures
        !action.writes(),
        !action.mails(),
        action matches Action::ListComments { query } ==> {
            &&& run.replies[0] matches Reply::User(Ok(user))
            &&& run.replies[1] matches Reply::Sort(sort)
            &&& query == replies_to(request, user, sort)
        },
{
    lemma_first_steps(request, context, websocket_id, run);
}

/// A request succeeds exactly where the token, then the list, can be read, and the answer is what
/// was listed.
pub proof fn replies_are_answered(
    request: GetReplies,
    context: Context,
    websocket_id: Option<ConnectionId>,
    run: Run<GetRepliesState, GetRepliesResponse>,
)
    requires
        run_of(request, context, websocket_id, run),
    ensures
        run.succeeds() <==> {
            &&& run.replies.len() == 3
            &&& run.replies[0] matches Reply::User(Ok(_))
            &&& run.replies[2] matches Reply::Comments(Ok(_))
        },
        run.succeeds() ==> {
            &&& run.asks(0, Action::UserFromJwt { jwt: request.auth })
            &&& run.asks(1, Action::ParseSort { sort: request.sort })
            &&& run.asks(
                2,
                Action::ListComments {
                    query: replies_to(
                        request,
                        run.replies[0]->User_0->Ok_0,
                        run.replies[1]->Sort_0,
                    ),
                },
            )
            &&& run.answers(GetRepliesResponse { replies: run.replies[2]->Comments_0->Ok_0 })
        },
{
    lemma_first_steps(request, context, websocket_id, run);
}

/// A request for replies, outcome by outcome. The token finds who asks, the order in the request is
/// read, the replies to who asks are listed as the request says, and the answer is the list.
pub proof fn replies_outcome_by_outcome(
    request: GetReplies,
    context: Context,
    websocket_id: Option<ConnectionId>,
    run: Run<GetRepliesState, GetRepliesResponse>,
)
    requires
        run_of(request, context, websocket_id, run),
    ensures
        run.asks(0, Action::UserFromJwt { jwt: request.auth }),
        run.replies.len() > 0 ==> match run.replies[0] {
            Reply::User(Ok(_)) => run.asks(1, Action::ParseSort { sort: request.sort }),
            Reply::User(Err(fault)) => run.fails(1, fault, None),
            _ => false,
        },
        run.replies.len() > 1 ==> match (run.replies[0], run.replies[1]) {
            (Reply::User(Ok(user)), Reply::Sort(sort)) => {
                &&& run.steps[2] matches Step::Call(_, Action::ListComments { query })
                &&& query.sort == sort
                &&& query.unread_only == request.unread_only
                &&& query.page == request.page
                &&& query.limit == request.limit
                &&& query.recipient_id == Some(user.person.id)
                &&& query.my_person_id == Some(user.person.id)
                &&& query.show_bot_accounts == Some(user.local_user.show_bot_accounts)
            },
            _ => false,
        },
        run.replies.len() > 2 ==> match run.replies[2] {
            Reply::Comments(Ok(replies)) => run.responds(3, (GetRepliesResponse { replies })),
            Reply::Comments(Err(fault)) => run.fails(3, fault, None),
            _ => false,
        },
        run.replies.len() <= 3,
{
    lemma_first_steps(request, context, websocket_id, run);
}

/// Whatever the request, the replies that are listed are those to the user behind the token, as that
/// user sees them, with or without bots as that user has set. The order, the page, its length and
/// whether only unread replies count are as the request says.
pub proof fn each_criterion_of_replies_is_as_requested(
    request: GetReplies,
    context: Context,
    websocket_id: Option<ConnectionId>,
    run: Run<GetRepliesState, GetRepliesResponse>,
    i: int,
    query: CommentQuery,
)
    requires
        run_of(request, context, websocket_id, run),
        run.asks(i, Action::ListComments { query }),
    ensures
        run.asks(0, Action::UserFromJwt { jwt: request.auth }),
        run.asks(1, Action::ParseSort { sort: request.sort }),
        ({
            &&& run.replies[0] matches Reply::User(Ok(user))
            &&& run.replies[1] matches Reply::Sort(sort)
            &&& {
                &&& query.sort == sort
                &&& query.unread_only == request.unread_only
                &&& query.page == request.page
                &&& query.limit == request.limit
                &&& query.recipient_id == Some(user.person.id)
                &&& query.my_person_id == Some(user.person.id)
                &&& query.show_bot_accounts == Some(user.local_user.show_bot_accounts)
            }
        }),
{
    lemma_first_steps(request, context, websocket_id, run);
}

} // verus!
