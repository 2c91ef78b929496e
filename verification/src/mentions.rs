//! Reading the mentions of a person, and marking one as read.
use vstd::prelude::*;
use vstd::pervasive::unreached;

use crate::effect::{Action, Reply};
use crate::error::{LemmyError, Message};
use crate::machine::{Perform, Resume, Step};
use crate::model::{
    copy_text, ConnectionId, Context, PersonId, PersonMention, PersonMentionId, PersonMentionQuery,
    PersonMentionView, SortType,
};
use crate::run::{lemma_first_steps, run_of, Run};

verus! {

#[derive(Debug, PartialEq, Eq)]
pub struct GetPersonMentions {
    pub sort: Option<String>,
    pub page: Option<i64>,
    pub limit: Option<i64>,
    pub unread_only: Option<bool>,
    pub auth: String,
}

#[derive(Debug, PartialEq, Eq)]
pub struct GetPersonMentionsResponse {
    pub mentions: Vec<PersonMentionView>,
}

/// The requests for mentions that wait, by what they wait for.
pub enum GetPersonMentionsState {
    User(GetPersonMentions),
    Sort { data: GetPersonMentions, person_id: PersonId },
    Mentions,
}

/// What follows an outcome.
pub type GetPersonMentionsStep = Step<GetPersonMentionsState, GetPersonMentionsResponse>;

/// The mentions of a person, as that person sees them.
pub open spec fn mentions_of(
    data: GetPersonMentions,
    person_id: PersonId,
    sort: Option<SortType>,
) -> PersonMentionQuery {
    PersonMentionQuery {
        recipient_id: Some(person_id),
        my_person_id: Some(person_id),
        sort,
        unread_only: data.unread_only,
        page: data.page,
        limit: data.limit,
    }
}

impl GetPersonMentionsState {
    /// What the request does next, handed this outcome.
    pub open spec fn next(self, reply: Reply) -> GetPersonMentionsStep {
        match self {
            GetPersonMentionsState::User(data) => match reply->User_0 {
                Ok(user) => Step::Call(
                    GetPersonMentionsState::Sort { data, person_id: user.person.id },
                    Action::ParseSort { sort: data.sort },
                ),
                Err(fault) => Step::Return(Err(fault.as_it_is())),
            },
            GetPersonMentionsState::Sort { data, person_id } => Step::Call(
                GetPersonMentionsState::Mentions,
                Action::ListMentions { query: mentions_of(data, person_id, reply->Sort_0) },
            ),
            GetPersonMentionsState::Mentions => match reply->Mentions_0 {
                Ok(mentions) => Step::Return(Ok(GetPersonMentionsResponse { mentions })),
                Err(fault) => Step::Return(Err(fault.as_it_is())),
            },
        }
    }
}

impl Resume for GetPersonMentionsState {
    type Response = GetPersonMentionsResponse;

    open spec fn accepts(self, reply: Reply) -> bool {
        match self {
            GetPersonMentionsState::User(_) => reply is User,
            GetPersonMentionsState::Sort { .. } => reply is Sort,
            GetPersonMentionsState::Mentions => reply is Mentions,
        }
    }

    open spec fn leads_to(
        self,
        context: Context,
        reply: Reply,
        step: GetPersonMentionsStep,
    ) -> bool {
        step == self.next(reply)
    }

    open spec fn stages(self) -> nat {
        match self {
            GetPersonMentionsState::User(_) => 3,
            GetPersonMentionsState::Sort { .. } => 2,
            GetPersonMentionsState::Mentions => 1,
        }
    }

    open spec fn repeats(self) -> nat {
        0
    }

    proof fn progress(self, context: Context, reply: Reply, step: GetPersonMentionsStep) {
    }

    proof fn failure(self, context: Context, reply: Reply, step: GetPersonMentionsStep) {
    }

    fn resume(self, context: &Context, reply: Reply) -> (step: GetPersonMentionsStep) {
        match (self, reply) {
            (GetPersonMentionsState::User(data), Reply::User(found)) => match found {
                Ok(user) => {
                    let sort = copy_text(&data.sort);
                    Step::Call(
                        GetPersonMentionsState::Sort { data, person_id: user.person.id },
                        Action::ParseSort { sort },
                    )
                },
                Err(fault) => Step::Return(Err(fault.pass())),
            },
            (GetPersonMentionsState::Sort { data, person_id }, Reply::Sort(sort)) => {
                let query = PersonMentionQuery {
                    recipient_id: Some(person_id),
                    my_person_id: Some(person_id),
                    sort,
                    unread_only: data.unread_only,
                    page: data.page,
                    limit: data.limit,
                };
                Step::Call(GetPersonMentionsState::Mentions, Action::ListMentions { query })
            },
            (GetPersonMentionsState::Mentions, Reply::Mentions(listed)) => match listed {
                Ok(mentions) => Step::Return(Ok(GetPersonMentionsResponse { mentions })),
                Err(fault) => Step::Return(Err(fault.pass())),
            },
            _ => unreached(),
        }
    }
}

impl Perform for GetPersonMentions {
    type Response = GetPersonMentionsResponse;

    type State = GetPersonMentionsState;

    open spec fn begins_with(
        self,
        context: Context,
        websocket_id: Option<ConnectionId>,
        step: GetPersonMentionsStep,
    ) -> bool {
        step == GetPersonMentionsStep::Call(
            GetPersonMentionsState::User(self),
            Action::UserFromJwt { jwt: self.auth },
        )
    }

    proof fn prepared(
        self,
        context: Context,
        websocket_id: Option<ConnectionId>,
        step: GetPersonMentionsStep,
    ) {
    }

    fn perform(self, context: &Context, websocket_id: Option<ConnectionId>) -> (step:
        GetPersonMentionsStep) {
        let jwt = self.auth.clone();
        Step::Call(GetPersonMentionsState::User(self), Action::UserFromJwt { jwt })
    }
}

/// Reading mentions changes nothing that is stored, and sends no mail. The mentions that are asked
/// for are those of the user who asks.
pub proof fn only_own_mentions_are_listed(
    request: GetPersonMentions,
    context: Context,
    websocket_id: Option<ConnectionId>,
    run: Run<GetPersonMentionsState, GetPersonMentionsResponse>,
    i: int,
    action: Action,
)
    requires
        run_of(request, context, websocket_id, run),
        run.asks(i, action),
    ensures
        !action.writes(),
        !action.mails(),
        action matches Action::ListMentions { query } ==> {
            &&& run.replies[0] matches Reply::User(Ok(user))
            &&& run.replies[1] matches Reply::Sort(sort)
            &&& query == mentions_of(request, user.person.id, sort)
        },
{
    lemma_first_steps(request, context, websocket_id, run);
}

/// A request for mentions succeeds exactly where the token, then the list, can be read, and the
/// answer is what was listed.
pub proof fn mentions_are_answered(
    request: GetPersonMentions,
    context: Context,
    websocket_id: Option<ConnectionId>,
    run: Run<GetPersonMentionsState, GetPersonMentionsResponse>,
)
    requires
        run_of(request, context, websocket_id, run),
    ensures
        run.succeeds() <==> {
            &&& run.replies.len() == 3
            &&& run.replies[0] matches Reply::User(Ok(_))
            &&& run.replies[2] matches Reply::Mentions(Ok(_))
        },
        run.succeeds() ==> {
            &&& run.asks(0, Action::UserFromJwt { jwt: request.auth })
            &&& run.asks(1, Action::ParseSort { sort: request.sort })
            &&& run.asks(
                2,
                Action::ListMentions {
                    query: mentions_of(
                        request,
                        run.replies[0]->User_0->Ok_0.person.id,
                        run.replies[1]->Sort_0,
                    ),
                },
            )
            &&& run.answers(
                GetPersonMentionsResponse { mentions: run.replies[2]->Mentions_0->Ok_0 },
            )
        },
{
    lemma_first_steps(request, context, websocket_id, run);
}

#[derive(Debug, PartialEq, Eq)]
pub struct MarkPersonMentionAsRead {
    pub person_mention_id: PersonMentionId,
    pub read: bool,
    pub auth: String,
}

#[derive(Debug, PartialEq, Eq)]
pub struct PersonMentionResponse {
    pub person_mention_view: PersonMentionView,
}

/// The requests to mark a mention that wait, by what they wait for.
pub enum MarkPersonMentionAsReadState {
    User { person_mention_id: PersonMentionId, read: bool },
    Mention { read: bool, person_id: PersonId },
    Update { person_mention_id: PersonMentionId, person_id: PersonId },
    MentionView,
}

/// What follows an outcome.
pub type MarkPersonMentionAsReadStep = Step<MarkPersonMentionAsReadState, PersonMentionResponse>;

/// A mention was found: it is marked where it is of the person who asks.
pub open spec fn marking(
    mention: PersonMention,
    person_id: PersonId,
    read: bool,
) -> MarkPersonMentionAsReadStep {
    if mention.recipient_id == person_id {
        Step::Call(
            MarkPersonMentionAsReadState::Update { person_mention_id: mention.id, person_id },
            Action::SetMentionRead { person_mention_id: mention.id, read },
        )
    } else {
        Step::Return(Err(LemmyError::Message(Message::CouldntUpdateComment)))
    }
}

impl MarkPersonMentionAsReadState {
    /// What the request does next, handed this outcome.
    pub open spec fn next(self, reply: Reply) -> MarkPersonMentionAsReadStep {
        match self {
            MarkPersonMentionAsReadState::User { person_mention_id, read } => {
                match reply->User_0 {
                    Ok(user) => Step::Call(
                        MarkPersonMentionAsReadState::Mention { read, person_id: user.person.id },
                        Action::ReadMention { person_mention_id },
                    ),
                    Err(fault) => Step::Return(Err(fault.as_it_is())),
                }
            },
            MarkPersonMentionAsReadState::Mention { read, person_id } => match reply->Mention_0 {
                Ok(mention) => marking(mention, person_id, read),
                Err(fault) => Step::Return(Err(fault.as_it_is())),
            },
            MarkPersonMentionAsReadState::Update { person_mention_id, person_id } => {
                match reply->Checked_0 {
                    Ok(_) => Step::Call(
                        MarkPersonMentionAsReadState::MentionView,
                        Action::ReadMentionView {
                            person_mention_id,
                            my_person_id: Some(person_id),
                        },
                    ),
                    Err(fault) => Step::Return(
                        Err(fault.labelled(Message::CouldntUpdateComment)),
                    ),
                }
            },
            MarkPersonMentionAsReadState::MentionView => match reply->MentionView_0 {
                Ok(person_mention_view) => Step::Return(
                    Ok(PersonMentionResponse { person_mention_view }),
                ),
                Err(fault) => Step::Return(Err(fault.as_it_is())),
            },
        }
    }
}

impl Resume for MarkPersonMentionAsReadState {
    type Response = PersonMentionResponse;

    open spec fn accepts(self, reply: Reply) -> bool {
        match self {
            MarkPersonMentionAsReadState::User { .. } => reply is User,
            MarkPersonMentionAsReadState::Mention { .. } => reply is Mention,
            MarkPersonMentionAsReadState::Update { .. } => reply is Checked,
            MarkPersonMentionAsReadState::MentionView => reply is MentionView,
        }
    }

    open spec fn leads_to(
        self,
        context: Context,
        reply: Reply,
        step: MarkPersonMentionAsReadStep,
    ) -> bool {
        step == self.next(reply)
    }

    open spec fn stages(self) -> nat {
        match self {
            MarkPersonMentionAsReadState::User { .. } => 4,
            MarkPersonMentionAsReadState::Mention { .. } => 3,
            MarkPersonMentionAsReadState::Update { .. } => 2,
            MarkPersonMentionAsReadState::MentionView => 1,
        }
    }

    open spec fn repeats(self) -> nat {
        0
    }

    proof fn progress(self, context: Context, reply: Reply, step: MarkPersonMentionAsReadStep) {
    }

    proof fn failure(self, context: Context, reply: Reply, step: MarkPersonMentionAsReadStep) {
    }

    fn resume(self, context: &Context, reply: Reply) -> (step: MarkPersonMentionAsReadStep) {
        match (self, reply) {
            (
                MarkPersonMentionAsReadState::User { person_mention_id, read },
                Reply::User(found),
            ) => match found {
                Ok(user) => Step::Call(
                    MarkPersonMentionAsReadState::Mention { read, person_id: user.person.id },
                    Action::ReadMention { person_mention_id },
                ),
                Err(fault) => Step::Return(Err(fault.pass())),
            },
            (
                MarkPersonMentionAsReadState::Mention { read, person_id },
                Reply::Mention(found),
            ) => match found {
                Ok(mention) => {
                    if person_id != mention.recipient_id {
                        return Step::Return(
                            Err(LemmyError::Message(Message::CouldntUpdateComment)),
                        );
                    }
                    let person_mention_id = mention.id;
                    Step::Call(
                        MarkPersonMentionAsReadState::Update { person_mention_id, person_id },
                        Action::SetMentionRead { person_mention_id, read },
                    )
                },
                Err(fault) => Step::Return(Err(fault.pass())),
            },
            (
                MarkPersonMentionAsReadState::Update { person_mention_id, person_id },
                Reply::Checked(updated),
            ) => match updated {
                Ok(_) => Step::Call(
                    MarkPersonMentionAsReadState::MentionView,
                    Action::ReadMentionView { person_mention_id, my_person_id: Some(person_id) },
                ),
                Err(fault) => Step::Return(Err(fault.with_message(Message::CouldntUpdateComment))),
            },
            (MarkPersonMentionAsReadState::MentionView, Reply::MentionView(read)) => match read {
                Ok(person_mention_view) => Step::Return(
                    Ok(PersonMentionResponse { person_mention_view }),
                ),
                Err(fault) => Step::Return(Err(fault.pass())),
            },
            _ => unreached(),
        }
    }
}

impl Perform for MarkPersonMentionAsRead {
    type Response = PersonMentionResponse;

    type State = MarkPersonMentionAsReadState;

    open spec fn begins_with(
        self,
        context: Context,
        websocket_id: Option<ConnectionId>,
        step: MarkPersonMentionAsReadStep,
    ) -> bool {
        step == MarkPersonMentionAsReadStep::Call(
            MarkPersonMentionAsReadState::User {
                person_mention_id: self.person_mention_id,
                read: self.read,
            },
            Action::UserFromJwt { jwt: self.auth },
        )
    }

    proof fn prepared(
        self,
        context: Context,
        websocket_id: Option<ConnectionId>,
        step: MarkPersonMentionAsReadStep,
    ) {
    }

    fn perform(self, context: &Context, websocket_id: Option<ConnectionId>) -> (step:
        MarkPersonMentionAsReadStep) {
        Step::Call(
            MarkPersonMentionAsReadState::User {
                person_mention_id: self.person_mention_id,
                read: self.read,
            },
            Action::UserFromJwt { jwt: self.auth },
        )
    }
}

/// Nothing is written but the mark of a mention of the person who asks, and the mention is the one
/// that was found under the number in the request.
pub proof fn only_own_mentions_are_marked(
    request: MarkPersonMentionAsRead,
    context: Context,
    websocket_id: Option<ConnectionId>,
    run: Run<MarkPersonMentionAsReadState, PersonMentionResponse>,
    i: int,
    action: Action,
)
    requires
        run_of(request, context, websocket_id, run),
        run.asks(i, action),
        action.writes(),
    ensures
        i == 2,
        run.asks(0, Action::UserFromJwt { jwt: request.auth }),
        run.asks(1, Action::ReadMention { person_mention_id: request.person_mention_id }),
        ({
            &&& run.replies[0] matches Reply::User(Ok(user))
            &&& run.replies[1] matches Reply::Mention(Ok(mention))
            &&& mention.recipient_id == user.person.id
            &&& action == Action::SetMentionRead {
                person_mention_id: mention.id,
                read: request.read,
            }
        }),
{
    lemma_first_steps(request, context, websocket_id, run);
}

/// A mention of somebody else is refused as soon as it is found.
pub proof fn mention_of_another_is_refused(
    request: MarkPersonMentionAsRead,
    context: Context,
    websocket_id: Option<ConnectionId>,
    run: Run<MarkPersonMentionAsReadState, PersonMentionResponse>,
)
    requires
        run_of(request, context, websocket_id, run),
        run.replies.len() > 1,
        run.replies[1] matches Reply::Mention(Ok(mention)) && mention.recipient_id
            != run.replies[0]->User_0->Ok_0.person.id,
    ensures
        run.steps.len() == 3,
        run.steps[2] == MarkPersonMentionAsReadStep::Return(
            Err(LemmyError::Message(Message::CouldntUpdateComment)),
        ),
{
    lemma_first_steps(request, context, websocket_id, run);
}

/// A request to mark a mention succeeds exactly where nothing fails and the mention is of the
/// person who asks. The mention was then marked, and the answer shows it as read anew.
pub proof fn mention_is_marked(
    request: MarkPersonMentionAsRead,
    context: Context,
    websocket_id: Option<ConnectionId>,
    run: Run<MarkPersonMentionAsReadState, PersonMentionResponse>,
)
    requires
        run_of(request, context, websocket_id, run),
    ensures
        run.succeeds() <==> {
            &&& run.replies.len() == 4
            &&& run.replies[0] matches Reply::User(Ok(user))
            &&& run.replies[1] matches Reply::Mention(Ok(mention))
            &&& mention.recipient_id == user.person.id
            &&& run.replies[2] matches Reply::Checked(Ok(_))
            &&& run.replies[3] matches Reply::MentionView(Ok(_))
        },
        run.succeeds() ==> {
            let person_mention_id = run.replies[1]->Mention_0->Ok_0.id;
            let my_person_id = Some(run.replies[0]->User_0->Ok_0.person.id);
            &&& run.asks(0, Action::UserFromJwt { jwt: request.auth })
            &&& run.asks(1, Action::ReadMention { person_mention_id: request.person_mention_id })
            &&& run.passes(2, Action::SetMentionRead { person_mention_id, read: request.read })
            &&& run.asks(3, Action::ReadMentionView { person_mention_id, my_person_id })
            &&& run.answers(
                PersonMentionResponse {
                    person_mention_view: run.replies[3]->MentionView_0->Ok_0,
                },
            )
        },
{
    lemma_first_steps(request, context, websocket_id, run);
}

/// A request for mentions, outcome by outcome. The token finds who asks, the order in the request is
/// read, the mentions of who asks are listed as the request says, and the answer is the list.
pub proof fn mentions_outcome_by_outcome(
    request: GetPersonMentions,
    context: Context,
    websocket_id: Option<ConnectionId>,
    run: Run<GetPersonMentionsState, GetPersonMentionsResponse>,
)
    requires
        run_of(request, context, websocket_id, run),
    ensures
        run.asks(0, Action::UserFromJwt { jwt: request.auth }),
        run.replies.len() > 0 ==> match run.replies[0] {
            Reply::User(Ok(_)) => run.asks(1, Action::ParseSort { sort: request.sort }),
            Reply::User(Err(fault)) => run.fails(1, fault, None),
            _ => false,
        },
        run.replies.len() > 1 ==> match (run.replies[0], run.replies[1]) {
            (Reply::User(Ok(user)), Reply::Sort(sort)) => {
                &&& run.steps[2] matches Step::Call(_, Action::ListMentions { query })
                &&& query.sort == sort
                &&& query.unread_only == request.unread_only
                &&& query.page == request.page
                &&& query.limit == request.limit
                &&& query.recipient_id == Some(user.person.id)
                &&& query.my_person_id == Some(user.person.id)
            },
            _ => false,
        },
        run.replies.len() > 2 ==> match run.replies[2] {
            Reply::Mentions(Ok(mentions)) => run.responds(3, (GetPersonMentionsResponse { mentions })),
            Reply::Mentions(Err(fault)) => run.fails(3, fault, None),
            _ => false,
        },
        run.replies.len() <= 3,
{
    lemma_first_steps(request, context, websocket_id, run);
}

/// Whatever the request, the mentions that are listed are those of the user behind the token, as that
/// user sees them. The order, the page, its length and whether only unread mentions count are as the
/// request says.
pub proof fn each_criterion_of_mentions_is_as_requested(
    request: GetPersonMentions,
    context: Context,
    websocket_id: Option<ConnectionId>,
    run: Run<GetPersonMentionsState, GetPersonMentionsResponse>,
    i: int,
    query: PersonMentionQuery,
)
    requires
        run_of(request, context, websocket_id, run),
        run.asks(i, Action::ListMentions { query }),
    ensures
        run.asks(0, Action::UserFromJwt { jwt: request.auth }),
        run.asks(1, Action::ParseSort { sort: request.sort }),
        ({
            &&& run.replies[0] matches Reply::User(Ok(user))
            &&& run.replies[1] matches Reply::Sort(sort)
            &&& {
                &&& query.sort == sort
                &&& query.unread_only == request.unread_only
                &&& query.page == request.page
                &&& query.limit == request.limit
                &&& query.recipient_id == Some(user.person.id)
                &&& query.my_person_id == Some(user.person.id)
            }
        }),
{
    lemma_first_steps(request, context, websocket_id, run);
}

/// The marking of a mention, outcome by outcome. The token finds who asks, the mention in the request
/// is read and must be of who asks. It is then marked as the request says, and the answer shows it
/// as who asks sees it.
pub proof fn marking_outcome_by_outcome(
    request: MarkPersonMentionAsRead,
    context: Context,
    websocket_id: Option<ConnectionId>,
    run: Run<MarkPersonMentionAsReadState, PersonMentionResponse>,
)
    requires
        run_of(request, context, websocket_id, run),
    ensures
        run.asks(0, Action::UserFromJwt { jwt: request.auth }),
        run.replies.len() > 0 ==> match run.replies[0] {
            Reply::User(Ok(_)) => run.asks(
                1,
                Action::ReadMention { person_mention_id: request.person_mention_id },
            ),
            Reply::User(Err(fault)) => run.fails(1, fault, None),
            _ => false,
        },
        run.replies.len() > 1 ==> match (run.replies[0], run.replies[1]) {
            (Reply::User(Ok(user)), Reply::Mention(Ok(mention))) => {
                let own = mention.recipient_id == user.person.id;
                &&& !own ==> run.refuses(2, Message::CouldntUpdateComment)
                &&& own ==> run.asks(
                    2,
                    Action::SetMentionRead { person_mention_id: mention.id, read: request.read },
                )
            },
            (Reply::User(Ok(_)), Reply::Mention(Err(fault))) => run.fails(2, fault, None),
            _ => false,
        },
        run.replies.len() > 2 ==> match (run.replies[0], run.replies[1], run.replies[2]) {
            (Reply::User(Ok(user)), Reply::Mention(Ok(mention)), Reply::Checked(Ok(_))) => run.asks(
                3,
                Action::ReadMentionView {
                    person_mention_id: mention.id,
                    my_person_id: Some(user.person.id),
                },
            ),
            (Reply::User(Ok(_)), Reply::Mention(Ok(_)), Reply::Checked(Err(fault))) => run.fails(
                3,
                fault,
                Some(Message::CouldntUpdateComment),
            ),
            _ => false,
        },
        run.replies.len() > 3 ==> match run.replies[3] {
            Reply::MentionView(Ok(person_mention_view)) => run.responds(
                4,
                PersonMentionResponse { person_mention_view },
            ),
            Reply::MentionView(Err(fault)) => run.fails(4, fault, None),
            _ => false,
        },
        run.replies.len() <= 4,
{
    lemma_first_steps(request, context, websocket_id, run);
}

} // verus!
