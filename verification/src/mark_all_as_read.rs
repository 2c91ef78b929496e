//! Marking everything that a person has not read as read.
use vstd::prelude::*;
use vstd::pervasive::unreached;

use crate::effect::{Action, Reply};
use crate::error::Message;
use crate::machine::{Perform, Resume, Step};
use crate::model::{CommentQuery, CommentView, ConnectionId, Context, LocalUserView, PersonId};
use crate::replies::GetRepliesResponse;
use crate::run::{a_fault_ends_the_request, lemma_first_steps, linked, run_of, Run};

verus! {

/// How many replies are marked at a time.
pub const LIMIT: i64 = 999;

#[derive(Debug, PartialEq, Eq)]
pub struct MarkAllAsRead {
    pub auth: String,
}

/// The requests that wait, by what they wait for.
pub enum MarkAllAsReadState {
    User,
    Replies { person_id: PersonId },
    /// The reply at `done` is being marked, and those before it are.
    Reply { person_id: PersonId, replies: Vec<CommentView>, done: usize },
    Mentions { person_id: PersonId },
    PrivateMessages,
}

/// What follows an outcome.
pub type MarkAllAsReadStep = Step<MarkAllAsReadState, GetRepliesResponse>;

/// The replies to a person that the person has not read.
pub open spec fn unread_replies(person_id: PersonId) -> CommentQuery {
    CommentQuery {
        sort: None,
        unread_only: Some(true),
        recipient_id: Some(person_id),
        show_bot_accounts: None,
        my_person_id: Some(person_id),
        page: Some(1),
        limit: Some(LIMIT),
    }
}

/// The next reply is marked, or, after the last, the mentions.
pub open spec fn marking(
    person_id: PersonId,
    replies: Vec<CommentView>,
    done: int,
) -> MarkAllAsReadStep {
    if done < replies.len() {
        Step::Call(
            MarkAllAsReadState::Reply { person_id, replies, done: done as usize },
            Action::SetCommentRead { comment_id: replies@[done].comment.id, read: true },
        )
    } else {
        Step::Call(
            MarkAllAsReadState::Mentions { person_id },
            Action::MarkMentionsRead { person_id },
        )
    }
}

fn mark(person_id: PersonId, replies: Vec<CommentView>, done: usize) -> (step: MarkAllAsReadStep)
    ensures
        step == marking(person_id, replies, done as int),
{
    if done < replies.len() {
        let comment_id = replies[done].comment.id;
        return Step::Call(
            MarkAllAsReadState::Reply { person_id, replies, done },
            Action::SetCommentRead { comment_id, read: true },
        );
    }
    Step::Call(MarkAllAsReadState::Mentions { person_id }, Action::MarkMentionsRead { person_id })
}

impl Resume for MarkAllAsReadState {
    type Response = GetRepliesResponse;

    open spec fn accepts(self, reply: Reply) -> bool {
        match self {
            MarkAllAsReadState::User => reply is User,
            MarkAllAsReadState::Replies { .. } => reply is Comments,
            MarkAllAsReadState::Reply { replies, done, .. } => {
                reply is Checked && done < replies.len()
            },
            MarkAllAsReadState::Mentions { .. } => reply is Checked,
            MarkAllAsReadState::PrivateMessages => reply is Checked,
        }
    }

    open spec fn leads_to(self, context: Context, reply: Reply, step: MarkAllAsReadStep) -> bool {
        match self {
            MarkAllAsReadState::User => step == match reply->User_0 {
                Ok(user) => MarkAllAsReadStep::Call(
                    MarkAllAsReadState::Replies { person_id: user.person.id },
                    Action::ListComments { query: unread_replies(user.person.id) },
                ),
                Err(fault) => Step::Return(Err(fault.as_it_is())),
            },
            MarkAllAsReadState::Replies { person_id } => step == match reply->Comments_0 {
                Ok(replies) => marking(person_id, replies, 0),
                Err(fault) => Step::Return(Err(fault.as_it_is())),
            },
            MarkAllAsReadState::Reply { person_id, replies, done } => {
                step == match reply->Checked_0 {
                    Ok(_) => marking(person_id, replies, done + 1),
                    Err(fault) => Step::Return(
                        Err(fault.labelled(Message::CouldntUpdateComment)),
                    ),
                }
            },
            MarkAllAsReadState::Mentions { person_id } => step == match reply->Checked_0 {
                Ok(_) => MarkAllAsReadStep::Call(
                    MarkAllAsReadState::PrivateMessages,
                    Action::MarkPrivateMessagesRead { person_id },
                ),
                Err(fault) => Step::Return(Err(fault.labelled(Message::CouldntUpdateComment))),
            },
            MarkAllAsReadState::PrivateMessages => match reply->Checked_0 {
                Ok(_) => step matches Step::Return(Ok(response)) && response.replies@.len() == 0,
                Err(fault) => step == MarkAllAsReadStep::Return(
                    Err(fault.labelled(Message::CouldntUpdatePrivateMessage)),
                ),
            },
        }
    }

    open spec fn stages(self) -> nat {
        match self {
            MarkAllAsReadState::User => 5,
            MarkAllAsReadState::Replies { .. } => 4,
            MarkAllAsReadState::Reply { .. } => 3,
            MarkAllAsReadState::Mentions { .. } => 2,
            MarkAllAsReadState::PrivateMessages => 1,
        }
    }

    open spec fn repeats(self) -> nat {
        match self {
            MarkAllAsReadState::Reply { replies, done, .. } => (replies.len() - done) as nat,
            _ => 0,
        }
    }

    proof fn progress(self, context: Context, reply: Reply, step: MarkAllAsReadStep) {
    }

    proof fn failure(self, context: Context, reply: Reply, step: MarkAllAsReadStep) {
    }

    fn resume(self, context: &Context, reply: Reply) -> (step: MarkAllAsReadStep) {
        match (self, reply) {
            (MarkAllAsReadState::User, Reply::User(found)) => match found {
                Ok(user) => {
                    let person_id = user.person.id;
                    let query = CommentQuery {
                        sort: None,
                        unread_only: Some(true),
                        recipient_id: Some(person_id),
                        show_bot_accounts: None,
                        my_person_id: Some(person_id),
                        page: Some(1),
                        limit: Some(LIMIT),
                    };
                    Step::Call(
                        MarkAllAsReadState::Replies { person_id },
                        Action::ListComments { query },
                    )
                },
                Err(fault) => Step::Return(Err(fault.pass())),
            },
            (MarkAllAsReadState::Replies { person_id }, Reply::Comments(listed)) => match listed {
                Ok(replies) => mark(person_id, replies, 0),
                Err(fault) => Step::Return(Err(fault.pass())),
            },
            (
                MarkAllAsReadState::Reply { person_id, replies, done },
                Reply::Checked(marked),
            ) => match marked {
                Ok(_) => mark(person_id, replies, done + 1),
                Err(fault) => Step::Return(Err(fault.with_message(Message::CouldntUpdateComment))),
            },
            (MarkAllAsReadState::Mentions { person_id }, Reply::Checked(marked)) => match marked {
                Ok(_) => Step::Call(
                    MarkAllAsReadState::PrivateMessages,
                    Action::MarkPrivateMessagesRead { person_id },
                ),
                Err(fault) => Step::Return(Err(fault.with_message(Message::CouldntUpdateComment))),
            },
            (MarkAllAsReadState::PrivateMessages, Reply::Checked(marked)) => match marked {
                Ok(_) => Step::Return(Ok(GetRepliesResponse { replies: Vec::new() })),
                Err(fault) => Step::Return(
                    Err(fault.with_message(Message::CouldntUpdatePrivateMessage)),
                ),
            },
            _ => unreached(),
        }
    }
}

impl Perform for MarkAllAsRead {
    type Response = GetRepliesResponse;

    type State = MarkAllAsReadState;

    open spec fn begins_with(
        self,
        context: Context,
        websocket_id: Option<ConnectionId>,
        step: MarkAllAsReadStep,
    ) -> bool {
        step == MarkAllAsReadStep::Call(
            MarkAllAsReadState::User,
            Action::UserFromJwt { jwt: self.auth },
        )
    }

    proof fn prepared(
        self,
        context: Context,
        websocket_id: Option<ConnectionId>,
        step: MarkAllAsReadStep,
    ) {
    }

    fn perform(self, context: &Context, websocket_id: Option<ConnectionId>) -> (step:
        MarkAllAsReadStep) {
        Step::Call(MarkAllAsReadState::User, Action::UserFromJwt { jwt: self.auth })
    }
}

/// The replies to the person who asks were listed, and each of the first `count` was marked as
/// read, in the order of the list.
pub open spec fn marked_up_to(
    run: Run<MarkAllAsReadState, GetRepliesResponse>,
    count: int,
) -> bool {
    &&& run.replies[0] matches Reply::User(Ok(user))
    &&& run.asks(1, Action::ListComments { query: unread_replies(user.person.id) })
    &&& run.replies[1] matches Reply::Comments(Ok(replies))
    &&& forall|j: int|
        0 <= j < count ==> run.passes(
            2 + j,
            Action::SetCommentRead { comment_id: (#[trigger] replies@[j]).comment.id, read: true },
        )
}

spec fn on_record(run: Run<MarkAllAsReadState, GetRepliesResponse>, k: int) -> bool {
    let person = run.replies[0]->User_0->Ok_0.person.id;
    let listed = run.replies[1]->Comments_0->Ok_0;
    match run.steps[k] {
        Step::Call(state, action) => match state {
            MarkAllAsReadState::User => k == 0,
            MarkAllAsReadState::Replies { person_id } => {
                &&& k == 1 && person_id == person
                &&& run.replies[0] matches Reply::User(Ok(_))
                &&& action == Action::ListComments { query: unread_replies(person) }
            },
            MarkAllAsReadState::Reply { person_id, replies, done } => {
                &&& k == 2 + done && person_id == person && replies == listed
                &&& marked_up_to(run, done as int) && done < replies.len()
                &&& action == Action::SetCommentRead {
                    comment_id: replies@[done as int].comment.id,
                    read: true,
                }
            },
            MarkAllAsReadState::Mentions { person_id } => {
                &&& k == 2 + listed.len() && person_id == person
                &&& marked_up_to(run, listed.len() as int)
                &&& action == Action::MarkMentionsRead { person_id: person }
            },
            MarkAllAsReadState::PrivateMessages => {
                &&& k == 3 + listed.len()
                &&& marked_up_to(run, listed.len() as int)
                &&& run.passes(k - 1, Action::MarkMentionsRead { person_id: person })
                &&& action == Action::MarkPrivateMessagesRead { person_id: person }
            },
        },
        _ => true,
    }
}

proof fn lemma_on_record(
    request: MarkAllAsRead,
    context: Context,
    websocket_id: Option<ConnectionId>,
    run: Run<MarkAllAsReadState, GetRepliesResponse>,
    k: int,
)
    requires
        run_of(request, context, websocket_id, run),
        0 <= k < run.steps.len(),
    ensures
        on_record(run, k),
    decreases k,
{
    if k > 0 {
        lemma_on_record(request, context, websocket_id, run, k - 1);
        assert(linked(run, context, k - 1));
        match run.steps[k - 1] {
            Step::Call(MarkAllAsReadState::Reply { done, .. }, action) => {
                if run.replies[k - 1]->Checked_0 is Ok {
                    assert(run.passes(2 + done, action));
                    assert(marked_up_to(run, done + 1));
                }
            },
            _ => {},
        }
    }
}

/// Everything that is marked belongs to the person who asks: replies that were listed as theirs,
/// their mentions and their private messages. Nothing else is written.
pub proof fn only_own_messages_are_marked(
    request: MarkAllAsRead,
    context: Context,
    websocket_id: Option<ConnectionId>,
    run: Run<MarkAllAsReadState, GetRepliesResponse>,
    i: int,
    action: Action,
)
    requires
        run_of(request, context, websocket_id, run),
        run.asks(i, action),
        action.writes(),
    ensures
        run.asks(0, Action::UserFromJwt { jwt: request.auth }),
        ({
            &&& run.replies[0] matches Reply::User(Ok(user))
            &&& run.asks(1, Action::ListComments { query: unread_replies(user.person.id) })
            &&& run.replies[1] matches Reply::Comments(Ok(replies))
            &&& {
                ||| {
                    &&& 2 <= i < 2 + replies@.len()
                    &&& action == Action::SetCommentRead {
                        comment_id: replies@[i - 2].comment.id,
                        read: true,
                    }
                }
                ||| action == Action::MarkMentionsRead { person_id: user.person.id }
                ||| action == Action::MarkPrivateMessagesRead { person_id: user.person.id }
            }
        }),
{
    lemma_first_steps(request, context, websocket_id, run);
    lemma_on_record(request, context, websocket_id, run, i);
}

/// A request that succeeds has marked every reply on the list, then all mentions, then all private
/// messages, and its answer is an empty list.
pub proof fn everything_is_marked(
    request: MarkAllAsRead,
    context: Context,
    websocket_id: Option<ConnectionId>,
    run: Run<MarkAllAsReadState, GetRepliesResponse>,
)
    requires
        run_of(request, context, websocket_id, run),
        run.succeeds(),
    ensures
        ({
            let person_id = run.replies[0]->User_0->Ok_0.person.id;
            let count = run.replies[1]->Comments_0->Ok_0@.len() as int;
            &&& run.asks(0, Action::UserFromJwt { jwt: request.auth })
            &&& marked_up_to(run, count)
            &&& run.passes(2 + count, Action::MarkMentionsRead { person_id })
            &&& run.passes(3 + count, Action::MarkPrivateMessagesRead { person_id })
            &&& run.steps.len() == 5 + count
            &&& run.steps.last()->Return_0->Ok_0.replies@.len() == 0
        }),
{
    let n = run.replies.len() as int;
    assert(n > 0);
    assert(linked(run, context, n - 1));
    lemma_on_record(request, context, websocket_id, run, n - 1);
}

/// A request that comes to its end succeeds exactly where no work for it failed.
pub proof fn marking_refuses_nothing_by_itself(
    request: MarkAllAsRead,
    context: Context,
    websocket_id: Option<ConnectionId>,
    run: Run<MarkAllAsReadState, GetRepliesResponse>,
)
    requires
        run_of(request, context, websocket_id, run),
        !(run.steps.last() is Call),
    ensures
        run.succeeds() <==> forall|i: int|
            0 <= i < run.replies.len() ==> (#[trigger] run.replies[i]).fault() is None,
{
    let n = run.replies.len() as int;
    assert(n > 0);
    assert(linked(run, context, n - 1));
    if run.succeeds() {
        assert forall|i: int| 0 <= i < n implies (#[trigger] run.replies[i]).fault() is None by {
            match run.replies[i].fault() {
                Some(fault) => {
                    a_fault_ends_the_request(request, context, websocket_id, run, i, fault);
                },
                None => {},
            }
        }
    } else {
        assert(run.replies[n - 1].fault() is Some);
    }
}

/// The marking of everything begins with the user behind the token, whose unread replies are listed,
/// the first 999 of them. Their marking begins with the first; where there is none, the mentions are
/// next.
pub proof fn marking_begins(
    request: MarkAllAsRead,
    context: Context,
    websocket_id: Option<ConnectionId>,
    run: Run<MarkAllAsReadState, GetRepliesResponse>,
)
    requires
        run_of(request, context, websocket_id, run),
    ensures
        run.asks(0, Action::UserFromJwt { jwt: request.auth }),
        run.replies.len() > 0 ==> match run.replies[0] {
            Reply::User(Ok(user)) => {
                &&& run.steps[1] matches Step::Call(_, Action::ListComments { query })
                &&& query.recipient_id == Some(user.person.id)
                &&& query.my_person_id == Some(user.person.id)
                &&& query.unread_only == Some(true)
                &&& query.page == Some(1i64)
                &&& query.limit == Some(999i64)
                &&& query.sort is None
                &&& query.show_bot_accounts is None
            },
            Reply::User(Err(fault)) => run.fails(1, fault, None),
            _ => false,
        },
        run.replies.len() > 1 ==> match (run.replies[0], run.replies[1]) {
            (Reply::User(Ok(user)), Reply::Comments(Ok(replies))) => if replies@.len() == 0 {
                run.asks(2, Action::MarkMentionsRead { person_id: user.person.id })
            } else {
                run.asks(
                    2,
                    Action::SetCommentRead { comment_id: replies@[0].comment.id, read: true },
                )
            },
            (Reply::User(Ok(_)), Reply::Comments(Err(fault))) => run.fails(2, fault, None),
            _ => false,
        },
{
    if run.replies.len() > 0 {
        assert(linked(run, context, 0));
    }
    if run.replies.len() > 1 {
        assert(linked(run, context, 1));
    }
}

/// The marking of each reply on the list is followed by that of the next, and that of the last by
/// that of the mentions. A statement that fails ends the request.
pub proof fn replies_are_marked_in_turn(
    request: MarkAllAsRead,
    context: Context,
    websocket_id: Option<ConnectionId>,
    run: Run<MarkAllAsReadState, GetRepliesResponse>,
    user: LocalUserView,
    replies: Vec<CommentView>,
    j: int,
)
    requires
        run_of(request, context, websocket_id, run),
        run.replies.len() > 2 + j,
        run.replies[0] == Reply::User(Ok(user)),
        run.replies[1] == Reply::Comments(Ok(replies)),
        0 <= j < replies@.len(),
    ensures
        match run.replies[2 + j] {
            Reply::Checked(Ok(_)) => if j + 1 < replies@.len() {
                run.asks(
                    3 + j,
                    Action::SetCommentRead { comment_id: replies@[j + 1].comment.id, read: true },
                )
            } else {
                run.asks(3 + j, Action::MarkMentionsRead { person_id: user.person.id })
            },
            Reply::Checked(Err(fault)) => run.fails(
                3 + j,
                fault,
                Some(Message::CouldntUpdateComment),
            ),
            _ => false,
        },
{
    lemma_on_record(request, context, websocket_id, run, 2 + j);
    assert(linked(run, context, 2 + j));
}

/// After the replies on the list come the mentions, and after them the private messages, all of the
/// user behind the token; the answer is then an empty list. A statement that fails ends the request,
/// under a message of its own for the private messages.
pub proof fn mentions_and_messages_are_marked_last(
    request: MarkAllAsRead,
    context: Context,
    websocket_id: Option<ConnectionId>,
    run: Run<MarkAllAsReadState, GetRepliesResponse>,
    user: LocalUserView,
    replies: Vec<CommentView>,
)
    requires
        run_of(request, context, websocket_id, run),
        run.replies.len() > 1,
        run.replies[0] == Reply::User(Ok(user)),
        run.replies[1] == Reply::Comments(Ok(replies)),
    ensures
        run.replies.len() > 2 + replies@.len() ==> match run.replies[2 + replies@.len() as int] {
            Reply::Checked(Ok(_)) => run.asks(
                3 + replies@.len() as int,
                Action::MarkPrivateMessagesRead { person_id: user.person.id },
            ),
            Reply::Checked(Err(fault)) => run.fails(
                3 + replies@.len() as int,
                fault,
                Some(Message::CouldntUpdateComment),
            ),
            _ => false,
        },
        run.replies.len() > 3 + replies@.len() ==> match run.replies[3 + replies@.len() as int] {
            Reply::Checked(Ok(_)) => {
                &&& run.steps[4 + replies@.len() as int] matches Step::Return(Ok(response))
                &&& response.replies@.len() == 0
            },
            Reply::Checked(Err(fault)) => run.fails(
                4 + replies@.len() as int,
                fault,
                Some(Message::CouldntUpdatePrivateMessage),
            ),
            _ => false,
        },
        run.replies.len() <= 4 + replies@.len(),
{
    let n = run.replies.len() as int;
    let count = replies@.len() as int;
    if n > 2 + count {
        lemma_on_record(request, context, websocket_id, run, 2 + count);
        assert(linked(run, context, 2 + count));
    }
    if n > 3 + count {
        lemma_on_record(request, context, websocket_id, run, 3 + count);
        assert(linked(run, context, 3 + count));
    }
    if n > 4 + count {
        lemma_on_record(request, context, websocket_id, run, 4 + count);
        assert(linked(run, context, 4 + count));
    }
}

} // verus!
