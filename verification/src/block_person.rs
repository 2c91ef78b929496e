//! Blocking a person, and lifting the block.
use vstd::prelude::*;
use vstd::pervasive::unreached;

use crate::effect::{Action, Reply};
use crate::error::{LemmyError, Message};
use crate::machine::{Perform, Resume, Step};
use crate::model::{ConnectionId, Context, PersonBlockForm, PersonId, PersonViewSafe};
use crate::run::{lemma_first_steps, run_of, Run};

verus! {

#[derive(Debug, PartialEq, Eq)]
pub struct BlockPerson {
    pub person_id: PersonId,
    pub block: bool,
    pub auth: String,
}

#[derive(Debug, PartialEq, Eq)]
pub struct BlockPersonResponse {
    pub person_view: PersonViewSafe,
    pub blocked: bool,
}

/// The requests that wait, by what they wait for.
pub enum BlockPersonState {
    User { target_id: PersonId, block: bool },
    Change { target_id: PersonId, block: bool },
    PersonView { block: bool },
}

/// What follows an outcome.
pub type BlockPersonStep = Step<BlockPersonState, BlockPersonResponse>;

/// What a request changes: it blocks the target for the person, or lifts that block.
pub open spec fn change(person_id: PersonId, target_id: PersonId, block: bool) -> Action {
    let form = PersonBlockForm { person_id, target_id };
    if block {
        Action::Block { form }
    } else {
        Action::Unblock { form }
    }
}

impl BlockPersonState {
    /// What the request does next, handed this outcome.
    pub open spec fn next(self, reply: Reply) -> BlockPersonStep {
        match self {
            BlockPersonState::User { target_id, block } => match reply->User_0 {
                Ok(user) => if target_id == user.person.id {
                    Step::Return(Err(LemmyError::Message(Message::CantBlockYourself)))
                } else {
                    Step::Call(
                        BlockPersonState::Change { target_id, block },
                        change(user.person.id, target_id, block),
                    )
                },
                Err(fault) => Step::Return(Err(fault.as_it_is())),
            },
            BlockPersonState::Change { target_id, block } => match reply->Checked_0 {
                Ok(_) => Step::Call(
                    BlockPersonState::PersonView { block },
                    Action::ReadPersonView { person_id: target_id },
                ),
                Err(fault) => Step::Return(Err(fault.labelled(Message::PersonBlockAlreadyExists))),
            },
            BlockPersonState::PersonView { block } => match reply->PersonView_0 {
                Ok(person_view) => Step::Return(
                    Ok(BlockPersonResponse { person_view, blocked: block }),
                ),
                Err(fault) => Step::Return(Err(fault.as_it_is())),
            },
        }
    }
}

impl Resume for BlockPersonState {
    type Response = BlockPersonResponse;

    open spec fn accepts(self, reply: Reply) -> bool {
        match self {
            BlockPersonState::User { .. } => reply is User,
            BlockPersonState::Change { .. } => reply is Checked,
            BlockPersonState::PersonView { .. } => reply is PersonView,
        }
    }

    open spec fn leads_to(self, context: Context, reply: Reply, step: BlockPersonStep) -> bool {
        step == self.next(reply)
    }

    open spec fn stages(self) -> nat {
        match self {
            BlockPersonState::User { .. } => 3,
            BlockPersonState::Change { .. } => 2,
            BlockPersonState::PersonView { .. } => 1,
        }
    }

    open spec fn repeats(self) -> nat {
        0
    }

    proof fn progress(self, context: Context, reply: Reply, step: BlockPersonStep) {
    }

    proof fn failure(self, context: Context, reply: Reply, step: BlockPersonStep) {
    }

    fn resume(self, context: &Context, reply: Reply) -> (step: BlockPersonStep) {
        match (self, reply) {
            (BlockPersonState::User { target_id, block }, Reply::User(found)) => match found {
                Ok(user) => {
                    let person_id = user.person.id;
                    if target_id == person_id {
                        return Step::Return(Err(LemmyError::Message(Message::CantBlockYourself)));
                    }
                    let form = PersonBlockForm { person_id, target_id };
                    let action = if block {
                        Action::Block { form }
                    } else {
                        Action::Unblock { form }
                    };
                    Step::Call(BlockPersonState::Change { target_id, block }, action)
                },
                Err(fault) => Step::Return(Err(fault.pass())),
            },
            (BlockPersonState::Change { target_id, block }, Reply::Checked(changed)) => {
                match changed {
                    Ok(_) => Step::Call(
                        BlockPersonState::PersonView { block },
                        Action::ReadPersonView { person_id: target_id },
                    ),
                    Err(fault) => Step::Return(
                        Err(fault.with_message(Message::PersonBlockAlreadyExists)),
                    ),
                }
            },
            (BlockPersonState::PersonView { block }, Reply::PersonView(read)) => match read {
                Ok(person_view) => Step::Return(
                    Ok(BlockPersonResponse { person_view, blocked: block }),
                ),
                Err(fault) => Step::Return(Err(fault.pass())),
            },
            _ => unreached(),
        }
    }
}

impl Perform for BlockPerson {
    type Response = BlockPersonResponse;

    type State = BlockPersonState;

    open spec fn begins_with(
        self,
        context: Context,
        websocket_id: Option<ConnectionId>,
        step: BlockPersonStep,
    ) -> bool {
        step == BlockPersonStep::Call(
            BlockPersonState::User { target_id: self.person_id, block: self.block },
            Action::UserFromJwt { jwt: self.auth },
        )
    }

    proof fn prepared(
        self,
        context: Context,
        websocket_id: Option<ConnectionId>,
        step: BlockPersonStep,
    ) {
    }

    fn perform(self, context: &Context, websocket_id: Option<ConnectionId>) -> (step:
        BlockPersonStep) {
        Step::Call(
            BlockPersonState::User { target_id: self.person_id, block: self.block },
            Action::UserFromJwt { jwt: self.auth },
        )
    }
}

/// Nobody blocks themselves, nor blocks anybody for somebody else: all that is ever written is the
/// block in the request, for the person who asks, and the two differ.
pub proof fn nobody_blocks_themselves(
    request: BlockPerson,
    context: Context,
    websocket_id: Option<ConnectionId>,
    run: Run<BlockPersonState, BlockPersonResponse>,
    i: int,
    action: Action,
)
    requires
        run_of(request, context, websocket_id, run),
        run.asks(i, action),
        action.writes(),
    ensures
        i == 1,
        run.asks(0, Action::UserFromJwt { jwt: request.auth }),
        run.replies[0] matches Reply::User(Ok(user)) && {
            &&& request.person_id != user.person.id
            &&& action == change(user.person.id, request.person_id, request.block)
        },
{
    lemma_first_steps(request, context, websocket_id, run);
}

/// A person who asks to block themselves, or to lift such a block, is refused.
pub proof fn blocking_oneself_is_refused(
    request: BlockPerson,
    context: Context,
    websocket_id: Option<ConnectionId>,
    run: Run<BlockPersonState, BlockPersonResponse>,
)
    requires
        run_of(request, context, websocket_id, run),
        run.replies.len() > 0,
        run.replies[0] matches Reply::User(Ok(user)) && user.person.id == request.person_id,
    ensures
        run.steps.len() == 2,
        run.steps[1] == BlockPersonStep::Return(
            Err(LemmyError::Message(Message::CantBlockYourself)),
        ),
{
    lemma_first_steps(request, context, websocket_id, run);
}

/// A request succeeds exactly where nothing fails and the two persons differ. The block is then
/// made or lifted, and the answer shows the person it is about.
pub proof fn block_is_carried_out(
    request: BlockPerson,
    context: Context,
    websocket_id: Option<ConnectionId>,
    run: Run<BlockPersonState, BlockPersonResponse>,
)
    requires
        run_of(request, context, websocket_id, run),
    ensures
        run.succeeds() <==> {
            &&& run.replies.len() == 3
            &&& run.replies[0] matches Reply::User(Ok(user))
            &&& user.person.id != request.person_id
            &&& run.replies[1] matches Reply::Checked(Ok(_))
            &&& run.replies[2] matches Reply::PersonView(Ok(_))
        },
        run.succeeds() ==> {
            let person_id = run.replies[0]->User_0->Ok_0.person.id;
            &&& run.asks(0, Action::UserFromJwt { jwt: request.auth })
            &&& run.passes(1, change(person_id, request.person_id, request.block))
            &&& run.asks(2, Action::ReadPersonView { person_id: request.person_id })
            &&& run.answers(
                BlockPersonResponse {
                    person_view: run.replies[2]->PersonView_0->Ok_0,
                    blocked: request.block,
                },
            )
        },
{
    lemma_first_steps(request, context, websocket_id, run);
}

/// A block, outcome by outcome. The token finds who asks. Where that is the person in the request,
/// the request is refused; otherwise that person is blocked for who asks, or the block is lifted, as
/// the request says, and the answer shows the person and says the same.
pub proof fn block_outcome_by_outcome(
    request: BlockPerson,
    context: Context,
    websocket_id: Option<ConnectionId>,
    run: Run<BlockPersonState, BlockPersonResponse>,
)
    requires
        run_of(request, context, websocket_id, run),
    ensures
        run.asks(0, Action::UserFromJwt { jwt: request.auth }),
        run.replies.len() > 0 ==> match run.replies[0] {
            Reply::User(Ok(user)) => {
                let oneself = user.person.id == request.person_id;
                let form = PersonBlockForm {
                    person_id: user.person.id,
                    target_id: request.person_id,
                };
                &&& oneself ==> run.refuses(1, Message::CantBlockYourself)
                &&& !oneself && request.block ==> run.asks(1, Action::Block { form })
                &&& !oneself && !request.block ==> run.asks(1, Action::Unblock { form })
            },
            Reply::User(Err(fault)) => run.fails(1, fault, None),
            _ => false,
        },
        run.replies.len() > 1 ==> match run.replies[1] {
            Reply::Checked(Ok(_)) => run.asks(
                2,
                Action::ReadPersonView { person_id: request.person_id },
            ),
            Reply::Checked(Err(fault)) => run.fails(
                2,
                fault,
                Some(Message::PersonBlockAlreadyExists),
            ),
            _ => false,
        },
        run.replies.len() > 2 ==> match run.replies[2] {
            Reply::PersonView(Ok(person_view)) => run.responds(
                3,
                BlockPersonResponse { person_view, blocked: request.block },
            ),
            Reply::PersonView(Err(fault)) => run.fails(3, fault, None),
            _ => false,
        },
        run.replies.len() <= 3,
{
    lemma_first_steps(request, context, websocket_id, run);
}

} // verus!
