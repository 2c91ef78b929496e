//! Whole runs of a request, and what holds of all of them.
use vstd::prelude::*;

use crate::effect::{Action, Reply};
use crate::error::{Fault, LemmyError, Message};
use crate::machine::{waits_for_its_work, Perform, Resume, Step};
use crate::model::{ConnectionId, Context};

verus! {

/// What a request did, step by step, and the outcomes that it was handed between the steps.
pub struct Run<S, R> {
    pub steps: Seq<Step<S, R>>,
    pub replies: Seq<Reply>,
}

impl<S, R> Run<S, R> {
    /// The request asked for this work at step `i`.
    pub open spec fn asks(self, i: int, action: Action) -> bool {
        &&& 0 <= i < self.steps.len()
        &&& self.steps[i] matches Step::Call(_, asked) && asked == action
    }

    /// The request asked for this work at step `i`, and the work was done without a fault.
    pub open spec fn passes(self, i: int, action: Action) -> bool {
        &&& self.asks(i, action)
        &&& i < self.replies.len()
        &&& self.replies[i] matches Reply::Checked(Ok(_))
    }

    /// The request is answered in the end, and with this.
    pub open spec fn answers(self, response: R) -> bool {
        &&& self.steps.last() matches Step::Return(Ok(answer)) && answer == response
    }

    /// The request is answered at step `i` with this response.
    pub open spec fn responds(self, i: int, response: R) -> bool {
        &&& 0 <= i < self.steps.len()
        &&& self.steps[i] matches Step::Return(Ok(answer)) && answer == response
    }

    /// The request itself refuses at step `i`, with this message.
    pub open spec fn refuses(self, i: int, message: Message) -> bool {
        &&& 0 <= i < self.steps.len()
        &&& self.steps[i] matches Step::Return(Err(LemmyError::Message(said))) && said == message
    }

    /// The request fails at step `i` with the error of this fault. Where the fault came from a
    /// statement, the error is put under this message; otherwise it has none.
    pub open spec fn fails(self, i: int, fault: Fault, label: Option<Message>) -> bool {
        &&& 0 <= i < self.steps.len()
        &&& self.steps[i] matches Step::Return(Err(LemmyError::Outside(error, message))) && {
            match fault {
                Fault::Refused(cause) => error == cause && message is None,
                Fault::Database(cause) => error == cause && message == label,
            }
        }
    }

    /// The request succeeded.
    pub open spec fn succeeds(self) -> bool {
        self.steps.last() matches Step::Return(Ok(_))
    }
}

/// Step `i + 1` follows from step `i` and the outcome between them.
pub open spec fn linked<S: Resume>(run: Run<S, S::Response>, context: Context, i: int) -> bool {
    run.steps[i] matches Step::Call(state, _) && {
        &&& state.accepts(run.replies[i])
        &&& state.leads_to(context, run.replies[i], run.steps[i + 1])
    }
}

/// A run of a request: from its beginning, each step follows from the one before.
pub open spec fn run_of<P: Perform>(
    request: P,
    context: Context,
    websocket_id: Option<ConnectionId>,
    run: Run<P::State, P::Response>,
) -> bool {
    &&& run.steps.len() == run.replies.len() + 1
    &&& request.begins_with(context, websocket_id, run.steps[0])
    &&& forall|i: int| 0 <= i < run.replies.len() ==> #[trigger] linked(run, context, i)
}

/// The first steps of a run, one by one.
pub(crate) proof fn lemma_first_steps<P: Perform>(
    request: P,
    context: Context,
    websocket_id: Option<ConnectionId>,
    run: Run<P::State, P::Response>,
)
    requires
        run_of(request, context, websocket_id, run),
    ensures
        run.replies.len() > 0 ==> linked(run, context, 0),
        run.replies.len() > 1 ==> linked(run, context, 1),
        run.replies.len() > 2 ==> linked(run, context, 2),
        run.replies.len() > 3 ==> linked(run, context, 3),
        run.replies.len() > 4 ==> linked(run, context, 4),
        run.replies.len() > 5 ==> linked(run, context, 5),
        run.replies.len() > 6 ==> linked(run, context, 6),
        run.replies.len() > 7 ==> linked(run, context, 7),
        run.replies.len() > 8 ==> linked(run, context, 8),
{
}

/// At each step of a run the request accepts exactly the outcomes of the work it asked for, so a
/// server that does the work it is asked for can always go on.
pub proof fn each_step_waits_for_its_work<P: Perform>(
    request: P,
    context: Context,
    websocket_id: Option<ConnectionId>,
    run: Run<P::State, P::Response>,
    i: int,
)
    requires
        run_of(request, context, websocket_id, run),
        0 <= i < run.steps.len(),
    ensures
        waits_for_its_work(run.steps[i]),
{
    if i == 0 {
        request.prepared(context, websocket_id, run.steps[0]);
    } else {
        assert(linked(run, context, i - 1));
        match run.steps[i - 1] {
            Step::Call(state, _) => {
                state.progress(context, run.replies[i - 1], run.steps[i]);
            },
            _ => {},
        }
    }
}

/// No request goes on for ever: however it is answered, it comes to a step that asks for nothing
/// more.
pub proof fn every_request_ends<P: Perform>(
    request: P,
    context: Context,
    websocket_id: Option<ConnectionId>,
    steps: spec_fn(nat) -> Step<P::State, P::Response>,
    replies: spec_fn(nat) -> Reply,
)
    requires
        request.begins_with(context, websocket_id, steps(0)),
        forall|i: nat| #[trigger]
            steps(i) matches Step::Call(state, _) ==> {
                &&& state.accepts(replies(i))
                &&& state.leads_to(context, replies(i), steps(i + 1))
            },
    ensures
        exists|i: nat| !(#[trigger] steps(i) is Call),
{
    ends_after::<P::State>(context, steps, replies, 0);
}

proof fn ends_after<S: Resume>(
    context: Context,
    steps: spec_fn(nat) -> Step<S, S::Response>,
    replies: spec_fn(nat) -> Reply,
    from: nat,
)
    requires
        forall|i: nat| #[trigger]
            steps(i) matches Step::Call(state, _) ==> {
                &&& state.accepts(replies(i))
                &&& state.leads_to(context, replies(i), steps(i + 1))
            },
    ensures
        exists|i: nat| !(#[trigger] steps(i) is Call),
    decreases
            (match steps(from) {
                Step::Call(state, _) => state.stages() + 1,
                _ => 0,
            }),
            (match steps(from) {
                Step::Call(state, _) => state.repeats(),
                _ => 0,
            }),
{
    match steps(from) {
        Step::Call(state, _) => {
            state.progress(context, replies(from), steps(from + 1));
            ends_after::<S>(context, steps, replies, from + 1);
        },
        _ => {
            assert(!(steps(from) is Call));
        },
    }
}

/// The first fault ends a request: nothing more is asked, and the answer is the error that the
/// fault came with.
pub proof fn a_fault_ends_the_request<P: Perform>(
    request: P,
    context: Context,
    websocket_id: Option<ConnectionId>,
    run: Run<P::State, P::Response>,
    i: int,
    fault: Fault,
)
    requires
        run_of(request, context, websocket_id, run),
        0 <= i < run.replies.len(),
        run.replies[i].fault() == Some(fault),
    ensures
        run.replies.len() == i + 1,
        run.steps.last() matches Step::Return(Err(LemmyError::Outside(error, message))) && {
            &&& error == fault.error()
            &&& fault is Refused ==> message is None
        },
{
    assert(linked(run, context, i));
    match run.steps[i] {
        Step::Call(state, _) => {
            state.failure(context, run.replies[i], run.steps[i + 1]);
        },
        _ => {},
    }
    if run.replies.len() > i + 1 {
        assert(linked(run, context, i + 1));
    }
}

/// A request that fails with an error from outside was handed that error as the last outcome.
pub proof fn no_fault_is_made_up<P: Perform>(
    request: P,
    context: Context,
    websocket_id: Option<ConnectionId>,
    run: Run<P::State, P::Response>,
)
    requires
        run_of(request, context, websocket_id, run),
        run.steps.last() matches Step::Return(Err(LemmyError::Outside(_, _))),
    ensures
        run.replies.len() > 0,
        run.replies.last().fault() matches Some(fault) && run.steps.last() matches Step::Return(
            Err(LemmyError::Outside(error, _)),
        ) && error == fault.error(),
{
    let n = run.replies.len() as int;
    if n == 0 {
        request.prepared(context, websocket_id, run.steps[0]);
    } else {
        assert(linked(run, context, n - 1));
        match run.steps[n - 1] {
            Step::Call(state, _) => {
                state.failure(context, run.replies[n - 1], run.steps[n]);
            },
            _ => {},
        }
    }
}

} // verus!
