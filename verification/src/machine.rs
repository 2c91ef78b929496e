//! How a request runs.
use vstd::prelude::*;

use crate::effect::{Action, Reply};
use crate::error::LemmyError;
use crate::model::{ConnectionId, Context};

verus! {

/// Why a request is abandoned without an answer. The server panics.
#[derive(Clone, Copy, Debug, PartialEq, Eq, Structural)]
pub enum Abort {
    /// The picture of a captcha could not be encoded.
    CaptchaNotEncoded,
    /// The time at which a captcha expires cannot be represented.
    ExpiryOutOfRange,
}

/// What a request does next.
pub enum Step<S, R> {
    /// It waits, in this state, for the outcome of this work.
    Call(S, Action),
    /// It is answered.
    Return(Result<R, LemmyError>),
    /// It is abandoned.
    Abort(Abort),
}

/// A request that waits for an outcome.
pub trait Resume: Sized {
    type Response;

    /// Whether this is an outcome of the work that the request waits for.
    spec fn accepts(self, reply: Reply) -> bool;

    /// Whether the request, handed this outcome, does this next.
    spec fn leads_to(
        self,
        context: Context,
        reply: Reply,
        step: Step<Self, Self::Response>,
    ) -> bool;

    /// How many kinds of work lie ahead, at most.
    spec fn stages(self) -> nat;

    /// How often the kind of work that the request waits for is repeated after this, at most.
    spec fn repeats(self) -> nat;

    /// A request accepts every outcome of the work it asked for, and comes closer to its end with
    /// each.
    proof fn progress(self, context: Context, reply: Reply, step: Step<Self, Self::Response>)
        requires
            self.accepts(reply),
            self.leads_to(context, reply, step),
        ensures
            step matches Step::Call(next, action) ==> {
                &&& forall|reply: Reply|
                    #[trigger] next.accepts(reply) <==> action.answered_by(reply)
                &&& {
                    ||| next.stages() < self.stages()
                    ||| next.stages() == self.stages() && next.repeats() < self.repeats()
                }
            },
    ;

    /// A fault ends the request, with the error that it came with, to which a message is added only
    /// where the fault came from a statement. No other error is passed off as one from outside.
    proof fn failure(self, context: Context, reply: Reply, step: Step<Self, Self::Response>)
        requires
            self.accepts(reply),
            self.leads_to(context, reply, step),
        ensures
            reply.fault() matches Some(fault) ==> {
                &&& step matches Step::Return(Err(LemmyError::Outside(error, message)))
                &&& error == fault.error()
                &&& fault is Refused ==> message is None
            },
            step matches Step::Return(Err(LemmyError::Outside(_, _))) ==> reply.fault() is Some,
    ;

    /// Takes the outcome of the work that the request asked for last.
    fn resume(self, context: &Context, reply: Reply) -> (step: Step<Self, Self::Response>)
        requires
            self.accepts(reply),
        ensures
            self.leads_to(*context, reply, step),
    ;
}

/// A request as it comes in.
pub trait Perform: Sized {
    type Response;

    type State: Resume<Response = Self::Response>;

    /// Whether the request may begin with this.
    spec fn begins_with(
        self,
        context: Context,
        websocket_id: Option<ConnectionId>,
        step: Step<Self::State, Self::Response>,
    ) -> bool;

    /// No request is refused before it has asked for anything, and one that waits accepts the
    /// outcomes of the work it asked for.
    proof fn prepared(
        self,
        context: Context,
        websocket_id: Option<ConnectionId>,
        step: Step<Self::State, Self::Response>,
    )
        requires
            self.begins_with(context, websocket_id, step),
        ensures
            waits_for_its_work(step),
            step matches Step::Return(outcome) ==> outcome is Ok,
    ;

    /// Takes the request, and begins with it.
    fn perform(self, context: &Context, websocket_id: Option<ConnectionId>) -> (step: Step<
        Self::State,
        Self::Response,
    >)
        ensures
            self.begins_with(*context, websocket_id, step),
    ;
}

/// A request that waits accepts the outcomes of the work it asked for, and no others.
pub open spec fn waits_for_its_work<S: Resume>(step: Step<S, S::Response>) -> bool {
    step matches Step::Call(state, action) ==> forall|reply: Reply|
        #[trigger] state.accepts(reply) <==> action.answered_by(reply)
}

} // verus!
