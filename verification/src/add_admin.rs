//! Making a person an administrator, or no longer one.
use vstd::prelude::*;
use vstd::pervasive::unreached;

use crate::effect::{Action, Reply};
use crate::error::{LemmyError, Message};
use crate::machine::{Perform, Resume, Step};
use crate::model::{
    AddAdminResponse, ConnectionId, Context, ModAddForm, PersonId, PersonViewSafe, SendAllMessage,
    UserOperation,
};
use crate::run::{lemma_first_steps, run_of, Run};

verus! {

/// The number of the one site that a server runs.
pub const SITE_ID: i32 = 1;

#[derive(Debug, PartialEq, Eq)]
pub struct AddAdmin {
    pub person_id: PersonId,
    pub added: bool,
    pub auth: String,
}

/// A request, and who makes it.
#[derive(Debug, PartialEq, Eq)]
pub struct Appointment {
    pub data: AddAdmin,
    pub mod_person_id: PersonId,
    pub websocket_id: Option<ConnectionId>,
}

/// The requests that wait, by what they wait for.
pub enum AddAdminState {
    User { data: AddAdmin, websocket_id: Option<ConnectionId> },
    AdminCheck(Appointment),
    Admin(Appointment),
    Log { websocket_id: Option<ConnectionId> },
    Site { websocket_id: Option<ConnectionId> },
    Admins { creator_id: PersonId, websocket_id: Option<ConnectionId> },
    Announcement(AddAdminResponse),
}

/// What follows an outcome.
pub type AddAdminStep = Step<AddAdminState, AddAdminResponse>;

/// A person is on a list at position `i`, and at none before.
pub open spec fn first_at(persons: Seq<PersonViewSafe>, id: PersonId, i: int) -> bool {
    &&& 0 <= i < persons.len()
    &&& persons[i].person.id == id
    &&& forall|j: int| 0 <= j < i ==> (#[trigger] persons[j]).person.id != id
}

/// A list whose entry at `i` has been moved to its start.
pub open spec fn brought_forward(persons: Seq<PersonViewSafe>, i: int) -> Seq<PersonViewSafe> {
    persons.remove(i).insert(0, persons[i])
}

/// A list as it is with the first entry of a person moved to its start, if there is one.
pub open spec fn with_first(
    persons: Seq<PersonViewSafe>,
    id: PersonId,
    ordered: Seq<PersonViewSafe>,
) -> bool {
    exists|i: int| #[trigger] first_at(persons, id, i) && ordered == brought_forward(persons, i)
}

/// Moves the creator of the site to the start of the list of its administrators. There is no such
/// list where the creator is not on it.
pub fn creator_first(admins: Vec<PersonViewSafe>, creator_id: PersonId) -> (ordered: Option<
    Vec<PersonViewSafe>,
>)
    ensures
        match ordered {
            Some(ordered) => with_first(admins@, creator_id, ordered@),
            None => forall|i: int|
                0 <= i < admins@.len() ==> (#[trigger] admins@[i]).person.id != creator_id,
        },
{
    let mut ordered = admins;
    let mut i: usize = 0;
    while i < ordered.len()
        invariant
            i <= ordered.len(),
            ordered@ == admins@,
            forall|j: int| 0 <= j < i ==> (#[trigger] admins@[j]).person.id != creator_id,
        decreases ordered.len() - i,
    {
        if ordered[i].person.id == creator_id {
            let creator = ordered.remove(i);
            ordered.insert(0, creator);
            assert(first_at(admins@, creator_id, i as int));
            assert(ordered@ =~= brought_forward(admins@, i as int));
            return Some(ordered);
        }
        i = i + 1;
    }
    None
}

impl Resume for AddAdminState {
    type Response = AddAdminResponse;

    open spec fn accepts(self, reply: Reply) -> bool {
        match self {
            AddAdminState::User { .. } => reply is User,
            AddAdminState::AdminCheck(_) => reply is Checked,
            AddAdminState::Admin(_) => reply is Person,
            AddAdminState::Log { .. } => reply is Checked,
            AddAdminState::Site { .. } => reply is Site,
            AddAdminState::Admins { .. } => reply is Admins,
            AddAdminState::Announcement(_) => reply is Sent,
        }
    }

    open spec fn leads_to(self, context: Context, reply: Reply, step: AddAdminStep) -> bool {
        match self {
            AddAdminState::User { data, websocket_id } => step == match reply->User_0 {
                Ok(user) => AddAdminStep::Call(
                    AddAdminState::AdminCheck(
                        Appointment { data, mod_person_id: user.person.id, websocket_id },
                    ),
                    Action::CheckAdmin { user },
                ),
                Err(fault) => Step::Return(Err(fault.as_it_is())),
            },
            AddAdminState::AdminCheck(appointment) => step == match reply->Checked_0 {
                Ok(_) => AddAdminStep::Call(
                    AddAdminState::Admin(appointment),
                    Action::SetAdmin {
                        person_id: appointment.data.person_id,
                        added: appointment.data.added,
                    },
                ),
                Err(fault) => Step::Return(Err(fault.as_it_is())),
            },
            AddAdminState::Admin(appointment) => step == match reply->Person_0 {
                Ok(person) => AddAdminStep::Call(
                    AddAdminState::Log { websocket_id: appointment.websocket_id },
                    Action::CreateModAdd {
                        form: ModAddForm {
                            mod_person_id: appointment.mod_person_id,
                            other_person_id: person.id,
                            removed: Some(!appointment.data.added),
                        },
                    },
                ),
                Err(fault) => Step::Return(Err(fault.labelled(Message::CouldntUpdateUser))),
            },
            AddAdminState::Log { websocket_id } => step == match reply->Checked_0 {
                Ok(_) => AddAdminStep::Call(
                    AddAdminState::Site { websocket_id },
                    Action::ReadSite { site_id: SITE_ID },
                ),
                Err(fault) => Step::Return(Err(fault.as_it_is())),
            },
            AddAdminState::Site { websocket_id } => step == match reply->Site_0 {
                Ok(site) => AddAdminStep::Call(
                    AddAdminState::Admins { creator_id: site.creator_id, websocket_id },
                    Action::ListAdmins,
                ),
                Err(fault) => Step::Return(Err(fault.as_it_is())),
            },
            AddAdminState::Admins { creator_id, websocket_id } => match reply->Admins_0 {
                Ok(admins) => match step {
                    Step::Call(
                        AddAdminState::Announcement(response),
                        Action::AnnounceAdmins { message },
                    ) => {
                        &&& with_first(admins@, creator_id, response.admins@)
                        &&& message.op == UserOperation::AddAdmin
                        &&& message.response.admins@ == response.admins@
                        &&& message.websocket_id == websocket_id
                    },
                    Step::Return(Err(LemmyError::CreatorNotAmongAdmins)) => {
                        forall|i: int|
                            0 <= i < admins@.len() ==> (#[trigger] admins@[i]).person.id
                                != creator_id
                    },
                    _ => false,
                },
                Err(fault) => step == AddAdminStep::Return(Err(fault.as_it_is())),
            },
            AddAdminState::Announcement(response) => step == AddAdminStep::Return(Ok(response)),
        }
    }

    open spec fn stages(self) -> nat {
        match self {
            AddAdminState::User { .. } => 7,
            AddAdminState::AdminCheck(_) => 6,
            AddAdminState::Admin(_) => 5,
            AddAdminState::Log { .. } => 4,
            AddAdminState::Site { .. } => 3,
            AddAdminState::Admins { .. } => 2,
            AddAdminState::Announcement(_) => 1,
        }
    }

    open spec fn repeats(self) -> nat {
        0
    }

    proof fn progress(self, context: Context, reply: Reply, step: AddAdminStep) {
    }

    proof fn failure(self, context: Context, reply: Reply, step: AddAdminStep) {
    }

    fn resume(self, context: &Context, reply: Reply) -> (step: AddAdminStep) {
        match (self, reply) {
            (AddAdminState::User { data, websocket_id }, Reply::User(found)) => match found {
                Ok(user) => {
                    let mod_person_id = user.person.id;
                    Step::Call(
                        AddAdminState::AdminCheck(
                            Appointment { data, mod_person_id, websocket_id },
                        ),
                        Action::CheckAdmin { user },
                    )
                },
                Err(fault) => Step::Return(Err(fault.pass())),
            },
            (AddAdminState::AdminCheck(appointment), Reply::Checked(admin)) => match admin {
                Ok(_) => {
                    let person_id = appointment.data.person_id;
                    let added = appointment.data.added;
                    Step::Call(
                        AddAdminState::Admin(appointment),
                        Action::SetAdmin { person_id, added },
                    )
                },
                Err(fault) => Step::Return(Err(fault.pass())),
            },
            (AddAdminState::Admin(appointment), Reply::Person(changed)) => match changed {
                Ok(person) => Step::Call(
                    AddAdminState::Log { websocket_id: appointment.websocket_id },
                    Action::CreateModAdd {
                        form: ModAddForm {
                            mod_person_id: appointment.mod_person_id,
                            other_person_id: person.id,
                            removed: Some(!appointment.data.added),
                        },
                    },
                ),
                Err(fault) => Step::Return(Err(fault.with_message(Message::CouldntUpdateUser))),
            },
            (AddAdminState::Log { websocket_id }, Reply::Checked(logged)) => match logged {
                Ok(_) => Step::Call(
                    AddAdminState::Site { websocket_id },
                    Action::ReadSite { site_id: SITE_ID },
                ),
                Err(fault) => Step::Return(Err(fault.pass())),
            },
            (AddAdminState::Site { websocket_id }, Reply::Site(read)) => match read {
                Ok(site) => Step::Call(
                    AddAdminState::Admins { creator_id: site.creator_id, websocket_id },
                    Action::ListAdmins,
                ),
                Err(fault) => Step::Return(Err(fault.pass())),
            },
            (
                AddAdminState::Admins { creator_id, websocket_id },
                Reply::Admins(listed),
            ) => match listed {
                Ok(admins) => match creator_first(admins, creator_id) {
                    Some(admins) => {
                        let copy = admins.clone();
                        assert(copy@ =~= admins@);
                        let message = SendAllMessage {
                            op: UserOperation::AddAdmin,
                            response: AddAdminResponse { admins: copy },
                            websocket_id,
                        };
                        Step::Call(
                            AddAdminState::Announcement(AddAdminResponse { admins }),
                            Action::AnnounceAdmins { message },
                        )
                    },
                    None => Step::Return(Err(LemmyError::CreatorNotAmongAdmins)),
                },
                Err(fault) => Step::Return(Err(fault.pass())),
            },
            (AddAdminState::Announcement(response), Reply::Sent) => Step::Return(Ok(response)),
            _ => unreached(),
        }
    }
}

impl Perform for AddAdmin {
    type Response = AddAdminResponse;

    type State = AddAdminState;

    open spec fn begins_with(
        self,
        context: Context,
        websocket_id: Option<ConnectionId>,
        step: AddAdminStep,
    ) -> bool {
        step == AddAdminStep::Call(
            AddAdminState::User { data: self, websocket_id },
            Action::UserFromJwt { jwt: self.auth },
        )
    }

    proof fn prepared(
        self,
        context: Context,
        websocket_id: Option<ConnectionId>,
        step: AddAdminStep,
    ) {
    }

    fn perform(self, context: &Context, websocket_id: Option<ConnectionId>) -> (step:
        AddAdminStep) {
        let jwt = self.auth.clone();
        Step::Call(AddAdminState::User { data: self, websocket_id }, Action::UserFromJwt { jwt })
    }
}

/// Moving an entry to the start of a list loses and adds nothing, puts that entry first, and leaves
/// the others in the order they were in.
pub proof fn bringing_forward_reorders(persons: Seq<PersonViewSafe>, i: int)
    requires
        0 <= i < persons.len(),
    ensures
        brought_forward(persons, i).to_multiset() == persons.to_multiset(),
        brought_forward(persons, i).first() == persons[i],
        brought_forward(persons, i).drop_first() == persons.remove(i),
{
    broadcast use vstd::seq_lib::group_to_multiset_ensures;

    assert(brought_forward(persons, i).drop_first() =~= persons.remove(i));
    vstd::seq_lib::to_multiset_remove(persons, i);
    vstd::seq_lib::to_multiset_insert(persons.remove(i), 0, persons[i]);
    assert(persons.to_multiset().remove(persons[i]).insert(persons[i]) =~= persons.to_multiset());
}

/// Nobody but an administrator makes others administrators. What is written is about the person in
/// the request, and the log says who did it and which way.
pub proof fn only_admins_appoint(
    request: AddAdmin,
    context: Context,
    websocket_id: Option<ConnectionId>,
    run: Run<AddAdminState, AddAdminResponse>,
    i: int,
    action: Action,
)
    requires
        run_of(request, context, websocket_id, run),
        run.asks(i, action),
        action.writes(),
    ensures
        run.asks(0, Action::UserFromJwt { jwt: request.auth }),
        run.replies[0] matches Reply::User(Ok(user)) && {
            &&& run.passes(1, Action::CheckAdmin { user })
            &&& {
                ||| i == 2 && action == Action::SetAdmin {
                    person_id: request.person_id,
                    added: request.added,
                }
                ||| {
                    &&& i == 3
                    &&& run.replies[2] matches Reply::Person(Ok(person))
                    &&& action == Action::CreateModAdd {
                        form: ModAddForm {
                            mod_person_id: user.person.id,
                            other_person_id: person.id,
                            removed: Some(!request.added),
                        },
                    }
                }
            }
        },
{
    lemma_first_steps(request, context, websocket_id, run);
}

/// The answer lists all administrators, the creator of the site first, and everyone connected is
/// told the same list.
pub proof fn creator_leads_the_list(
    request: AddAdmin,
    context: Context,
    websocket_id: Option<ConnectionId>,
    run: Run<AddAdminState, AddAdminResponse>,
    response: AddAdminResponse,
)
    requires
        run_of(request, context, websocket_id, run),
        run.answers(response),
    ensures
        run.asks(4, Action::ReadSite { site_id: SITE_ID }),
        run.asks(5, Action::ListAdmins),
        ({
            &&& run.replies[4] matches Reply::Site(Ok(site))
            &&& run.replies[5] matches Reply::Admins(Ok(admins))
            &&& with_first(admins@, site.creator_id, response.admins@)
            &&& response.admins@.first().person.id == site.creator_id
            &&& response.admins@.to_multiset() == admins@.to_multiset()
        }),
        run.steps[6] matches Step::Call(_, Action::AnnounceAdmins { message }) && {
            &&& message.op == UserOperation::AddAdmin
            &&& message.response.admins@ == response.admins@
            &&& message.websocket_id == websocket_id
        },
{
    lemma_first_steps(request, context, websocket_id, run);
    let admins = run.replies[5]->Admins_0->Ok_0@;
    let creator_id = run.replies[4]->Site_0->Ok_0.creator_id;
    let i = choose|i: int|
        first_at(admins, creator_id, i) && response.admins@ == brought_forward(admins, i);
    bringing_forward_reorders(admins, i);
}

/// The outcomes on which a request goes through: nothing fails, and the creator of the site is
/// among the administrators.
pub open spec fn goes_through(replies: Seq<Reply>) -> bool {
    &&& replies.len() == 7
    &&& replies[0] matches Reply::User(Ok(_))
    &&& replies[1] matches Reply::Checked(Ok(_))
    &&& replies[2] matches Reply::Person(Ok(_))
    &&& replies[3] matches Reply::Checked(Ok(_))
    &&& replies[4] matches Reply::Site(Ok(site))
    &&& replies[5] matches Reply::Admins(Ok(admins))
    &&& exists|i: int|
        0 <= i < admins@.len() && (#[trigger] admins@[i]).person.id == site.creator_id
    &&& replies[6] is Sent
}

/// A request succeeds exactly on the outcomes on which it goes through. It was then made by an
/// administrator, the person in it was changed, and the change was logged.
pub proof fn appointment_succeeds(
    request: AddAdmin,
    context: Context,
    websocket_id: Option<ConnectionId>,
    run: Run<AddAdminState, AddAdminResponse>,
)
    requires
        run_of(request, context, websocket_id, run),
    ensures
        run.succeeds() <==> goes_through(run.replies),
        run.succeeds() ==> {
            let user = run.replies[0]->User_0->Ok_0;
            &&& run.asks(0, Action::UserFromJwt { jwt: request.auth })
            &&& run.passes(1, Action::CheckAdmin { user })
            &&& run.asks(
                2,
                Action::SetAdmin { person_id: request.person_id, added: request.added },
            )
            &&& run.passes(
                3,
                Action::CreateModAdd {
                    form: ModAddForm {
                        mod_person_id: user.person.id,
                        other_person_id: run.replies[2]->Person_0->Ok_0.id,
                        removed: Some(!request.added),
                    },
                },
            )
        },
{
    lemma_first_steps(request, context, websocket_id, run);
    if run.succeeds() {
        let admins = run.replies[5]->Admins_0->Ok_0@;
        let creator_id = run.replies[4]->Site_0->Ok_0.creator_id;
        let i = choose|i: int| #[trigger]
            first_at(admins, creator_id, i) && run.steps[6]->Call_0->Announcement_0.admins@
                == brought_forward(admins, i);
        assert(admins[i].person.id == creator_id);
    }
}

/// A person is on a list at position `i`, and nowhere before it; the other list holds that entry
/// first, and behind it all others in the order they were in.
pub open spec fn moved_to_front(
    persons: Seq<PersonViewSafe>,
    id: PersonId,
    i: int,
    ordered: Seq<PersonViewSafe>,
) -> bool {
    &&& 0 <= i < persons.len()
    &&& persons[i].person.id == id
    &&& forall|j: int| 0 <= j < i ==> (#[trigger] persons[j]).person.id != id
    &&& ordered.len() == persons.len()
    &&& ordered[0] == persons[i]
    &&& forall|j: int| 0 <= j < i ==> ordered[j + 1] == #[trigger] persons[j]
    &&& forall|j: int| i < j < persons.len() ==> ordered[j] == #[trigger] persons[j]
}

/// Where a person is on a list, the list with that person first is the same list but for the first
/// entry of that person, which has come to the front; where the person is not, there is none.
pub proof fn only_the_first_entry_moves(
    persons: Seq<PersonViewSafe>,
    id: PersonId,
    ordered: Seq<PersonViewSafe>,
)
    ensures
        with_first(persons, id, ordered) <==> exists|i: int| #[trigger]
            moved_to_front(persons, id, i, ordered),
{
    if with_first(persons, id, ordered) {
        let i = choose|i: int| #[trigger]
            first_at(persons, id, i) && ordered == brought_forward(persons, i);
        assert(moved_to_front(persons, id, i, ordered));
    }
    if exists|i: int| #[trigger] moved_to_front(persons, id, i, ordered) {
        let i = choose|i: int| #[trigger] moved_to_front(persons, id, i, ordered);
        assert(first_at(persons, id, i));
        assert forall|k: int| 0 <= k < ordered.len() implies ordered[k] == brought_forward(
            persons,
            i,
        )[k] by {
            if 0 < k <= i {
                assert(ordered[(k - 1) + 1] == persons[k - 1]);
            } else if k > i {
                assert(ordered[k] == persons[k]);
            }
        }
        assert(ordered =~= brought_forward(persons, i));
    }
}

/// An appointment, outcome by outcome. The token finds who asks, who must be an administrator. The
/// person in the request is made an administrator, or one no longer, as the request says; the log
/// says by whom and which way. Then the administrators are listed, the site's creator is brought to
/// the front, and everyone connected, as well as who asks, is told the list.
pub proof fn appointment_outcome_by_outcome(
    request: AddAdmin,
    context: Context,
    websocket_id: Option<ConnectionId>,
    run: Run<AddAdminState, AddAdminResponse>,
)
    requires
        run_of(request, context, websocket_id, run),
    ensures
        run.asks(0, Action::UserFromJwt { jwt: request.auth }),
        run.replies.len() > 0 ==> match run.replies[0] {
            Reply::User(Ok(user)) => run.asks(1, Action::CheckAdmin { user }),
            Reply::User(Err(fault)) => run.fails(1, fault, None),
            _ => false,
        },
        run.replies.len() > 1 ==> match run.replies[1] {
            Reply::Checked(Ok(_)) => run.asks(
                2,
                Action::SetAdmin { person_id: request.person_id, added: request.added },
            ),
            Reply::Checked(Err(fault)) => run.fails(2, fault, None),
            _ => false,
        },
        run.replies.len() > 2 ==> match (run.replies[0], run.replies[2]) {
            (Reply::User(Ok(user)), Reply::Person(Ok(person))) => run.asks(
                3,
                Action::CreateModAdd {
                    form: ModAddForm {
                        mod_person_id: user.person.id,
                        other_person_id: person.id,
                        removed: Some(!request.added),
                    },
                },
            ),
            (Reply::User(Ok(_)), Reply::Person(Err(fault))) => run.fails(
                3,
                fault,
                Some(Message::CouldntUpdateUser),
            ),
            _ => false,
        },
        run.replies.len() > 3 ==> match run.replies[3] {
            Reply::Checked(Ok(_)) => run.asks(4, Action::ReadSite { site_id: 1 }),
            Reply::Checked(Err(fault)) => run.fails(4, fault, None),
            _ => false,
        },
        run.replies.len() > 4 ==> match run.replies[4] {
            Reply::Site(Ok(_)) => run.asks(5, Action::ListAdmins),
            Reply::Site(Err(fault)) => run.fails(5, fault, None),
            _ => false,
        },
        run.replies.len() > 5 ==> match (run.replies[4], run.replies[5]) {
            (Reply::Site(Ok(site)), Reply::Admins(Ok(admins))) => match run.steps[6] {
                Step::Call(_, Action::AnnounceAdmins { message }) => {
                    &&& exists|i: int| #[trigger]
                        moved_to_front(
                            admins@,
                            site.creator_id,
                            i,
                            message.response.admins@,
                        )
                    &&& message.op == UserOperation::AddAdmin
                    &&& message.websocket_id == websocket_id
                },
                Step::Return(Err(LemmyError::CreatorNotAmongAdmins)) => {
                    forall|i: int|
                        0 <= i < admins@.len() ==> (#[trigger] admins@[i]).person.id
                            != site.creator_id
                },
                _ => false,
            },
            (Reply::Site(Ok(_)), Reply::Admins(Err(fault))) => run.fails(6, fault, None),
            _ => false,
        },
        run.replies.len() > 6 ==> {
            &&& run.replies[6] is Sent
            &&& run.steps[6] matches Step::Call(_, Action::AnnounceAdmins { message })
            &&& run.steps[7] matches Step::Return(Ok(response))
            &&& response.admins@ == message.response.admins@
        },
        run.replies.len() <= 7,
{
    lemma_first_steps(request, context, websocket_id, run);
    if run.replies.len() > 5 {
        match run.steps[6] {
            Step::Call(_, Action::AnnounceAdmins { message }) => {
                only_the_first_entry_moves(
                    run.replies[5]->Admins_0->Ok_0@,
                    run.replies[4]->Site_0->Ok_0.creator_id,
                    message.response.admins@,
                );
            },
            _ => {},
        }
    }
}

} // verus!
