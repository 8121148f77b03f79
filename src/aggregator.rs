use vstd::prelude::*;
use crate::model::{
    ActiveSessionChange, ActiveSessionRemove, SessionCreate, SessionModel, SessionRemove,
    SessionUpdate,
};
use crate::registry::{after_remove, is_active, SessionRegistry};

verus! {

/// A manager-level notification of the session broker.
#[derive(Debug, Clone, PartialEq, Eq)]
pub enum ManagerEvent {
    /// A session of this source appeared.
    SessionCreated { source: String },
    /// The session with this id went away.
    SessionRemoved { session_id: usize },
    /// The broker's current session changed, or there is none any more.
    CurrentSessionChanged { session_id: Option<usize> },
}

/// A notification from one session's own stream, with the snapshot rebuilt
/// from the session's then-current properties.
#[derive(Debug, Clone, PartialEq, Eq)]
pub enum SessionUpdateEvent {
    /// Playback, timeline or metadata changed; no new image.
    Model(SessionModel),
    /// Media metadata changed, possibly with a new thumbnail.
    Media(SessionModel, Option<Vec<u8>>),
}

/// An event for the consumer, one variant per event name.
#[derive(Debug, Clone, PartialEq, Eq)]
pub enum MediaEvent {
    SessionCreate(SessionCreate),
    SessionUpdate(SessionUpdate),
    SessionRemove(SessionRemove),
    CurrentSessionChange(ActiveSessionChange),
    CurrentSessionRemove(ActiveSessionRemove),
}

/// What the caller of the aggregator is to do, in order.
#[derive(Debug, Clone, PartialEq, Eq)]
pub enum Action {
    /// Deliver the event to the consumer.
    Emit(MediaEvent),
    /// Start the task that follows this session's own stream.
    Subscribe { session_id: usize },
    /// Cancel that task; it may emit nothing after this.
    Unsubscribe { session_id: usize },
}

/// The record of one emitted event, by kind and session id.
pub enum Emitted {
    Create(nat),
    Update(nat),
    Remove(nat),
    CurrentChange(nat),
    CurrentRemove,
}

/// One input of the aggregator: a manager event, or an update that the
/// stream of the given session delivered.
pub enum BrokerInput {
    Created(String),
    Removed(nat),
    CurrentChanged(Option<nat>),
    Update(nat),
}

/// The aggregator's state: the registry, the current-session pointer and
/// everything emitted so far.
pub struct AggregatorView {
    pub sessions: Seq<Option<String>>,
    pub current: Option<nat>,
    pub log: Seq<Emitted>,
}

pub open spec fn initial() -> AggregatorView {
    AggregatorView { sessions: Seq::empty(), current: None, log: Seq::empty() }
}

/// One transition. A create registers the next id and emits its create event;
/// a removal of an active id removes it and emits its remove event, of any
/// other id does nothing; a current-session change sets or clears the pointer
/// and is passed on as it came; an update is emitted only for an active id.
pub open spec fn step(v: AggregatorView, input: BrokerInput) -> AggregatorView {
    match input {
        BrokerInput::Created(source) => if v.sessions.len() < usize::MAX {
            AggregatorView {
                sessions: v.sessions.push(Some(source)),
                log: v.log.push(Emitted::Create(v.sessions.len())),
                ..v
            }
        } else {
            v
        },
        BrokerInput::Removed(id) => if is_active(v.sessions, id) {
            AggregatorView {
                sessions: after_remove(v.sessions, id),
                log: v.log.push(Emitted::Remove(id)),
                ..v
            }
        } else {
            v
        },
        BrokerInput::CurrentChanged(Some(id)) => AggregatorView {
            current: Some(id),
            log: v.log.push(Emitted::CurrentChange(id)),
            ..v
        },
        BrokerInput::CurrentChanged(None) => AggregatorView {
            current: None,
            log: v.log.push(Emitted::CurrentRemove),
            ..v
        },
        BrokerInput::Update(id) => if is_active(v.sessions, id) {
            AggregatorView { log: v.log.push(Emitted::Update(id)), ..v }
        } else {
            v
        },
    }
}

/// The state after a sequence of inputs, from the initial state.
pub open spec fn run(inputs: Seq<BrokerInput>) -> AggregatorView
    decreases inputs.len(),
{
    if inputs.len() == 0 {
        initial()
    } else {
        step(run(inputs.drop_last()), inputs.last())
    }
}

/// Some event before position `bound` of the log is the create event of `id`.
pub open spec fn created_before(log: Seq<Emitted>, id: nat, bound: int) -> bool {
    exists|j: int| 0 <= j < bound && #[trigger] log[j] == Emitted::Create(id)
}

/// Every update event in the log comes after the create event of its id.
pub open spec fn create_precedes_update(log: Seq<Emitted>) -> bool {
    forall|i: int|
        0 <= i < log.len() && (#[trigger] log[i]) is Update ==> created_before(
            log,
            log[i]->Update_0,
            i,
        )
}

/// What a reachable state keeps: the order of creates and updates, and a
/// create event for every active id.
pub open spec fn reachable_inv(v: AggregatorView) -> bool {
    &&& create_precedes_update(v.log)
    &&& forall|id: nat| #[trigger] is_active(v.sessions, id) ==> created_before(v.log, id, v.log.len() as int)
}

impl ManagerEvent {
    pub open spec fn input(&self) -> BrokerInput {
        match *self {
            ManagerEvent::SessionCreated { source } => BrokerInput::Created(source),
            ManagerEvent::SessionRemoved { session_id } => BrokerInput::Removed(session_id as nat),
            ManagerEvent::CurrentSessionChanged { session_id } => BrokerInput::CurrentChanged(
                match session_id {
                    Some(id) => Some(id as nat),
                    None => None,
                },
            ),
        }
    }
}

impl SessionUpdateEvent {
    pub open spec fn model(&self) -> SessionModel {
        match *self {
            SessionUpdateEvent::Model(m) => m,
            SessionUpdateEvent::Media(m, _) => m,
        }
    }

    pub open spec fn image(&self) -> Option<Vec<u8>> {
        match *self {
            SessionUpdateEvent::Model(_) => None,
            SessionUpdateEvent::Media(_, image) => image,
        }
    }
}

/// The actions that a manager event calls for in state `v`: the create event
/// then the subscription of a new session; the cancellation of a removed
/// session's task then its remove event; the current-session event.
pub open spec fn actions_for(v: AggregatorView, event: ManagerEvent) -> Seq<Action> {
    match event {
        ManagerEvent::SessionCreated { source } => if v.sessions.len() < usize::MAX {
            seq![
                Action::Emit(
                    MediaEvent::SessionCreate(
                        SessionCreate { session_id: v.sessions.len() as usize, source },
                    ),
                ),
                Action::Subscribe { session_id: v.sessions.len() as usize },
            ]
        } else {
            Seq::empty()
        },
        ManagerEvent::SessionRemoved { session_id } => if is_active(v.sessions, session_id as nat) {
            seq![
                Action::Unsubscribe { session_id },
                Action::Emit(MediaEvent::SessionRemove(SessionRemove { session_id })),
            ]
        } else {
            Seq::empty()
        },
        ManagerEvent::CurrentSessionChanged { session_id: Some(id) } => seq![
            Action::Emit(MediaEvent::CurrentSessionChange(ActiveSessionChange { session_id: id })),
        ],
        ManagerEvent::CurrentSessionChanged { session_id: None } => seq![
            Action::Emit(MediaEvent::CurrentSessionRemove(ActiveSessionRemove)),
        ],
    }
}

proof fn lemma_created_persists(log: Seq<Emitted>, e: Emitted, id: nat, bound: int)
    requires
        created_before(log, id, bound),
        bound <= log.len(),
    ensures
        created_before(log.push(e), id, bound),
{
    let j = choose|j: int| 0 <= j < bound && #[trigger] log[j] == Emitted::Create(id);
    assert(log.push(e)[j] == Emitted::Create(id));
}

proof fn lemma_step_keeps_inv(v: AggregatorView, input: BrokerInput)
    requires
        reachable_inv(v),
    ensures
        reachable_inv(step(v, input)),
{
    let w = step(v, input);
    if w.log.len() == v.log.len() {
        assert(w == v);
        return;
    }
    let e = w.log.last();
    assert(w.log == v.log.push(e));
    assert forall|i: int| 0 <= i < w.log.len() && (#[trigger] w.log[i]) is Update implies created_before(
        w.log,
        w.log[i]->Update_0,
        i,
    ) by {
        if i < v.log.len() {
            assert(w.log[i] == v.log[i]);
            lemma_created_persists(v.log, e, v.log[i]->Update_0, i);
        } else {
            let id = w.log[i]->Update_0;
            assert(input == BrokerInput::Update(id));
            assert(is_active(v.sessions, id));
            lemma_created_persists(v.log, e, id, v.log.len() as int);
        }
    }
    assert forall|id: nat| #[trigger] is_active(w.sessions, id) implies created_before(
        w.log,
        id,
        w.log.len() as int,
    ) by {
        if is_active(v.sessions, id) {
            lemma_created_persists(v.log, e, id, v.log.len() as int);
            let j = choose|j: int| 0 <= j < v.log.len() && #[trigger] w.log[j] == Emitted::Create(id);
            assert(w.log[j] == Emitted::Create(id));
        } else {
            assert(id == v.sessions.len());
            assert(w.log[v.log.len() as int] == Emitted::Create(id));
        }
    }
}

proof fn lemma_run_keeps_inv(inputs: Seq<BrokerInput>)
    ensures
        reachable_inv(run(inputs)),
    decreases inputs.len(),
{
    if inputs.len() > 0 {
        lemma_run_keeps_inv(inputs.drop_last());
        lemma_step_keeps_inv(run(inputs.drop_last()), inputs.last());
    }
}

/// For every sequence of broker inputs, each `session_update` event is
/// emitted after the `session_create` event of the same session id.
pub proof fn lemma_create_precedes_update(inputs: Seq<BrokerInput>)
    ensures
        create_precedes_update(run(inputs).log),
{
    lemma_run_keeps_inv(inputs);
}

/// Removing a session id that is not active (never created, or already
/// removed) changes nothing and calls for no action.
pub proof fn lemma_remove_unknown_is_noop(v: AggregatorView, session_id: usize)
    requires
        !is_active(v.sessions, session_id as nat),
    ensures
        step(v, BrokerInput::Removed(session_id as nat)) == v,
        actions_for(v, ManagerEvent::SessionRemoved { session_id }) == Seq::<Action>::empty(),
{
}

/// The current-session pointer holds at most one id: a change followed by a
/// removal leaves it unset, and two changes leave only the second id current.
pub proof fn lemma_current_pointer(v: AggregatorView, first: nat, second: nat)
    ensures
        step(
            step(v, BrokerInput::CurrentChanged(Some(first))),
            BrokerInput::CurrentChanged(None),
        ).current is None,
        step(
            step(v, BrokerInput::CurrentChanged(Some(first))),
            BrokerInput::CurrentChanged(Some(second)),
        ).current == Some(second),
{
}

/// After a session's removal its updates are dropped: whatever its stream
/// still delivers leaves the state as it is and emits nothing.
pub proof fn lemma_no_update_after_remove(v: AggregatorView, session_id: nat)
    ensures
        ({
            let w = step(v, BrokerInput::Removed(session_id));
            step(w, BrokerInput::Update(session_id)) == w
        }),
{
}

/// Ids are never reused, and a session keeps its source while it is active:
/// an id that is not active stays so, unless it is the fresh id of a create.
pub proof fn lemma_ids_stable(v: AggregatorView, input: BrokerInput, id: nat)
    ensures
        is_active(v.sessions, id) && is_active(step(v, input).sessions, id) ==> step(
            v,
            input,
        ).sessions[id as int] == v.sessions[id as int],
        id < v.sessions.len() && !is_active(v.sessions, id) ==> !is_active(
            step(v, input).sessions,
            id,
        ),
        step(v, input).sessions.len() >= v.sessions.len(),
{
}

/// A session's task is started exactly when the session becomes active and
/// cancelled exactly when it stops being active.
pub proof fn lemma_subscriptions_follow_activity(v: AggregatorView, event: ManagerEvent, id: usize)
    requires
        v.sessions.len() <= usize::MAX,
    ensures
        actions_for(v, event).contains(Action::Subscribe { session_id: id }) <==> (!is_active(
            v.sessions,
            id as nat,
        ) && is_active(step(v, event.input()).sessions, id as nat)),
        actions_for(v, event).contains(Action::Unsubscribe { session_id: id }) <==> (is_active(
            v.sessions,
            id as nat,
        ) && !is_active(step(v, event.input()).sessions, id as nat)),
{
    let acts = actions_for(v, event);
    match event {
        ManagerEvent::SessionCreated { source } => {
            if v.sessions.len() < usize::MAX {
                let fresh = v.sessions.len() as usize;
                assert(acts[1] == Action::Subscribe { session_id: fresh });
                if acts.contains(Action::Subscribe { session_id: id }) {
                    let k = choose|k: int| 0 <= k < acts.len() && acts[k] == Action::Subscribe { session_id: id };
                    assert(k == 1);
                }
                assert(!acts.contains(Action::Unsubscribe { session_id: id }));
            }
        },
        ManagerEvent::SessionRemoved { session_id } => {
            if is_active(v.sessions, session_id as nat) {
                assert(acts[0] == Action::Unsubscribe { session_id });
                if acts.contains(Action::Unsubscribe { session_id: id }) {
                    let k = choose|k: int| 0 <= k < acts.len() && acts[k] == Action::Unsubscribe { session_id: id };
                    assert(k == 0);
                }
                assert(!acts.contains(Action::Subscribe { session_id: id }));
            }
        },
        ManagerEvent::CurrentSessionChanged { session_id } => {
            assert(!acts.contains(Action::Subscribe { session_id: id }));
            assert(!acts.contains(Action::Unsubscribe { session_id: id }));
        },
    }
}

/// Turns the broker's notifications into one sequence of consumer events,
/// keeping the registry and the current-session pointer.
pub struct EventAggregator {
    registry: SessionRegistry,
    current: Option<usize>,
    log: Ghost<Seq<Emitted>>,
}

impl View for EventAggregator {
    type V = AggregatorView;

    closed spec fn view(&self) -> AggregatorView {
        AggregatorView {
            sessions: self.registry@,
            current: match self.current {
                Some(id) => Some(id as nat),
                None => None,
            },
            log: self.log@,
        }
    }
}

impl EventAggregator {
    pub fn new() -> (r: EventAggregator)
        ensures
            r@ == initial(),
    {
        EventAggregator { registry: SessionRegistry::new(), current: None, log: Ghost(Seq::empty()) }
    }

    /// The registry of live sessions.
    pub fn registry(&self) -> (r: &SessionRegistry)
        ensures
            r@ == self@.sessions,
    {
        &self.registry
    }

    /// The current session, if the broker named one.
    pub fn current_session(&self) -> (r: Option<usize>)
        ensures
            r is Some <==> self@.current is Some,
            r is Some ==> r->Some_0 as nat == self@.current->Some_0,
    {
        self.current
    }

    /// Handles a manager-level event and says what the caller is to do.
    pub fn handle_manager_event(&mut self, event: ManagerEvent) -> (r: Vec<Action>)
        ensures
            final(self)@ == step(old(self)@, event.input()),
            r@ == actions_for(old(self)@, event),
    {
        match event {
            ManagerEvent::SessionCreated { source } => {
                if !self.registry.has_room() {
                    return Vec::new();
                }
                let id = self.registry.register(source.clone());
                self.log = Ghost(self.log@.push(Emitted::Create(id as nat)));
                let mut actions: Vec<Action> = Vec::new();
                actions.push(
                    Action::Emit(MediaEvent::SessionCreate(SessionCreate { session_id: id, source })),
                );
                actions.push(Action::Subscribe { session_id: id });
                proof {
                    assert(actions@ =~= actions_for(old(self)@, event));
                }
                actions
            },
            ManagerEvent::SessionRemoved { session_id } => {
                if !self.registry.contains(session_id) {
                    return Vec::new();
                }
                self.registry.remove(session_id);
                self.log = Ghost(self.log@.push(Emitted::Remove(session_id as nat)));
                let mut actions: Vec<Action> = Vec::new();
                actions.push(Action::Unsubscribe { session_id });
                actions.push(Action::Emit(MediaEvent::SessionRemove(SessionRemove { session_id })));
                proof {
                    assert(actions@ =~= actions_for(old(self)@, event));
                }
                actions
            },
            ManagerEvent::CurrentSessionChanged { session_id: Some(id) } => {
                self.current = Some(id);
                self.log = Ghost(self.log@.push(Emitted::CurrentChange(id as nat)));
                let mut actions: Vec<Action> = Vec::new();
                actions.push(
                    Action::Emit(MediaEvent::CurrentSessionChange(ActiveSessionChange { session_id: id })),
                );
                proof {
                    assert(actions@ =~= actions_for(old(self)@, event));
                }
                actions
            },
            ManagerEvent::CurrentSessionChanged { session_id: None } => {
                self.current = None;
                self.log = Ghost(self.log@.push(Emitted::CurrentRemove));
                let mut actions: Vec<Action> = Vec::new();
                actions.push(Action::Emit(MediaEvent::CurrentSessionRemove(ActiveSessionRemove)));
                proof {
                    assert(actions@ =~= actions_for(old(self)@, event));
                }
                actions
            },
        }
    }

    /// Handles an update from the stream of `session_id`. It is emitted only
    /// while that session is active: after its removal, nothing more of it is.
    pub fn handle_session_update(&mut self, session_id: usize, event: SessionUpdateEvent) -> (r:
        Option<SessionUpdate>)
        ensures
            final(self)@ == step(old(self)@, BrokerInput::Update(session_id as nat)),
            r is Some <==> is_active(old(self)@.sessions, session_id as nat),
            r is Some ==> r->Some_0 == (SessionUpdate {
                session_id,
                source: old(self)@.sessions[session_id as int]->Some_0,
                session_model: event.model(),
                image: event.image(),
            }),
    {
        let source = match self.registry.lookup(session_id) {
            Some(s) => s,
            None => {
                return None;
            },
        };
        self.log = Ghost(self.log@.push(Emitted::Update(session_id as nat)));
        match event {
            SessionUpdateEvent::Model(session_model) => Some(
                SessionUpdate { session_id, source, session_model, image: None },
            ),
            SessionUpdateEvent::Media(session_model, image) => Some(
                SessionUpdate { session_id, source, session_model, image },
            ),
        }
    }
}

} // verus!
