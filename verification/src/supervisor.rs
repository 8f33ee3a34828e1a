//! The supervisor of one unit, as a state machine. The caller runs the
//! loop: it performs the action that a step asks for and hands the outcome
//! back as the next event.

use crate::monitor::{
    check_identity, check_liveness, identity_verdict, liveness_verdict, Lookup, LookupModel,
    Verdict,
};
use crate::process::{PollStatus, ProcessHandle};
use crate::text::{copy_text, text_of};
use vstd::prelude::*;

verus! {

/// Pause before the target of a filtered unit is looked up again.
pub const RESOLVE_BACKOFF_MS: u64 = 1500;

/// Pause before a failed spawn is tried again.
pub const SPAWN_BACKOFF_MS: u64 = 2000;

/// Pause between two monitor ticks of a supervised unit.
pub const POLL_INTERVAL_MS: u64 = 1000;

/// Pause between two completion checks of a one-shot unit.
pub const ONE_SHOT_POLL_MS: u64 = 500;

/// Pause before a unit without a filter is spawned again.
pub const RESTART_PAUSE_MS: u64 = 1000;

/// What happens when the process of a unit ends by itself.
#[derive(Clone, Copy, Debug, PartialEq, Eq, Structural)]
pub enum Policy {
    /// The process is meant to run until stopped: it is spawned again.
    Supervised,
    /// The process is a single run: its end is the end of the unit.
    OneShot,
}

#[derive(Clone, Copy, Debug, PartialEq, Eq, Structural)]
pub enum Phase {
    Idle,
    Resolving,
    Running,
    Restarting,
    Stopped,
}

/// How a one-shot unit ended.
#[derive(Clone, Copy, Debug, PartialEq, Eq, Structural)]
pub enum Completion {
    /// The process exited with this code.
    Exited(i32),
    /// The process is gone but its status could not be read.
    StatusUnknown,
    /// The process could not be spawned.
    NotStarted,
}

/// What the caller reports to the supervisor.
#[derive(Clone, Debug, PartialEq, Eq)]
pub enum Event {
    /// The unit was admitted.
    Start,
    /// The identity lookup that was asked for came back.
    Resolved(Lookup),
    /// The spawn that was asked for gave a process with this id.
    Spawned(u32),
    /// The spawn that was asked for failed.
    SpawnFailed,
    /// The liveness query that was asked for came back.
    Polled(PollStatus),
    /// The wait that was asked for is over.
    Woke,
    /// The termination that was asked for was carried out.
    Killed,
}

pub enum EventModel {
    Start,
    Resolved(LookupModel),
    Spawned(u32),
    SpawnFailed,
    Polled(PollStatus),
    Woke,
    Killed,
}

impl View for Event {
    type V = EventModel;

    open spec fn view(&self) -> EventModel {
        match self {
            Event::Start => EventModel::Start,
            Event::Resolved(lookup) => EventModel::Resolved(lookup@),
            Event::Spawned(pid) => EventModel::Spawned(*pid),
            Event::SpawnFailed => EventModel::SpawnFailed,
            Event::Polled(status) => EventModel::Polled(*status),
            Event::Woke => EventModel::Woke,
            Event::Killed => EventModel::Killed,
        }
    }
}

/// What the supervisor asks the caller to do next.
#[derive(Clone, Debug, PartialEq, Eq)]
pub enum Action {
    /// Look up the identity of the filtered target.
    Resolve,
    /// Spawn the process, for this identity if there is one. Its output
    /// relays start as soon as the unit has taken the process.
    Spawn { identity: Option<String> },
    /// Sleep for this many milliseconds.
    Wait(u64),
    /// Query the liveness of the current process without blocking.
    Poll,
    /// Terminate the process with this id, and all it has spawned.
    Kill(u32),
    /// Announce the end of a one-shot unit and remove it.
    Finish(Completion),
    /// Leave the loop.
    Exit,
}

pub enum ActionModel {
    Resolve,
    Spawn { identity: Option<Seq<char>> },
    Wait(u64),
    Poll,
    Kill(u32),
    Finish(Completion),
    Exit,
}

impl View for Action {
    type V = ActionModel;

    open spec fn view(&self) -> ActionModel {
        match self {
            Action::Resolve => ActionModel::Resolve,
            Action::Spawn { identity } => ActionModel::Spawn { identity: text_of(*identity) },
            Action::Wait(ms) => ActionModel::Wait(*ms),
            Action::Poll => ActionModel::Poll,
            Action::Kill(pid) => ActionModel::Kill(*pid),
            Action::Finish(completion) => ActionModel::Finish(*completion),
            Action::Exit => ActionModel::Exit,
        }
    }
}

pub struct SupervisorModel {
    pub policy: Policy,
    pub filtered: bool,
    pub phase: Phase,
    /// The identity that the current process was spawned for.
    pub identity: Option<Seq<char>>,
    pub handle: Option<ProcessHandle>,
}

pub open spec fn poll_interval(policy: Policy) -> u64 {
    match policy {
        Policy::Supervised => POLL_INTERVAL_MS,
        Policy::OneShot => ONE_SHOT_POLL_MS,
    }
}

pub open spec fn completion_of(status: PollStatus) -> Completion {
    match status {
        PollStatus::Exited(code) => Completion::Exited(code),
        _ => Completion::StatusUnknown,
    }
}

impl SupervisorModel {
    pub open spec fn idle(policy: Policy, filtered: bool) -> SupervisorModel {
        SupervisorModel { policy, filtered, phase: Phase::Idle, identity: None, handle: None }
    }

    /// What holds of every state that a unit can be in.
    pub open spec fn wf(self) -> bool {
        &&& self.phase == Phase::Idle ==> self.handle is None && self.identity is None
        &&& self.phase == Phase::Resolving ==> self.handle is None
        &&& self.phase == Phase::Running ==> self.handle is Some
        &&& self.phase == Phase::Restarting ==> self.handle is Some
        &&& self.filtered || self.identity is None
    }

    /// The unit is stopped for good. If it still holds a process, that
    /// process is to be killed; if not, the loop ends.
    pub open spec fn halt(self) -> (SupervisorModel, ActionModel) {
        match self.handle {
            Some(handle) => (
                SupervisorModel { phase: Phase::Stopped, handle: None, ..self },
                ActionModel::Kill(handle.pid),
            ),
            None => (SupervisorModel { phase: Phase::Stopped, ..self }, ActionModel::Exit),
        }
    }

    /// A process that nothing asked for has appeared: the unit stops and
    /// that process is to be killed first.
    pub open spec fn reject(self, pid: u32) -> (SupervisorModel, ActionModel) {
        (SupervisorModel { phase: Phase::Stopped, ..self }, ActionModel::Kill(pid))
    }

    /// The next spawn attempt: with a filter the target is looked up
    /// first, without one the process is spawned as it is.
    pub open spec fn attempt(self) -> (SupervisorModel, ActionModel) {
        let next = SupervisorModel { phase: Phase::Resolving, ..self };
        if self.filtered {
            (next, ActionModel::Resolve)
        } else {
            (next, ActionModel::Spawn { identity: None })
        }
    }

    /// The process is to be replaced: it is killed and the unit waits for
    /// that to be done.
    pub open spec fn restart(self, handle: ProcessHandle) -> (SupervisorModel, ActionModel) {
        (SupervisorModel { phase: Phase::Restarting, ..self }, ActionModel::Kill(handle.pid))
    }

    pub open spec fn step_idle(self, event: EventModel) -> (SupervisorModel, ActionModel) {
        match event {
            EventModel::Start => self.attempt(),
            EventModel::Spawned(pid) => self.reject(pid),
            _ => self.halt(),
        }
    }

    pub open spec fn step_resolving(self, event: EventModel) -> (SupervisorModel, ActionModel) {
        match event {
            EventModel::Woke => self.attempt(),
            EventModel::Resolved(lookup) => if !self.filtered {
                self.halt()
            } else {
                match lookup.identity() {
                    Some(id) => (
                        SupervisorModel { identity: Some(id), ..self },
                        ActionModel::Spawn { identity: Some(id) },
                    ),
                    None => (self, ActionModel::Wait(RESOLVE_BACKOFF_MS)),
                }
            },
            EventModel::Spawned(pid) => match self.handle {
                None => (
                    SupervisorModel {
                        phase: Phase::Running,
                        handle: Some(ProcessHandle::fresh(pid)),
                        ..self
                    },
                    ActionModel::Wait(poll_interval(self.policy)),
                ),
                Some(_) => self.reject(pid),
            },
            EventModel::SpawnFailed => match self.policy {
                Policy::Supervised => (self, ActionModel::Wait(SPAWN_BACKOFF_MS)),
                Policy::OneShot => (
                    SupervisorModel { phase: Phase::Stopped, ..self },
                    ActionModel::Finish(Completion::NotStarted),
                ),
            },
            _ => self.halt(),
        }
    }

    pub open spec fn step_running(self, event: EventModel) -> (SupervisorModel, ActionModel) {
        match self.handle {
            None => match event {
                EventModel::Spawned(pid) => self.reject(pid),
                _ => self.halt(),
            },
            Some(handle) => match event {
                EventModel::Woke => (self, ActionModel::Poll),
                EventModel::Polled(status) => if liveness_verdict(Some(status))
                    == Verdict::NoAction {
                    if self.filtered {
                        (self, ActionModel::Resolve)
                    } else {
                        (self, ActionModel::Wait(poll_interval(self.policy)))
                    }
                } else {
                    match self.policy {
                        Policy::Supervised => self.restart(handle),
                        Policy::OneShot => (
                            SupervisorModel { phase: Phase::Stopped, handle: None, ..self },
                            ActionModel::Finish(completion_of(status)),
                        ),
                    }
                },
                EventModel::Resolved(lookup) => if !self.filtered {
                    self.halt()
                } else if identity_verdict(self.identity, lookup) == Verdict::NoAction {
                    (self, ActionModel::Wait(poll_interval(self.policy)))
                } else {
                    self.restart(handle)
                },
                EventModel::Spawned(pid) => self.reject(pid),
                _ => self.halt(),
            },
        }
    }

    pub open spec fn step_restarting(self, event: EventModel) -> (SupervisorModel, ActionModel) {
        match event {
            EventModel::Killed => {
                let next = SupervisorModel {
                    phase: Phase::Resolving,
                    handle: None,
                    identity: None,
                    ..self
                };
                if self.filtered {
                    (next, ActionModel::Resolve)
                } else {
                    (next, ActionModel::Wait(RESTART_PAUSE_MS))
                }
            },
            EventModel::Spawned(pid) => self.reject(pid),
            _ => self.halt(),
        }
    }

    pub open spec fn step_stopped(self, event: EventModel) -> (SupervisorModel, ActionModel) {
        match event {
            EventModel::Spawned(pid) => self.reject(pid),
            _ => self.halt(),
        }
    }

    /// The transition function: the state after `event` and the action
    /// that the caller is to perform.
    pub open spec fn step(self, event: EventModel) -> (SupervisorModel, ActionModel) {
        match self.phase {
            Phase::Idle => self.step_idle(event),
            Phase::Resolving => self.step_resolving(event),
            Phase::Running => self.step_running(event),
            Phase::Restarting => self.step_restarting(event),
            Phase::Stopped => self.step_stopped(event),
        }
    }

    /// The state after a stop request.
    pub open spec fn stopped(self) -> SupervisorModel {
        SupervisorModel { phase: Phase::Stopped, handle: None, ..self }
    }

    /// The state after the events of `events`, first to last.
    pub open spec fn run(self, events: Seq<EventModel>) -> SupervisorModel
        decreases events.len(),
    {
        if events.len() == 0 {
            self
        } else {
            self.run(events.drop_last()).step(events.last()).0
        }
    }
}

/// Every step leads from a well-formed state to a well-formed state: a
/// running or restarting unit always holds a process, an idle or resolving
/// one never does.
pub proof fn lemma_step_keeps_wf(s: SupervisorModel, event: EventModel)
    requires
        s.wf(),
    ensures
        s.step(event).0.wf(),
        s.step(event).0.policy == s.policy,
        s.step(event).0.filtered == s.filtered,
{
}

/// A stopped unit stays stopped, whatever is reported to it.
pub proof fn lemma_stopped_is_terminal(s: SupervisorModel, event: EventModel)
    requires
        s.phase == Phase::Stopped,
    ensures
        s.step(event).0.phase == Phase::Stopped,
        !(s.step(event).1 is Spawn),
        !(s.step(event).1 is Resolve),
        !(s.step(event).1 is Wait),
        !(s.step(event).1 is Poll),
{
}

/// Once stopped, no sequence of events brings a unit back.
pub proof fn lemma_stopped_forever(s: SupervisorModel, events: Seq<EventModel>)
    requires
        s.phase == Phase::Stopped,
    ensures
        s.run(events).phase == Phase::Stopped,
    decreases events.len(),
{
    if events.len() > 0 {
        lemma_stopped_forever(s, events.drop_last());
    }
}

/// No process is lost track of. One that is reported as spawned is either
/// taken as the unit's process or ordered killed at once; and a process
/// that the unit held is given up only with the order to kill it, on the
/// report that the kill ordered for a restart was carried out, or when a
/// one-shot unit has seen it end.
pub proof fn lemma_no_process_leaks(s: SupervisorModel, event: EventModel)
    ensures
        event matches EventModel::Spawned(pid) ==> {
            ||| s.step(event).1 == ActionModel::Kill(pid) && s.step(event).0.handle == s.handle
            ||| s.handle is None && s.step(event).0.handle == Some(ProcessHandle::fresh(pid))
                && s.step(event).0.phase == Phase::Running
        },
        s.handle matches Some(handle) ==> {
            ||| s.step(event).0.handle == s.handle
            ||| s.step(event).1 == ActionModel::Kill(handle.pid)
            ||| {
                &&& s.step(event).1 is Finish
                &&& s.policy == Policy::OneShot
                &&& event is Polled
                &&& !event->Polled_0.is_alive()
            }
            ||| s.phase == Phase::Restarting && event is Killed
        },
        s.step(event).0.handle is Some ==> s.handle is Some || event is Spawned,
{
}

/// The processes that were reported as spawned and of which nothing has
/// said since that they are gone: no kill was ordered for them, and no
/// poll of a one-shot unit has seen them end.
pub open spec fn outstanding(before: Set<u32>, event: EventModel, action: ActionModel) -> Set<u32> {
    let spawned = match event {
        EventModel::Spawned(pid) => before.insert(pid),
        _ => before,
    };
    match action {
        ActionModel::Kill(pid) => spawned.remove(pid),
        ActionModel::Finish(_) => Set::empty(),
        _ => spawned,
    }
}

/// The processes that a unit answers for: the one it holds, if any.
pub open spec fn held(s: SupervisorModel) -> Set<u32> {
    match s.handle {
        Some(handle) => set![handle.pid],
        None => Set::empty(),
    }
}

/// Whether the unit answers for every outstanding process: each is the
/// process that the unit holds, and while a restart waits for its kill
/// to be carried out nothing is outstanding.
pub open spec fn accounted(s: SupervisorModel, alive: Set<u32>) -> bool {
    &&& s.wf()
    &&& alive.subset_of(held(s))
    &&& s.phase == Phase::Restarting ==> alive =~= Set::<u32>::empty()
}

/// At every step, each outstanding process is one that the unit holds:
/// no process that was spawned for a unit is ever left to itself.
pub proof fn lemma_processes_accounted(s: SupervisorModel, before: Set<u32>, event: EventModel)
    requires
        accounted(s, before),
    ensures
        accounted(s.step(event).0, outstanding(before, event, s.step(event).1)),
        accounted(
            SupervisorModel::idle(s.policy, s.filtered),
            Set::<u32>::empty(),
        ),
{
    lemma_step_keeps_wf(s, event);
}

/// A one-shot unit is finished only on the report that its process has
/// ended or could not be spawned.
pub proof fn lemma_finish_needs_an_end(s: SupervisorModel, event: EventModel)
    requires
        s.step(event).1 is Finish,
    ensures
        s.policy == Policy::OneShot,
        s.step(event).0.phase == Phase::Stopped,
        event is SpawnFailed || (event is Polled && !event->Polled_0.is_alive()),
        event is SpawnFailed ==> s.step(event).1 == ActionModel::Finish(Completion::NotStarted)
            && s.step(event).0.handle == s.handle,
        event is Polled ==> s.step(event).1 == ActionModel::Finish(
            completion_of(event->Polled_0),
        ) && s.step(event).0.handle is None,
{
}

/// A stop request leaves nothing outstanding once the process it names
/// is killed.
pub proof fn lemma_stop_accounts(s: SupervisorModel, before: Set<u32>)
    requires
        accounted(s, before),
    ensures
        held(s.stopped()) == Set::<u32>::empty(),
        match s.handle {
            Some(handle) => before.remove(handle.pid) == Set::<u32>::empty(),
            None => before == Set::<u32>::empty(),
        },
{
    match s.handle {
        Some(handle) => {
        },
        None => {
        },
    }
}

/// A spawn is ordered only while resolving, never while a process is
/// held, and for a filtered unit only on the report that its target was
/// found active, with the identity from that very report.
pub proof fn lemma_spawn_needs_match(s: SupervisorModel, event: EventModel)
    requires
        s.wf(),
        s.step(event).1 is Spawn,
    ensures
        s.step(event).0.phase == Phase::Resolving,
        s.step(event).0.handle is None,
        s.phase == Phase::Idle || s.phase == Phase::Resolving,
        s.filtered ==> {
            &&& event is Resolved
            &&& event->Resolved_0 is Found
            &&& s.step(event).1 == (ActionModel::Spawn { identity: event->Resolved_0.identity() })
            &&& s.step(event).0.identity == event->Resolved_0.identity()
        },
        !s.filtered ==> s.step(event).1 == (ActionModel::Spawn { identity: None }),
{
}

/// While its target is not found active, a filtered unit that is
/// resolving only waits: it stays as it is and orders the backoff.
pub proof fn lemma_no_match_waits(s: SupervisorModel, lookup: LookupModel)
    requires
        s.phase == Phase::Resolving,
        s.filtered,
        !(lookup is Found),
    ensures
        s.step(EventModel::Resolved(lookup)) == (s, ActionModel::Wait(RESOLVE_BACKOFF_MS)),
{
}

/// The events of a unit that looks its target up in vain: after each
/// lookup that finds nothing it waits, and the wake is reported.
pub open spec fn waiting_rounds(misses: Seq<LookupModel>) -> Seq<EventModel>
    decreases misses.len(),
{
    if misses.len() == 0 {
        Seq::empty()
    } else {
        waiting_rounds(misses.drop_last()).push(EventModel::Resolved(misses.last())).push(
            EventModel::Woke,
        )
    }
}

/// The state of a filtered unit that was started and holds no process
/// yet.
pub open spec fn resolving(policy: Policy) -> SupervisorModel {
    SupervisorModel { phase: Phase::Resolving, ..SupervisorModel::idle(policy, true) }
}

/// A started filtered unit spawns nothing until its target is found.
/// The start orders a lookup. However many lookups find the target
/// absent, stale or not to be looked up, each leaves the unit as it is and
/// orders the backoff, and each wake orders the next lookup. The lookup
/// that finds the target orders the spawn for the identity found, and only
/// the report of that spawn makes the unit running.
pub proof fn lemma_waits_until_found(
    policy: Policy,
    misses: Seq<LookupModel>,
    identity: Seq<char>,
    pid: u32,
)
    requires
        forall|i: int| 0 <= i < misses.len() ==> !(#[trigger] misses[i] is Found),
    ensures
        SupervisorModel::idle(policy, true).step(EventModel::Start) == (
            resolving(policy),
            ActionModel::Resolve,
        ),
        forall|i: int|
            0 <= i < misses.len() ==> resolving(policy).step(
                EventModel::Resolved(#[trigger] misses[i]),
            ) == (resolving(policy), ActionModel::Wait(RESOLVE_BACKOFF_MS)),
        resolving(policy).step(EventModel::Woke) == (resolving(policy), ActionModel::Resolve),
        resolving(policy).run(waiting_rounds(misses)) == resolving(policy),
        resolving(policy).step(EventModel::Resolved(LookupModel::Found(identity))) == (
            SupervisorModel { identity: Some(identity), ..resolving(policy) },
            ActionModel::Spawn { identity: Some(identity) },
        ),
        (SupervisorModel { identity: Some(identity), ..resolving(policy) }).step(
            EventModel::Spawned(pid),
        ) == (
            SupervisorModel {
                phase: Phase::Running,
                identity: Some(identity),
                handle: Some(ProcessHandle::fresh(pid)),
                ..resolving(policy)
            },
            ActionModel::Wait(poll_interval(policy)),
        ),
    decreases misses.len(),
{
    if misses.len() > 0 {
        let front = misses.drop_last();
        lemma_waits_until_found(policy, front, identity, pid);
        let looked = waiting_rounds(front).push(EventModel::Resolved(misses.last()));
        let woke = looked.push(EventModel::Woke);
        assert(looked.drop_last() =~= waiting_rounds(front));
        assert(woke.drop_last() =~= looked);
        assert(resolving(policy).run(looked) == resolving(policy));
    }
}

/// A supervised unit is restarted exactly when the monitor's verdict on
/// what was observed is a restart, and the restart begins with the order
/// to kill the process held.
pub proof fn lemma_restart_follows_verdict(s: SupervisorModel, event: EventModel)
    requires
        s.wf(),
    ensures
        s.step(event).0.phase == Phase::Restarting && s.phase != Phase::Restarting <==> {
            &&& s.phase == Phase::Running
            &&& match event {
                EventModel::Polled(status) => s.policy == Policy::Supervised && liveness_verdict(
                    Some(status),
                ) == Verdict::Restart,
                EventModel::Resolved(lookup) => s.filtered && identity_verdict(s.identity, lookup)
                    == Verdict::Restart,
                _ => false,
            }
        },
        s.step(event).0.phase == Phase::Restarting && s.phase != Phase::Restarting
            ==> s.step(event).1 == ActionModel::Kill(s.handle->0.pid),
{
}

/// A unit becomes running only by the report of a spawn it was waiting
/// for.
pub proof fn lemma_running_needs_spawn(s: SupervisorModel, event: EventModel)
    requires
        s.step(event).0.phase == Phase::Running,
        s.phase != Phase::Running,
    ensures
        s.phase == Phase::Resolving,
        event is Spawned,
{
}

/// A stopped unit that holds nothing ends its loop on any report but that
/// of a late spawn.
pub proof fn lemma_stopped_exits(s: SupervisorModel, event: EventModel)
    requires
        s.phase == Phase::Stopped,
        s.handle is None,
        !(event is Spawned),
    ensures
        s.step(event) == (s, ActionModel::Exit),
{
}

pub struct Supervisor {
    policy: Policy,
    filtered: bool,
    phase: Phase,
    identity: Option<String>,
    handle: Option<ProcessHandle>,
}

impl View for Supervisor {
    type V = SupervisorModel;

    closed spec fn view(&self) -> SupervisorModel {
        SupervisorModel {
            policy: self.policy,
            filtered: self.filtered,
            phase: self.phase,
            identity: text_of(self.identity),
            handle: self.handle,
        }
    }
}

impl Supervisor {
    pub fn new(policy: Policy, filtered: bool) -> (supervisor: Supervisor)
        ensures
            supervisor@ == SupervisorModel::idle(policy, filtered),
    {
        Supervisor { policy, filtered, phase: Phase::Idle, identity: None, handle: None }
    }

    pub fn phase(&self) -> (phase: Phase)
        ensures
            phase == self@.phase,
    {
        self.phase
    }

    pub fn policy(&self) -> (policy: Policy)
        ensures
            policy == self@.policy,
    {
        self.policy
    }

    pub fn is_filtered(&self) -> (filtered: bool)
        ensures
            filtered == self@.filtered,
    {
        self.filtered
    }

    pub fn handle(&self) -> (handle: Option<ProcessHandle>)
        ensures
            handle == self@.handle,
    {
        self.handle
    }

    pub fn identity(&self) -> (identity: Option<String>)
        ensures
            text_of(identity) == self@.identity,
    {
        copy_text(&self.identity)
    }

    /// Marks a stream of the current process as handed to a relay. Grants
    /// it only while a process is held, and only once for each stream.
    pub fn take_stream(&mut self, stream: crate::process::Stream) -> (granted: bool)
        ensures
            granted == (old(self)@.handle is Some && !old(self)@.handle->0.taken(stream)),
            final(self)@ == (SupervisorModel {
                handle: match old(self)@.handle {
                    Some(handle) => Some(handle.after_take(stream)),
                    None => None,
                },
                ..old(self)@
            }),
    {
        match self.handle {
            Some(handle) => {
                let mut handle = handle;
                let granted = handle.take(stream);
                self.handle = Some(handle);
                granted
            },
            None => false,
        }
    }

    /// Stops the unit for good and gives up its process, whose id is
    /// returned for termination.
    pub fn request_stop(&mut self) -> (kill: Option<u32>)
        ensures
            final(self)@ == old(self)@.stopped(),
            kill == match old(self)@.handle {
                Some(handle) => Some(handle.pid),
                None => None,
            },
    {
        let kill = match self.handle {
            Some(handle) => Some(handle.pid),
            None => None,
        };
        self.phase = Phase::Stopped;
        self.handle = None;
        kill
    }

    fn halt(&mut self) -> (action: Action)
        ensures
            (final(self)@, action@) == old(self)@.halt(),
    {
        self.phase = Phase::Stopped;
        match self.handle {
            Some(handle) => {
                self.handle = None;
                Action::Kill(handle.pid)
            },
            None => Action::Exit,
        }
    }

    fn reject(&mut self, pid: u32) -> (action: Action)
        ensures
            (final(self)@, action@) == old(self)@.reject(pid),
    {
        self.phase = Phase::Stopped;
        Action::Kill(pid)
    }

    fn attempt(&mut self) -> (action: Action)
        ensures
            (final(self)@, action@) == old(self)@.attempt(),
    {
        self.phase = Phase::Resolving;
        if self.filtered {
            Action::Resolve
        } else {
            Action::Spawn { identity: None }
        }
    }

    fn restart(&mut self, handle: ProcessHandle) -> (action: Action)
        ensures
            (final(self)@, action@) == old(self)@.restart(handle),
    {
        self.phase = Phase::Restarting;
        Action::Kill(handle.pid)
    }

    fn poll_pause(&self) -> (ms: u64)
        ensures
            ms == poll_interval(self@.policy),
    {
        match self.policy {
            Policy::Supervised => POLL_INTERVAL_MS,
            Policy::OneShot => ONE_SHOT_POLL_MS,
        }
    }

    fn step_resolving(&mut self, event: Event) -> (action: Action)
        ensures
            (final(self)@, action@) == old(self)@.step_resolving(event@),
    {
        match event {
            Event::Woke => self.attempt(),
            Event::Resolved(lookup) => {
                if !self.filtered {
                    self.halt()
                } else {
                    match lookup {
                        Lookup::Found(id) => {
                            self.identity = Some(id.clone());
                            Action::Spawn { identity: Some(id) }
                        },
                        _ => Action::Wait(RESOLVE_BACKOFF_MS),
                    }
                }
            },
            Event::Spawned(pid) => match self.handle {
                None => {
                    self.phase = Phase::Running;
                    self.handle = Some(ProcessHandle::new(pid));
                    Action::Wait(self.poll_pause())
                },
                Some(_) => self.reject(pid),
            },
            Event::SpawnFailed => match self.policy {
                Policy::Supervised => Action::Wait(SPAWN_BACKOFF_MS),
                Policy::OneShot => {
                    self.phase = Phase::Stopped;
                    Action::Finish(Completion::NotStarted)
                },
            },
            _ => self.halt(),
        }
    }

    fn step_running(&mut self, event: Event) -> (action: Action)
        ensures
            (final(self)@, action@) == old(self)@.step_running(event@),
    {
        let handle = match self.handle {
            Some(handle) => handle,
            None => {
                return match event {
                    Event::Spawned(pid) => self.reject(pid),
                    _ => self.halt(),
                };
            },
        };
        match event {
            Event::Woke => Action::Poll,
            Event::Polled(status) => {
                if check_liveness(Some(status)) == Verdict::NoAction {
                    if self.filtered {
                        Action::Resolve
                    } else {
                        Action::Wait(self.poll_pause())
                    }
                } else {
                    match self.policy {
                        Policy::Supervised => self.restart(handle),
                        Policy::OneShot => {
                            self.phase = Phase::Stopped;
                            self.handle = None;
                            Action::Finish(
                                match status {
                                    PollStatus::Exited(code) => Completion::Exited(code),
                                    _ => Completion::StatusUnknown,
                                },
                            )
                        },
                    }
                }
            },
            Event::Resolved(lookup) => {
                if !self.filtered {
                    self.halt()
                } else if check_identity(&self.identity, &lookup) == Verdict::NoAction {
                    Action::Wait(self.poll_pause())
                } else {
                    self.restart(handle)
                }
            },
            Event::Spawned(pid) => self.reject(pid),
            _ => self.halt(),
        }
    }

    fn step_restarting(&mut self, event: Event) -> (action: Action)
        ensures
            (final(self)@, action@) == old(self)@.step_restarting(event@),
    {
        match event {
            Event::Killed => {
                self.phase = Phase::Resolving;
                self.handle = None;
                self.identity = None;
                if self.filtered {
                    Action::Resolve
                } else {
                    Action::Wait(RESTART_PAUSE_MS)
                }
            },
            Event::Spawned(pid) => self.reject(pid),
            _ => self.halt(),
        }
    }

    /// Takes one event and returns the action to perform next.
    pub fn step(&mut self, event: Event) -> (action: Action)
        ensures
            (final(self)@, action@) == old(self)@.step(event@),
    {
        match self.phase {
            Phase::Idle => match event {
                Event::Start => self.attempt(),
                Event::Spawned(pid) => self.reject(pid),
                _ => self.halt(),
            },
            Phase::Resolving => self.step_resolving(event),
            Phase::Running => self.step_running(event),
            Phase::Restarting => self.step_restarting(event),
            Phase::Stopped => match event {
                Event::Spawned(pid) => self.reject(pid),
                _ => self.halt(),
            },
        }
    }
}

} // verus!
