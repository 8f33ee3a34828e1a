//! The table of live supervision units, one for each key at most. It is
//! the one place where a unit is admitted, stopped, queried and driven.

use crate::buffer::{BufferModel, OutputBuffer, HIGH_WATER};
use crate::process::Stream;
use crate::supervisor::{
    Action, ActionModel, Event, EventModel, Phase, Policy, Supervisor, SupervisorModel,
};
use crate::text::{copy_text, same_text, text_of};
use vstd::prelude::*;

verus! {

/// What a unit is started with.
pub struct UnitConfig {
    pub policy: Policy,
    /// The target whose identity the process is bound to, if any.
    pub filter: Option<String>,
    /// The file that every output line is also appended to, if any.
    pub mirror_file: Option<String>,
}

pub struct UnitModel {
    pub id: u64,
    pub supervisor: SupervisorModel,
    pub buffer: BufferModel,
    pub filter: Option<Seq<char>>,
    pub mirror_file: Option<Seq<char>>,
}

impl UnitModel {
    /// The unit as it is admitted: idle, with no output yet.
    pub open spec fn admitted(id: u64, config: UnitConfig) -> UnitModel {
        UnitModel {
            id,
            supervisor: SupervisorModel::idle(config.policy, config.filter is Some),
            buffer: BufferModel::empty(),
            filter: text_of(config.filter),
            mirror_file: text_of(config.mirror_file),
        }
    }

    /// The unit's process, if it holds one.
    pub open spec fn pid(self) -> Option<u32> {
        match self.supervisor.handle {
            Some(handle) => Some(handle.pid),
            None => None,
        }
    }

    /// A unit leaves the table by itself once it is stopped and holds no
    /// process any more.
    pub open spec fn finished(self) -> bool {
        self.supervisor.phase == Phase::Stopped && self.supervisor.handle is None
    }
}

struct Unit {
    key: String,
    id: u64,
    supervisor: Supervisor,
    buffer: OutputBuffer,
    filter: Option<String>,
    mirror_file: Option<String>,
}

impl View for Unit {
    type V = UnitModel;

    closed spec fn view(&self) -> UnitModel {
        UnitModel {
            id: self.id,
            supervisor: self.supervisor@,
            buffer: self.buffer@,
            filter: text_of(self.filter),
            mirror_file: text_of(self.mirror_file),
        }
    }
}

spec fn key_at(units: Seq<Unit>, i: int) -> Seq<char> {
    units[i].key@
}

spec fn holds(units: Seq<Unit>, key: Seq<char>, i: int) -> bool {
    0 <= i < units.len() && key_at(units, i) == key
}

spec fn has_key(units: Seq<Unit>, key: Seq<char>) -> bool {
    exists|i: int| holds(units, key, i)
}

spec fn slot(units: Seq<Unit>, key: Seq<char>) -> int {
    choose|i: int| holds(units, key, i)
}

spec fn distinct(units: Seq<Unit>) -> bool {
    forall|i: int, j: int|
        0 <= i < units.len() && 0 <= j < units.len() && i != j ==> key_at(units, i) != key_at(
            units,
            j,
        )
}

spec fn table(units: Seq<Unit>) -> Map<Seq<char>, UnitModel> {
    Map::new(|key: Seq<char>| has_key(units, key), |key: Seq<char>| units[slot(units, key)]@)
}

proof fn lemma_slot(units: Seq<Unit>, i: int)
    requires
        distinct(units),
        0 <= i < units.len(),
    ensures
        has_key(units, key_at(units, i)),
        slot(units, key_at(units, i)) == i,
        table(units).contains_key(key_at(units, i)),
        table(units)[key_at(units, i)] == units[i]@,
{
    assert(holds(units, key_at(units, i), i));
}

proof fn lemma_pushed(units: Seq<Unit>, unit: Unit)
    requires
        distinct(units),
        !has_key(units, unit.key@),
    ensures
        distinct(units.push(unit)),
        table(units.push(unit)) == table(units).insert(unit.key@, unit@),
{
    let more = units.push(unit);
    assert forall|i: int, j: int|
        0 <= i < more.len() && 0 <= j < more.len() && i != j implies key_at(more, i) != key_at(
        more,
        j,
    ) by {
        if i < units.len() {
            assert(holds(units, key_at(units, i), i));
        }
        if j < units.len() {
            assert(holds(units, key_at(units, j), j));
        }
    }
    assert forall|key: Seq<char>| #[trigger]
        table(more).contains_key(key) == table(units).insert(unit.key@, unit@).contains_key(
            key,
        ) by {
        if has_key(more, key) {
            let i = slot(more, key);
            if i < units.len() {
                assert(holds(units, key, i));
            }
        }
        if has_key(units, key) {
            let i = slot(units, key);
            assert(holds(more, key, i));
        }
        if key == unit.key@ {
            assert(holds(more, key, units.len() as int));
        }
    }
    assert forall|key: Seq<char>| #[trigger] table(more).contains_key(key) implies table(more)[key]
        == table(units).insert(unit.key@, unit@)[key] by {
        let i = slot(more, key);
        if i < units.len() {
            lemma_slot(units, i);
        }
    }
}

proof fn lemma_removed(units: Seq<Unit>, at: int)
    requires
        distinct(units),
        0 <= at < units.len(),
    ensures
        distinct(units.remove(at)),
        !has_key(units.remove(at), key_at(units, at)),
        table(units.remove(at)) == table(units).remove(key_at(units, at)),
{
    let fewer = units.remove(at);
    let gone = key_at(units, at);
    let back = |i: int|
        if i < at {
            i
        } else {
            i + 1
        };
    assert forall|i: int| 0 <= i < fewer.len() implies key_at(fewer, i) == key_at(
        units,
        back(i),
    ) && fewer[i] == units[back(i)] by {}
    assert forall|key: Seq<char>| #[trigger]
        table(fewer).contains_key(key) == table(units).remove(gone).contains_key(key) by {
        if has_key(fewer, key) {
            let i = slot(fewer, key);
            assert(holds(units, key, back(i)));
        }
        if has_key(units, key) && key != gone {
            let i = slot(units, key);
            let f = if i < at {
                i
            } else {
                i - 1
            };
            assert(holds(fewer, key, f));
        }
    }
}

proof fn lemma_reinserted(units: Seq<Unit>, at: int, unit: Unit)
    requires
        distinct(units),
        0 <= at < units.len(),
        unit.key@ == key_at(units, at),
    ensures
        distinct(units.remove(at).insert(at, unit)),
        table(units.remove(at).insert(at, unit)) == table(units).insert(unit.key@, unit@),
{
    let changed = units.remove(at).insert(at, unit);
    assert forall|i: int| 0 <= i < changed.len() implies key_at(changed, i) == key_at(units, i) by {}
    assert forall|key: Seq<char>| #[trigger]
        table(changed).contains_key(key) == table(units).insert(unit.key@, unit@).contains_key(
            key,
        ) by {
        if has_key(changed, key) {
            let i = slot(changed, key);
            assert(holds(units, key, i));
        }
        if has_key(units, key) {
            let i = slot(units, key);
            assert(holds(changed, key, i));
        }
        if key == unit.key@ {
            assert(holds(changed, key, at));
        }
    }
}

spec fn holds_pid(units: Seq<Unit>, below: int, pid: u32, j: int) -> bool {
    0 <= j < below && j < units.len() && units[j]@.pid() == Some(pid)
}

spec fn held_among(units: Seq<Unit>, below: int, pid: u32) -> bool {
    exists|j: int| holds_pid(units, below, pid, j)
}

spec fn all_bounded(units: Seq<Unit>) -> bool {
    forall|i: int| 0 <= i < units.len() ==> (#[trigger] units[i])@.buffer.bounded()
}

proof fn lemma_bounded(units: Seq<Unit>, key: Seq<char>)
    requires
        distinct(units),
        all_bounded(units),
    ensures
        table(units).contains_key(key) ==> table(units)[key].buffer.bounded(),
{
    if has_key(units, key) {
        let i = slot(units, key);
        assert(holds(units, key, i));
    }
}

proof fn lemma_counted(units: Seq<Unit>)
    requires
        distinct(units),
    ensures
        table(units).dom().finite(),
        table(units).len() == units.len(),
    decreases units.len(),
{
    if units.len() == 0 {
        assert(table(units) =~= Map::<Seq<char>, UnitModel>::empty());
    } else {
        let last = units.len() - 1;
        let front = units.remove(last);
        lemma_removed(units, last);
        lemma_counted(front);
        lemma_slot(units, last);
    }
}

/// Outcome of an admission.
#[derive(Clone, Copy, Debug, PartialEq, Eq, Structural)]
pub enum StartOutcome {
    /// The unit was admitted under this id.
    Started(u64),
    /// A live unit owns the key: nothing was admitted.
    AlreadyRunning,
}

/// Outcome of a stop request.
#[derive(Clone, Copy, Debug, PartialEq, Eq, Structural)]
pub enum StopOutcome {
    /// The unit was removed. If it held a process, that process is to be
    /// terminated.
    Stopped { kill: Option<u32> },
    /// No unit owns the key.
    NotRunning,
}

/// Liveness and configuration of the unit of one key.
#[derive(Clone, Debug, PartialEq, Eq)]
pub struct UnitStatus {
    pub active: bool,
    pub mirror_file: Option<String>,
}

/// What an output relay reports after one read.
#[derive(Clone, Debug, PartialEq, Eq)]
pub enum ReadOutcome {
    /// A complete line, without its line ending.
    Line(String),
    /// The stream has ended.
    Closed,
    /// The read failed.
    Failed,
}

pub enum ReadModel {
    Line(Seq<char>),
    Closed,
    Failed,
}

impl View for ReadOutcome {
    type V = ReadModel;

    open spec fn view(&self) -> ReadModel {
        match self {
            ReadOutcome::Line(line) => ReadModel::Line(line@),
            ReadOutcome::Closed => ReadModel::Closed,
            ReadOutcome::Failed => ReadModel::Failed,
        }
    }
}

/// What an output relay does after one read.
#[derive(Clone, Debug, PartialEq, Eq)]
pub enum RelayStep {
    /// Pass the line on, then read again. `mirror` names the file to
    /// append it to, if there is one; `stored` says whether the buffer
    /// took it.
    Forward { line: String, mirror: Option<String>, stored: bool },
    /// End the relay.
    Finish,
}

pub enum RelayModel {
    Forward { line: Seq<char>, mirror: Option<Seq<char>>, stored: bool },
    Finish,
}

impl View for RelayStep {
    type V = RelayModel;

    open spec fn view(&self) -> RelayModel {
        match self {
            RelayStep::Forward { line, mirror, stored } => RelayModel::Forward {
                line: line@,
                mirror: text_of(*mirror),
                stored: *stored,
            },
            RelayStep::Finish => RelayModel::Finish,
        }
    }
}

/// The action for an event whose unit is no longer in the table: a
/// process that was spawned for it is to be killed, and the loop ends.
pub open spec fn detached(event: EventModel) -> ActionModel {
    match event {
        EventModel::Spawned(pid) => ActionModel::Kill(pid),
        _ => ActionModel::Exit,
    }
}

/// Whether the unit of `key` holds the process `pid`.
pub open spec fn owns(table: Map<Seq<char>, UnitModel>, pid: u32, key: Seq<char>) -> bool {
    table.contains_key(key) && table[key].pid() == Some(pid)
}

/// Whether some unit of the table holds the process `pid`.
pub open spec fn held(table: Map<Seq<char>, UnitModel>, pid: u32) -> bool {
    exists|key: Seq<char>| owns(table, pid, key)
}

/// Whether the table holds, under `key`, the unit that was admitted as
/// `id`.
pub open spec fn live(table: Map<Seq<char>, UnitModel>, key: Seq<char>, id: u64) -> bool {
    table.contains_key(key) && table[key].id == id
}

/// What an admission under `key` answers.
pub open spec fn admission(table: Map<Seq<char>, UnitModel>, key: Seq<char>, id: u64) -> StartOutcome {
    if table.contains_key(key) {
        StartOutcome::AlreadyRunning
    } else {
        StartOutcome::Started(id)
    }
}

/// The table after an admission under `key`: a key that is owned keeps
/// its unit, a free key gets the new unit.
pub open spec fn after_start(
    table: Map<Seq<char>, UnitModel>,
    key: Seq<char>,
    id: u64,
    config: UnitConfig,
) -> Map<Seq<char>, UnitModel> {
    if table.contains_key(key) {
        table
    } else {
        table.insert(key, UnitModel::admitted(id, config))
    }
}

/// What a stop request for `key` answers.
pub open spec fn stop_outcome(table: Map<Seq<char>, UnitModel>, key: Seq<char>) -> StopOutcome {
    if table.contains_key(key) {
        StopOutcome::Stopped { kill: table[key].pid() }
    } else {
        StopOutcome::NotRunning
    }
}

/// The table after a stop request for `key`.
pub open spec fn after_stop(table: Map<Seq<char>, UnitModel>, key: Seq<char>) -> Map<
    Seq<char>,
    UnitModel,
> {
    table.remove(key)
}

/// The table after `event` reached the unit `key`: the unit has taken the
/// step, and has left the table if that finished it.
pub open spec fn driven(
    table: Map<Seq<char>, UnitModel>,
    key: Seq<char>,
    event: EventModel,
) -> Map<Seq<char>, UnitModel> {
    let unit = table[key];
    let next = UnitModel { supervisor: unit.supervisor.step(event).0, ..unit };
    if next.finished() {
        table.remove(key)
    } else {
        table.insert(key, next)
    }
}

/// The table after an output line reached the unit `key`.
pub open spec fn relayed(
    table: Map<Seq<char>, UnitModel>,
    key: Seq<char>,
    line: Seq<char>,
) -> Map<Seq<char>, UnitModel> {
    let unit = table[key];
    if unit.buffer.end() < usize::MAX {
        table.insert(key, UnitModel { buffer: unit.buffer.append(line), ..unit })
    } else {
        table
    }
}

/// An admission makes the key owned, so an admission under the same key
/// that follows it is refused and changes nothing: no second unit, and so
/// no second process, comes to be.
pub proof fn lemma_second_start_refused(
    table: Map<Seq<char>, UnitModel>,
    key: Seq<char>,
    first_id: u64,
    first: UnitConfig,
    second_id: u64,
    second: UnitConfig,
)
    ensures
        after_start(table, key, first_id, first).contains_key(key),
        admission(after_start(table, key, first_id, first), key, second_id)
            == StartOutcome::AlreadyRunning,
        after_start(after_start(table, key, first_id, first), key, second_id, second)
            == after_start(table, key, first_id, first),
{
}

/// After a stop request the key is free, and the answer names the process
/// that its unit held. Whatever the supervisor of that unit reports from
/// then on, it is told to wind down: to kill a process that it has just
/// spawned, and otherwise to leave its loop.
pub proof fn lemma_stop_deactivates(
    table: Map<Seq<char>, UnitModel>,
    key: Seq<char>,
    id: u64,
    event: EventModel,
)
    ensures
        !after_stop(table, key).contains_key(key),
        !live(after_stop(table, key), key, id),
        table.contains_key(key) ==> stop_outcome(table, key) == (StopOutcome::Stopped {
            kill: table[key].pid(),
        }),
        detached(event) is Kill || detached(event) is Exit,
        event is Spawned ==> detached(event) == ActionModel::Kill(event->Spawned_0),
{
}

/// Stopping a key that no unit owns answers that nothing runs and changes
/// nothing; so a stop after a stop is harmless. No stop request touches
/// another key.
pub proof fn lemma_stop_idempotent(table: Map<Seq<char>, UnitModel>, key: Seq<char>)
    ensures
        !table.contains_key(key) ==> after_stop(table, key) == table && stop_outcome(table, key)
            == StopOutcome::NotRunning,
        after_stop(after_stop(table, key), key) == after_stop(table, key),
        stop_outcome(after_stop(table, key), key) == StopOutcome::NotRunning,
        forall|other: Seq<char>|
            other != key ==> after_stop(table, key).contains_key(other) == table.contains_key(
                other,
            ) && after_stop(table, key)[other] == table[other],
{
}

/// An event for a unit that has left the table is answered as a stopped
/// unit that holds nothing would answer it.
pub proof fn lemma_detached_is_stopped(s: SupervisorModel, event: EventModel)
    requires
        s.phase == Phase::Stopped,
        s.handle is None,
    ensures
        s.step(event).1 == detached(event),
{
}

/// Driving or relaying to one unit leaves every other key as it is.
pub proof fn lemma_units_are_independent(
    table: Map<Seq<char>, UnitModel>,
    key: Seq<char>,
    other: Seq<char>,
    event: EventModel,
    line: Seq<char>,
)
    requires
        other != key,
    ensures
        driven(table, key, event).contains_key(other) == table.contains_key(other),
        driven(table, key, event)[other] == table[other],
        relayed(table, key, line).contains_key(other) == table.contains_key(other),
        relayed(table, key, line)[other] == table[other],
{
}

/// What holds of every table that admissions, stops, events and output
/// lines lead to: each unit is in a state that a unit can be in, holds
/// no more output than the bound allows, and is not finished.
pub open spec fn sound(table: Map<Seq<char>, UnitModel>) -> bool {
    forall|key: Seq<char>| #[trigger]
        table.contains_key(key) ==> {
            &&& table[key].supervisor.wf()
            &&& table[key].buffer.bounded()
            &&& !table[key].finished()
        }
}

/// The empty table is sound, and every operation on the table keeps it
/// sound: a unit that is registered is live.
pub proof fn lemma_table_stays_sound(
    table: Map<Seq<char>, UnitModel>,
    key: Seq<char>,
    id: u64,
    config: UnitConfig,
    event: EventModel,
    line: Seq<char>,
)
    requires
        sound(table),
    ensures
        sound(Map::<Seq<char>, UnitModel>::empty()),
        sound(after_start(table, key, id, config)),
        sound(after_stop(table, key)),
        table.contains_key(key) ==> sound(driven(table, key, event)),
        table.contains_key(key) ==> sound(relayed(table, key, line)),
{
    if table.contains_key(key) {
        crate::supervisor::lemma_step_keeps_wf(table[key].supervisor, event);
        assert(sound(driven(table, key, event)));
        assert(sound(relayed(table, key, line)));
    }
    assert(sound(after_start(table, key, id, config)));
    assert(sound(after_stop(table, key)));
}

/// The lines that a relay passes in are appended to its unit's output in
/// the order in which they were passed.
pub open spec fn relayed_all(
    table: Map<Seq<char>, UnitModel>,
    key: Seq<char>,
    lines: Seq<Seq<char>>,
) -> Map<Seq<char>, UnitModel>
    decreases lines.len(),
{
    if lines.len() == 0 {
        table
    } else {
        relayed(relayed_all(table, key, lines.drop_last()), key, lines.last())
    }
}

/// Relaying a run of lines to a unit appends exactly that run, in order,
/// to the unit's buffer, as long as the running offset stays within the
/// machine's limit; nothing else about the unit changes.
pub proof fn lemma_relay_keeps_order(
    table: Map<Seq<char>, UnitModel>,
    key: Seq<char>,
    lines: Seq<Seq<char>>,
)
    requires
        table.contains_key(key),
        table[key].buffer.bounded(),
        table[key].buffer.end() + lines.len() <= usize::MAX,
    ensures
        relayed_all(table, key, lines).contains_key(key),
        relayed_all(table, key, lines)[key] == (UnitModel {
            buffer: table[key].buffer.append_all(lines),
            ..table[key]
        }),
    decreases lines.len(),
{
    if lines.len() > 0 {
        let front = lines.drop_last();
        lemma_relay_keeps_order(table, key, front);
        crate::buffer::lemma_poll_resumes(table[key].buffer, front);
    }
}

/// Whatever run of lines is relayed to a unit, its output never holds
/// more than the bound allows; and a unit that was just admitted starts
/// with no output at all.
pub proof fn lemma_output_stays_bounded(
    table: Map<Seq<char>, UnitModel>,
    key: Seq<char>,
    id: u64,
    config: UnitConfig,
    lines: Seq<Seq<char>>,
)
    ensures
        !table.contains_key(key) ==> {
            &&& after_start(table, key, id, config)[key].buffer == BufferModel::empty()
            &&& relayed_all(after_start(table, key, id, config), key, lines).contains_key(key)
            &&& relayed_all(after_start(table, key, id, config), key, lines)[key].buffer.bounded()
        },
        table.contains_key(key) && table[key].buffer.bounded() ==> {
            &&& relayed_all(table, key, lines).contains_key(key)
            &&& relayed_all(table, key, lines)[key].buffer.bounded()
        },
    decreases lines.len(),
{
    if lines.len() > 0 {
        lemma_output_stays_bounded(table, key, id, config, lines.drop_last());
    }
}

pub struct Registry {
    units: Vec<Unit>,
    next_id: u64,
}

impl View for Registry {
    type V = Map<Seq<char>, UnitModel>;

    closed spec fn view(&self) -> Map<Seq<char>, UnitModel> {
        table(self.units@)
    }
}

impl Registry {
    #[verifier::type_invariant]
    spec fn inv(self) -> bool {
        &&& distinct(self.units@)
        &&& forall|i: int| 0 <= i < self.units.len() ==> (#[trigger] self.units[i]).id < self.next_id
        &&& all_bounded(self.units@)
    }

    /// Number of units admitted so far, which is the id of the next one.
    pub closed spec fn admitted(&self) -> nat {
        self.next_id as nat
    }

    pub fn new() -> (registry: Registry)
        ensures
            registry@ == Map::<Seq<char>, UnitModel>::empty(),
            registry.admitted() == 0,
    {
        let registry = Registry { units: Vec::new(), next_id: 0 };
        registry
    }

    fn position(units: &Vec<Unit>, key: &str) -> (at: Option<usize>)
        ensures
            match at {
                Some(i) => holds(units@, key@, i as int),
                None => !has_key(units@, key@),
            },
    {
        let mut i: usize = 0;
        while i < units.len()
            invariant
                i <= units.len(),
                forall|k: int| 0 <= k < i ==> key_at(units@, k) != key@,
            decreases units.len() - i,
        {
            if same_text(units[i].key.as_str(), key) {
                return Some(i);
            }
            i = i + 1;
        }
        None
    }

    /// Whether a live unit owns `key`.
    pub fn contains(&self, key: &str) -> (found: bool)
        ensures
            found == self@.contains_key(key@),
    {
        Registry::position(&self.units, key).is_some()
    }

    /// Number of units admitted so far.
    pub fn admissions(&self) -> (n: u64)
        ensures
            n == self.admitted(),
    {
        self.next_id
    }

    pub fn len(&self) -> (n: usize)
        ensures
            n == self@.len(),
            self@.dom().finite(),
    {
        proof {
            use_type_invariant(self);
            lemma_counted(self.units@);
        }
        self.units.len()
    }

    /// Whether the unit that was admitted under `key` as `id` is still in
    /// the table. A relay asks this before each read, and ends when its
    /// unit is gone.
    pub fn is_live(&self, key: &str, id: u64) -> (found: bool)
        ensures
            found == live(self@, key@, id),
    {
        proof {
            use_type_invariant(self);
        }
        match Registry::position(&self.units, key) {
            Some(i) => {
                self.units[i].id == id
            },
            None => false,
        }
    }

    /// The id that the unit of `key` was admitted under.
    pub fn unit_id(&self, key: &str) -> (id: Option<u64>)
        ensures
            id == if self@.contains_key(key@) {
                Some(self@[key@].id)
            } else {
                None
            },
            id matches Some(id) ==> id < self.admitted(),
    {
        proof {
            use_type_invariant(self);
        }
        match Registry::position(&self.units, key) {
            Some(i) => {
                Some(self.units[i].id)
            },
            None => None,
        }
    }

    /// The phase that the unit of `key` is in.
    pub fn phase(&self, key: &str) -> (phase: Option<Phase>)
        ensures
            phase == if self@.contains_key(key@) {
                Some(self@[key@].supervisor.phase)
            } else {
                None
            },
    {
        proof {
            use_type_invariant(self);
        }
        match Registry::position(&self.units, key) {
            Some(i) => {
                Some(self.units[i].supervisor.phase())
            },
            None => None,
        }
    }

    /// Admits a unit under `key` unless a live unit owns that key. The
    /// check and the insertion are one step. Only an admission counts
    /// against the machine's limit of the counter; a refusal does not.
    pub fn start(&mut self, key: String, config: UnitConfig) -> (outcome: StartOutcome)
        requires
            old(self)@.contains_key(key@) || old(self).admitted() < u64::MAX,
        ensures
            outcome == admission(old(self)@, key@, old(self).admitted() as u64),
            final(self)@ == after_start(old(self)@, key@, old(self).admitted() as u64, config),
            final(self).admitted() == if old(self)@.contains_key(key@) {
                old(self).admitted()
            } else {
                old(self).admitted() + 1
            },
            forall|other: Seq<char>| #[trigger]
                old(self)@.contains_key(other) ==> old(self)@[other].id < old(self).admitted(),
    {
        proof {
            use_type_invariant(&*self);
        }
        if Registry::position(&self.units, key.as_str()).is_some() {
            return StartOutcome::AlreadyRunning;
        }
        let id = self.next_id;
        let unit = Unit {
            key,
            id,
            supervisor: Supervisor::new(config.policy, config.filter.is_some()),
            buffer: OutputBuffer::new(),
            filter: config.filter,
            mirror_file: config.mirror_file,
        };
        let mut units: Vec<Unit> = Vec::new();
        std::mem::swap(&mut units, &mut self.units);
        proof {
            lemma_pushed(units@, unit);
        }
        units.push(unit);
        *self = Registry { units, next_id: id + 1 };
        StartOutcome::Started(id)
    }

    /// Removes the unit of `key` and stops it. A key that no unit owns is
    /// left as it is, and so is every other key.
    pub fn stop(&mut self, key: &str) -> (outcome: StopOutcome)
        ensures
            outcome == stop_outcome(old(self)@, key@),
            final(self)@ == after_stop(old(self)@, key@),
            final(self).admitted() == old(self).admitted(),
    {
        proof {
            use_type_invariant(&*self);
        }
        match Registry::position(&self.units, key) {
            None => {
                StopOutcome::NotRunning
            },
            Some(i) => {
                let mut units: Vec<Unit> = Vec::new();
                std::mem::swap(&mut units, &mut self.units);
                proof {
                    lemma_removed(units@, i as int);
                }
                let mut unit = units.remove(i);
                let kill = unit.supervisor.request_stop();
                *self = Registry { units, next_id: self.next_id };
                StopOutcome::Stopped { kill }
            },
        }
    }

    /// Whether a live unit owns `key`, and the file its output is
    /// mirrored to.
    pub fn query(&self, key: &str) -> (status: UnitStatus)
        ensures
            status.active == self@.contains_key(key@),
            text_of(status.mirror_file) == if self@.contains_key(key@) {
                self@[key@].mirror_file
            } else {
                None
            },
    {
        proof {
            use_type_invariant(self);
        }
        match Registry::position(&self.units, key) {
            Some(i) => {
                let mirror_file = copy_text(&self.units[i].mirror_file);
                UnitStatus { active: true, mirror_file }
            },
            None => UnitStatus { active: false, mirror_file: None },
        }
    }

    /// The output of the unit of `key` from offset `since` on, and the
    /// offset to poll from next. Without such a unit: nothing, and 0.
    pub fn drain_output(&self, key: &str, since: usize) -> (out: (Vec<String>, usize))
        ensures
            self@.contains_key(key@) ==> {
                &&& out.0.deep_view() == self@[key@].buffer.since(since as nat)
                &&& out.1 == self@[key@].buffer.end()
                &&& self@[key@].buffer.bounded()
            },
            !self@.contains_key(key@) ==> out.0@.len() == 0 && out.1 == 0,
            out.0@.len() <= HIGH_WATER,
    {
        proof {
            use_type_invariant(self);
            lemma_bounded(self.units@, key@);
        }
        match Registry::position(&self.units, key) {
            Some(i) => {
                let out = self.units[i].buffer.read_from(since);
                assert(out.0@.len() == out.0.deep_view().len());
                out
            },
            None => (Vec::new(), 0),
        }
    }

    /// Removes every unit, and returns the processes that they held: each
    /// of them is to be terminated.
    pub fn shutdown(&mut self) -> (kills: Vec<u32>)
        ensures
            final(self)@ == Map::<Seq<char>, UnitModel>::empty(),
            final(self).admitted() == old(self).admitted(),
            forall|pid: u32| kills@.contains(pid) <==> held(old(self)@, pid),
    {
        proof {
            use_type_invariant(&*self);
        }
        let mut units: Vec<Unit> = Vec::new();
        std::mem::swap(&mut units, &mut self.units);
        let mut kills: Vec<u32> = Vec::new();
        let mut i: usize = 0;
        while i < units.len()
            invariant
                i <= units.len(),
                forall|pid: u32| kills@.contains(pid) <==> held_among(units@, i as int, pid),
            decreases units.len() - i,
        {
            let ghost before = kills@;
            let ghost upto: int = i + 1;
            match units[i].supervisor.handle() {
                Some(handle) => {
                    kills.push(handle.pid);
                    assert forall|pid: u32| kills@.contains(pid) <==> held_among(
                        units@,
                        upto,
                        pid,
                    ) by {
                        if kills@.contains(pid) {
                            let k = choose|k: int| 0 <= k < kills@.len() && kills@[k] == pid;
                            if k < before.len() {
                                assert(before.contains(pid));
                                let j = choose|j: int| holds_pid(units@, i as int, pid, j);
                                assert(holds_pid(units@, upto, pid, j));
                            } else {
                                assert(holds_pid(units@, upto, pid, i as int));
                            }
                        }
                        if held_among(units@, upto, pid) {
                            let j = choose|j: int| holds_pid(units@, upto, pid, j);
                            if j < i {
                                assert(holds_pid(units@, i as int, pid, j));
                                assert(before.contains(pid));
                                let k = choose|k: int| 0 <= k < before.len() && before[k] == pid;
                                assert(kills@[k] == pid);
                            } else {
                                assert(kills@[before.len() as int] == pid);
                            }
                        }
                    }
                },
                None => {
                    assert forall|pid: u32| kills@.contains(pid) <==> held_among(
                        units@,
                        upto,
                        pid,
                    ) by {
                        if held_among(units@, upto, pid) {
                            let j = choose|j: int| holds_pid(units@, upto, pid, j);
                            assert(holds_pid(units@, i as int, pid, j));
                        }
                        if held_among(units@, i as int, pid) {
                            let j = choose|j: int| holds_pid(units@, i as int, pid, j);
                            assert(holds_pid(units@, upto, pid, j));
                        }
                    }
                },
            }
            i = i + 1;
        }
        proof {
            assert forall|pid: u32| kills@.contains(pid) <==> held(old(self)@, pid) by {
                if held_among(units@, units@.len() as int, pid) {
                    let j = choose|j: int| holds_pid(units@, units@.len() as int, pid, j);
                    lemma_slot(units@, j);
                    assert(owns(old(self)@, pid, key_at(units@, j)));
                }
                if held(old(self)@, pid) {
                    let key = choose|key: Seq<char>| owns(old(self)@, pid, key);
                    let j = slot(units@, key);
                    assert(holds_pid(units@, units@.len() as int, pid, j));
                }
            }
        }
        *self = Registry { units: Vec::new(), next_id: self.next_id };
        kills
    }

    /// Hands `event` to the unit that was admitted under `key` as `id`, and
    /// returns what its supervisor asks for. A unit that this finishes
    /// leaves the table. If that unit is no longer there, the table stays
    /// as it is and the caller is told to wind down.
    pub fn drive(&mut self, key: &str, id: u64, event: Event) -> (action: Action)
        ensures
            final(self).admitted() == old(self).admitted(),
            live(old(self)@, key@, id) ==> {
                &&& action@ == old(self)@[key@].supervisor.step(event@).1
                &&& final(self)@ == driven(old(self)@, key@, event@)
            },
            !live(old(self)@, key@, id) ==> {
                &&& action@ == detached(event@)
                &&& final(self)@ == old(self)@
            },
    {
        proof {
            use_type_invariant(&*self);
        }
        let at = match Registry::position(&self.units, key) {
            Some(i) => {
                if self.units[i].id == id {
                    Some(i)
                } else {
                    None
                }
            },
            None => None,
        };
        match at {
            None => match event {
                Event::Spawned(pid) => Action::Kill(pid),
                _ => Action::Exit,
            },
            Some(i) => {
                let mut units: Vec<Unit> = Vec::new();
                std::mem::swap(&mut units, &mut self.units);
                let ghost before = units@;
                let mut unit = units.remove(i);
                let action = unit.supervisor.step(event);
                let finished = unit.supervisor.phase() == Phase::Stopped
                    && unit.supervisor.handle().is_none();
                proof {
                    lemma_removed(before, i as int);
                    lemma_reinserted(before, i as int, unit);
                }
                if !finished {
                    units.insert(i, unit);
                }
                *self = Registry { units, next_id: self.next_id };
                action
            },
        }
    }

    /// Takes what a relay of the unit admitted under `key` as `id` has
    /// read. A line is appended to the unit's output, unless the running
    /// offset has reached the machine's limit, and is to be passed on. The
    /// relay ends when its stream has ended or failed, or when its unit is
    /// no longer there.
    pub fn relay(&mut self, key: &str, id: u64, read: ReadOutcome) -> (step: RelayStep)
        ensures
            final(self).admitted() == old(self).admitted(),
            final(self)@.contains_key(key@) ==> final(self)@[key@].buffer.bounded(),
            live(old(self)@, key@, id) && read@ is Line ==> {
                &&& step@ == (RelayModel::Forward {
                    line: read@->Line_0,
                    mirror: old(self)@[key@].mirror_file,
                    stored: old(self)@[key@].buffer.end() < usize::MAX,
                })
                &&& final(self)@ == relayed(old(self)@, key@, read@->Line_0)
            },
            !(live(old(self)@, key@, id) && read@ is Line) ==> {
                &&& step == RelayStep::Finish
                &&& final(self)@ == old(self)@
            },
    {
        proof {
            use_type_invariant(&*self);
        }
        proof {
            lemma_bounded(self.units@, key@);
        }
        let line = match read {
            ReadOutcome::Line(line) => line,
            _ => {
                return RelayStep::Finish;
            },
        };
        let at = match Registry::position(&self.units, key) {
            Some(i) => {
                if self.units[i].id == id {
                    Some(i)
                } else {
                    None
                }
            },
            None => None,
        };
        match at {
            None => RelayStep::Finish,
            Some(i) => {
                let mut units: Vec<Unit> = Vec::new();
                std::mem::swap(&mut units, &mut self.units);
                let ghost before = units@;
                let mut unit = units.remove(i);
                let mirror = copy_text(&unit.mirror_file);
                let stored = unit.buffer.end_offset() < usize::MAX;
                if stored {
                    unit.buffer.push(line.clone());
                }
                proof {
                    lemma_reinserted(before, i as int, unit);
                }
                units.insert(i, unit);
                proof {
                    lemma_bounded(units@, key@);
                }
                *self = Registry { units, next_id: self.next_id };
                RelayStep::Forward { line, mirror, stored }
            },
        }
    }

    /// Asks for a stream of the process that the unit admitted under `key`
    /// as `id` holds. It is granted once for each stream of each process.
    pub fn take_stream(&mut self, key: &str, id: u64, stream: Stream) -> (granted: bool)
        ensures
            final(self).admitted() == old(self).admitted(),
            granted == (live(old(self)@, key@, id) && old(self)@[key@].supervisor.handle is Some
                && !old(self)@[key@].supervisor.handle->0.taken(stream)),
            granted ==> final(self)@ == old(self)@.insert(
                key@,
                UnitModel {
                    supervisor: SupervisorModel {
                        handle: Some(old(self)@[key@].supervisor.handle->0.after_take(stream)),
                        ..old(self)@[key@].supervisor
                    },
                    ..old(self)@[key@]
                },
            ),
            !granted ==> final(self)@ == old(self)@,
    {
        proof {
            use_type_invariant(&*self);
        }
        let at = match Registry::position(&self.units, key) {
            Some(i) => {
                if self.units[i].id == id {
                    Some(i)
                } else {
                    None
                }
            },
            None => None,
        };
        match at {
            None => false,
            Some(i) => {
                let mut units: Vec<Unit> = Vec::new();
                std::mem::swap(&mut units, &mut self.units);
                let ghost before = units@;
                let mut unit = units.remove(i);
                let granted = unit.supervisor.take_stream(stream);
                proof {
                    lemma_reinserted(before, i as int, unit);
                }
                units.insert(i, unit);
                *self = Registry { units, next_id: self.next_id };
                granted
            },
        }
    }
}

} // verus!
