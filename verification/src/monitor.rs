//! The condition monitor: from what one poll tick observed, decide whether
//! the supervised process stays, is restarted, or is torn down.

use crate::process::PollStatus;
use vstd::prelude::*;

verus! {

/// What the monitor asks of the supervisor after one tick.
#[derive(Clone, Copy, Debug, PartialEq, Eq, Structural)]
pub enum Verdict {
    NoAction,
    Restart,
    Terminate,
}

/// Result of resolving the identity of the filtered target.
#[derive(Clone, Debug, PartialEq, Eq)]
pub enum Lookup {
    /// The target is not there.
    NotFound,
    /// The target exists but is only cached in the background.
    Stale,
    /// The target is active under this identity.
    Found(String),
    /// The lookup itself could not be carried out.
    Failed,
}

pub enum LookupModel {
    NotFound,
    Stale,
    Found(Seq<char>),
    Failed,
}

impl View for Lookup {
    type V = LookupModel;

    open spec fn view(&self) -> LookupModel {
        match self {
            Lookup::NotFound => LookupModel::NotFound,
            Lookup::Stale => LookupModel::Stale,
            Lookup::Found(id) => LookupModel::Found(id@),
            Lookup::Failed => LookupModel::Failed,
        }
    }
}

impl LookupModel {
    /// The identity to spawn with: only an active target has one. A stale
    /// target and a failed lookup count as an absent target.
    pub open spec fn identity(self) -> Option<Seq<char>> {
        match self {
            LookupModel::Found(id) => Some(id),
            _ => None,
        }
    }
}

/// Liveness alone: a process that is gone, or whose state cannot be read,
/// is restarted.
pub open spec fn liveness_verdict(handle: Option<PollStatus>) -> Verdict {
    match handle {
        Some(PollStatus::Running) => Verdict::NoAction,
        _ => Verdict::Restart,
    }
}

/// Identity drift: only a target found under the identity that the running
/// process was spawned with leaves the process alone.
pub open spec fn identity_verdict(spawned: Option<Seq<char>>, lookup: LookupModel) -> Verdict {
    if lookup.identity() is Some && lookup.identity() == spawned {
        Verdict::NoAction
    } else {
        Verdict::Restart
    }
}

/// Whether a tick has to resolve the target's identity at all.
pub open spec fn lookup_needed(stop: bool, handle: Option<PollStatus>, filtered: bool) -> bool {
    !stop && filtered && liveness_verdict(handle) == Verdict::NoAction
}

/// The verdict of one tick.
pub open spec fn verdict_of(
    stop: bool,
    handle: Option<PollStatus>,
    filtered: bool,
    spawned: Option<Seq<char>>,
    lookup: LookupModel,
) -> Verdict {
    if stop {
        Verdict::Terminate
    } else if liveness_verdict(handle) == Verdict::Restart {
        Verdict::Restart
    } else if !filtered {
        Verdict::NoAction
    } else {
        identity_verdict(spawned, lookup)
    }
}

pub fn check_liveness(handle: Option<PollStatus>) -> (verdict: Verdict)
    ensures
        verdict == liveness_verdict(handle),
{
    match handle {
        Some(PollStatus::Running) => Verdict::NoAction,
        _ => Verdict::Restart,
    }
}

pub fn check_identity(spawned: &Option<String>, lookup: &Lookup) -> (verdict: Verdict)
    ensures
        verdict == identity_verdict(
            match *spawned {
                Some(id) => Some(id@),
                None => None,
            },
            lookup@,
        ),
{
    match lookup {
        Lookup::Found(current) => match spawned {
            Some(id) => if *id == *current {
                Verdict::NoAction
            } else {
                Verdict::Restart
            },
            None => Verdict::Restart,
        },
        _ => Verdict::Restart,
    }
}

pub fn needs_lookup(stop: bool, handle: Option<PollStatus>, filtered: bool) -> (needed: bool)
    ensures
        needed == lookup_needed(stop, handle, filtered),
{
    !stop && filtered && check_liveness(handle) == Verdict::NoAction
}

/// Decides one tick. `lookup` is read only where `needs_lookup` holds.
pub fn verdict(
    stop: bool,
    handle: Option<PollStatus>,
    filtered: bool,
    spawned: &Option<String>,
    lookup: &Lookup,
) -> (verdict: Verdict)
    ensures
        verdict == verdict_of(
            stop,
            handle,
            filtered,
            match *spawned {
                Some(id) => Some(id@),
                None => None,
            },
            lookup@,
        ),
{
    if stop {
        Verdict::Terminate
    } else if check_liveness(handle) == Verdict::Restart {
        Verdict::Restart
    } else if !filtered {
        Verdict::NoAction
    } else {
        check_identity(spawned, lookup)
    }
}

/// A set stop flag decides the tick, whatever else was observed.
pub proof fn lemma_stop_overrides(
    handle: Option<PollStatus>,
    filtered: bool,
    spawned: Option<Seq<char>>,
    lookup: LookupModel,
)
    ensures
        verdict_of(true, handle, filtered, spawned, lookup) == Verdict::Terminate,
{
}

/// Where no lookup is needed the lookup's result does not matter.
pub proof fn lemma_lookup_unread(
    stop: bool,
    handle: Option<PollStatus>,
    filtered: bool,
    spawned: Option<Seq<char>>,
    a: LookupModel,
    b: LookupModel,
)
    requires
        !lookup_needed(stop, handle, filtered),
    ensures
        verdict_of(stop, handle, filtered, spawned, a) == verdict_of(
            stop,
            handle,
            filtered,
            spawned,
            b,
        ),
{
}

/// A unit without a filter is restarted exactly when its process is gone.
pub proof fn lemma_filterless_checks_liveness_only(
    handle: Option<PollStatus>,
    spawned: Option<Seq<char>>,
    lookup: LookupModel,
)
    ensures
        verdict_of(false, handle, false, spawned, lookup) == liveness_verdict(handle),
        verdict_of(false, handle, false, spawned, lookup) == Verdict::Restart <==> handle
            != Some(PollStatus::Running),
{
}

/// For a live filtered unit, a restart is due exactly when the target is
/// not found active under the identity the process was spawned with.
pub proof fn lemma_restart_iff_drift(spawned: Seq<char>, lookup: LookupModel)
    ensures
        verdict_of(false, Some(PollStatus::Running), true, Some(spawned), lookup)
            == Verdict::NoAction <==> lookup == LookupModel::Found(spawned),
        verdict_of(false, Some(PollStatus::Running), true, Some(spawned), lookup)
            == Verdict::Restart <==> lookup != LookupModel::Found(spawned),
{
}

} // verus!
