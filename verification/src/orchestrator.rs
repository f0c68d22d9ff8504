//! The backup orchestrator: one unit of work per repository, driven
//! through a worker pool with a fixed concurrency ceiling.
//!
//! Each unit moves through `Pending -> Dispatched -> {Cloning | Fetching}
//! -> {Succeeded | Failed}`; terminal states are final and there are no
//! retries.  The caller performs the actual transfers and feeds each
//! unit's outcome back in; the orchestrator decides, per unit, whether the
//! transfer is a first-time clone or an update of an existing local
//! repository, enforces the pool ceiling, and accumulates the report that
//! decides the run's exit status.  A ghost machine ([`ostep`], [`orun`])
//! mirrors the executable one, and the lemmas at the end of the module
//! prove the pool and isolation laws over it.

use vstd::prelude::*;

use crate::errors::TransferError;
use crate::model::RemoteRepository;

verus! {

/// The concurrency ceiling of the worker pool: at most this many units
/// transfer at the same time.
pub const DEFAULT_POOL_WIDTH: usize = 10;

/// The lifecycle state of one unit of work.
#[derive(Clone, Copy, Debug, PartialEq, Eq, Structural)]
pub enum UnitState {
    /// Created, not yet submitted to the pool.
    Pending,
    /// Submitted to the pool, waiting for a free slot.
    Dispatched,
    /// Transferring into a fresh target directory.
    Cloning,
    /// Updating an existing local repository's remotes.
    Fetching,
    /// The transfer finished without error.
    Succeeded,
    /// The transfer failed with the recorded classified reason.
    Failed(TransferError),
}

/// Which transfer a unit performs.
#[derive(Clone, Copy, Debug, PartialEq, Eq, Structural)]
pub enum TransferKind {
    /// The target path does not exist yet: clone fresh, with working-tree
    /// checkout disabled.
    CloneNew,
    /// The target path already exists: open it and update every remote.
    FetchExisting,
}

/// One unit of work: a repository together with its lifecycle state.
pub struct Unit {
    pub repo: RemoteRepository,
    pub state: UnitState,
}

/// Is the unit occupying a pool slot, i.e. actively transferring?
pub open spec fn is_active(st: UnitState) -> bool {
    st is Cloning || st is Fetching
}


/// How many units of `units` are actively transferring.
pub open spec fn count_active(units: Seq<Unit>) -> nat
    decreases units.len(),
{
    if units.len() == 0 {
        0
    } else {
        count_active(units.drop_last()) + (if is_active(units.last().state) {
            1nat
        } else {
            0nat
        })
    }
}

/// The decision at the heart of each unit: the sole signal distinguishing
/// a first backup from an incremental update is whether the unit's target
/// path already exists.
pub open spec fn decide(target_present: bool) -> TransferKind {
    if target_present {
        TransferKind::FetchExisting
    } else {
        TransferKind::CloneNew
    }
}

/// The active state a unit enters when its transfer starts.
pub open spec fn started_state(target_present: bool) -> UnitState {
    if target_present {
        UnitState::Fetching
    } else {
        UnitState::Cloning
    }
}

/// The terminal state recording one transfer's outcome.
pub open spec fn terminal_of(res: Result<(), TransferError>) -> UnitState {
    match res {
        Ok(_) => UnitState::Succeeded,
        Err(e) => UnitState::Failed(e),
    }
}

/// `units` with unit `i`'s state replaced; the repository never changes.
pub open spec fn set_state(units: Seq<Unit>, i: int, st: UnitState) -> Seq<Unit> {
    units.update(i, Unit { repo: units[i].repo, state: st })
}

/// One event of an orchestration run, always naming the unit it concerns.
pub ghost enum OEvent {
    /// The unit is submitted to the pool.
    Dispatch(int),
    /// The unit's transfer starts; the flag tells whether its target path
    /// was found to exist.
    Begin(int, bool),
    /// The unit's transfer finished with this outcome.
    Complete(int, Result<(), TransferError>),
}

/// One transition of the orchestration machine.  An event whose guard does
/// not hold — out-of-range index, wrong unit state, or, for `Begin`, a
/// full pool — changes nothing: a unit cannot start transferring while the
/// pool is at its ceiling, and a finished unit never moves again.
pub open spec fn ostep(units: Seq<Unit>, width: nat, ev: OEvent) -> Seq<Unit> {
    match ev {
        OEvent::Dispatch(i) => {
            if 0 <= i < units.len() && units[i].state is Pending {
                set_state(units, i, UnitState::Dispatched)
            } else {
                units
            }
        },
        OEvent::Begin(i, present) => {
            if 0 <= i < units.len() && units[i].state is Dispatched && count_active(units)
                < width {
                set_state(units, i, started_state(present))
            } else {
                units
            }
        },
        OEvent::Complete(i, res) => {
            if 0 <= i < units.len() && is_active(units[i].state) {
                set_state(units, i, terminal_of(res))
            } else {
                units
            }
        },
    }
}

/// The orchestration machine run over a whole sequence of events.
pub open spec fn orun(units: Seq<Unit>, width: nat, evs: Seq<OEvent>) -> Seq<Unit>
    decreases evs.len(),
{
    if evs.len() == 0 {
        units
    } else {
        orun(ostep(units, width, evs[0]), width, evs.drop_first())
    }
}

/// The ghost state of the orchestrator.
pub ghost struct OState {
    pub width: nat,
    pub units: Seq<Unit>,
}

/// Decides which transfer a unit performs, from the sole signal of its
/// target path's existence.
pub fn decide_action(target_present: bool) -> (k: TransferKind)
    ensures
        k == decide(target_present),
{
    if target_present {
        TransferKind::FetchExisting
    } else {
        TransferKind::CloneNew
    }
}

/// The executable orchestrator.  The caller submits units, starts them
/// while the pool has a free slot, performs the transfers, and feeds every
/// outcome back; the orchestrator's state is always one [`ostep`] per
/// call behind.
pub struct Orchestrator {
    units: Vec<Unit>,
    width: usize,
    in_flight: usize,
}

impl View for Orchestrator {
    type V = OState;

    closed spec fn view(&self) -> OState {
        OState { width: self.width as nat, units: self.units@ }
    }
}

impl Orchestrator {
    /// Internal well-formedness: the slot counter equals the number of
    /// actively transferring units, which never exceeds the pool width.
    pub closed spec fn wf(&self) -> bool {
        self.in_flight as nat == count_active(self.units@) && count_active(self.units@)
            <= self.width as nat && self.width >= 1
    }

    /// Builds one pending unit per repository, in listing order, over a
    /// pool of `width` slots.
    pub fn new(repos: Vec<RemoteRepository>, width: usize) -> (o: Orchestrator)
        requires
            width >= 1,
        ensures
            o.wf(),
            o@.width == width as nat,
            o@.units.len() == repos@.len(),
            forall|i: int|
                0 <= i < repos@.len() ==> o@.units[i] == (Unit {
                    repo: repos@[i],
                    state: UnitState::Pending,
                }),
    {
        let ghost orig = repos@;
        let mut rest = repos;
        let mut units: Vec<Unit> = Vec::new();
        while rest.len() > 0
            invariant
                units@.len() + rest@.len() == orig.len(),
                rest@ == orig.skip(units@.len() as int),
                forall|i: int|
                    0 <= i < units@.len() ==> units@[i] == (Unit {
                        repo: orig[i],
                        state: UnitState::Pending,
                    }),
            decreases rest@.len(),
        {
            let ghost k = units@.len() as int;
            let r = rest.remove(0);
            proof {
                assert(r == orig[k]);
                assert(rest@ =~= orig.skip(k + 1));
            }
            units.push(Unit { repo: r, state: UnitState::Pending });
        }
        proof {
            lemma_count_active_all_inactive(units@);
        }
        Orchestrator { units, width, in_flight: 0 }
    }

    /// How many units this run drives.
    pub fn len(&self) -> (n: usize)
        ensures
            n == self@.units.len(),
    {
        self.units.len()
    }

    /// The pool's concurrency ceiling.
    pub fn pool_width(&self) -> (w: usize)
        ensures
            w as nat == self@.width,
    {
        self.width
    }

    /// Whether the pool has a free slot, i.e. fewer units transfer than
    /// the ceiling allows.
    pub fn has_slot(&self) -> (r: bool)
        requires
            self.wf(),
        ensures
            r == (count_active(self@.units) < self@.width),
    {
        self.in_flight < self.width
    }

    /// The lifecycle state of unit `i`.
    pub fn state_of(&self, i: usize) -> (st: UnitState)
        requires
            i < self@.units.len(),
        ensures
            st == self@.units[i as int].state,
    {
        self.units[i].state
    }

    /// The repository of unit `i`.
    pub fn repo_at(&self, i: usize) -> (r: &RemoteRepository)
        requires
            i < self@.units.len(),
        ensures
            *r == self@.units[i as int].repo,
    {
        &self.units[i].repo
    }

    /// Submits unit `i` to the pool.  Submission needs no slot; the unit
    /// waits in `Dispatched` until one frees.
    pub fn dispatch(&mut self, i: usize)
        requires
            old(self).wf(),
            i < old(self)@.units.len(),
            old(self)@.units[i as int].state is Pending,
        ensures
            final(self).wf(),
            final(self)@.width == old(self)@.width,
            final(self)@.units == ostep(
                old(self)@.units,
                old(self)@.width,
                OEvent::Dispatch(i as int),
            ),
            final(self)@.units == set_state(old(self)@.units, i as int, UnitState::Dispatched),
    {
        proof {
            lemma_count_active_update(self.units@, i as int, UnitState::Dispatched);
        }
        self.units[i].state = UnitState::Dispatched;
    }

    /// Starts unit `i`'s transfer in a free pool slot and returns which
    /// transfer to perform: a fresh clone exactly when the target path
    /// does not exist, an update of the existing repository otherwise.
    pub fn begin_transfer(&mut self, i: usize, target_present: bool) -> (k: TransferKind)
        requires
            old(self).wf(),
            i < old(self)@.units.len(),
            old(self)@.units[i as int].state is Dispatched,
            count_active(old(self)@.units) < old(self)@.width,
        ensures
            final(self).wf(),
            final(self)@.width == old(self)@.width,
            k == decide(target_present),
            final(self)@.units == ostep(
                old(self)@.units,
                old(self)@.width,
                OEvent::Begin(i as int, target_present),
            ),
            final(self)@.units == set_state(
                old(self)@.units,
                i as int,
                started_state(target_present),
            ),
            count_active(final(self)@.units) == count_active(old(self)@.units) + 1,
    {
        proof {
            lemma_count_active_update(self.units@, i as int, started_state(target_present));
        }
        let k = decide_action(target_present);
        self.units[i].state = match k {
            TransferKind::CloneNew => UnitState::Cloning,
            TransferKind::FetchExisting => UnitState::Fetching,
        };
        self.in_flight = self.in_flight + 1;
        k
    }

    /// Records unit `i`'s outcome and frees its pool slot.  The unit moves
    /// to its terminal state; no other unit changes.
    pub fn complete(&mut self, i: usize, res: Result<(), TransferError>)
        requires
            old(self).wf(),
            i < old(self)@.units.len(),
            is_active(old(self)@.units[i as int].state),
        ensures
            final(self).wf(),
            final(self)@.width == old(self)@.width,
            final(self)@.units == ostep(
                old(self)@.units,
                old(self)@.width,
                OEvent::Complete(i as int, res),
            ),
            final(self)@.units == set_state(old(self)@.units, i as int, terminal_of(res)),
            count_active(final(self)@.units) == count_active(old(self)@.units) - 1,
    {
        proof {
            lemma_count_active_update(self.units@, i as int, terminal_of(res));
            lemma_count_active_at_least_one(self.units@, i as int);
        }
        self.units[i].state = match res {
            Ok(_) => UnitState::Succeeded,
            Err(e) => UnitState::Failed(e),
        };
        self.in_flight = self.in_flight - 1;
    }

    /// Whether every unit succeeded: the run's exit status is success
    /// exactly when this holds (aggregation, not silent success).
    pub fn all_succeeded(&self) -> (r: bool)
        ensures
            r == (forall|i: int|
                0 <= i < self@.units.len() ==> self@.units[i].state is Succeeded),
    {
        let mut j: usize = 0;
        while j < self.units.len()
            invariant
                j <= self@.units.len(),
                forall|i: int| 0 <= i < j ==> self@.units[i].state is Succeeded,
            decreases self@.units.len() - j,
        {
            match self.units[j].state {
                UnitState::Succeeded => {},
                _ => {
                    return false;
                },
            }
            j = j + 1;
        }
        true
    }
}

/// A sequence with no active unit has an active count of zero.
pub proof fn lemma_count_active_all_inactive(units: Seq<Unit>)
    requires
        forall|i: int| 0 <= i < units.len() ==> !is_active(#[trigger] units[i].state),
    ensures
        count_active(units) == 0,
    decreases units.len(),
{
    if units.len() > 0 {
        lemma_count_active_all_inactive(units.drop_last());
    }
}

/// An active unit contributes at least one to the active count.
pub proof fn lemma_count_active_at_least_one(units: Seq<Unit>, i: int)
    requires
        0 <= i < units.len(),
        is_active(units[i].state),
    ensures
        count_active(units) >= 1,
    decreases units.len(),
{
    if i < units.len() - 1 {
        lemma_count_active_at_least_one(units.drop_last(), i);
    }
}

/// One event keeps the active count within the pool width.
pub proof fn lemma_ostep_bounded(units: Seq<Unit>, width: nat, ev: OEvent)
    requires
        count_active(units) <= width,
    ensures
        count_active(ostep(units, width, ev)) <= width,
{
    match ev {
        OEvent::Dispatch(i) => {
            if 0 <= i < units.len() && units[i].state is Pending {
                lemma_count_active_update(units, i, UnitState::Dispatched);
            }
        },
        OEvent::Begin(i, present) => {
            if 0 <= i < units.len() && units[i].state is Dispatched && count_active(units)
                < width {
                lemma_count_active_update(units, i, started_state(present));
            }
        },
        OEvent::Complete(i, res) => {
            if 0 <= i < units.len() && is_active(units[i].state) {
                lemma_count_active_update(units, i, terminal_of(res));
            }
        },
    }
}

/// Any run keeps the active count within the pool width.
pub proof fn lemma_orun_bounded(units: Seq<Unit>, width: nat, evs: Seq<OEvent>)
    requires
        count_active(units) <= width,
    ensures
        count_active(orun(units, width, evs)) <= width,
    decreases evs.len(),
{
    if evs.len() > 0 {
        lemma_ostep_bounded(units, width, evs[0]);
        lemma_orun_bounded(ostep(units, width, evs[0]), width, evs.drop_first());
    }
}

/// The pool law: at every instant — after any prefix of any run, for any
/// number of units — the number of units actively transferring stays
/// within the pool width.
pub proof fn lemma_pool_never_exceeded(units: Seq<Unit>, width: nat, evs: Seq<OEvent>)
    requires
        count_active(units) <= width,
    ensures
        forall|j: int|
            0 <= j <= evs.len() ==> count_active(
                orun(units, width, #[trigger] evs.take(j)),
            ) <= width,
{
    assert forall|j: int|
        0 <= j <= evs.len() implies count_active(orun(units, width, #[trigger] evs.take(j)))
        <= width by {
        lemma_orun_bounded(units, width, evs.take(j));
    };
}

/// Running the machine over a concatenation is running it over each part
/// in turn.
pub proof fn lemma_orun_app(units: Seq<Unit>, width: nat, a: Seq<OEvent>, b: Seq<OEvent>)
    ensures
        orun(units, width, a + b) == orun(orun(units, width, a), width, b),
    decreases a.len(),
{
    if a.len() == 0 {
        assert(a + b =~= b);
    } else {
        assert((a + b)[0] == a[0]);
        assert((a + b).drop_first() =~= a.drop_first() + b);
        lemma_orun_app(ostep(units, width, a[0]), width, a.drop_first(), b);
    }
}

/// Running the machine over three events is three steps.
proof fn lemma_orun3(units: Seq<Unit>, width: nat, a: OEvent, b: OEvent, c: OEvent)
    ensures
        orun(units, width, seq![a, b, c]) == ostep(
            ostep(ostep(units, width, a), width, b),
            width,
            c,
        ),
{
    let evs = seq![a, b, c];
    assert(evs.drop_first() =~= seq![b, c]);
    assert(seq![b, c].drop_first() =~= seq![c]);
    assert(seq![c].drop_first() =~= Seq::<OEvent>::empty());
    let s1 = ostep(units, width, a);
    let s2 = ostep(s1, width, b);
    let s3 = ostep(s2, width, c);
    assert(evs[0] == a && seq![b, c][0] == b && seq![c][0] == c);
    assert(orun(units, width, evs) == orun(s1, width, seq![b, c]));
    assert(orun(s1, width, seq![b, c]) == orun(s2, width, seq![c]));
    assert(orun(s2, width, seq![c]) == orun(s3, width, Seq::empty()));
    assert(orun(s3, width, Seq::empty()) == s3);
}

/// The events that drive unit `i` through its whole lifecycle.
pub open spec fn unit_events(i: int, present: bool, res: Result<(), TransferError>) -> Seq<
    OEvent,
> {
    seq![OEvent::Dispatch(i), OEvent::Begin(i, present), OEvent::Complete(i, res)]
}

/// A schedule that drives units `0` through `n - 1`, each through its
/// whole lifecycle in turn.
pub open spec fn full_schedule(
    n: nat,
    present: Seq<bool>,
    res: Seq<Result<(), TransferError>>,
) -> Seq<OEvent>
    decreases n,
{
    if n == 0 {
        Seq::empty()
    } else {
        full_schedule((n - 1) as nat, present, res) + unit_events(
            n - 1,
            present[n - 1],
            res[n - 1],
        )
    }
}

/// Driving every unit through its lifecycle brings each to the terminal
/// state of its own outcome, whatever the other units' outcomes were.
pub proof fn lemma_schedule_runs_all(
    units: Seq<Unit>,
    width: nat,
    present: Seq<bool>,
    res: Seq<Result<(), TransferError>>,
    n: nat,
)
    requires
        width >= 1,
        n <= units.len(),
        present.len() >= n,
        res.len() >= n,
        forall|i: int| 0 <= i < units.len() ==> (#[trigger] units[i].state) is Pending,
    ensures
        ({
            let f = orun(units, width, full_schedule(n, present, res));
            f.len() == units.len() && (forall|i: int|
                0 <= i < n ==> f[i] == (Unit {
                    repo: units[i].repo,
                    state: terminal_of(res[i]),
                })) && (forall|i: int| n <= i < units.len() ==> f[i] == units[i])
        }),
    decreases n,
{
    if n > 0 {
        let k = n - 1;
        lemma_schedule_runs_all(units, width, present, res, (n - 1) as nat);
        let s = orun(units, width, full_schedule((n - 1) as nat, present, res));
        lemma_orun_app(
            units,
            width,
            full_schedule((n - 1) as nat, present, res),
            unit_events(k, present[k], res[k]),
        );
        lemma_orun3(s, width, OEvent::Dispatch(k), OEvent::Begin(k, present[k]), OEvent::Complete(k, res[k]));
        assert forall|i: int| 0 <= i < s.len() implies !is_active((#[trigger] s[i].state)) by {
            if i < n - 1 {
                assert(s[i].state == terminal_of(res[i]));
            } else {
                assert(s[i] == units[i]);
            }
        };
        lemma_count_active_all_inactive(s);
        let s1 = ostep(s, width, OEvent::Dispatch(k));
        assert(s1 == set_state(s, k, UnitState::Dispatched));
        assert forall|i: int| 0 <= i < s1.len() implies !is_active((#[trigger] s1[i].state)) by {
            if i != k {
                assert(s1[i] == s[i]);
            }
        };
        lemma_count_active_all_inactive(s1);
        let s2 = ostep(s1, width, OEvent::Begin(k, present[k]));
        assert(s2 == set_state(s1, k, started_state(present[k])));
        let s3 = ostep(s2, width, OEvent::Complete(k, res[k]));
        assert(s3 == set_state(s2, k, terminal_of(res[k])));
        let f = orun(units, width, full_schedule(n, present, res));
        assert(f == s3);
        assert forall|i: int| 0 <= i < n implies f[i] == (Unit {
            repo: units[i].repo,
            state: terminal_of(res[i]),
        }) by {
            if i < n - 1 {
                assert(f[i] == s[i]);
            }
        };
    }
}

/// The isolation law: one unit's failure neither blocks nor fails its
/// siblings.  When every unit is driven through its lifecycle and unit
/// `k` is the one whose transfer fails, every other unit still reaches
/// `Succeeded`, and only unit `k` is recorded as failed.
pub proof fn lemma_unit_failure_isolated(
    units: Seq<Unit>,
    width: nat,
    present: Seq<bool>,
    res: Seq<Result<(), TransferError>>,
    k: int,
)
    requires
        width >= 1,
        present.len() == units.len(),
        res.len() == units.len(),
        forall|i: int| 0 <= i < units.len() ==> (#[trigger] units[i].state) is Pending,
        0 <= k < units.len(),
        res[k] is Err,
        forall|i: int| 0 <= i < units.len() && i != k ==> (#[trigger] res[i]) is Ok,
    ensures
        ({
            let f = orun(units, width, full_schedule(units.len(), present, res));
            f.len() == units.len() && (forall|i: int|
                0 <= i < f.len() && i != k ==> (#[trigger] f[i].state) is Succeeded) && f[k].state
                == terminal_of(res[k]) && f[k].state is Failed
        }),
{
    lemma_schedule_runs_all(units, width, present, res, units.len());
}

/// Whether a unit's target path exists after one transfer: a successful
/// fresh clone creates it, a failed one leaves the signal as it was, and
/// an update of an existing repository never creates or removes it.
pub open spec fn target_present_after(present: bool, k: TransferKind, succeeded: bool) -> bool {
    match k {
        TransferKind::CloneNew => succeeded || present,
        TransferKind::FetchExisting => present,
    }
}

/// The idempotence law: the first backup of an absent target clones, and
/// once that clone has succeeded, a second run over the same backup
/// directory updates the existing repository — never a second clone — and
/// the update leaves the target's existence exactly as it found it, so
/// the target path is never recreated.
pub proof fn lemma_second_run_updates(present: bool)
    ensures
        decide(false) == TransferKind::CloneNew,
        ({
            let p2 = target_present_after(present, decide(present), true);
            decide(p2) == TransferKind::FetchExisting && (forall|ok: bool|
                target_present_after(p2, decide(p2), ok) == p2)
        }),
{
}

/// Replacing one unit's state changes the active count by exactly that
/// unit's contribution.
pub proof fn lemma_count_active_update(units: Seq<Unit>, i: int, st: UnitState)
    requires
        0 <= i < units.len(),
    ensures
        count_active(set_state(units, i, st)) == count_active(units) - (if is_active(
            units[i].state,
        ) {
            1int
        } else {
            0int
        }) + (if is_active(st) {
            1int
        } else {
            0int
        }),
    decreases units.len(),
{
    let upd = set_state(units, i, st);
    if i == units.len() - 1 {
        assert(upd.drop_last() =~= units.drop_last());
    } else {
        assert(upd.drop_last() =~= set_state(units.drop_last(), i, st));
        assert(upd.last() == units.last());
        lemma_count_active_update(units.drop_last(), i, st);
    }
}

} // verus!
