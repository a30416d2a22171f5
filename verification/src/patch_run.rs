//! The sequence of a `patch` run over its crates, as a state machine: from
//! the state and what was observed or done last, the next thing to do.
//! Crate `i` of the run is the `i`-th crate asked for, and patch `k` of a
//! crate is the `k`-th of its patch files in the order they were listed.
use vstd::prelude::*;

use crate::xtask::{copy_step, CopyStep};

verus! {

/// Where a run stands.
#[derive(Clone, Copy, Debug, PartialEq, Eq, Structural)]
pub enum PatchPhase {
    /// Waiting to learn whether the current crate's source and copy exist.
    Inspecting,
    /// The current crate's copy exists and is left alone.
    Skipping,
    /// Removing the current crate's old copy.
    Removing,
    /// Copying the current crate.
    Copying,
    /// Listing the current crate's patch files.
    Listing,
    /// Applying the current crate's patch files one by one.
    Applying,
    /// The run is over, done or failed.
    Finished,
}

/// The state of a run.
#[derive(Clone, Copy, Debug, PartialEq, Eq, Structural)]
pub struct PatchRun {
    /// How many crates the run works on.
    pub crates: usize,
    /// Whether `--force` was given.
    pub force: bool,
    /// The crate being worked on.
    pub index: usize,
    pub phase: PatchPhase,
    /// How many patch files the current crate has.
    pub patch_count: usize,
    /// How many of them have been applied.
    pub applied: usize,
}

/// What was observed, or what was done, since the last action.
#[derive(Clone, Copy, Debug, PartialEq, Eq, Structural)]
pub enum PatchEvent {
    /// Whether the current crate's source and its copy exist.
    Inspected { source_exists: bool, copy_exists: bool },
    /// A skip was reported.
    Continue,
    /// The old copy was removed.
    Removed,
    /// The crate was copied.
    Copied,
    /// The number of patch files, or `None` when the crate has no patch
    /// directory.
    PatchesFound(Option<usize>),
    /// Whether the last patch applied cleanly.
    Applied(bool),
}

/// What to do next.
#[derive(Clone, Copy, Debug, PartialEq, Eq, Structural)]
pub enum PatchAction {
    /// Find out whether crate `i`'s source and copy exist.
    Inspect(usize),
    /// Report that crate `i` is skipped, its copy existing.
    Skip(usize),
    /// Remove crate `i`'s old copy.
    RemoveCopy(usize),
    /// Copy crate `i`.
    CopyCrate(usize),
    /// List crate `i`'s patch files.
    ListPatches(usize),
    /// Apply patch `k` to crate `i`'s copy.
    ApplyPatch(usize, usize),
    /// Stop: crate `i`'s source is missing.
    MissingSource(usize),
    /// Stop: patch `k` of crate `i` did not apply.
    ApplyFailed(usize, usize),
    /// Stop: every crate is done.
    Done,
}

/// An action that changes the copies on disk.
pub open spec fn changes_copies(a: PatchAction) -> bool {
    a is RemoveCopy || a is CopyCrate || a is ApplyPatch
}

/// A state in which nothing is being changed on disk.
pub open spec fn is_quiet(s: PatchRun) -> bool {
    s.phase == PatchPhase::Inspecting || s.phase == PatchPhase::Skipping || s.phase
        == PatchPhase::Finished
}

/// Moving on to the crate after the current one, or finishing.
pub open spec fn advance_spec(s: PatchRun) -> (PatchRun, PatchAction) {
    if s.index + 1 < s.crates {
        (
            PatchRun {
                index: (s.index + 1) as usize,
                phase: PatchPhase::Inspecting,
                patch_count: 0,
                applied: 0,
                ..s
            },
            PatchAction::Inspect((s.index + 1) as usize),
        )
    } else {
        (PatchRun { phase: PatchPhase::Finished, ..s }, PatchAction::Done)
    }
}

/// The action that a state waits to see done.
pub open spec fn pending_spec(s: PatchRun) -> PatchAction {
    match s.phase {
        PatchPhase::Inspecting => PatchAction::Inspect(s.index),
        PatchPhase::Skipping => PatchAction::Skip(s.index),
        PatchPhase::Removing => PatchAction::RemoveCopy(s.index),
        PatchPhase::Copying => PatchAction::CopyCrate(s.index),
        PatchPhase::Listing => PatchAction::ListPatches(s.index),
        PatchPhase::Applying => PatchAction::ApplyPatch(s.index, s.applied),
        PatchPhase::Finished => PatchAction::Done,
    }
}

/// The state and action that start a run over `crates` crates.
pub open spec fn start_spec(crates: usize, force: bool) -> (PatchRun, PatchAction) {
    let s = PatchRun {
        crates,
        force,
        index: 0,
        phase: PatchPhase::Inspecting,
        patch_count: 0,
        applied: 0,
    };
    if crates == 0 {
        (PatchRun { phase: PatchPhase::Finished, ..s }, PatchAction::Done)
    } else {
        (s, PatchAction::Inspect(0))
    }
}

/// One step of a run. For each crate in turn: a missing source stops the
/// run; an existing copy is skipped without `--force` and removed with
/// it; then the crate is copied, its patch files listed, and applied in
/// order, the first one that fails stopping the run. An event that does
/// not answer the action waited for leaves the state as it is and asks for
/// that action again.
pub open spec fn step_spec(s: PatchRun, e: PatchEvent) -> (PatchRun, PatchAction) {
    match (s.phase, e) {
        (PatchPhase::Inspecting, PatchEvent::Inspected { source_exists, copy_exists }) => {
            if !source_exists {
                (PatchRun { phase: PatchPhase::Finished, ..s }, PatchAction::MissingSource(s.index))
            } else if copy_exists && !s.force {
                (PatchRun { phase: PatchPhase::Skipping, ..s }, PatchAction::Skip(s.index))
            } else if copy_exists {
                (PatchRun { phase: PatchPhase::Removing, ..s }, PatchAction::RemoveCopy(s.index))
            } else {
                (PatchRun { phase: PatchPhase::Copying, ..s }, PatchAction::CopyCrate(s.index))
            }
        },
        (PatchPhase::Skipping, PatchEvent::Continue) => advance_spec(s),
        (PatchPhase::Removing, PatchEvent::Removed) => (
            PatchRun { phase: PatchPhase::Copying, ..s },
            PatchAction::CopyCrate(s.index),
        ),
        (PatchPhase::Copying, PatchEvent::Copied) => (
            PatchRun { phase: PatchPhase::Listing, ..s },
            PatchAction::ListPatches(s.index),
        ),
        (PatchPhase::Listing, PatchEvent::PatchesFound(found)) => match found {
            Some(n) => if n > 0 {
                (
                    PatchRun { phase: PatchPhase::Applying, patch_count: n, applied: 0, ..s },
                    PatchAction::ApplyPatch(s.index, 0),
                )
            } else {
                advance_spec(s)
            },
            None => advance_spec(s),
        },
        (PatchPhase::Applying, PatchEvent::Applied(ok)) => {
            if !ok {
                (
                    PatchRun { phase: PatchPhase::Finished, ..s },
                    PatchAction::ApplyFailed(s.index, s.applied),
                )
            } else if s.applied + 1 < s.patch_count {
                (
                    PatchRun { applied: (s.applied + 1) as usize, ..s },
                    PatchAction::ApplyPatch(s.index, (s.applied + 1) as usize),
                )
            } else {
                advance_spec(s)
            }
        },
        _ => (s, pending_spec(s)),
    }
}

/// The actions that a run takes from state `s` in answer to `events`.
pub open spec fn run_actions(s: PatchRun, events: Seq<PatchEvent>) -> Seq<PatchAction>
    decreases events.len(),
{
    if events.len() == 0 {
        Seq::empty()
    } else {
        let (s2, a) = step_spec(s, events[0]);
        seq![a] + run_actions(s2, events.drop_first())
    }
}

/// A run takes one action for each event.
pub proof fn lemma_run_actions_len(s: PatchRun, events: Seq<PatchEvent>)
    ensures
        run_actions(s, events).len() == events.len(),
    decreases events.len(),
{
    if events.len() > 0 {
        let (s2, a) = step_spec(s, events[0]);
        lemma_run_actions_len(s2, events.drop_first());
    }
}

/// Every inspection among `events` found the crate's copy.
pub open spec fn copies_all_exist(events: Seq<PatchEvent>) -> bool {
    forall|i: int|
        0 <= i < events.len() ==> (#[trigger] events[i] matches PatchEvent::Inspected {
            copy_exists,
            ..
        } ==> copy_exists)
}

fn advance(s: PatchRun) -> (r: (PatchRun, PatchAction))
    ensures
        r == advance_spec(s),
{
    if s.crates > 0 && s.index < s.crates - 1 {
        (
            PatchRun {
                index: s.index + 1,
                phase: PatchPhase::Inspecting,
                patch_count: 0,
                applied: 0,
                ..s
            },
            PatchAction::Inspect(s.index + 1),
        )
    } else {
        (PatchRun { phase: PatchPhase::Finished, ..s }, PatchAction::Done)
    }
}

fn pending(s: PatchRun) -> (r: PatchAction)
    ensures
        r == pending_spec(s),
{
    match s.phase {
        PatchPhase::Inspecting => PatchAction::Inspect(s.index),
        PatchPhase::Skipping => PatchAction::Skip(s.index),
        PatchPhase::Removing => PatchAction::RemoveCopy(s.index),
        PatchPhase::Copying => PatchAction::CopyCrate(s.index),
        PatchPhase::Listing => PatchAction::ListPatches(s.index),
        PatchPhase::Applying => PatchAction::ApplyPatch(s.index, s.applied),
        PatchPhase::Finished => PatchAction::Done,
    }
}

/// Starts a run over `crates` crates, with `--force` or not.
pub fn start_patch_run(crates: usize, force: bool) -> (r: (PatchRun, PatchAction))
    ensures
        r == start_spec(crates, force),
{
    let s = PatchRun {
        crates,
        force,
        index: 0,
        phase: PatchPhase::Inspecting,
        patch_count: 0,
        applied: 0,
    };
    if crates == 0 {
        (PatchRun { phase: PatchPhase::Finished, ..s }, PatchAction::Done)
    } else {
        (s, PatchAction::Inspect(0))
    }
}

/// The next state of a run and what to do next, given what was observed
/// or done since the last action.
pub fn patch_step(s: PatchRun, e: PatchEvent) -> (r: (PatchRun, PatchAction))
    ensures
        r == step_spec(s, e),
{
    match (s.phase, e) {
        (PatchPhase::Inspecting, PatchEvent::Inspected { source_exists, copy_exists }) => {
            if !source_exists {
                (PatchRun { phase: PatchPhase::Finished, ..s }, PatchAction::MissingSource(s.index))
            } else {
                match copy_step(copy_exists, s.force) {
                    CopyStep::Skip => (
                        PatchRun { phase: PatchPhase::Skipping, ..s },
                        PatchAction::Skip(s.index),
                    ),
                    CopyStep::ReplaceExisting => (
                        PatchRun { phase: PatchPhase::Removing, ..s },
                        PatchAction::RemoveCopy(s.index),
                    ),
                    CopyStep::Copy => (
                        PatchRun { phase: PatchPhase::Copying, ..s },
                        PatchAction::CopyCrate(s.index),
                    ),
                }
            }
        },
        (PatchPhase::Skipping, PatchEvent::Continue) => advance(s),
        (PatchPhase::Removing, PatchEvent::Removed) => (
            PatchRun { phase: PatchPhase::Copying, ..s },
            PatchAction::CopyCrate(s.index),
        ),
        (PatchPhase::Copying, PatchEvent::Copied) => (
            PatchRun { phase: PatchPhase::Listing, ..s },
            PatchAction::ListPatches(s.index),
        ),
        (PatchPhase::Listing, PatchEvent::PatchesFound(found)) => match found {
            Some(n) => if n > 0 {
                (
                    PatchRun { phase: PatchPhase::Applying, patch_count: n, applied: 0, ..s },
                    PatchAction::ApplyPatch(s.index, 0),
                )
            } else {
                advance(s)
            },
            None => advance(s),
        },
        (PatchPhase::Applying, PatchEvent::Applied(ok)) => {
            if !ok {
                (
                    PatchRun { phase: PatchPhase::Finished, ..s },
                    PatchAction::ApplyFailed(s.index, s.applied),
                )
            } else if s.patch_count > 0 && s.applied < s.patch_count - 1 {
                (
                    PatchRun { applied: s.applied + 1, ..s },
                    PatchAction::ApplyPatch(s.index, s.applied + 1),
                )
            } else {
                advance(s)
            }
        },
        _ => (s, pending(s)),
    }
}

/// Law: when a crate's source is missing the run stops at once, reporting
/// that crate, with nothing removed or copied for it.
pub proof fn law_missing_source_stops(s: PatchRun, copy_exists: bool)
    requires
        s.phase == PatchPhase::Inspecting,
    ensures
        step_spec(s, PatchEvent::Inspected { source_exists: false, copy_exists }) == (
            PatchRun { phase: PatchPhase::Finished, ..s },
            PatchAction::MissingSource(s.index),
        ),
{
}

/// Law: a step that changes the copies comes from an inspection that found
/// the source, or from a state reached after one.
pub proof fn law_changes_need_source(s: PatchRun, e: PatchEvent)
    requires
        changes_copies(step_spec(s, e).1),
    ensures
        !is_quiet(s) || (s.phase == PatchPhase::Inspecting && (e matches PatchEvent::Inspected {
            source_exists,
            ..
        } && source_exists)),
{
}

/// Law: patch files are applied one after another in the order they were
/// listed, and the first that fails stops the run.
pub proof fn law_patches_in_order(s: PatchRun)
    requires
        s.phase == PatchPhase::Applying,
        s.applied + 1 < s.patch_count,
    ensures
        step_spec(s, PatchEvent::Applied(true)).1 == PatchAction::ApplyPatch(
            s.index,
            (s.applied + 1) as usize,
        ),
        step_spec(s, PatchEvent::Applied(false)).0.phase == PatchPhase::Finished,
        step_spec(s, PatchEvent::Applied(false)).1 == PatchAction::ApplyFailed(s.index, s.applied),
{
}

/// Law: once a run is over, nothing it is told makes it act again.
pub proof fn law_finished_stays_finished(s: PatchRun, events: Seq<PatchEvent>)
    requires
        s.phase == PatchPhase::Finished,
    ensures
        forall|i: int| 0 <= i < events.len() ==> #[trigger] run_actions(s, events)[i] == PatchAction::Done,
    decreases events.len(),
{
    lemma_run_actions_len(s, events);
    if events.len() > 0 {
        law_finished_stays_finished(s, events.drop_first());
        let rest = run_actions(s, events.drop_first());
        assert(step_spec(s, events[0]) == (s, PatchAction::Done));
        assert(run_actions(s, events) == seq![PatchAction::Done] + rest);
        assert forall|i: int| 0 <= i < events.len() implies #[trigger] run_actions(s, events)[i]
            == PatchAction::Done by {
            if i > 0 {
                assert(run_actions(s, events)[i] == rest[i - 1]);
            }
        }
    }
}

/// Law: a run without `--force` in which every copy already exists (as in
/// a second run after one that succeeded) changes nothing on disk: each
/// crate is skipped, or the run stops on a missing source.
pub proof fn law_rerun_changes_nothing(s: PatchRun, events: Seq<PatchEvent>)
    requires
        !s.force,
        is_quiet(s),
        copies_all_exist(events),
    ensures
        forall|i: int|
            0 <= i < events.len() ==> !changes_copies(#[trigger] run_actions(s, events)[i]),
    decreases events.len(),
{
    if events.len() > 0 {
        let (s2, a) = step_spec(s, events[0]);
        assert(events[0] matches PatchEvent::Inspected { copy_exists, .. } ==> copy_exists);
        assert(copies_all_exist(events.drop_first())) by {
            assert forall|i: int| 0 <= i < events.drop_first().len() implies (
            #[trigger] events.drop_first()[i] matches PatchEvent::Inspected { copy_exists, .. }
                ==> copy_exists) by {
                assert(events.drop_first()[i] == events[i + 1]);
            }
        }
        law_rerun_changes_nothing(s2, events.drop_first());
        lemma_run_actions_len(s2, events.drop_first());
        let rest = run_actions(s2, events.drop_first());
        assert(run_actions(s, events) == seq![a] + rest);
        assert forall|i: int| 0 <= i < events.len() implies !changes_copies(
            #[trigger] run_actions(s, events)[i],
        ) by {
            if i > 0 {
                assert(run_actions(s, events)[i] == rest[i - 1]);
            }
        }
    }
}

/// `m` events reporting a clean apply.
pub open spec fn clean_applies(m: nat) -> Seq<PatchEvent> {
    Seq::new(m, |i: int| PatchEvent::Applied(true))
}

/// While applying, with patches `applied` to `patch_count - 1` still to be
/// applied and each applying cleanly, the run asks for each of the later
/// ones in order and then moves on to the next crate or finishes.
proof fn lemma_applying_rest(s: PatchRun, m: nat)
    requires
        s.phase == PatchPhase::Applying,
        s.applied < s.patch_count,
        m == s.patch_count - s.applied - 1,
    ensures
        run_actions(s, clean_applies(m + 1)).len() == m + 1,
        forall|t: int|
            0 <= t < m ==> #[trigger] run_actions(s, clean_applies(m + 1))[t]
                == PatchAction::ApplyPatch(s.index, (s.applied + 1 + t) as usize),
        run_actions(s, clean_applies(m + 1))[m as int] == PatchAction::Inspect(
            (s.index + 1) as usize,
        ) || run_actions(s, clean_applies(m + 1))[m as int] == PatchAction::Done,
    decreases m,
{
    let evs = clean_applies(m + 1);
    lemma_run_actions_len(s, evs);
    assert(evs[0] == PatchEvent::Applied(true));
    let (s2, a) = step_spec(s, evs[0]);
    let rest = run_actions(s2, evs.drop_first());
    assert(run_actions(s, evs) == seq![a] + rest);
    if m == 0 {
        assert(a == advance_spec(s).1);
    } else {
        assert(s2 == PatchRun { applied: (s.applied + 1) as usize, ..s });
        assert(a == PatchAction::ApplyPatch(s.index, (s.applied + 1) as usize));
        assert(evs.drop_first() =~= clean_applies(m));
        lemma_applying_rest(s2, (m - 1) as nat);
        assert forall|t: int| 0 <= t < m implies #[trigger] run_actions(s, evs)[t]
            == PatchAction::ApplyPatch(s.index, (s.applied + 1 + t) as usize) by {
            if t > 0 {
                assert(run_actions(s, evs)[t] == rest[t - 1]);
            }
        }
        assert(run_actions(s, evs)[m as int] == rest[m - 1]);
    }
}

/// Law: when a crate's patch files are listed and there is at least one,
/// the first is applied at once, and with every patch applying cleanly
/// each of the `n` listed patches is applied, in order, before the run
/// moves on to the next crate or finishes.
pub proof fn law_all_listed_patches_applied(s: PatchRun, n: usize)
    requires
        s.phase == PatchPhase::Listing,
        n > 0,
    ensures
        step_spec(s, PatchEvent::PatchesFound(Some(n))) == (
            PatchRun { phase: PatchPhase::Applying, patch_count: n, applied: 0, ..s },
            PatchAction::ApplyPatch(s.index, 0),
        ),
        run_actions(s, seq![PatchEvent::PatchesFound(Some(n))] + clean_applies(n as nat)).len()
            == n + 1,
        forall|k: int|
            0 <= k < n ==> #[trigger] run_actions(
                s,
                seq![PatchEvent::PatchesFound(Some(n))] + clean_applies(n as nat),
            )[k] == PatchAction::ApplyPatch(s.index, k as usize),
        run_actions(s, seq![PatchEvent::PatchesFound(Some(n))] + clean_applies(n as nat))[n as int]
            == PatchAction::Inspect((s.index + 1) as usize) || run_actions(
            s,
            seq![PatchEvent::PatchesFound(Some(n))] + clean_applies(n as nat),
        )[n as int] == PatchAction::Done,
{
    let evs = seq![PatchEvent::PatchesFound(Some(n))] + clean_applies(n as nat);
    lemma_run_actions_len(s, evs);
    assert(evs[0] == PatchEvent::PatchesFound(Some(n)));
    let (s2, a) = step_spec(s, evs[0]);
    assert(evs.drop_first() =~= clean_applies(n as nat));
    let rest = run_actions(s2, evs.drop_first());
    assert(run_actions(s, evs) == seq![a] + rest);
    lemma_applying_rest(s2, (n - 1) as nat);
    assert forall|k: int| 0 <= k < n implies #[trigger] run_actions(s, evs)[k]
        == PatchAction::ApplyPatch(s.index, k as usize) by {
        if k > 0 {
            assert(run_actions(s, evs)[k] == rest[k - 1]);
        }
    }
    assert(run_actions(s, evs)[n as int] == rest[n - 1]);
}

/// Events of a run in which every copy exists: for each crate, the
/// inspection finding source and copy, then the report of the skip.
pub open spec fn all_present_events(n: nat) -> Seq<PatchEvent> {
    Seq::new(
        2 * n,
        |i: int|
            if i % 2 == 0 {
                PatchEvent::Inspected { source_exists: true, copy_exists: true }
            } else {
                PatchEvent::Continue
            },
    )
}

proof fn lemma_skip_rest(s: PatchRun, m: nat)
    requires
        s.phase == PatchPhase::Inspecting,
        !s.force,
        s.index < s.crates,
        m == s.crates - s.index,
    ensures
        run_actions(s, all_present_events(m)).len() == 2 * m,
        forall|t: int|
            0 <= t < m ==> #[trigger] run_actions(s, all_present_events(m))[2 * t]
                == PatchAction::Skip((s.index + t) as usize),
        forall|t: int|
            0 <= t < m - 1 ==> #[trigger] run_actions(s, all_present_events(m))[2 * t + 1]
                == PatchAction::Inspect((s.index + t + 1) as usize),
        run_actions(s, all_present_events(m))[2 * m - 1] == PatchAction::Done,
    decreases m,
{
    let evs = all_present_events(m);
    lemma_run_actions_len(s, evs);
    assert(evs[0] == PatchEvent::Inspected { source_exists: true, copy_exists: true });
    assert(evs[1] == PatchEvent::Continue);
    let (s1, a1) = step_spec(s, evs[0]);
    assert(a1 == PatchAction::Skip(s.index));
    let evs1 = evs.drop_first();
    let (s2, a2) = step_spec(s1, evs1[0]);
    let evs2 = evs1.drop_first();
    let rest = run_actions(s2, evs2);
    assert(run_actions(s, evs) == seq![a1] + run_actions(s1, evs1));
    assert(run_actions(s1, evs1) == seq![a2] + rest);
    if m == 1 {
        assert(a2 == PatchAction::Done);
    } else {
        assert(a2 == PatchAction::Inspect((s.index + 1) as usize));
        assert(evs2 =~= all_present_events((m - 1) as nat)) by {
            assert forall|i: int| 0 <= i < evs2.len() implies evs2[i] == all_present_events(
                (m - 1) as nat,
            )[i] by {
                assert(evs2[i] == evs[i + 2]);
                assert((i + 2) % 2 == i % 2);
            }
        }
        lemma_skip_rest(s2, (m - 1) as nat);
        assert forall|t: int| 0 <= t < m implies #[trigger] run_actions(s, evs)[2 * t]
            == PatchAction::Skip((s.index + t) as usize) by {
            if t > 0 {
                assert(run_actions(s, evs)[2 * t] == rest[2 * (t - 1)]);
            }
        }
        assert forall|t: int| 0 <= t < m - 1 implies #[trigger] run_actions(s, evs)[2 * t + 1]
            == PatchAction::Inspect((s.index + t + 1) as usize) by {
            if t > 0 {
                assert(run_actions(s, evs)[2 * t + 1] == rest[2 * (t - 1) + 1]);
            }
        }
        assert(run_actions(s, evs)[2 * m - 1] == rest[2 * (m - 1) - 1]);
    }
}

/// Law: a run without `--force` over `n` crates whose sources and copies
/// all exist (a second run after one that succeeded) inspects every crate
/// in turn, skips each one, and then reports success.
pub proof fn law_rerun_skips_every_crate(n: usize)
    requires
        n > 0,
    ensures
        start_spec(n, false).1 == PatchAction::Inspect(0),
        run_actions(start_spec(n, false).0, all_present_events(n as nat)).len() == 2 * n,
        forall|i: int|
            0 <= i < n ==> #[trigger] run_actions(
                start_spec(n, false).0,
                all_present_events(n as nat),
            )[2 * i] == PatchAction::Skip(i as usize),
        forall|i: int|
            0 <= i < n - 1 ==> #[trigger] run_actions(
                start_spec(n, false).0,
                all_present_events(n as nat),
            )[2 * i + 1] == PatchAction::Inspect((i + 1) as usize),
        run_actions(start_spec(n, false).0, all_present_events(n as nat))[2 * n - 1]
            == PatchAction::Done,
{
    lemma_skip_rest(start_spec(n, false).0, n as nat);
}

/// Law: once a crate's source is found, the crate is copied unless its copy
/// exists and `--force` was not given; with `--force` an existing copy is
/// removed first and then the crate is copied; after the copy its patch
/// files are listed.
pub proof fn law_found_source_is_copied(s: PatchRun, copy_exists: bool)
    requires
        s.phase == PatchPhase::Inspecting,
    ensures
        !copy_exists ==> step_spec(s, PatchEvent::Inspected { source_exists: true, copy_exists }).1
            == PatchAction::CopyCrate(s.index),
        copy_exists && s.force ==> step_spec(
            s,
            PatchEvent::Inspected { source_exists: true, copy_exists },
        ).1 == PatchAction::RemoveCopy(s.index) && step_spec(
            step_spec(s, PatchEvent::Inspected { source_exists: true, copy_exists }).0,
            PatchEvent::Removed,
        ).1 == PatchAction::CopyCrate(s.index),
        copy_exists && !s.force ==> step_spec(
            s,
            PatchEvent::Inspected { source_exists: true, copy_exists },
        ).1 == PatchAction::Skip(s.index),
        !(copy_exists && !s.force) ==> step_spec(
            step_spec(s, PatchEvent::Inspected { source_exists: true, copy_exists: false }).0,
            PatchEvent::Copied,
        ).1 == PatchAction::ListPatches(s.index),
{
}

/// Law: a crate with no patch directory, or an empty one, is done once
/// copied: the run moves on to the next crate, or reports success after the
/// last.
pub proof fn law_no_patches_moves_on(s: PatchRun, found: Option<usize>)
    requires
        s.phase == PatchPhase::Listing,
        s.index < s.crates,
        found == None::<usize> || found == Some(0usize),
    ensures
        s.index + 1 < s.crates ==> step_spec(s, PatchEvent::PatchesFound(found)).1
            == PatchAction::Inspect((s.index + 1) as usize),
        s.index + 1 == s.crates ==> step_spec(s, PatchEvent::PatchesFound(found)).1
            == PatchAction::Done,
{
}

/// Law: a run without `--force` starts in a state in which nothing is being
/// changed, so the law above covers a whole run.
pub proof fn law_start_is_quiet(crates: usize)
    ensures
        is_quiet(start_spec(crates, false).0),
        !start_spec(crates, false).0.force,
{
}

} // verus!
