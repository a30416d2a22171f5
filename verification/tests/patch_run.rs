use hipfire_arwaky::patch_run::PatchAction::{
    ApplyFailed, ApplyPatch, CopyCrate, Done, Inspect, ListPatches, MissingSource, RemoveCopy, Skip,
};
use hipfire_arwaky::patch_run::{patch_step, start_patch_run, PatchAction, PatchEvent, PatchPhase};

/// Drives a run over crates whose source exists when `sources[i]`, whose
/// copy exists when `copies[i]`, with `patches[i]` patch files (None: no
/// patch directory), every patch applying except those listed in `failing`.
fn simulate(
    sources: &[bool],
    copies: &[bool],
    patches: &[Option<usize>],
    force: bool,
    failing: &[(usize, usize)],
) -> Vec<PatchAction> {
    let (mut run, mut action) = start_patch_run(sources.len(), force);
    let mut log = vec![action];
    loop {
        let event = match action {
            PatchAction::Inspect(i) => PatchEvent::Inspected {
                source_exists: sources[i],
                copy_exists: copies[i],
            },
            PatchAction::Skip(_) => PatchEvent::Continue,
            PatchAction::RemoveCopy(_) => PatchEvent::Removed,
            PatchAction::CopyCrate(_) => PatchEvent::Copied,
            PatchAction::ListPatches(i) => PatchEvent::PatchesFound(patches[i]),
            PatchAction::ApplyPatch(i, k) => PatchEvent::Applied(!failing.contains(&(i, k))),
            PatchAction::MissingSource(_) | PatchAction::ApplyFailed(_, _) | PatchAction::Done => {
                break
            }
        };
        (run, action) = patch_step(run, event);
        log.push(action);
    }
    assert_eq!(run.phase, PatchPhase::Finished);
    log
}

#[test]
fn first_run_copies_and_patches_in_order() {
    let log = simulate(&[true, true], &[false, false], &[Some(2), None], false, &[]);
    assert_eq!(
        log,
        vec![
            Inspect(0), CopyCrate(0), ListPatches(0), ApplyPatch(0, 0), ApplyPatch(0, 1),
            Inspect(1), CopyCrate(1), ListPatches(1), Done
        ]
    );
}

#[test]
fn second_run_without_force_only_skips() {
    let log = simulate(&[true, true], &[true, true], &[Some(2), None], false, &[]);
    assert_eq!(log, vec![Inspect(0), Skip(0), Inspect(1), Skip(1), Done]);
}

#[test]
fn force_replaces_existing_copies() {
    let log = simulate(&[true], &[true], &[Some(0)], true, &[]);
    assert_eq!(log, vec![Inspect(0), RemoveCopy(0), CopyCrate(0), ListPatches(0), Done]);
}

#[test]
fn missing_source_stops_before_copying() {
    let log = simulate(&[true, false, true], &[false, false, false], &[None, None, None], false, &[]);
    assert_eq!(
        log,
        vec![Inspect(0), CopyCrate(0), ListPatches(0), Inspect(1), MissingSource(1)]
    );
}

#[test]
fn failing_patch_stops_the_run() {
    let log = simulate(&[true, true], &[false, false], &[Some(3), Some(1)], false, &[(0, 1)]);
    assert_eq!(
        log,
        vec![Inspect(0), CopyCrate(0), ListPatches(0), ApplyPatch(0, 0), ApplyPatch(0, 1), ApplyFailed(0, 1)]
    );
}

#[test]
fn empty_run_is_done_at_once() {
    assert_eq!(simulate(&[], &[], &[], false, &[]), vec![PatchAction::Done]);
}

#[test]
fn unexpected_event_repeats_the_action() {
    let (run, action) = start_patch_run(1, false);
    let (run2, action2) = patch_step(run, PatchEvent::Copied);
    assert_eq!(run2, run);
    assert_eq!(action2, action);
    let (done, a) = patch_step(
        patch_step(run, PatchEvent::Inspected { source_exists: false, copy_exists: true }).0,
        PatchEvent::Continue,
    );
    assert_eq!(done.phase, PatchPhase::Finished);
    assert_eq!(a, PatchAction::Done);
}
