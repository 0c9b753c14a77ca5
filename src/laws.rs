use vstd::prelude::*;
use crate::error::LaunchError;
use crate::launch::{before_mount, next, step_error, succeeded, Directive, Ending, Event, Phase, Stage};

verus! {

/// The sequence driven by a list of events, from phase `p`: the phase it
/// reaches and the shapes of the actions it issues. Nothing is issued once
/// it has ended.
pub open spec fn run(p: Phase, es: Seq<Event>, runnable: bool) -> (Phase, Seq<Directive>)
    decreases es.len(),
{
    if es.len() == 0 || p.stage is Ended {
        (p, seq![])
    } else {
        let (q, d) = next(p, es[0], runnable);
        let (f, ds) = run(q, es.skip(1), runnable);
        (f, seq![d] + ds)
    }
}

/// How many unmounts a list of actions holds.
pub open spec fn unmounts(ds: Seq<Directive>) -> nat
    decreases ds.len(),
{
    if ds.len() == 0 {
        0
    } else {
        (if ds[0] is Unmount { 1nat } else { 0nat }) + unmounts(ds.skip(1))
    }
}

proof fn lemma_unmounts_front(d: Directive, ds: Seq<Directive>)
    ensures
        unmounts(seq![d] + ds) == (if d is Unmount { 1nat } else { 0nat }) + unmounts(ds),
{
    let s = seq![d] + ds;
    assert(s.skip(1) =~= ds);
    assert(s[0] == d);
}

proof fn lemma_release_tail(p: Phase, es: Seq<Event>, runnable: bool)
    requires
        p.stage is RunCommand || p.stage is Unmounting || p.stage is Ended,
        run(p, es, runnable).0.stage is Ended,
    ensures
        unmounts(run(p, es, runnable).1) == (if p.stage is RunCommand { 1nat } else { 0nat }),
    decreases es.len(),
{
    if es.len() == 0 || p.stage is Ended {
        assert(unmounts(Seq::<Directive>::empty()) == 0);
    } else {
        let (q, d) = next(p, es[0], runnable);
        lemma_release_tail(q, es.skip(1), runnable);
        lemma_unmounts_front(d, run(q, es.skip(1), runnable).1);
    }
}

/// Once `/proc` has been mounted, every run of the sequence to its end
/// issues exactly one unmount, whether the command ran, could not be
/// started, or was never named.
pub proof fn lemma_mount_released_once(p: Phase, es: Seq<Event>, runnable: bool)
    requires
        p.stage is MountProc,
        !p.proc_mounted,
        es.len() > 0,
        es[0] is Succeeded,
        run(p, es, runnable).0.stage is Ended,
    ensures
        unmounts(run(p, es, runnable).1) == 1,
{
    let (q, d) = next(p, es[0], runnable);
    lemma_release_tail(q, es.skip(1), runnable);
    lemma_unmounts_front(d, run(q, es.skip(1), runnable).1);
}

/// A failure in any step up to and including the `/proc` mount ends the
/// sequence at once: nothing is mounted, nothing more is issued, and the
/// process aborts with that step's error.
pub proof fn lemma_early_failure_leaves_no_mount(p: Phase, es: Seq<Event>, runnable: bool)
    requires
        before_mount(p.stage),
        !p.proc_mounted,
        es.len() > 0,
        !succeeded(p.stage, es[0]),
    ensures
        run(p, es, runnable).0.stage is Ended,
        !run(p, es, runnable).0.proc_mounted,
        run(p, es, runnable).1 == seq![Directive::Finish(Ending::Abort(step_error(p.stage)))],
{
    let (q, d) = next(p, es[0], runnable);
    assert(run(q, es.skip(1), runnable) == (q, Seq::<Directive>::empty()));
    assert(seq![d] + Seq::<Directive>::empty() =~= seq![d]);
}

/// The phase is consistent: nothing is mounted before the mount step, and a
/// finished sequence holds `/proc` only when its unmount was refused.
pub open spec fn phase_ok(p: Phase) -> bool {
    &&& before_mount(p.stage) ==> !p.proc_mounted
    &&& (p.stage is Ended && p.proc_mounted) ==> p.ending == Ending::Abort(LaunchError::Mount)
}

/// Whatever the events, a finished sequence leaves no `/proc` mount behind,
/// unless the unmount itself was refused, in which case the process aborts
/// with a mount error.
pub proof fn lemma_no_mount_left_behind(p: Phase, es: Seq<Event>, runnable: bool)
    requires
        phase_ok(p),
        run(p, es, runnable).0.stage is Ended,
    ensures
        run(p, es, runnable).0.proc_mounted ==> run(p, es, runnable).0.ending == Ending::Abort(
            LaunchError::Mount,
        ),
    decreases es.len(),
{
    if es.len() > 0 && !(p.stage is Ended) {
        let (q, d) = next(p, es[0], runnable);
        assert(phase_ok(q));
        lemma_no_mount_left_behind(q, es.skip(1), runnable);
    }
}

} // verus!
