//! Proved properties of the conversion machine.
//!
//! The machine's driver touches the filesystem only when asked: it creates
//! directories on `CreateDirAll`, creates or truncates the output on
//! `OpenOutput`, and writes image bytes on `Build` and `Flush`. Everything
//! below is therefore stated over the actions the machine requests: a run
//! that never requests a write action leaves the filesystem untouched.

use vstd::prelude::*;

use crate::convert::action_of;
use crate::convert::init;
use crate::convert::msg_missing_input;
use crate::convert::msg_same_file;
use crate::convert::stepped;
use crate::convert::ActionView;
use crate::convert::ConverterView;
use crate::convert::EventView;
use crate::convert::PhaseView;
use crate::paths::join_spec;
use crate::paths::parent_spec;

verus! {

/// The actions whose performance changes the filesystem: directory
/// creation, opening the output with truncation, and writing image bytes.
pub open spec fn is_write_action(a: ActionView) -> bool {
    ||| a is CreateDirAll
    ||| a is OpenOutput
    ||| a is Build
    ||| a is Flush
}

/// The phases that lie beyond the collision guard: only there can the
/// machine request any write action.
pub open spec fn guard_cleared(p: PhaseView) -> bool {
    ||| p is PrepareDirs
    ||| p is OpenInput
    ||| p is ValidateSource
    ||| p is Mount
    ||| p is OpenOutput
    ||| p is Build
    ||| p is Flush
    ||| p is Done
}

/// The machine after a whole sequence of reports.
pub open spec fn run(c: ConverterView, es: Seq<EventView>) -> ConverterView
    decreases es.len(),
{
    if es.len() == 0 {
        c
    } else {
        run(stepped(c, es[0]), es.drop_first())
    }
}

/// Before the collision guard has cleared, the machine never requests a
/// write action; the filesystem is untouched up to that point.
pub proof fn lemma_no_write_before_guard(c: ConverterView)
    requires
        !guard_cleared(c.phase),
    ensures
        !is_write_action(action_of(c)),
{
}

/// The ways a step may carry the machine past the collision guard without
/// danger: the output does not yet exist, or the output's resolved identity
/// differs from the input's.
pub open spec fn clears_guard_safely(c: ConverterView, e: EventView) -> bool {
    ||| (c.phase is CheckCollision && e == EventView::OutputExists(false))
    ||| (c.phase matches PhaseView::ResolveOutput { in_abs } && (
        e matches EventView::Canonical(Some(p)) && p != in_abs
    ))
    ||| (c.phase matches PhaseView::ResolveOutput { in_abs } && (
        e matches EventView::Canonical(None::<Seq<char>>) && c.output != in_abs
    ))
    ||| (c.phase matches PhaseView::ResolveOutputCwd { in_abs } && (
        e matches EventView::Cwd(Some(d)) && join_spec(d, c.output) != in_abs
    ))
}

/// The guard clears only safely. With equal resolved identities the machine
/// fails instead, so the source is never overwritten.
pub proof fn lemma_guard_clears_only_when_safe(c: ConverterView, e: EventView)
    requires
        !guard_cleared(c.phase),
        guard_cleared(stepped(c, e).phase),
    ensures
        clears_guard_safely(c, e),
{
}

/// With equal resolved identities the step fails with the self-overwrite
/// message, whichever way the output's identity was obtained.
pub proof fn lemma_self_overwrite_fails(c: ConverterView, e: EventView)
    requires
        ({
        ||| (c.phase matches PhaseView::ResolveOutput { in_abs } && (
            e matches EventView::Canonical(Some(p)) && p == in_abs
        ))
        ||| (c.phase matches PhaseView::ResolveOutput { in_abs } && (
            e matches EventView::Canonical(None::<Seq<char>>) && crate::paths::is_absolute_spec(
                c.output,
            ) && c.output == in_abs
        ))
        ||| (c.phase matches PhaseView::ResolveOutputCwd { in_abs } && (
            e matches EventView::Cwd(Some(d)) && join_spec(d, c.output) == in_abs
        ))
        }),
    ensures
        stepped(c, e).phase == (PhaseView::Failed { message: msg_same_file() }),
{
}

/// A failed run is final: no report moves it, its only request is to finish
/// with status one, and it never requests a write action.
pub proof fn lemma_failed_is_final(c: ConverterView, es: Seq<EventView>)
    requires
        c.phase is Failed,
    ensures
        run(c, es) == c,
        action_of(c) == ActionView::Finish(1),
        !is_write_action(action_of(c)),
    decreases es.len(),
{
    if es.len() > 0 {
        lemma_failed_is_final(stepped(c, es[0]), es.drop_first());
    }
}

/// Converting a missing input fails at once with a message naming the input
/// path, and however the driver keeps reporting afterwards, the machine
/// never requests a write action: neither the output file nor its parent
/// directories are ever created.
pub proof fn lemma_missing_input_never_writes(
    input: Seq<char>,
    output: Seq<char>,
    is_file: bool,
    es: Seq<EventView>,
)
    ensures
        ({
            let c = stepped(init(input, output), EventView::Stat { found: false, is_file });
            &&& c.phase == (PhaseView::Failed { message: msg_missing_input(input) })
            &&& run(c, es) == c
            &&& action_of(run(c, es)) == ActionView::Finish(1)
        }),
        !is_write_action(action_of(init(input, output))),
{
    let c = stepped(init(input, output), EventView::Stat { found: false, is_file });
    lemma_failed_is_final(c, es);
}

/// Peeling the last step off a run.
proof fn lemma_run_snoc(c: ConverterView, es: Seq<EventView>, i: int)
    requires
        0 < i <= es.len(),
    ensures
        run(c, es.take(i)) == stepped(run(c, es.take(i - 1)), es[i - 1]),
    decreases i,
{
    if i == 1 {
        assert(es.take(1).len() == 1);
        assert(es.take(1)[0] == es[0]);
        assert(es.take(1).drop_first() =~= es.take(0));
        assert(run(c, es.take(1)) == run(stepped(c, es[0]), es.take(0)));
        assert(run(stepped(c, es[0]), es.take(0)) == stepped(c, es[0]));
        assert(run(c, es.take(0)) == c);
    } else {
        let c1 = stepped(c, es[0]);
        let rest = es.drop_first();
        assert(es.take(i)[0] == es[0]);
        assert(es.take(i).drop_first() =~= rest.take(i - 1));
        assert(es.take(i - 1)[0] == es[0]);
        assert(es.take(i - 1).drop_first() =~= rest.take(i - 2));
        assert(run(c, es.take(i)) == run(c1, rest.take(i - 1)));
        assert(run(c, es.take(i - 1)) == run(c1, rest.take(i - 2)));
        lemma_run_snoc(c1, rest, i - 1);
        assert(rest[i - 2] == es[i - 1]);
        assert(run(c, es.take(i)) == stepped(run(c, es.take(i - 1)), es[i - 1]));
    }
}

/// Self-overwrite safety over whole runs: however the driver reports, a
/// machine that ever requests a write action first passed the collision
/// guard safely — the output did not exist, or the two resolved identities
/// differed. A conversion onto its own source never reaches a write.
pub proof fn lemma_writes_only_after_safe_guard(
    input: Seq<char>,
    output: Seq<char>,
    es: Seq<EventView>,
    i: int,
)
    requires
        0 <= i <= es.len(),
        is_write_action(action_of(run(init(input, output), es.take(i)))),
    ensures
        exists|j: int|
            0 <= j < i && clears_guard_safely(#[trigger] run(init(input, output), es.take(j)), es[j]),
{
    let c0 = init(input, output);
    assert(guard_cleared(run(c0, es.take(i)).phase));
    lemma_first_safe_clearing(c0, es, i);
}

/// A run that starts short of the guard and ends past it holds a step that
/// cleared the guard, and by `lemma_guard_clears_only_when_safe` that step
/// was safe.
proof fn lemma_first_safe_clearing(c0: ConverterView, es: Seq<EventView>, i: int)
    requires
        !guard_cleared(c0.phase),
        0 <= i <= es.len(),
        guard_cleared(run(c0, es.take(i)).phase),
    ensures
        exists|j: int| 0 <= j < i && clears_guard_safely(#[trigger] run(c0, es.take(j)), es[j]),
    decreases i,
{
    assert(es.take(0) =~= Seq::empty());
    let prev = run(c0, es.take(i - 1));
    lemma_run_snoc(c0, es, i);
    if guard_cleared(prev.phase) {
        lemma_first_safe_clearing(c0, es, i - 1);
        let j = choose|j: int|
            0 <= j < i - 1 && clears_guard_safely(#[trigger] run(c0, es.take(j)), es[j]);
        assert(clears_guard_safely(run(c0, es.take(j)), es[j]));
    } else {
        lemma_guard_clears_only_when_safe(prev, es[i - 1]);
        assert(clears_guard_safely(run(c0, es.take(i - 1)), es[i - 1]));
    }
}

/// The machine succeeds only after the whole chain ran: `Done` is reached
/// exactly by a successful flush, and only `Done` reports status zero. Any
/// interrupted conversion therefore reports a non-zero status.
pub proof fn lemma_success_only_after_flush(c: ConverterView, e: EventView)
    ensures
        stepped(c, e).phase is Done <==> (c.phase is Done || (c.phase is Flush && e
            == EventView::Outcome(true))),
        action_of(c) == ActionView::Finish(0) <==> c.phase is Done,
{
}

/// The directory-preparation phase is only ever entered when the output has
/// a nonempty parent directory: a fresh machine starts elsewhere, and every
/// step preserves this.
pub open spec fn parent_nonempty_inv(c: ConverterView) -> bool {
    c.phase is PrepareDirs ==> parent_spec(c.output).len() > 0
}

pub proof fn lemma_init_parent_nonempty(input: Seq<char>, output: Seq<char>)
    ensures
        parent_nonempty_inv(init(input, output)),
{
}

pub proof fn lemma_step_preserves_parent_nonempty(c: ConverterView, e: EventView)
    requires
        parent_nonempty_inv(c),
    ensures
        parent_nonempty_inv(stepped(c, e)),
{
}

/// Directory creation is requested exactly once, before any stream is
/// opened: only in the directory-preparation phase, only for the output's
/// own parent directory, and only when that parent is nonempty.
pub proof fn lemma_dir_creation_exact(c: ConverterView)
    requires
        parent_nonempty_inv(c),
    ensures
        action_of(c) is CreateDirAll ==> (c.phase is PrepareDirs && action_of(c)
            == ActionView::CreateDirAll(parent_spec(c.output)) && parent_spec(c.output).len() > 0),
{
}

/// The image is built only into a destination that was just opened with
/// create-and-truncate semantics: the build phase is entered exactly by a
/// successful output open.
pub proof fn lemma_build_only_into_fresh_output(c: ConverterView, e: EventView)
    ensures
        stepped(c, e).phase is Build ==> (c.phase is Build || (c.phase is OpenOutput && e
            == EventView::Outcome(true))),
{
}

} // verus!
