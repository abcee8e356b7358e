//! What holds of whole runs: feeding any sequence of per-frame elapsed times
//! into the machine reaches the playing state exactly when the times sum to
//! the loading duration, the spinner's accumulated rotation is twice the time
//! spent loading, and tearing the loading screen down twice is the same as
//! tearing it down once.

use vstd::prelude::*;
use crate::state::ApplicationState;
use crate::timer::LOADING_DURATION_MILLIS;
use crate::ui::{
    Node, NodeKind, loading_exit, rotated, spin_node, is_loading_tagged,
    lemma_loading_exit_untagged,
};
use crate::machine::{
    initial_view,
    AppView, loading_update, frame_step, run, no_loading_nodes, exit_state,
    lemma_frame_step_preserves_wf,
};

verus! {

/// The total of a sequence of per-frame elapsed times.
pub open spec fn sum_of(deltas: Seq<u64>) -> int
    decreases deltas.len(),
{
    if deltas.len() == 0 {
        0
    } else {
        deltas.first() + sum_of(deltas.drop_first())
    }
}

/// Elapsed times are non-negative, so their total is too.
pub proof fn lemma_sum_nonneg(deltas: Seq<u64>)
    ensures
        sum_of(deltas) >= 0,
    decreases deltas.len(),
{
    if deltas.len() > 0 {
        lemma_sum_nonneg(deltas.drop_first());
    }
}

/// `n` frames of `d` milliseconds each.
pub open spec fn repeated(d: u64, n: nat) -> Seq<u64> {
    Seq::new(n, |j: int| d)
}

/// `n` frames of `d` milliseconds each sum to `n * d`.
pub proof fn lemma_sum_repeat(d: u64, n: nat)
    ensures
        sum_of(repeated(d, n)) == n * d,
    decreases n,
{
    if n > 0 {
        lemma_sum_repeat(d, (n - 1) as nat);
        assert(repeated(d, n).drop_first() =~= repeated(d, (n - 1) as nat));
        assert(repeated(d, n).first() == d);
        assert(sum_of(repeated(d, n)) == d + sum_of(repeated(d, (n - 1) as nat)));
        assert(d + ((n - 1) as nat) * d == n * d) by (nonlinear_arith)
            requires
                n > 0,
        ;
    } else {
        assert(repeated(d, n).len() == 0);
        assert(n * d == 0) by (nonlinear_arith)
            requires
                n == 0,
        ;
    }
}

/// Clockwise rotation accumulates: turning by `a` and then by `b` is turning
/// by `a + b`.
pub proof fn lemma_spin_compose(n: Node, a: int, b: int)
    requires
        a >= 0,
        b >= 0,
    ensures
        spin_node(spin_node(n, a), b) == spin_node(n, a + b),
{
}

/// Rotating every spinner by `a` and then by `b` rotates it by `a + b`.
pub proof fn lemma_rotated_compose(nodes: Seq<Node>, a: int, b: int)
    requires
        a >= 0,
        b >= 0,
    ensures
        rotated(rotated(nodes, a), b) == rotated(nodes, a + b),
{
    assert forall|i: int| 0 <= i < nodes.len() implies rotated(rotated(nodes, a), b)[i]
        == rotated(nodes, a + b)[i] by {
        lemma_spin_compose(nodes[i], a, b);
    }
    assert(rotated(rotated(nodes, a), b) =~= rotated(nodes, a + b));
}

/// A zero rotation changes nothing.
pub proof fn lemma_rotated_zero(nodes: Seq<Node>)
    ensures
        rotated(nodes, 0) == nodes,
{
    assert(rotated(nodes, 0) =~= nodes);
}

/// Once the program is playing it stays playing: a frame in the playing state
/// only clears the (at most identical) pending request and touches nothing
/// else. The move from loading to playing therefore happens at most once, and
/// the program never reverts to loading.
pub proof fn lemma_playing_frame(v: AppView, delta: u64)
    requires
        v.wf(),
        v.state == ApplicationState::Playing,
    ensures
        frame_step(v, delta) == (AppView { pending: None, ..v }),
        frame_step(v, delta).wf(),
{
    lemma_frame_step_preserves_wf(v, delta);
}

/// Once playing, the program stays playing through any further sequence of
/// frames, with the visual tree untouched: it never reverts to loading.
pub proof fn lemma_playing_run(v: AppView, deltas: Seq<u64>)
    requires
        v.wf(),
        v.state == ApplicationState::Playing,
    ensures
        run(v, deltas).state == ApplicationState::Playing,
        run(v, deltas).nodes == v.nodes,
        run(v, deltas).elapsed == v.elapsed,
        run(v, deltas).wf(),
    decreases deltas.len(),
{
    if deltas.len() > 0 {
        lemma_playing_frame(v, deltas.first());
        lemma_playing_run(frame_step(v, deltas.first()), deltas.drop_first());
    }
}

/// While the fed elapsed times total less than the remaining loading time,
/// the program stays loading, frame after frame, indefinitely: the timer
/// simply accumulates the total and every spinner turns clockwise by twice
/// the total, with no transition ever requested.
pub proof fn lemma_loading_run(v: AppView, deltas: Seq<u64>)
    requires
        v.wf(),
        v.state == ApplicationState::Loading,
        v.pending is None,
        v.elapsed + sum_of(deltas) < v.target,
    ensures
        run(v, deltas).state == ApplicationState::Loading,
        run(v, deltas).pending is None,
        run(v, deltas).elapsed == v.elapsed + sum_of(deltas),
        run(v, deltas).target == v.target,
        run(v, deltas).next_id == v.next_id,
        run(v, deltas).nodes == rotated(v.nodes, 2 * sum_of(deltas)),
        run(v, deltas).wf(),
    decreases deltas.len(),
{
    if deltas.len() == 0 {
        lemma_rotated_zero(v.nodes);
    } else {
        let d = deltas.first();
        let rest = deltas.drop_first();
        lemma_sum_nonneg(rest);
        let u = loading_update(v, d);
        assert(u.elapsed == v.elapsed + d);
        assert(u.pending is None);
        assert(frame_step(v, d) == u);
        lemma_frame_step_preserves_wf(v, d);
        lemma_loading_run(u, rest);
        lemma_rotated_compose(v.nodes, 2 * (d as int), 2 * sum_of(rest));
    }
}

/// Feeding elapsed times that total at least the remaining loading time makes
/// the program playing, eventually and permanently: the transition request is
/// posted on the frame that completes the timer and takes effect at that
/// frame's boundary, and `lemma_playing_run` says the state never reverts.
pub proof fn lemma_completion_run(v: AppView, deltas: Seq<u64>)
    requires
        v.wf(),
        v.state == ApplicationState::Loading,
        v.elapsed < v.target,
        v.elapsed + sum_of(deltas) >= v.target,
    ensures
        run(v, deltas).state == ApplicationState::Playing,
        run(v, deltas).wf(),
        no_loading_nodes(run(v, deltas).nodes),
    decreases deltas.len(),
{
    lemma_sum_nonneg(deltas);
    assert(deltas.len() > 0);
    let d = deltas.first();
    let rest = deltas.drop_first();
    lemma_sum_nonneg(rest);
    let stepped = frame_step(v, d);
    lemma_frame_step_preserves_wf(v, d);
    let u = loading_update(v, d);
    if v.pending is None && u.elapsed < v.target {
        assert(u.elapsed == v.elapsed + d);
        lemma_completion_run(stepped, rest);
    } else {
        assert(u.pending == Some(ApplicationState::Playing));
        assert(stepped.state == ApplicationState::Playing);
        lemma_playing_run(stepped, rest);
    }
}

/// Feeding the frames of `a` and then those of `b` is one run of `a + b`.
pub proof fn lemma_run_decomposes(v: AppView, a: Seq<u64>, b: Seq<u64>)
    ensures
        run(v, a + b) == run(run(v, a), b),
    decreases a.len(),
{
    if a.len() == 0 {
        assert(a + b =~= b);
    } else {
        assert((a + b).drop_first() =~= a.drop_first() + b);
        lemma_run_decomposes(frame_step(v, a.first()), a.drop_first(), b);
    }
}

/// The move to playing happens at most once: if any prefix of the fed elapsed
/// times has made the program playing, the whole sequence leaves it playing —
/// it never reverts to loading.
pub proof fn lemma_no_revert(v: AppView, deltas: Seq<u64>, i: int)
    requires
        v.wf(),
        0 <= i <= deltas.len(),
        run(v, deltas.take(i)).state == ApplicationState::Playing,
        run(v, deltas.take(i)).wf(),
    ensures
        run(v, deltas).state == ApplicationState::Playing,
        run(v, deltas).wf(),
{
    assert(deltas =~= deltas.take(i) + deltas.skip(i));
    lemma_run_decomposes(v, deltas.take(i), deltas.skip(i));
    lemma_playing_run(run(v, deltas.take(i)), deltas.skip(i));
}

/// The state the program starts in is well formed.
pub proof fn lemma_initial_wf()
    ensures
        initial_view().wf(),
{
    let nodes = initial_view().nodes;
    assert(nodes[1].kind == NodeKind::LoadingRoot);
    assert(nodes[2].kind == NodeKind::LoadingText);
    assert(nodes[3].kind == NodeKind::SpinnerFrame);
    assert(nodes[4].kind == NodeKind::Spinner);
}

/// From program start, every sequence of elapsed times totalling at least the
/// loading duration ends with the program playing, its loading screen gone.
pub proof fn lemma_initial_completion(deltas: Seq<u64>)
    requires
        sum_of(deltas) >= LOADING_DURATION_MILLIS,
    ensures
        run(initial_view(), deltas).state == ApplicationState::Playing,
        no_loading_nodes(run(initial_view(), deltas).nodes),
{
    lemma_initial_wf();
    lemma_completion_run(initial_view(), deltas);
}

/// From program start, every sequence of elapsed times totalling less than
/// the loading duration leaves the program loading, however long it is, with
/// the timer at exactly the total fed in.
pub proof fn lemma_initial_stays_loading(deltas: Seq<u64>)
    requires
        sum_of(deltas) < LOADING_DURATION_MILLIS,
    ensures
        run(initial_view(), deltas).state == ApplicationState::Loading,
        run(initial_view(), deltas).elapsed == sum_of(deltas),
{
    lemma_sum_nonneg(deltas);
    lemma_initial_wf();
    lemma_loading_run(initial_view(), deltas);
}

/// Leaving the loading state removes every node the loading screen is made
/// of: immediately after the exit hook, before anything is spawned for the
/// next state, not one loading-tagged node is left.
pub proof fn lemma_exit_clears_loading_screen(v: AppView)
    requires
        v.state == ApplicationState::Loading,
    ensures
        no_loading_nodes(exit_state(v).nodes),
{
    lemma_loading_exit_untagged(v.nodes);
}

/// Tearing the loading screen down leaves nothing it would remove, so tearing
/// it down a second time — defensively — changes nothing and cannot fail.
pub proof fn lemma_cleanup_idempotent(nodes: Seq<Node>)
    ensures
        loading_exit(loading_exit(nodes)) == loading_exit(nodes),
{
    lemma_loading_exit_untagged(nodes);
    lemma_exit_of_untagged(loading_exit(nodes));
}

/// A tree with no loading-tagged node is left exactly as it is by the exit
/// hook's removal.
pub proof fn lemma_exit_of_untagged(nodes: Seq<Node>)
    requires
        forall|i: int| 0 <= i < nodes.len() ==> !is_loading_tagged(nodes[i]),
    ensures
        loading_exit(nodes) == nodes,
    decreases nodes.len(),
{
    if nodes.len() > 0 {
        assert(forall|i: int|
            0 <= i < nodes.drop_last().len() ==> !is_loading_tagged(nodes.drop_last()[i]));
        lemma_exit_of_untagged(nodes.drop_last());
        assert(loading_exit(nodes) =~= nodes);
    }
}

/// After `n` frames of `d` milliseconds each, all spent loading, every
/// spinner has turned clockwise by exactly `2 * d * n` milliradians — that
/// is, by an angle of `-2` times the total elapsed time under the convention
/// that counter-clockwise is positive, whatever else those frames did. (The
/// frame that completes the timer also turns the spinner before its boundary;
/// that is `loading_update`'s own contract. The renderer reduces the angle
/// modulo a full turn when drawing.)
pub proof fn lemma_spinner_angle(v: AppView, d: u64, n: nat)
    requires
        v.wf(),
        v.state == ApplicationState::Loading,
        v.pending is None,
        v.elapsed + n * d < v.target,
    ensures
        run(v, repeated(d, n)).state == ApplicationState::Loading,
        forall|i: int|
            0 <= i < v.nodes.len() && #[trigger] v.nodes[i].kind == NodeKind::Spinner ==> run(
                v,
                repeated(d, n),
            ).nodes[i] == spin_node(v.nodes[i], 2 * (n * d)),
{
    lemma_sum_repeat(d, n);
    lemma_loading_run(v, repeated(d, n));
}

} // verus!
