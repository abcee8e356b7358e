//! The application: current state, the single-slot pending transition, the
//! countdown timer and the visual tree, together with the per-frame update
//! and the frame-boundary transition point.
//!
//! A host loop drives this from outside: once per frame it calls `frame` with
//! the elapsed time since the previous frame. Within a frame, the per-frame
//! update runs first (only while loading) and the pending transition, if any,
//! is applied afterwards, at the frame boundary — never mid-frame.

use vstd::prelude::*;
use crate::state::ApplicationState;
use crate::timer::{CountdownTimer, clamped_add, LOADING_DURATION_MILLIS};
use crate::ui::{
    World, Node, NodeKind, camera_node, game_label_node, loading_subtree, loading_exit, rotated,
    is_loading_tagged,
};

verus! {

/// The whole program state between two frames.
pub struct App {
    pub state: ApplicationState,
    /// The single-slot buffered transition request: overwritten by the latest
    /// request during a frame, read and cleared exactly once at the frame
    /// boundary.
    pub pending: Option<ApplicationState>,
    pub timer: CountdownTimer,
    pub world: World,
}

/// The program state as plain mathematical values.
pub ghost struct AppView {
    pub state: ApplicationState,
    pub pending: Option<ApplicationState>,
    pub elapsed: u64,
    pub target: u64,
    pub next_id: u64,
    pub nodes: Seq<Node>,
}

impl View for App {
    type V = AppView;

    open spec fn view(&self) -> AppView {
        AppView {
            state: self.state,
            pending: self.pending,
            elapsed: self.timer.elapsed,
            target: self.timer.target,
            next_id: self.world.next_id,
            nodes: self.world.nodes@,
        }
    }
}

/// The state as of the first frame: loading, timer at zero, and the camera
/// plus the freshly spawned loading screen alive.
pub open spec fn initial_view() -> AppView {
    AppView {
        state: ApplicationState::Loading,
        pending: None,
        elapsed: 0,
        target: LOADING_DURATION_MILLIS,
        next_id: 5,
        nodes: seq![camera_node(0)] + loading_subtree(1),
    }
}

/// One run of the per-frame loading update: every spinner turns clockwise by
/// twice the elapsed time, the timer accumulates it, and completion posts a
/// request to move to playing. A completed timer keeps requesting it, which
/// overwrites the identical earlier request harmlessly.
pub open spec fn loading_update(v: AppView, delta: u64) -> AppView {
    let elapsed = clamped_add(v.elapsed, delta as int);
    AppView {
        nodes: rotated(v.nodes, 2 * (delta as int)),
        elapsed,
        pending: if elapsed >= v.target {
            Some(ApplicationState::Playing)
        } else {
            v.pending
        },
        ..v
    }
}

/// The exit hooks of a state, run when leaving it. Leaving the loading state
/// tears the loading screen down; the playing state has no exit hook.
pub open spec fn exit_state(v: AppView) -> AppView {
    match v.state {
        ApplicationState::Loading => AppView { nodes: loading_exit(v.nodes), ..v },
        ApplicationState::Playing => v,
    }
}

/// The enter hooks of a state, run when entering it.
pub open spec fn enter_state(v: AppView, entered: ApplicationState) -> AppView {
    match entered {
        ApplicationState::Loading => AppView {
            nodes: v.nodes + loading_subtree(v.next_id),
            next_id: clamped_add(v.next_id, 4),
            ..v
        },
        ApplicationState::Playing => AppView {
            nodes: v.nodes.push(game_label_node(v.next_id)),
            next_id: clamped_add(v.next_id, 1),
            ..v
        },
    }
}

/// The frame boundary: the pending request, if any, is read and cleared. A
/// request for the current state is a no-op; otherwise the old state's exit
/// hooks run, then the new state's enter hooks, in that order.
pub open spec fn apply_transition(v: AppView) -> AppView {
    match v.pending {
        None => v,
        Some(requested) => {
            let cleared = AppView { pending: None, ..v };
            if requested == v.state {
                cleared
            } else {
                AppView { state: requested, ..enter_state(exit_state(cleared), requested) }
            }
        },
    }
}

/// One whole frame: the per-frame update (active only while loading), then
/// the boundary where a pending transition takes effect.
pub open spec fn frame_step(v: AppView, delta: u64) -> AppView {
    apply_transition(
        if v.state == ApplicationState::Loading {
            loading_update(v, delta)
        } else {
            v
        },
    )
}

/// The state after feeding a whole sequence of per-frame elapsed times.
pub open spec fn run(v: AppView, deltas: Seq<u64>) -> AppView
    decreases deltas.len(),
{
    if deltas.len() == 0 {
        v
    } else {
        run(frame_step(v, deltas.first()), deltas.drop_first())
    }
}

impl AppView {
    /// What holds of every reachable program state at a frame boundary: the
    /// timer counts toward the fixed loading duration; the only request ever
    /// buffered is the move to playing; the loading screen is alive exactly
    /// while loading (and never once playing); and there is room left in the
    /// id space for what may still be spawned.
    pub open spec fn wf(self) -> bool {
        &&& self.target == LOADING_DURATION_MILLIS
        &&& (self.pending is None || self.pending == Some(ApplicationState::Playing))
        &&& match self.state {
            ApplicationState::Loading => {
                &&& self.next_id <= u64::MAX - 5
                &&& has_loading_screen(self.nodes)
            },
            ApplicationState::Playing => {
                &&& self.next_id <= u64::MAX - 4
                &&& no_loading_nodes(self.nodes)
            },
        }
    }
}

/// All four pieces of the loading screen are alive.
pub open spec fn has_loading_screen(nodes: Seq<Node>) -> bool {
    &&& (exists|i: int| 0 <= i < nodes.len() && nodes[i].kind == NodeKind::LoadingRoot)
    &&& (exists|i: int| 0 <= i < nodes.len() && nodes[i].kind == NodeKind::LoadingText)
    &&& (exists|i: int| 0 <= i < nodes.len() && nodes[i].kind == NodeKind::SpinnerFrame)
    &&& (exists|i: int| 0 <= i < nodes.len() && nodes[i].kind == NodeKind::Spinner)
}

/// Not one loading-tagged node is alive.
pub open spec fn no_loading_nodes(nodes: Seq<Node>) -> bool {
    forall|i: int| 0 <= i < nodes.len() ==> !is_loading_tagged(nodes[i])
}

impl App {
    /// Builds the program as of the first frame: startup spawns the camera
    /// and the timer, and the loading state's enter hook spawns the loading
    /// screen.
    pub fn new() -> (app: App)
        ensures
            app@ == initial_view(),
            app@.wf(),
    {
        let mut world = World::new();
        world.setup();
        world.setup_loading_screen();
        let app = App {
            state: ApplicationState::Loading,
            pending: None,
            timer: CountdownTimer::new(LOADING_DURATION_MILLIS),
            world,
        };
        proof {
            assert(app@.nodes =~= initial_view().nodes);
            assert(app@ == initial_view());
            assert(has_loading_screen(app@.nodes)) by {
                assert(app@.nodes[1].kind == NodeKind::LoadingRoot);
                assert(app@.nodes[2].kind == NodeKind::LoadingText);
                assert(app@.nodes[3].kind == NodeKind::SpinnerFrame);
                assert(app@.nodes[4].kind == NodeKind::Spinner);
            }
        }
        app
    }

    /// The per-frame update, active only while loading: rotates every spinner
    /// clockwise by twice the elapsed time, advances the timer, and requests
    /// the move to playing once the timer completes. The request takes effect
    /// at the frame boundary, not immediately, so the rotation above happens
    /// even on the frame that completes the timer. A zero delta changes
    /// nothing.
    pub fn loading_system(&mut self, delta: u64)
        ensures
            final(self)@ == loading_update(old(self)@, delta),
    {
        self.world.rotate_spinners(delta);
        self.timer.advance(delta);
        if self.timer.is_complete() {
            self.pending = Some(ApplicationState::Playing);
        }
    }

    /// The frame boundary: applies the pending transition, if any. A request
    /// for the current state only clears the slot; otherwise the old state's
    /// exit hooks run before the new state's enter hooks.
    pub fn apply_pending_transition(&mut self)
        requires
            old(self).world.next_id <= u64::MAX - 4,
        ensures
            final(self)@ == apply_transition(old(self)@),
    {
        let requested = match self.pending {
            None => {
                return ;
            },
            Some(s) => s,
        };
        self.pending = None;
        if requested == self.state {
            return ;
        }
        match self.state {
            ApplicationState::Loading => self.world.cleanup_loading_screen(),
            ApplicationState::Playing => {},
        }
        match requested {
            ApplicationState::Loading => self.world.setup_loading_screen(),
            ApplicationState::Playing => self.world.setup_game(),
        }
        self.state = requested;
    }

    /// One whole frame, given the elapsed time since the previous one: the
    /// per-frame update while loading, then the boundary where a pending
    /// transition takes effect.
    pub fn frame(&mut self, delta: u64)
        requires
            old(self).world.next_id <= u64::MAX - 4,
        ensures
            final(self)@ == frame_step(old(self)@, delta),
            old(self)@.wf() ==> final(self)@.wf(),
    {
        if self.state == ApplicationState::Loading {
            self.loading_system(delta);
        }
        self.apply_pending_transition();
        proof {
            if old(self)@.wf() {
                lemma_frame_step_preserves_wf(old(self)@, delta);
            }
        }
    }
}

/// Every reachable state is well formed: one frame, from any well-formed
/// state, ends in a well-formed state. In particular the loading screen is
/// alive exactly while loading, and never once playing.
pub proof fn lemma_frame_step_preserves_wf(v: AppView, delta: u64)
    requires
        v.wf(),
    ensures
        frame_step(v, delta).wf(),
{
    match v.state {
        ApplicationState::Loading => {
            let u = loading_update(v, delta);
            assert(has_loading_screen(u.nodes)) by {
                lemma_rotated_keeps_kinds(v.nodes, 2 * (delta as int));
                let r = choose|i: int|
                    0 <= i < v.nodes.len() && v.nodes[i].kind == NodeKind::LoadingRoot;
                assert(u.nodes[r].kind == NodeKind::LoadingRoot);
                let t = choose|i: int|
                    0 <= i < v.nodes.len() && v.nodes[i].kind == NodeKind::LoadingText;
                assert(u.nodes[t].kind == NodeKind::LoadingText);
                let f = choose|i: int|
                    0 <= i < v.nodes.len() && v.nodes[i].kind == NodeKind::SpinnerFrame;
                assert(u.nodes[f].kind == NodeKind::SpinnerFrame);
                let s = choose|i: int|
                    0 <= i < v.nodes.len() && v.nodes[i].kind == NodeKind::Spinner;
                assert(u.nodes[s].kind == NodeKind::Spinner);
            }
            match u.pending {
                None => {},
                Some(requested) => {
                    if requested != v.state {
                        let exited = exit_state(AppView { pending: None, ..u });
                        crate::ui::lemma_loading_exit_untagged(u.nodes);
                        let entered = enter_state(exited, requested);
                        assert(no_loading_nodes(entered.nodes)) by {
                            assert(forall|i: int|
                                0 <= i < exited.nodes.len() ==> entered.nodes[i]
                                    == exited.nodes[i]);
                        }
                    }
                },
            }
        },
        ApplicationState::Playing => {},
    }
}

/// Rotation changes no node's kind and neither adds nor removes nodes.
pub proof fn lemma_rotated_keeps_kinds(nodes: Seq<Node>, amount: int)
    ensures
        rotated(nodes, amount).len() == nodes.len(),
        forall|i: int|
            0 <= i < nodes.len() ==> #[trigger] rotated(nodes, amount)[i].kind == nodes[i].kind,
{
}

} // verus!
