use loading_screen::machine::App;
use loading_screen::state::ApplicationState;
use loading_screen::timer::{CountdownTimer, LOADING_DURATION_MILLIS};
use loading_screen::ui::NodeKind;

fn spinner_spin(app: &App) -> u64 {
    let mut spin: u64 = 0;
    let mut found = false;
    for node in app.world.nodes.iter() {
        if node.kind == NodeKind::Spinner {
            assert!(!found, "expected a single spinner");
            spin = node.spin_mrad;
            found = true;
        }
    }
    assert!(found, "expected a spinner to be alive");
    spin
}

#[test]
fn starts_loading_with_screen_up() {
    let app = App::new();
    assert_eq!(app.state, ApplicationState::Loading);
    assert_eq!(app.pending, None);
    assert_eq!(app.timer.elapsed, 0);
    assert_eq!(app.timer.target, LOADING_DURATION_MILLIS);
    assert!(app.world.has_node_kind(NodeKind::Camera));
    assert!(app.world.has_node_kind(NodeKind::LoadingRoot));
    assert!(app.world.has_node_kind(NodeKind::LoadingText));
    assert!(app.world.has_node_kind(NodeKind::SpinnerFrame));
    assert!(app.world.has_node_kind(NodeKind::Spinner));
    assert!(!app.world.has_node_kind(NodeKind::GameLabel));
}

#[test]
fn three_full_seconds_reach_playing() {
    // Feed three frames of one second each: the third completes the timer and
    // posts the transition request, which takes effect at that frame's
    // boundary.
    let mut app = App::new();
    app.loading_system(1000);
    app.apply_pending_transition();
    assert_eq!(app.state, ApplicationState::Loading);
    app.loading_system(1000);
    app.apply_pending_transition();
    assert_eq!(app.state, ApplicationState::Loading);
    app.loading_system(1000);
    assert!(app.timer.is_complete());
    assert_eq!(app.pending, Some(ApplicationState::Playing));
    // Still loading until the boundary.
    assert_eq!(app.state, ApplicationState::Loading);
    app.apply_pending_transition();
    assert_eq!(app.state, ApplicationState::Playing);
    assert!(app.world.has_node_kind(NodeKind::GameLabel));
    assert!(!app.world.has_node_kind(NodeKind::LoadingRoot));
    assert!(!app.world.has_node_kind(NodeKind::LoadingText));
    assert!(!app.world.has_node_kind(NodeKind::SpinnerFrame));
    assert!(!app.world.has_node_kind(NodeKind::Spinner));
}

#[test]
fn just_under_three_seconds_stays_loading() {
    // 1.0 + 1.0 + 0.9 seconds: still short of the three-second target, so the
    // program stays loading and the spinner has turned clockwise by
    // 2 * 2900 milliradians (an angle of -2 * 2.9 radians).
    let mut app = App::new();
    app.frame(1000);
    app.frame(1000);
    app.frame(900);
    assert_eq!(app.state, ApplicationState::Loading);
    assert_eq!(app.pending, None);
    assert_eq!(app.timer.elapsed, 2900);
    assert!(!app.timer.is_complete());
    assert_eq!(spinner_spin(&app), 5800);
    assert!(!app.world.has_node_kind(NodeKind::GameLabel));
}

#[test]
fn spinner_turns_twice_the_elapsed_time() {
    let mut app = App::new();
    app.frame(700);
    assert_eq!(spinner_spin(&app), 1400);
    app.frame(700);
    assert_eq!(spinner_spin(&app), 2800);
    app.frame(700);
    assert_eq!(spinner_spin(&app), 4200);
}

#[test]
fn completing_frame_still_rotates_the_spinner() {
    // The rotation happens before the boundary even on the frame that
    // completes the timer: peek between the update and the boundary.
    let mut app = App::new();
    app.loading_system(3000);
    assert_eq!(spinner_spin(&app), 6000);
    assert_eq!(app.pending, Some(ApplicationState::Playing));
    app.apply_pending_transition();
    assert_eq!(app.state, ApplicationState::Playing);
}

#[test]
fn zero_delta_changes_nothing() {
    let mut app = App::new();
    app.frame(0);
    assert_eq!(app.state, ApplicationState::Loading);
    assert_eq!(app.timer.elapsed, 0);
    assert_eq!(app.pending, None);
    assert_eq!(spinner_spin(&app), 0);
}

#[test]
fn playing_never_reverts() {
    let mut app = App::new();
    app.frame(4000);
    assert_eq!(app.state, ApplicationState::Playing);
    let nodes_before = app.world.nodes.len();
    for _ in 0..10 {
        app.frame(1000);
        assert_eq!(app.state, ApplicationState::Playing);
    }
    assert_eq!(app.world.nodes.len(), nodes_before);
    assert_eq!(app.world.nodes.iter().filter(|n| n.kind == NodeKind::GameLabel).count(), 1);
}

#[test]
fn timer_accumulates_and_completes_monotonically() {
    let mut t = CountdownTimer::new(3000);
    assert!(!t.is_complete());
    t.advance(2999);
    assert_eq!(t.elapsed, 2999);
    assert!(!t.is_complete());
    t.advance(1);
    assert_eq!(t.elapsed, 3000);
    assert!(t.is_complete());
    t.advance(500);
    assert_eq!(t.elapsed, 3500);
    assert!(t.is_complete());
}

#[test]
fn timer_saturates_instead_of_wrapping() {
    let mut t = CountdownTimer::new(3000);
    t.advance(u64::MAX);
    t.advance(u64::MAX);
    assert_eq!(t.elapsed, u64::MAX);
    assert!(t.is_complete());
}

#[test]
fn request_for_the_current_state_is_a_no_op() {
    // A buffered request for the state already active only clears the slot:
    // no exit hook runs, so the loading screen stays up.
    let mut app = App::new();
    app.pending = Some(ApplicationState::Loading);
    app.apply_pending_transition();
    assert_eq!(app.state, ApplicationState::Loading);
    assert_eq!(app.pending, None);
    assert!(app.world.has_node_kind(NodeKind::LoadingRoot));
    assert!(app.world.has_node_kind(NodeKind::Spinner));
    assert_eq!(app.world.nodes.len(), 5);
}

#[test]
fn default_state_is_loading() {
    assert_eq!(ApplicationState::default(), ApplicationState::Loading);
}
