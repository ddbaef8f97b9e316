use bad_stl::viewer::SpinRotation;
use bad_stl::viewer::ViewerAction;
use bad_stl::viewer::ViewerLoop;
use bad_stl::viewer::ViewerPhase;

#[test]
fn setup_hands_out_the_correction_once() {
    let mut viewer = ViewerLoop::new();
    assert_eq!(viewer.phase, ViewerPhase::Initializing);
    let first = viewer.setup();
    assert_eq!(first, SpinRotation::UpAxisCorrection);
    assert_eq!(viewer.phase, ViewerPhase::Spinning);
}

#[test]
fn ticks_compose_one_spin_each_and_never_the_correction() {
    let mut viewer = ViewerLoop::new();
    let mut composed = vec![viewer.setup()];
    for _ in 0..100 {
        match viewer.frame(true) {
            ViewerAction::Prepend(r) => composed.push(r),
            ViewerAction::Stop => panic!("the window is still open"),
        }
    }
    assert_eq!(composed.len(), 101);
    assert_eq!(composed[0], SpinRotation::UpAxisCorrection);
    for r in &composed[1..] {
        assert_eq!(*r, SpinRotation::SpinTick);
    }
}

#[test]
fn closing_the_window_stops_the_loop() {
    let mut viewer = ViewerLoop::new();
    viewer.setup();
    assert_eq!(viewer.frame(true), ViewerAction::Prepend(SpinRotation::SpinTick));
    assert_eq!(viewer.frame(false), ViewerAction::Stop);
    assert_eq!(viewer.phase, ViewerPhase::Spinning);
}
