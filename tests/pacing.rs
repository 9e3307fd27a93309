use phi::driver::{DriverState, FrameDriver, Step, INTERVAL_MS};
use phi::scene::ViewAction;

#[test]
fn interval_is_sixteen_milliseconds() {
    assert_eq!(INTERVAL_MS, 16);
}

#[test]
fn waits_until_interval_then_draws_one_frame() {
    let mut d = FrameDriver::new(1000);
    assert_eq!(d.tick(1010), Step::Wait(6));
    assert_eq!(d.tick(1015), Step::Wait(1));
    assert_eq!(d.before, 1000);
    assert_eq!(d.tick(1016), Step::Frame(16));
    assert_eq!(d.before, 1016);
    assert_eq!(d.tick(1016), Step::Wait(16));
    assert_eq!(d.tick(1040), Step::Frame(24));
}

#[test]
fn tick_counter_wraps() {
    let mut d = FrameDriver::new(u32::MAX - 5);
    assert_eq!(d.tick(3), Step::Wait(7));
    assert_eq!(d.tick(10), Step::Frame(16));
}

#[test]
fn quit_stops_the_driver() {
    let mut d = FrameDriver::new(0);
    assert_eq!(d.tick(20), Step::Frame(20));
    assert!(d.finish(ViewAction::Continue));
    assert_eq!(d.state, DriverState::Running);
    assert_eq!(d.tick(40), Step::Frame(20));
    assert!(!d.finish(ViewAction::Quit));
    assert_eq!(d.state, DriverState::Stopped);
    assert_eq!(d.tick(100), Step::Stop);
}
