use linux_3_finger_drag::config::Configuration;
use linux_3_finger_drag::drag::Action;
use linux_3_finger_drag::driver::Driver;
use linux_3_finger_drag::events::{
    button_event, horizontal_event, report_event, vertical_event, RawEvent,
};
use linux_3_finger_drag::gesture::{GestureAction, GestureRecord};
use linux_3_finger_drag::parser::{LineParser, ParseError, SetupError};
use linux_3_finger_drag::uinput_handler::{device_profile, start_handler, Batch, Command};

const PRESS: [RawEvent; 2] = [
    RawEvent { kind: 1, code: 0x110, value: 1 },
    RawEvent { kind: 0, code: 0, value: 0 },
];

const RELEASE: [RawEvent; 2] = [
    RawEvent { kind: 1, code: 0x110, value: 0 },
    RawEvent { kind: 0, code: 0, value: 0 },
];

fn moved(dx: i32, dy: i32) -> Vec<RawEvent> {
    vec![
        RawEvent { kind: 2, code: 0, value: dx },
        RawEvent { kind: 2, code: 1, value: dy },
        RawEvent { kind: 0, code: 0, value: 0 },
    ]
}

fn shape(batches: &[Batch]) -> Vec<(u64, Vec<RawEvent>)> {
    batches.iter().map(|b| (b.delay_ms, b.events.clone())).collect()
}

fn driver(acceleration: i32, drag_end_delay: u64) -> Driver {
    Driver::new(Configuration { acceleration, drag_end_delay }).expect("the delimiters compile")
}

#[test]
fn raw_events_have_the_kernel_codes() {
    assert_eq!(button_event(true), RawEvent { kind: 1, code: 0x110, value: 1 });
    assert_eq!(button_event(false), RawEvent { kind: 1, code: 0x110, value: 0 });
    assert_eq!(horizontal_event(-7), RawEvent { kind: 2, code: 0, value: -7 });
    assert_eq!(vertical_event(9), RawEvent { kind: 2, code: 1, value: 9 });
    assert_eq!(report_event(), RawEvent { kind: 0, code: 0, value: 0 });
}

#[test]
fn profile_of_the_device() {
    let profile = device_profile();
    assert_eq!(profile.bus, 3);
    assert_eq!(profile.vendor, 0x1234);
    assert_eq!(profile.product, 0x5678);
    assert_eq!(profile.version, 0);
    assert_eq!(profile.name, "Shadow trackpad");
    assert_eq!(profile.button, 0x110);
    assert_eq!(profile.horizontal_axis, 0);
    assert_eq!(profile.vertical_axis, 1);
    assert_eq!(profile.settle_ms, 1000);
}

#[test]
fn press_is_button_down_then_report() {
    let mut trackpad = start_handler();
    assert!(!trackpad.mouse_is_down());
    let batch = trackpad.mouse_down();
    assert_eq!(batch.delay_ms, 0);
    assert_eq!(batch.events, PRESS);
    assert!(trackpad.mouse_is_down());
}

#[test]
fn release_is_button_up_then_report() {
    let mut trackpad = start_handler();
    trackpad.mouse_down();
    let batch = trackpad.mouse_up();
    assert_eq!(batch.delay_ms, 0);
    assert_eq!(batch.events, RELEASE);
    assert!(!trackpad.mouse_is_down());
}

#[test]
fn release_when_up_is_the_same_batch() {
    let mut trackpad = start_handler();
    let batch = trackpad.mouse_up();
    assert_eq!(batch.delay_ms, 0);
    assert_eq!(batch.events, RELEASE);
    assert!(!trackpad.mouse_is_down());
}

#[test]
fn delayed_release_carries_its_delay() {
    let mut trackpad = start_handler();
    trackpad.mouse_down();
    let batch = trackpad.mouse_up_delay(300);
    assert_eq!(batch.delay_ms, 300);
    assert_eq!(batch.events, RELEASE);
    assert!(!trackpad.mouse_is_down());
}

#[test]
fn move_rounds_each_axis_up() {
    let trackpad = start_handler();
    let batch = trackpad.mouse_move_relative(100_000, -100_000);
    assert_eq!(batch.delay_ms, 0);
    assert_eq!(batch.events, moved(1, 0));
    assert_eq!(trackpad.mouse_move_relative(1_500_000, -1_500_000).events, moved(2, -1));
    assert_eq!(trackpad.mouse_move_relative(-2_000_000, 3_000_000).events, moved(-2, 3));
    assert_eq!(trackpad.mouse_move_relative(0, 1).events, moved(0, 1));
    assert_eq!(trackpad.mouse_move_relative(i64::MAX, i64::MIN).events, moved(i32::MAX, i32::MIN));
}

#[test]
fn move_leaves_the_button_alone() {
    let mut trackpad = start_handler();
    trackpad.mouse_move_relative(5_000_000, 0);
    assert!(!trackpad.mouse_is_down());
    trackpad.mouse_down();
    trackpad.mouse_move_relative(5_000_000, 0);
    assert!(trackpad.mouse_is_down());
}

#[test]
fn actions_are_carried_out() {
    let mut trackpad = start_handler();
    let batch = trackpad.perform(Action::Press);
    assert_eq!((batch.delay_ms, batch.events), (0, PRESS.to_vec()));
    assert!(trackpad.mouse_is_down());
    let batch = trackpad.perform(Action::Move { dx: 1_200_000, dy: -300_000 });
    assert_eq!((batch.delay_ms, batch.events), (0, moved(2, 0)));
    assert!(trackpad.mouse_is_down());
    let batch = trackpad.perform(Action::Release { delay_ms: 250 });
    assert_eq!((batch.delay_ms, batch.events), (250, RELEASE.to_vec()));
    assert!(!trackpad.mouse_is_down());
}

#[test]
fn destroying_is_the_last_command() {
    let trackpad = start_handler();
    assert!(matches!(trackpad.dev_destroy(), Command::Destroy));
}

#[test]
fn swipe_of_three_half_steps() {
    let mut driver = driver(1000, 0);
    let update = "event10  GESTURE_SWIPE_UPDATE +3.7s\t3  0.50/ 0.00 ( 0.95/ 0.00 unaccelerated)";
    let mut batches = Vec::new();
    batches.extend(driver.handle_line("event10  GESTURE_SWIPE_BEGIN +3.5s 3").unwrap());
    assert_eq!(shape(&batches), vec![(0, PRESS.to_vec())]);
    assert!(driver.button_down());
    assert!(driver.mouse_is_down());
    batches.extend(driver.handle_line(update).unwrap());
    batches.extend(driver.handle_line(update).unwrap());
    assert_eq!(batches.len(), 1);
    batches.extend(driver.handle_line(update).unwrap());
    assert_eq!(shape(&batches), vec![(0, PRESS.to_vec()), (0, moved(2, 0))]);
    batches.extend(driver.handle_line("event10  GESTURE_SWIPE_END +4.0s 3").unwrap());
    assert_eq!(
        shape(&batches),
        vec![
            (0, PRESS.to_vec()),
            (0, moved(2, 0)),
            (0, moved(0, 0)),
            (0, RELEASE.to_vec()),
        ]
    );
    assert!(!driver.button_down());
    assert!(!driver.mouse_is_down());
}

#[test]
fn hold_end_after_hold_begin() {
    let mut driver = driver(1000, 0);
    let mut batches = Vec::new();
    batches.extend(driver.handle_line("event10  GESTURE_HOLD_BEGIN +1.0s 3").unwrap());
    batches.extend(driver.handle_line("event10  GESTURE_HOLD_END +1.3s 3").unwrap());
    assert_eq!(shape(&batches), vec![(0, RELEASE.to_vec())]);
}

#[test]
fn swipe_with_a_delay_at_its_end() {
    let mut driver = driver(2000, 300);
    let mut batches = Vec::new();
    batches.extend(driver.handle_line("event10  GESTURE_SWIPE_BEGIN +3.5s 3").unwrap());
    batches.extend(
        driver
            .handle_line("event10  GESTURE_SWIPE_UPDATE +3.7s 3  0.30/-0.30 ( 0.95/ 0.00 unaccelerated)")
            .unwrap(),
    );
    batches.extend(driver.handle_line("event10  GESTURE_SWIPE_END +4.0s 3").unwrap());
    assert_eq!(
        shape(&batches),
        vec![(0, PRESS.to_vec()), (0, moved(1, 0)), (300, RELEASE.to_vec())]
    );
}

#[test]
fn cancelled_swipe_ignores_the_delay() {
    let mut driver = driver(1000, 300);
    let mut batches = Vec::new();
    batches.extend(driver.handle_line("event10  GESTURE_SWIPE_BEGIN +3.5s 3").unwrap());
    batches.extend(driver.handle_line("event10  GESTURE_SWIPE_END +4.0s 3 cancelled").unwrap());
    assert_eq!(
        shape(&batches),
        vec![(0, PRESS.to_vec()), (0, moved(0, 0)), (0, RELEASE.to_vec())]
    );
}

#[test]
fn four_finger_swipe_presses() {
    let mut driver = driver(1000, 0);
    let batches = driver
        .handle_line("event10  GESTURE_SWIPE_UPDATE +3.7s 4  5.00/ 5.00 ( 9.00/ 9.00 unaccelerated)")
        .unwrap();
    assert_eq!(shape(&batches), vec![(0, PRESS.to_vec())]);
    assert!(driver.button_down());
    assert!(driver.mouse_is_down());
}

#[test]
fn line_without_marker_releases() {
    let mut driver = driver(1000, 300);
    driver.handle_line("event10  GESTURE_SWIPE_BEGIN +3.5s 3").unwrap();
    let batches = driver.handle_line("event5   POINTER_MOTION  +3.6s  1.00/ 0.00").unwrap();
    assert_eq!(shape(&batches), vec![(0, RELEASE.to_vec())]);
    assert!(!driver.button_down());
    assert!(!driver.mouse_is_down());
}

#[test]
fn pinch_with_three_fingers_releases() {
    let mut driver = driver(1000, 300);
    driver.handle_line("event10  GESTURE_SWIPE_BEGIN +3.5s 3").unwrap();
    let batches = driver.handle_line("event10  GESTURE_PINCH_BEGIN +3.6s 3").unwrap();
    assert_eq!(shape(&batches), vec![(0, RELEASE.to_vec())]);
    assert!(!driver.mouse_is_down());
}

#[test]
fn unreadable_gesture_line_changes_nothing() {
    let mut driver = driver(1000, 0);
    driver.handle_line("event10  GESTURE_SWIPE_BEGIN +3.5s 3").unwrap();
    let result = driver
        .handle_line("event10  GESTURE_SWIPE_UPDATE +3.7s 3  x/ y ( 0.95/ 1.85 unaccelerated)");
    assert_eq!(result.err(), Some(ParseError::BadDisplacement));
    assert!(driver.button_down());
    assert!(driver.mouse_is_down());
    let result = driver.handle_line("GESTURE_SWIPE_END");
    assert_eq!(result.err(), Some(ParseError::TooFewTokens));
    assert!(driver.button_down());
}

#[test]
fn new_driver_is_idle() {
    let parser = LineParser::new().expect("the delimiters compile");
    let driver = Driver::with_parser(parser, Configuration { acceleration: 1000, drag_end_delay: 0 });
    assert!(!driver.button_down());
    assert!(!driver.mouse_is_down());
}

#[test]
fn driver_of_a_parser_that_was_set_up() {
    let config = Configuration { acceleration: 1000, drag_end_delay: 0 };
    let driver = Driver::from_setup(LineParser::new(), config);
    let driver = driver.ok().expect("the delimiters compile");
    assert!(!driver.button_down());
    assert!(!driver.mouse_is_down());
}

#[test]
fn no_driver_without_a_parser() {
    let config = Configuration { acceleration: 1000, drag_end_delay: 0 };
    let driver = Driver::from_setup(Err(SetupError::Pattern), config);
    assert_eq!(driver.err(), Some(SetupError::Pattern));
}

#[test]
fn records_can_be_fed_directly() {
    let mut driver = driver(1000, 0);
    assert_eq!(shape(&driver.handle_record(None)), vec![]);
    let begin = GestureRecord { action: GestureAction::SwipeBegin, finger_count: 3 };
    assert_eq!(shape(&driver.handle_record(Some(begin))), vec![(0, PRESS.to_vec())]);
    assert_eq!(shape(&driver.handle_record(None)), vec![(0, RELEASE.to_vec())]);
    assert_eq!(shape(&driver.handle_record(None)), vec![]);
    assert!(!driver.button_down());
    assert!(!driver.mouse_is_down());
}

#[test]
fn line_without_marker_writes_nothing_while_the_button_is_up() {
    let mut driver = driver(1000, 300);
    let batches = driver.handle_line("event5   POINTER_MOTION  +3.6s  1.00/ 0.00").unwrap();
    assert_eq!(shape(&batches), vec![]);
    assert!(!driver.button_down());
    assert!(!driver.mouse_is_down());
}

#[test]
fn pinch_with_three_fingers_writes_nothing_while_the_button_is_up() {
    let mut driver = driver(1000, 300);
    let line = "event10  GESTURE_PINCH_UPDATE +5.0s 3  0.10/ 0.20 ( 0.30/ 0.40 unaccelerated)  1.02 @  0.50";
    let batches = driver.handle_line(line).unwrap();
    assert_eq!(shape(&batches), vec![]);
    assert!(!driver.button_down());
    assert!(!driver.mouse_is_down());
}

#[test]
fn shutdown_releases_once_and_destroys_once() {
    let commands = driver(1000, 300).finish();
    assert_eq!(commands.len(), 2);
    match &commands[0] {
        Command::Emit(batch) => {
            assert_eq!(batch.delay_ms, 0);
            assert_eq!(batch.events, RELEASE);
        }
        Command::Destroy => panic!("the release comes first"),
    }
    assert!(matches!(commands[1], Command::Destroy));
}

#[test]
fn shutdown_in_the_middle_of_a_drag() {
    let mut driver = driver(1000, 300);
    driver.handle_line("event10  GESTURE_SWIPE_BEGIN +3.5s 3").unwrap();
    driver
        .handle_line("event10  GESTURE_SWIPE_UPDATE +3.7s 3  0.30/-0.30 ( 0.95/ 0.00 unaccelerated)")
        .unwrap();
    assert!(driver.mouse_is_down());
    let commands = driver.finish();
    let releases = commands
        .iter()
        .filter(|c| matches!(c, Command::Emit(batch) if batch.events == RELEASE && batch.delay_ms == 0))
        .count();
    let destroys = commands.iter().filter(|c| matches!(c, Command::Destroy)).count();
    assert_eq!((commands.len(), releases, destroys), (2, 1, 1));
    assert!(matches!(commands[1], Command::Destroy));
}
