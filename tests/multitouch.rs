use std::cell::RefCell;

use rustpad_touch::geometry::{flip, scale, Geometry, DISPLAYHEIGHT, DISPLAYWIDTH, MTHEIGHT, MTWIDTH};
use rustpad_touch::multitouch::{
    MultitouchEvent, MultitouchHandler, RawEvent, Reaction, ABS_MT_ORIENTATION, ABS_MT_POSITION_X,
    ABS_MT_POSITION_Y, ABS_MT_PRESSURE, ABS_MT_SLOT, ABS_MT_TOUCH_MAJOR, ABS_MT_TOUCH_MINOR,
    ABS_MT_TRACKING_ID, EV_ABS, EV_SYN,
};

fn abs(code: u16, value: i32) -> RawEvent {
    RawEvent { event_type: EV_ABS, code, value }
}

fn touch(gesture_seq: u16, finger_id: u16, x: u16, y: u16) -> MultitouchEvent {
    MultitouchEvent::Touch { gesture_seq, finger_id, y, x }
}

#[test]
fn get_instance_starts_zeroed() {
    let h = MultitouchHandler::get_instance(false, |_e: MultitouchEvent| {});
    assert_eq!(h.name, "MT");
    assert_eq!(h.last_touch_id, 0);
    assert_eq!(h.last_touch_size, 0);
    assert!(!h.currently_touching);
    assert_eq!(h.last_x, 0);
    assert_eq!(h.last_y, 0);
    assert_eq!(h.last_finger_id, 0);
}

#[test]
fn default_event_is_unknown() {
    assert_eq!(MultitouchEvent::default(), MultitouchEvent::Unknown);
}

#[test]
fn on_init_records_name() {
    let mut h = MultitouchHandler::get_instance(false, |_e: MultitouchEvent| {});
    h.on_init("touchscreen".to_string());
    assert_eq!(h.name, "touchscreen");
}

#[test]
fn no_vertical_sample_never_calls_back() {
    let log = RefCell::new(Vec::new());
    let mut h = MultitouchHandler::get_instance(true, |e: MultitouchEvent| log.borrow_mut().push(e));
    let events = [
        abs(ABS_MT_TRACKING_ID, 5),
        abs(ABS_MT_SLOT, 1),
        abs(ABS_MT_POSITION_X, 300),
        abs(ABS_MT_TOUCH_MINOR, 9),
        abs(ABS_MT_TOUCH_MAJOR, 3),
        abs(ABS_MT_ORIENTATION, 3),
        abs(ABS_MT_PRESSURE, 3),
        RawEvent { event_type: EV_SYN, code: 0, value: 0 },
        abs(ABS_MT_TRACKING_ID, -1),
        abs(12, 4),
        RawEvent { event_type: 1, code: 330, value: 1 },
    ];
    for ev in events {
        assert!(!matches!(h.on_event(ev), Reaction::Emitted(_)));
    }
    assert!(log.borrow().is_empty());
}

#[test]
fn finger_then_position_emits_scaled_touch() {
    let log = RefCell::new(Vec::new());
    let mut h = MultitouchHandler::get_instance(false, |e: MultitouchEvent| log.borrow_mut().push(e));
    h.on_event(abs(ABS_MT_TRACKING_ID, 42));
    assert_eq!(h.on_event(abs(ABS_MT_SLOT, 2)), Reaction::Quiet);
    assert_eq!(h.on_event(abs(ABS_MT_POSITION_X, 100)), Reaction::Quiet);
    let expected = touch(42, 2, 1220, 1506);
    assert_eq!(h.on_event(abs(ABS_MT_POSITION_Y, 200)), Reaction::Emitted(expected));
    assert_eq!(*log.borrow(), vec![expected]);
    assert_eq!(h.last_x, 667);
    assert_eq!(h.last_y, 823);
}

#[test]
fn scenario_half_scale_mirrored() {
    let log = RefCell::new(Vec::new());
    let g = Geometry::new(2048, 1536, 1024, 768).unwrap();
    let mut h = MultitouchHandler::with_geometry(false, |e: MultitouchEvent| log.borrow_mut().push(e), g);
    h.on_event(abs(ABS_MT_POSITION_X, 1000));
    assert_eq!(h.last_x, 1048);
    let r = h.on_event(abs(ABS_MT_POSITION_Y, 500));
    assert_eq!(h.last_y, 1036);
    assert_eq!(r, Reaction::Emitted(touch(0, 0, 524, 518)));
    assert_eq!(*log.borrow(), vec![touch(0, 0, 524, 518)]);
}

#[test]
fn tracking_id_release_and_assign() {
    let log = RefCell::new(Vec::new());
    let mut h = MultitouchHandler::get_instance(false, |e: MultitouchEvent| log.borrow_mut().push(e));
    assert_eq!(h.on_event(abs(ABS_MT_TRACKING_ID, 7)), Reaction::Quiet);
    assert!(h.currently_touching);
    assert_eq!(h.last_touch_id, 7);
    assert_eq!(h.on_event(abs(ABS_MT_TRACKING_ID, -1)), Reaction::Quiet);
    assert!(!h.currently_touching);
    assert_eq!(h.last_touch_id, 7);
    assert_eq!(h.on_event(abs(ABS_MT_TRACKING_ID, 0)), Reaction::Quiet);
    assert!(h.currently_touching);
    assert_eq!(h.last_touch_id, 0);
    assert!(log.borrow().is_empty());
}

#[test]
fn release_keeps_coordinates() {
    let mut h = MultitouchHandler::get_instance(false, |_e: MultitouchEvent| {});
    h.on_event(abs(ABS_MT_SLOT, 3));
    h.on_event(abs(ABS_MT_POSITION_X, 300));
    h.on_event(abs(ABS_MT_TRACKING_ID, -1));
    assert_eq!(h.last_finger_id, 3);
    assert_eq!(h.last_x, 467);
}

#[test]
fn two_verticals_reuse_horizontal() {
    let log = RefCell::new(Vec::new());
    let mut h = MultitouchHandler::get_instance(false, |e: MultitouchEvent| log.borrow_mut().push(e));
    h.on_event(abs(ABS_MT_POSITION_X, 300));
    h.on_event(abs(ABS_MT_POSITION_Y, 10));
    h.on_event(abs(ABS_MT_POSITION_Y, 20));
    assert_eq!(*log.borrow(), vec![touch(0, 0, 854, 1853), touch(0, 0, 854, 1835)]);
}

#[test]
fn vertical_without_horizontal_uses_stored_x() {
    let log = RefCell::new(Vec::new());
    let mut h = MultitouchHandler::get_instance(false, |e: MultitouchEvent| log.borrow_mut().push(e));
    h.on_event(abs(ABS_MT_POSITION_Y, 1023));
    assert_eq!(*log.borrow(), vec![touch(0, 0, 0, 0)]);
}

#[test]
fn unknown_code_reported_only_when_verbose() {
    let log = RefCell::new(Vec::new());
    let ev = abs(12, 4);
    let mut quiet = MultitouchHandler::get_instance(false, |e: MultitouchEvent| log.borrow_mut().push(e));
    assert_eq!(quiet.on_event(ev), Reaction::Quiet);
    let mut loud = MultitouchHandler::get_instance(true, |e: MultitouchEvent| log.borrow_mut().push(e));
    assert_eq!(loud.on_event(ev), Reaction::UnknownCode(ev));
    assert!(log.borrow().is_empty());
    assert_eq!(loud.last_x, 0);
    assert_eq!(loud.last_finger_id, 0);
}

#[test]
fn unknown_type_reported_only_when_verbose() {
    let log = RefCell::new(Vec::new());
    let ev = RawEvent { event_type: 1, code: 330, value: 1 };
    let mut quiet = MultitouchHandler::get_instance(false, |e: MultitouchEvent| log.borrow_mut().push(e));
    assert_eq!(quiet.on_event(ev), Reaction::Quiet);
    let mut loud = MultitouchHandler::get_instance(true, |e: MultitouchEvent| log.borrow_mut().push(e));
    assert_eq!(loud.on_event(ev), Reaction::UnknownType(ev));
    assert!(log.borrow().is_empty());
}

#[test]
fn ignored_codes_are_silent_even_when_verbose() {
    let mut h = MultitouchHandler::get_instance(true, |_e: MultitouchEvent| {});
    for code in [ABS_MT_TOUCH_MAJOR, ABS_MT_ORIENTATION, ABS_MT_PRESSURE] {
        assert_eq!(h.on_event(abs(code, 9)), Reaction::Quiet);
    }
    assert_eq!(h.on_event(RawEvent { event_type: EV_SYN, code: 0, value: 0 }), Reaction::Quiet);
}

#[test]
fn same_event_twice_emits_twice() {
    let log = RefCell::new(Vec::new());
    let mut h = MultitouchHandler::get_instance(false, |e: MultitouchEvent| log.borrow_mut().push(e));
    h.on_event(abs(ABS_MT_POSITION_X, 100));
    let first = h.on_event(abs(ABS_MT_POSITION_Y, 200));
    let second = h.on_event(abs(ABS_MT_POSITION_Y, 200));
    assert_eq!(first, second);
    assert_eq!(*log.borrow(), vec![touch(0, 0, 1220, 1506), touch(0, 0, 1220, 1506)]);
}

#[test]
fn touch_size_is_truncated_to_a_byte() {
    let mut h = MultitouchHandler::get_instance(false, |_e: MultitouchEvent| {});
    h.on_event(abs(ABS_MT_TOUCH_MINOR, 300));
    assert_eq!(h.last_touch_size, 44);
}

#[test]
fn out_of_range_samples_are_clamped() {
    assert_eq!(flip(767, -5), 767);
    assert_eq!(flip(767, 0), 767);
    assert_eq!(flip(767, 767), 0);
    assert_eq!(flip(767, 5000), 0);
    assert_eq!(flip(767, 100), 667);
}

#[test]
fn scale_rounds_down() {
    assert_eq!(scale(667, 1404, 767), 1220);
    assert_eq!(scale(767, 1404, 767), 1404);
    assert_eq!(scale(0, 1404, 767), 0);
    assert_eq!(scale(1, 2, 3), 0);
}

#[test]
fn geometry_constructors() {
    assert!(Geometry::new(0, 10, 10, 10).is_none());
    assert!(Geometry::new(10, 0, 10, 10).is_none());
    let g = Geometry::remarkable();
    assert_eq!(g, Geometry::new(MTWIDTH, MTHEIGHT, DISPLAYWIDTH, DISPLAYHEIGHT).unwrap());
}
