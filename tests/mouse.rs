use std::cell::{Cell, RefCell};
use std::rc::Rc;

use mouce::codec::{
    InputEvent, UInputSetup, UinputAbsSetup, ABS_X, ABS_Y, BTN_LEFT, BTN_RIGHT, EV_ABS, EV_KEY,
    EV_REL, EV_SYN, REL_HWHEEL, REL_WHEEL, REL_X, REL_Y,
};
use mouce::common::{MouseButton, MouseError, MouseEvent, ScrollDirection};
use mouce::device::{
    check_write, click_button, device_setup, get_position, half_up, map_btn, move_relative,
    move_to, press_button, release_button, scroll_wheel, setup_requests, DeviceRequest,
    DeviceState, Step, Teardown, VirtualMouse, SYNC_PAUSE_MS, UI_DEV_CREATE, UI_SET_EVBIT,
};
use mouce::discovery::unique_paths;
use mouce::listener::{button_from_code, classify};
use mouce::registry::CallbackRegistry;
use mouce::session::session_is_x11;
use mouce::{Backend, NixMouseManager};

fn emits(steps: &[Step]) -> Vec<(u16, u16, i32)> {
    steps
        .iter()
        .filter_map(|s| match s {
            Step::Emit(e) => Some((e.event_type, e.code, e.value)),
            Step::Pause(_) => None,
        })
        .collect()
}

#[test]
fn uinput_move() {
    let steps = move_to(1920 / 2, 1080 / 2);
    assert_eq!(emits(&steps), vec![(EV_ABS, ABS_X, 960), (EV_ABS, ABS_Y, 540), (EV_SYN, 0, 0)]);
}

#[test]
fn click_emits_press_then_release_each_synchronized() {
    for b in [MouseButton::Left, MouseButton::Right, MouseButton::Task] {
        let steps = click_button(&b);
        let code = map_btn(&b);
        assert_eq!(
            emits(&steps),
            vec![(EV_KEY, code, 1), (EV_SYN, 0, 0), (EV_KEY, code, 0), (EV_SYN, 0, 0)]
        );
        assert_eq!(steps.len(), 6);
        assert_eq!(steps[2], Step::Pause(SYNC_PAUSE_MS));
        assert_eq!(steps[5], Step::Pause(SYNC_PAUSE_MS));
    }
}

#[test]
fn press_and_release_values() {
    assert_eq!(emits(&press_button(&MouseButton::Middle))[0], (EV_KEY, 0x112, 1));
    assert_eq!(emits(&release_button(&MouseButton::Middle))[0], (EV_KEY, 0x112, 0));
}

#[test]
fn relative_units_round_up() {
    let deltas = [-3, -2, -1, 0, 1, 2, 3];
    let expected = [-1, -1, 0, 0, 1, 1, 2];
    for (d, e) in deltas.iter().zip(expected.iter()) {
        assert_eq!(half_up(*d), *e);
    }
    assert_eq!(half_up(i32::MAX), 1 << 30);
    assert_eq!(half_up(i32::MIN), -(1 << 30));
}

#[test]
fn move_relative_halves_both_axes() {
    let steps = move_relative(-3, 7);
    assert_eq!(emits(&steps), vec![(EV_REL, REL_X, -1), (EV_REL, REL_Y, 4), (EV_SYN, 0, 0)]);
}

#[test]
fn scroll_directions() {
    assert_eq!(emits(&scroll_wheel(&ScrollDirection::Up))[0], (EV_REL, REL_WHEEL, 1));
    assert_eq!(emits(&scroll_wheel(&ScrollDirection::Down))[0], (EV_REL, REL_WHEEL, -1));
    assert_eq!(emits(&scroll_wheel(&ScrollDirection::Left))[0], (EV_REL, REL_HWHEEL, -1));
    assert_eq!(emits(&scroll_wheel(&ScrollDirection::Right))[0], (EV_REL, REL_HWHEEL, 1));
}

#[test]
fn get_position_is_unsupported() {
    assert_eq!(get_position(), Err(MouseError::Unsupported));
}

#[test]
fn event_bytes_layout() {
    let e = InputEvent::new(EV_KEY, BTN_LEFT, 1);
    let mut expected = vec![0u8; 16];
    expected.extend_from_slice(&[1, 0, 0x10, 0x01, 1, 0, 0, 0]);
    assert_eq!(e.to_bytes(), expected);
    let neg = InputEvent::new(EV_REL, REL_X, -2).to_bytes();
    assert_eq!(&neg[16..], &[2, 0, 0, 0, 0xfe, 0xff, 0xff, 0xff]);
}

#[test]
fn event_bytes_round_trip() {
    let mut e = InputEvent::new(EV_REL, REL_HWHEEL, -123456);
    e.time.tv_sec = 0x0102_0304_0506_0708;
    e.time.tv_usec = 999_999;
    let back = InputEvent::from_bytes(&e.to_bytes()).unwrap();
    assert_eq!(back, e);
}

#[test]
fn short_read_is_dropped() {
    assert_eq!(InputEvent::from_bytes(&[0u8; 23]), None);
    assert_eq!(InputEvent::from_bytes(&[]), None);
    assert_eq!(InputEvent::from_bytes(&[0u8; 25]), None);
}

#[test]
fn setup_record_layout() {
    let s = device_setup();
    let bytes = s.to_bytes();
    assert_eq!(bytes.len(), 92);
    assert_eq!(&bytes[0..8], &[3, 0, 0x22, 0x22, 0x33, 0x33, 0, 0]);
    assert_eq!(&bytes[8..32], b"mouce-library-fake-mouse");
    assert!(bytes[32..].iter().all(|b| *b == 0));
    let full = UInputSetup::new(1, 2, &[b'a'; 80]);
    assert_eq!(full.name, vec![b'a'; 80]);
}

#[test]
fn abs_setup_layout() {
    let a = UinputAbsSetup::new(ABS_Y, -5, 1080);
    let bytes = a.to_bytes();
    assert_eq!(bytes.len(), 28);
    assert_eq!(&bytes[0..4], &[1, 0, 0, 0]);
    assert_eq!(&bytes[4..8], &[0, 0, 0, 0]);
    assert_eq!(&bytes[8..12], &[0xfb, 0xff, 0xff, 0xff]);
    assert_eq!(&bytes[12..16], &[0x38, 0x04, 0, 0]);
}

#[test]
fn setup_requests_order() {
    let r = setup_requests((0, 1920), (0, 1080));
    assert_eq!(r.len(), 21);
    assert_eq!(r[0].number(), UI_SET_EVBIT);
    assert!(matches!(r[0], DeviceRequest::SetEvBit(EV_KEY)));
    assert!(matches!(r[2], DeviceRequest::SetKeyBit(BTN_RIGHT)));
    match &r[11] {
        DeviceRequest::AbsSetup(a) => {
            assert_eq!(a.code, ABS_X);
            assert_eq!((a.absinfo.minimum, a.absinfo.maximum), (0, 1920));
        }
        _ => panic!("axis setup expected"),
    }
    match &r[13] {
        DeviceRequest::AbsSetup(a) => assert_eq!((a.code, a.absinfo.maximum), (ABS_Y, 1080)),
        _ => panic!("axis setup expected"),
    }
    assert!(matches!(r[19], DeviceRequest::DevSetup(_)));
    assert_eq!(r[20].number(), UI_DEV_CREATE);
}

#[test]
fn write_must_be_one_whole_record() {
    assert_eq!(check_write(24), Ok(()));
    assert_eq!(check_write(23), Err(MouseError::ProtocolFailure));
    assert_eq!(check_write(-1), Err(MouseError::ProtocolFailure));
    assert_eq!(check_write(48), Err(MouseError::ProtocolFailure));
}

fn created_device() -> VirtualMouse {
    let mut m = VirtualMouse::new();
    for req in setup_requests((0, 1920), (0, 1080)) {
        assert_eq!(m.request_done(&req, true), Ok(()));
    }
    assert_eq!(m.state(), DeviceState::DeviceCreated);
    m
}

#[test]
fn setup_state_follows_requests() {
    let reqs = setup_requests((0, 100), (0, 100));
    let mut m = VirtualMouse::new();
    for req in &reqs[..19] {
        m.request_done(req, true).unwrap();
        assert_eq!(m.state(), DeviceState::Uninitialized);
    }
    m.request_done(&reqs[19], true).unwrap();
    assert_eq!(m.state(), DeviceState::CapabilitiesRegistered);
    assert_eq!(m.request_done(&reqs[20], false), Err(MouseError::ProtocolFailure));
    assert_eq!(m.state(), DeviceState::CapabilitiesRegistered);
    m.request_done(&reqs[20], true).unwrap();
    assert_eq!(m.state(), DeviceState::DeviceCreated);
}

#[test]
fn action_runs_every_step_in_order() {
    let mut m = created_device();
    m.begin(click_button(&MouseButton::Left));
    let mut seen = vec![];
    while let Some(step) = m.next_step() {
        seen.push(step);
        m.report(true);
    }
    assert_eq!(seen, click_button(&MouseButton::Left));
    assert_eq!(m.outcome(), Ok(()));
}

#[test]
fn failed_release_stops_and_keeps_button_pressed() {
    let mut m = created_device();
    m.begin(click_button(&MouseButton::Left));
    for _ in 0..3 {
        assert!(m.next_step().is_some());
        m.report(true);
    }
    assert!(m.next_step().is_some());
    m.report(false);
    assert_eq!(m.next_step(), None);
    assert_eq!(m.outcome(), Err(MouseError::ProtocolFailure));
}

#[test]
fn teardown_destroys_before_close_after_failed_write() {
    let mut m = created_device();
    m.begin(move_relative(4, 4));
    m.report(false);
    assert_eq!(m.outcome(), Err(MouseError::ProtocolFailure));
    assert_eq!(m.state(), DeviceState::DeviceCreated);
    assert_eq!(m.teardown(), vec![Teardown::DestroyDevice, Teardown::CloseControl]);
    assert_eq!(m.state(), DeviceState::Destroyed);
    assert_eq!(m.teardown(), vec![]);
}

#[test]
fn teardown_of_device_never_created() {
    let mut m = VirtualMouse::new();
    assert_eq!(m.teardown(), vec![Teardown::DestroyDevice, Teardown::CloseControl]);
}

#[test]
fn discovery_reads_each_device_once() {
    let found = vec![
        "/dev/input/event5".to_string(),
        "/dev/input/event3".to_string(),
        "/dev/input/event5".to_string(),
    ];
    let set = unique_paths(found);
    assert_eq!(set.paths(), &vec!["/dev/input/event5".to_string(), "/dev/input/event3".to_string()]);
    assert!(unique_paths(vec![]).paths().is_empty());
}

type Sink = Rc<RefCell<Vec<MouseEvent>>>;

fn recorder(sink: &Sink) -> Box<dyn Fn(&MouseEvent)> {
    let sink = sink.clone();
    Box::new(move |e: &MouseEvent| sink.borrow_mut().push(*e))
}

fn deliver(reg: &CallbackRegistry<Box<dyn Fn(&MouseEvent)>>, e: InputEvent) {
    if let Some(m) = classify(&e) {
        reg.dispatch(&m);
    }
}

#[test]
fn relative_x_reaches_callback_once() {
    let sink: Sink = Rc::new(RefCell::new(vec![]));
    let mut reg = CallbackRegistry::new();
    reg.hook(recorder(&sink), || Ok(())).unwrap();
    deliver(&reg, InputEvent::new(EV_REL, REL_X, 5));
    assert_eq!(*sink.borrow(), vec![MouseEvent::RelativeMove(5, 0)]);
}

#[test]
fn right_button_press_and_release() {
    let sink: Sink = Rc::new(RefCell::new(vec![]));
    let mut reg = CallbackRegistry::new();
    reg.hook(recorder(&sink), || Ok(())).unwrap();
    deliver(&reg, InputEvent::new(EV_KEY, BTN_RIGHT, 1));
    assert_eq!(*sink.borrow(), vec![MouseEvent::Press(MouseButton::Right)]);
    deliver(&reg, InputEvent::new(EV_KEY, BTN_RIGHT, 0));
    assert_eq!(
        *sink.borrow(),
        vec![MouseEvent::Press(MouseButton::Right), MouseEvent::Release(MouseButton::Right)]
    );
}

#[test]
fn wheel_events_become_scrolls() {
    let sink: Sink = Rc::new(RefCell::new(vec![]));
    let mut reg = CallbackRegistry::new();
    reg.hook(recorder(&sink), || Ok(())).unwrap();
    deliver(&reg, InputEvent::new(EV_REL, REL_WHEEL, -2));
    assert_eq!(*sink.borrow(), vec![MouseEvent::Scroll(ScrollDirection::Down)]);
    deliver(&reg, InputEvent::new(EV_REL, REL_HWHEEL, 3));
    assert_eq!(
        *sink.borrow(),
        vec![MouseEvent::Scroll(ScrollDirection::Down), MouseEvent::Scroll(ScrollDirection::Right)]
    );
}

#[test]
fn unknown_events_are_discarded() {
    assert_eq!(classify(&InputEvent::new(EV_KEY, 0x1e, 1)), None);
    assert_eq!(classify(&InputEvent::new(EV_REL, 0x07, 1)), None);
    assert_eq!(classify(&InputEvent::new(EV_SYN, 0, 0)), None);
    assert_eq!(classify(&InputEvent::new(EV_ABS, ABS_X, 10)), None);
    assert_eq!(classify(&InputEvent::new(EV_REL, REL_Y, -7)), Some(MouseEvent::RelativeMove(0, -7)));
    assert_eq!(
        classify(&InputEvent::new(EV_KEY, BTN_LEFT, 2)),
        Some(MouseEvent::Release(MouseButton::Left))
    );
    assert_eq!(button_from_code(0x116), Some(MouseButton::Back));
}

#[test]
fn second_hook_does_not_start_listener_again() {
    let starts = Cell::new(0);
    let mut reg: CallbackRegistry<Box<dyn Fn(&MouseEvent)>> = CallbackRegistry::new();
    let start = || {
        starts.set(starts.get() + 1);
        Ok(())
    };
    assert_eq!(reg.hook(Box::new(|_: &MouseEvent| {}), start), Ok(0));
    assert_eq!(reg.hook(Box::new(|_: &MouseEvent| {}), start), Ok(1));
    assert_eq!(starts.get(), 1);
    assert!(reg.is_listening());
}

#[test]
fn failed_listener_start_hooks_nothing() {
    let mut reg: CallbackRegistry<Box<dyn Fn(&MouseEvent)>> = CallbackRegistry::new();
    let r = reg.hook(Box::new(|_: &MouseEvent| {}), || Err(MouseError::DiscoveryFailure));
    assert_eq!(r, Err(MouseError::DiscoveryFailure));
    assert!(!reg.is_listening());
    assert_eq!(reg.unhook(0), Err(MouseError::NotFound));
    assert_eq!(reg.hook(Box::new(|_: &MouseEvent| {}), || Ok(())), Ok(0));
}

#[test]
fn unhook_unknown_and_known_ids() {
    let sink: Sink = Rc::new(RefCell::new(vec![]));
    let mut reg = CallbackRegistry::new();
    assert_eq!(reg.unhook(7), Err(MouseError::NotFound));
    let id = reg.hook(recorder(&sink), || Ok(())).unwrap();
    assert_eq!(reg.unhook(id), Ok(()));
    assert_eq!(reg.unhook(id), Err(MouseError::NotFound));
    deliver(&reg, InputEvent::new(EV_REL, REL_X, 5));
    assert!(sink.borrow().is_empty());
}

#[test]
fn unhooked_callback_misses_events_others_still_get_them() {
    let gone: Sink = Rc::new(RefCell::new(vec![]));
    let kept: Sink = Rc::new(RefCell::new(vec![]));
    let mut reg = CallbackRegistry::new();
    let a = reg.hook(recorder(&gone), || Ok(())).unwrap();
    reg.hook(recorder(&kept), || Ok(())).unwrap();
    assert_eq!(reg.unhook(a), Ok(()));
    deliver(&reg, InputEvent::new(EV_KEY, BTN_LEFT, 1));
    assert!(gone.borrow().is_empty());
    assert_eq!(*kept.borrow(), vec![MouseEvent::Press(MouseButton::Left)]);
}

#[test]
fn unhook_all_clears_and_keeps_counting() {
    let sink: Sink = Rc::new(RefCell::new(vec![]));
    let mut reg = CallbackRegistry::new();
    let a = reg.hook(recorder(&sink), || Ok(())).unwrap();
    let b = reg.hook(recorder(&sink), || Ok(())).unwrap();
    deliver(&reg, InputEvent::new(EV_REL, REL_WHEEL, 1));
    assert_eq!(sink.borrow().len(), 2);
    assert_eq!(reg.unhook_all(), Ok(()));
    assert_eq!(reg.unhook(a), Err(MouseError::NotFound));
    assert_eq!(reg.unhook(b), Err(MouseError::NotFound));
    deliver(&reg, InputEvent::new(EV_REL, REL_WHEEL, 1));
    assert_eq!(sink.borrow().len(), 2);
    assert_eq!(reg.hook(recorder(&sink), || Ok(())), Ok(2));
}

#[test]
fn x11_session_detection() {
    assert!(session_is_x11(Some(" X11\n"), None));
    assert!(session_is_x11(Some("wayland\n"), Some("x11")));
    assert!(!session_is_x11(Some("wayland"), Some("tty")));
    assert!(!session_is_x11(None, None));
    assert!(!session_is_x11(Some("x11-ish"), None));
    assert!(session_is_x11(Some("\u{a0}\u{3000}X11\u{2028}"), None));
    assert!(!session_is_x11(Some("x 11"), None));
}

#[test]
fn backend_choice() {
    assert_eq!(NixMouseManager::new((0, 10), (0, 20), true), Backend::X11);
    assert_eq!(
        NixMouseManager::new((0, 10), (0, 20), false),
        Backend::UInput { rng_x: (0, 10), rng_y: (0, 20) }
    );
    assert_eq!(NixMouseManager::new_x11(), Backend::X11);
    assert_eq!(
        NixMouseManager::new_uinput((1, 2), (3, 4)),
        Backend::UInput { rng_x: (1, 2), rng_y: (3, 4) }
    );
}
