//! The virtual mouse: what it asks of the kernel when it is set up, the events
//! that each mouse action writes, and the order of its teardown.

use vstd::prelude::*;
use vstd::string::StringSliceAdditionalSpecFns;
use crate::codec::{
    padded_name, InputAbsinfo, InputEvent, InputId, TimeVal, UInputSetup, UinputAbsSetup, ABS_X,
    ABS_Y, BTN_BACK, BTN_EXTRA, BTN_FORWARD, BTN_LEFT, BTN_MIDDLE, BTN_RIGHT, BTN_SIDE, BTN_TASK,
    BUS_USB, EV_ABS, EV_KEY, EV_REL, EV_SYN, INPUT_EVENT_SIZE, REL_HWHEEL, REL_WHEEL, REL_X, REL_Y,
    SYN_REPORT,
};
use crate::common::{MouseButton, MouseError, ScrollDirection};

verus! {

pub const UI_SET_EVBIT: u64 = 1074025828;
pub const UI_SET_KEYBIT: u64 = 1074025829;
pub const UI_SET_RELBIT: u64 = 1074025830;
pub const UI_SET_ABSBIT: u64 = 1074025831;
pub const UI_ABS_SETUP: u64 = 1075598596;
pub const UI_DEV_SETUP: u64 = 1079792899;
pub const UI_DEV_CREATE: u64 = 21761;
pub const UI_DEV_DESTROY: u64 = 21762;

/// Milliseconds to wait after creating the device, so that the rest of the
/// system notices the new node before events arrive.
pub const CREATE_SETTLE_MS: u64 = 300;

/// Milliseconds to wait after each synchronization event.
pub const SYNC_PAUSE_MS: u64 = 1;

pub const DEVICE_VENDOR: u16 = 0x2222;
pub const DEVICE_PRODUCT: u16 = 0x3333;

/// The kernel code of a button.
pub open spec fn button_code(b: MouseButton) -> u16 {
    match b {
        MouseButton::Left => BTN_LEFT,
        MouseButton::Right => BTN_RIGHT,
        MouseButton::Middle => BTN_MIDDLE,
        MouseButton::Side => BTN_SIDE,
        MouseButton::Extra => BTN_EXTRA,
        MouseButton::Forward => BTN_FORWARD,
        MouseButton::Back => BTN_BACK,
        MouseButton::Task => BTN_TASK,
    }
}

/// The wheel axis and the step of a scroll direction.
pub open spec fn scroll_axis(d: ScrollDirection) -> (u16, i32) {
    match d {
        ScrollDirection::Up => (REL_WHEEL, 1i32),
        ScrollDirection::Down => (REL_WHEEL, -1i32),
        ScrollDirection::Left => (REL_HWHEEL, -1i32),
        ScrollDirection::Right => (REL_HWHEEL, 1i32),
    }
}

/// Kernel code of a button.
pub fn map_btn(button: &MouseButton) -> (r: u16)
    ensures
        r == button_code(*button),
{
    match button {
        MouseButton::Left => BTN_LEFT,
        MouseButton::Right => BTN_RIGHT,
        MouseButton::Middle => BTN_MIDDLE,
        MouseButton::Side => BTN_SIDE,
        MouseButton::Extra => BTN_EXTRA,
        MouseButton::Forward => BTN_FORWARD,
        MouseButton::Back => BTN_BACK,
        MouseButton::Task => BTN_TASK,
    }
}

/// Half of a pixel delta, rounded toward positive infinity: the device's
/// relative unit is two pixels, and a small move must not be lost.
pub open spec fn ceil_half(delta: int) -> int {
    if delta % 2 == 0 {
        delta / 2
    } else {
        delta / 2 + 1
    }
}

/// `ceil_half` is the ceiling of half the delta: the least `u` with `2u >= delta`.
pub proof fn lemma_ceil_half(delta: int)
    ensures
        2 * ceil_half(delta) >= delta,
        2 * ceil_half(delta) < delta + 2,
{
}

/// Relative units for a delta in pixels.
pub fn half_up(delta: i32) -> (r: i32)
    ensures
        r == ceil_half(delta as int),
{
    if delta >= 0 {
        let d = delta as u32;
        (d / 2 + d % 2) as i32
    } else {
        let m = (-(delta as i64)) as u64;
        -((m / 2) as i64) as i32
    }
}

/// A request made on the uinput control file before any event is written.
pub enum DeviceRequest {
    SetEvBit(u16),
    SetKeyBit(u16),
    SetRelBit(u16),
    SetAbsBit(u16),
    AbsSetup(UinputAbsSetup),
    DevSetup(UInputSetup),
    DevCreate,
    DevDestroy,
}

pub open spec fn request_number(r: DeviceRequest) -> u64 {
    match r {
        DeviceRequest::SetEvBit(_) => UI_SET_EVBIT,
        DeviceRequest::SetKeyBit(_) => UI_SET_KEYBIT,
        DeviceRequest::SetRelBit(_) => UI_SET_RELBIT,
        DeviceRequest::SetAbsBit(_) => UI_SET_ABSBIT,
        DeviceRequest::AbsSetup(_) => UI_ABS_SETUP,
        DeviceRequest::DevSetup(_) => UI_DEV_SETUP,
        DeviceRequest::DevCreate => UI_DEV_CREATE,
        DeviceRequest::DevDestroy => UI_DEV_DESTROY,
    }
}

impl DeviceRequest {
    /// The ioctl request number.
    pub fn number(&self) -> (r: u64)
        ensures
            r == request_number(*self),
    {
        match self {
            DeviceRequest::SetEvBit(_) => UI_SET_EVBIT,
            DeviceRequest::SetKeyBit(_) => UI_SET_KEYBIT,
            DeviceRequest::SetRelBit(_) => UI_SET_RELBIT,
            DeviceRequest::SetAbsBit(_) => UI_SET_ABSBIT,
            DeviceRequest::AbsSetup(_) => UI_ABS_SETUP,
            DeviceRequest::DevSetup(_) => UI_DEV_SETUP,
            DeviceRequest::DevCreate => UI_DEV_CREATE,
            DeviceRequest::DevDestroy => UI_DEV_DESTROY,
        }
    }
}

/// One step of a mouse action: write an event, or wait some milliseconds.
#[derive(Debug, Clone, Copy, PartialEq, Eq, Structural)]
pub enum Step {
    Emit(InputEvent),
    Pause(u64),
}

pub open spec fn event(kind: u16, code: u16, value: i32) -> InputEvent {
    InputEvent { time: TimeVal { tv_sec: 0, tv_usec: 0 }, event_type: kind, code, value }
}

pub open spec fn emit(kind: u16, code: u16, value: i32) -> Step {
    Step::Emit(event(kind, code, value))
}

/// A synchronization report, then a short pause.
pub open spec fn sync_steps() -> Seq<Step> {
    seq![emit(EV_SYN, SYN_REPORT, 0), Step::Pause(SYNC_PAUSE_MS)]
}

pub open spec fn button_steps(b: MouseButton, pressed: bool) -> Seq<Step> {
    seq![emit(EV_KEY, button_code(b), if pressed { 1i32 } else { 0i32 })] + sync_steps()
}

pub open spec fn click_steps(b: MouseButton) -> Seq<Step> {
    button_steps(b, true) + button_steps(b, false)
}

pub open spec fn move_to_steps(x: i32, y: i32) -> Seq<Step> {
    seq![emit(EV_ABS, ABS_X, x), emit(EV_ABS, ABS_Y, y)] + sync_steps()
}

pub open spec fn move_relative_steps(ux: i32, uy: i32) -> Seq<Step> {
    seq![emit(EV_REL, REL_X, ux), emit(EV_REL, REL_Y, uy)] + sync_steps()
}

pub open spec fn scroll_steps(d: ScrollDirection) -> Seq<Step> {
    seq![emit(EV_REL, scroll_axis(d).0, scroll_axis(d).1)] + sync_steps()
}

/// The events among some steps, in order.
pub open spec fn emitted(steps: Seq<Step>) -> Seq<InputEvent>
    decreases steps.len(),
{
    if steps.len() == 0 {
        Seq::empty()
    } else {
        let rest = emitted(steps.drop_last());
        match steps.last() {
            Step::Emit(e) => rest.push(e),
            Step::Pause(_) => rest,
        }
    }
}

fn push_sync(steps: &mut Vec<Step>)
    ensures
        final(steps)@ == old(steps)@ + sync_steps(),
{
    steps.push(Step::Emit(InputEvent::new(EV_SYN, SYN_REPORT, 0)));
    steps.push(Step::Pause(SYNC_PAUSE_MS));
    assert(final(steps)@ =~= old(steps)@ + sync_steps());
}

fn push_button(steps: &mut Vec<Step>, button: &MouseButton, pressed: bool)
    ensures
        final(steps)@ == old(steps)@ + button_steps(*button, pressed),
{
    let value: i32 = if pressed {
        1
    } else {
        0
    };
    steps.push(Step::Emit(InputEvent::new(EV_KEY, map_btn(button), value)));
    push_sync(steps);
    assert(final(steps)@ =~= old(steps)@ + button_steps(*button, pressed));
}

/// The steps of pressing a button.
pub fn press_button(button: &MouseButton) -> (r: Vec<Step>)
    ensures
        r@ == button_steps(*button, true),
{
    let mut steps: Vec<Step> = Vec::new();
    push_button(&mut steps, button, true);
    assert(steps@ =~= button_steps(*button, true));
    steps
}

/// The steps of releasing a button.
pub fn release_button(button: &MouseButton) -> (r: Vec<Step>)
    ensures
        r@ == button_steps(*button, false),
{
    let mut steps: Vec<Step> = Vec::new();
    push_button(&mut steps, button, false);
    assert(steps@ =~= button_steps(*button, false));
    steps
}

/// The steps of a click: a press, then a release, each synchronized.
pub fn click_button(button: &MouseButton) -> (r: Vec<Step>)
    ensures
        r@ == click_steps(*button),
{
    let mut steps: Vec<Step> = Vec::new();
    push_button(&mut steps, button, true);
    push_button(&mut steps, button, false);
    assert(steps@ =~= click_steps(*button));
    steps
}

/// The steps of moving the pointer to an absolute position.
pub fn move_to(x: usize, y: usize) -> (r: Vec<Step>)
    requires
        x <= i32::MAX,
        y <= i32::MAX,
    ensures
        r@ == move_to_steps(x as i32, y as i32),
{
    let mut steps: Vec<Step> = Vec::new();
    steps.push(Step::Emit(InputEvent::new(EV_ABS, ABS_X, x as i32)));
    steps.push(Step::Emit(InputEvent::new(EV_ABS, ABS_Y, y as i32)));
    push_sync(&mut steps);
    assert(steps@ =~= move_to_steps(x as i32, y as i32));
    steps
}

/// The steps of moving the pointer by a delta in pixels.
pub fn move_relative(x_offset: i32, y_offset: i32) -> (r: Vec<Step>)
    ensures
        r@ == move_relative_steps(
            ceil_half(x_offset as int) as i32,
            ceil_half(y_offset as int) as i32,
        ),
{
    let ux = half_up(x_offset);
    let uy = half_up(y_offset);
    let mut steps: Vec<Step> = Vec::new();
    steps.push(Step::Emit(InputEvent::new(EV_REL, REL_X, ux)));
    steps.push(Step::Emit(InputEvent::new(EV_REL, REL_Y, uy)));
    push_sync(&mut steps);
    assert(steps@ =~= move_relative_steps(
        ceil_half(x_offset as int) as i32,
        ceil_half(y_offset as int) as i32,
    ));
    steps
}

/// The steps of one scroll notch.
pub fn scroll_wheel(direction: &ScrollDirection) -> (r: Vec<Step>)
    ensures
        r@ == scroll_steps(*direction),
{
    let (code, value): (u16, i32) = match direction {
        ScrollDirection::Up => (REL_WHEEL, 1),
        ScrollDirection::Down => (REL_WHEEL, -1),
        ScrollDirection::Left => (REL_HWHEEL, -1),
        ScrollDirection::Right => (REL_HWHEEL, 1),
    };
    let mut steps: Vec<Step> = Vec::new();
    steps.push(Step::Emit(InputEvent::new(EV_REL, code, value)));
    push_sync(&mut steps);
    assert(steps@ =~= scroll_steps(*direction));
    steps
}

/// The pointer's position cannot be read back from a virtual device.
pub fn get_position() -> (r: Result<(i32, i32), MouseError>)
    ensures
        r == Err::<(i32, i32), MouseError>(MouseError::Unsupported),
{
    Err(MouseError::Unsupported)
}

/// A click writes exactly four events: the button's code with value 1, a
/// synchronization report, the button's code with value 0, and another report.
pub proof fn lemma_click_emits(b: MouseButton)
    ensures
        emitted(click_steps(b)) == seq![
            event(EV_KEY, button_code(b), 1),
            event(EV_SYN, SYN_REPORT, 0),
            event(EV_KEY, button_code(b), 0),
            event(EV_SYN, SYN_REPORT, 0),
        ],
{
    let s = click_steps(b);
    reveal_with_fuel(emitted, 9);
    assert(s.drop_last() =~= s.subrange(0, 5));
    assert(s.subrange(0, 5).drop_last() =~= s.subrange(0, 4));
    assert(s.subrange(0, 4).drop_last() =~= s.subrange(0, 3));
    assert(s.subrange(0, 3).drop_last() =~= s.subrange(0, 2));
    assert(s.subrange(0, 2).drop_last() =~= s.subrange(0, 1));
    assert(s.subrange(0, 1).drop_last() =~= s.subrange(0, 0));
    assert(emitted(s) =~= seq![
        event(EV_KEY, button_code(b), 1),
        event(EV_SYN, SYN_REPORT, 0),
        event(EV_KEY, button_code(b), 0),
        event(EV_SYN, SYN_REPORT, 0),
    ]);
}

/// Name under which the virtual device appears.
pub const DEVICE_NAME: &'static str = "mouce-library-fake-mouse";

pub open spec fn abs_axis(code: u16, range: (i32, i32)) -> UinputAbsSetup {
    UinputAbsSetup {
        code,
        absinfo: InputAbsinfo {
            value: 0,
            minimum: range.0,
            maximum: range.1,
            fuzz: 0,
            flat: 0,
            resolution: 0,
        },
    }
}

/// The record that names and identifies the virtual device.
pub open spec fn is_device_setup(s: UInputSetup) -> bool {
    &&& s.wf()
    &&& s.id == (InputId { bustype: BUS_USB, vendor: DEVICE_VENDOR, product: DEVICE_PRODUCT, version: 0 })
    &&& s.name@ == padded_name(DEVICE_NAME.spec_bytes())
    &&& s.ff_effects_max == 0
}

/// The requests that set up and create the virtual device, in order: key
/// events for every button, the two absolute axes with the given ranges, the
/// relative axes and both wheels, then the device record and the creation.
pub open spec fn is_setup_plan(r: Seq<DeviceRequest>, rng_x: (i32, i32), rng_y: (i32, i32)) -> bool {
    &&& r.len() == 21
    &&& r[0] == DeviceRequest::SetEvBit(EV_KEY)
    &&& r[1] == DeviceRequest::SetKeyBit(BTN_LEFT)
    &&& r[2] == DeviceRequest::SetKeyBit(BTN_RIGHT)
    &&& r[3] == DeviceRequest::SetKeyBit(BTN_MIDDLE)
    &&& r[4] == DeviceRequest::SetKeyBit(BTN_SIDE)
    &&& r[5] == DeviceRequest::SetKeyBit(BTN_EXTRA)
    &&& r[6] == DeviceRequest::SetKeyBit(BTN_FORWARD)
    &&& r[7] == DeviceRequest::SetKeyBit(BTN_BACK)
    &&& r[8] == DeviceRequest::SetKeyBit(BTN_TASK)
    &&& r[9] == DeviceRequest::SetEvBit(EV_ABS)
    &&& r[10] == DeviceRequest::SetAbsBit(ABS_X)
    &&& r[11] == DeviceRequest::AbsSetup(abs_axis(ABS_X, rng_x))
    &&& r[12] == DeviceRequest::SetAbsBit(ABS_Y)
    &&& r[13] == DeviceRequest::AbsSetup(abs_axis(ABS_Y, rng_y))
    &&& r[14] == DeviceRequest::SetEvBit(EV_REL)
    &&& r[15] == DeviceRequest::SetRelBit(REL_X)
    &&& r[16] == DeviceRequest::SetRelBit(REL_Y)
    &&& r[17] == DeviceRequest::SetRelBit(REL_WHEEL)
    &&& r[18] == DeviceRequest::SetRelBit(REL_HWHEEL)
    &&& r[19] matches DeviceRequest::DevSetup(s) && is_device_setup(s)
    &&& r[20] == DeviceRequest::DevCreate
}

/// The record that names and identifies the virtual device.
pub fn device_setup() -> (r: UInputSetup)
    ensures
        is_device_setup(r),
{
    proof {
        reveal_strlit("mouce-library-fake-mouse");
    }
    assert(DEVICE_NAME@ == "mouce-library-fake-mouse"@);
    assert(DEVICE_NAME@.len() == 24);
    assert(vstd::string::is_ascii(DEVICE_NAME));
    proof {
        vstd::string::is_ascii_spec_bytes(DEVICE_NAME);
    }
    let name = DEVICE_NAME.as_bytes();
    UInputSetup::new(DEVICE_VENDOR, DEVICE_PRODUCT, name)
}

/// The requests that register the device's capabilities and create it.
pub fn setup_requests(rng_x: (i32, i32), rng_y: (i32, i32)) -> (r: Vec<DeviceRequest>)
    ensures
        is_setup_plan(r@, rng_x, rng_y),
{
    let mut r: Vec<DeviceRequest> = Vec::new();
    r.push(DeviceRequest::SetEvBit(EV_KEY));
    r.push(DeviceRequest::SetKeyBit(BTN_LEFT));
    r.push(DeviceRequest::SetKeyBit(BTN_RIGHT));
    r.push(DeviceRequest::SetKeyBit(BTN_MIDDLE));
    r.push(DeviceRequest::SetKeyBit(BTN_SIDE));
    r.push(DeviceRequest::SetKeyBit(BTN_EXTRA));
    r.push(DeviceRequest::SetKeyBit(BTN_FORWARD));
    r.push(DeviceRequest::SetKeyBit(BTN_BACK));
    r.push(DeviceRequest::SetKeyBit(BTN_TASK));
    r.push(DeviceRequest::SetEvBit(EV_ABS));
    r.push(DeviceRequest::SetAbsBit(ABS_X));
    r.push(DeviceRequest::AbsSetup(UinputAbsSetup::new(ABS_X, rng_x.0, rng_x.1)));
    r.push(DeviceRequest::SetAbsBit(ABS_Y));
    r.push(DeviceRequest::AbsSetup(UinputAbsSetup::new(ABS_Y, rng_y.0, rng_y.1)));
    r.push(DeviceRequest::SetEvBit(EV_REL));
    r.push(DeviceRequest::SetRelBit(REL_X));
    r.push(DeviceRequest::SetRelBit(REL_Y));
    r.push(DeviceRequest::SetRelBit(REL_WHEEL));
    r.push(DeviceRequest::SetRelBit(REL_HWHEEL));
    r.push(DeviceRequest::DevSetup(device_setup()));
    r.push(DeviceRequest::DevCreate);
    r
}

/// Whether a write of one event record went through: exactly the record's
/// size must have been written; anything else, an error return included, is
/// a failure.
pub fn check_write(written: i64) -> (r: Result<(), MouseError>)
    ensures
        r == (if written == INPUT_EVENT_SIZE as i64 {
            Ok::<(), MouseError>(())
        } else {
            Err(MouseError::ProtocolFailure)
        }),
{
    if written == INPUT_EVENT_SIZE as i64 {
        Ok(())
    } else {
        Err(MouseError::ProtocolFailure)
    }
}

#[derive(Debug, Clone, Copy, PartialEq, Eq, Structural)]
pub enum DeviceState {
    /// The control file is open; nothing is registered yet.
    Uninitialized,
    CapabilitiesRegistered,
    /// The device exists and accepts events.
    DeviceCreated,
    Destroyed,
}

/// What releasing a virtual device does, in order.
#[derive(Debug, Clone, Copy, PartialEq, Eq, Structural)]
pub enum Teardown {
    DestroyDevice,
    CloseControl,
}

pub open spec fn teardown_steps(state: DeviceState) -> Seq<Teardown> {
    if state == DeviceState::Destroyed {
        Seq::empty()
    } else {
        seq![Teardown::DestroyDevice, Teardown::CloseControl]
    }
}

/// The lifecycle state after a setup request went through. The device
/// record is handed over only after every capability request, so its
/// acceptance marks the capabilities as registered; the creation request then
/// brings the device into being.
pub open spec fn state_after_request(s: DeviceState, req: DeviceRequest) -> DeviceState {
    match req {
        DeviceRequest::DevSetup(_) => if s == DeviceState::Uninitialized {
            DeviceState::CapabilitiesRegistered
        } else {
            s
        },
        DeviceRequest::DevCreate => if s == DeviceState::CapabilitiesRegistered {
            DeviceState::DeviceCreated
        } else {
            s
        },
        _ => s,
    }
}

/// The lifecycle state after each of the requests went through, in order.
pub open spec fn state_after_requests(s: DeviceState, reqs: Seq<DeviceRequest>) -> DeviceState
    decreases reqs.len(),
{
    if reqs.len() == 0 {
        s
    } else {
        state_after_request(state_after_requests(s, reqs.drop_last()), reqs.last())
    }
}

/// A capability request leaves the state as it is.
proof fn lemma_request_keeps_state(r: Seq<DeviceRequest>, k: int)
    requires
        0 <= k < r.len(),
        state_after_requests(DeviceState::Uninitialized, r.subrange(0, k))
            == DeviceState::Uninitialized,
        !(r[k] is DevSetup),
        !(r[k] is DevCreate),
    ensures
        state_after_requests(DeviceState::Uninitialized, r.subrange(0, k + 1))
            == DeviceState::Uninitialized,
{
    assert(r.subrange(0, k + 1).drop_last() =~= r.subrange(0, k));
}

/// Once every request of the setup plan has gone through, the device exists.
pub proof fn lemma_setup_plan_creates(r: Seq<DeviceRequest>, rng_x: (i32, i32), rng_y: (i32, i32))
    requires
        is_setup_plan(r, rng_x, rng_y),
    ensures
        state_after_requests(DeviceState::Uninitialized, r) == DeviceState::DeviceCreated,
{
    assert(r.subrange(0, 0) =~= Seq::<DeviceRequest>::empty());
    lemma_request_keeps_state(r, 0);
    lemma_request_keeps_state(r, 1);
    lemma_request_keeps_state(r, 2);
    lemma_request_keeps_state(r, 3);
    lemma_request_keeps_state(r, 4);
    lemma_request_keeps_state(r, 5);
    lemma_request_keeps_state(r, 6);
    lemma_request_keeps_state(r, 7);
    lemma_request_keeps_state(r, 8);
    lemma_request_keeps_state(r, 9);
    lemma_request_keeps_state(r, 10);
    lemma_request_keeps_state(r, 11);
    lemma_request_keeps_state(r, 12);
    lemma_request_keeps_state(r, 13);
    lemma_request_keeps_state(r, 14);
    lemma_request_keeps_state(r, 15);
    lemma_request_keeps_state(r, 16);
    lemma_request_keeps_state(r, 17);
    lemma_request_keeps_state(r, 18);
    let u = DeviceState::Uninitialized;
    assert(r.subrange(0, 20).drop_last() =~= r.subrange(0, 19));
    assert(r.subrange(0, 20).last() == r[19]);
    assert(state_after_requests(u, r.subrange(0, 20)) == DeviceState::CapabilitiesRegistered);
    assert(r.subrange(0, 21).drop_last() =~= r.subrange(0, 20));
    assert(r.subrange(0, 21).last() == r[20]);
    assert(r.subrange(0, 21) =~= r);
}

pub struct MouseView {
    pub state: DeviceState,
    /// The steps of the action under way.
    pub steps: Seq<Step>,
    /// How many of them have been carried out.
    pub done: nat,
    /// Whether one of them failed.
    pub failed: bool,
}

/// The state after a step was carried out, or failed. A failure ends the
/// action: no later step is handed out, and nothing is undone.
pub open spec fn after_report(v: MouseView, ok: bool) -> MouseView {
    if ok {
        MouseView { done: v.done + 1, ..v }
    } else {
        MouseView { failed: true, ..v }
    }
}

/// The step to carry out next, if the action goes on.
pub open spec fn pending_step(v: MouseView) -> Option<Step> {
    if !v.failed && v.done < v.steps.len() {
        Some(v.steps[v.done as int])
    } else {
        None
    }
}

/// A virtual mouse device: its lifecycle, and the action under way.
pub struct VirtualMouse {
    state: DeviceState,
    steps: Vec<Step>,
    done: usize,
    failed: bool,
}

impl View for VirtualMouse {
    type V = MouseView;

    closed spec fn view(&self) -> MouseView {
        MouseView {
            state: self.state,
            steps: self.steps@,
            done: self.done as nat,
            failed: self.failed,
        }
    }
}

impl VirtualMouse {
    pub closed spec fn wf(&self) -> bool {
        self.done <= self.steps@.len()
    }

    /// A device whose control file has just been opened.
    pub fn new() -> (r: VirtualMouse)
        ensures
            r.wf(),
            r@ == (MouseView {
                state: DeviceState::Uninitialized,
                steps: Seq::empty(),
                done: 0,
                failed: false,
            }),
    {
        let r = VirtualMouse {
            state: DeviceState::Uninitialized,
            steps: Vec::new(),
            done: 0,
            failed: false,
        };
        assert(r@.steps =~= Seq::empty());
        r
    }

    pub fn state(&self) -> (r: DeviceState)
        ensures
            r == self@.state,
    {
        self.state
    }

    /// Records how a setup request went. A failed request is reported and
    /// leaves the state as it was; setup stops there.
    pub fn request_done(&mut self, req: &DeviceRequest, ok: bool) -> (r: Result<(), MouseError>)
        requires
            old(self).wf(),
        ensures
            final(self).wf(),
            r == (if ok {
                Ok::<(), MouseError>(())
            } else {
                Err(MouseError::ProtocolFailure)
            }),
            final(self)@ == (MouseView {
                state: if ok {
                    state_after_request(old(self)@.state, *req)
                } else {
                    old(self)@.state
                },
                ..old(self)@
            }),
    {
        if !ok {
            return Err(MouseError::ProtocolFailure);
        }
        match req {
            DeviceRequest::DevSetup(_) => {
                if self.state == DeviceState::Uninitialized {
                    self.state = DeviceState::CapabilitiesRegistered;
                }
            },
            DeviceRequest::DevCreate => {
                if self.state == DeviceState::CapabilitiesRegistered {
                    self.state = DeviceState::DeviceCreated;
                }
            },
            _ => {},
        }
        Ok(())
    }

    /// Starts an action on the created device.
    pub fn begin(&mut self, steps: Vec<Step>)
        requires
            old(self).wf(),
            old(self)@.state == DeviceState::DeviceCreated,
        ensures
            final(self).wf(),
            final(self)@ == (MouseView { state: old(self)@.state, steps: steps@, done: 0, failed: false }),
    {
        self.steps = steps;
        self.done = 0;
        self.failed = false;
    }

    /// The step to carry out next; `None` once the action is over.
    pub fn next_step(&self) -> (r: Option<Step>)
        requires
            self.wf(),
        ensures
            r == pending_step(self@),
    {
        if !self.failed && self.done < self.steps.len() {
            Some(self.steps[self.done])
        } else {
            None
        }
    }

    /// Records whether the pending step went through.
    pub fn report(&mut self, ok: bool)
        requires
            old(self).wf(),
            pending_step(old(self)@) is Some,
        ensures
            final(self).wf(),
            final(self)@ == after_report(old(self)@, ok),
    {
        if ok {
            if self.done < self.steps.len() {
                self.done = self.done + 1;
            }
        } else {
            self.failed = true;
        }
    }

    /// How the finished action went.
    pub fn outcome(&self) -> (r: Result<(), MouseError>)
        requires
            self.wf(),
            pending_step(self@) is None,
        ensures
            r == (if self@.failed {
                Err(MouseError::ProtocolFailure)
            } else {
                Ok::<(), MouseError>(())
            }),
            r is Ok ==> self@.done == self@.steps.len(),
    {
        if self.failed {
            Err(MouseError::ProtocolFailure)
        } else {
            Ok(())
        }
    }

    /// Releases the device: the destroy request always comes before the
    /// control file is closed, whatever became of earlier writes.
    pub fn teardown(&mut self) -> (r: Vec<Teardown>)
        requires
            old(self).wf(),
        ensures
            final(self).wf(),
            r@ == teardown_steps(old(self)@.state),
            final(self)@ == (MouseView { state: DeviceState::Destroyed, ..old(self)@ }),
    {
        let mut r: Vec<Teardown> = Vec::new();
        if self.state != DeviceState::Destroyed {
            r.push(Teardown::DestroyDevice);
            r.push(Teardown::CloseControl);
        }
        self.state = DeviceState::Destroyed;
        assert(r@ =~= teardown_steps(old(self)@.state));
        r
    }
}

/// A failed write leaves the device as it was: releasing it still destroys
/// the device first and closes the control file after.
pub proof fn lemma_teardown_after_failed_write(v: MouseView)
    requires
        v.state == DeviceState::DeviceCreated,
    ensures
        after_report(v, false).state == v.state,
        teardown_steps(after_report(v, false).state) == seq![
            Teardown::DestroyDevice,
            Teardown::CloseControl,
        ],
{
}

/// Once a step fails, no further step of the action is handed out.
pub proof fn lemma_no_step_after_failure(v: MouseView, ok: bool)
    ensures
        pending_step(after_report(after_report(v, false), ok)) is None,
        pending_step(after_report(v, false)) is None,
{
}

} // verus!
