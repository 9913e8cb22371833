//! Turning raw events read from an event device into mouse events.

use vstd::prelude::*;
use crate::codec::{
    InputEvent, BTN_BACK, BTN_EXTRA, BTN_FORWARD, BTN_LEFT, BTN_MIDDLE, BTN_RIGHT, BTN_SIDE,
    BTN_TASK, EV_KEY, EV_REL, REL_HWHEEL, REL_WHEEL, REL_X, REL_Y,
};
use crate::common::{MouseButton, MouseEvent, ScrollDirection};
use crate::device::button_code;

verus! {

/// The button with the given kernel code, if any.
pub open spec fn button_of(code: u16) -> Option<MouseButton> {
    if code == BTN_LEFT {
        Some(MouseButton::Left)
    } else if code == BTN_RIGHT {
        Some(MouseButton::Right)
    } else if code == BTN_MIDDLE {
        Some(MouseButton::Middle)
    } else if code == BTN_SIDE {
        Some(MouseButton::Side)
    } else if code == BTN_EXTRA {
        Some(MouseButton::Extra)
    } else if code == BTN_FORWARD {
        Some(MouseButton::Forward)
    } else if code == BTN_BACK {
        Some(MouseButton::Back)
    } else if code == BTN_TASK {
        Some(MouseButton::Task)
    } else {
        None
    }
}

/// The mouse event that a raw event stands for. Key events of a known button
/// are a press when their value is 1 and a release otherwise; relative events
/// are wheel notches or pointer motion; everything else stands for nothing.
pub open spec fn mouse_event_of(e: InputEvent) -> Option<MouseEvent> {
    if e.event_type == EV_KEY {
        match button_of(e.code) {
            Some(b) => Some(
                if e.value == 1 {
                    MouseEvent::Press(b)
                } else {
                    MouseEvent::Release(b)
                },
            ),
            None => None,
        }
    } else if e.event_type == EV_REL {
        if e.code == REL_WHEEL {
            Some(
                MouseEvent::Scroll(
                    if e.value > 0 {
                        ScrollDirection::Up
                    } else {
                        ScrollDirection::Down
                    },
                ),
            )
        } else if e.code == REL_HWHEEL {
            Some(
                MouseEvent::Scroll(
                    if e.value > 0 {
                        ScrollDirection::Right
                    } else {
                        ScrollDirection::Left
                    },
                ),
            )
        } else if e.code == REL_X {
            Some(MouseEvent::RelativeMove(e.value, 0))
        } else if e.code == REL_Y {
            Some(MouseEvent::RelativeMove(0, e.value))
        } else {
            None
        }
    } else {
        None
    }
}

/// The button with the given kernel code, if any.
pub fn button_from_code(code: u16) -> (r: Option<MouseButton>)
    ensures
        r == button_of(code),
{
    if code == BTN_LEFT {
        Some(MouseButton::Left)
    } else if code == BTN_RIGHT {
        Some(MouseButton::Right)
    } else if code == BTN_MIDDLE {
        Some(MouseButton::Middle)
    } else if code == BTN_SIDE {
        Some(MouseButton::Side)
    } else if code == BTN_EXTRA {
        Some(MouseButton::Extra)
    } else if code == BTN_FORWARD {
        Some(MouseButton::Forward)
    } else if code == BTN_BACK {
        Some(MouseButton::Back)
    } else if code == BTN_TASK {
        Some(MouseButton::Task)
    } else {
        None
    }
}

/// The mouse event that a raw event stands for, if any.
pub fn classify(e: &InputEvent) -> (r: Option<MouseEvent>)
    ensures
        r == mouse_event_of(*e),
{
    if e.event_type == EV_KEY {
        match button_from_code(e.code) {
            Some(b) => Some(
                if e.value == 1 {
                    MouseEvent::Press(b)
                } else {
                    MouseEvent::Release(b)
                },
            ),
            None => None,
        }
    } else if e.event_type == EV_REL {
        if e.code == REL_WHEEL {
            Some(
                MouseEvent::Scroll(
                    if e.value > 0 {
                        ScrollDirection::Up
                    } else {
                        ScrollDirection::Down
                    },
                ),
            )
        } else if e.code == REL_HWHEEL {
            Some(
                MouseEvent::Scroll(
                    if e.value > 0 {
                        ScrollDirection::Right
                    } else {
                        ScrollDirection::Left
                    },
                ),
            )
        } else if e.code == REL_X {
            Some(MouseEvent::RelativeMove(e.value, 0))
        } else if e.code == REL_Y {
            Some(MouseEvent::RelativeMove(0, e.value))
        } else {
            None
        }
    } else {
        None
    }
}

/// Every button's code reads back as that button.
pub proof fn lemma_button_code_round_trip(b: MouseButton)
    ensures
        button_of(button_code(b)) == Some(b),
{
}

} // verus!
