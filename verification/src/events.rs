//! Raw input events, as the kernel's input subsystem reads them.
//!
//! The events are built by the `input_linux` crate; what comes back from it
//! is held here as plain numbers.

use vstd::prelude::*;
use input_linux::{
    EventTime,
    InputEvent,
    Key,
    KeyEvent,
    KeyState,
    RelativeAxis,
    RelativeEvent,
    SynchronizeEvent,
    SynchronizeKind,
};

verus! {

/// The event type of a synchronization event.
pub const EV_SYN: u16 = 0;

/// The event type of a key or button event.
pub const EV_KEY: u16 = 1;

/// The event type of a relative motion event.
pub const EV_REL: u16 = 2;

/// The synchronization code that ends a report.
pub const SYN_REPORT: u16 = 0;

/// The key code of the left mouse button.
pub const BTN_LEFT: u16 = 0x110;

/// The code of the horizontal relative axis.
pub const REL_X: u16 = 0;

/// The code of the vertical relative axis.
pub const REL_Y: u16 = 1;

/// The number of key codes: a key code is valid if it is below this.
pub const KEY_CODES: u16 = 0x300;

/// The number of relative axis codes.
pub const AXIS_CODES: u16 = 0x10;

/// The number of synchronization codes.
pub const SYNC_CODES: u16 = 0x10;

/// One input event: its type, its code and its value.  The timestamp, which
/// is zero in every event that is built here, is left out.
#[derive(Clone, Copy, Debug, PartialEq, Eq, Structural)]
pub struct RawEvent {
    pub kind: u16,
    pub code: u16,
    pub value: i32,
}

/// The event that says that the left button went down or up.
pub open spec fn button_event_spec(pressed: bool) -> RawEvent {
    RawEvent {
        kind: EV_KEY,
        code: BTN_LEFT,
        value: if pressed {
            1
        } else {
            0
        },
    }
}

/// The event that says that the pointer moved by `delta` on the axis with
/// the code `axis`.
pub open spec fn motion_event_spec(axis: u16, delta: i32) -> RawEvent {
    RawEvent { kind: EV_REL, code: axis, value: delta }
}

/// The event that ends a report.
pub open spec fn report_event_spec() -> RawEvent {
    RawEvent { kind: EV_SYN, code: SYN_REPORT, value: 0 }
}

/// Builds a key event with `input_linux`: `Key::from_code` turns the code
/// into a key, `KeyEvent::new` makes the event with a zero timestamp
/// (`EventTime::default`) and the state that `KeyState::pressed` gives, and
/// `InputEvent::from` and `InputEvent::into_raw` turn it into the kernel's
/// layout.  Claimed: `from_code` accepts exactly the codes below 0x300, and
/// the raw event then has the type `EV_KEY`, the same code, and the value 1
/// for pressed and 0 for released.
#[verifier::external_body]
fn key_event(code: u16, pressed: bool) -> (event: Option<RawEvent>)
    ensures
        event == if code < KEY_CODES {
            Some(
                RawEvent {
                    kind: EV_KEY,
                    code,
                    value: if pressed {
                        1i32
                    } else {
                        0i32
                    },
                },
            )
        } else {
            None
        },
{
    match Key::from_code(code) {
        Ok(key) => {
            let state = KeyState::pressed(pressed);
            let raw = InputEvent::from(KeyEvent::new(EventTime::default(), key, state)).into_raw();
            Some(RawEvent { kind: raw.type_, code: raw.code, value: raw.value })
        },
        Err(_) => None,
    }
}

/// Builds a relative motion event with `input_linux`:
/// `RelativeAxis::from_code` turns the code into an axis,
/// `RelativeEvent::new` makes the event with a zero timestamp, and
/// `InputEvent::from` and `InputEvent::into_raw` turn it into the kernel's
/// layout.  Claimed: `from_code` accepts exactly the codes below 0x10, and
/// the raw event then has the type `EV_REL`, the same code and the same
/// value.
#[verifier::external_body]
fn relative_event(code: u16, value: i32) -> (event: Option<RawEvent>)
    ensures
        event == if code < AXIS_CODES {
            Some(RawEvent { kind: EV_REL, code, value })
        } else {
            None
        },
{
    match RelativeAxis::from_code(code) {
        Ok(axis) => {
            let raw = InputEvent::from(RelativeEvent::new(EventTime::default(), axis, value))
                .into_raw();
            Some(RawEvent { kind: raw.type_, code: raw.code, value: raw.value })
        },
        Err(_) => None,
    }
}

/// Builds a synchronization event with `input_linux`:
/// `SynchronizeKind::from_code` turns the code into a kind,
/// `SynchronizeEvent::new` makes the event with a zero timestamp, and
/// `InputEvent::from` and `InputEvent::into_raw` turn it into the kernel's
/// layout.  Claimed: `from_code` accepts exactly the codes below 0x10, and
/// the raw event then has the type `EV_SYN`, the same code and the same
/// value.
#[verifier::external_body]
fn synchronize_event(code: u16, value: i32) -> (event: Option<RawEvent>)
    ensures
        event == if code < SYNC_CODES {
            Some(RawEvent { kind: EV_SYN, code, value })
        } else {
            None
        },
{
    match SynchronizeKind::from_code(code) {
        Ok(kind) => {
            let raw = InputEvent::from(SynchronizeEvent::new(EventTime::default(), kind, value))
                .into_raw();
            Some(RawEvent { kind: raw.type_, code: raw.code, value: raw.value })
        },
        Err(_) => None,
    }
}

/// The event that says that the left button went down or up.
pub fn button_event(pressed: bool) -> (event: RawEvent)
    ensures
        event == button_event_spec(pressed),
{
    match key_event(BTN_LEFT, pressed) {
        Some(event) => event,
        None => vstd::pervasive::unreached(),
    }
}

/// The event that says that the pointer moved by `delta` on the horizontal
/// axis.
pub fn horizontal_event(delta: i32) -> (event: RawEvent)
    ensures
        event == motion_event_spec(REL_X, delta),
{
    match relative_event(REL_X, delta) {
        Some(event) => event,
        None => vstd::pervasive::unreached(),
    }
}

/// The event that says that the pointer moved by `delta` on the vertical
/// axis.
pub fn vertical_event(delta: i32) -> (event: RawEvent)
    ensures
        event == motion_event_spec(REL_Y, delta),
{
    match relative_event(REL_Y, delta) {
        Some(event) => event,
        None => vstd::pervasive::unreached(),
    }
}

/// The event that ends a report.
pub fn report_event() -> (event: RawEvent)
    ensures
        event == report_event_spec(),
{
    match synchronize_event(SYN_REPORT, 0) {
        Some(event) => event,
        None => vstd::pervasive::unreached(),
    }
}

} // verus!
