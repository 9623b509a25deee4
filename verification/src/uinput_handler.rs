//! The virtual pointer: one button and two relative axes.
//!
//! Each operation of the pointer yields the batch of raw events that the
//! device is to be given in one write, key and axis changes first and the
//! end of the report last.  Nothing is written here: the caller waits as
//! long as the batch says and hands its events to the device.

use vstd::prelude::*;
use crate::drag::Action;
use crate::events::{
    button_event,
    button_event_spec,
    horizontal_event,
    motion_event_spec,
    report_event,
    report_event_spec,
    vertical_event,
    RawEvent,
    BTN_LEFT,
    REL_X,
    REL_Y,
};
use crate::units::{ceil_units, clamp_i32, round_up_units};

verus! {

/// The bus type of a USB device.
pub const BUS_USB: u16 = 0x03;

/// The vendor identifier of the virtual pointer.
pub const VENDOR: u16 = 0x1234;

/// The product identifier of the virtual pointer.
pub const PRODUCT: u16 = 0x5678;

/// How long the system is given to take notice of the new device before
/// the first event, in milliseconds.
pub const SETTLE_MILLIS: u64 = 1000;

/// Events to be written to the device in one batch, after a wait.
#[derive(Debug)]
pub struct Batch {
    /// How long to wait before the write, in milliseconds.
    pub delay_ms: u64,
    /// The events, in the order in which they are written.
    pub events: Vec<RawEvent>,
}

/// A batch as a value: its wait and the sequence of its events.
pub struct BatchView {
    pub delay_ms: u64,
    pub events: Seq<RawEvent>,
}

impl View for Batch {
    type V = BatchView;

    open spec fn view(&self) -> BatchView {
        BatchView { delay_ms: self.delay_ms, events: self.events@ }
    }
}

/// The batch of a press: button down, end of report.
pub open spec fn press_batch() -> BatchView {
    BatchView { delay_ms: 0, events: seq![button_event_spec(true), report_event_spec()] }
}

/// The batch of a release after `delay_ms` milliseconds: button up, end of
/// report.
pub open spec fn release_batch(delay_ms: u64) -> BatchView {
    BatchView { delay_ms, events: seq![button_event_spec(false), report_event_spec()] }
}

/// The batch of a move by `dx` and `dy` millionths of a unit: the
/// horizontal and the vertical motion, each rounded up to whole units on
/// its own, then the end of the report.
pub open spec fn move_batch(dx: i64, dy: i64) -> BatchView {
    BatchView {
        delay_ms: 0,
        events: seq![
            motion_event_spec(REL_X, clamp_i32(ceil_units(dx as int)) as i32),
            motion_event_spec(REL_Y, clamp_i32(ceil_units(dy as int)) as i32),
            report_event_spec(),
        ],
    }
}

/// The batch that carries out `action`.
pub open spec fn batch_of(action: Action) -> BatchView {
    match action {
        Action::Press => press_batch(),
        Action::Release { delay_ms } => release_batch(delay_ms),
        Action::Move { dx, dy } => move_batch(dx, dy),
    }
}

/// Whether the button is held after `action`, given whether it was held
/// before.
pub open spec fn down_after(down: bool, action: Action) -> bool {
    match action {
        Action::Press => true,
        Action::Release { .. } => false,
        Action::Move { .. } => down,
    }
}

/// Whether the button is held once `actions` have been carried
/// out one after the other, given whether it was held before.
pub open spec fn down_after_all(down: bool, actions: Seq<Action>) -> bool
    decreases actions.len(),
{
    if actions.len() == 0 {
        down
    } else {
        down_after(down_after_all(down, actions.drop_last()), actions.last())
    }
}

/// What the virtual device is created with: its identity, its name, the
/// one button and the two axes that it can report, and the time to let pass
/// after its creation.
#[derive(Clone, Copy, Debug)]
pub struct DeviceProfile {
    pub bus: u16,
    pub vendor: u16,
    pub product: u16,
    pub version: u16,
    pub name: &'static str,
    pub button: u16,
    pub horizontal_axis: u16,
    pub vertical_axis: u16,
    pub settle_ms: u64,
}

/// The profile of the virtual pointer.
pub fn device_profile() -> (profile: DeviceProfile)
    ensures
        profile.bus == BUS_USB,
        profile.vendor == VENDOR,
        profile.product == PRODUCT,
        profile.version == 0,
        profile.name@ == "Shadow trackpad"@,
        profile.button == BTN_LEFT,
        profile.horizontal_axis == REL_X,
        profile.vertical_axis == REL_Y,
        profile.settle_ms == SETTLE_MILLIS,
{
    DeviceProfile {
        bus: BUS_USB,
        vendor: VENDOR,
        product: PRODUCT,
        version: 0,
        name: "Shadow trackpad",
        button: BTN_LEFT,
        horizontal_axis: REL_X,
        vertical_axis: REL_Y,
        settle_ms: SETTLE_MILLIS,
    }
}

/// What the caller is to do with the device.
#[derive(Debug)]
pub enum Command {
    /// Wait, then write the events of the batch in one write.
    Emit(Batch),
    /// Destroy the device.
    Destroy,
}

/// A command as a value.
pub enum CommandView {
    Emit(BatchView),
    Destroy,
}

impl View for Command {
    type V = CommandView;

    open spec fn view(&self) -> CommandView {
        match self {
            Command::Emit(batch) => CommandView::Emit(batch@),
            Command::Destroy => CommandView::Destroy,
        }
    }
}

/// The virtual pointer, which knows whether its button is held.
pub struct VirtualTrackpad {
    mouse_is_down: bool,
}

/// A virtual pointer for a device that was just created: its button is up.
pub fn start_handler() -> (trackpad: VirtualTrackpad)
    ensures
        !trackpad.is_down(),
{
    VirtualTrackpad { mouse_is_down: false }
}

/// A batch of one event and the end of the report.
fn button_batch(pressed: bool, delay_ms: u64) -> (batch: Batch)
    ensures
        batch@ == (BatchView {
            delay_ms,
            events: seq![button_event_spec(pressed), report_event_spec()],
        }),
{
    let mut events: Vec<RawEvent> = Vec::new();
    events.push(button_event(pressed));
    events.push(report_event());
    proof {
        assert(events@ =~= seq![button_event_spec(pressed), report_event_spec()]);
    }
    Batch { delay_ms, events }
}

impl VirtualTrackpad {
    /// Whether the button is held.
    pub closed spec fn is_down(&self) -> bool {
        self.mouse_is_down
    }

    /// Whether the button is held.
    pub fn mouse_is_down(&self) -> (down: bool)
        ensures
            down == self.is_down(),
    {
        self.mouse_is_down
    }

    /// Presses the button.
    pub fn mouse_down(&mut self) -> (batch: Batch)
        ensures
            final(self).is_down(),
            batch@ == press_batch(),
    {
        self.mouse_is_down = true;
        button_batch(true, 0)
    }

    /// Releases the button at once.  It may be up already: the batch is the
    /// same, and the button stays up.
    pub fn mouse_up(&mut self) -> (batch: Batch)
        ensures
            !final(self).is_down(),
            batch@ == release_batch(0),
    {
        self.mouse_is_down = false;
        button_batch(false, 0)
    }

    /// Releases the button after `delay` milliseconds.
    pub fn mouse_up_delay(&mut self, delay: u64) -> (batch: Batch)
        ensures
            !final(self).is_down(),
            batch@ == release_batch(delay),
    {
        self.mouse_is_down = false;
        button_batch(false, delay)
    }

    /// Moves the pointer by `x_rel` and `y_rel` millionths of a unit.  Each
    /// is rounded up to whole units on its own; this is the one place where
    /// motion is rounded.
    pub fn mouse_move_relative(&self, x_rel: i64, y_rel: i64) -> (batch: Batch)
        ensures
            batch@ == move_batch(x_rel, y_rel),
    {
        let mut events: Vec<RawEvent> = Vec::new();
        events.push(horizontal_event(round_up_units(x_rel)));
        events.push(vertical_event(round_up_units(y_rel)));
        events.push(report_event());
        proof {
            assert(events@ =~= move_batch(x_rel, y_rel).events);
        }
        Batch { delay_ms: 0, events }
    }

    /// Carries out one action of the drag state machine.
    pub fn perform(&mut self, action: Action) -> (batch: Batch)
        ensures
            final(self).is_down() == down_after(old(self).is_down(), action),
            batch@ == batch_of(action),
    {
        match action {
            Action::Press => self.mouse_down(),
            Action::Release { delay_ms } => self.mouse_up_delay(delay_ms),
            Action::Move { dx, dy } => self.mouse_move_relative(dx, dy),
        }
    }

    /// Gives up the virtual pointer: what is left to do is to destroy the
    /// device.
    pub fn dev_destroy(self) -> (command: Command)
        ensures
            command@ == CommandView::Destroy,
    {
        Command::Destroy
    }
}

} // verus!
