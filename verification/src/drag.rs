//! The drag state machine.
//!
//! It follows the gesture records of a log, keeps the motion that has not
//! been passed on yet and whether the button is held, and says for each
//! line which pointer actions are due.

use vstd::prelude::*;
use crate::config::Configuration;
use crate::gesture::{GestureAction, GestureRecord};
use crate::units::magnitude;

verus! {

/// The number of fingers that makes a swipe a drag.
pub const DRAG_FINGERS: u32 = 3;

/// Accumulated motion is passed on once it is larger than this on either
/// axis, in millionths of a unit.
pub const FLUSH_THRESHOLD: i64 = 1_000_000;

/// Something for the virtual pointer to do.
#[derive(Clone, Copy, Debug, PartialEq, Eq, Structural)]
pub enum Action {
    /// Hold the button down.
    Press,
    /// Let the button go, after waiting `delay_ms` milliseconds.
    Release { delay_ms: u64 },
    /// Move by the accumulated motion, in millionths of a unit.
    Move { dx: i64, dy: i64 },
}

/// The state of a drag: the motion accumulated on each axis, in millionths
/// of a unit, and whether the button is held.
pub struct DragState {
    pub dx: int,
    pub dy: int,
    pub button_down: bool,
}

impl DragState {
    /// No motion accumulated, button up.
    pub open spec fn idle() -> DragState {
        DragState { dx: 0, dy: 0, button_down: false }
    }

    /// Whether the accumulated motion is within the threshold on both axes,
    /// as it is between any two lines.
    pub open spec fn valid(self) -> bool {
        within_threshold(self.dx, self.dy)
    }

    /// This state with the button held.
    pub open spec fn pressed(self) -> DragState {
        DragState { button_down: true, ..self }
    }

    /// This state with the button up.
    pub open spec fn released(self) -> DragState {
        DragState { button_down: false, ..self }
    }

    /// This state with other accumulated motion.
    pub open spec fn with_motion(self, dx: int, dy: int) -> DragState {
        DragState { dx, dy, ..self }
    }
}

/// Whether motion is within the threshold on both axes.
pub open spec fn within_threshold(dx: int, dy: int) -> bool {
    magnitude(dx) <= FLUSH_THRESHOLD as int && magnitude(dy) <= FLUSH_THRESHOLD as int
}

/// A displacement in thousandths, scaled by a factor in thousandths: the
/// result is in millionths.
pub open spec fn scaled(displacement: i32, acceleration: i32) -> int {
    displacement as int * acceleration as int
}

/// A scaled displacement is no larger than 2^62 in size.
pub proof fn lemma_scaled_range(displacement: i32, acceleration: i32)
    ensures
        -0x4000_0000_0000_0000 <= scaled(displacement, acceleration) <= 0x4000_0000_0000_0000,
{
    assert(-0x4000_0000_0000_0000 <= displacement as int * acceleration as int
        <= 0x4000_0000_0000_0000) by (nonlinear_arith)
        requires
            -0x8000_0000 <= displacement <= 0x7fff_ffff,
            -0x8000_0000 <= acceleration <= 0x7fff_ffff,
    ;
}

/// The release that ends a swipe: at once if the swipe was cancelled, else
/// after the configured delay.
pub open spec fn swipe_end_release(config: Configuration, cancelled: bool) -> Action {
    Action::Release {
        delay_ms: if cancelled {
            0
        } else {
            config.drag_end_delay
        },
    }
}

/// What a swipe update does: it adds the scaled displacement to the
/// accumulated motion and, if that is now over the threshold on either
/// axis, passes all of it on in one move and starts again from zero.
pub open spec fn after_update(state: DragState, config: Configuration, dx: i32, dy: i32) -> (
    DragState,
    Seq<Action>,
) {
    let x = state.dx + scaled(dx, config.acceleration);
    let y = state.dy + scaled(dy, config.acceleration);
    if within_threshold(x, y) {
        (state.with_motion(x, y), Seq::empty())
    } else {
        (state.with_motion(0, 0), seq![Action::Move { dx: x as i64, dy: y as i64 }])
    }
}

/// What a line that is no part of a drag does: it asks for a release at
/// once if the button is held, and for nothing if the button is up.
pub open spec fn release_if_held(state: DragState) -> (DragState, Seq<Action>) {
    if state.button_down {
        (state.released(), seq![Action::Release { delay_ms: 0 }])
    } else {
        (state, Seq::empty())
    }
}

/// What one line of the log does to a drag, and which actions it asks for.
/// `None` stands for a line that reports no gesture.
pub open spec fn step_spec(
    state: DragState,
    config: Configuration,
    input: Option<GestureRecord>,
) -> (DragState, Seq<Action>) {
    match input {
        None => release_if_held(state),
        Some(record) => if record.finger_count != DRAG_FINGERS && !record.action.is_hold() {
            (state.pressed(), seq![Action::Press])
        } else {
            match record.action {
                GestureAction::SwipeBegin => (
                    DragState { dx: 0, dy: 0, button_down: true },
                    seq![Action::Press],
                ),
                GestureAction::SwipeUpdate { dx, dy } => after_update(state, config, dx, dy),
                GestureAction::SwipeEnd { cancelled } => (
                    DragState::idle(),
                    seq![
                        Action::Move { dx: state.dx as i64, dy: state.dy as i64 },
                        swipe_end_release(config, cancelled),
                    ],
                ),
                GestureAction::HoldBegin => (state, Seq::empty()),
                GestureAction::HoldEnd { cancelled } => if cancelled {
                    (state, Seq::empty())
                } else {
                    (state.released(), seq![Action::Release { delay_ms: 0 }])
                },
                GestureAction::Other => release_if_held(state),
            }
        },
    }
}

/// What a run of lines does to a drag, and the actions that the lines ask
/// for, in order.
pub open spec fn run_spec(
    state: DragState,
    config: Configuration,
    inputs: Seq<Option<GestureRecord>>,
) -> (DragState, Seq<Action>)
    decreases inputs.len(),
{
    if inputs.len() == 0 {
        (state, Seq::empty())
    } else {
        let before = run_spec(state, config, inputs.drop_last());
        let last = step_spec(before.0, config, inputs.last());
        (last.0, before.1 + last.1)
    }
}

/// The state that is carried from line to line.
pub struct DragSession {
    accumulated_dx: i64,
    accumulated_dy: i64,
    button_down: bool,
}

impl View for DragSession {
    type V = DragState;

    closed spec fn view(&self) -> DragState {
        DragState {
            dx: self.accumulated_dx as int,
            dy: self.accumulated_dy as int,
            button_down: self.button_down,
        }
    }
}

impl DragSession {
    #[verifier::type_invariant]
    spec fn accumulators_within_threshold(self) -> bool {
        within_threshold(self.accumulated_dx as int, self.accumulated_dy as int)
    }

    /// A session with no motion accumulated and the button up.
    pub fn new() -> (session: DragSession)
        ensures
            session@ == DragState::idle(),
    {
        DragSession { accumulated_dx: 0, accumulated_dy: 0, button_down: false }
    }

    /// The motion accumulated on the horizontal axis, in millionths.
    pub fn accumulated_dx(&self) -> (dx: i64)
        ensures
            dx as int == self@.dx,
    {
        self.accumulated_dx
    }

    /// The motion accumulated on the vertical axis, in millionths.
    pub fn accumulated_dy(&self) -> (dy: i64)
        ensures
            dy as int == self@.dy,
    {
        self.accumulated_dy
    }

    /// Whether the button is held.
    pub fn button_down(&self) -> (down: bool)
        ensures
            down == self@.button_down,
    {
        self.button_down
    }

    /// Takes in one line of the log and returns the actions that it asks
    /// for, in the order in which they are due.
    pub fn step(&mut self, config: &Configuration, input: Option<GestureRecord>) -> (actions: Vec<
        Action,
    >)
        ensures
            final(self)@.valid(),
            (final(self)@, actions@) == step_spec(old(self)@, *config, input),
    {
        proof {
            use_type_invariant(&*self);
        }
        let mut actions: Vec<Action> = Vec::new();
        let record = match input {
            None => {
                if self.button_down {
                    self.button_down = false;
                    actions.push(Action::Release { delay_ms: 0 });
                }
                return actions;
            },
            Some(record) => record,
        };
        if record.finger_count != DRAG_FINGERS && !record.action.belongs_to_hold() {
            self.button_down = true;
            actions.push(Action::Press);
            return actions;
        }
        match record.action {
            GestureAction::SwipeBegin => {
                *self = DragSession { accumulated_dx: 0, accumulated_dy: 0, button_down: true };
                actions.push(Action::Press);
            },
            GestureAction::SwipeUpdate { dx, dy } => {
                proof {
                    lemma_scaled_range(dx, config.acceleration);
                    lemma_scaled_range(dy, config.acceleration);
                }
                let x: i64 = self.accumulated_dx + dx as i64 * config.acceleration as i64;
                let y: i64 = self.accumulated_dy + dy as i64 * config.acceleration as i64;
                if x > FLUSH_THRESHOLD || x < -FLUSH_THRESHOLD || y > FLUSH_THRESHOLD || y
                    < -FLUSH_THRESHOLD {
                    actions.push(Action::Move { dx: x, dy: y });
                    *self = DragSession {
                        accumulated_dx: 0,
                        accumulated_dy: 0,
                        button_down: self.button_down,
                    };
                } else {
                    *self = DragSession {
                        accumulated_dx: x,
                        accumulated_dy: y,
                        button_down: self.button_down,
                    };
                }
            },
            GestureAction::SwipeEnd { cancelled } => {
                actions.push(Action::Move { dx: self.accumulated_dx, dy: self.accumulated_dy });
                let delay_ms: u64 = if cancelled {
                    0
                } else {
                    config.drag_end_delay
                };
                actions.push(Action::Release { delay_ms });
                *self = DragSession { accumulated_dx: 0, accumulated_dy: 0, button_down: false };
            },
            GestureAction::HoldBegin => {},
            GestureAction::HoldEnd { cancelled } => {
                if !cancelled {
                    self.button_down = false;
                    actions.push(Action::Release { delay_ms: 0 });
                }
            },
            GestureAction::Other => {
                if self.button_down {
                    self.button_down = false;
                    actions.push(Action::Release { delay_ms: 0 });
                }
            },
        }
        actions
    }

    /// Takes in a run of lines, one after the other, and returns all the
    /// actions that they ask for, in the order in which they are due.
    pub fn run(&mut self, config: &Configuration, inputs: &[Option<GestureRecord>]) -> (actions:
        Vec<Action>)
        ensures
            final(self)@.valid(),
            (final(self)@, actions@) == run_spec(old(self)@, *config, inputs@),
    {
        proof {
            use_type_invariant(&*self);
        }
        let mut actions: Vec<Action> = Vec::new();
        let mut i: usize = 0;
        while i < inputs.len()
            invariant
                0 <= i <= inputs@.len(),
                self@.valid(),
                (self@, actions@) == run_spec(old(self)@, *config, inputs@.take(i as int)),
            decreases inputs@.len() - i,
        {
            let ghost before = actions@;
            let mut due = self.step(config, inputs[i]);
            actions.append(&mut due);
            proof {
                assert(inputs@.take(i + 1).drop_last() =~= inputs@.take(i as int));
                assert(actions@ =~= before + step_spec(
                    run_spec(old(self)@, *config, inputs@.take(i as int)).0,
                    *config,
                    inputs@[i as int],
                ).1);
            }
            i = i + 1;
        }
        proof {
            assert(inputs@.take(i as int) =~= inputs@);
        }
        actions
    }
}

} // verus!
