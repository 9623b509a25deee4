//! What holds of the drag state machine on every input.

use vstd::prelude::*;
use crate::config::Configuration;
use crate::drag::{
    lemma_scaled_range,
    scaled,
    run_spec,
    step_spec,
    swipe_end_release,
    within_threshold,
    Action,
    DragState,
    DRAG_FINGERS,
};
use crate::gesture::{GestureAction, GestureRecord};
use crate::events::{motion_event_spec, report_event_spec, EV_SYN, REL_X, REL_Y};
use crate::uinput_handler::{batch_of, down_after_all, move_batch};
use crate::units::{ceil_units, clamp_i32, lemma_ceil_units_is_ceiling, MILLIONTHS_PER_UNIT};

verus! {

/// Between any two lines the accumulated motion is within the threshold:
/// a step from a valid state ends in a valid state.
pub proof fn law_step_keeps_valid(
    state: DragState,
    config: Configuration,
    input: Option<GestureRecord>,
)
    requires
        state.valid(),
    ensures
        step_spec(state, config, input).0.valid(),
{
}

/// The button is held after a line exactly as it is after the actions that
/// the line asks for have been carried out one after the other: it is held
/// if the last press or release among them is a press, and as it was before
/// if there is neither.
pub proof fn law_button_follows_actions(
    state: DragState,
    config: Configuration,
    input: Option<GestureRecord>,
)
    ensures
        step_spec(state, config, input).0.button_down == down_after_all(
            state.button_down,
            step_spec(state, config, input).1,
        ),
{
    let actions = step_spec(state, config, input).1;
    reveal_with_fuel(down_after_all, 3);
    if actions.len() == 1 {
        assert(actions.drop_last() =~= Seq::<Action>::empty());
    } else if actions.len() == 2 {
        assert(actions.drop_last().drop_last() =~= Seq::<Action>::empty());
    }
}

/// A gesture with another number of fingers than three, unless it is a
/// hold, asks for a press and nothing else: the accumulated motion stays as
/// it was, whatever the line reports.
pub proof fn law_other_finger_counts_press(
    state: DragState,
    config: Configuration,
    record: GestureRecord,
)
    requires
        record.finger_count != DRAG_FINGERS,
        !record.action.is_hold(),
    ensures
        step_spec(state, config, Some(record)) == (state.pressed(), seq![Action::Press]),
        step_spec(state, config, Some(record)).0.dx == state.dx,
        step_spec(state, config, Some(record)).0.dy == state.dy,
{
}

/// The start of a three-finger swipe sets the accumulated motion to zero on
/// both axes, whatever it was, and asks for a press.
pub proof fn law_swipe_begin_resets(state: DragState, config: Configuration, record: GestureRecord)
    requires
        record.finger_count == DRAG_FINGERS,
        record.action is SwipeBegin,
    ensures
        step_spec(state, config, Some(record)).0 == (DragState {
            dx: 0,
            dy: 0,
            button_down: true,
        }),
        step_spec(state, config, Some(record)).1 == seq![Action::Press],
{
}

/// The end of a three-finger swipe passes on what motion is left and then
/// asks for one release: at once if the swipe was cancelled, whatever delay
/// is configured, and after the configured delay if it was not.
pub proof fn law_swipe_end_releases(
    state: DragState,
    config: Configuration,
    record: GestureRecord,
    cancelled: bool,
)
    requires
        state.valid(),
        record.finger_count == DRAG_FINGERS,
        record.action == (GestureAction::SwipeEnd { cancelled }),
    ensures
        step_spec(state, config, Some(record)).0 == DragState::idle(),
        step_spec(state, config, Some(record)).1.len() == 2,
        step_spec(state, config, Some(record)).1[0] matches Action::Move { dx, dy } && dx as int
            == state.dx && dy as int == state.dy,
        step_spec(state, config, Some(record)).1[1] == swipe_end_release(config, cancelled),
        cancelled ==> step_spec(state, config, Some(record)).1[1] == (Action::Release {
            delay_ms: 0,
        }),
        !cancelled ==> step_spec(state, config, Some(record)).1[1] == (Action::Release {
            delay_ms: config.drag_end_delay,
        }),
{
}

/// A line that reports no gesture, and a three-finger gesture that is
/// neither a swipe nor a hold, ask for a release exactly if the button is
/// held: then for the one release, at once, and nothing else, and the
/// button is up after it.
pub proof fn law_unrecognized_line_releases_if_held(
    state: DragState,
    config: Configuration,
    input: Option<GestureRecord>,
)
    requires
        input matches Some(record) ==> record.finger_count == DRAG_FINGERS && record.action
            is Other,
    ensures
        state.button_down <==> step_spec(state, config, input).1.contains(
            Action::Release { delay_ms: 0 },
        ),
        state.button_down ==> step_spec(state, config, input).1 == seq![
            Action::Release { delay_ms: 0 },
        ],
        step_spec(state, config, input).0 == state.released(),
        !step_spec(state, config, input).0.button_down,
{
    let release = Action::Release { delay_ms: 0 };
    if state.button_down {
        assert(seq![release][0] == release);
    }
}

/// While the button is up, such a line asks for nothing and changes
/// nothing.
pub proof fn law_unrecognized_line_when_up_asks_nothing(
    state: DragState,
    config: Configuration,
    input: Option<GestureRecord>,
)
    requires
        !state.button_down,
        input matches Some(record) ==> record.finger_count == DRAG_FINGERS && record.action
            is Other,
    ensures
        step_spec(state, config, input) == (state, Seq::<Action>::empty()),
{
}

/// The record of a three-finger swipe update by `displacement`.
pub open spec fn swipe_update(displacement: (i32, i32)) -> Option<GestureRecord> {
    Some(
        GestureRecord {
            action: GestureAction::SwipeUpdate { dx: displacement.0, dy: displacement.1 },
            finger_count: DRAG_FINGERS,
        },
    )
}

/// The records of a run of three-finger swipe updates.
pub open spec fn swipe_updates(displacements: Seq<(i32, i32)>) -> Seq<Option<GestureRecord>> {
    displacements.map_values(|d: (i32, i32)| swipe_update(d))
}

/// The motion on the horizontal axis after a run of updates if none of it
/// is passed on: the motion at the start plus every scaled displacement.
pub open spec fn sum_dx(start: int, acceleration: i32, displacements: Seq<(i32, i32)>) -> int
    decreases displacements.len(),
{
    if displacements.len() == 0 {
        start
    } else {
        sum_dx(start, acceleration, displacements.drop_last()) + scaled(
            displacements.last().0,
            acceleration,
        )
    }
}

/// The motion on the vertical axis after a run of updates if none of it is
/// passed on.
pub open spec fn sum_dy(start: int, acceleration: i32, displacements: Seq<(i32, i32)>) -> int
    decreases displacements.len(),
{
    if displacements.len() == 0 {
        start
    } else {
        sum_dy(start, acceleration, displacements.drop_last()) + scaled(
            displacements.last().1,
            acceleration,
        )
    }
}

/// A run of three-finger swipe updates whose sum stays within the
/// threshold up to the last one asks for no move before the last one.  If
/// the sum is within the threshold after the last one too, the run asks for
/// nothing and the whole sum is kept.  If not, the last update asks for one
/// move, by the exact sum of the whole run on each axis, and the
/// accumulated motion starts again from zero.
pub proof fn law_updates_coalesce(
    state: DragState,
    config: Configuration,
    displacements: Seq<(i32, i32)>,
)
    requires
        state.valid(),
        forall|k: int|
            0 <= k < displacements.len() ==> within_threshold(
                sum_dx(state.dx, config.acceleration, #[trigger] displacements.take(k)),
                sum_dy(state.dy, config.acceleration, displacements.take(k)),
            ),
    ensures
        forall|k: int|
            0 <= k < displacements.len() ==> #[trigger] run_spec(
                state,
                config,
                swipe_updates(displacements.take(k)),
            ) == (
                state.with_motion(
                    sum_dx(state.dx, config.acceleration, displacements.take(k)),
                    sum_dy(state.dy, config.acceleration, displacements.take(k)),
                ),
                Seq::<Action>::empty(),
            ),
        ({
            let x = sum_dx(state.dx, config.acceleration, displacements);
            let y = sum_dy(state.dy, config.acceleration, displacements);
            let (end, actions) = run_spec(state, config, swipe_updates(displacements));
            if within_threshold(x, y) {
                &&& actions == Seq::<Action>::empty()
                &&& end == state.with_motion(x, y)
            } else {
                &&& actions.len() == 1
                &&& actions[0] matches Action::Move { dx, dy } && dx as int == x && dy as int == y
                &&& end == state.with_motion(0, 0)
            }
        }),
    decreases displacements.len(),
{
    if displacements.len() > 0 {
        let earlier = displacements.drop_last();
        assert(earlier =~= displacements.take(displacements.len() - 1));
        assert forall|k: int| 0 <= k < earlier.len() implies within_threshold(
            sum_dx(state.dx, config.acceleration, #[trigger] earlier.take(k)),
            sum_dy(state.dy, config.acceleration, earlier.take(k)),
        ) by {
            assert(earlier.take(k) =~= displacements.take(k));
        }
        law_updates_coalesce(state, config, earlier);
        assert(swipe_updates(displacements).drop_last() =~= swipe_updates(earlier));
        lemma_scaled_range(displacements.last().0, config.acceleration);
        lemma_scaled_range(displacements.last().1, config.acceleration);
        assert forall|k: int| 0 <= k < displacements.len() implies #[trigger] run_spec(
            state,
            config,
            swipe_updates(displacements.take(k)),
        ) == (
            state.with_motion(
                sum_dx(state.dx, config.acceleration, displacements.take(k)),
                sum_dy(state.dy, config.acceleration, displacements.take(k)),
            ),
            Seq::<Action>::empty(),
        ) by {
            if k < earlier.len() {
                assert(earlier.take(k) =~= displacements.take(k));
            }
        }
    }
}

/// A move rounds each axis up on its own: the batch holds the horizontal
/// motion, then the vertical motion, then the end of the report, and each
/// motion is the smallest whole number of units that is not below the
/// amount on its axis, held to the range of an `i32`.
pub proof fn law_move_rounds_up(dx: i64, dy: i64)
    ensures
        move_batch(dx, dy).events == seq![
            motion_event_spec(REL_X, clamp_i32(ceil_units(dx as int)) as i32),
            motion_event_spec(REL_Y, clamp_i32(ceil_units(dy as int)) as i32),
            report_event_spec(),
        ],
        (ceil_units(dx as int) - 1) * MILLIONTHS_PER_UNIT < dx <= ceil_units(dx as int)
            * MILLIONTHS_PER_UNIT,
        (ceil_units(dy as int) - 1) * MILLIONTHS_PER_UNIT < dy <= ceil_units(dy as int)
            * MILLIONTHS_PER_UNIT,
{
    lemma_ceil_units_is_ceiling(dx as int);
    lemma_ceil_units_is_ceiling(dy as int);
}

/// Every batch is one report: its last event is the end of the report, and
/// no event before the last is a synchronization event.
pub proof fn law_batches_end_with_report(action: Action)
    ensures
        batch_of(action).events.len() >= 2,
        batch_of(action).events.last() == report_event_spec(),
        forall|i: int|
            0 <= i < batch_of(action).events.len() - 1 ==> (#[trigger] batch_of(
                action,
            ).events[i]).kind != EV_SYN,
{
}

} // verus!
