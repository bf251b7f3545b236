//! The event-arbitration loop body. Each iteration of the control loop
//! races the line sensor, the two proximity sensors and a fixed timeout;
//! whichever resolves first becomes one `SensorEvent`, and exactly one
//! motor command is issued for it before the race restarts. The race and
//! the hardware waits live outside this crate; `select_event` fixes the
//! tie-break among simultaneously ready events, and `dispatch` performs
//! one iteration's decision and motor update.

use vstd::prelude::*;

use crate::motors::duty_for;
use crate::motors::Motors;
use crate::motors::MAX_DUTY;

verus! {

/// The timeout arm of the race fires after this many milliseconds when no
/// sensor event resolves first.
pub const RACE_TICK_MS: u64 = 1;

/// The one event an arbitration iteration consumes: which arm of the
/// four-way race resolved first.
#[derive(Clone, Copy, PartialEq, Eq, Structural, Debug)]
pub enum SensorEvent {
    LineDetected,
    LeftObstacle,
    RightObstacle,
    Timeout,
}

/// The motor command one iteration issues.
#[derive(Clone, Copy, PartialEq, Eq, Structural, Debug)]
pub enum Command {
    Reverse,
    ChargeForward,
    PivotLeft,
    PivotRight,
}

/// Which event wins when several race arms are ready at once: the first
/// listed wins, in the order line, left obstacle, right obstacle; with no
/// arm ready within the tick, the timeout wins.
pub open spec fn winner(line: bool, left: bool, right: bool) -> SensorEvent {
    if line {
        SensorEvent::LineDetected
    } else if left {
        SensorEvent::LeftObstacle
    } else if right {
        SensorEvent::RightObstacle
    } else {
        SensorEvent::Timeout
    }
}

/// The command each event triggers. A left obstacle alone pivots left,
/// but when the right sensor's instantaneous re-check also sees an
/// obstacle the robot charges forward; a right obstacle pivots right with
/// no such re-check (a deliberate asymmetry of the control policy); a
/// line reverses; a quiet tick pivots left.
pub open spec fn command_for(event: SensorEvent, right_obstacle: bool) -> Command {
    match event {
        SensorEvent::LineDetected => Command::Reverse,
        SensorEvent::LeftObstacle => if right_obstacle {
            Command::ChargeForward
        } else {
            Command::PivotLeft
        },
        SensorEvent::RightObstacle => Command::PivotRight,
        SensorEvent::Timeout => Command::PivotLeft,
    }
}

/// The motor state a command leaves behind: every command writes both
/// wheels, at full magnitude.
pub open spec fn motors_after(command: Command) -> Motors {
    match command {
        Command::Reverse => Motors {
            left: duty_for(-(MAX_DUTY as int)),
            right: duty_for(-(MAX_DUTY as int)),
        },
        Command::ChargeForward => Motors {
            left: duty_for(MAX_DUTY as int),
            right: duty_for(MAX_DUTY as int),
        },
        Command::PivotLeft => Motors {
            left: duty_for(-(MAX_DUTY as int)),
            right: duty_for(MAX_DUTY as int),
        },
        Command::PivotRight => Motors {
            left: duty_for(MAX_DUTY as int),
            right: duty_for(-(MAX_DUTY as int)),
        },
    }
}

/// Resolve one four-way race from the arms' readiness: the first ready
/// arm, in listed order, wins; none ready means the timeout fired.
pub fn select_event(line_ready: bool, left_ready: bool, right_ready: bool) -> (event: SensorEvent)
    ensures
        event == winner(line_ready, left_ready, right_ready),
{
    if line_ready {
        SensorEvent::LineDetected
    } else if left_ready {
        SensorEvent::LeftObstacle
    } else if right_ready {
        SensorEvent::RightObstacle
    } else {
        SensorEvent::Timeout
    }
}

/// One iteration's action after the race resolved: issue exactly one
/// motor command for the winning event and report which command fired.
/// `right_obstacle` is the right proximity sensor's level read directly
/// after a left-obstacle win; no task runs between that read and the
/// motor write, so the command matches the reading just taken.
pub fn dispatch(motors: &mut Motors, event: SensorEvent, right_obstacle: bool) -> (command:
    Command)
    ensures
        command == command_for(event, right_obstacle),
        *final(motors) == motors_after(command),
{
    match event {
        SensorEvent::LineDetected => {
            motors.reverse();
            Command::Reverse
        },
        SensorEvent::LeftObstacle => {
            if right_obstacle {
                motors.CHARGEEEEE();
                Command::ChargeForward
            } else {
                motors.turn_left();
                Command::PivotLeft
            }
        },
        SensorEvent::RightObstacle => {
            motors.turn_right();
            Command::PivotRight
        },
        SensorEvent::Timeout => {
            motors.turn_left();
            Command::PivotLeft
        },
    }
}

/// With obstacles on both sides at once (and no line), the iteration
/// charges forward: both wheels full forward, never a pivot.
pub proof fn lemma_both_obstacles_charge(left: bool, right: bool)
    requires
        left,
        right,
    ensures
        command_for(winner(false, left, right), right) == Command::ChargeForward,
        motors_after(command_for(winner(false, left, right), right)).left == duty_for(
            MAX_DUTY as int,
        ),
        motors_after(command_for(winner(false, left, right), right)).right == duty_for(
            MAX_DUTY as int,
        ),
{
}

/// With only a right obstacle (left clear, no line), the iteration pivots
/// right, whatever the right sensor's instantaneous level reads at
/// dispatch time: the right branch makes no secondary check.
pub proof fn lemma_right_obstacle_pivots_right(right_now: bool)
    ensures
        command_for(winner(false, false, true), right_now) == Command::PivotRight,
{
}

/// When the line and a right obstacle signal in the same tick, the line
/// arm is listed first and wins: the iteration issues the single command
/// `Reverse`, never a merged or second command.
pub proof fn lemma_line_wins_race(left: bool, right_now: bool)
    ensures
        command_for(winner(true, left, true), right_now) == Command::Reverse,
{
}

/// A tick with no sensor signal issues the default exploratory pivot to
/// the left; the loop then re-enters the race (no event is terminal).
pub proof fn lemma_quiet_tick_pivots_left(right_now: bool)
    ensures
        command_for(winner(false, false, false), right_now) == Command::PivotLeft,
{
}

} // verus!
