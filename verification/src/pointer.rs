//! What pointer events of a seat mean for the outputs.

use crate::schedule::ms_to_us;
use vstd::prelude::*;

verus! {

/// A double-precision number, by its bits.
#[derive(Clone, Copy, Debug, PartialEq, Eq, Structural)]
pub struct Double {
    pub bits: u64,
}

/// What a seat's capabilities ask for.
#[derive(Clone, Copy, Debug, PartialEq, Eq, Structural)]
pub enum SeatStep {
    Acquire,
    Release,
    Keep,
}

/// What scrolled.
#[derive(Clone, Copy, Debug, PartialEq, Eq, Structural)]
pub enum AxisSource {
    Wheel,
    Finger,
    Continuous,
}

/// The direction of a scroll.
#[derive(Clone, Copy, Debug, PartialEq, Eq, Structural)]
pub enum Axis {
    Horizontal,
    Vertical,
}

/// What is known of the pointer of a seat.
#[derive(Clone, Copy, Debug, PartialEq, Eq, Structural)]
pub struct PointerCtx {
    /// The output that the pointer is on.
    pub focus_output: Option<u32>,
    pub last_x: Double,
    pub last_y: Double,
    pub axis_source: AxisSource,
}

/// An event of the pointer. What the compositor sends in a form that is not known
/// here is none.
#[derive(Clone, Copy, Debug, PartialEq, Eq, Structural)]
pub enum PointerEvent {
    Enter { output: Option<u32>, x: Double, y: Double },
    Leave,
    Motion { time_ms: u32, x: Double, y: Double },
    Button { time_ms: u32, button: u32, pressed: Option<bool> },
    Axis { time_ms: u32, axis: Option<Axis> },
    AxisSource { source: Option<AxisSource> },
}

/// What is sent on for an event, at surface coordinates of an output.
#[derive(Clone, Copy, Debug, PartialEq, Eq, Structural)]
pub enum PointerAction {
    Ignore,
    Motion { output: u32, x: Double, y: Double, time_us: u64 },
    Button { output: u32, x: Double, y: Double, button: u32, pressed: bool, time_us: u64 },
    Axis { output: u32, x: Double, y: Double, axis: Axis, source: AxisSource, time_us: u64 },
}

/// What a seat's capabilities ask for, where it has a pointer or not and one is
/// held already or not.
pub fn seat_step(has_pointer: bool, already: bool) -> (step: SeatStep)
    ensures
        step == (if has_pointer == already {
            SeatStep::Keep
        } else if has_pointer {
            SeatStep::Acquire
        } else {
            SeatStep::Release
        }),
{
    if has_pointer && !already {
        SeatStep::Acquire
    } else if !has_pointer && already {
        SeatStep::Release
    } else {
        SeatStep::Keep
    }
}

/// The scale of an output as a fraction: the preferred one in 120ths where there is
/// one, else the integer one.
pub fn pointer_scale(fractional_scale_120: u32, scale: i32) -> (fraction: (u32, u32))
    ensures
        fraction == (if fractional_scale_120 > 0 {
            (fractional_scale_120, 120u32)
        } else if scale > 1 {
            (scale as u32, 1u32)
        } else {
            (1u32, 1u32)
        }),
{
    if fractional_scale_120 > 0 {
        (fractional_scale_120, 120)
    } else if scale > 1 {
        (scale as u32, 1)
    } else {
        (1, 1)
    }
}

impl PointerCtx {
    /// The pointer after an event. Motion is remembered on every surface; an enter
    /// event for an unknown surface is passed over.
    pub open spec fn after(self, event: PointerEvent) -> PointerCtx {
        match event {
            PointerEvent::Enter { output: Some(output), x, y } => PointerCtx {
                focus_output: Some(output),
                last_x: x,
                last_y: y,
                ..self
            },
            PointerEvent::Leave => PointerCtx { focus_output: None, ..self },
            PointerEvent::Motion { x, y, .. } => PointerCtx { last_x: x, last_y: y, ..self },
            PointerEvent::AxisSource { source } => PointerCtx {
                axis_source: match source {
                    Some(known) => known,
                    None => AxisSource::Wheel,
                },
                ..self
            },
            _ => self,
        }
    }

    /// What is sent on for an event: nothing while the pointer is on no output.
    pub open spec fn action(self, event: PointerEvent) -> PointerAction {
        match (self.focus_output, event) {
            (Some(output), PointerEvent::Motion { time_ms, x, y }) => PointerAction::Motion {
                output,
                x,
                y,
                time_us: (time_ms * 1000) as u64,
            },
            (
                Some(output),
                PointerEvent::Button { time_ms, button, pressed: Some(pressed) },
            ) => PointerAction::Button {
                output,
                x: self.last_x,
                y: self.last_y,
                button,
                pressed,
                time_us: (time_ms * 1000) as u64,
            },
            (Some(output), PointerEvent::Axis { time_ms, axis: Some(axis) }) => PointerAction::Axis {
                output,
                x: self.last_x,
                y: self.last_y,
                axis,
                source: self.axis_source,
                time_us: (time_ms * 1000) as u64,
            },
            _ => PointerAction::Ignore,
        }
    }

    /// A pointer that is on no output.
    pub fn new() -> (pointer: PointerCtx)
        ensures
            pointer == (PointerCtx {
                focus_output: None,
                last_x: Double { bits: 0 },
                last_y: Double { bits: 0 },
                axis_source: AxisSource::Wheel,
            }),
    {
        PointerCtx {
            focus_output: None,
            last_x: Double { bits: 0 },
            last_y: Double { bits: 0 },
            axis_source: AxisSource::Wheel,
        }
    }

    /// Takes an event, and says what is sent on for it.
    pub fn handle(&mut self, event: PointerEvent) -> (action: PointerAction)
        ensures
            *final(self) == old(self).after(event),
            action == old(self).action(event),
    {
        match event {
            PointerEvent::Enter { output, x, y } => {
                if let Some(entered) = output {
                    self.focus_output = Some(entered);
                    self.last_x = x;
                    self.last_y = y;
                }
                PointerAction::Ignore
            },
            PointerEvent::Leave => {
                self.focus_output = None;
                PointerAction::Ignore
            },
            PointerEvent::Motion { time_ms, x, y } => {
                self.last_x = x;
                self.last_y = y;
                match self.focus_output {
                    Some(output) => PointerAction::Motion {
                        output,
                        x,
                        y,
                        time_us: ms_to_us(time_ms),
                    },
                    None => PointerAction::Ignore,
                }
            },
            PointerEvent::Button { time_ms, button, pressed } => match (
                self.focus_output,
                pressed,
            ) {
                (Some(output), Some(down)) => PointerAction::Button {
                    output,
                    x: self.last_x,
                    y: self.last_y,
                    button,
                    pressed: down,
                    time_us: ms_to_us(time_ms),
                },
                _ => PointerAction::Ignore,
            },
            PointerEvent::Axis { time_ms, axis } => match (self.focus_output, axis) {
                (Some(output), Some(direction)) => PointerAction::Axis {
                    output,
                    x: self.last_x,
                    y: self.last_y,
                    axis: direction,
                    source: self.axis_source,
                    time_us: ms_to_us(time_ms),
                },
                _ => PointerAction::Ignore,
            },
            PointerEvent::AxisSource { source } => {
                self.axis_source = match source {
                    Some(known) => known,
                    None => AxisSource::Wheel,
                };
                PointerAction::Ignore
            },
        }
    }
}

/// Once the pointer left, nothing is sent on until it enters an output again.
pub proof fn nothing_is_sent_after_leave(pointer: PointerCtx, event: PointerEvent)
    ensures
        pointer.after(PointerEvent::Leave).action(event) == PointerAction::Ignore,
        !(event is Enter) ==> pointer.after(PointerEvent::Leave).after(event).focus_output is None,
{
}

/// What is sent on tells what happened, where the pointer is. A button carries its own
/// state, so that a press and a release differ; motion carries its own place; scrolling
/// its own direction and what scrolled last. Everything goes to the output that the
/// pointer is on, at the time of the event. Nothing that is known of an event is kept
/// back while the pointer is on an output.
pub proof fn events_are_sent_on_as_they_are(
    pointer: &mut PointerCtx,
    event: PointerEvent,
    action: PointerAction,
)
    requires
        call_ensures(PointerCtx::handle, (pointer, event), action),
    ensures
        old(pointer).focus_output is None ==> action is Ignore,
        old(pointer).focus_output matches Some(focus) ==> match event {
            PointerEvent::Button { time_ms, button, pressed } => {
                &&& pressed is None <==> action is Ignore
                &&& action is Ignore || action is Button
                &&& action matches PointerAction::Button {
                    output,
                    x,
                    y,
                    button: sent,
                    pressed: state,
                    time_us,
                } ==> {
                    &&& pressed == Some(state)
                    &&& sent == button
                    &&& output == focus
                    &&& x == old(pointer).last_x && y == old(pointer).last_y
                    &&& time_us == 1000 * time_ms
                }
            },
            PointerEvent::Motion { time_ms, x, y } => {
                &&& action matches PointerAction::Motion {
                    output,
                    x: to_x,
                    y: to_y,
                    time_us,
                } && output == focus && to_x == x && to_y == y && time_us == 1000 * time_ms
            },
            PointerEvent::Axis { time_ms, axis } => {
                &&& axis is None <==> action is Ignore
                &&& action is Ignore || action is Axis
                &&& action matches PointerAction::Axis {
                    output,
                    x,
                    y,
                    axis: direction,
                    source,
                    time_us,
                } ==> {
                    &&& axis == Some(direction)
                    &&& source == old(pointer).axis_source
                    &&& output == focus
                    &&& x == old(pointer).last_x && y == old(pointer).last_y
                    &&& time_us == 1000 * time_ms
                }
            },
            _ => action is Ignore,
        },
{
}

/// Two events are told apart: a press and a release of a button, one button and
/// another, one direction of scrolling and the other.
pub proof fn different_events_are_sent_on_differently(
    pointer: &mut PointerCtx,
    event: PointerEvent,
    action: PointerAction,
    other_pointer: &mut PointerCtx,
    other: PointerEvent,
    other_action: PointerAction,
)
    requires
        *old(pointer) == *old(other_pointer),
        call_ensures(PointerCtx::handle, (pointer, event), action),
        call_ensures(PointerCtx::handle, (other_pointer, other), other_action),
        action !is Ignore,
        action == other_action,
    ensures
        event == other,
{
}

/// What is known of the pointer: the output that it entered last and has not left,
/// where it was seen last, and what scrolled last. Nothing else changes any of it.
pub proof fn pointer_is_followed(
    pointer: &mut PointerCtx,
    event: PointerEvent,
    action: PointerAction,
)
    requires
        call_ensures(PointerCtx::handle, (pointer, event), action),
    ensures
        match event {
            PointerEvent::Enter { output: Some(entered), x, y } => {
                &&& final(pointer).focus_output == Some(entered)
                &&& final(pointer).last_x == x && final(pointer).last_y == y
            },
            PointerEvent::Leave => {
                &&& final(pointer).focus_output is None
                &&& final(pointer).last_x == old(pointer).last_x
                &&& final(pointer).last_y == old(pointer).last_y
            },
            PointerEvent::Motion { x, y, .. } => {
                &&& final(pointer).focus_output == old(pointer).focus_output
                &&& final(pointer).last_x == x && final(pointer).last_y == y
            },
            _ => {
                &&& final(pointer).focus_output == old(pointer).focus_output
                &&& final(pointer).last_x == old(pointer).last_x
                &&& final(pointer).last_y == old(pointer).last_y
            },
        },
        event matches PointerEvent::AxisSource { source: Some(source) } ==> final(
            pointer).axis_source == source,
        event matches PointerEvent::AxisSource { source: None } ==> final(pointer).axis_source
            is Wheel,
        event !is AxisSource ==> final(pointer).axis_source == old(pointer).axis_source,
{
}

/// A press that follows motion is sent on from where the motion went, and scrolling
/// tells what the last word on it was.
pub proof fn events_add_up(
    first: &mut PointerCtx,
    motion: PointerEvent,
    moved: PointerAction,
    second: &mut PointerCtx,
    event: PointerEvent,
    action: PointerAction,
)
    requires
        call_ensures(PointerCtx::handle, (first, motion), moved),
        *old(second) == *final(first),
        call_ensures(PointerCtx::handle, (second, event), action),
    ensures
        motion matches PointerEvent::Motion { x, y, .. } ==> (action matches PointerAction::Button {
            x: at_x,
            y: at_y,
            ..
        } ==> at_x == x && at_y == y),
        motion matches PointerEvent::Enter { output: Some(entered), x, y } ==> (
        action matches PointerAction::Button { output, x: at_x, y: at_y, .. } ==> output == entered
            && at_x == x && at_y == y),
        motion matches PointerEvent::Enter { output: Some(entered), .. } ==> (
        action matches PointerAction::Motion { output, .. } ==> output == entered),
        motion matches PointerEvent::AxisSource { source: Some(told) } ==> (
        action matches PointerAction::Axis { source, .. } ==> source == told),
        motion is Leave ==> action is Ignore,
{
}

/// A pointer is acquired once and released once: after the step that the capabilities
/// ask for, a seat has one exactly where it is capable of one, and asking again changes
/// nothing.
pub proof fn seat_has_the_pointer_it_can_have(
    has_pointer: bool,
    already: bool,
    step: SeatStep,
    again: SeatStep,
)
    requires
        call_ensures(seat_step, (has_pointer, already), step),
        call_ensures(
            seat_step,
            (has_pointer, step is Acquire || (step is Keep && already)),
            again,
        ),
    ensures
        (step is Acquire || (step is Keep && already)) == has_pointer,
        step is Acquire ==> !already,
        step is Release ==> already,
        again is Keep,
{
}

/// The place of the pointer is scaled as its output is: by the preferred scale in
/// 120ths where there is one, else by the whole one, and never down by a scale below
/// one.
pub proof fn pointer_scale_is_that_of_the_output(
    fractional_scale_120: u32,
    scale: i32,
    fraction: (u32, u32),
)
    requires
        call_ensures(pointer_scale, (fractional_scale_120, scale), fraction),
    ensures
        fraction.1 > 0,
        fractional_scale_120 > 0 ==> fraction.0 * 120 == fractional_scale_120 * fraction.1,
        fractional_scale_120 == 0 && scale >= 1 ==> fraction.0 == scale * fraction.1,
        fractional_scale_120 == 0 && scale < 1 ==> fraction.0 == fraction.1,
{
}

/// A pointer is on no output at first, so that nothing is sent on for it.
pub proof fn pointer_is_nowhere_at_first(
    fresh: PointerCtx,
    pointer: &mut PointerCtx,
    event: PointerEvent,
    action: PointerAction,
)
    requires
        call_ensures(PointerCtx::new, (), fresh),
        *old(pointer) == fresh,
        call_ensures(PointerCtx::handle, (pointer, event), action),
        event !is Enter,
    ensures
        fresh.focus_output is None,
        fresh.axis_source is Wheel,
        fresh.last_x.bits == 0,
        fresh.last_y.bits == 0,
        action is Ignore,
        final(pointer).focus_output is None,
{
}

} // verus!
