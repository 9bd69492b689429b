//! The polling loop of the bridge, as a state machine.
//!
//! One turn of the loop looks at the cancellation flag, blocks on a read of
//! the SpaceNavigator, applies the frame to the joystick state and pushes the
//! state to the driver.  The machine decides; the caller carries out each
//! action and hands back what came of it.

use vstd::prelude::*;
use crate::error::BridgeError;
use crate::report::{apply_report, translated, RawReport};
use crate::state::JoystickState;

verus! {

/// What came of the action that the loop asked for.
#[derive(Clone, Copy, Debug)]
pub enum LoopEvent {
    /// The cancellation flag was read: `running` is its value.
    Observed { running: bool },
    /// The blocking read returned this frame.
    Frame(RawReport),
    /// The blocking read failed.
    ReadFailed,
    /// The state was handed to the driver.
    Pushed,
}

/// What the caller of the loop is to do next.
#[derive(Clone, Copy, Debug, PartialEq, Eq, Structural)]
pub enum LoopAction {
    /// Read the cancellation flag and report it as `Observed`.
    Observe,
    /// Block on a read of the SpaceNavigator and report `Frame` or
    /// `ReadFailed`.
    Read,
    /// Hand this state to the driver and report `Pushed`.
    Push(JoystickState),
    /// Cancellation was seen: leave the loop.
    Exit,
    /// The loop cannot go on: end the process with this error.
    Abort(BridgeError),
}

/// Where in its turn the loop stands.
#[derive(Clone, Copy, Debug, PartialEq, Eq, Structural)]
pub enum LoopPhase {
    /// About to look at the cancellation flag.
    Observing,
    /// Waiting for the blocking read.
    Reading,
    /// Waiting for the driver to take the state.
    Pushing,
    /// Cancelled.  The loop does not resume.
    Stopped,
    /// A read failed.  The loop does not resume.
    Aborted,
}

/// The polling loop and the joystick state it owns.
#[derive(Clone, Copy, Debug, PartialEq, Eq, Structural)]
pub struct ControlLoop {
    pub phase: LoopPhase,
    pub state: JoystickState,
}

impl ControlLoop {
    /// The loop for virtual device `device` before its first turn.
    pub open spec fn started(device: u8) -> ControlLoop {
        ControlLoop { phase: LoopPhase::Observing, state: JoystickState::initial(device) }
    }

    /// The state the loop owns is well formed.
    pub open spec fn wf(self) -> bool {
        self.state.wf()
    }

    /// What the caller is to do in this phase.
    pub open spec fn pending_action(self) -> LoopAction {
        match self.phase {
            LoopPhase::Observing => LoopAction::Observe,
            LoopPhase::Reading => LoopAction::Read,
            LoopPhase::Pushing => LoopAction::Push(self.state),
            LoopPhase::Stopped => LoopAction::Exit,
            LoopPhase::Aborted => LoopAction::Abort(BridgeError::FatalReadError),
        }
    }

    /// The loop after `event` has come in.
    ///
    /// An event that answers the pending action moves the loop on.  Any
    /// other event changes nothing.
    pub open spec fn after(self, event: LoopEvent) -> ControlLoop {
        match (self.phase, event) {
            (LoopPhase::Observing, LoopEvent::Observed { running }) => ControlLoop {
                phase: if running {
                    LoopPhase::Reading
                } else {
                    LoopPhase::Stopped
                },
                ..self
            },
            (LoopPhase::Reading, LoopEvent::Frame(frame)) => ControlLoop {
                phase: LoopPhase::Pushing,
                state: translated(self.state, frame@),
            },
            (LoopPhase::Reading, LoopEvent::ReadFailed) => ControlLoop {
                phase: LoopPhase::Aborted,
                ..self
            },
            (LoopPhase::Pushing, LoopEvent::Pushed) => ControlLoop {
                phase: LoopPhase::Observing,
                ..self
            },
            _ => self,
        }
    }

    /// The loop after all of `events` have come in, first to last.
    pub open spec fn after_all(self, events: Seq<LoopEvent>) -> ControlLoop
        decreases events.len(),
    {
        if events.len() == 0 {
            self
        } else {
            self.after(events.first()).after_all(events.drop_first())
        }
    }

    /// Makes the loop for virtual device `device`, with an all-zero state.
    ///
    /// Device identifiers count from one, so zero names no device.
    pub fn start(device: u8) -> (made: Option<ControlLoop>)
        ensures
            device == 0 ==> made is None,
            device >= 1 ==> made == Some(ControlLoop::started(device)),
            made matches Some(control) ==> control.wf(),
    {
        match JoystickState::new(device) {
            Some(state) => Some(ControlLoop { phase: LoopPhase::Observing, state }),
            None => None,
        }
    }

    /// Tells what is to be done next.
    pub fn pending(&self) -> (action: LoopAction)
        ensures
            action == self.pending_action(),
    {
        match self.phase {
            LoopPhase::Observing => LoopAction::Observe,
            LoopPhase::Reading => LoopAction::Read,
            LoopPhase::Pushing => LoopAction::Push(self.state),
            LoopPhase::Stopped => LoopAction::Exit,
            LoopPhase::Aborted => LoopAction::Abort(BridgeError::FatalReadError),
        }
    }

    /// Takes what came of the last action and tells what is to be done next.
    ///
    /// While the flag reads `true` the loop goes on to read; once it reads
    /// `false` the loop stops for good.  A frame is applied to the state,
    /// which is then to be pushed.  A failed read aborts the loop with
    /// `FatalReadError`.  An event that does not answer the pending action
    /// is ignored.
    pub fn step(&mut self, event: LoopEvent) -> (action: LoopAction)
        ensures
            *final(self) == old(self).after(event),
            action == final(self).pending_action(),
            old(self).wf() ==> final(self).wf(),
    {
        match (self.phase, event) {
            (LoopPhase::Observing, LoopEvent::Observed { running }) => {
                if running {
                    self.phase = LoopPhase::Reading;
                } else {
                    self.phase = LoopPhase::Stopped;
                }
            },
            (LoopPhase::Reading, LoopEvent::Frame(frame)) => {
                apply_report(&mut self.state, &frame);
                self.phase = LoopPhase::Pushing;
            },
            (LoopPhase::Reading, LoopEvent::ReadFailed) => {
                self.phase = LoopPhase::Aborted;
            },
            (LoopPhase::Pushing, LoopEvent::Pushed) => {
                self.phase = LoopPhase::Observing;
            },
            _ => {},
        }
        self.pending()
    }
}

/// The events of one full turn of the loop in which `frame` is read.
pub open spec fn turn(frame: RawReport) -> Seq<LoopEvent> {
    seq![LoopEvent::Observed { running: true }, LoopEvent::Frame(frame), LoopEvent::Pushed]
}

/// The events of one full turn for each of `frames`, first to last.
pub open spec fn turns(frames: Seq<RawReport>) -> Seq<LoopEvent>
    decreases frames.len(),
{
    if frames.len() == 0 {
        Seq::empty()
    } else {
        turn(frames.first()) + turns(frames.drop_first())
    }
}

/// The state after `frames` have been applied to `state`, first to last.
pub open spec fn fed(state: JoystickState, frames: Seq<RawReport>) -> JoystickState
    decreases frames.len(),
{
    if frames.len() == 0 {
        state
    } else {
        fed(translated(state, frames.first()@), frames.drop_first())
    }
}

/// Events may be handed over in two batches or in one.
pub proof fn events_can_be_split(
    control: ControlLoop,
    first: Seq<LoopEvent>,
    second: Seq<LoopEvent>,
)
    ensures
        control.after_all(first + second) == control.after_all(first).after_all(second),
    decreases first.len(),
{
    if first.len() == 0 {
        assert(first + second == second);
    } else {
        assert((first + second).drop_first() == first.drop_first() + second);
        events_can_be_split(control.after(first.first()), first.drop_first(), second);
    }
}

/// One turn of the loop: the frame that is read is applied to the state,
/// the state that results is the one to be pushed, and the loop is back at
/// looking at the flag.
pub proof fn turn_pushes_the_translated_state(control: ControlLoop, frame: RawReport)
    requires
        control.phase is Observing,
    ensures
        ({
            let reading = control.after(LoopEvent::Observed { running: true });
            let pushing = reading.after(LoopEvent::Frame(frame));
            &&& reading.pending_action() == LoopAction::Read
            &&& pushing.pending_action() == LoopAction::Push(translated(control.state, frame@))
            &&& control.after_all(turn(frame)) == (ControlLoop {
                phase: LoopPhase::Observing,
                state: translated(control.state, frame@),
            })
        }),
{
    let events = turn(frame);
    let reading = control.after(events[0]);
    let pushing = reading.after(events[1]);
    let observing = pushing.after(events[2]);
    assert(events.drop_first().drop_first().drop_first().len() == 0);
    assert(events.drop_first().first() == events[1]);
    assert(events.drop_first().drop_first().first() == events[2]);
    assert(observing.after_all(events.drop_first().drop_first().drop_first()) == observing);
    assert(pushing.after_all(events.drop_first().drop_first()) == observing);
    assert(reading.after_all(events.drop_first()) == observing);
}

/// While the flag stays set, the loop keeps the joystick state in step with
/// the frames: after a turn for each of `frames` the state is that of the
/// translator applied to them in order.
pub proof fn loop_follows_the_frames(control: ControlLoop, frames: Seq<RawReport>)
    requires
        control.phase is Observing,
    ensures
        control.after_all(turns(frames)) == (ControlLoop {
            phase: LoopPhase::Observing,
            state: fed(control.state, frames),
        }),
    decreases frames.len(),
{
    if frames.len() > 0 {
        turn_pushes_the_translated_state(control, frames.first());
        events_can_be_split(control, turn(frames.first()), turns(frames.drop_first()));
        loop_follows_the_frames(control.after_all(turn(frames.first())), frames.drop_first());
    }
}

/// Cancellation is final: a stopped loop stays stopped, keeps its state and
/// only ever asks to exit, whatever comes in afterwards.
pub proof fn cancellation_is_final(control: ControlLoop, later: Seq<LoopEvent>)
    requires
        control.phase is Stopped,
    ensures
        control.after_all(later) == control,
        control.pending_action() == LoopAction::Exit,
    decreases later.len(),
{
    if later.len() > 0 {
        cancellation_is_final(control, later.drop_first());
    }
}

/// Once the flag has been seen to be `false` it is never taken to be `true`
/// again: the loop stops, and a later `Observed { running: true }` does not
/// bring it back.
pub proof fn cleared_flag_is_never_seen_set_again(control: ControlLoop, later: Seq<LoopEvent>)
    requires
        control.phase is Observing,
    ensures
        ({
            let stopped = control.after(LoopEvent::Observed { running: false });
            &&& stopped.phase is Stopped
            &&& stopped.state == control.state
            &&& stopped.after_all(later) == stopped
            &&& stopped.after_all(later).pending_action() == LoopAction::Exit
        }),
{
    cancellation_is_final(control.after(LoopEvent::Observed { running: false }), later);
}

/// A failed read is final: an aborted loop stays aborted.
pub proof fn read_failure_is_final(control: ControlLoop, later: Seq<LoopEvent>)
    requires
        control.phase is Aborted,
    ensures
        control.after_all(later) == control,
        control.pending_action() == LoopAction::Abort(BridgeError::FatalReadError),
    decreases later.len(),
{
    if later.len() > 0 {
        read_failure_is_final(control, later.drop_first());
    }
}

/// The flag is looked at in one place only: at the head of a turn, after
/// the push of the turn before and ahead of the next read.  In every other
/// phase an `Observed` event changes nothing.
pub proof fn flag_is_observed_at_one_point(control: ControlLoop, running: bool)
    requires
        !(control.phase is Observing),
    ensures
        control.after(LoopEvent::Observed { running }) == control,
{
}

/// Only a frame that was waited for changes the joystick state, and it
/// changes it as the translator says.
pub proof fn only_frames_change_the_state(control: ControlLoop, event: LoopEvent)
    ensures
        control.after(event).state == (if control.phase is Reading && event is Frame {
            translated(control.state, event->Frame_0@)
        } else {
            control.state
        }),
{
}

/// Whatever comes in, the loop keeps a well-formed state for the device it
/// was started with.
pub proof fn loop_keeps_its_state_well_formed(control: ControlLoop, events: Seq<LoopEvent>)
    requires
        control.wf(),
    ensures
        control.after_all(events).wf(),
        control.after_all(events).state.device == control.state.device,
    decreases events.len(),
{
    if events.len() > 0 {
        let event = events.first();
        if control.phase is Reading && event is Frame {
            crate::report::report_keeps_state_well_formed(control.state, event->Frame_0@);
        }
        loop_keeps_its_state_well_formed(control.after(event), events.drop_first());
    }
}

} // verus!
