//! The whole run of the bridge, from the first driver check to the end of
//! the polling loop, as one state machine.
//!
//! Setup runs in a fixed order: the four checks of the handshake, bringing
//! up the HID transport, finding and opening the SpaceNavigator, putting it
//! into blocking mode, arming the cancellation handler, and last of all
//! taking the virtual device.  Any step that fails ends the run before the
//! device is taken.  Once the device is taken the polling loop runs until it
//! is cancelled or a read fails.

use vstd::prelude::*;
use crate::control::{ControlLoop, LoopAction, LoopEvent};
use crate::error::BridgeError;
use crate::handshake::{
    acquire_verdict,
    acquire_vjoy_device,
    passes_check,
    DriverQuery,
    DriverReply,
    Handshake,
    HandshakeAction,
    HandshakeStage,
};

verus! {

/// What came of the action that the bridge asked for.
#[derive(Clone, Copy, Debug)]
pub enum BridgeEvent {
    /// The driver answered a query of the handshake.
    Reply(DriverReply),
    /// The HID transport was brought up, or could not be.
    TransportOpened { opened: bool },
    /// The enumerated devices were searched for the SpaceNavigator: its
    /// place in the list, or `None` when the list holds none.
    Located { at: Option<usize> },
    /// The SpaceNavigator was opened, or could not be.
    DeviceOpened { opened: bool },
    /// The SpaceNavigator was put into blocking mode, or could not be.
    BlockingModeSet { set: bool },
    /// The cancellation handler is in place.
    CancellationArmed,
    /// The driver handed the virtual device over, or refused.
    Acquired { acquired: bool },
    /// Something came of an action of the polling loop.
    Loop(LoopEvent),
}

/// What the caller of the bridge is to do next.
#[derive(Clone, Copy, Debug, PartialEq, Eq, Structural)]
pub enum BridgeAction {
    /// Put this query to the driver and report its `Reply`.
    Ask(DriverQuery),
    /// Bring up the HID transport and report `TransportOpened`.
    OpenTransport,
    /// Search the enumerated devices for the SpaceNavigator and report
    /// `Located`.
    Locate,
    /// Open the device at this place of the list and report `DeviceOpened`.
    OpenDevice { at: usize },
    /// Put the opened SpaceNavigator into blocking mode and report
    /// `BlockingModeSet`.
    SetBlockingMode,
    /// Install the handler that releases the virtual device and clears the
    /// cancellation flag, and report `CancellationArmed`.
    ArmCancellation,
    /// Ask the driver for this virtual device and report `Acquired`.
    Acquire { device: u32 },
    /// Carry out this action of the polling loop and report it as `Loop`.
    Poll(LoopAction),
    /// Setup failed and no device was taken: end the run with this error.
    GiveUp(BridgeError),
}

/// How far the run has come.
#[derive(Clone, Copy, Debug, PartialEq, Eq, Structural)]
pub enum BridgePhase {
    Handshaking(Handshake),
    OpeningTransport,
    Locating,
    OpeningDevice { at: usize },
    SettingBlockingMode,
    ArmingCancellation,
    Acquiring,
    /// The device is taken and the polling loop is in charge.
    Running,
    /// Setup failed.  The run does not resume.
    Failed(BridgeError),
}

/// One run of the bridge.
#[derive(Clone, Copy, Debug, PartialEq, Eq, Structural)]
pub struct Bridge {
    pub phase: BridgePhase,
    /// The polling loop, which takes charge once the device is taken.
    pub control: ControlLoop,
}

/// The phase that a handshake leaves the run in: the next setup step when
/// it has passed, failure when it has failed, itself while it goes on.
pub open spec fn phase_of_handshake(handshake: Handshake) -> BridgePhase {
    match handshake.stage {
        HandshakeStage::Passed => BridgePhase::OpeningTransport,
        HandshakeStage::Failed(error) => BridgePhase::Failed(error),
        _ => BridgePhase::Handshaking(handshake),
    }
}

/// The phase that follows a setup step which either worked or failed with
/// `error`.
pub open spec fn phase_after(worked: bool, next: BridgePhase, error: BridgeError)
    -> BridgePhase {
    if worked {
        next
    } else {
        BridgePhase::Failed(error)
    }
}

impl Bridge {
    /// The run for virtual device `device` before its first step.
    pub open spec fn started(device: u8) -> Bridge {
        Bridge {
            phase: BridgePhase::Handshaking(Handshake::begun(device as u32)),
            control: ControlLoop::started(device),
        }
    }

    /// The virtual device this run is about.
    pub open spec fn device(self) -> u8 {
        self.control.state.device
    }

    /// The driver has handed the virtual device over.
    pub open spec fn has_acquired(self) -> bool {
        self.phase is Running
    }

    /// What holds of every run that `new` and `step` build.
    pub open spec fn wf(self) -> bool {
        &&& self.control.wf()
        &&& self.phase matches BridgePhase::Handshaking(handshake) ==> {
            &&& handshake.device == self.device()
            &&& handshake.pending_action() is Ask
        }
        &&& !(self.phase is Running) ==> self.control == ControlLoop::started(self.device())
    }

    /// What the caller is to do in this phase.
    pub open spec fn pending_action(self) -> BridgeAction {
        match self.phase {
            BridgePhase::Handshaking(handshake) => match handshake.pending_action() {
                HandshakeAction::Ask(query) => BridgeAction::Ask(query),
                HandshakeAction::Proceed => BridgeAction::OpenTransport,
                HandshakeAction::Stop(error) => BridgeAction::GiveUp(error),
            },
            BridgePhase::OpeningTransport => BridgeAction::OpenTransport,
            BridgePhase::Locating => BridgeAction::Locate,
            BridgePhase::OpeningDevice { at } => BridgeAction::OpenDevice { at },
            BridgePhase::SettingBlockingMode => BridgeAction::SetBlockingMode,
            BridgePhase::ArmingCancellation => BridgeAction::ArmCancellation,
            BridgePhase::Acquiring => BridgeAction::Acquire { device: self.device() as u32 },
            BridgePhase::Running => BridgeAction::Poll(self.control.pending_action()),
            BridgePhase::Failed(error) => BridgeAction::GiveUp(error),
        }
    }

    /// The run after `event` has come in.
    ///
    /// An event that answers the pending action moves the run on, or fails
    /// it.  Any other event changes nothing.
    pub open spec fn after(self, event: BridgeEvent) -> Bridge {
        match (self.phase, event) {
            (BridgePhase::Handshaking(handshake), BridgeEvent::Reply(reply)) => Bridge {
                phase: phase_of_handshake(handshake.after(reply)),
                ..self
            },
            (BridgePhase::OpeningTransport, BridgeEvent::TransportOpened { opened }) => Bridge {
                phase: phase_after(
                    opened,
                    BridgePhase::Locating,
                    BridgeError::TransportOpenFailed,
                ),
                ..self
            },
            (BridgePhase::Locating, BridgeEvent::Located { at }) => Bridge {
                phase: match at {
                    Some(at) => BridgePhase::OpeningDevice { at },
                    None => BridgePhase::Failed(BridgeError::DeviceNotFound),
                },
                ..self
            },
            (BridgePhase::OpeningDevice { .. }, BridgeEvent::DeviceOpened { opened }) => Bridge {
                phase: phase_after(
                    opened,
                    BridgePhase::SettingBlockingMode,
                    BridgeError::TransportOpenFailed,
                ),
                ..self
            },
            (BridgePhase::SettingBlockingMode, BridgeEvent::BlockingModeSet { set }) => Bridge {
                phase: phase_after(
                    set,
                    BridgePhase::ArmingCancellation,
                    BridgeError::BlockingModeSetFailed,
                ),
                ..self
            },
            (BridgePhase::ArmingCancellation, BridgeEvent::CancellationArmed) => Bridge {
                phase: BridgePhase::Acquiring,
                ..self
            },
            (BridgePhase::Acquiring, BridgeEvent::Acquired { acquired }) => Bridge {
                phase: match acquire_verdict(acquired) {
                    Ok(_) => BridgePhase::Running,
                    Err(error) => BridgePhase::Failed(error),
                },
                ..self
            },
            (BridgePhase::Running, BridgeEvent::Loop(event)) => Bridge {
                control: self.control.after(event),
                ..self
            },
            _ => self,
        }
    }

    /// The run after all of `events` have come in, first to last.
    pub open spec fn after_all(self, events: Seq<BridgeEvent>) -> Bridge
        decreases events.len(),
    {
        if events.len() == 0 {
            self
        } else {
            self.after(events.first()).after_all(events.drop_first())
        }
    }

    /// Starts a run for virtual device `device`.
    ///
    /// Device identifiers count from one, so zero names no device.
    pub fn new(device: u8) -> (made: Option<Bridge>)
        ensures
            device == 0 ==> made is None,
            device >= 1 ==> made == Some(Bridge::started(device)),
            made matches Some(bridge) ==> bridge.wf() && bridge.pending_action()
                == BridgeAction::Ask(DriverQuery::Enabled),
    {
        match ControlLoop::start(device) {
            Some(control) => {
                let handshake = Handshake::begin(device as u32);
                Some(Bridge { phase: BridgePhase::Handshaking(handshake), control })
            },
            None => None,
        }
    }

    /// Tells what is to be done next.
    pub fn pending(&self) -> (action: BridgeAction)
        ensures
            action == self.pending_action(),
    {
        match self.phase {
            BridgePhase::Handshaking(handshake) => match handshake.pending() {
                HandshakeAction::Ask(query) => BridgeAction::Ask(query),
                HandshakeAction::Proceed => BridgeAction::OpenTransport,
                HandshakeAction::Stop(error) => BridgeAction::GiveUp(error),
            },
            BridgePhase::OpeningTransport => BridgeAction::OpenTransport,
            BridgePhase::Locating => BridgeAction::Locate,
            BridgePhase::OpeningDevice { at } => BridgeAction::OpenDevice { at },
            BridgePhase::SettingBlockingMode => BridgeAction::SetBlockingMode,
            BridgePhase::ArmingCancellation => BridgeAction::ArmCancellation,
            BridgePhase::Acquiring => BridgeAction::Acquire {
                device: self.control.state.device as u32,
            },
            BridgePhase::Running => BridgeAction::Poll(self.control.pending()),
            BridgePhase::Failed(error) => BridgeAction::GiveUp(error),
        }
    }

    /// Takes what came of the last action and tells what is to be done next.
    ///
    /// Each setup step that works leads to the next; the first that fails
    /// ends the run with its error: the error of the check for a failed
    /// check of the handshake, `TransportOpenFailed` when the transport or
    /// the SpaceNavigator cannot be opened, `DeviceNotFound` when no
    /// SpaceNavigator is listed, `BlockingModeSetFailed` when blocking mode
    /// cannot be set, and `AcquireRefused` when the driver keeps the device.
    /// After the device is taken, events of the polling loop are handed to
    /// the loop.  An event that does not answer the pending action is
    /// ignored.
    pub fn step(&mut self, event: BridgeEvent) -> (action: BridgeAction)
        ensures
            *final(self) == old(self).after(event),
            action == final(self).pending_action(),
            old(self).wf() ==> final(self).wf(),
    {
        match (self.phase, event) {
            (BridgePhase::Handshaking(handshake), BridgeEvent::Reply(reply)) => {
                let mut handshake = handshake;
                handshake.answer(reply);
                self.phase = match handshake.stage {
                    HandshakeStage::Passed => BridgePhase::OpeningTransport,
                    HandshakeStage::Failed(error) => BridgePhase::Failed(error),
                    _ => BridgePhase::Handshaking(handshake),
                };
            },
            (BridgePhase::OpeningTransport, BridgeEvent::TransportOpened { opened }) => {
                self.phase = phase_reached(
                    opened,
                    BridgePhase::Locating,
                    BridgeError::TransportOpenFailed,
                );
            },
            (BridgePhase::Locating, BridgeEvent::Located { at }) => {
                self.phase = match at {
                    Some(at) => BridgePhase::OpeningDevice { at },
                    None => BridgePhase::Failed(BridgeError::DeviceNotFound),
                };
            },
            (BridgePhase::OpeningDevice { .. }, BridgeEvent::DeviceOpened { opened }) => {
                self.phase = phase_reached(
                    opened,
                    BridgePhase::SettingBlockingMode,
                    BridgeError::TransportOpenFailed,
                );
            },
            (BridgePhase::SettingBlockingMode, BridgeEvent::BlockingModeSet { set }) => {
                self.phase = phase_reached(
                    set,
                    BridgePhase::ArmingCancellation,
                    BridgeError::BlockingModeSetFailed,
                );
            },
            (BridgePhase::ArmingCancellation, BridgeEvent::CancellationArmed) => {
                self.phase = BridgePhase::Acquiring;
            },
            (BridgePhase::Acquiring, BridgeEvent::Acquired { acquired }) => {
                self.phase = match acquire_vjoy_device(acquired) {
                    Ok(_) => BridgePhase::Running,
                    Err(error) => BridgePhase::Failed(error),
                };
            },
            (BridgePhase::Running, BridgeEvent::Loop(event)) => {
                self.control.step(event);
            },
            _ => {},
        }
        self.pending()
    }
}

/// Turns the outcome of a setup step into the phase that follows it.
fn phase_reached(worked: bool, next: BridgePhase, error: BridgeError) -> (phase: BridgePhase)
    ensures
        phase == phase_after(worked, next, error),
{
    if worked {
        next
    } else {
        BridgePhase::Failed(error)
    }
}

/// The number of the setup step that a phase waits for, counted from zero;
/// ten once the device is taken.
pub open spec fn setup_step(phase: BridgePhase) -> int {
    match phase {
        BridgePhase::Handshaking(handshake) => match handshake.stage {
            HandshakeStage::AwaitingEnabled => 0,
            HandshakeStage::AwaitingVersions => 1,
            HandshakeStage::AwaitingCapabilities => 2,
            HandshakeStage::AwaitingStatus => 3,
            _ => 4,
        },
        BridgePhase::OpeningTransport => 4,
        BridgePhase::Locating => 5,
        BridgePhase::OpeningDevice { .. } => 6,
        BridgePhase::SettingBlockingMode => 7,
        BridgePhase::ArmingCancellation => 8,
        BridgePhase::Acquiring => 9,
        BridgePhase::Running => 10,
        BridgePhase::Failed(_) => 10,
    }
}

/// `event` reports that the setup step with this number worked.
pub open spec fn completes_step(event: BridgeEvent, step: int) -> bool {
    match event {
        BridgeEvent::Reply(reply) => 0 <= step <= 3 && passes_check(reply, step),
        BridgeEvent::TransportOpened { opened } => step == 4 && opened,
        BridgeEvent::Located { at } => step == 5 && at is Some,
        BridgeEvent::DeviceOpened { opened } => step == 6 && opened,
        BridgeEvent::BlockingModeSet { set } => step == 7 && set,
        BridgeEvent::CancellationArmed => step == 8,
        BridgeEvent::Acquired { acquired } => step == 9 && acquired,
        BridgeEvent::Loop(_) => false,
    }
}

/// `at` names, for each of the ten setup steps in turn, an event of
/// `events` that reports the step as having worked, each later in `events`
/// than the one before.
pub open spec fn completed_in_order(events: Seq<BridgeEvent>, at: Seq<int>) -> bool {
    &&& at.len() == 10
    &&& forall|k: int|
        0 <= k < 10 ==> 0 <= #[trigger] at[k] < events.len() && completes_step(events[at[k]], k)
    &&& forall|j: int, k: int| 0 <= j < k < 10 ==> #[trigger] at[j] < #[trigger] at[k]
}

/// A failed setup is final: the run stays failed with the same error,
/// asks for nothing more, and never takes the device.
pub proof fn setup_failure_is_final(bridge: Bridge, later: Seq<BridgeEvent>)
    requires
        bridge.phase is Failed,
    ensures
        bridge.after_all(later) == bridge,
        bridge.pending_action() == BridgeAction::GiveUp(bridge.phase->Failed_0),
        !bridge.after_all(later).has_acquired(),
    decreases later.len(),
{
    if later.len() > 0 {
        setup_failure_is_final(bridge, later.drop_first());
    }
}

/// Once the device is taken the run is past setup: it can no longer fail
/// setup, and every action it asks for is one of the polling loop.
pub proof fn acquired_stays_acquired(bridge: Bridge, later: Seq<BridgeEvent>)
    requires
        bridge.has_acquired(),
    ensures
        bridge.after_all(later).has_acquired(),
        bridge.after_all(later).pending_action() is Poll,
    decreases later.len(),
{
    if later.len() > 0 {
        acquired_stays_acquired(bridge.after(later.first()), later.drop_first());
    }
}

/// When the driver is not enabled the run ends at the first check: no other
/// check runs, the transport is not touched and the device is never taken.
pub proof fn unavailable_driver_ends_the_run(device: u8, later: Seq<BridgeEvent>)
    ensures
        ({
            let failed = Bridge::started(device).after(
                BridgeEvent::Reply(DriverReply::Enabled { enabled: false }),
            );
            &&& Bridge::started(device).pending_action() == BridgeAction::Ask(
                DriverQuery::Enabled,
            )
            &&& failed.phase == BridgePhase::Failed(BridgeError::DriverUnavailable)
            &&& failed.after_all(later) == failed
            &&& failed.after_all(later).pending_action() == BridgeAction::GiveUp(
                BridgeError::DriverUnavailable,
            )
        }),
{
    let failed = Bridge::started(device).after(
        BridgeEvent::Reply(DriverReply::Enabled { enabled: false }),
    );
    setup_failure_is_final(failed, later);
}

/// A cancelled run is over: it keeps the joystick state it had and only
/// ever asks to exit.
pub proof fn cancelled_run_is_over(bridge: Bridge, later: Seq<BridgeEvent>)
    requires
        bridge.has_acquired(),
        bridge.control.phase is Stopped,
    ensures
        bridge.after_all(later) == bridge,
        bridge.pending_action() == BridgeAction::Poll(LoopAction::Exit),
    decreases later.len(),
{
    if later.len() > 0 {
        cancelled_run_is_over(bridge, later.drop_first());
    }
}

/// Whatever comes in, a well-formed run stays well formed and stays with
/// its device; until the device is taken the joystick state is untouched.
pub proof fn run_stays_well_formed(bridge: Bridge, events: Seq<BridgeEvent>)
    requires
        bridge.wf(),
    ensures
        bridge.after_all(events).wf(),
        bridge.after_all(events).device() == bridge.device(),
    decreases events.len(),
{
    if events.len() > 0 {
        let event = events.first();
        if bridge.phase is Running && event is Loop {
            crate::control::loop_keeps_its_state_well_formed(
                bridge.control,
                seq![event->Loop_0],
            );
            assert(seq![event->Loop_0].drop_first().len() == 0);
        }
        run_stays_well_formed(bridge.after(event), events.drop_first());
    }
}

/// The replies of the driver as events of the run.
pub open spec fn as_events(replies: Seq<DriverReply>) -> Seq<BridgeEvent> {
    Seq::new(replies.len(), |at: int| BridgeEvent::Reply(replies[at]))
}

/// Once the handshake is over, replies of the driver change nothing.
proof fn replies_come_too_late(bridge: Bridge, replies: Seq<DriverReply>)
    requires
        !(bridge.phase is Handshaking),
    ensures
        bridge.after_all(as_events(replies)) == bridge,
    decreases replies.len(),
{
    if replies.len() > 0 {
        assert(as_events(replies).drop_first() == as_events(replies.drop_first()));
        replies_come_too_late(bridge, replies.drop_first());
    }
}

proof fn run_follows_the_handshake(bridge: Bridge, replies: Seq<DriverReply>)
    requires
        bridge.phase is Handshaking,
        handshake_goes_on(bridge),
    ensures
        bridge.after_all(as_events(replies)) == (Bridge {
            phase: phase_of_handshake(bridge.phase->Handshaking_0.after_all(replies)),
            ..bridge
        }),
    decreases replies.len(),
{
    if replies.len() > 0 {
        let handshake = bridge.phase->Handshaking_0;
        let next = bridge.after(BridgeEvent::Reply(replies.first()));
        let rest = replies.drop_first();
        assert(as_events(replies).drop_first() == as_events(rest));
        assert(as_events(replies).first() == BridgeEvent::Reply(replies.first()));
        if next.phase is Handshaking {
            run_follows_the_handshake(next, rest);
        } else {
            replies_come_too_late(next, rest);
            if handshake.after(replies.first()).stage is Passed {
                crate::handshake::pass_is_final(handshake.after(replies.first()), rest);
            } else {
                crate::handshake::failure_is_final(handshake.after(replies.first()), rest);
            }
        }
    }
}

/// A run begins as a handshake: fed the driver's replies, it stands where
/// the handshake about its device stands after the same replies, and the
/// joystick state is still untouched.
pub proof fn run_begins_with_the_handshake(device: u8, replies: Seq<DriverReply>)
    ensures
        Bridge::started(device).after_all(as_events(replies)) == (Bridge {
            phase: phase_of_handshake(Handshake::begun(device as u32).after_all(replies)),
            control: ControlLoop::started(device),
        }),
{
    run_follows_the_handshake(Bridge::started(device), replies);
}

/// `error` is one that the setup step with this number fails with.
pub open spec fn error_of_step(error: BridgeError, step: int) -> bool {
    match error {
        BridgeError::DriverUnavailable => step == 0,
        BridgeError::VersionMismatch { .. } => step == 1,
        BridgeError::CapabilityMismatch => step == 2,
        BridgeError::DeviceBusy => step == 3,
        BridgeError::DeviceMissing => step == 3,
        BridgeError::DeviceStatusUnknown => step == 3,
        BridgeError::TransportOpenFailed => step == 4 || step == 6,
        BridgeError::DeviceNotFound => step == 5,
        BridgeError::BlockingModeSetFailed => step == 7,
        BridgeError::AcquireRefused => step == 9,
        BridgeError::FatalReadError => false,
    }
}

/// The error of a failed setup names the step that failed: the run fails
/// only at the step it was waiting for, and with an error of that step.
pub proof fn setup_error_names_its_step(bridge: Bridge, event: BridgeEvent)
    requires
        bridge.wf(),
        !(bridge.phase is Failed),
        bridge.after(event).phase is Failed,
    ensures
        error_of_step(bridge.after(event).phase->Failed_0, setup_step(bridge.phase)),
        !completes_step(event, setup_step(bridge.phase)),
{
}

/// A handshake inside a run is one that still has a query to ask.
spec fn handshake_goes_on(bridge: Bridge) -> bool {
    bridge.phase matches BridgePhase::Handshaking(handshake) ==> handshake.pending_action() is Ask
}

/// One event moves a run that has not failed by one setup step at most, and
/// only when it reports that step as having worked.
proof fn event_moves_one_step_at_most(bridge: Bridge, event: BridgeEvent)
    requires
        handshake_goes_on(bridge),
    ensures
        ({
            let next = bridge.after(event);
            let step = setup_step(bridge.phase);
            &&& handshake_goes_on(next)
            &&& {
                ||| next.phase is Failed
                ||| setup_step(next.phase) == step
                ||| setup_step(next.phase) == step + 1 && completes_step(event, step)
            }
        }),
{
}

proof fn setup_witness(bridge: Bridge, events: Seq<BridgeEvent>) -> (at: Seq<int>)
    requires
        handshake_goes_on(bridge),
        !(bridge.phase is Failed),
        bridge.after_all(events).has_acquired(),
    ensures
        at.len() == 10 - setup_step(bridge.phase),
        forall|k: int|
            0 <= k < at.len() ==> 0 <= #[trigger] at[k] < events.len() && completes_step(
                events[at[k]],
                setup_step(bridge.phase) + k,
            ),
        forall|j: int, k: int| 0 <= j < k < at.len() ==> #[trigger] at[j] < #[trigger] at[k],
    decreases events.len(),
{
    if bridge.phase is Running || events.len() == 0 {
        Seq::empty()
    } else {
        let next = bridge.after(events.first());
        let rest = events.drop_first();
        event_moves_one_step_at_most(bridge, events.first());
        if next.phase is Failed {
            setup_failure_is_final(next, rest);
            Seq::empty()
        } else {
            let found = setup_witness(next, rest);
            let shifted = Seq::new(found.len(), |k: int| found[k] + 1);
            assert forall|k: int| 0 <= k < shifted.len() implies events[#[trigger] shifted[k]]
                == rest[found[k]] by {}
            if setup_step(next.phase) == setup_step(bridge.phase) {
                shifted
            } else {
                let at = seq![0int].add(shifted);
                assert forall|k: int| 0 <= k < at.len() implies 0 <= #[trigger] at[k]
                    < events.len() && completes_step(
                    events[at[k]],
                    setup_step(bridge.phase) + k,
                ) by {
                    if k > 0 {
                        assert(at[k] == shifted[k - 1]);
                    }
                }
                assert forall|j: int, k: int| 0 <= j < k < at.len() implies #[trigger] at[j]
                    < #[trigger] at[k] by {
                    assert(at[k] == shifted[k - 1]);
                    if j > 0 {
                        assert(at[j] == shifted[j - 1]);
                    }
                }
                at
            }
        }
    }
}

/// The device is taken last: a run that has taken the device was told, in
/// this order, that each of the four checks passed, that the transport came
/// up, that the SpaceNavigator was found, opened and put into blocking mode,
/// that the cancellation handler is in place, and that the driver handed the
/// device over.
pub proof fn acquiring_needs_every_step(device: u8, events: Seq<BridgeEvent>)
    requires
        Bridge::started(device).after_all(events).has_acquired(),
    ensures
        exists|at: Seq<int>| completed_in_order(events, at),
{
    let at = setup_witness(Bridge::started(device), events);
    assert(completed_in_order(events, at));
}

} // verus!
