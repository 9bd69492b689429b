//! The checks that the virtual joystick driver must pass before the bridge
//! takes a device, and the order in which they run.
//!
//! Each check judges one answer of the driver.  `Handshake` strings them
//! together: it names the query to put to the driver, takes the reply, and
//! either moves on to the next query, passes, or fails for good.

use vstd::prelude::*;
use crate::error::BridgeError;

verus! {

/// Number of buttons the translator drives, and so the number the virtual
/// device must have.
pub const REQUIRED_BUTTONS: i32 = 2;

/// What the virtual device offers: which of the six axes it has, and how
/// many buttons.
#[derive(Clone, Copy, Debug, PartialEq, Eq, Structural)]
pub struct DeviceCapabilities {
    pub axis_x: bool,
    pub axis_y: bool,
    pub axis_z: bool,
    pub axis_rx: bool,
    pub axis_ry: bool,
    pub axis_rz: bool,
    pub buttons: i32,
}

/// Who holds the virtual device.
#[derive(Clone, Copy, Debug, PartialEq, Eq, Structural)]
pub enum HandshakeStatus {
    /// This process already owns the device.
    Owned,
    /// Nobody owns the device.
    Free,
    /// Another process owns the device.
    Busy,
    /// The device is not installed or is disabled.
    Missing,
    /// The driver reported an error.
    Unknown,
}

impl DeviceCapabilities {
    /// The device has the three translation axes, the three rotation axes
    /// and exactly two buttons.
    pub open spec fn matches_hardware(self) -> bool {
        &&& self.axis_x
        &&& self.axis_y
        &&& self.axis_z
        &&& self.axis_rx
        &&& self.axis_ry
        &&& self.axis_rz
        &&& self.buttons == REQUIRED_BUTTONS
    }
}

/// The verdict on whether the driver is installed and enabled.
pub open spec fn enabled_verdict(enabled: bool) -> Result<(), BridgeError> {
    if enabled {
        Ok(())
    } else {
        Err(BridgeError::DriverUnavailable)
    }
}

/// The verdict on the versions of client library and driver.
pub open spec fn versions_verdict(matching: bool, installed: u16, library: u16) -> Result<
    (),
    BridgeError,
> {
    if matching {
        Ok(())
    } else {
        Err(BridgeError::VersionMismatch { installed, library })
    }
}

/// The verdict on what the virtual device offers.
pub open spec fn capabilities_verdict(capabilities: DeviceCapabilities) -> Result<
    (),
    BridgeError,
> {
    if capabilities.matches_hardware() {
        Ok(())
    } else {
        Err(BridgeError::CapabilityMismatch)
    }
}

/// The verdict on who holds the virtual device.
pub open spec fn status_verdict(status: HandshakeStatus) -> Result<(), BridgeError> {
    match status {
        HandshakeStatus::Owned => Ok(()),
        HandshakeStatus::Free => Ok(()),
        HandshakeStatus::Busy => Err(BridgeError::DeviceBusy),
        HandshakeStatus::Missing => Err(BridgeError::DeviceMissing),
        HandshakeStatus::Unknown => Err(BridgeError::DeviceStatusUnknown),
    }
}

/// The verdict on an attempt to take the virtual device.
pub open spec fn acquire_verdict(acquired: bool) -> Result<(), BridgeError> {
    if acquired {
        Ok(())
    } else {
        Err(BridgeError::AcquireRefused)
    }
}

/// Judges the driver's answer to "are you installed and enabled?".
///
/// Passes when the driver is enabled and fails with `DriverUnavailable`
/// when it is not.
pub fn check_vjoy_enabled(enabled: bool) -> (verdict: Result<(), BridgeError>)
    ensures
        verdict == enabled_verdict(enabled),
        verdict is Ok <==> enabled,
{
    if enabled {
        Ok(())
    } else {
        Err(BridgeError::DriverUnavailable)
    }
}

/// Judges the driver's comparison of its own version with the client
/// library's.
///
/// The driver's comparison decides: the check passes when `matching` holds
/// and fails with `VersionMismatch`, carrying both versions, when it does
/// not.
pub fn check_vjoy_versions(matching: bool, installed: u16, library: u16) -> (verdict: Result<
    (),
    BridgeError,
>)
    ensures
        verdict == versions_verdict(matching, installed, library),
        verdict is Ok <==> matching,
{
    if matching {
        Ok(())
    } else {
        Err(BridgeError::VersionMismatch { installed, library })
    }
}

/// Judges what the virtual device offers against what the hardware sends.
///
/// Passes when all six axes are present and the device has exactly two
/// buttons, and fails with `CapabilityMismatch` otherwise.
pub fn check_vjoy_axis(capabilities: &DeviceCapabilities) -> (verdict: Result<(), BridgeError>)
    ensures
        verdict == capabilities_verdict(*capabilities),
        verdict is Ok <==> capabilities.matches_hardware(),
{
    if capabilities.axis_x && capabilities.axis_y && capabilities.axis_z && capabilities.axis_rx
        && capabilities.axis_ry && capabilities.axis_rz && capabilities.buttons
        == REQUIRED_BUTTONS {
        Ok(())
    } else {
        Err(BridgeError::CapabilityMismatch)
    }
}

/// Judges who holds the virtual device.
///
/// Passes when the device is free or already owned by this process.  Fails
/// with `DeviceBusy` when another process owns it, with `DeviceMissing`
/// when it is not installed, and with `DeviceStatusUnknown` when the driver
/// reported an error.
pub fn check_vjoy_status(status: HandshakeStatus) -> (verdict: Result<(), BridgeError>)
    ensures
        verdict == status_verdict(status),
        verdict is Ok <==> (status == HandshakeStatus::Owned || status == HandshakeStatus::Free),
{
    match status {
        HandshakeStatus::Owned => Ok(()),
        HandshakeStatus::Free => Ok(()),
        HandshakeStatus::Busy => Err(BridgeError::DeviceBusy),
        HandshakeStatus::Missing => Err(BridgeError::DeviceMissing),
        HandshakeStatus::Unknown => Err(BridgeError::DeviceStatusUnknown),
    }
}

/// Judges the driver's answer to the request for the virtual device.
///
/// Passes when the driver handed the device over and fails with
/// `AcquireRefused` when it did not.
pub fn acquire_vjoy_device(acquired: bool) -> (verdict: Result<(), BridgeError>)
    ensures
        verdict == acquire_verdict(acquired),
        verdict is Ok <==> acquired,
{
    if acquired {
        Ok(())
    } else {
        Err(BridgeError::AcquireRefused)
    }
}

/// A question that the handshake puts to the driver.
#[derive(Clone, Copy, Debug, PartialEq, Eq, Structural)]
pub enum DriverQuery {
    /// Is the driver installed and enabled?
    Enabled,
    /// Do the versions of client library and driver match?
    Versions,
    /// Which axes and how many buttons does this virtual device have?
    Capabilities { device: u32 },
    /// Who holds this virtual device?
    Status { device: u32 },
}

/// The driver's answer to a `DriverQuery`.
#[derive(Clone, Copy, Debug, PartialEq, Eq, Structural)]
pub enum DriverReply {
    Enabled { enabled: bool },
    Versions { matching: bool, installed: u16, library: u16 },
    Capabilities { capabilities: DeviceCapabilities },
    Status { status: HandshakeStatus },
}

/// How far the handshake has come.
#[derive(Clone, Copy, Debug, PartialEq, Eq, Structural)]
pub enum HandshakeStage {
    AwaitingEnabled,
    AwaitingVersions,
    AwaitingCapabilities,
    AwaitingStatus,
    /// All four checks passed.
    Passed,
    /// A check failed; no later check ran.
    Failed(BridgeError),
}

/// What the caller of the handshake is to do next.
#[derive(Clone, Copy, Debug, PartialEq, Eq, Structural)]
pub enum HandshakeAction {
    /// Put this query to the driver and hand the reply to `answer`.
    Ask(DriverQuery),
    /// The driver passed every check: go on with the setup.
    Proceed,
    /// The driver failed a check: give up with this error.
    Stop(BridgeError),
}

/// The handshake with the driver about one virtual device.
///
/// The checks run in a fixed order: driver enabled, versions, capabilities,
/// status.  The first that fails ends the handshake.
#[derive(Clone, Copy, Debug, PartialEq, Eq, Structural)]
pub struct Handshake {
    pub device: u32,
    pub stage: HandshakeStage,
}

/// The stage that follows a check: `next` when it passed, failure when not.
pub open spec fn stage_after(verdict: Result<(), BridgeError>, next: HandshakeStage)
    -> HandshakeStage {
    match verdict {
        Ok(_) => next,
        Err(error) => HandshakeStage::Failed(error),
    }
}

/// `reply` is a passing answer to the check with this number, counted from
/// zero in the order in which the checks run.
pub open spec fn passes_check(reply: DriverReply, check: int) -> bool {
    match reply {
        DriverReply::Enabled { enabled } => check == 0 && enabled,
        DriverReply::Versions { matching, .. } => check == 1 && matching,
        DriverReply::Capabilities { capabilities } => check == 2
            && capabilities.matches_hardware(),
        DriverReply::Status { status } => check == 3 && status_verdict(status) is Ok,
    }
}

impl Handshake {
    /// A handshake about `device` in which no check has run yet.
    pub open spec fn begun(device: u32) -> Handshake {
        Handshake { device, stage: HandshakeStage::AwaitingEnabled }
    }

    /// What the caller is to do in this stage.
    pub open spec fn pending_action(self) -> HandshakeAction {
        match self.stage {
            HandshakeStage::AwaitingEnabled => HandshakeAction::Ask(DriverQuery::Enabled),
            HandshakeStage::AwaitingVersions => HandshakeAction::Ask(DriverQuery::Versions),
            HandshakeStage::AwaitingCapabilities => HandshakeAction::Ask(
                DriverQuery::Capabilities { device: self.device },
            ),
            HandshakeStage::AwaitingStatus => HandshakeAction::Ask(
                DriverQuery::Status { device: self.device },
            ),
            HandshakeStage::Passed => HandshakeAction::Proceed,
            HandshakeStage::Failed(error) => HandshakeAction::Stop(error),
        }
    }

    /// The handshake after `reply` has come in.
    ///
    /// A reply that answers the pending query is judged, and the handshake
    /// moves on or fails.  Any other reply changes nothing.
    pub open spec fn after(self, reply: DriverReply) -> Handshake {
        match (self.stage, reply) {
            (HandshakeStage::AwaitingEnabled, DriverReply::Enabled { enabled }) => Handshake {
                stage: stage_after(enabled_verdict(enabled), HandshakeStage::AwaitingVersions),
                ..self
            },
            (
                HandshakeStage::AwaitingVersions,
                DriverReply::Versions { matching, installed, library },
            ) => Handshake {
                stage: stage_after(
                    versions_verdict(matching, installed, library),
                    HandshakeStage::AwaitingCapabilities,
                ),
                ..self
            },
            (
                HandshakeStage::AwaitingCapabilities,
                DriverReply::Capabilities { capabilities },
            ) => Handshake {
                stage: stage_after(
                    capabilities_verdict(capabilities),
                    HandshakeStage::AwaitingStatus,
                ),
                ..self
            },
            (HandshakeStage::AwaitingStatus, DriverReply::Status { status }) => Handshake {
                stage: stage_after(status_verdict(status), HandshakeStage::Passed),
                ..self
            },
            _ => self,
        }
    }

    /// The handshake after all of `replies` have come in, first to last.
    pub open spec fn after_all(self, replies: Seq<DriverReply>) -> Handshake
        decreases replies.len(),
    {
        if replies.len() == 0 {
            self
        } else {
            self.after(replies.first()).after_all(replies.drop_first())
        }
    }

    /// Starts the handshake about virtual device `device`.
    pub fn begin(device: u32) -> (handshake: Handshake)
        ensures
            handshake == Handshake::begun(device),
            handshake.pending_action() == HandshakeAction::Ask(DriverQuery::Enabled),
    {
        Handshake { device, stage: HandshakeStage::AwaitingEnabled }
    }

    /// Tells what is to be done next: a query to put to the driver, or the
    /// end of the handshake.
    pub fn pending(&self) -> (action: HandshakeAction)
        ensures
            action == self.pending_action(),
    {
        match self.stage {
            HandshakeStage::AwaitingEnabled => HandshakeAction::Ask(DriverQuery::Enabled),
            HandshakeStage::AwaitingVersions => HandshakeAction::Ask(DriverQuery::Versions),
            HandshakeStage::AwaitingCapabilities => HandshakeAction::Ask(
                DriverQuery::Capabilities { device: self.device },
            ),
            HandshakeStage::AwaitingStatus => HandshakeAction::Ask(
                DriverQuery::Status { device: self.device },
            ),
            HandshakeStage::Passed => HandshakeAction::Proceed,
            HandshakeStage::Failed(error) => HandshakeAction::Stop(error),
        }
    }

    /// Takes the driver's reply and tells what is to be done next.
    ///
    /// A reply to the pending query is judged by the check of that stage.
    /// A reply to any other query, or one that arrives after the handshake
    /// has ended, is ignored.
    pub fn answer(&mut self, reply: DriverReply) -> (action: HandshakeAction)
        ensures
            *final(self) == old(self).after(reply),
            action == final(self).pending_action(),
    {
        match (self.stage, reply) {
            (HandshakeStage::AwaitingEnabled, DriverReply::Enabled { enabled }) => {
                self.stage = stage_reached(
                    check_vjoy_enabled(enabled),
                    HandshakeStage::AwaitingVersions,
                );
            },
            (
                HandshakeStage::AwaitingVersions,
                DriverReply::Versions { matching, installed, library },
            ) => {
                self.stage = stage_reached(
                    check_vjoy_versions(matching, installed, library),
                    HandshakeStage::AwaitingCapabilities,
                );
            },
            (
                HandshakeStage::AwaitingCapabilities,
                DriverReply::Capabilities { capabilities },
            ) => {
                self.stage = stage_reached(
                    check_vjoy_axis(&capabilities),
                    HandshakeStage::AwaitingStatus,
                );
            },
            (HandshakeStage::AwaitingStatus, DriverReply::Status { status }) => {
                self.stage = stage_reached(check_vjoy_status(status), HandshakeStage::Passed);
            },
            _ => {},
        }
        self.pending()
    }
}

/// Turns the verdict of a check into the stage that follows it.
fn stage_reached(verdict: Result<(), BridgeError>, next: HandshakeStage) -> (stage:
    HandshakeStage)
    ensures
        stage == stage_after(verdict, next),
{
    match verdict {
        Ok(_) => next,
        Err(error) => HandshakeStage::Failed(error),
    }
}

/// A failed handshake stays failed, with the same error, whatever comes in
/// afterwards; it asks nothing more of the driver.
pub proof fn failure_is_final(handshake: Handshake, replies: Seq<DriverReply>)
    requires
        handshake.stage is Failed,
    ensures
        handshake.after_all(replies) == handshake,
        handshake.pending_action() == HandshakeAction::Stop(handshake.stage->Failed_0),
    decreases replies.len(),
{
    if replies.len() > 0 {
        failure_is_final(handshake, replies.drop_first());
    }
}

/// A passed handshake stays passed.
pub proof fn pass_is_final(handshake: Handshake, replies: Seq<DriverReply>)
    requires
        handshake.stage is Passed,
    ensures
        handshake.after_all(replies) == handshake,
        handshake.pending_action() == HandshakeAction::Proceed,
    decreases replies.len(),
{
    if replies.len() > 0 {
        pass_is_final(handshake, replies.drop_first());
    }
}

/// When the driver is not enabled the handshake ends there: the versions,
/// the capabilities and the status are never asked for, and nothing that
/// comes in later changes the outcome.
pub proof fn unavailable_driver_ends_the_handshake(device: u32, later: Seq<DriverReply>)
    ensures
        ({
            let failed = Handshake::begun(device).after(DriverReply::Enabled { enabled: false });
            &&& failed.stage == HandshakeStage::Failed(BridgeError::DriverUnavailable)
            &&& failed.pending_action() == HandshakeAction::Stop(BridgeError::DriverUnavailable)
            &&& failed.after_all(later) == failed
        }),
{
    let failed = Handshake::begun(device).after(DriverReply::Enabled { enabled: false });
    failure_is_final(failed, later);
}

/// Whatever check fails, no query follows it.
pub proof fn failed_check_asks_nothing_more(handshake: Handshake, reply: DriverReply)
    requires
        !(handshake.stage is Failed),
        handshake.after(reply).stage is Failed,
    ensures
        !(handshake.after(reply).pending_action() is Ask),
        handshake.pending_action() is Ask,
{
}

/// The handshake keeps the device it was begun with.
pub proof fn handshake_keeps_its_device(handshake: Handshake, replies: Seq<DriverReply>)
    ensures
        handshake.after_all(replies).device == handshake.device,
    decreases replies.len(),
{
    if replies.len() > 0 {
        handshake_keeps_its_device(handshake.after(replies.first()), replies.drop_first());
    }
}

/// The error of the first check that fails, in the order in which the
/// checks run, or `Ok` when all four pass.
pub open spec fn first_failure(
    enabled: bool,
    matching: bool,
    installed: u16,
    library: u16,
    capabilities: DeviceCapabilities,
    status: HandshakeStatus,
) -> Result<(), BridgeError> {
    if enabled_verdict(enabled) is Err {
        enabled_verdict(enabled)
    } else if versions_verdict(matching, installed, library) is Err {
        versions_verdict(matching, installed, library)
    } else if capabilities_verdict(capabilities) is Err {
        capabilities_verdict(capabilities)
    } else {
        status_verdict(status)
    }
}

/// Fed the driver's four answers in order, the handshake passes when every
/// check passes, and otherwise fails with the error of the first check that
/// does not.
pub proof fn outcome_is_first_failure(
    device: u32,
    enabled: bool,
    matching: bool,
    installed: u16,
    library: u16,
    capabilities: DeviceCapabilities,
    status: HandshakeStatus,
)
    ensures
        Handshake::begun(device).after(DriverReply::Enabled { enabled }).after(
            DriverReply::Versions { matching, installed, library },
        ).after(DriverReply::Capabilities { capabilities }).after(
            DriverReply::Status { status },
        ).stage == stage_after(
            first_failure(enabled, matching, installed, library, capabilities, status),
            HandshakeStage::Passed,
        ),
{
}

/// The number of the check that a stage waits for, counted from zero in
/// the order in which the checks run; four once the handshake is over.
pub open spec fn check_number(stage: HandshakeStage) -> int {
    match stage {
        HandshakeStage::AwaitingEnabled => 0,
        HandshakeStage::AwaitingVersions => 1,
        HandshakeStage::AwaitingCapabilities => 2,
        HandshakeStage::AwaitingStatus => 3,
        HandshakeStage::Passed => 4,
        HandshakeStage::Failed(_) => 4,
    }
}

/// One reply moves the handshake by one check at most, and only when it is
/// a passing answer to the check that was waited for.
pub proof fn reply_moves_one_check_at_most(handshake: Handshake, reply: DriverReply)
    ensures
        ({
            let next = handshake.after(reply);
            let check = check_number(handshake.stage);
            ||| next == handshake
            ||| next.stage is Failed && !passes_check(reply, check)
            ||| check_number(next.stage) == check + 1 && passes_check(reply, check)
        }),
{
}

proof fn check_witness(handshake: Handshake, replies: Seq<DriverReply>) -> (at: Seq<int>)
    requires
        !(handshake.stage is Failed),
        handshake.after_all(replies).stage is Passed,
    ensures
        at.len() == 4 - check_number(handshake.stage),
        forall|k: int|
            0 <= k < at.len() ==> 0 <= #[trigger] at[k] < replies.len() && passes_check(
                replies[at[k]],
                check_number(handshake.stage) + k,
            ),
        forall|j: int, k: int| 0 <= j < k < at.len() ==> #[trigger] at[j] < #[trigger] at[k],
    decreases replies.len(),
{
    if handshake.stage is Passed || replies.len() == 0 {
        Seq::empty()
    } else {
        let next = handshake.after(replies.first());
        let rest = replies.drop_first();
        reply_moves_one_check_at_most(handshake, replies.first());
        if next.stage is Failed {
            failure_is_final(next, rest);
            Seq::empty()
        } else {
            let found = check_witness(next, rest);
            let shifted = Seq::new(found.len(), |k: int| found[k] + 1);
            assert forall|k: int| 0 <= k < shifted.len() implies replies[#[trigger] shifted[k]]
                == rest[found[k]] by {}
            if next == handshake {
                shifted
            } else {
                let at = seq![0int].add(shifted);
                assert forall|k: int| 0 <= k < at.len() implies 0 <= #[trigger] at[k]
                    < replies.len() && passes_check(
                    replies[at[k]],
                    check_number(handshake.stage) + k,
                ) by {
                    if k > 0 {
                        assert(at[k] == shifted[k - 1]);
                    }
                }
                assert forall|j: int, k: int| 0 <= j < k < at.len() implies #[trigger] at[j]
                    < #[trigger] at[k] by {
                    assert(at[k] == shifted[k - 1]);
                    if j > 0 {
                        assert(at[j] == shifted[j - 1]);
                    }
                }
                at
            }
        }
    }
}

/// No check can be skipped: a handshake that has passed was given a passing
/// answer to each of the four checks, and in their order.
pub proof fn passing_needs_every_check(device: u32, replies: Seq<DriverReply>)
    requires
        Handshake::begun(device).after_all(replies).stage is Passed,
    ensures
        exists|a: int, b: int, c: int, d: int|
            {
                &&& 0 <= a < b < c < d < replies.len()
                &&& passes_check(#[trigger] replies[a], 0)
                &&& passes_check(#[trigger] replies[b], 1)
                &&& passes_check(#[trigger] replies[c], 2)
                &&& passes_check(#[trigger] replies[d], 3)
            },
{
    let at = check_witness(Handshake::begun(device), replies);
    assert(at[0] < at[1] < at[2] < at[3]);
    assert(passes_check(replies[at[0]], 0) && passes_check(replies[at[1]], 1) && passes_check(
        replies[at[2]],
        2,
    ) && passes_check(replies[at[3]], 3));
}

} // verus!
