//! Finding the SpaceNavigator among the enumerated HID devices.

use vstd::prelude::*;
use hidapi::HidApi;
use crate::error::BridgeError;

verus! {

/// USB vendor identifier of the SpaceNavigator.
pub const VENDOR_ID: u16 = 1133;

/// USB product identifier of the SpaceNavigator.
pub const PRODUCT_ID: u16 = 50726;

/// The pair of identifiers by which a HID device is recognised.
#[derive(Clone, Copy, Debug, PartialEq, Eq, Structural)]
pub struct DeviceIdentity {
    pub vendor_id: u16,
    pub product_id: u16,
}

impl DeviceIdentity {
    /// This device is the SpaceNavigator.
    pub open spec fn is_space_navigator(self) -> bool {
        self.vendor_id == VENDOR_ID && self.product_id == PRODUCT_ID
    }
}

/// `at` is the place of the first SpaceNavigator in `devices`.
pub open spec fn is_first_match(devices: Seq<DeviceIdentity>, at: int) -> bool {
    &&& 0 <= at < devices.len()
    &&& devices[at].is_space_navigator()
    &&& forall|earlier: int|
        0 <= earlier < at ==> !(#[trigger] devices[earlier]).is_space_navigator()
}

/// No device in `devices` is the SpaceNavigator.
pub open spec fn none_matches(devices: Seq<DeviceIdentity>) -> bool {
    forall|at: int| 0 <= at < devices.len() ==> !(#[trigger] devices[at]).is_space_navigator()
}

/// `found` is the outcome of looking for the SpaceNavigator in `devices`:
/// the place of the first one, or `DeviceNotFound` when there is none.
pub open spec fn located(devices: Seq<DeviceIdentity>, found: Result<usize, BridgeError>)
    -> bool {
    match found {
        Ok(at) => is_first_match(devices, at as int),
        Err(error) => error == BridgeError::DeviceNotFound && none_matches(devices),
    }
}

/// The HID context of `hidapi`, which keeps the list of the devices it has
/// enumerated.  Nothing inside it is visible to the proofs.
#[verifier::external_type_specification]
#[verifier::external_body]
pub struct ExHidApi(HidApi);

/// The identities of the devices in the list that a HID context keeps, in
/// the order of that list.
pub uninterp spec fn listed_devices(api: HidApi) -> Seq<DeviceIdentity>;

/// Walks `HidApi::device_list` and reads `DeviceInfo::vendor_id` and
/// `DeviceInfo::product_id` of each entry.
///
/// Trusted, not proved: the result holds the identity of each entry of the
/// context's list, in the order of the list.
#[verifier::external_body]
fn device_identities(api: &HidApi) -> (identities: Vec<DeviceIdentity>)
    ensures
        identities@ == listed_devices(*api),
{
    api.device_list().map(
        |info| DeviceIdentity { vendor_id: info.vendor_id(), product_id: info.product_id() },
    ).collect()
}

/// Tells whether a device with these identifiers is the SpaceNavigator.
pub fn is_space_navigator(device: &DeviceIdentity) -> (matches: bool)
    ensures
        matches == device.is_space_navigator(),
{
    device.vendor_id == VENDOR_ID && device.product_id == PRODUCT_ID
}

/// Scans `devices` from the front and gives the place of the first
/// SpaceNavigator.
///
/// Fails with `DeviceNotFound` when no device is the SpaceNavigator, and
/// only then.
pub fn locate_space_navigator(devices: &Vec<DeviceIdentity>) -> (found: Result<
    usize,
    BridgeError,
>)
    ensures
        located(devices@, found),
        found is Err <==> none_matches(devices@),
{
    let mut at: usize = 0;
    while at < devices.len()
        invariant
            at <= devices.len(),
            forall|earlier: int|
                0 <= earlier < at ==> !(#[trigger] devices@[earlier]).is_space_navigator(),
        decreases devices.len() - at,
    {
        if is_space_navigator(&devices[at]) {
            return Ok(at);
        }
        at += 1;
    }
    Err(BridgeError::DeviceNotFound)
}

/// Finds the SpaceNavigator in the list of devices that the HID context has
/// enumerated, and gives its place in that list.
///
/// Fails with `DeviceNotFound` when the list holds no SpaceNavigator, and
/// only then.
pub fn find_space_navigator(api: &HidApi) -> (found: Result<usize, BridgeError>)
    ensures
        located(listed_devices(*api), found),
        found is Err <==> none_matches(listed_devices(*api)),
{
    let devices = device_identities(api);
    locate_space_navigator(&devices)
}

/// The list alone decides where the SpaceNavigator is: two searches of one
/// list agree.
pub proof fn first_match_is_unique(
    devices: Seq<DeviceIdentity>,
    one: Result<usize, BridgeError>,
    other: Result<usize, BridgeError>,
)
    requires
        located(devices, one),
        located(devices, other),
    ensures
        one == other,
{
    if one is Ok && other is Ok {
        let a: int = one->Ok_0 as int;
        let b: int = other->Ok_0 as int;
        if a < b {
            assert(!devices[a].is_space_navigator());
        } else if b < a {
            assert(!devices[b].is_space_navigator());
        }
    } else if one is Ok {
        assert(!devices[one->Ok_0 as int].is_space_navigator());
    } else if other is Ok {
        assert(!devices[other->Ok_0 as int].is_space_navigator());
    }
}

} // verus!
