use hidapi::HidApi;
use spacenav_bridge::error::BridgeError;
use spacenav_bridge::locator::{
    find_space_navigator, is_space_navigator, locate_space_navigator, DeviceIdentity,
    PRODUCT_ID, VENDOR_ID,
};

fn navigator() -> DeviceIdentity {
    DeviceIdentity { vendor_id: 1133, product_id: 50726 }
}

fn other(vendor_id: u16, product_id: u16) -> DeviceIdentity {
    DeviceIdentity { vendor_id, product_id }
}

#[test]
fn identifiers_are_those_of_the_device() {
    assert_eq!(VENDOR_ID, 1133);
    assert_eq!(PRODUCT_ID, 50726);
    assert_eq!(VENDOR_ID, 0x046d);
    assert_eq!(PRODUCT_ID, 0xc626);
}

#[test]
fn both_identifiers_must_match() {
    assert!(is_space_navigator(&navigator()));
    assert!(!is_space_navigator(&other(1133, 50727)));
    assert!(!is_space_navigator(&other(1134, 50726)));
    assert!(!is_space_navigator(&other(50726, 1133)));
    assert!(!is_space_navigator(&other(0, 0)));
}

#[test]
fn empty_list_holds_no_device() {
    assert_eq!(locate_space_navigator(&Vec::new()), Err(BridgeError::DeviceNotFound));
}

#[test]
fn list_without_the_device_is_not_found() {
    let devices = vec![other(1, 2), other(1133, 1), other(2, 50726), other(0xffff, 0xffff)];
    assert_eq!(locate_space_navigator(&devices), Err(BridgeError::DeviceNotFound));
}

#[test]
fn device_is_found_at_its_place() {
    assert_eq!(locate_space_navigator(&vec![navigator()]), Ok(0));
    assert_eq!(locate_space_navigator(&vec![other(1, 2), navigator()]), Ok(1));
    assert_eq!(
        locate_space_navigator(&vec![other(1, 2), other(1133, 3), other(4, 50726), navigator()]),
        Ok(3)
    );
}

#[test]
fn first_of_several_is_found() {
    let devices = vec![other(1, 2), navigator(), other(3, 4), navigator(), navigator()];
    assert_eq!(locate_space_navigator(&devices), Ok(1));
    assert_eq!(locate_space_navigator(&vec![navigator(), navigator()]), Ok(0));
}

#[test]
fn context_list_is_searched_from_the_front() {
    // What the transport lists depends on the machine; whatever it lists,
    // the search must agree with a walk of that same list.
    if let Ok(api) = HidApi::new() {
        let expected = api
            .device_list()
            .position(|info| info.vendor_id() == 1133 && info.product_id() == 50726);
        let identities: Vec<DeviceIdentity> = api
            .device_list()
            .map(|info| other(info.vendor_id(), info.product_id()))
            .collect();
        let found = find_space_navigator(&api);
        assert_eq!(found, locate_space_navigator(&identities));
        match expected {
            Some(at) => assert_eq!(found, Ok(at)),
            None => assert_eq!(found, Err(BridgeError::DeviceNotFound)),
        }
    }
}
