use k8055::{
    find_any_k8055, find_device, CardAddress, DeviceDesc, K8055Error, VENDOR_ID,
};

fn dev(vendor_id: u16, product_id: u16) -> DeviceDesc {
    DeviceDesc { vendor_id, product_id }
}

#[test]
fn any_address_picks_lowest_product_id() {
    // Four simulated devices; several match, the lowest known product id wins
    // even though it is enumerated last.
    let devices = vec![
        dev(VENDOR_ID, 0x5503),
        dev(0x1234, 0x5500), // wrong vendor, never a card
        dev(VENDOR_ID, 0x5502),
        dev(VENDOR_ID, 0x5501),
    ];
    assert_eq!(find_device(&devices, CardAddress::card_any()), Ok(3));
    assert_eq!(find_any_k8055(&devices), Ok(3));
}

#[test]
fn any_address_ties_break_by_bus_order() {
    let devices = vec![
        dev(VENDOR_ID, 0x5502),
        dev(VENDOR_ID, 0x5502),
        dev(VENDOR_ID, 0x5503),
    ];
    assert_eq!(find_device(&devices, CardAddress::card_any()), Ok(0));
}

#[test]
fn any_address_none_matching_is_not_found() {
    let devices = vec![
        dev(0x1234, 0x5500),
        dev(VENDOR_ID, 0x5504),
        dev(VENDOR_ID, 0x54FF),
        dev(0xFFFF, 0xFFFF),
    ];
    assert_eq!(find_device(&devices, CardAddress::card_any()), Err(K8055Error::DeviceNotFound));
    assert_eq!(find_any_k8055(&devices), Err(K8055Error::DeviceNotFound));
    let empty: Vec<DeviceDesc> = Vec::new();
    assert_eq!(find_device(&empty, CardAddress::card_any()), Err(K8055Error::DeviceNotFound));
}

#[test]
fn specific_address_finds_only_that_card() {
    let devices = vec![
        dev(VENDOR_ID, 0x5500),
        dev(VENDOR_ID, 0x5502),
    ];
    assert_eq!(find_device(&devices, CardAddress::card_1()), Ok(0));
    assert_eq!(find_device(&devices, CardAddress::card_3()), Ok(1));
    assert_eq!(find_device(&devices, CardAddress::card_2()), Err(K8055Error::DeviceNotFound));
    assert_eq!(find_device(&devices, CardAddress::card_4()), Err(K8055Error::DeviceNotFound));
}

#[test]
fn specific_address_requires_matching_vendor() {
    let devices = vec![dev(0x1234, 0x5501)];
    assert_eq!(find_device(&devices, CardAddress::card_2()), Err(K8055Error::DeviceNotFound));
}
