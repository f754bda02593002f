use vstd::prelude::*;

use crate::channel::CardAddress;
use crate::error::K8055Error;

verus! {

/// The vendor id shared by the whole card family.
pub const VENDOR_ID: u16 = 0x10cf;

/// The lowest product id a card jumper can select.
pub const PID_FIRST: u16 = 0x5500;

/// The highest product id a card jumper can select.
pub const PID_LAST: u16 = 0x5503;

/// The identity of one enumerated USB device, as the bus reports it.
#[derive(Clone, Copy, Debug, PartialEq, Eq, Structural)]
pub struct DeviceDesc {
    pub vendor_id: u16,
    pub product_id: u16,
}

/// Whether `pid` is one of the four jumper-selectable card product ids.
pub open spec fn is_card_pid(pid: u16) -> bool {
    PID_FIRST <= pid <= PID_LAST
}

/// Whether device `d` is a card with product id `pid`.
pub open spec fn matches_card(d: DeviceDesc, pid: u16) -> bool {
    d.vendor_id == VENDOR_ID && d.product_id == pid
}

/// Whether device `d` is a card at any of the four addresses.
pub open spec fn is_any_card(d: DeviceDesc) -> bool {
    d.vendor_id == VENDOR_ID && is_card_pid(d.product_id)
}

/// Index `i` holds the first device matching product id `pid`.
pub open spec fn found_at(devices: Seq<DeviceDesc>, pid: u16, i: int) -> bool {
    &&& 0 <= i < devices.len()
    &&& matches_card(devices[i], pid)
    &&& forall|j: int| 0 <= j < i ==> !matches_card(devices[j], pid)
}

/// Index `i` is the device an "any address" search selects: a card whose
/// product id is the lowest among all cards present, and the first device
/// carrying that product id.
pub open spec fn found_any(devices: Seq<DeviceDesc>, i: int) -> bool {
    &&& 0 <= i < devices.len()
    &&& is_any_card(devices[i])
    &&& forall|j: int|
        0 <= j < devices.len() && is_any_card(devices[j])
            ==> devices[i].product_id <= devices[j].product_id
    &&& forall|j: int| 0 <= j < i ==> !matches_card(devices[j], devices[i].product_id)
}

/// First device matching vendor id and `pid`, scanning in bus order.
fn find_pid(devices: &Vec<DeviceDesc>, pid: u16) -> (r: Option<usize>)
    ensures
        r matches Some(i) ==> found_at(devices@, pid, i as int),
        r is None ==> forall|j: int| 0 <= j < devices@.len() ==> !matches_card(devices@[j], pid),
{
    let mut i: usize = 0;
    while i < devices.len()
        invariant
            i <= devices@.len(),
            forall|j: int| 0 <= j < i ==> !matches_card(devices@[j], pid),
        decreases devices@.len() - i,
    {
        if devices[i].vendor_id == VENDOR_ID && devices[i].product_id == pid {
            return Some(i);
        }
        i = i + 1;
    }
    None
}

/// Scan for a card at any address, trying the four product ids from the
/// lowest up and taking the first device that matches.
///
/// Among several connected cards the one with the lowest product id wins;
/// among several devices with that same product id, the first in bus order.
pub fn find_any_k8055(devices: &Vec<DeviceDesc>) -> (r: Result<usize, K8055Error>)
    ensures
        r matches Ok(i) ==> found_any(devices@, i as int),
        r is Err ==> r == Err::<usize, K8055Error>(K8055Error::DeviceNotFound),
        (exists|j: int| 0 <= j < devices@.len() && is_any_card(devices@[j])) <==> r is Ok,
{
    let mut pid: u16 = PID_FIRST;
    while pid <= PID_LAST
        invariant
            PID_FIRST <= pid <= PID_LAST + 1,
            forall|j: int, q: u16|
                0 <= j < devices@.len() && PID_FIRST <= q < pid ==> !matches_card(devices@[j], q),
        decreases PID_LAST + 1 - pid,
    {
        match find_pid(devices, pid) {
            Some(i) => {
                proof {
                    assert forall|j: int|
                        0 <= j < devices@.len() && is_any_card(devices@[j])
                            implies devices@[i as int].product_id <= devices@[j].product_id by {
                        if devices@[j].product_id < pid {
                            assert(matches_card(devices@[j], devices@[j].product_id));
                        }
                    }
                }
                return Ok(i);
            },
            None => {},
        }
        pid = pid + 1;
    }
    proof {
        assert forall|j: int| 0 <= j < devices@.len() implies !is_any_card(devices@[j]) by {
            if is_any_card(devices@[j]) {
                assert(matches_card(devices@[j], devices@[j].product_id));
            }
        }
    }
    Err(K8055Error::DeviceNotFound)
}

/// Locate the card to bind a session to: a specific jumper address, or the
/// "any" address, which selects the lowest-addressed card present.
///
/// Discovery never opens or claims the device; it only names which of the
/// enumerated devices the session should be given a transport for.
pub fn find_device(devices: &Vec<DeviceDesc>, addr: CardAddress) -> (r: Result<
    usize,
    K8055Error,
>)
    ensures
        addr.bits == 0 ==> (r matches Ok(i) ==> found_any(devices@, i as int)),
        addr.bits == 0 ==> ((exists|j: int| 0 <= j < devices@.len() && is_any_card(devices@[j]))
            <==> r is Ok),
        addr.bits != 0 ==> (r matches Ok(i) ==> found_at(devices@, addr.bits, i as int)),
        addr.bits != 0 ==> ((exists|j: int|
            0 <= j < devices@.len() && matches_card(devices@[j], addr.bits)) <==> r is Ok),
        r is Err ==> r == Err::<usize, K8055Error>(K8055Error::DeviceNotFound),
{
    if addr.bits == 0 {
        find_any_k8055(devices)
    } else {
        match find_pid(devices, addr.bits) {
            Some(i) => {
                proof {
                    assert(matches_card(devices@[i as int], addr.bits));
                }
                Ok(i)
            },
            None => Err(K8055Error::DeviceNotFound),
        }
    }
}

} // verus!
