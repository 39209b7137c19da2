//! Enumeration policy: which devices become sessions. A device becomes a
//! session exactly when its descriptor is readable, its vendor/product
//! identifiers equal the configured identity, and it can be opened; the
//! discovery as a whole fails with `NotFound` exactly when no device was
//! opened.

use vstd::prelude::*;

use crate::errors::DeviceError;

verus! {

/// Vendor/product identifier pair of the target peripheral model.
#[derive(Clone, Copy, Debug, PartialEq, Eq, Structural)]
pub struct DeviceIdentity {
    pub vendor_id: u16,
    pub product_id: u16,
}

/// A device matches the identity exactly when both identifiers are equal.
pub open spec fn spec_matches(identity: DeviceIdentity, vendor_id: u16, product_id: u16) -> bool {
    vendor_id == identity.vendor_id && product_id == identity.product_id
}

/// Decides whether a device descriptor's identifiers match the identity.
pub fn identity_matches(identity: DeviceIdentity, vendor_id: u16, product_id: u16) -> (r: bool)
    ensures
        r == spec_matches(identity, vendor_id, product_id),
{
    vendor_id == identity.vendor_id && product_id == identity.product_id
}

/// One device visible on a simulated host: what reading its descriptor
/// yields (`None` models a descriptor that cannot be read) and whether
/// opening a handle to it would succeed.
#[derive(Clone, Copy, Debug, PartialEq, Eq, Structural)]
pub struct SimulatedHostDevice {
    pub descriptor: Option<DeviceIdentity>,
    pub openable: bool,
}

/// A simulated device is opened as a session exactly when its descriptor
/// is readable, matches the identity, and the open succeeds.
pub open spec fn spec_opened(d: SimulatedHostDevice, identity: DeviceIdentity) -> bool {
    match d.descriptor {
        Some(ids) => spec_matches(identity, ids.vendor_id, ids.product_id) && d.openable,
        None => false,
    }
}

/// Runs the discovery policy over a simulated host's device list and
/// returns the indices of the devices that become sessions, in
/// enumeration order — or `NotFound` exactly when none does. A device
/// whose descriptor cannot be read, whose identifiers differ from the
/// identity, or whose open fails is skipped, never returned.
pub fn simulate_discover(devices: &Vec<SimulatedHostDevice>, identity: DeviceIdentity) -> (r:
    Result<Vec<usize>, DeviceError>)
    ensures
        r matches Err(e) ==> e == DeviceError::NotFound,
        (r is Err) <==> (forall|j: int|
            0 <= j < devices@.len() ==> !spec_opened(devices@[j], identity)),
        r matches Ok(v) ==> v@.len() > 0,
        r matches Ok(v) ==> (forall|a: int|
            0 <= a < v@.len() ==> v@[a] < devices@.len() && spec_opened(
                devices@[v@[a] as int],
                identity,
            )),
        r matches Ok(v) ==> (forall|j: int|
            0 <= j < devices@.len() && spec_opened(devices@[j], identity) ==> v@.contains(
                j as usize,
            )),
        r matches Ok(v) ==> (forall|a: int, b: int| 0 <= a < b < v@.len() ==> v@[a] < v@[b]),
{
    let mut opened: Vec<usize> = Vec::new();
    let mut i: usize = 0;
    while i < devices.len()
        invariant
            i <= devices@.len(),
            forall|a: int|
                0 <= a < opened@.len() ==> opened@[a] < i && spec_opened(
                    devices@[opened@[a] as int],
                    identity,
                ),
            forall|j: int|
                0 <= j < i && spec_opened(devices@[j], identity) ==> opened@.contains(j as usize),
            forall|a: int, b: int| 0 <= a < b < opened@.len() ==> opened@[a] < opened@[b],
        decreases devices@.len() - i,
    {
        let device = &devices[i];
        let accepted: bool = match device.descriptor {
            Some(ids) => {
                if identity_matches(identity, ids.vendor_id, ids.product_id) {
                    device.openable
                } else {
                    false
                }
            },
            None => false,
        };
        let ghost prev = opened@;
        proof {
            assert(accepted == spec_opened(devices@[i as int], identity));
        }
        if accepted {
            opened.push(i);
        }
        proof {
            assert forall|j: int|
                0 <= j < i + 1 && spec_opened(devices@[j], identity) implies opened@.contains(
                j as usize,
            ) by {
                if j < i {
                    assert(prev.contains(j as usize));
                    let a = choose|a: int| 0 <= a < prev.len() && prev[a] == j as usize;
                    assert(opened@[a] == j as usize);
                } else {
                    assert(opened@.last() == i as usize);
                }
            }
        }
        i = i + 1;
    }
    if opened.len() == 0 {
        Err(DeviceError::NotFound)
    } else {
        proof {
            assert(spec_opened(devices@[opened@[0] as int], identity));
        }
        Ok(opened)
    }
}

/// Hands the opened sessions to the caller, or reports `NotFound`:
/// discovery fails with `NotFound` exactly when zero sessions were
/// opened, and otherwise returns every opened session unchanged.
pub fn finalize_discovery<T>(sessions: Vec<T>) -> (r: Result<Vec<T>, DeviceError>)
    ensures
        sessions@.len() == 0 <==> (r matches Err(e) && e == DeviceError::NotFound),
        sessions@.len() > 0 ==> r == Result::<Vec<T>, DeviceError>::Ok(sessions),
{
    if sessions.len() == 0 {
        Err(DeviceError::NotFound)
    } else {
        Ok(sessions)
    }
}

} // verus!
