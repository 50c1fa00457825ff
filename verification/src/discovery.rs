//! Selecting the serial port that belongs to the controller.
//!
//! Port enumeration is an operating-system call and lives outside this
//! library; it hands over each port's system name together with its USB
//! vendor and product identifiers, when it is a USB port. The selection
//! of the first port carrying a given identifier pair is verified here.

use vstd::prelude::*;

verus! {

/// A USB vendor and product identifier pair.
#[derive(Clone, Copy, Debug, PartialEq, Eq)]
pub struct UsbId {
    pub vid: u16,
    pub pid: u16,
}

/// One enumerated serial port: its system name, and its USB identifiers
/// when enumeration reports it as a USB port.
#[derive(Clone, Debug, PartialEq, Eq)]
pub struct PortInfo {
    pub name: String,
    pub usb: Option<UsbId>,
}

/// Whether a port is a USB port with the given vendor and product
/// identifiers.
pub open spec fn port_matches(p: PortInfo, vid: u16, pid: u16) -> bool {
    p.usb matches Some(id) && id.vid == vid && id.pid == pid
}

/// Select, among the enumerated ports in enumeration order, the name of
/// the first USB port with the given vendor and product identifiers;
/// none when no port matches.
pub fn find_serial_port(ports: &Vec<PortInfo>, vid: u16, pid: u16) -> (r: Option<String>)
    ensures
        r is Some <==> exists|i: int|
            0 <= i < ports@.len() && #[trigger] port_matches(ports@[i], vid, pid),
        r matches Some(name) ==> exists|i: int|
            {
                &&& 0 <= i < ports@.len()
                &&& #[trigger] port_matches(ports@[i], vid, pid)
                &&& name@ == ports@[i].name@
                &&& forall|j: int| 0 <= j < i ==> !port_matches(ports@[j], vid, pid)
            },
{
    let mut k: usize = 0;
    while k < ports.len()
        invariant
            k <= ports@.len(),
            forall|j: int| 0 <= j < k ==> !port_matches(ports@[j], vid, pid),
        decreases ports@.len() - k,
    {
        match &ports[k].usb {
            Some(id) => {
                if id.vid == vid && id.pid == pid {
                    proof {
                        assert(port_matches(ports@[k as int], vid, pid));
                    }
                    return Some(ports[k].name.clone());
                }
            },
            None => {},
        }
        k = k + 1;
    }
    None
}

} // verus!
