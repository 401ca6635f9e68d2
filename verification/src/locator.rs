//! Finding the vendor's devices among the nodes that a scan yielded.
//!
//! A node is the vendor's when it stands on the HID bus and its bus identity
//! carries the vendor's signature. Such a node is a device only if it has a
//! serial number: an interface of a device has none, and cannot be addressed.
//!
//! Nothing keeps two devices from reporting one serial number. A search by
//! serial number returns the first match in the order of the scan.

use crate::attribute::{Attribute, Error};
use crate::codec::same_bytes;
use crate::device::{
    identity_of, identity_text_of, information_of, Device, DeviceInformation, InformationText,
};
use crate::node::DeviceNode;
use crate::signature::{carries_signature, format_hex, has_signature, vendor_text, VENDOR_DIGITS};
use vstd::prelude::*;
use vstd::string::*;
use vstd::utf8::{encode_utf8, encode_utf8_decode_utf8, encode_utf8_valid_utf8};

verus! {

/// The vendor number of Razer.
pub const RAZER: u32 = 0x1532;

/// What a scan of the device bus yielded.
#[derive(Debug, PartialEq, Eq)]
pub enum Scan {
    /// The bus could not be opened.
    Failed,
    /// The nodes of the bus, in the order of the scan.
    Completed(Vec<DeviceNode>),
}

/// The subsystem of the nodes that are looked at: `hid`.
pub open spec fn bus_class() -> Seq<u8> {
    "hid".spec_bytes()
}

/// Finds the devices of one vendor.
pub struct Locator {
    vendor: u32,
    signature: Vec<u8>,
}

impl Locator {
    /// The signature is kept as the text of the vendor.
    #[verifier::type_invariant]
    spec fn well_formed(&self) -> bool {
        self.signature@ == vendor_text(self.vendor)
    }

    /// The vendor whose devices are found.
    pub closed spec fn spec_vendor(&self) -> u32 {
        self.vendor
    }

    /// A locator of the devices of `vendor`.
    pub fn new(vendor: u32) -> (locator: Locator)
        ensures
            locator.spec_vendor() == vendor,
    {
        Locator { vendor, signature: format_hex(vendor, VENDOR_DIGITS) }
    }

    /// The vendor whose devices are found.
    #[verifier::when_used_as_spec(spec_vendor)]
    pub fn vendor(&self) -> (vendor: u32)
        ensures
            vendor == self.spec_vendor(),
    {
        self.vendor
    }

    /// Whether `node` is one of the vendor's: it stands on the HID bus, and
    /// its identity carries the vendor's signature.
    pub open spec fn selects(&self, node: &DeviceNode) -> bool {
        &&& node.subsystem@ == bus_class()
        &&& node.hid_id matches Some(identity)
        &&& carries_signature(identity@, vendor_text(self.spec_vendor()))
    }

    /// Whether `node` is a device of the vendor's: one of the vendor's nodes
    /// that has a serial number.
    pub open spec fn reports(&self, node: &DeviceNode) -> bool {
        self.selects(node) && node.device_serial is Some
    }

    /// Whether `node` is the vendor's and has the serial number `serial`.
    pub open spec fn matches(&self, node: &DeviceNode, serial: Seq<u8>) -> bool {
        &&& self.selects(node)
        &&& node.device_serial matches Some(reported)
        &&& reported@ == serial
    }

    /// The positions below `n` of the vendor's devices among `nodes`, in
    /// ascending order.
    pub open spec fn reported_below(&self, nodes: Seq<DeviceNode>, n: int) -> Seq<int>
        decreases n,
    {
        if n <= 0 {
            Seq::empty()
        } else if self.reports(&nodes[n - 1]) {
            self.reported_below(nodes, n - 1).push(n - 1)
        } else {
            self.reported_below(nodes, n - 1)
        }
    }

    /// Whether the first node among `nodes` that is the vendor's and has the
    /// serial number `serial` stands at `i`.
    pub open spec fn first_match_at(&self, nodes: Seq<DeviceNode>, serial: Seq<u8>, i: int) -> bool {
        &&& 0 <= i < nodes.len()
        &&& self.matches(&nodes[i], serial)
        &&& forall|j: int| 0 <= j < i ==> !self.matches(&#[trigger] nodes[j], serial)
    }

    /// Whether `node` is one of the vendor's.
    pub fn is_selected(&self, node: &DeviceNode) -> (selected: bool)
        ensures
            selected == self.selects(node),
    {
        proof {
            use_type_invariant(self);
        }
        if !same_bytes(node.subsystem.as_slice(), "hid".as_bytes()) {
            return false;
        }
        match &node.hid_id {
            Some(identity) => has_signature(identity.as_slice(), self.signature.as_slice()),
            None => false,
        }
    }

    /// The vendor's devices among the nodes of `scan`, in the order of the
    /// scan. Fails if the scan did.
    pub fn find_all<'a>(&self, scan: &'a Scan) -> (r: Result<Vec<Device<'a>>, Error>)
        ensures
            match r {
                Ok(devices) => scan matches Scan::Completed(nodes) && stand_at(
                    devices@,
                    nodes@,
                    self.reported_below(nodes@, nodes@.len() as int),
                ),
                Err(e) => scan is Failed && e == Error::EnumerationError,
            },
    {
        let nodes = match scan {
            Scan::Completed(nodes) => nodes,
            Scan::Failed => {
                return Err(Error::EnumerationError);
            },
        };
        let mut devices: Vec<Device<'a>> = Vec::new();
        let mut i: usize = 0;
        while i < nodes.len()
            invariant
                i <= nodes@.len(),
                stand_at(devices@, nodes@, self.reported_below(nodes@, i as int)),
            decreases nodes@.len() - i,
        {
            let node = &nodes[i];
            if self.is_selected(node) && node.device_serial.is_some() {
                devices.push(Device { position: i, node });
            }
            i += 1;
        }
        Ok(devices)
    }

    /// The first of the vendor's devices among the nodes of `scan` that has
    /// the serial number `serial`. Fails if the scan did, or if there is no
    /// such device.
    pub fn find_by_serial<'a>(&self, scan: &'a Scan, serial: &str) -> (r: Result<
        Device<'a>,
        Error,
    >)
        ensures
            match r {
                Ok(device) => {
                    &&& scan matches Scan::Completed(nodes)
                    &&& self.first_match_at(nodes@, serial.spec_bytes(), device.position as int)
                    &&& *device.node == nodes@[device.position as int]
                },
                Err(Error::EnumerationError) => scan is Failed,
                Err(Error::NotFound(missing)) => {
                    &&& missing@ == serial@
                    &&& scan matches Scan::Completed(nodes)
                    &&& forall|i: int|
                        0 <= i < nodes@.len() ==> !self.matches(
                            &#[trigger] nodes@[i],
                            serial.spec_bytes(),
                        )
                },
                Err(_) => false,
            },
    {
        let nodes = match scan {
            Scan::Completed(nodes) => nodes,
            Scan::Failed => {
                return Err(Error::EnumerationError);
            },
        };
        let wanted = serial.as_bytes();
        let mut i: usize = 0;
        while i < nodes.len()
            invariant
                i <= nodes@.len(),
                *scan == Scan::Completed(*nodes),
                wanted@ == serial.spec_bytes(),
                forall|j: int| 0 <= j < i ==> !self.matches(&#[trigger] nodes@[j], wanted@),
            decreases nodes@.len() - i,
        {
            let node = &nodes[i];
            let found = match &node.device_serial {
                Some(reported) => same_bytes(reported.as_slice(), wanted) && self.is_selected(
                    node,
                ),
                None => false,
            };
            if found {
                return Ok(Device { position: i, node });
            }
            i += 1;
        }
        Err(Error::NotFound(serial.to_owned()))
    }

    /// What is told of each of the vendor's devices among the nodes of
    /// `scan`, in the order of the scan. Fails if the scan did, or with the
    /// error of the first device that has no identity.
    pub fn list(&self, scan: &Scan) -> (r: Result<Vec<DeviceInformation>, Error>)
        ensures
            match r {
                Ok(listed) => scan matches Scan::Completed(nodes) && tells_of(
                    listed@,
                    nodes@,
                    self.reported_below(nodes@, nodes@.len() as int),
                ),
                Err(e) => match scan {
                    Scan::Failed => e == Error::EnumerationError,
                    Scan::Completed(nodes) => exists|k: int|
                        fails_first_at(
                            nodes@,
                            self.reported_below(nodes@, nodes@.len() as int),
                            k,
                            e,
                        ),
                },
            },
    {
        let devices = match self.find_all(scan) {
            Ok(devices) => devices,
            Err(e) => {
                return Err(e);
            },
        };
        let ghost nodes = scan->Completed_0@;
        let ghost positions = self.reported_below(nodes, nodes.len() as int);
        let mut listed: Vec<DeviceInformation> = Vec::new();
        let mut k: usize = 0;
        while k < devices.len()
            invariant
                k <= devices@.len(),
                *scan == Scan::Completed(scan->Completed_0),
                nodes == scan->Completed_0@,
                positions == self.reported_below(nodes, nodes.len() as int),
                stand_at(devices@, nodes, positions),
                tells_of(listed@, nodes, positions.take(k as int)),
            decreases devices@.len() - k,
        {
            match devices[k].information() {
                Ok(information) => {
                    listed.push(information);
                },
                Err(e) => {
                    assert(fails_first_at(nodes, positions, k as int, e)) by {
                        assert forall|j: int| 0 <= j < k implies information_of(
                            &nodes[#[trigger] positions[j]],
                        ) is Ok by {
                            assert(information_of(&nodes[positions[j]]) == Ok::<
                                InformationText,
                                Error,
                            >(listed@[j]@));
                        }
                    }
                    return Err(e);
                },
            }
            k += 1;
        }
        Ok(listed)
    }
}

/// Whether `listed` tells of the nodes at `positions` of `nodes`, one for
/// one.
pub open spec fn tells_of(
    listed: Seq<DeviceInformation>,
    nodes: Seq<DeviceNode>,
    positions: Seq<int>,
) -> bool {
    &&& listed.len() == positions.len()
    &&& forall|k: int|
        0 <= k < listed.len() ==> information_of(&nodes[positions[k]]) == Ok::<
            InformationText,
            Error,
        >((#[trigger] listed[k])@)
}

/// Whether the first of the nodes at `positions` of `nodes` of which
/// nothing can be told stands at `positions[k]`, and `e` is why.
pub open spec fn fails_first_at(
    nodes: Seq<DeviceNode>,
    positions: Seq<int>,
    k: int,
    e: Error,
) -> bool {
    &&& 0 <= k < positions.len()
    &&& information_of(&nodes[positions[k]]) == Err::<InformationText, Error>(e)
    &&& forall|j: int| 0 <= j < k ==> information_of(&nodes[#[trigger] positions[j]]) is Ok
}

/// Whether `devices` are the nodes at `positions` of `nodes`, one for one.
pub open spec fn stand_at(devices: Seq<Device>, nodes: Seq<DeviceNode>, positions: Seq<int>) -> bool {
    &&& devices.len() == positions.len()
    &&& forall|k: int|
        0 <= k < devices.len() ==> {
            &&& (#[trigger] devices[k]).position == positions[k]
            &&& 0 <= positions[k] < nodes.len()
            &&& *devices[k].node == nodes[positions[k]]
        }
}

/// The positions that a search for all devices returns are those of the
/// vendor's devices, each once and in ascending order.
pub proof fn lemma_reported_below(locator: &Locator, nodes: Seq<DeviceNode>, n: int)
    requires
        0 <= n <= nodes.len(),
    ensures
        forall|i: int|
            locator.reported_below(nodes, n).contains(i) <==> 0 <= i < n && locator.reports(
                &nodes[i],
            ),
        forall|k: int, l: int|
            0 <= k < l < locator.reported_below(nodes, n).len() ==> locator.reported_below(
                nodes,
                n,
            )[k] < locator.reported_below(nodes, n)[l],
    decreases n,
{
    let found = locator.reported_below(nodes, n);
    if n > 0 {
        let before = locator.reported_below(nodes, n - 1);
        lemma_reported_below(locator, nodes, n - 1);
        assert forall|k: int| 0 <= k < before.len() implies 0 <= #[trigger] before[k] < n - 1 by {
            assert(before.contains(before[k]));
        }
        if locator.reports(&nodes[n - 1]) {
            assert(found[before.len() as int] == n - 1);
            assert forall|i: int| found.contains(i) <==> 0 <= i < n && locator.reports(
                &nodes[i],
            ) by {
                if found.contains(i) {
                    let k = choose|k: int| 0 <= k < found.len() && found[k] == i;
                    if k < before.len() {
                        assert(before.contains(i));
                    }
                }
                if 0 <= i < n - 1 && locator.reports(&nodes[i]) {
                    assert(before.contains(i));
                    let k = choose|k: int| 0 <= k < before.len() && before[k] == i;
                    assert(found[k] == i);
                }
            }
        }
    }
}

/// A node without serial number is no device, whatever its identity: a
/// search for all devices does not return it.
pub proof fn lemma_serial_required(locator: &Locator, nodes: Seq<DeviceNode>, i: int)
    requires
        0 <= i < nodes.len(),
        nodes[i].device_serial is None,
    ensures
        !locator.reported_below(nodes, nodes.len() as int).contains(i),
{
    lemma_reported_below(locator, nodes, nodes.len() as int);
}

/// Where exactly one node matches a serial number, a search by that serial
/// number finds that node and none else.
pub proof fn lemma_single_match(locator: &Locator, nodes: Seq<DeviceNode>, serial: Seq<u8>, i: int)
    requires
        0 <= i < nodes.len(),
        locator.matches(&nodes[i], serial),
        forall|j: int|
            0 <= j < nodes.len() && j != i ==> !locator.matches(&#[trigger] nodes[j], serial),
    ensures
        forall|k: int| locator.first_match_at(nodes, serial, k) <==> k == i,
{
}

/// A device that was found by a serial number reports that serial number:
/// where it has an identity, the identity holds the serial number that was
/// asked for.
pub proof fn lemma_found_serial(locator: &Locator, node: &DeviceNode, serial: Seq<char>)
    requires
        locator.matches(node, encode_utf8(serial)),
    ensures
        identity_text_of(node, Attribute::DeviceSerial) == Ok::<Seq<char>, Error>(serial),
        identity_of(node) matches Ok(identity) ==> identity.serial == serial,
{
    encode_utf8_valid_utf8(serial);
    encode_utf8_decode_utf8(serial);
}

} // verus!
