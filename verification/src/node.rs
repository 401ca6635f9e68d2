//! What the attribute store reports of one node of the device tree, as
//! plain bytes.

use crate::attribute::Attribute;
use vstd::prelude::*;

verus! {

/// One node of the device tree, as a scan found it.
///
/// An attribute that the node does not report is `None`. Nothing is assumed
/// of the bytes of one that it reports.
#[derive(Debug, PartialEq, Eq)]
pub struct DeviceNode {
    /// The class of bus that the node belongs to.
    pub subsystem: Vec<u8>,
    /// The identity that the bus gives the node, of the form
    /// `bus:vendor:product` in hexadecimal digits.
    pub hid_id: Option<Vec<u8>>,
    /// Name of the device's model.
    pub device_type: Option<Vec<u8>>,
    /// Serial number.
    pub device_serial: Option<Vec<u8>>,
    /// Version of the firmware.
    pub firmware_version: Option<Vec<u8>>,
    /// Battery charge.
    pub charge_level: Option<Vec<u8>>,
    /// Pointer resolution.
    pub dpi: Option<Vec<u8>>,
    /// Polling frequency.
    pub poll_rate: Option<Vec<u8>>,
}

/// The bytes of an attribute, if it is reported.
pub open spec fn reported_bytes(raw: Option<Vec<u8>>) -> Option<Seq<u8>> {
    match raw {
        Some(bytes) => Some(bytes@),
        None => None,
    }
}

/// The bytes of a borrowed attribute, if it is reported.
pub open spec fn borrowed_bytes(raw: Option<&[u8]>) -> Option<Seq<u8>> {
    match raw {
        Some(bytes) => Some(bytes@),
        None => None,
    }
}

impl DeviceNode {
    /// A node of `subsystem` with the bus identity `hid_id`, which reports
    /// no attribute yet.
    pub fn new(subsystem: Vec<u8>, hid_id: Option<Vec<u8>>) -> (node: DeviceNode)
        ensures
            node.subsystem == subsystem,
            node.hid_id == hid_id,
            forall|attribute: Attribute| node.reported(attribute) is None,
    {
        DeviceNode {
            subsystem,
            hid_id,
            device_type: None,
            device_serial: None,
            firmware_version: None,
            charge_level: None,
            dpi: None,
            poll_rate: None,
        }
    }

    /// Lets the node report `bytes` of `attribute`, in place of what it may
    /// have reported of it before.
    pub fn report(&mut self, attribute: Attribute, bytes: Vec<u8>)
        ensures
            final(self).subsystem == old(self).subsystem,
            final(self).hid_id == old(self).hid_id,
            final(self).reported(attribute) == Some(bytes@),
            forall|other: Attribute|
                other != attribute ==> final(self).reported(other) == old(self).reported(other),
    {
        match attribute {
            Attribute::ChargeLevel => {
                self.charge_level = Some(bytes);
            },
            Attribute::Dpi => {
                self.dpi = Some(bytes);
            },
            Attribute::PollRate => {
                self.poll_rate = Some(bytes);
            },
            Attribute::DeviceType => {
                self.device_type = Some(bytes);
            },
            Attribute::DeviceSerial => {
                self.device_serial = Some(bytes);
            },
            Attribute::FirmwareVersion => {
                self.firmware_version = Some(bytes);
            },
        }
    }

    /// What the node reports of `attribute`.
    pub open spec fn reported(&self, attribute: Attribute) -> Option<Seq<u8>> {
        match attribute {
            Attribute::ChargeLevel => reported_bytes(self.charge_level),
            Attribute::Dpi => reported_bytes(self.dpi),
            Attribute::PollRate => reported_bytes(self.poll_rate),
            Attribute::DeviceType => reported_bytes(self.device_type),
            Attribute::DeviceSerial => reported_bytes(self.device_serial),
            Attribute::FirmwareVersion => reported_bytes(self.firmware_version),
        }
    }

    /// What the node reports of `attribute`.
    pub fn read(&self, attribute: Attribute) -> (raw: Option<&[u8]>)
        ensures
            borrowed_bytes(raw) == self.reported(attribute),
    {
        let field = match attribute {
            Attribute::ChargeLevel => &self.charge_level,
            Attribute::Dpi => &self.dpi,
            Attribute::PollRate => &self.poll_rate,
            Attribute::DeviceType => &self.device_type,
            Attribute::DeviceSerial => &self.device_serial,
            Attribute::FirmwareVersion => &self.firmware_version,
        };
        match field {
            Some(bytes) => Some(bytes.as_slice()),
            None => None,
        }
    }
}

} // verus!
