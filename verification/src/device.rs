//! A found device: typed access to what its node reported, and the writes
//! that change it.
//!
//! Reading is a function of the node alone. Writing is left to the caller:
//! a setter returns the one write to carry out, and the store's reply to it
//! concludes the request.

use crate::attribute::{Attribute, Error};
use crate::codec::{
    decode_charge_level, decode_poll_rate, decode_resolution, decode_text, decoded_charge_level,
    decoded_poll_rate, decoded_resolution, decoded_text, encode_poll_rate, encode_resolution,
    packed, text_agrees, Dpi, PollRate,
};
use crate::node::DeviceNode;
use vstd::prelude::*;

verus! {

/// A device that a scan found. It is valid as long as the scan's nodes are.
#[derive(Debug)]
pub struct Device<'a> {
    /// Where the device's node stands among the scan's nodes.
    pub position: usize,
    /// What the device's node reported.
    pub node: &'a DeviceNode,
}

/// What a device is: the fields of its identity, which never change.
#[derive(Debug, PartialEq, Eq)]
pub struct DeviceIdentity {
    /// Name of the device's model.
    pub ty: String,
    /// Serial number.
    pub serial: String,
    /// Version of the firmware.
    pub firmware_version: String,
}

/// The texts of a device's identity.
pub struct IdentityText {
    /// Name of the device's model.
    pub ty: Seq<char>,
    /// Serial number.
    pub serial: Seq<char>,
    /// Version of the firmware.
    pub firmware_version: Seq<char>,
}

impl View for DeviceIdentity {
    type V = IdentityText;

    open spec fn view(&self) -> IdentityText {
        IdentityText {
            ty: self.ty@,
            serial: self.serial@,
            firmware_version: self.firmware_version@,
        }
    }
}

/// The value of an attribute, by the attribute's type.
#[derive(Debug, PartialEq, Eq)]
pub enum Value {
    /// A count from 0 to 255.
    ByteCount(u8),
    /// A pointer resolution.
    Resolution(Dpi),
    /// A polling rate.
    PollRate(PollRate),
    /// A text.
    RawString(String),
}

/// What a `Value` holds.
pub enum ValueText {
    /// A count from 0 to 255.
    ByteCount(u8),
    /// A pointer resolution.
    Resolution(Dpi),
    /// A polling rate.
    PollRate(PollRate),
    /// A text.
    RawString(Seq<char>),
}

impl View for Value {
    type V = ValueText;

    open spec fn view(&self) -> ValueText {
        match self {
            Value::ByteCount(count) => ValueText::ByteCount(*count),
            Value::Resolution(dpi) => ValueText::Resolution(*dpi),
            Value::PollRate(rate) => ValueText::PollRate(*rate),
            Value::RawString(text) => ValueText::RawString(text@),
        }
    }
}

/// The attributes of a device that may change, each with its own outcome:
/// a value, `None` where the device does not report the attribute, or the
/// error of that attribute alone.
#[derive(Debug, PartialEq, Eq)]
pub struct Attributes {
    /// Battery charge.
    pub charge_level: Result<Option<u8>, Error>,
    /// Pointer resolution.
    pub dpi: Result<Option<Dpi>, Error>,
    /// Polling frequency.
    pub poll_rate: Result<Option<PollRate>, Error>,
}

/// What is told of a device: who it is, and the attributes that may change.
#[derive(Debug, PartialEq, Eq)]
pub struct DeviceInformation {
    /// The device's identity.
    pub identity: DeviceIdentity,
    /// The device's attributes.
    pub attributes: Attributes,
}

/// What a `DeviceInformation` holds.
pub struct InformationText {
    /// The device's identity.
    pub identity: IdentityText,
    /// The device's attributes.
    pub attributes: Attributes,
}

impl View for DeviceInformation {
    type V = InformationText;

    open spec fn view(&self) -> InformationText {
        InformationText { identity: self.identity@, attributes: self.attributes }
    }
}

/// The charge level that `node` reports.
pub open spec fn charge_level_of(node: &DeviceNode) -> Result<Option<u8>, Error> {
    match node.reported(Attribute::ChargeLevel) {
        None => Ok(None),
        Some(raw) => match decoded_charge_level(raw) {
            Ok(level) => Ok(Some(level)),
            Err(e) => Err(e),
        },
    }
}

/// The resolution that `node` reports.
pub open spec fn resolution_of_node(node: &DeviceNode) -> Result<Option<Dpi>, Error> {
    match node.reported(Attribute::Dpi) {
        None => Ok(None),
        Some(raw) => match decoded_resolution(raw) {
            Ok(dpi) => Ok(Some(dpi)),
            Err(e) => Err(e),
        },
    }
}

/// The polling rate that `node` reports.
pub open spec fn poll_rate_of_node(node: &DeviceNode) -> Result<Option<PollRate>, Error> {
    match node.reported(Attribute::PollRate) {
        None => Ok(None),
        Some(raw) => match decoded_poll_rate(raw) {
            Ok(rate) => Ok(Some(rate)),
            Err(e) => Err(e),
        },
    }
}

/// The text that `node` reports of `attribute`, a field of its identity. A
/// field that is not reported is missing.
pub open spec fn identity_text_of(node: &DeviceNode, attribute: Attribute) -> Result<
    Seq<char>,
    Error,
> {
    match node.reported(attribute) {
        None => Err(Error::MissingAttribute(attribute)),
        Some(raw) => decoded_text(attribute, raw),
    }
}

/// The identity that `node` reports.
///
/// A missing field comes before an invalid one; among several of a kind the
/// first counts, in the order type, serial, firmware version.
pub open spec fn identity_of(node: &DeviceNode) -> Result<IdentityText, Error> {
    if node.device_type is None {
        Err(Error::MissingAttribute(Attribute::DeviceType))
    } else if node.device_serial is None {
        Err(Error::MissingAttribute(Attribute::DeviceSerial))
    } else if node.firmware_version is None {
        Err(Error::MissingAttribute(Attribute::FirmwareVersion))
    } else {
        match (
            identity_text_of(node, Attribute::DeviceType),
            identity_text_of(node, Attribute::DeviceSerial),
            identity_text_of(node, Attribute::FirmwareVersion),
        ) {
            (Ok(ty), Ok(serial), Ok(firmware_version)) => Ok(
                IdentityText { ty, serial, firmware_version },
            ),
            (Err(e), _, _) => Err(e),
            (_, Err(e), _) => Err(e),
            (_, _, Err(e)) => Err(e),
        }
    }
}

/// The attributes that `node` reports, each with its own outcome.
pub open spec fn attributes_of(node: &DeviceNode) -> Attributes {
    Attributes {
        charge_level: charge_level_of(node),
        dpi: resolution_of_node(node),
        poll_rate: poll_rate_of_node(node),
    }
}

/// What is told of the device at `node`. There is nothing to tell of a
/// device without identity; an attribute that is invalid is told as such.
pub open spec fn information_of(node: &DeviceNode) -> Result<InformationText, Error> {
    match identity_of(node) {
        Ok(identity) => Ok(InformationText { identity, attributes: attributes_of(node) }),
        Err(e) => Err(e),
    }
}

/// Whether `r` is the information, or the error, that `model` is.
pub open spec fn information_agrees(
    r: Result<DeviceInformation, Error>,
    model: Result<InformationText, Error>,
) -> bool {
    match r {
        Ok(information) => model == Ok::<InformationText, Error>(information@),
        Err(e) => model == Err::<InformationText, Error>(e),
    }
}

/// The value that `node` reports of `attribute`.
///
/// An attribute that may change and is not reported has no value. A field
/// of the identity that is not reported is missing.
pub open spec fn value_of(node: &DeviceNode, attribute: Attribute) -> Result<
    Option<ValueText>,
    Error,
> {
    match attribute {
        Attribute::ChargeLevel => match charge_level_of(node) {
            Ok(Some(level)) => Ok(Some(ValueText::ByteCount(level))),
            Ok(None) => Ok(None),
            Err(e) => Err(e),
        },
        Attribute::Dpi => match resolution_of_node(node) {
            Ok(Some(dpi)) => Ok(Some(ValueText::Resolution(dpi))),
            Ok(None) => Ok(None),
            Err(e) => Err(e),
        },
        Attribute::PollRate => match poll_rate_of_node(node) {
            Ok(Some(rate)) => Ok(Some(ValueText::PollRate(rate))),
            Ok(None) => Ok(None),
            Err(e) => Err(e),
        },
        _ => match identity_text_of(node, attribute) {
            Ok(text) => Ok(Some(ValueText::RawString(text))),
            Err(e) => Err(e),
        },
    }
}

/// Whether `r` is the value, or the error, that `model` is.
pub open spec fn value_agrees(
    r: Result<Option<Value>, Error>,
    model: Result<Option<ValueText>, Error>,
) -> bool {
    match r {
        Ok(Some(value)) => model == Ok::<Option<ValueText>, Error>(Some(value@)),
        Ok(None) => model == Ok::<Option<ValueText>, Error>(None),
        Err(e) => model == Err::<Option<ValueText>, Error>(e),
    }
}

/// Whether `r` is the identity, or the error, that `model` is.
pub open spec fn identity_agrees(
    r: Result<DeviceIdentity, Error>,
    model: Result<IdentityText, Error>,
) -> bool {
    match r {
        Ok(identity) => model == Ok::<IdentityText, Error>(identity@),
        Err(e) => model == Err::<IdentityText, Error>(e),
    }
}

/// A new value for an attribute that can be written.
#[derive(Clone, Copy, Debug, PartialEq, Eq, Structural)]
pub enum SetAttribute {
    /// A new pointer resolution.
    Dpi(Dpi),
    /// A new polling rate.
    PollRate(PollRate),
}

/// The way by which bytes reach an attribute.
#[derive(Clone, Copy, Debug, PartialEq, Eq, Structural)]
pub enum Channel {
    /// The attribute store's own write, which takes text.
    Store,
    /// A write of the raw bytes to the attribute's file, past the store,
    /// which would refuse them.
    Raw,
}

/// One write to carry out: all of `bytes`, in a single call, to `attribute`
/// of the device at `device`, by `channel`.
#[derive(Debug, PartialEq, Eq)]
pub struct WriteRequest {
    /// Where the device's node stands among the scan's nodes.
    pub device: usize,
    /// The attribute to write to.
    pub attribute: Attribute,
    /// The bytes to write.
    pub bytes: Vec<u8>,
    /// The way to write them.
    pub channel: Channel,
}

/// What the attribute store answered to a write.
#[derive(Clone, Copy, Debug, PartialEq, Eq, Structural)]
pub enum StoreReply {
    /// The bytes were written.
    Accepted,
    /// The store refused the bytes: for want of permission, as invalid, or
    /// because the hardware did.
    Rejected,
}

impl SetAttribute {
    /// The attribute that the value is for.
    pub open spec fn attribute(&self) -> Attribute {
        match self {
            SetAttribute::Dpi(_) => Attribute::Dpi,
            SetAttribute::PollRate(_) => Attribute::PollRate,
        }
    }

    /// The bytes that set the value.
    pub open spec fn wire(&self) -> Seq<u8> {
        match self {
            SetAttribute::Dpi(dpi) => packed(*dpi),
            SetAttribute::PollRate(rate) => rate.wire(),
        }
    }

    /// The way by which the bytes have to be written. The resolution is
    /// written as binary, which only the raw channel takes.
    pub open spec fn channel(&self) -> Channel {
        match self {
            SetAttribute::Dpi(_) => Channel::Raw,
            SetAttribute::PollRate(_) => Channel::Store,
        }
    }
}

impl WriteRequest {
    /// Whether the request is the one write that sets `value` on the device
    /// at `device`.
    pub open spec fn sets(&self, device: usize, value: SetAttribute) -> bool {
        &&& self.device == device
        &&& self.attribute == value.attribute()
        &&& self.bytes@ == value.wire()
        &&& self.channel == value.channel()
    }

    /// Concludes the request with the store's reply to its write.
    ///
    /// A rejected write is an error that names the attribute. The request
    /// is used up, so that the write is not tried again.
    pub fn conclude(self, reply: StoreReply) -> (r: Result<(), Error>)
        ensures
            r == match reply {
                StoreReply::Accepted => Ok::<(), Error>(()),
                StoreReply::Rejected => Err::<(), Error>(Error::WriteRejected(self.attribute)),
            },
    {
        match reply {
            StoreReply::Accepted => Ok(()),
            StoreReply::Rejected => Err(Error::WriteRejected(self.attribute)),
        }
    }
}

/// Reads a field of the identity from `node`.
fn identity_text(node: &DeviceNode, attribute: Attribute) -> (r: Result<String, Error>)
    ensures
        text_agrees(r, identity_text_of(node, attribute)),
{
    match node.read(attribute) {
        None => Err(Error::MissingAttribute(attribute)),
        Some(raw) => decode_text(attribute, raw),
    }
}

impl<'a> Device<'a> {
    /// The name of the device's model.
    pub fn ty(&self) -> (r: Result<String, Error>)
        ensures
            text_agrees(r, identity_text_of(self.node, Attribute::DeviceType)),
    {
        identity_text(self.node, Attribute::DeviceType)
    }

    /// The device's serial number.
    pub fn serial(&self) -> (r: Result<String, Error>)
        ensures
            text_agrees(r, identity_text_of(self.node, Attribute::DeviceSerial)),
    {
        identity_text(self.node, Attribute::DeviceSerial)
    }

    /// The version of the device's firmware.
    pub fn firmware_version(&self) -> (r: Result<String, Error>)
        ensures
            text_agrees(r, identity_text_of(self.node, Attribute::FirmwareVersion)),
    {
        identity_text(self.node, Attribute::FirmwareVersion)
    }

    /// The battery charge, or `None` where the device reports none.
    pub fn charge_level(&self) -> (r: Result<Option<u8>, Error>)
        ensures
            r == charge_level_of(self.node),
    {
        match self.node.read(Attribute::ChargeLevel) {
            None => Ok(None),
            Some(raw) => match decode_charge_level(raw) {
                Ok(level) => Ok(Some(level)),
                Err(e) => Err(e),
            },
        }
    }

    /// The pointer resolution, or `None` where the device reports none.
    pub fn dpi(&self) -> (r: Result<Option<Dpi>, Error>)
        ensures
            r == resolution_of_node(self.node),
    {
        match self.node.read(Attribute::Dpi) {
            None => Ok(None),
            Some(raw) => match decode_resolution(raw) {
                Ok(dpi) => Ok(Some(dpi)),
                Err(e) => Err(e),
            },
        }
    }

    /// The polling rate, or `None` where the device reports none.
    pub fn poll_rate(&self) -> (r: Result<Option<PollRate>, Error>)
        ensures
            r == poll_rate_of_node(self.node),
    {
        match self.node.read(Attribute::PollRate) {
            None => Ok(None),
            Some(raw) => match decode_poll_rate(raw) {
                Ok(rate) => Ok(Some(rate)),
                Err(e) => Err(e),
            },
        }
    }

    /// The value of `attribute`, or `None` where the device does not report
    /// an attribute that may change.
    pub fn get(&self, attribute: Attribute) -> (r: Result<Option<Value>, Error>)
        ensures
            value_agrees(r, value_of(self.node, attribute)),
    {
        match attribute {
            Attribute::ChargeLevel => match self.charge_level() {
                Ok(Some(level)) => Ok(Some(Value::ByteCount(level))),
                Ok(None) => Ok(None),
                Err(e) => Err(e),
            },
            Attribute::Dpi => match self.dpi() {
                Ok(Some(dpi)) => Ok(Some(Value::Resolution(dpi))),
                Ok(None) => Ok(None),
                Err(e) => Err(e),
            },
            Attribute::PollRate => match self.poll_rate() {
                Ok(Some(rate)) => Ok(Some(Value::PollRate(rate))),
                Ok(None) => Ok(None),
                Err(e) => Err(e),
            },
            _ => match identity_text(self.node, attribute) {
                Ok(text) => Ok(Some(Value::RawString(text))),
                Err(e) => Err(e),
            },
        }
    }

    /// The device's identity. Each of its fields has to be reported, as
    /// UTF-8 text.
    pub fn identity(&self) -> (r: Result<DeviceIdentity, Error>)
        ensures
            identity_agrees(r, identity_of(self.node)),
    {
        if self.node.device_type.is_none() {
            return Err(Error::MissingAttribute(Attribute::DeviceType));
        }
        if self.node.device_serial.is_none() {
            return Err(Error::MissingAttribute(Attribute::DeviceSerial));
        }
        if self.node.firmware_version.is_none() {
            return Err(Error::MissingAttribute(Attribute::FirmwareVersion));
        }
        let ty = match self.ty() {
            Ok(text) => text,
            Err(e) => {
                return Err(e);
            },
        };
        let serial = match self.serial() {
            Ok(text) => text,
            Err(e) => {
                return Err(e);
            },
        };
        let firmware_version = match self.firmware_version() {
            Ok(text) => text,
            Err(e) => {
                return Err(e);
            },
        };
        Ok(DeviceIdentity { ty, serial, firmware_version })
    }

    /// All the attributes that may change, read in one pass. One that is
    /// invalid does not keep the others from being read.
    pub fn snapshot(&self) -> (bundle: Attributes)
        ensures
            bundle == attributes_of(self.node),
    {
        Attributes {
            charge_level: self.charge_level(),
            dpi: self.dpi(),
            poll_rate: self.poll_rate(),
        }
    }

    /// What is told of the device: its identity, which it has to have, and
    /// its attributes, each with its own outcome.
    pub fn information(&self) -> (r: Result<DeviceInformation, Error>)
        ensures
            information_agrees(r, information_of(self.node)),
    {
        match self.identity() {
            Ok(identity) => Ok(DeviceInformation { identity, attributes: self.snapshot() }),
            Err(e) => Err(e),
        }
    }

    /// The write that sets the device's resolution to `dpi`.
    pub fn set_dpi(&self, dpi: &Dpi) -> (request: WriteRequest)
        ensures
            request.sets(self.position, SetAttribute::Dpi(*dpi)),
    {
        WriteRequest {
            device: self.position,
            attribute: Attribute::Dpi,
            bytes: encode_resolution(dpi),
            channel: Channel::Raw,
        }
    }

    /// The write that sets the device's polling rate to `poll_rate`.
    pub fn set_poll_rate(&self, poll_rate: PollRate) -> (request: WriteRequest)
        ensures
            request.sets(self.position, SetAttribute::PollRate(poll_rate)),
    {
        WriteRequest {
            device: self.position,
            attribute: Attribute::PollRate,
            bytes: encode_poll_rate(poll_rate),
            channel: Channel::Store,
        }
    }

    /// The write that sets `value` on the device.
    pub fn set(&self, value: &SetAttribute) -> (request: WriteRequest)
        ensures
            request.sets(self.position, *value),
    {
        match value {
            SetAttribute::Dpi(dpi) => self.set_dpi(dpi),
            SetAttribute::PollRate(rate) => self.set_poll_rate(*rate),
        }
    }
}

} // verus!
