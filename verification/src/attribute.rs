//! The attributes that a device exposes, and the ways a request can fail.

use vstd::prelude::*;
use vstd::string::*;

verus! {

/// A named datum that a device may report.
#[derive(Clone, Copy, Debug, PartialEq, Eq, Structural)]
pub enum Attribute {
    /// Battery charge, from 0 to 255.
    ChargeLevel,
    /// Pointer resolution on both axes.
    Dpi,
    /// Polling frequency in hertz.
    PollRate,
    /// Name of the device's model.
    DeviceType,
    /// Serial number, the key by which a device is found.
    DeviceSerial,
    /// Version of the firmware the device runs.
    FirmwareVersion,
}

impl Attribute {
    /// The name under which the attribute store keeps the attribute.
    pub open spec fn spec_name(&self) -> Seq<char> {
        match self {
            Attribute::ChargeLevel => "charge_level"@,
            Attribute::Dpi => "dpi"@,
            Attribute::PollRate => "poll_rate"@,
            Attribute::DeviceType => "device_type"@,
            Attribute::DeviceSerial => "device_serial"@,
            Attribute::FirmwareVersion => "firmware_version"@,
        }
    }

    /// Whether the attribute belongs to a device's identity, which every
    /// device has to report.
    pub open spec fn spec_is_mandatory(&self) -> bool {
        *self == Attribute::DeviceType || *self == Attribute::DeviceSerial || *self
            == Attribute::FirmwareVersion
    }

    /// Whether a new value can be written to the attribute.
    pub open spec fn spec_is_writable(&self) -> bool {
        *self == Attribute::Dpi || *self == Attribute::PollRate
    }

    /// The name under which the attribute store keeps the attribute.
    pub fn name(&self) -> (s: &'static str)
        ensures
            s@ == self.spec_name(),
    {
        match self {
            Attribute::ChargeLevel => "charge_level",
            Attribute::Dpi => "dpi",
            Attribute::PollRate => "poll_rate",
            Attribute::DeviceType => "device_type",
            Attribute::DeviceSerial => "device_serial",
            Attribute::FirmwareVersion => "firmware_version",
        }
    }

    /// Whether the attribute belongs to a device's identity.
    #[verifier::when_used_as_spec(spec_is_mandatory)]
    pub fn is_mandatory(&self) -> (b: bool)
        ensures
            b == self.spec_is_mandatory(),
    {
        match self {
            Attribute::DeviceType | Attribute::DeviceSerial | Attribute::FirmwareVersion => true,
            _ => false,
        }
    }

    /// Whether a new value can be written to the attribute.
    #[verifier::when_used_as_spec(spec_is_writable)]
    pub fn is_writable(&self) -> (b: bool)
        ensures
            b == self.spec_is_writable(),
    {
        match self {
            Attribute::Dpi | Attribute::PollRate => true,
            _ => false,
        }
    }
}

/// Why a request failed.
#[derive(Debug, PartialEq, Eq)]
pub enum Error {
    /// The device bus could not be scanned.
    EnumerationError,
    /// No device has the serial number that was asked for.
    NotFound(String),
    /// The device does not report an attribute of its identity.
    MissingAttribute(Attribute),
    /// The attribute is reported, but not in its wire form.
    InvalidAttribute(Attribute),
    /// The attribute is reported with a value outside the set the hardware
    /// supports.
    UnsupportedValue(Attribute),
    /// The attribute store refused the bytes written to the attribute.
    WriteRejected(Attribute),
}

/// `before`, `name` and `after` in one text.
fn framed(before: &str, name: &str, after: &str) -> (text: String)
    ensures
        text@ == before@ + name@ + after@,
{
    let mut text = before.to_owned();
    text.append(name);
    text.append(after);
    text
}

impl Error {
    /// The attribute that the error is about, if it is about one.
    pub open spec fn spec_attribute(&self) -> Option<Attribute> {
        match self {
            Error::MissingAttribute(attribute) => Some(*attribute),
            Error::InvalidAttribute(attribute) => Some(*attribute),
            Error::UnsupportedValue(attribute) => Some(*attribute),
            Error::WriteRejected(attribute) => Some(*attribute),
            _ => None,
        }
    }

    /// What a user is told of the error: its kind and, with it, the name of
    /// the attribute or the serial number that it is about.
    pub open spec fn spec_message(&self) -> Seq<char> {
        match self {
            Error::EnumerationError => "cannot access the device bus"@,
            Error::NotFound(serial) => "device with serial `"@ + serial@ + "` not found"@,
            Error::MissingAttribute(attribute) => "attribute `"@ + attribute.spec_name()
                + "` is missing"@,
            Error::InvalidAttribute(attribute) => "attribute `"@ + attribute.spec_name()
                + "` is invalid"@,
            Error::UnsupportedValue(attribute) => "attribute `"@ + attribute.spec_name()
                + "` has an unsupported value"@,
            Error::WriteRejected(attribute) => "write to attribute `"@ + attribute.spec_name()
                + "` was rejected"@,
        }
    }

    /// The attribute that the error is about, if it is about one.
    pub fn attribute(&self) -> (attribute: Option<Attribute>)
        ensures
            attribute == self.spec_attribute(),
    {
        match self {
            Error::MissingAttribute(attribute) => Some(*attribute),
            Error::InvalidAttribute(attribute) => Some(*attribute),
            Error::UnsupportedValue(attribute) => Some(*attribute),
            Error::WriteRejected(attribute) => Some(*attribute),
            _ => None,
        }
    }

    /// What a user is told of the error.
    pub fn message(&self) -> (text: String)
        ensures
            text@ == self.spec_message(),
    {
        match self {
            Error::EnumerationError => "cannot access the device bus".to_owned(),
            Error::NotFound(serial) => framed(
                "device with serial `",
                serial.as_str(),
                "` not found",
            ),
            Error::MissingAttribute(attribute) => framed(
                "attribute `",
                attribute.name(),
                "` is missing",
            ),
            Error::InvalidAttribute(attribute) => framed(
                "attribute `",
                attribute.name(),
                "` is invalid",
            ),
            Error::UnsupportedValue(attribute) => framed(
                "attribute `",
                attribute.name(),
                "` has an unsupported value",
            ),
            Error::WriteRejected(attribute) => framed(
                "write to attribute `",
                attribute.name(),
                "` was rejected",
            ),
        }
    }
}

} // verus!
