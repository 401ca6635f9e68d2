//! The wire forms of the attributes: how the bytes that a device reports
//! are decoded into typed values, and how the values that can be written are
//! encoded into the bytes that the firmware accepts.
//!
//! | attribute      | reported as           | written as                    |
//! |----------------|-----------------------|-------------------------------|
//! | charge level   | numeral up to 255     | read-only                     |
//! | resolution     | `X:Y`, two numerals   | X then Y, 16 bits big-endian  |
//! | polling rate   | `125`, `500`, `1000`  | the same text                 |
//! | identity field | UTF-8 text            | read-only                     |
//!
//! The resolution is asymmetric on purpose: the firmware reports it as text
//! and accepts it only as four packed bytes.

use crate::attribute::{Attribute, Error};
use crate::decimal::{
    decimal_digits, format_decimal, is_digit, lemma_numeral_of_decimal_digits, numeral,
    parse_decimal, unsigned_part,
};
use vstd::prelude::*;
use vstd::slice::slice_subrange;
use vstd::string::*;
use vstd::utf8::{decode_utf8, encode_utf8_decode_utf8, valid_utf8};

verus! {

/// ASCII `:`, which separates the two axes of a reported resolution.
pub const SEPARATOR: u8 = 0x3a;

/// The largest charge level.
pub const CHARGE_LEVEL_MAX: u32 = 255;

/// The largest resolution of one axis.
pub const AXIS_MAX: u32 = 65535;

/// Whether `a` and `b` hold the same bytes.
pub fn same_bytes(a: &[u8], b: &[u8]) -> (same: bool)
    ensures
        same == (a@ == b@),
{
    if a.len() != b.len() {
        return false;
    }
    let mut i: usize = 0;
    while i < a.len()
        invariant
            i <= a@.len(),
            a@.len() == b@.len(),
            a@.take(i as int) == b@.take(i as int),
        decreases a@.len() - i,
    {
        if a[i] != b[i] {
            return false;
        }
        i += 1;
    }
    assert(a@ =~= a@.take(i as int));
    assert(b@ =~= b@.take(i as int));
    true
}

/// A polling frequency that the hardware supports.
#[derive(Clone, Copy, Debug, PartialEq, Eq, Structural)]
pub enum PollRate {
    /// 125 Hz.
    OneTwentyFive,
    /// 500 Hz.
    FiveHundred,
    /// 1000 Hz.
    OneThousand,
}

impl PollRate {
    /// The frequency in hertz.
    pub open spec fn hertz(&self) -> nat {
        match self {
            PollRate::OneTwentyFive => 125,
            PollRate::FiveHundred => 500,
            PollRate::OneThousand => 1000,
        }
    }

    /// The text that stands for the rate on the wire, in both directions:
    /// the canonical numeral of its frequency.
    pub open spec fn wire(&self) -> Seq<u8> {
        decimal_digits(self.hertz())
    }

    /// The frequency in hertz.
    pub fn as_u32(&self) -> (hz: u32)
        ensures
            hz == self.hertz(),
    {
        match self {
            PollRate::OneTwentyFive => 125,
            PollRate::FiveHundred => 500,
            PollRate::OneThousand => 1000,
        }
    }

    /// Reads a polling rate from text, as `decode_poll_rate` does from bytes.
    pub fn from_str(s: &str) -> (r: Result<PollRate, Error>)
        ensures
            r == decoded_poll_rate(s.spec_bytes()),
    {
        decode_poll_rate(s.as_bytes())
    }
}

/// The polling rate that `s` stands for, if it is the wire text of one.
pub open spec fn poll_rate_of(s: Seq<u8>) -> Option<PollRate> {
    if s == PollRate::OneTwentyFive.wire() {
        Some(PollRate::OneTwentyFive)
    } else if s == PollRate::FiveHundred.wire() {
        Some(PollRate::FiveHundred)
    } else if s == PollRate::OneThousand.wire() {
        Some(PollRate::OneThousand)
    } else {
        None
    }
}

/// What decoding the reported polling rate `s` gives.
pub open spec fn decoded_poll_rate(s: Seq<u8>) -> Result<PollRate, Error> {
    match poll_rate_of(s) {
        Some(rate) => Ok(rate),
        None => Err(Error::UnsupportedValue(Attribute::PollRate)),
    }
}

/// The wire texts of the three rates, byte by byte: `125`, `500`, `1000`.
pub proof fn lemma_poll_rate_wire_bytes()
    ensures
        PollRate::OneTwentyFive.wire() == seq![0x31u8, 0x32u8, 0x35u8],
        PollRate::FiveHundred.wire() == seq![0x35u8, 0x30u8, 0x30u8],
        PollRate::OneThousand.wire() == seq![0x31u8, 0x30u8, 0x30u8, 0x30u8],
{
    reveal_with_fuel(decimal_digits, 4);
}

/// The set of polling rates is closed: a text decodes exactly when it is
/// the wire text of one of the three rates; decoding the wire text of a rate
/// gives that rate, and a text that decodes is the wire text of its rate, so
/// that encoding what was decoded gives the same bytes again.
pub proof fn lemma_poll_rate_round_trip(s: Seq<u8>, rate: PollRate)
    ensures
        poll_rate_of(s) is Some <==> (s == decimal_digits(125) || s == decimal_digits(500) || s
            == decimal_digits(1000)),
        poll_rate_of(rate.wire()) == Some(rate),
        poll_rate_of(s) == Some(rate) <==> s == rate.wire(),
{
    lemma_poll_rate_wire_bytes();
}

/// The wire text of a rate is a numeral, and it denotes the rate's
/// frequency.
pub proof fn lemma_poll_rate_wire_is_numeral(rate: PollRate)
    ensures
        numeral(rate.wire(), 1000) == Some(rate.hertz()),
{
    lemma_numeral_of_decimal_digits(rate.hertz(), 1000);
}

/// Decodes a reported polling rate.
///
/// Only the exact wire text of one of the three rates is accepted. Every
/// other text is an unsupported value, whether or not it is a numeral.
pub fn decode_poll_rate(bytes: &[u8]) -> (r: Result<PollRate, Error>)
    ensures
        r == decoded_poll_rate(bytes@),
{
    if same_bytes(bytes, encode_poll_rate(PollRate::OneTwentyFive).as_slice()) {
        Ok(PollRate::OneTwentyFive)
    } else if same_bytes(bytes, encode_poll_rate(PollRate::FiveHundred).as_slice()) {
        Ok(PollRate::FiveHundred)
    } else if same_bytes(bytes, encode_poll_rate(PollRate::OneThousand).as_slice()) {
        Ok(PollRate::OneThousand)
    } else {
        Err(Error::UnsupportedValue(Attribute::PollRate))
    }
}

/// Encodes a polling rate as the text that is written to the device.
pub fn encode_poll_rate(rate: PollRate) -> (text: Vec<u8>)
    ensures
        text@ == rate.wire(),
{
    format_decimal(rate.as_u32())
}

/// What decoding the reported charge level `s` gives.
pub open spec fn decoded_charge_level(s: Seq<u8>) -> Result<u8, Error> {
    match numeral(s, CHARGE_LEVEL_MAX as nat) {
        Some(level) => Ok(level as u8),
        None => Err(Error::InvalidAttribute(Attribute::ChargeLevel)),
    }
}

/// Decodes a reported charge level: a numeral up to 255.
pub fn decode_charge_level(bytes: &[u8]) -> (r: Result<u8, Error>)
    ensures
        r == decoded_charge_level(bytes@),
{
    match parse_decimal(bytes, CHARGE_LEVEL_MAX) {
        Some(level) => Ok(level as u8),
        None => Err(Error::InvalidAttribute(Attribute::ChargeLevel)),
    }
}

/// A pointer resolution, in dots per inch on each axis.
#[derive(Clone, Copy, Debug, PartialEq, Eq, Structural)]
pub struct Dpi {
    /// Resolution of the horizontal axis.
    pub x: u16,
    /// Resolution of the vertical axis.
    pub y: u16,
}

/// Whether the first separator of `s` stands at `i`.
pub open spec fn first_separator_at(s: Seq<u8>, i: int) -> bool {
    &&& 0 <= i < s.len()
    &&& s[i] == SEPARATOR
    &&& forall|j: int| 0 <= j < i ==> #[trigger] s[j] != SEPARATOR
}

/// The resolution that the text `s` reports: the numeral before the first
/// separator and the numeral after it, each up to 65535.
pub open spec fn resolution_of(s: Seq<u8>) -> Option<Dpi> {
    if exists|i: int| first_separator_at(s, i) {
        let i = choose|i: int| first_separator_at(s, i);
        match (numeral(s.take(i), AXIS_MAX as nat), numeral(s.skip(i + 1), AXIS_MAX as nat)) {
            (Some(x), Some(y)) => Some(Dpi { x: x as u16, y: y as u16 }),
            _ => None,
        }
    } else {
        None
    }
}

/// What decoding the reported resolution `s` gives.
pub open spec fn decoded_resolution(s: Seq<u8>) -> Result<Dpi, Error> {
    match resolution_of(s) {
        Some(dpi) => Ok(dpi),
        None => Err(Error::InvalidAttribute(Attribute::Dpi)),
    }
}

/// The text by which a device reports the resolution `dpi`, in canonical
/// numerals.
pub open spec fn resolution_text(dpi: Dpi) -> Seq<u8> {
    decimal_digits(dpi.x as nat) + seq![SEPARATOR] + decimal_digits(dpi.y as nat)
}

/// The four bytes that set the resolution `dpi`: each axis as 16 bits, the
/// high byte first.
pub open spec fn packed(dpi: Dpi) -> Seq<u8> {
    seq![(dpi.x / 256) as u8, (dpi.x % 256) as u8, (dpi.y / 256) as u8, (dpi.y % 256) as u8]
}

/// The resolution that four packed bytes set.
pub open spec fn unpacked(s: Seq<u8>) -> Option<Dpi> {
    if s.len() == 4 {
        Some(Dpi { x: (s[0] * 256 + s[1]) as u16, y: (s[2] * 256 + s[3]) as u16 })
    } else {
        None
    }
}

/// There is at most one first separator.
pub proof fn lemma_first_separator_unique(s: Seq<u8>, i: int, j: int)
    requires
        first_separator_at(s, i),
        first_separator_at(s, j),
    ensures
        i == j,
{
}

/// Decodes a reported resolution, `X:Y`.
///
/// The text is split at its first separator, and each half has to be a
/// numeral up to 65535. A text without separator, and one with a half that is
/// no such numeral, is invalid.
pub fn decode_resolution(bytes: &[u8]) -> (r: Result<Dpi, Error>)
    ensures
        r == decoded_resolution(bytes@),
{
    let n = bytes.len();
    let mut at: usize = 0;
    while at < n && bytes[at] != SEPARATOR
        invariant
            at <= n,
            n == bytes@.len(),
            forall|j: int| 0 <= j < at ==> #[trigger] bytes@[j] != SEPARATOR,
        decreases n - at,
    {
        at += 1;
    }
    if at == n {
        return Err(Error::InvalidAttribute(Attribute::Dpi));
    }
    proof {
        assert(first_separator_at(bytes@, at as int));
        let chosen = choose|i: int| first_separator_at(bytes@, i);
        lemma_first_separator_unique(bytes@, at as int, chosen);
    }
    let x = parse_decimal(slice_subrange(bytes, 0, at), AXIS_MAX);
    let y = parse_decimal(slice_subrange(bytes, at + 1, n), AXIS_MAX);
    match (x, y) {
        (Some(x), Some(y)) => Ok(Dpi { x: x as u16, y: y as u16 }),
        _ => Err(Error::InvalidAttribute(Attribute::Dpi)),
    }
}

/// Encodes a resolution as the four bytes that are written to the device.
pub fn encode_resolution(dpi: &Dpi) -> (bytes: Vec<u8>)
    ensures
        bytes@ == packed(*dpi),
{
    let mut bytes: Vec<u8> = Vec::new();
    bytes.push((dpi.x / 256) as u8);
    bytes.push((dpi.x % 256) as u8);
    bytes.push((dpi.y / 256) as u8);
    bytes.push((dpi.y % 256) as u8);
    bytes
}

/// Reads back the resolution that four written bytes set; the inverse of
/// `encode_resolution`. Any other number of bytes is invalid.
pub fn unpack_resolution(bytes: &[u8]) -> (r: Result<Dpi, Error>)
    ensures
        r == match unpacked(bytes@) {
            Some(dpi) => Ok(dpi),
            None => Err(Error::InvalidAttribute(Attribute::Dpi)),
        },
{
    if bytes.len() != 4 {
        return Err(Error::InvalidAttribute(Attribute::Dpi));
    }
    let x: u16 = bytes[0] as u16 * 256 + bytes[1] as u16;
    let y: u16 = bytes[2] as u16 * 256 + bytes[3] as u16;
    Ok(Dpi { x, y })
}

/// Writes a resolution as a device reports it; the inverse of
/// `decode_resolution` on canonical numerals.
pub fn format_resolution(dpi: &Dpi) -> (text: Vec<u8>)
    ensures
        text@ == resolution_text(*dpi),
{
    let mut text = format_decimal(dpi.x as u32);
    text.push(SEPARATOR);
    let mut y = format_decimal(dpi.y as u32);
    text.append(&mut y);
    text
}

/// Two numerals up to 65535 with a separator between them report the
/// resolution that the numerals denote.
pub proof fn lemma_resolution_of_numerals(xs: Seq<u8>, ys: Seq<u8>, x: nat, y: nat)
    requires
        numeral(xs, AXIS_MAX as nat) == Some(x),
        numeral(ys, AXIS_MAX as nat) == Some(y),
    ensures
        resolution_of(xs + seq![SEPARATOR] + ys) == Some(Dpi { x: x as u16, y: y as u16 }),
{
    let s = xs + seq![SEPARATOR] + ys;
    let at = xs.len() as int;
    assert forall|j: int| 0 <= j < at implies #[trigger] s[j] != SEPARATOR by {
        let digits = unsigned_part(xs);
        if digits.len() < xs.len() && j > 0 {
            assert(is_digit(digits[j - 1]));
        }
    }
    assert(first_separator_at(s, at));
    lemma_first_separator_unique(s, at, choose|i: int| first_separator_at(s, i));
    assert(s.take(at) =~= xs);
    assert(s.skip(at + 1) =~= ys);
}

/// The two wire forms of a resolution are inverse to their readers: the
/// four bytes that set a resolution read back as that resolution, and so
/// does the text by which a device reports it.
pub proof fn lemma_resolution_wire_forms(dpi: Dpi)
    ensures
        unpacked(packed(dpi)) == Some(dpi),
        resolution_of(resolution_text(dpi)) == Some(dpi),
{
    lemma_numeral_of_decimal_digits(dpi.x as nat, AXIS_MAX as nat);
    lemma_numeral_of_decimal_digits(dpi.y as nat, AXIS_MAX as nat);
    lemma_resolution_of_numerals(
        decimal_digits(dpi.x as nat),
        decimal_digits(dpi.y as nat),
        dpi.x as nat,
        dpi.y as nat,
    );
}

/// A reported resolution survives the way through both wire forms.
///
/// Where `xs` and `ys` are numerals of `x` and `y`, both up to 65535, the
/// text `xs:ys` decodes to the resolution of `x` by `y`. That resolution
/// encodes to four bytes, `x` and then `y` with the high byte first. The four
/// bytes read back as the same resolution, and a device that reports what was
/// written to it reports a text that decodes to the same resolution again.
pub proof fn lemma_resolution_round_trip(xs: Seq<u8>, ys: Seq<u8>, x: nat, y: nat)
    requires
        numeral(xs, AXIS_MAX as nat) == Some(x),
        numeral(ys, AXIS_MAX as nat) == Some(y),
    ensures
        ({
            let dpi = Dpi { x: x as u16, y: y as u16 };
            let written = packed(dpi);
            &&& decoded_resolution(xs + seq![SEPARATOR] + ys) == Ok::<Dpi, Error>(dpi)
            &&& written.len() == 4
            &&& written[0] * 256 + written[1] == x
            &&& written[2] * 256 + written[3] == y
            &&& unpacked(written) == Some(dpi)
            &&& decoded_resolution(resolution_text(dpi)) == Ok::<Dpi, Error>(dpi)
        }),
{
    let dpi = Dpi { x: x as u16, y: y as u16 };
    lemma_resolution_of_numerals(xs, ys, x, y);
    lemma_resolution_wire_forms(dpi);
}

/// The text that the bytes `s` encode in UTF-8, if they encode any.
pub open spec fn text_of(s: Seq<u8>) -> Option<Seq<char>> {
    if valid_utf8(s) {
        Some(decode_utf8(s))
    } else {
        None
    }
}

/// What decoding the reported text `s` of `attribute` gives.
pub open spec fn decoded_text(attribute: Attribute, s: Seq<u8>) -> Result<Seq<char>, Error> {
    match text_of(s) {
        Some(text) => Ok(text),
        None => Err(Error::InvalidAttribute(attribute)),
    }
}

/// Whether `r` is the text, or the error, that `model` is.
pub open spec fn text_agrees(r: Result<String, Error>, model: Result<Seq<char>, Error>) -> bool {
    match r {
        Ok(text) => model == Ok::<Seq<char>, Error>(text@),
        Err(e) => model == Err::<Seq<char>, Error>(e),
    }
}

/// `core::str::from_utf8`: the bytes as a string slice, or `None` where
/// they are not valid UTF-8. Verus takes on trust that the standard library
/// accepts exactly the byte sequences that are UTF-8, and that the slice it
/// returns holds the bytes it was given.
#[verifier::external_body]
fn utf8_str(bytes: &[u8]) -> (r: Option<&str>)
    ensures
        r is Some <==> valid_utf8(bytes@),
        r matches Some(s) ==> s.spec_bytes() == bytes@,
{
    match core::str::from_utf8(bytes) {
        Ok(s) => Some(s),
        Err(_) => None,
    }
}

/// Decodes the reported text of `attribute`, which has to be UTF-8.
pub fn decode_text(attribute: Attribute, bytes: &[u8]) -> (r: Result<String, Error>)
    ensures
        text_agrees(r, decoded_text(attribute, bytes@)),
{
    match utf8_str(bytes) {
        Some(s) => {
            proof {
                encode_utf8_decode_utf8(s@);
            }
            Ok(s.to_owned())
        },
        None => Err(Error::InvalidAttribute(attribute)),
    }
}

} // verus!
