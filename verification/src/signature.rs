//! The vendor signature, by which the vendor's nodes are told from all the
//! others on the bus.
//!
//! The bus gives each node an identity of the form `bus:vendor:product`,
//! each part in hexadecimal digits. A node carries a vendor's signature when
//! its identity holds the vendor's eight digits between two separators,
//! whatever stands before and after them (`*:VVVVVVVV:*`). Upper and lower
//! case of the digits `a` to `f` are the same.

use vstd::prelude::*;

verus! {

/// ASCII `:`, which separates the parts of an identity.
pub const SEPARATOR: u8 = 0x3a;

/// The number of hexadecimal digits of a vendor in an identity.
pub const VENDOR_DIGITS: usize = 8;

/// The digit of `v`, which is below 16, in upper case.
pub open spec fn hex_digit(v: nat) -> u8 {
    if v < 10 {
        (0x30 + v) as u8
    } else {
        (0x41 + v - 10) as u8
    }
}

/// The last `width` hexadecimal digits of `v`, in upper case.
pub open spec fn hex_text(v: nat, width: nat) -> Seq<u8>
    decreases width,
{
    if width == 0 {
        Seq::empty()
    } else {
        hex_text(v / 16, (width - 1) as nat).push(hex_digit(v % 16))
    }
}

/// The signature of `vendor`: its eight hexadecimal digits.
pub open spec fn vendor_text(vendor: u32) -> Seq<u8> {
    hex_text(vendor as nat, VENDOR_DIGITS as nat)
}

/// `b`, in upper case where it is one of the digits `a` to `f`.
pub open spec fn upper_hex(b: u8) -> u8 {
    if 0x61 <= b <= 0x66 {
        (b - 0x20) as u8
    } else {
        b
    }
}

/// Whether `identity` holds, from `i` on, a separator, `signature` in either
/// case, and a separator.
pub open spec fn signature_at(identity: Seq<u8>, signature: Seq<u8>, i: int) -> bool {
    &&& 0 <= i
    &&& i + signature.len() + 2 <= identity.len()
    &&& identity[i] == SEPARATOR
    &&& identity[i + signature.len() + 1] == SEPARATOR
    &&& forall|k: int|
        0 <= k < signature.len() ==> #[trigger] signature[k] == upper_hex(identity[i + 1 + k])
}

/// Whether `identity` holds `signature` between two separators.
pub open spec fn carries_signature(identity: Seq<u8>, signature: Seq<u8>) -> bool {
    exists|i: int| signature_at(identity, signature, i)
}

/// Whether `s` holds no separator.
pub open spec fn separator_free(s: Seq<u8>) -> bool {
    forall|i: int| 0 <= i < s.len() ==> #[trigger] s[i] != SEPARATOR
}

/// Whether `segment` is `signature` in either case.
pub open spec fn same_hex(segment: Seq<u8>, signature: Seq<u8>) -> bool {
    &&& segment.len() == signature.len()
    &&& forall|k: int|
        0 <= k < signature.len() ==> #[trigger] signature[k] == upper_hex(segment[k])
}

/// The signature of a vendor has eight bytes, each a digit or a letter from
/// `A` to `F`.
pub proof fn lemma_hex_text(v: nat, width: nat)
    ensures
        hex_text(v, width).len() == width,
        forall|k: int|
            0 <= k < width ==> {
                let d = #[trigger] hex_text(v, width)[k];
                0x30 <= d <= 0x39 || 0x41 <= d <= 0x46
            },
    decreases width,
{
    if width > 0 {
        lemma_hex_text(v / 16, (width - 1) as nat);
    }
}

/// Writes the last `width` hexadecimal digits of `v`, in upper case.
pub fn format_hex(v: u32, width: usize) -> (text: Vec<u8>)
    ensures
        text@ == hex_text(v as nat, width as nat),
    decreases width,
{
    if width == 0 {
        Vec::new()
    } else {
        let mut text = format_hex(v / 16, width - 1);
        let d: u8 = (v % 16) as u8;
        if d < 10 {
            text.push(0x30 + d);
        } else {
            text.push(0x41 + (d - 10));
        }
        text
    }
}

/// `b`, in upper case where it is one of the digits `a` to `f`.
pub fn to_upper_hex(b: u8) -> (u: u8)
    ensures
        u == upper_hex(b),
{
    if 0x61 <= b && b <= 0x66 {
        b - 0x20
    } else {
        b
    }
}

/// Whether `identity` holds `signature` between two separators, the digits
/// `a` to `f` of the identity taken in upper case.
pub fn has_signature(identity: &[u8], signature: &[u8]) -> (found: bool)
    ensures
        found == carries_signature(identity@, signature@),
{
    let n = identity.len();
    let m = signature.len();
    if n < 2 || n - 2 < m {
        assert forall|i: int| !signature_at(identity@, signature@, i) by {}
        return false;
    }
    let last: usize = n - 2 - m;
    let mut i: usize = 0;
    while i <= last
        invariant
            n == identity@.len(),
            m == signature@.len(),
            last == n - 2 - m,
            i <= last + 1,
            forall|j: int| 0 <= j < i ==> !signature_at(identity@, signature@, j),
        decreases last + 1 - i,
    {
        if identity[i] == SEPARATOR && identity[i + m + 1] == SEPARATOR {
            let mut k: usize = 0;
            while k < m && signature[k] == to_upper_hex(identity[i + 1 + k])
                invariant
                    n == identity@.len(),
                    m == signature@.len(),
                    i + m + 2 <= n,
                    k <= m,
                    forall|l: int|
                        0 <= l < k ==> #[trigger] signature@[l] == upper_hex(
                            identity@[i + 1 + l],
                        ),
                decreases m - k,
            {
                k += 1;
            }
            if k == m {
                assert(signature_at(identity@, signature@, i as int));
                return true;
            }
        }
        i += 1;
    }
    assert forall|j: int| !signature_at(identity@, signature@, j) by {}
    false
}

/// Of an identity with exactly three parts, only the middle one counts: the
/// identity carries a signature exactly when its vendor part is the
/// signature in either case.
pub proof fn lemma_vendor_part_decides(
    bus: Seq<u8>,
    vendor: Seq<u8>,
    product: Seq<u8>,
    signature: Seq<u8>,
)
    requires
        separator_free(bus),
        separator_free(vendor),
        separator_free(product),
    ensures
        carries_signature(bus + seq![SEPARATOR] + vendor + seq![SEPARATOR] + product, signature)
            <==> same_hex(vendor, signature),
{
    let identity = bus + seq![SEPARATOR] + vendor + seq![SEPARATOR] + product;
    let first = bus.len() as int;
    let second = first + 1 + vendor.len();
    assert forall|p: int| 0 <= p < identity.len() && identity[p] == SEPARATOR implies p == first || p
        == second by {}
    if same_hex(vendor, signature) {
        assert(signature_at(identity, signature, first));
    }
    if carries_signature(identity, signature) {
        let i = choose|i: int| signature_at(identity, signature, i);
        assert(i == first && i + signature.len() + 1 == second);
    }
}

} // verus!
