//! The 20-byte account identifier, its textual hexadecimal parser, and its
//! canonical mixed-case checksummed rendering.

use vstd::prelude::*;
use vstd::string::StringSliceAdditionalSpecFns;

verus! {

/// A fixed-width 20-byte on-chain account or contract identifier, compared
/// by exact byte value. Immutable once obtained.
pub struct Address {
    pub bytes: Vec<u8>,
}

/// True of the ASCII code of a hexadecimal digit, either case.
pub open spec fn is_hex_digit(b: u8) -> bool {
    (48 <= b && b <= 57)  // '0' ..= '9'
    || (65 <= b && b <= 70)  // 'A' ..= 'F'
    || (97 <= b && b <= 102)  // 'a' ..= 'f'
}

/// The value, 0 through 15, of a hexadecimal digit's ASCII code.
pub open spec fn hex_nibble(b: u8) -> u8 {
    if 48 <= b && b <= 57 {
        (b - 48) as u8
    } else if 65 <= b && b <= 70 {
        (b - 55) as u8
    } else if 97 <= b && b <= 102 {
        (b - 87) as u8
    } else {
        0
    }
}

/// The text with a leading `"0x"` removed, if one is there.
pub open spec fn spec_strip_hex_prefix(s: Seq<u8>) -> Seq<u8> {
    if s.len() >= 2 && s[0] == 48 && s[1] == 120 {  // "0x"
        s.subrange(2, s.len() as int)
    } else {
        s
    }
}

/// True of text that denotes an address: exactly 40 hexadecimal digits once
/// an optional `"0x"` prefix is removed.
pub open spec fn spec_address_text_ok(s: Seq<u8>) -> bool {
    let t = spec_strip_hex_prefix(s);
    t.len() == 40 && (forall|i: int| 0 <= i < 40 ==> is_hex_digit(#[trigger] t[i]))
}

/// Byte `i` of the address denoted by 40 hexadecimal digits `t`.
pub open spec fn spec_parsed_byte(t: Seq<u8>, i: int) -> u8 {
    (hex_nibble(t[2 * i]) * 16 + hex_nibble(t[2 * i + 1])) as u8
}

impl Address {
    /// Well-formed: exactly 20 bytes.
    pub open spec fn wf(&self) -> bool {
        self.bytes@.len() == 20
    }

    /// True of the all-zero address, which the registry uses for "not found".
    pub open spec fn spec_is_zero(&self) -> bool {
        forall|i: int| 0 <= i < self.bytes@.len() ==> self.bytes@[i] == 0
    }

    /// Reports whether every byte is zero.
    pub fn is_zero(&self) -> (r: bool)
        ensures
            r == self.spec_is_zero(),
    {
        let mut i: usize = 0;
        while i < self.bytes.len()
            invariant
                i <= self.bytes@.len(),
                forall|j: int| 0 <= j < i ==> self.bytes@[j] == 0,
            decreases self.bytes@.len() - i,
        {
            if self.bytes[i] != 0 {
                return false;
            }
            i += 1;
        }
        true
    }

    /// Parses an address from text: an optional `"0x"` prefix followed by
    /// exactly 40 hexadecimal digits, either case. Returns `None` on any
    /// other text.
    pub fn parse(text: &str) -> (r: Option<Address>)
        ensures
            r is Some <==> spec_address_text_ok(text.spec_bytes()),
            r matches Some(a) ==> {
                &&& a.wf()
                &&& forall|i: int|
                    0 <= i < 20 ==> a.bytes@[i] == spec_parsed_byte(
                        spec_strip_hex_prefix(text.spec_bytes()),
                        i,
                    )
            },
    {
        let raw: &[u8] = text.as_bytes();
        let digits: &[u8] = if raw.len() >= 2 && raw[0] == 48 && raw[1] == 120 {
            &raw[2..raw.len()]
        } else {
            raw
        };
        assert(digits@ == spec_strip_hex_prefix(text.spec_bytes()));
        if digits.len() != 40 {
            return None;
        }
        let mut bytes: Vec<u8> = Vec::new();
        let mut i: usize = 0;
        while i < 20
            invariant
                i <= 20,
                digits@.len() == 40,
                digits@ == spec_strip_hex_prefix(text.spec_bytes()),
                bytes@.len() == i,
                forall|j: int| 0 <= j < 2 * i ==> is_hex_digit(#[trigger] digits@[j]),
                forall|j: int| 0 <= j < i ==> bytes@[j] == spec_parsed_byte(digits@, j),
            decreases 20 - i,
        {
            let h = match hex_digit_value(digits[2 * i]) {
                Some(v) => v,
                None => { return None; },
            };
            let l = match hex_digit_value(digits[2 * i + 1]) {
                Some(v) => v,
                None => { return None; },
            };
            bytes.push(h * 16 + l);
            i += 1;
        }
        Some(Address { bytes })
    }
}

/// The value of one hexadecimal digit's ASCII code, or `None` if the byte is
/// no such digit.
pub fn hex_digit_value(b: u8) -> (r: Option<u8>)
    ensures
        r is Some <==> is_hex_digit(b),
        r matches Some(v) ==> v == hex_nibble(b) && v <= 15,
{
    if 48 <= b && b <= 57 {
        Some(b - 48)
    } else if 65 <= b && b <= 70 {
        Some(b - 55)
    } else if 97 <= b && b <= 102 {
        Some(b - 87)
    } else {
        None
    }
}

/// The canonical mixed-case checksummed rendering of an address's bytes:
/// `"0x"` followed by 40 hexadecimal digits whose letter case encodes a
/// checksum. A function of the bytes alone.
pub uninterp spec fn checksum_of(bytes: Seq<u8>) -> Seq<char>;

impl Address {
    /// Relies on ethers::utils::to_checksum: the EIP-55 rendering is computed
    /// from the address bytes alone and is `"0x"` followed by one character
    /// per hexadecimal digit of the 20 bytes, 42 characters in all.
    #[verifier::external_body]
    pub(crate) fn checksum_text(&self) -> (r: String)
        requires
            self.wf(),
        ensures
            r@ == checksum_of(self.bytes@),
            r@.len() == 42,
    {
        let raw = ethers::types::Address::from_slice(self.bytes.as_slice());
        ethers::utils::to_checksum(&raw, None)
    }
}

} // verus!
