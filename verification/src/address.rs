//! Account and contract addresses.
//!
//! An address is twenty bytes. Reading one from text and writing one as text
//! are done by `alloy::primitives::Address`; what is assumed of those calls is
//! stated on the private functions at the end of this file.

use vstd::prelude::*;

verus! {

/// The number that a hexadecimal digit stands for, in either case.
pub open spec fn hex_value(c: char) -> Option<u8> {
    if '0' <= c && c <= '9' {
        Some((c as u8 - '0' as u8) as u8)
    } else if 'a' <= c && c <= 'f' {
        Some((c as u8 - 'a' as u8 + 10) as u8)
    } else if 'A' <= c && c <= 'F' {
        Some((c as u8 - 'A' as u8 + 10) as u8)
    } else {
        None
    }
}

/// The digits of a text: what follows a leading `0x` or `0X`, or the whole
/// text where it has no such prefix.
pub open spec fn hex_digits(text: Seq<char>) -> Seq<char> {
    if text.len() >= 2 && text[0] == '0' && (text[1] == 'x' || text[1] == 'X') {
        text.subrange(2, text.len() as int)
    } else {
        text
    }
}

/// The address that a text writes: its forty hexadecimal digits, two to a
/// byte, first byte first. A text with other than forty digits, or with a
/// character among them that is no hexadecimal digit, writes none.
pub open spec fn address_from_text(text: Seq<char>) -> Option<Seq<u8>> {
    let digits = hex_digits(text);
    if digits.len() == 40 && forall|i: int| 0 <= i < 40 ==> hex_value(#[trigger] digits[i]) is Some {
        Some(
            Seq::new(
                20,
                |i: int|
                    (16 * hex_value(digits[2 * i])->0 + hex_value(digits[2 * i + 1])->0) as u8,
            ),
        )
    } else {
        None
    }
}

/// The text that `alloy::primitives::Address` writes for twenty bytes: `0x`
/// and forty hexadecimal digits, whose letters carry the mixed-case checksum.
pub uninterp spec fn checksum_text(bytes: Seq<u8>) -> Seq<char>;

/// The lower-case form of a text, as `str::to_lowercase` gives it.
pub uninterp spec fn lowercase_text(text: Seq<char>) -> Seq<char>;

/// The address of an account or a contract.
#[derive(Clone, Copy, Debug, PartialEq, Eq)]
pub struct Address {
    /// The twenty bytes, first byte first.
    pub bytes: [u8; 20],
}

impl View for Address {
    type V = Seq<u8>;

    open spec fn view(&self) -> Seq<u8> {
        self.bytes@
    }
}

impl Address {
    /// The address with the given bytes.
    pub fn from_bytes(bytes: [u8; 20]) -> (a: Address)
        ensures
            a@ == bytes@,
            a.bytes == bytes,
    {
        Address { bytes }
    }

    /// Reads an address from text.
    pub fn parse(text: &str) -> (r: Option<Address>)
        ensures
            match r {
                Some(a) => address_from_text(text@) == Some(a@),
                None => address_from_text(text@) is None,
            },
    {
        match decode_address(text) {
            Some(bytes) => Some(Address { bytes }),
            None => None,
        }
    }

    /// Whether two addresses hold the same bytes.
    pub fn same(&self, other: &Address) -> (b: bool)
        ensures
            b == (self@ == other@),
    {
        let mut i: usize = 0;
        while i < 20
            invariant
                i <= 20,
                forall|j: int| 0 <= j < i ==> self.bytes@[j] == other.bytes@[j],
            decreases 20 - i,
        {
            if self.bytes[i] != other.bytes[i] {
                return false;
            }
            i = i + 1;
        }
        assert(self.bytes@ =~= other.bytes@);
        true
    }

    /// The address as a metric label: its text in lower case.
    pub fn label(&self) -> (s: String)
        ensures
            s@ == lowercase_text(checksum_text(self@)),
    {
        let text = encode_address(self.bytes);
        lowercase(text.as_str())
    }
}

/// `<alloy::primitives::Address as FromStr>::from_str`, with the address
/// returned as its bytes (`into_array`) and the error dropped. Assumed: the
/// call strips a leading `0x` or `0X`, accepts exactly forty hexadecimal
/// digits in either case, and decodes them two to a byte, first byte first.
#[verifier::external_body]
fn decode_address(text: &str) -> (r: Option<[u8; 20]>)
    ensures
        match r {
            Some(bytes) => address_from_text(text@) == Some(bytes@),
            None => address_from_text(text@) is None,
        },
{
    text.parse::<alloy::primitives::Address>().ok().map(alloy::primitives::Address::into_array)
}

/// `<alloy::primitives::Address as Display>::fmt`, through `to_string`, on the
/// address made of the given bytes (`Address::new`). Assumed: the text depends
/// on the bytes alone.
#[verifier::external_body]
fn encode_address(bytes: [u8; 20]) -> (s: String)
    ensures
        s@ == checksum_text(bytes@),
{
    alloy::primitives::Address::new(bytes).to_string()
}

/// `str::to_lowercase` of std. Assumed: the result depends on the text alone.
#[verifier::external_body]
fn lowercase(text: &str) -> (s: String)
    ensures
        s@ == lowercase_text(text@),
{
    text.to_lowercase()
}

} // verus!
