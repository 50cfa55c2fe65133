//! Hex notation of RGBA colours.
use vstd::prelude::*;
use vstd::string::*;

verus! {

/// Why a text is not a hex colour.
#[derive(Debug, PartialEq, Eq, Copy, Clone, Structural)]
pub enum HexError {
    /// After the leading `#` signs there are neither six digits nor eight.
    Length,
    /// A character is not a hex digit.
    Digit,
}

/// The four components of a colour, each from 0 to 255: red, green, blue, alpha.
pub type RgbaBytes = (u8, u8, u8, u8);

/// The value of a hex digit, in either case.
pub open spec fn hex_value(b: u8) -> Option<int> {
    if 0x30 <= b <= 0x39 {
        Some(b - 0x30)
    } else if 0x61 <= b <= 0x66 {
        Some(b - 0x61 + 10)
    } else if 0x41 <= b <= 0x46 {
        Some(b - 0x41 + 10)
    } else {
        None
    }
}

/// The text without its leading `#` signs.
pub open spec fn strip_hashes(s: Seq<u8>) -> Seq<u8>
    decreases s.len(),
{
    if s.len() > 0 && s[0] == 0x23 {
        strip_hashes(s.drop_first())
    } else {
        s
    }
}

/// True iff every byte is a hex digit.
pub open spec fn all_hex(s: Seq<u8>) -> bool {
    forall|i: int| 0 <= i < s.len() ==> hex_value(#[trigger] s[i]) is Some
}

/// The byte that the two digits at `2 * k` and `2 * k + 1` write.
pub open spec fn hex_pair(s: Seq<u8>, k: int) -> int {
    16 * hex_value(s[2 * k]).unwrap() + hex_value(s[2 * k + 1]).unwrap()
}

/// The colour that a text writes: `rrggbb` or `rrggbbaa` in hex digits of
/// either case, after any number of `#`. Without `aa` the colour is opaque.
pub open spec fn spec_decode_hex(s: Seq<u8>) -> Result<RgbaBytes, HexError> {
    let d = strip_hashes(s);
    if d.len() != 6 && d.len() != 8 {
        Err(HexError::Length)
    } else if !all_hex(d) {
        Err(HexError::Digit)
    } else {
        Ok(
            (
                hex_pair(d, 0) as u8,
                hex_pair(d, 1) as u8,
                hex_pair(d, 2) as u8,
                if d.len() == 8 { hex_pair(d, 3) as u8 } else { 255u8 },
            ),
        )
    }
}

fn hex_digit(b: u8) -> (r: Option<u8>)
    ensures
        match r {
            Some(v) => hex_value(b) == Some(v as int) && v < 16,
            None => hex_value(b) is None,
        },
{
    if 0x30 <= b && b <= 0x39 {
        Some(b - 0x30)
    } else if 0x61 <= b && b <= 0x66 {
        Some(b - 0x61 + 10)
    } else if 0x41 <= b && b <= 0x46 {
        Some(b - 0x41 + 10)
    } else {
        None
    }
}

/// Reads a colour in hex notation, from the bytes of the text.
pub fn decode_hex(s: &str) -> (r: Result<RgbaBytes, HexError>)
    ensures
        r == spec_decode_hex(s.spec_bytes()),
{
    let bytes = s.as_bytes();
    let n: usize = bytes.len();
    let mut start: usize = 0;
    proof {
        assert(bytes@.subrange(0, n as int) =~= bytes@);
    }
    while start < n && bytes[start] == 0x23
        invariant
            n == bytes@.len(),
            start <= n,
            strip_hashes(bytes@) == strip_hashes(bytes@.subrange(start as int, n as int)),
        decreases n - start,
    {
        proof {
            assert(bytes@.subrange(start as int, n as int).drop_first() =~= bytes@.subrange(
                start + 1,
                n as int,
            ));
        }
        start = start + 1;
    }
    let ghost d = bytes@.subrange(start as int, n as int);
    assert(strip_hashes(bytes@) == d);
    let len: usize = n - start;
    if len != 6 && len != 8 {
        return Err(HexError::Length);
    }
    let mut values: Vec<u8> = Vec::new();
    let mut i: usize = 0;
    while i < len
        invariant
            len == n - start,
            n == bytes@.len(),
            len == 6 || len == 8,
            i <= len,
            d == bytes@.subrange(start as int, n as int),
            d == strip_hashes(s.spec_bytes()),
            values@.len() == i,
            forall|j: int| 0 <= j < i ==> hex_value(#[trigger] d[j]) == Some(values@[j] as int),
            forall|j: int| 0 <= j < i ==> values@[j] < 16,
        decreases len - i,
    {
        match hex_digit(bytes[start + i]) {
            Some(v) => {
                values.push(v);
            },
            None => {
                assert(hex_value(d[i as int]) is None);
                return Err(HexError::Digit);
            },
        }
        i = i + 1;
    }
    let red: u8 = values[0] * 16 + values[1];
    let green: u8 = values[2] * 16 + values[3];
    let blue: u8 = values[4] * 16 + values[5];
    let alpha: u8 = if len == 8 { values[6] * 16 + values[7] } else { 255 };
    Ok((red, green, blue, alpha))
}

} // verus!
