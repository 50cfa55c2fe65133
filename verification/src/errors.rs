//! Errors of the library and the text of their messages.
use vstd::prelude::*;
use vstd::string::*;

verus! {

/// The error of the PNG encoder, carried through unread.
#[verifier::external_type_specification]
#[verifier::external_body]
pub struct ExEncodingError(png::EncodingError);

/// What can go wrong in the library.
#[derive(Debug)]
pub enum MapEngineError {
    /// Invalid tile coordinates or an unsupported tile format.
    TileError(String),
    /// A transform that cannot be inverted.
    AffineError(String),
    /// A registry or validation failure, with its text.
    Msg(String),
    /// The PNG encoder refused the image.
    EncodingError(png::EncodingError),
}

/// The text that `Debug` formatting gives for a string: quoted and escaped.
pub uninterp spec fn debug_text(s: Seq<char>) -> Seq<char>;

/// The text of a PNG encoding error, from `to_string` on
/// `png::EncodingError`. Nothing is claimed of the text.
#[verifier::external_body]
fn encoding_error_text(e: &png::EncodingError) -> String {
    e.to_string()
}

/// Formats a string with `{:?}`. The result is the std `Debug` text of the
/// string, a function of its characters alone.
#[verifier::external_body]
pub(crate) fn debug_quoted(s: &str) -> (r: String)
    ensures
        r@ == debug_text(s@),
{
    format!("{:?}", s)
}

/// The decimal digit for a value below ten.
pub open spec fn digit_char(d: int) -> char
    recommends
        0 <= d < 10,
{
    if d == 0 {
        '0'
    } else if d == 1 {
        '1'
    } else if d == 2 {
        '2'
    } else if d == 3 {
        '3'
    } else if d == 4 {
        '4'
    } else if d == 5 {
        '5'
    } else if d == 6 {
        '6'
    } else if d == 7 {
        '7'
    } else if d == 8 {
        '8'
    } else {
        '9'
    }
}

/// The decimal digits of a natural number, without leading zeros.
pub open spec fn nat_text(n: nat) -> Seq<char>
    decreases n,
{
    if n < 10 {
        seq![digit_char(n as int)]
    } else {
        nat_text(n / 10).push(digit_char((n % 10) as int))
    }
}

/// The decimal notation of an integer, with `-` before a negative one.
pub open spec fn int_text(n: int) -> Seq<char> {
    if n < 0 {
        seq!['-'] + nat_text((-n) as nat)
    } else {
        nat_text(n as nat)
    }
}

/// The text of one decimal digit.
fn digit_text(d: u8) -> (r: &'static str)
    requires
        d < 10,
    ensures
        r@ == seq![digit_char(d as int)],
{
    proof {
        reveal_strlit("0");
        reveal_strlit("1");
        reveal_strlit("2");
        reveal_strlit("3");
        reveal_strlit("4");
        reveal_strlit("5");
        reveal_strlit("6");
        reveal_strlit("7");
        reveal_strlit("8");
        reveal_strlit("9");
    }
    let r: &'static str = if d == 0 {
        "0"
    } else if d == 1 {
        "1"
    } else if d == 2 {
        "2"
    } else if d == 3 {
        "3"
    } else if d == 4 {
        "4"
    } else if d == 5 {
        "5"
    } else if d == 6 {
        "6"
    } else if d == 7 {
        "7"
    } else if d == 8 {
        "8"
    } else {
        "9"
    };
    proof {
        assert(r@ =~= seq![digit_char(d as int)]);
    }
    r
}

/// The decimal notation of a natural number.
fn magnitude_text(n: u128) -> (r: String)
    ensures
        r@ == nat_text(n as nat),
    decreases n,
{
    if n < 10 {
        digit_text(n as u8).to_owned()
    } else {
        let head: String = magnitude_text(n / 10);
        let r = head.concat(digit_text((n % 10) as u8));
        proof {
            assert(r@ =~= nat_text((n / 10) as nat).push(digit_char((n % 10) as int)));
        }
        r
    }
}

/// The decimal notation of an integer, with a minus sign before a
/// negative one.
pub fn number_text(n: isize) -> (r: String)
    ensures
        r@ == int_text(n as int),
{
    if n < 0 {
        let magnitude: u128 = (-(n as i128)) as u128;
        proof {
            reveal_strlit("-");
        }
        let r = "-".to_owned().concat(magnitude_text(magnitude).as_str());
        proof {
            assert("-"@ =~= seq!['-']);
        }
        r
    } else {
        magnitude_text(n as u128)
    }
}

impl From<png::EncodingError> for MapEngineError {
    /// The error of the library that carries an error of the PNG encoder.
    fn from(e: png::EncodingError) -> (r: Self) {
        MapEngineError::EncodingError(e)
    }
}

impl vstd::std_specs::convert::FromSpecImpl<png::EncodingError> for MapEngineError {
    open spec fn obeys_from_spec() -> bool {
        true
    }

    open spec fn from_spec(e: png::EncodingError) -> Self {
        MapEngineError::EncodingError(e)
    }
}

impl MapEngineError {
    /// The text of the message, by variant; `None` for an encoder error,
    /// whose text is the encoder's own.
    pub open spec fn spec_message(self) -> Option<Seq<char>> {
        match self {
            MapEngineError::TileError(m) => Some("TileError: "@ + m@),
            MapEngineError::AffineError(m) => Some("AffineError: "@ + m@),
            MapEngineError::Msg(m) => Some(m@),
            MapEngineError::EncodingError(_) => None,
        }
    }

    /// The message of the error as text.
    pub fn message(&self) -> (r: String)
        ensures
            self.spec_message() matches Some(m) ==> r@ == m,
    {
        match self {
            MapEngineError::TileError(m) => "TileError: ".to_owned().concat(m.as_str()),
            MapEngineError::AffineError(m) => "AffineError: ".to_owned().concat(m.as_str()),
            MapEngineError::Msg(m) => m.clone(),
            MapEngineError::EncodingError(e) => encoding_error_text(e),
        }
    }
}

} // verus!
