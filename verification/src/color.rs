//! Colors: extraction from a color dictionary, and the hex codec.
//!
//! A color entry of the document is itself a dictionary with a
//! `"Color Space"` label and one real per channel. Only the `"sRGB"` space is
//! supported; any other label is a typed failure, never a silent
//! misconversion.

use vstd::prelude::*;

verus! {

use crate::channel::{channel_byte, channel_to_byte, Real};
use crate::error::{Error, ErrorView};
use crate::value::{as_dictionary_spec, as_real_spec, as_string_spec, get_spec, Dict};

/// A color given as red, green and blue channels of the sRGB space, each
/// conceptually in [0, 1]. Extraction is purely structural and does not
/// enforce the range: out-of-range channels are clamped at hex-conversion
/// time, not here.
#[derive(Clone, Copy, PartialEq, Eq, Structural, Debug)]
pub struct SRGB {
    pub r: Real,
    pub g: Real,
    pub b: Real,
}

/// A color of one of the supported color spaces.
#[derive(Clone, Copy, PartialEq, Eq, Structural, Debug)]
pub enum Color {
    SRGB(SRGB),
}

/// A color quantized to one byte per channel. Derived transiently from a
/// [`Color`] for rendering, never built from untrusted input.
#[derive(Clone, Copy, PartialEq, Eq, Structural, Debug)]
pub struct HexColor {
    pub r: u8,
    pub g: u8,
    pub b: u8,
}

/// The quantization of a color: each channel rounded and clamped to a byte.
pub open spec fn hex_of_srgb(c: SRGB) -> HexColor {
    HexColor {
        r: channel_byte(c.r.bits),
        g: channel_byte(c.g.bits),
        b: channel_byte(c.b.bits),
    }
}

/// The quantization of a color, by its color space.
pub open spec fn hex_of_color(c: Color) -> HexColor {
    match c {
        Color::SRGB(s) => hex_of_srgb(s),
    }
}

/// The lowercase hexadecimal digit for `d` in 0..16.
pub open spec fn hex_digit(d: int) -> char {
    if d == 0 {
        '0'
    } else if d == 1 {
        '1'
    } else if d == 2 {
        '2'
    } else if d == 3 {
        '3'
    } else if d == 4 {
        '4'
    } else if d == 5 {
        '5'
    } else if d == 6 {
        '6'
    } else if d == 7 {
        '7'
    } else if d == 8 {
        '8'
    } else if d == 9 {
        '9'
    } else if d == 10 {
        'a'
    } else if d == 11 {
        'b'
    } else if d == 12 {
        'c'
    } else if d == 13 {
        'd'
    } else if d == 14 {
        'e'
    } else {
        'f'
    }
}

/// The numeric value of a lowercase hexadecimal digit, and -1 for any other
/// character.
pub open spec fn hex_digit_value(c: char) -> int {
    if c == '0' {
        0
    } else if c == '1' {
        1
    } else if c == '2' {
        2
    } else if c == '3' {
        3
    } else if c == '4' {
        4
    } else if c == '5' {
        5
    } else if c == '6' {
        6
    } else if c == '7' {
        7
    } else if c == '8' {
        8
    } else if c == '9' {
        9
    } else if c == 'a' {
        10
    } else if c == 'b' {
        11
    } else if c == 'c' {
        12
    } else if c == 'd' {
        13
    } else if c == 'e' {
        14
    } else if c == 'f' {
        15
    } else {
        -1
    }
}

/// One byte as two lowercase hex digits, zero-padded.
pub open spec fn hex_byte_chars(b: u8) -> Seq<char> {
    seq![hex_digit(b as int / 16), hex_digit(b as int % 16)]
}

/// A quantized color as six lowercase hex digits, channel order r, g, b.
pub open spec fn hex_chars(h: HexColor) -> Seq<char> {
    hex_byte_chars(h.r) + hex_byte_chars(h.g) + hex_byte_chars(h.b)
}

/// The byte a two-digit hex string denotes.
pub open spec fn parse_hex_pair(s: Seq<char>) -> int {
    16 * hex_digit_value(s[0]) + hex_digit_value(s[1])
}

/// The hex codec is exact: re-parsing the two rendered digits of any byte
/// yields that byte again.
pub proof fn lemma_hex_round_trip(b: u8)
    ensures
        parse_hex_pair(hex_byte_chars(b)) == b as int,
{
    assert(b as int == 16 * (b as int / 16) + b as int % 16) by (nonlinear_arith);
}

/// The lowercase hexadecimal digit for `d` in 0..16.
pub(crate) fn hex_digit_str(d: u8) -> (r: &'static str)
    requires
        d < 16,
    ensures
        r@ == seq![hex_digit(d as int)],
{
    proof {
        reveal_strlit("0");
        reveal_strlit("1");
        reveal_strlit("2");
        reveal_strlit("3");
        reveal_strlit("4");
        reveal_strlit("5");
        reveal_strlit("6");
        reveal_strlit("7");
        reveal_strlit("8");
        reveal_strlit("9");
        reveal_strlit("a");
        reveal_strlit("b");
        reveal_strlit("c");
        reveal_strlit("d");
        reveal_strlit("e");
        reveal_strlit("f");
    }
    let r = if d == 0 {
        "0"
    } else if d == 1 {
        "1"
    } else if d == 2 {
        "2"
    } else if d == 3 {
        "3"
    } else if d == 4 {
        "4"
    } else if d == 5 {
        "5"
    } else if d == 6 {
        "6"
    } else if d == 7 {
        "7"
    } else if d == 8 {
        "8"
    } else if d == 9 {
        "9"
    } else if d == 10 {
        "a"
    } else if d == 11 {
        "b"
    } else if d == 12 {
        "c"
    } else if d == 13 {
        "d"
    } else if d == 14 {
        "e"
    } else {
        "f"
    };
    proof {
        assert(r@ =~= seq![hex_digit(d as int)]);
    }
    r
}

impl HexColor {
    /// A quantized color from its three channel bytes.
    pub fn new(r: u8, g: u8, b: u8) -> (h: HexColor)
        ensures
            h == (HexColor { r, g, b }),
    {
        HexColor { r, g, b }
    }

    /// Exactly six lowercase hex digits, two per channel, no prefix.
    pub fn as_string(&self) -> (r: String)
        ensures
            r@ == hex_chars(*self),
            r@.len() == 6,
    {
        let mut s = String::new();
        s.append(hex_digit_str(self.r / 16));
        s.append(hex_digit_str(self.r % 16));
        s.append(hex_digit_str(self.g / 16));
        s.append(hex_digit_str(self.g % 16));
        s.append(hex_digit_str(self.b / 16));
        s.append(hex_digit_str(self.b % 16));
        proof {
            assert(s@ =~= hex_chars(*self));
        }
        s
    }
}

impl SRGB {
    /// An sRGB color from its three channels.
    pub fn new(r: Real, g: Real, b: Real) -> (c: SRGB)
        ensures
            c == (SRGB { r, g, b }),
    {
        SRGB { r, g, b }
    }
}

/// `d[key]` read as a required real: the extraction of one channel.
pub open spec fn get_real_spec(d: Dict, key: Seq<char>) -> Result<Real, ErrorView> {
    match get_spec(d, key) {
        Ok(v) => as_real_spec(v),
        Err(e) => Err(e),
    }
}

/// The sRGB extraction of a color dictionary: the color-space label must be
/// exactly "sRGB", then the three channel reals are read, fail-fast, with no
/// defaulting and no range check.
pub open spec fn srgb_of_dict(d: Dict) -> Result<SRGB, ErrorView> {
    match get_spec(d, "Color Space"@) {
        Err(e) => Err(e),
        Ok(v) => match as_string_spec(v) {
            Err(e) => Err(e),
            Ok(space) => if space != "sRGB"@ {
                Err(ErrorView::InvalidColorSpace { expected: "sRGB"@, actual: space })
            } else {
                match get_real_spec(d, "Red Component"@) {
                    Err(e) => Err(e),
                    Ok(r) => match get_real_spec(d, "Green Component"@) {
                        Err(e) => Err(e),
                        Ok(g) => match get_real_spec(d, "Blue Component"@) {
                            Err(e) => Err(e),
                            Ok(b) => Ok(SRGB { r, g, b }),
                        },
                    },
                }
            },
        },
    }
}

/// The color extraction of a color dictionary: dispatches on the
/// color-space label; a label of no supported space is the unknown-space
/// error.
pub open spec fn color_of_dict(d: Dict) -> Result<Color, ErrorView> {
    match get_spec(d, "Color Space"@) {
        Err(e) => Err(e),
        Ok(v) => match as_string_spec(v) {
            Err(e) => Err(e),
            Ok(space) => if space == "sRGB"@ {
                match srgb_of_dict(d) {
                    Err(e) => Err(e),
                    Ok(c) => Ok(Color::SRGB(c)),
                }
            } else {
                Err(ErrorView::UnknownColorSpace(space))
            },
        },
    }
}

/// The color bound to `name` in `d`: a required dictionary entry, extracted
/// as a color.
pub open spec fn named_color_spec(d: Dict, name: Seq<char>) -> Result<Color, ErrorView> {
    match get_spec(d, name) {
        Err(e) => Err(e),
        Ok(v) => match as_dictionary_spec(v) {
            Err(e) => Err(e),
            Ok(cd) => color_of_dict(cd),
        },
    }
}

impl SRGB {
    /// Extracts an sRGB color from a color dictionary, per `srgb_of_dict`.
    pub fn from_dictionary(d: &Dict) -> (r: Result<SRGB, Error>)
        ensures
            match r {
                Ok(c) => srgb_of_dict(*d) == Ok::<SRGB, ErrorView>(c),
                Err(e) => srgb_of_dict(*d) == Err::<SRGB, ErrorView>(e@),
            },
    {
        let space_key = String::from_str("Color Space");
        let v = match d.get_r(&space_key) {
            Ok(v) => v,
            Err(e) => {
                return Err(e);
            },
        };
        let space = match v.as_string_r() {
            Ok(s) => s,
            Err(e) => {
                return Err(e);
            },
        };
        let srgb_label = String::from_str("sRGB");
        if !(*space == srgb_label) {
            return Err(
                Error::InvalidColorSpace { expected: srgb_label, actual: space.clone() },
            );
        }
        let r = match Self::channel(d, String::from_str("Red Component")) {
            Ok(x) => x,
            Err(e) => {
                return Err(e);
            },
        };
        let g = match Self::channel(d, String::from_str("Green Component")) {
            Ok(x) => x,
            Err(e) => {
                return Err(e);
            },
        };
        let b = match Self::channel(d, String::from_str("Blue Component")) {
            Ok(x) => x,
            Err(e) => {
                return Err(e);
            },
        };
        Ok(Self::new(r, g, b))
    }

    /// Reads one required channel real, per `get_real_spec`.
    fn channel(d: &Dict, key: String) -> (r: Result<Real, Error>)
        ensures
            match r {
                Ok(x) => get_real_spec(*d, key@) == Ok::<Real, ErrorView>(x),
                Err(e) => get_real_spec(*d, key@) == Err::<Real, ErrorView>(e@),
            },
    {
        match d.get_r(&key) {
            Ok(v) => v.as_real_r(),
            Err(e) => Err(e),
        }
    }
}

impl Color {
    /// The color bound to `name` in `d`, per `named_color_spec`.
    pub fn named_color(name: &String, d: &Dict) -> (r: Result<Color, Error>)
        ensures
            match r {
                Ok(c) => named_color_spec(*d, name@) == Ok::<Color, ErrorView>(c),
                Err(e) => named_color_spec(*d, name@) == Err::<Color, ErrorView>(e@),
            },
    {
        let v = match d.get_r(name) {
            Ok(v) => v,
            Err(e) => {
                return Err(e);
            },
        };
        match v.as_dictionary_r() {
            Ok(cd) => Self::from_dictionary(cd),
            Err(e) => Err(e),
        }
    }

    /// Extracts a color from a color dictionary, per `color_of_dict`.
    pub fn from_dictionary(d: &Dict) -> (r: Result<Color, Error>)
        ensures
            match r {
                Ok(c) => color_of_dict(*d) == Ok::<Color, ErrorView>(c),
                Err(e) => color_of_dict(*d) == Err::<Color, ErrorView>(e@),
            },
    {
        let space_key = String::from_str("Color Space");
        let v = match d.get_r(&space_key) {
            Ok(v) => v,
            Err(e) => {
                return Err(e);
            },
        };
        let space = match v.as_string_r() {
            Ok(s) => s,
            Err(e) => {
                return Err(e);
            },
        };
        let srgb_label = String::from_str("sRGB");
        if *space == srgb_label {
            match SRGB::from_dictionary(d) {
                Ok(c) => Ok(Color::SRGB(c)),
                Err(e) => Err(e),
            }
        } else {
            Err(Error::UnknownColorSpace(space.clone()))
        }
    }

    /// Quantizes this color to one byte per channel, per `hex_of_color`.
    pub fn to_hex(&self) -> (h: HexColor)
        ensures
            h == hex_of_color(*self),
    {
        HexColor::from(self)
    }
}

impl<'a> vstd::std_specs::convert::FromSpecImpl<&'a SRGB> for HexColor {
    open spec fn obeys_from_spec() -> bool {
        true
    }

    open spec fn from_spec(c: &'a SRGB) -> HexColor {
        hex_of_srgb(*c)
    }
}

impl<'a> From<&'a SRGB> for HexColor {
    /// Applies the channel conversion to each of r, g and b.
    fn from(c: &'a SRGB) -> (h: HexColor)
        ensures
            h == hex_of_srgb(*c),
    {
        let r = channel_to_byte(c.r);
        let g = channel_to_byte(c.g);
        let b = channel_to_byte(c.b);
        HexColor::new(r, g, b)
    }
}

impl<'a> vstd::std_specs::convert::FromSpecImpl<&'a Color> for HexColor {
    open spec fn obeys_from_spec() -> bool {
        true
    }

    open spec fn from_spec(c: &'a Color) -> HexColor {
        hex_of_color(*c)
    }
}

impl<'a> From<&'a Color> for HexColor {
    /// Quantizes by color space.
    fn from(c: &'a Color) -> (h: HexColor)
        ensures
            h == hex_of_color(*c),
    {
        match c {
            Color::SRGB(s) => HexColor::from(s),
        }
    }
}

} // verus!
