//! Misc utility structs: colors and files

use vstd::prelude::*;
use crate::text::{
    digits_value, hex_digits, hex_char, hex_value, all_digits, digit_ok, parse_unsigned, unsigned_body,
    zero_pad, str_opt, string_of, push_str, u64_to_hex, zero_pad_string, parse_unsigned_exec,
};
use vstd::string::StrSliceExecFns;
use base64::Engine;

verus! {

/// Represents a color
///
/// This can be constructed from a hex string such as `#c0ffee` or from a `u32`.
#[derive(Clone, Copy, Debug, PartialEq, Eq, Structural)]
pub struct Color(pub u32);

/// Error for text that is not a hexadecimal color code
#[derive(Clone, Copy, Debug, PartialEq, Eq, Structural)]
pub struct ColorParseError;

/// The digits that a color code is read from: one leading `'#'` is skipped.
pub open spec fn color_digits(s: Seq<char>) -> Seq<char> {
    if s.len() > 0 && s[0] == '#' { s.drop_first() } else { s }
}

/// The color that a color code names, if it names one.
pub open spec fn parse_color(s: Seq<char>) -> Option<u32> {
    match parse_unsigned(color_digits(s), 16, u32::MAX as nat) {
        Some(v) => Some(v as u32),
        None => None,
    }
}

/// The hex color code of a color value: `#` and at least six lowercase digits.
pub open spec fn color_hex(v: u32) -> Seq<char> {
    seq!['#'] + zero_pad(hex_digits(v as nat), 6)
}

impl Color {
    /// Returns a hex color code representation of the color, such as `#c0ffee`
    pub fn to_hex(&self) -> (r: String)
        ensures
            r@ == color_hex(self.0),
    {
        proof {
            reveal_strlit("#");
            lemma_hex_digits_len_bound(self.0 as nat);
        }
        let digits = u64_to_hex(self.0 as u64);
        let padded = zero_pad_string(digits, 6);
        let mut r = string_of("#");
        push_str(&mut r, padded.as_str());
        r
    }

    /// Reads a color from a hex color code, with or without a leading `#`
    pub fn from_hex_str(s: &str) -> (r: Result<Color, ColorParseError>)
        ensures
            match parse_color(s@) {
                Some(v) => r == Ok::<Color, ColorParseError>(Color(v)),
                None => r == Err::<Color, ColorParseError>(ColorParseError),
            },
    {
        let n = s.unicode_len();
        let digits: &str = if n > 0 && s.get_char(0) == '#' { s.substring_char(1, n) } else { s };
        assert(digits@ =~= color_digits(s@));
        match parse_unsigned_exec(digits, 16, 4294967295u64) {
            Some(v) => Ok(Color(v as u32)),
            None => Err(ColorParseError),
        }
    }

    /// A color from its numeric value
    pub fn from_u32(n: u32) -> (r: Color)
        ensures
            r == Color(n),
    {
        Color(n)
    }
}

impl From<u32> for Color {
    fn from(n: u32) -> (r: Color) {
        Color(n)
    }
}

impl vstd::std_specs::convert::FromSpecImpl<u32> for Color {
    open spec fn obeys_from_spec() -> bool {
        true
    }

    open spec fn from_spec(n: u32) -> Color {
        Color(n)
    }
}

/// The hex digits of a number never start with `'+'`, are all digits, and spell the number.
pub proof fn lemma_hex_digits_value(n: nat)
    ensures
        all_digits(hex_digits(n), 16),
        digits_value(hex_digits(n), 16) == n,
        hex_digits(n).len() >= 1,
    decreases n,
{
    if n < 16 {
        lemma_hex_char_value(n);
        let s = hex_digits(n);
        assert(s.drop_last() =~= Seq::<char>::empty());
        assert(s.last() == hex_char(n));
        assert(digits_value(Seq::<char>::empty(), 16) == 0);
        assert(digits_value(s, 16) == digits_value(s.drop_last(), 16) * 16 + hex_value(s.last()).unwrap());
    } else {
        lemma_hex_digits_value(n / 16);
        lemma_hex_char_value(n % 16);
        let s = hex_digits(n);
        assert(s.drop_last() =~= hex_digits(n / 16));
        assert(s.last() == hex_char(n % 16));
        assert(digits_value(s, 16) == digits_value(s.drop_last(), 16) * 16 + hex_value(s.last()).unwrap());
        assert forall|i: int| 0 <= i < s.len() implies digit_ok(#[trigger] s[i], 16) by {
            if i < s.len() - 1 {
                assert(s[i] == hex_digits(n / 16)[i]);
            }
        }
    }
}

/// A lowercase hex digit character reads back as its value.
pub proof fn lemma_hex_char_value(d: nat)
    requires
        d < 16,
    ensures
        hex_value(hex_char(d)) == Some(d),
{
}

/// A 32-bit value has at most eight hex digits.
pub proof fn lemma_hex_digits_len_bound(n: nat)
    ensures
        n < 0x1_0000_0000 ==> hex_digits(n).len() <= 8,
{
    if n < 0x1_0000_0000 {
        reveal_with_fuel(pow16, 9);
        assert(pow16(8) == 0x1_0000_0000);
        lemma_hex_len_below(n, 8);
    }
}

/// A number below `16^k` (`k >= 1`) has at most `k` hex digits.
pub proof fn lemma_hex_len_below(n: nat, k: nat)
    requires
        k >= 1,
        n < pow16(k),
    ensures
        hex_digits(n).len() <= k,
    decreases k,
{
    if n >= 16 {
        assert(k >= 2) by {
            if k == 1 {
                assert(pow16(1) == 16 * pow16(0));
            }
        }
        assert(pow16(k) == 16 * pow16((k - 1) as nat));
        assert(n / 16 < pow16((k - 1) as nat));
        lemma_hex_len_below(n / 16, (k - 1) as nat);
    }
}

/// `16^k`.
pub open spec fn pow16(k: nat) -> nat
    decreases k,
{
    if k == 0 { 1 } else { 16 * pow16((k - 1) as nat) }
}

/// Leading zeros do not change the value of a digit string.
pub proof fn lemma_zero_pad_value(s: Seq<char>, width: nat)
    requires
        all_digits(s, 16),
    ensures
        all_digits(zero_pad(s, width), 16),
        digits_value(zero_pad(s, width), 16) == digits_value(s, 16),
        s.len() >= 1 ==> zero_pad(s, width).len() >= 1,
        zero_pad(s, width).len() >= 1 && s.len() < width ==> zero_pad(s, width)[0] == '0',
    decreases width,
{
    if s.len() < width {
        let z = zero_pad(s, width);
        let shorter = zero_pad(s, (width - 1) as nat);
        lemma_zero_pad_value(s, (width - 1) as nat);
        assert(z =~= seq!['0'] + shorter) by {
            if s.len() >= width - 1 {
                assert(shorter =~= s);
            }
        }
        lemma_value_prepend_zero(shorter);
        assert forall|i: int| 0 <= i < z.len() implies digit_ok(#[trigger] z[i], 16) by {
            if i > 0 {
                assert(z[i] == shorter[i - 1]);
            }
        }
    }
}

/// A leading zero does not change the value of a digit string.
pub proof fn lemma_value_prepend_zero(s: Seq<char>)
    ensures
        digits_value(seq!['0'] + s, 16) == digits_value(s, 16),
    decreases s.len(),
{
    let t = seq!['0'] + s;
    if s.len() == 0 {
        assert(t.drop_last() =~= Seq::<char>::empty());
        assert(digits_value(Seq::<char>::empty(), 16) == 0);
        assert(digits_value(t, 16) == digits_value(t.drop_last(), 16) * 16 + hex_value(t.last()).unwrap());
    } else {
        assert(t.drop_last() =~= seq!['0'] + s.drop_last());
        lemma_value_prepend_zero(s.drop_last());
        assert(t.last() == s.last());
        assert(digits_value(t, 16) == digits_value(t.drop_last(), 16) * 16 + hex_value(t.last()).unwrap());
        assert(digits_value(s, 16) == digits_value(s.drop_last(), 16) * 16 + hex_value(s.last()).unwrap());
    }
}

/// Reading back the hex code of a color gives the color: `from_hex_str(to_hex(c)) == c`.
pub proof fn law_color_hex_round_trip(c: Color)
    ensures
        parse_color(color_hex(c.0)) == Some(c.0),
{
    let v = c.0 as nat;
    lemma_hex_digits_value(v);
    lemma_zero_pad_value(hex_digits(v), 6);
    let padded = zero_pad(hex_digits(v), 6);
    let code = color_hex(c.0);
    assert(color_digits(code) =~= padded);
    assert(padded[0] != '+') by {
        assert(digit_ok(padded[0], 16));
    }
    assert(unsigned_body(padded) == padded);
}

/// The standard base64 alphabet.
pub open spec fn base64_char(v: nat) -> char {
    if v < 26 {
        ('A' as nat + v) as char
    } else if v < 52 {
        ('a' as nat + (v - 26)) as char
    } else if v < 62 {
        ('0' as nat + (v - 52)) as char
    } else if v == 62 {
        '+'
    } else {
        '/'
    }
}

/// Standard base64 encoding with `=` padding.
pub open spec fn base64_encode(s: Seq<u8>) -> Seq<char>
    decreases s.len(),
{
    if s.len() == 0 {
        Seq::empty()
    } else if s.len() == 1 {
        seq![base64_char((s[0] / 4) as nat), base64_char(((s[0] % 4) * 16) as nat), '=', '=']
    } else if s.len() == 2 {
        seq![
            base64_char((s[0] / 4) as nat),
            base64_char(((s[0] % 4) * 16 + s[1] / 16) as nat),
            base64_char(((s[1] % 16) * 4) as nat),
            '=',
        ]
    } else {
        seq![
            base64_char((s[0] / 4) as nat),
            base64_char(((s[0] % 4) * 16 + s[1] / 16) as nat),
            base64_char(((s[1] % 16) * 4 + s[2] / 64) as nat),
            base64_char((s[2] % 64) as nat),
        ] + base64_encode(s.subrange(3, s.len() as int))
    }
}

/// The MIME type that the `infer` crate recognises from the leading bytes of a file, if any.
pub uninterp spec fn inferred_mime_type(data: Seq<u8>) -> Option<Seq<char>>;

/// Calls `base64::prelude::BASE64_STANDARD.encode`, which writes standard
/// base64 with `=` padding; its contract claims exactly that encoding.
#[verifier::external_body]
fn base64_standard_encode(data: &[u8]) -> (r: String)
    requires
        data@.len() <= usize::MAX / 2,
    ensures
        r@ == base64_encode(data@),
{
    base64::prelude::BASE64_STANDARD.encode(data)
}

/// Calls `infer::get` and takes the MIME type of the match; its contract
/// claims that the result is `inferred_mime_type` of the bytes, a function of
/// the bytes alone. That the call returns on every input is not stated by a `requires`:
/// bytes that start with the OLE2 signature are handed by `infer` to the parser of the
/// `cfb` crate, whose handling of malformed input this library rests on unchecked.
#[verifier::external_body]
fn infer_mime_type(data: &[u8]) -> (r: Option<String>)
    ensures
        match inferred_mime_type(data@) {
            Some(m) => r matches Some(x) && x@ == m,
            None => r is None,
        },
{
    infer::get(data).map(|t| t.mime_type().to_string())
}

/// Represents a file
#[derive(Clone, Debug)]
pub struct File {
    /// Name of the file
    pub filename: String,
    /// The bytes in the file
    pub data: Vec<u8>,
    /// Optional alt text for the file
    pub description: Option<String>,
    /// The duration in seconds for a voice message, as the bit pattern of an `f64`
    pub duration_secs: Option<u64>,
    /// The waveform for a voice message
    pub waveform: Option<String>,
}

/// The MIME type that a file's data URL names.
pub open spec fn data_url_mime(data: Seq<u8>) -> Seq<char> {
    match inferred_mime_type(data) {
        Some(m) => m,
        None => "application/octet-stream"@,
    }
}

/// The base64 data URL of a file's bytes.
pub open spec fn data_url(data: Seq<u8>) -> Seq<char> {
    "data:"@ + data_url_mime(data) + ";base64,"@ + base64_encode(data)
}

impl File {
    /// Create a new file from bytes
    pub fn new(filename: &str, data: Vec<u8>) -> (r: File)
        ensures
            r.filename@ == filename@,
            r.data@ == data@,
            r.description is None,
            r.duration_secs is None,
            r.waveform is None,
    {
        File { filename: string_of(filename), data, description: None, duration_secs: None, waveform: None }
    }

    /// Set a description for a file
    pub fn set_description(self, description: &str) -> (r: File)
        ensures
            str_opt(r.description, description@),
            r == (File { description: r.description, ..self }),
    {
        File { description: Some(string_of(description)), ..self }
    }

    /// Set the duration, given as the bit pattern of an `f64` number of seconds
    pub fn set_duration_secs(self, duration_secs: u64) -> (r: File)
        ensures
            r == (File { duration_secs: Some(duration_secs), ..self }),
    {
        File { duration_secs: Some(duration_secs), ..self }
    }

    /// Set the waveform
    pub fn set_waveform(self, waveform: &str) -> (r: File)
        ensures
            str_opt(r.waveform, waveform@),
            r == (File { waveform: r.waveform, ..self }),
    {
        File { waveform: Some(string_of(waveform)), ..self }
    }

    /// Returns the file as a base64 data URL, naming the MIME type that the
    /// file's leading bytes show, or `application/octet-stream`
    pub fn to_data_url(&self) -> (r: String)
        requires
            self.data@.len() <= usize::MAX / 2,
        ensures
            r@ == data_url(self.data@),
    {
        proof {
            reveal_strlit("data:");
            reveal_strlit("application/octet-stream");
            reveal_strlit(";base64,");
        }
        let mime = match infer_mime_type(self.data.as_slice()) {
            Some(m) => m,
            None => string_of("application/octet-stream"),
        };
        let b64 = base64_standard_encode(self.data.as_slice());
        let mut r = string_of("data:");
        push_str(&mut r, mime.as_str());
        push_str(&mut r, ";base64,");
        push_str(&mut r, b64.as_str());
        r
    }
}

} // verus!
