//! Colors and their hexadecimal notation.

use vstd::prelude::*;
use vstd::arithmetic::power::{lemma_pow0, pow};
use vstd::string::{StrSliceExecFns, StringExecFns};
use crate::text::{push_hex, quoted};

verus! {

/// The color of one diode.
#[derive(Debug, Clone, Copy, PartialEq, Eq, Structural)]
pub struct Color {
    pub r: u8,
    pub g: u8,
    pub b: u8,
}

/// A text that is no hexadecimal color; it is held without the leading `#`.
#[derive(Debug)]
pub struct ColorError {
    pub text: String,
}

pub open spec fn is_hex_digit(c: char) -> bool {
    '0' <= c <= '9' || 'a' <= c <= 'f' || 'A' <= c <= 'F'
}

pub open spec fn hex_digit_value(c: char) -> nat {
    if '0' <= c <= '9' {
        (c as int - '0' as int) as nat
    } else if 'a' <= c <= 'f' {
        (c as int - 'a' as int + 10) as nat
    } else {
        (c as int - 'A' as int + 10) as nat
    }
}

/// The number that `s` writes in base 16.
pub open spec fn hex_value(s: Seq<char>) -> nat
    decreases s.len(),
{
    if s.len() == 0 {
        0
    } else {
        hex_value(s.drop_last()) * 16 + hex_digit_value(s.last())
    }
}

/// `s` without one leading `#`.
pub open spec fn strip_hash(s: Seq<char>) -> Seq<char> {
    if s.len() > 0 && s[0] == '#' {
        s.skip(1)
    } else {
        s
    }
}

/// One to six hexadecimal digits.
pub open spec fn is_hex_color(s: Seq<char>) -> bool {
    &&& 1 <= s.len() <= 6
    &&& forall|i: int| 0 <= i < s.len() ==> is_hex_digit(#[trigger] s[i])
}

/// The color of a 24 bit number: red is its highest byte, blue its lowest.
pub open spec fn color_of(n: nat) -> Color {
    Color { r: (n / 65536 % 256) as u8, g: (n / 256 % 256) as u8, b: (n % 256) as u8 }
}

/// The color that `s` writes, if it writes one.
pub open spec fn parse_color(s: Seq<char>) -> Option<Color> {
    if is_hex_color(strip_hash(s)) {
        Some(color_of(hex_value(strip_hash(s))))
    } else {
        None
    }
}

/// The channel `c` at `brightness` percent, rounded down; above 100 percent it may wrap.
pub open spec fn scale(c: u8, brightness: u8) -> u8 {
    (c * brightness / 100 % 256) as u8
}

pub open spec fn scale_color(c: Color, brightness: u8) -> Color {
    Color { r: scale(c.r, brightness), g: scale(c.g, brightness), b: scale(c.b, brightness) }
}

/// The six digits of a color, red first.
pub open spec fn color_hex(c: Color) -> Seq<char> {
    crate::text::hex_padded(c.r as nat, 2) + crate::text::hex_padded(c.g as nat, 2)
        + crate::text::hex_padded(c.b as nat, 2)
}

/// The value of a digit, or `None` for another character.
fn digit_value(c: char) -> (r: Option<u32>)
    ensures
        r matches Some(v) ==> is_hex_digit(c) && v == hex_digit_value(c) && v < 16,
        r is None ==> !is_hex_digit(c),
{
    if '0' <= c && c <= '9' {
        Some(c as u32 - '0' as u32)
    } else if 'a' <= c && c <= 'f' {
        Some(c as u32 - 'a' as u32 + 10)
    } else if 'A' <= c && c <= 'F' {
        Some(c as u32 - 'A' as u32 + 10)
    } else {
        None
    }
}

fn scale_channel(c: u8, brightness: u8) -> (r: u8)
    ensures
        r == scale(c, brightness),
{
    assert(c * brightness <= 255 * 255) by (nonlinear_arith)
        requires
            c <= 255,
            brightness <= 255,
    ;
    let scaled: u32 = (c as u32 * brightness as u32) / 100;
    assert(scaled as u8 == scaled % 256) by (bit_vector);
    scaled as u8
}

/// `s` without one leading `#`.
pub(crate) fn without_hash(s: &str) -> (r: &str)
    ensures
        r@ == strip_hash(s@),
{
    let len: usize = s.unicode_len();
    let start: usize = if len > 0 && s.get_char(0) == '#' {
        1
    } else {
        0
    };
    let r = s.substring_char(start, len);
    assert(r@ =~= strip_hash(s@));
    r
}

impl Color {
    /// Reads one to six hexadecimal digits, with or without a leading `#`. Fewer than six digits
    /// are the low digits of the color.
    pub fn from_hex(s: &str) -> (r: Result<Self, ColorError>)
        ensures
            match r {
                Ok(c) => parse_color(s@) == Some(c),
                Err(e) => parse_color(s@) is None && e.text@ == strip_hash(s@),
            },
            r matches Err(e) ==> e.text@ == (if s@.len() > 0 && s@[0] == '#' {
                s@.subrange(1, s@.len() as int)
            } else {
                s@
            }),
    {
        let digits = without_hash(s);
        let len: usize = digits.unicode_len();
        if len == 0 || len > 6 {
            return Err(ColorError { text: digits.to_owned() });
        }
        let mut n: u32 = 0;
        let mut i: usize = 0;
        while i < len
            invariant
                digits@.len() == len,
                1 <= len <= 6,
                digits@ == strip_hash(s@),
                i <= len,
                forall|j: int| 0 <= j < i ==> is_hex_digit(#[trigger] digits@[j]),
                n == hex_value(digits@.take(i as int)),
                i == 0 ==> n == 0,
                i == 1 ==> n < 16,
                i == 2 ==> n < 256,
                i == 3 ==> n < 4096,
                i == 4 ==> n < 65536,
                i == 5 ==> n < 1048576,
                i == 6 ==> n < 16777216,
            decreases len - i,
        {
            match digit_value(digits.get_char(i)) {
                Some(v) => {
                    assert(digits@.take(i + 1).drop_last() =~= digits@.take(i as int));
                    n = n * 16 + v;
                },
                None => {
                    assert(!is_hex_digit(digits@[i as int]));
                    return Err(ColorError { text: digits.to_owned() });
                },
            }
            i = i + 1;
        }
        assert(digits@.take(i as int) =~= digits@);
        assert((n >> 16) & 0xff == n / 65536 % 256) by (bit_vector);
        assert((n >> 8) & 0xff == n / 256 % 256) by (bit_vector);
        assert(n & 0xff == n % 256) by (bit_vector);
        Ok(Color { r: ((n >> 16) & 0xff) as u8, g: ((n >> 8) & 0xff) as u8, b: (n & 0xff) as u8 })
    }

    /// Scales each channel to `brightness` percent.
    pub fn scaled(self, brightness: u8) -> (r: Self)
        ensures
            r == scale_color(self, brightness),
            r.r == self.r * brightness / 100 % 256,
            r.g == self.g * brightness / 100 % 256,
            r.b == self.b * brightness / 100 % 256,
    {
        proof {
            law_scaling_is_the_floor(self, brightness);
        }
        Color {
            r: scale_channel(self.r, brightness),
            g: scale_channel(self.g, brightness),
            b: scale_channel(self.b, brightness),
        }
    }
}

/// Appends the six digits of `color`.
pub(crate) fn push_color(s: &mut String, color: Color)
    ensures
        final(s)@ == old(s)@ + color_hex(color),
{
    push_hex(s, color.r as u16, 2);
    push_hex(s, color.g as u16, 2);
    push_hex(s, color.b as u16, 2);
    assert(s@ =~= old(s)@ + color_hex(color));
}

pub open spec fn color_error_text(quoted: Seq<char>) -> Seq<char> {
    "invalid hex color "@ + quoted + ": expected 1-6 hex digits"@
}

pub open spec fn color_error_message(text: Seq<char>) -> Seq<char> {
    color_error_text(crate::text::debug_quoted(text))
}

/// The error for a text that is no color, given in quotes.
pub fn invalid_color(quoted: &str) -> (m: String)
    ensures
        m@ == color_error_text(quoted@),
        m@ == "invalid hex color "@ + quoted@ + ": expected 1-6 hex digits"@,
{
    let mut m = "invalid hex color ".to_owned();
    m.append(quoted);
    m.append(": expected 1-6 hex digits");
    m
}

impl ColorError {
    /// The error in words.
    pub fn message(&self) -> (m: String)
        ensures
            m@ == color_error_message(self.text@),
            m@ == "invalid hex color "@ + crate::text::debug_quoted(self.text@)
                + ": expected 1-6 hex digits"@,
    {
        invalid_color(quoted(self.text.as_str()).as_str())
    }
}

/// A leading `#` changes nothing, unless another `#` follows it.
pub proof fn law_hash_is_optional(s: Seq<char>)
    requires
        s.len() == 0 || s[0] != '#',
    ensures
        parse_color(seq!['#'] + s) == parse_color(s),
{
    assert((seq!['#'] + s).skip(1) =~= s);
}

/// The digits that a color is shown with read back as that color, with or without a `#`.
pub proof fn law_hex_reads_back(c: Color)
    ensures
        parse_color(color_hex(c)) == Some(c),
        parse_color(seq!['#'] + color_hex(c)) == Some(c),
{
    let s = color_hex(c);
    let red = crate::text::hex_padded(c.r as nat, 2);
    let green = crate::text::hex_padded(c.g as nat, 2);
    let none = Seq::<char>::empty();
    assert(none + red =~= red);
    lemma_two_digits(none, c.r);
    lemma_two_digits(red, c.g);
    lemma_two_digits(red + green, c.b);
    lemma_color_of(c);
    assert(is_hex_color(s)) by {
        let blue = crate::text::hex_padded(c.b as nat, 2);
        assert forall|i: int| 0 <= i < 6 implies is_hex_digit(#[trigger] s[i]) by {
            assert(i < 2 ==> s[i] == red[i]);
            assert(2 <= i < 4 ==> s[i] == green[i - 2]);
            assert(4 <= i ==> s[i] == blue[i - 4]);
        }
    }
    assert(is_hex_digit(s[0]));
    assert(strip_hash(s) == s);
    law_hash_is_optional(s);
}

proof fn lemma_color_of(c: Color)
    ensures
        color_of(((c.r * 256 + c.g) * 256 + c.b) as nat) == c,
{
}

/// Two digits behind `s` add one byte to the number that `s` writes.
proof fn lemma_two_digits(s: Seq<char>, byte: u8)
    ensures
        crate::text::hex_padded(byte as nat, 2).len() == 2,
        forall|i: int|
            0 <= i < 2 ==> is_hex_digit(#[trigger] crate::text::hex_padded(byte as nat, 2)[i]),
        hex_value(s + crate::text::hex_padded(byte as nat, 2)) == hex_value(s) * 256 + byte,
{
    reveal_with_fuel(crate::text::hex_padded, 3);
    let (high, low) = (byte as nat / 16, byte as nat % 16);
    let two = crate::text::hex_padded(byte as nat, 2);
    assert(two =~= seq![crate::text::digit(high), crate::text::digit(low)]);
    assert((s + two).drop_last() =~= s.push(crate::text::digit(high)));
    assert(s.push(crate::text::digit(high)).drop_last() =~= s);
    assert(hex_digit_value(crate::text::digit(high)) == high);
    assert(hex_digit_value(crate::text::digit(low)) == low);
    assert(hex_value(s.push(crate::text::digit(high))) == hex_value(s) * 16 + high);
    assert((s + two).last() == crate::text::digit(low));
}

/// Full brightness changes no color.
pub proof fn law_full_brightness_keeps_color(c: Color)
    ensures
        scale_color(c, 100) == c,
{
}

/// At zero brightness every color is black.
pub proof fn law_zero_brightness_is_black(c: Color)
    ensures
        scale_color(c, 0) == (Color { r: 0, g: 0, b: 0 }),
{
}

/// Up to 100 percent no channel gets brighter than the color, and a higher brightness never
/// makes a channel darker.
pub proof fn law_scaling_is_monotone(c: Color, low: u8, high: u8)
    requires
        low <= high <= 100,
    ensures
        scale_color(c, high).r <= c.r,
        scale_color(c, high).g <= c.g,
        scale_color(c, high).b <= c.b,
        scale_color(c, low).r <= scale_color(c, high).r,
        scale_color(c, low).g <= scale_color(c, high).g,
        scale_color(c, low).b <= scale_color(c, high).b,
{
    lemma_scale_monotone(c.r, low, high);
    lemma_scale_monotone(c.g, low, high);
    lemma_scale_monotone(c.b, low, high);
}

proof fn lemma_scale_monotone(c: u8, low: u8, high: u8)
    requires
        low <= high <= 100,
    ensures
        scale(c, low) <= scale(c, high) <= c,
{
    assert(c * low <= c * high <= c * 100) by (nonlinear_arith)
        requires
            low <= high <= 100,
            0 <= c,
    ;
}

/// `strip_hash` takes one `#` off the front, and nothing else.
pub proof fn law_one_hash_is_stripped(s: Seq<char>)
    ensures
        strip_hash(seq!['#'] + s) == s,
        s.len() == 0 || s[0] != '#' ==> strip_hash(s) == s,
{
    assert((seq!['#'] + s).skip(1) =~= s);
}

/// A color is one to six hexadecimal digits, of either case, behind at most one `#`, and it is the
/// number that they write: its three bytes, red highest, have at each place of sixteen the value
/// of the digit there, and nothing above the first digit.
pub proof fn law_color_is_the_number_written(s: Seq<char>, d: Seq<char>)
    requires
        s == seq!['#'] + d || (s == d && (d.len() == 0 || d[0] != '#')),
    ensures
        parse_color(s) is Some <==> (1 <= d.len() <= 6 && (forall|i: int|
            0 <= i < d.len() ==> (48 <= (#[trigger] d[i]) as int <= 57 || 65 <= d[i] as int <= 70
                || 97 <= d[i] as int <= 102))),
        parse_color(s) matches Some(c) ==> {
            let n = c.r * 65536 + c.g * 256 + c.b;
            &&& n < pow(16, d.len())
            &&& forall|i: int|
                0 <= i < d.len() ==> n / pow(16, (d.len() - 1 - i) as nat) % 16 == (if (
                #[trigger] d[i]) as int <= 57 {
                    d[i] as int - 48
                } else if d[i] as int <= 70 {
                    d[i] as int - 55
                } else {
                    d[i] as int - 87
                })
        },
{
    assert(strip_hash(s) =~= d);
    if is_hex_color(d) {
        lemma_hex_value_places(d);
        lemma_six_places(d.len());
        let v = hex_value(d) as int;
        let c = color_of(hex_value(d));
        assert(v < 16777216);
        assert(c.r * 65536 + c.g * 256 + c.b == v);
        assert forall|i: int| 0 <= i < d.len() implies v / pow(16, (d.len() - 1 - i) as nat) % 16
            == (if (#[trigger] d[i]) as int <= 57 {
            d[i] as int - 48
        } else if d[i] as int <= 70 {
            d[i] as int - 55
        } else {
            d[i] as int - 87
        }) by {
            assert(is_hex_digit(d[i]));
        }
    }
    assert forall|i: int| 0 <= i < d.len() implies (is_hex_digit(#[trigger] d[i]) <==> (48
        <= d[i] as int <= 57 || 65 <= d[i] as int <= 70 || 97 <= d[i] as int <= 102)) by {
    }
}

proof fn lemma_six_places(k: nat)
    requires
        k <= 6,
    ensures
        pow(16, k) <= 16777216,
{
    reveal(pow);
    reveal_with_fuel(pow, 7);
}

proof fn lemma_hex_value_places(s: Seq<char>)
    requires
        forall|i: int| 0 <= i < s.len() ==> is_hex_digit(#[trigger] s[i]),
    ensures
        hex_value(s) < pow(16, s.len()),
        forall|i: int|
            0 <= i < s.len() ==> hex_value(s) as int / pow(16, (s.len() - 1 - i) as nat) % 16
                == hex_digit_value(#[trigger] s[i]),
    decreases s.len(),
{
    lemma_pow0(16);
    if s.len() > 0 {
        let t = s.drop_last();
        let (n, m) = (hex_value(s) as int, hex_value(t) as int);
        assert forall|i: int| 0 <= i < t.len() implies is_hex_digit(#[trigger] t[i]) by {
            assert(t[i] == s[i]);
        }
        lemma_hex_value_places(t);
        assert(n == m * 16 + hex_digit_value(s.last()));
        assert(hex_digit_value(s.last()) < 16) by {
            assert(is_hex_digit(s[s.len() - 1]));
        }
        crate::text::lemma_place(n, 16, t.len());
        assert forall|i: int| 0 <= i < s.len() implies n / pow(16, (s.len() - 1 - i) as nat) % 16
            == hex_digit_value(#[trigger] s[i]) by {
            if i < t.len() {
                assert(t[i] == s[i]);
                crate::text::lemma_place(n, 16, (t.len() - 1 - i) as nat);
                assert((t.len() - 1 - i) as nat + 1 == (s.len() - 1 - i) as nat);
            }
        }
    }
}

/// Each channel at a brightness of up to 100 is the floor of its share in percent; above that the
/// share is taken modulo 256.
pub proof fn law_scaling_is_the_floor(c: Color, brightness: u8)
    ensures
        ({
            let s = scale_color(c, brightness);
            &&& brightness <= 100 ==> 100 * s.r <= c.r * brightness < 100 * (s.r + 1)
            &&& brightness <= 100 ==> 100 * s.g <= c.g * brightness < 100 * (s.g + 1)
            &&& brightness <= 100 ==> 100 * s.b <= c.b * brightness < 100 * (s.b + 1)
            &&& s.r == c.r * brightness / 100 % 256
            &&& s.g == c.g * brightness / 100 % 256
            &&& s.b == c.b * brightness / 100 % 256
        }),
{
    lemma_scale_floor(c.r, brightness);
    lemma_scale_floor(c.g, brightness);
    lemma_scale_floor(c.b, brightness);
}

proof fn lemma_scale_floor(c: u8, brightness: u8)
    ensures
        scale(c, brightness) == c * brightness / 100 % 256,
        brightness <= 100 ==> 100 * scale(c, brightness) <= c * brightness < 100 * (scale(
            c,
            brightness,
        ) + 1),
{
    assert(0 <= c * brightness) by (nonlinear_arith);
    if brightness <= 100 {
        assert(c * brightness <= 25500) by (nonlinear_arith)
            requires
                c <= 255,
                brightness <= 100,
        ;
    }
}

/// A color is shown as two lower case hexadecimal digits for each of red, green and blue.
pub proof fn law_color_is_shown_in_hex(c: Color)
    ensures
        color_hex(c).len() == 6,
        forall|i: int|
            0 <= i < 6 ==> {
                let byte = if i < 2 {
                    c.r as int
                } else if i < 4 {
                    c.g as int
                } else {
                    c.b as int
                };
                let d = if i % 2 == 0 {
                    byte / 16
                } else {
                    byte % 16
                };
                (#[trigger] color_hex(c)[i]) as int == (if d < 10 {
                    48 + d
                } else {
                    87 + d
                })
            },
{
    lemma_byte_in_hex(c.r);
    lemma_byte_in_hex(c.g);
    lemma_byte_in_hex(c.b);
    let (r, g, b) = (
        crate::text::hex_padded(c.r as nat, 2),
        crate::text::hex_padded(c.g as nat, 2),
        crate::text::hex_padded(c.b as nat, 2),
    );
    assert(color_hex(c) =~= seq![r[0], r[1], g[0], g[1], b[0], b[1]]);
}

proof fn lemma_byte_in_hex(byte: u8)
    ensures
        ({
            let s = crate::text::hex_padded(byte as nat, 2);
            let (high, low) = (byte as int / 16, byte as int % 16);
            &&& s.len() == 2
            &&& s[0] as int == (if high < 10 {
                48 + high
            } else {
                87 + high
            })
            &&& s[1] as int == (if low < 10 {
                48 + low
            } else {
                87 + low
            })
        }),
{
    reveal_with_fuel(crate::text::hex_padded, 3);
}

} // verus!
