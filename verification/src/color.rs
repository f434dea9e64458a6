//! Fill colours: hex text to packed ARGB, and packed ARGB to RGBA bytes.

use vstd::prelude::*;
use vstd::string::*;

verus! {

/// The value of one hex digit, either case.
pub open spec fn hex_digit_value(c: char) -> Option<nat> {
    if '0' <= c <= '9' {
        Some((c as nat - 48) as nat)
    } else if 'a' <= c <= 'f' {
        Some((c as nat - 87) as nat)
    } else if 'A' <= c <= 'F' {
        Some((c as nat - 55) as nat)
    } else {
        None
    }
}

/// The number that a run of hex digits spells, most significant first;
/// `None` if any character is not a hex digit.
pub open spec fn hex_number(s: Seq<char>) -> Option<nat>
    decreases s.len(),
{
    if s.len() == 0 {
        Some(0)
    } else {
        match (hex_number(s.drop_last()), hex_digit_value(s.last())) {
            (Some(high), Some(low)) => Some(high * 16 + low),
            _ => None,
        }
    }
}

/// The digits of a colour: the text after one optional leading `#`.
pub open spec fn color_digits(s: Seq<char>) -> Seq<char> {
    if s.len() > 0 && s[0] == '#' {
        s.drop_first()
    } else {
        s
    }
}

/// Opaque white, the colour of text that is not a colour.
pub const FALLBACK_ARGB: u32 = 0xffff_ffff;

/// Packed `0xAARRGGBB` of a fill written as `#RRGGBB` (opaque) or
/// `#RRGGBBAA`, either case, `#` optional; anything else is opaque white.
pub open spec fn color_argb(s: Seq<char>) -> u32 {
    let d = color_digits(s);
    match hex_number(d) {
        Some(v) => if d.len() == 6 {
            (0xff00_0000 + v) as u32
        } else if d.len() == 8 {
            ((v % 256) * 0x100_0000 + v / 256) as u32
        } else {
            FALLBACK_ARGB
        },
        None => FALLBACK_ARGB,
    }
}

/// Sixteen to the power `n`.
pub open spec fn pow16(n: nat) -> nat
    decreases n,
{
    if n == 0 {
        1
    } else {
        16 * pow16((n - 1) as nat)
    }
}

proof fn lemma_pow16_small(n: nat)
    requires
        n <= 8,
    ensures
        pow16(n) <= 0x1_0000_0000,
{
    reveal_with_fuel(pow16, 9);
}

/// The value of one hex digit character, either case.
fn digit_value(c: char) -> (r: Option<u64>)
    ensures
        match hex_digit_value(c) {
            Some(v) => r == Some(v as u64),
            None => r is None,
        },
{
    if '0' <= c && c <= '9' {
        Some((c as u64) - 48)
    } else if 'a' <= c && c <= 'f' {
        Some((c as u64) - 87)
    } else if 'A' <= c && c <= 'F' {
        Some((c as u64) - 55)
    } else {
        None
    }
}

/// Whether `c` is a hex digit character, either case.
pub open spec fn is_hex_char(c: char) -> bool {
    ('0' <= c <= '9') || ('a' <= c <= 'f') || ('A' <= c <= 'F')
}

/// What a hex digit character is worth: `0` to `9` are zero to nine,
/// `a` to `f` and `A` to `F` ten to fifteen.
pub open spec fn digit_worth(c: char) -> int {
    if '0' <= c <= '9' {
        c as int - '0' as int
    } else if 'a' <= c <= 'f' {
        c as int - 'a' as int + 10
    } else {
        c as int - 'A' as int + 10
    }
}

/// Each of the digits `0`-`9` and letters `a`-`f`, `A`-`F` counts with
/// its worth; no other character is a digit.
pub proof fn lemma_hex_digits_count(c: char)
    ensures
        '0' <= c <= '9' ==> hex_digit_value(c) == Some((c as int - 48) as nat),
        'a' <= c <= 'f' ==> hex_digit_value(c) == Some((c as int - 87) as nat),
        'A' <= c <= 'F' ==> hex_digit_value(c) == Some((c as int - 55) as nat),
        is_hex_char(c) ==> hex_digit_value(c) == Some(digit_worth(c) as nat),
        is_hex_char(c) ==> 0 <= digit_worth(c) < 16,
        !is_hex_char(c) ==> hex_digit_value(c) is None,
{
}

proof fn lemma_prefix_number(d: Seq<char>, k: int, v: int)
    requires
        0 < k <= d.len(),
        hex_number(d.subrange(0, k - 1)) == Some(v as nat),
        v >= 0,
        is_hex_char(d[k - 1]),
    ensures
        hex_number(d.subrange(0, k)) == Some((v * 16 + digit_worth(d[k - 1])) as nat),
{
    lemma_hex_digits_count(d[k - 1]);
    assert(d.subrange(0, k).drop_last() =~= d.subrange(0, k - 1));
    assert(d.subrange(0, k).last() == d[k - 1]);
}

proof fn lemma_digits_number(d: Seq<char>)
    requires
        d.len() == 6 || d.len() == 8,
        forall|i: int| 0 <= i < d.len() ==> is_hex_char(#[trigger] d[i]),
    ensures
        d.len() == 6 ==> hex_number(d) == Some((digit_worth(d[0]) * 0x10_0000 + digit_worth(d[1])
            * 0x1_0000 + digit_worth(d[2]) * 0x1000 + digit_worth(d[3]) * 0x100 + digit_worth(d[4])
            * 0x10 + digit_worth(d[5])) as nat),
        d.len() == 8 ==> hex_number(d) == Some((digit_worth(d[0]) * 0x1000_0000 + digit_worth(d[1])
            * 0x100_0000 + digit_worth(d[2]) * 0x10_0000 + digit_worth(d[3]) * 0x1_0000
            + digit_worth(d[4]) * 0x1000 + digit_worth(d[5]) * 0x100 + digit_worth(d[6]) * 0x10
            + digit_worth(d[7])) as nat),
{
    let w0 = digit_worth(d[0]);
    let w1 = digit_worth(d[1]);
    let w2 = digit_worth(d[2]);
    let w3 = digit_worth(d[3]);
    let w4 = digit_worth(d[4]);
    let w5 = digit_worth(d[5]);
    lemma_hex_digits_count(d[0]);
    lemma_hex_digits_count(d[1]);
    lemma_hex_digits_count(d[2]);
    lemma_hex_digits_count(d[3]);
    lemma_hex_digits_count(d[4]);
    lemma_hex_digits_count(d[5]);
    assert(d.subrange(0, 0) =~= Seq::<char>::empty());
    lemma_prefix_number(d, 1, 0);
    lemma_prefix_number(d, 2, w0);
    lemma_prefix_number(d, 3, w0 * 16 + w1);
    lemma_prefix_number(d, 4, (w0 * 16 + w1) * 16 + w2);
    lemma_prefix_number(d, 5, ((w0 * 16 + w1) * 16 + w2) * 16 + w3);
    lemma_prefix_number(d, 6, (((w0 * 16 + w1) * 16 + w2) * 16 + w3) * 16 + w4);
    let v6 = ((((w0 * 16 + w1) * 16 + w2) * 16 + w3) * 16 + w4) * 16 + w5;
    if d.len() == 6 {
        assert(d.subrange(0, 6) =~= d);
    } else {
        let w6 = digit_worth(d[6]);
        lemma_hex_digits_count(d[6]);
        lemma_hex_digits_count(d[7]);
        lemma_prefix_number(d, 7, v6);
        lemma_prefix_number(d, 8, v6 * 16 + w6);
        assert(d.subrange(0, 8) =~= d);
    }
}

/// `#` and six hex digits are an opaque colour: `0xff000000` plus the
/// number the digits spell, most significant first.
pub proof fn lemma_six_digit_colour(s: Seq<char>)
    requires
        s.len() == 7,
        s[0] == '#',
        forall|i: int| 1 <= i < 7 ==> is_hex_char(#[trigger] s[i]),
    ensures
        color_argb(s) == 0xff00_0000 + digit_worth(s[1]) * 0x10_0000 + digit_worth(s[2]) * 0x1_0000
            + digit_worth(s[3]) * 0x1000 + digit_worth(s[4]) * 0x100 + digit_worth(s[5]) * 0x10
            + digit_worth(s[6]),
{
    let d = s.drop_first();
    assert(color_digits(s) == d);
    assert forall|i: int| 0 <= i < d.len() implies is_hex_char(#[trigger] d[i]) by {
        assert(d[i] == s[i + 1]);
    }
    lemma_digits_number(d);
    lemma_hex_digits_count(s[1]);
    lemma_hex_digits_count(s[2]);
    lemma_hex_digits_count(s[3]);
    lemma_hex_digits_count(s[4]);
    lemma_hex_digits_count(s[5]);
    lemma_hex_digits_count(s[6]);
}

/// `#` and eight hex digits are red, green, blue, then alpha: the packed
/// colour has the last two digits as its top byte and the first six below.
pub proof fn lemma_eight_digit_colour(s: Seq<char>)
    requires
        s.len() == 9,
        s[0] == '#',
        forall|i: int| 1 <= i < 9 ==> is_hex_char(#[trigger] s[i]),
    ensures
        color_argb(s) == digit_worth(s[7]) * 0x1000_0000 + digit_worth(s[8]) * 0x100_0000
            + digit_worth(s[1]) * 0x10_0000 + digit_worth(s[2]) * 0x1_0000 + digit_worth(s[3])
            * 0x1000 + digit_worth(s[4]) * 0x100 + digit_worth(s[5]) * 0x10 + digit_worth(s[6]),
{
    let d = s.drop_first();
    assert(color_digits(s) == d);
    assert forall|i: int| 0 <= i < d.len() implies is_hex_char(#[trigger] d[i]) by {
        assert(d[i] == s[i + 1]);
    }
    lemma_digits_number(d);
    lemma_hex_digits_count(s[1]);
    lemma_hex_digits_count(s[2]);
    lemma_hex_digits_count(s[3]);
    lemma_hex_digits_count(s[4]);
    lemma_hex_digits_count(s[5]);
    lemma_hex_digits_count(s[6]);
    lemma_hex_digits_count(s[7]);
    lemma_hex_digits_count(s[8]);
    let rgb = digit_worth(s[1]) * 0x10_0000 + digit_worth(s[2]) * 0x1_0000 + digit_worth(s[3])
        * 0x1000 + digit_worth(s[4]) * 0x100 + digit_worth(s[5]) * 0x10 + digit_worth(s[6]);
    let a = digit_worth(s[7]) * 0x10 + digit_worth(s[8]);
    let v = hex_number(d).unwrap() as int;
    assert(v == rgb * 256 + a);
    vstd::arithmetic::div_mod::lemma_fundamental_div_mod_converse(v, 256, rgb, a);
}

/// Parses a fill colour into packed `0xAARRGGBB`: `#RRGGBB` is opaque,
/// `#RRGGBBAA` carries its alpha last; anything else gives opaque white.
pub fn parse_color(fill_hex: &str) -> (argb: u32)
    ensures
        argb == color_argb(fill_hex@),
{
    let n = fill_hex.unicode_len();
    let start: usize = if n > 0 && fill_hex.get_char(0) == '#' { 1 } else { 0 };
    let ghost d = color_digits(fill_hex@);
    assert(d =~= fill_hex@.subrange(start as int, n as int));
    let count = n - start;
    if count != 6 && count != 8 {
        return FALLBACK_ARGB;
    }
    let mut v: u64 = 0;
    let mut i: usize = 0;
    while i < count
        invariant
            count == 6 || count == 8,
            i <= count,
            n == fill_hex@.len(),
            count == n - start,
            d =~= fill_hex@.subrange(start as int, n as int),
            d == color_digits(fill_hex@),
            hex_number(d.take(i as int)) == Some(v as nat),
            v < pow16(i as nat),
        decreases count - i,
    {
        let c = fill_hex.get_char(start + i);
        assert(d.take(i + 1).drop_last() =~= d.take(i as int));
        assert(d.take(i + 1).last() == c);
        match digit_value(c) {
            Some(x) => {
                proof {
                    lemma_pow16_small(i as nat);
                    assert(pow16((i + 1) as nat) == 16 * pow16(i as nat));
                }
                v = v * 16 + x;
            },
            None => {
                assert(hex_number(d.take(i + 1)) is None);
                proof {
                    lemma_none_extends(d, (i + 1) as nat);
                }
                return FALLBACK_ARGB;
            },
        }
        i = i + 1;
    }
    assert(d.take(count as int) =~= d);
    if count == 6 {
        proof {
            reveal_with_fuel(pow16, 7);
        }
        (0xff00_0000u64 + v) as u32
    } else {
        proof {
            lemma_pow16_small(8);
        }
        ((v % 256) * 0x100_0000 + v / 256) as u32
    }
}

/// A prefix that is not all hex digits spoils the whole run.
proof fn lemma_none_extends(s: Seq<char>, k: nat)
    requires
        k <= s.len(),
        hex_number(s.take(k as int)) is None,
    ensures
        hex_number(s) is None,
    decreases s.len() - k,
{
    if k < s.len() {
        assert(s.take((k + 1) as int).drop_last() =~= s.take(k as int));
        lemma_none_extends(s, k + 1);
    } else {
        assert(s.take(k as int) =~= s);
    }
}

/// The red, green, blue and alpha bytes of packed `0xAARRGGBB`.
pub fn argb_channels(argb: u32) -> (rgba: (u8, u8, u8, u8))
    ensures
        rgba.0 == (argb / 0x1_0000) % 256,
        rgba.1 == (argb / 0x100) % 256,
        rgba.2 == argb % 256,
        rgba.3 == argb / 0x100_0000,
{
    assert(((argb >> 16u32) & 0xff) == (argb / 0x1_0000) % 256) by (bit_vector);
    assert(((argb >> 8u32) & 0xff) == (argb / 0x100) % 256) by (bit_vector);
    assert((argb & 0xff) == argb % 256) by (bit_vector);
    assert(((argb >> 24u32) & 0xff) == argb / 0x100_0000) by (bit_vector);
    (
        ((argb >> 16u32) & 0xff) as u8,
        ((argb >> 8u32) & 0xff) as u8,
        (argb & 0xff) as u8,
        ((argb >> 24u32) & 0xff) as u8,
    )
}

} // verus!
