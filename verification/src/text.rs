//! Building text: decimal and hexadecimal renderings of integers, and the
//! quoted form of a string.

use vstd::prelude::*;
use vstd::string::*;

verus! {

/// The character of a decimal digit `d` (`d < 10`).
pub open spec fn decimal_digit(d: nat) -> char {
    ((48 + d) as u8) as char
}

/// The character of a lowercase hexadecimal digit `d` (`d < 16`).
pub open spec fn hex_digit(d: nat) -> char {
    if d < 10 {
        ((48 + d) as u8) as char
    } else {
        ((87 + d) as u8) as char
    }
}

/// The shortest decimal rendering of `n` (as `{}` prints an unsigned integer).
pub open spec fn decimal(n: nat) -> Seq<char>
    decreases n,
{
    if n < 10 {
        seq![decimal_digit(n)]
    } else {
        decimal(n / 10).push(decimal_digit(n % 10))
    }
}

/// The four bits of `h` that the `i`-th hex digit (most significant first) shows.
pub open spec fn nibble(h: u64, i: int) -> u64 {
    (h >> ((60 - 4 * i) as u64)) & 0xf
}

/// `h` as sixteen lowercase hex digits, zero-padded (as `{:016x}` prints it).
pub open spec fn hex16(h: u64) -> Seq<char> {
    Seq::new(16, |i: int| hex_digit(nibble(h, i) as nat))
}

/// The UTF-8 encoding of a string.
pub open spec fn utf8_of(s: Seq<char>) -> Seq<u8> {
    vstd::utf8::encode_utf8(s)
}

/// Every character of a decimal rendering is a digit, and there is at
/// least one.
pub proof fn lemma_decimal_digits(n: nat)
    ensures
        decimal(n).len() >= 1,
        forall|i: int| 0 <= i < decimal(n).len() ==> '0' <= #[trigger] decimal(n)[i] <= '9',
    decreases n,
{
    if n >= 10 {
        lemma_decimal_digits(n / 10);
    }
}

/// Different numbers print differently.
pub proof fn lemma_decimal_injective(a: nat, b: nat)
    requires
        decimal(a) == decimal(b),
    ensures
        a == b,
    decreases a + b,
{
    lemma_decimal_digits(a / 10);
    lemma_decimal_digits(b / 10);
    if a >= 10 && b >= 10 {
        assert(decimal(a / 10) =~= decimal(a).drop_last());
        assert(decimal(b / 10) =~= decimal(b).drop_last());
        lemma_decimal_injective(a / 10, b / 10);
        assert(decimal(a) == decimal(a / 10).push(decimal_digit(a % 10)));
        assert(decimal(b) == decimal(b / 10).push(decimal_digit(b % 10)));
        assert(decimal(a).last() == decimal_digit(a % 10));
        assert(decimal(b).last() == decimal_digit(b % 10));
        assert(a % 10 == b % 10);
    } else if a >= 10 {
        assert(decimal(a).len() >= 2);
    } else if b >= 10 {
        assert(decimal(b).len() >= 2);
    } else {
        assert(decimal(a) == seq![decimal_digit(a)]);
        assert(decimal(b) == seq![decimal_digit(b)]);
        assert(seq![decimal_digit(a)][0] == decimal_digit(a));
        assert(seq![decimal_digit(b)][0] == decimal_digit(b));
        assert(decimal_digit(a) == decimal_digit(b));
    }
}

/// A number, an `x`, then a number: both numbers can be read back.
pub proof fn lemma_decimal_pair_injective(a: nat, b: nat, c: nat, d: nat)
    requires
        decimal(a) + seq!['x'] + decimal(b) == decimal(c) + seq!['x'] + decimal(d),
    ensures
        a == c && b == d,
{
    lemma_decimal_digits(a);
    lemma_decimal_digits(c);
    let x1 = decimal(a) + seq!['x'] + decimal(b);
    let x2 = decimal(c) + seq!['x'] + decimal(d);
    let la = decimal(a).len();
    let lc = decimal(c).len();
    if la < lc {
        assert(x1[la as int] == 'x');
        assert(x2[la as int] == decimal(c)[la as int]);
    } else if lc < la {
        assert(x2[lc as int] == 'x');
        assert(x1[lc as int] == decimal(a)[lc as int]);
    }
    assert(la == lc);
    assert(x1.subrange(0, la as int) =~= decimal(a));
    assert(x2.subrange(0, la as int) =~= decimal(c));
    assert(x1.subrange((la + 1) as int, x1.len() as int) =~= decimal(b));
    assert(x2.subrange((la + 1) as int, x2.len() as int) =~= decimal(d));
    lemma_decimal_injective(a, c);
    lemma_decimal_injective(b, d);
}

/// Different values print as different sixteen-digit hex strings.
pub proof fn lemma_hex16_injective(a: u64, b: u64)
    ensures
        hex16(a) == hex16(b) <==> a == b,
{
    if hex16(a) == hex16(b) {
        assert forall|i: int| 0 <= i < 16 implies nibble(a, i) == nibble(b, i) by {
            assert(hex16(a)[i] == hex16(b)[i]);
            let x = nibble(a, i);
            let y = nibble(b, i);
            assert(x < 16 && y < 16) by {
                let s: u64 = (60 - 4 * i) as u64;
                assert((a >> s) & 0xf < 16) by (bit_vector);
                assert((b >> s) & 0xf < 16) by (bit_vector);
            }
        }
        assert(nibble(a, 0) == nibble(b, 0));
        assert(nibble(a, 1) == nibble(b, 1));
        assert(nibble(a, 2) == nibble(b, 2));
        assert(nibble(a, 3) == nibble(b, 3));
        assert(nibble(a, 4) == nibble(b, 4));
        assert(nibble(a, 5) == nibble(b, 5));
        assert(nibble(a, 6) == nibble(b, 6));
        assert(nibble(a, 7) == nibble(b, 7));
        assert(nibble(a, 8) == nibble(b, 8));
        assert(nibble(a, 9) == nibble(b, 9));
        assert(nibble(a, 10) == nibble(b, 10));
        assert(nibble(a, 11) == nibble(b, 11));
        assert(nibble(a, 12) == nibble(b, 12));
        assert(nibble(a, 13) == nibble(b, 13));
        assert(nibble(a, 14) == nibble(b, 14));
        assert(nibble(a, 15) == nibble(b, 15));
        assert(a == b) by (bit_vector)
            requires
                (a >> 60u64) & 0xf == (b >> 60u64) & 0xf,
                (a >> 56u64) & 0xf == (b >> 56u64) & 0xf,
                (a >> 52u64) & 0xf == (b >> 52u64) & 0xf,
                (a >> 48u64) & 0xf == (b >> 48u64) & 0xf,
                (a >> 44u64) & 0xf == (b >> 44u64) & 0xf,
                (a >> 40u64) & 0xf == (b >> 40u64) & 0xf,
                (a >> 36u64) & 0xf == (b >> 36u64) & 0xf,
                (a >> 32u64) & 0xf == (b >> 32u64) & 0xf,
                (a >> 28u64) & 0xf == (b >> 28u64) & 0xf,
                (a >> 24u64) & 0xf == (b >> 24u64) & 0xf,
                (a >> 20u64) & 0xf == (b >> 20u64) & 0xf,
                (a >> 16u64) & 0xf == (b >> 16u64) & 0xf,
                (a >> 12u64) & 0xf == (b >> 12u64) & 0xf,
                (a >> 8u64) & 0xf == (b >> 8u64) & 0xf,
                (a >> 4u64) & 0xf == (b >> 4u64) & 0xf,
                (a >> 0u64) & 0xf == (b >> 0u64) & 0xf,
        ;
    }
}

/// The quoted, escaped form of a string that `{:?}` prints.
pub uninterp spec fn debug_text(s: Seq<char>) -> Seq<char>;

/// A string that `{:?}` prints between quotes without escaping anything:
/// printable ASCII other than the double quote and the backslash.
pub open spec fn prints_verbatim(s: Seq<char>) -> bool {
    forall|i: int| 0 <= i < s.len() ==> ' ' <= #[trigger] s[i] <= '~' && s[i] != '"' && s[i] != '\\'
}

/// Printable letters and signs beyond ASCII that `{:?}` writes as they
/// are: the Latin-1 supplement from U+00A1 to U+00FF except the soft hyphen
/// (U+00AD), and Latin Extended-A and -B (up to U+024F).
pub open spec fn plain_latin(c: char) -> bool {
    ('\u{a1}' <= c <= '\u{ac}') || ('\u{ae}' <= c <= '\u{24f}')
}

/// A string all of whose characters `{:?}` writes either as they are or
/// with a one-character backslash escape: printable ASCII, the printable
/// Latin letters and signs of `plain_latin`, newline, carriage return and
/// tab.
pub open spec fn simply_escaped(s: Seq<char>) -> bool {
    forall|i: int|
        0 <= i < s.len() ==> (' ' <= #[trigger] s[i] <= '~') || plain_latin(s[i]) || s[i] == '\n'
            || s[i] == '\r' || s[i] == '\t'
}

/// How `{:?}` writes one such character of a string: the double quote,
/// the backslash, newline, carriage return and tab as `\"`, `\\`, `\n`,
/// `\r`, `\t`; any other as it is.
pub open spec fn debug_escape(c: char) -> Seq<char> {
    if c == '"' {
        seq!['\\', '"']
    } else if c == '\\' {
        seq!['\\', '\\']
    } else if c == '\n' {
        seq!['\\', 'n']
    } else if c == '\r' {
        seq!['\\', 'r']
    } else if c == '\t' {
        seq!['\\', 't']
    } else {
        seq![c]
    }
}

/// Every character of `s` written as `{:?}` writes it inside a string.
pub open spec fn debug_escaped(s: Seq<char>) -> Seq<char>
    decreases s.len(),
{
    if s.len() == 0 {
        Seq::empty()
    } else {
        debug_escaped(s.drop_last()) + debug_escape(s.last())
    }
}

/// Text that needs no escaping comes out as it is.
pub proof fn lemma_verbatim_escapes_to_itself(s: Seq<char>)
    requires
        prints_verbatim(s),
    ensures
        simply_escaped(s),
        debug_escaped(s) == s,
    decreases s.len(),
{
    if s.len() > 0 {
        assert(prints_verbatim(s.drop_last()));
        lemma_verbatim_escapes_to_itself(s.drop_last());
        assert(s.drop_last().push(s.last()) =~= s);
    }
}

/// `String::push` of std: appends one character.
#[verifier::external_body]
pub(crate) fn push_char(s: &mut String, c: char)
    ensures
        final(s)@ == old(s)@.push(c),
{
    s.push(c);
}

/// `<str as Debug>::fmt` of std, through `format!("{:?}", ..)`: the string
/// between double quotes, with quotes, backslashes and non-printable
/// characters escaped. Stated for strings of printable ASCII, printable
/// Latin letters up to U+024F, newlines, carriage returns and tabs; the
/// `\u{..}` escapes of other characters are left to `debug_text`.
#[verifier::external_body]
pub(crate) fn debug_quote(s: &str) -> (r: String)
    ensures
        r@ == debug_text(s@),
        simply_escaped(s@) ==> r@ == seq!['"'] + debug_escaped(s@) + seq!['"'],
{
    format!("{:?}", s)
}

/// Whether two strings hold the same characters.
pub fn same_text(a: &str, b: &str) -> (eq: bool)
    ensures
        eq == (a@ == b@),
{
    let n = a.unicode_len();
    if n != b.unicode_len() {
        return false;
    }
    let mut i: usize = 0;
    while i < n
        invariant
            i <= n,
            n == a@.len(),
            n == b@.len(),
            forall|j: int| 0 <= j < i ==> a@[j] == b@[j],
        decreases n - i,
    {
        if a.get_char(i) != b.get_char(i) {
            return false;
        }
        i = i + 1;
    }
    assert(a@ =~= b@);
    true
}

/// The text after every leading `#` (as `trim_start_matches('#')` gives it).
pub open spec fn trim_hashes(s: Seq<char>) -> Seq<char>
    decreases s.len(),
{
    if s.len() > 0 && s[0] == '#' {
        trim_hashes(s.drop_first())
    } else {
        s
    }
}

/// Appends `s` without its leading `#` characters.
pub fn push_trimmed_hashes(out: &mut String, s: &str)
    ensures
        final(out)@ == old(out)@ + trim_hashes(s@),
{
    let n = s.unicode_len();
    let mut k: usize = 0;
    assert(s@.subrange(0, n as int) =~= s@);
    while k < n && s.get_char(k) == '#'
        invariant
            k <= n,
            n == s@.len(),
            trim_hashes(s@) == trim_hashes(s@.subrange(k as int, n as int)),
        decreases n - k,
    {
        assert(s@.subrange(k as int, n as int).drop_first() =~= s@.subrange(k + 1, n as int));
        k = k + 1;
    }
    let rest = s.substring_char(k, n);
    out.append(rest);
}

/// Appends the decimal rendering of `n`.
pub fn push_decimal(s: &mut String, n: u64)
    ensures
        final(s)@ == old(s)@ + decimal(n as nat),
    decreases n,
{
    if n >= 10 {
        push_decimal(s, n / 10);
    }
    let d: u8 = (n % 10) as u8;
    push_char(s, (48u8 + d) as char);
    proof {
        assert(old(s)@ + decimal(n as nat) =~= if n >= 10 {
            old(s)@ + decimal((n / 10) as nat) + seq![decimal_digit((n % 10) as nat)]
        } else {
            old(s)@ + seq![decimal_digit(n as nat)]
        });
    }
}

/// The decimal rendering of `n`.
pub fn decimal_string(n: u64) -> (r: String)
    ensures
        r@ == decimal(n as nat),
{
    let mut s = String::new();
    push_decimal(&mut s, n);
    assert(s@ =~= decimal(n as nat));
    s
}

/// Appends `h` as sixteen lowercase hex digits.
pub fn push_hex16(s: &mut String, h: u64)
    ensures
        final(s)@ == old(s)@ + hex16(h),
{
    let ghost start = s@;
    let mut i: u64 = 0;
    while i < 16
        invariant
            i <= 16,
            s@ == start + hex16(h).take(i as int),
        decreases 16 - i,
    {
        let shift: u64 = 60 - 4 * i;
        let d: u64 = (h >> shift) & 0xf;
        assert(((h >> shift) & 0xf) < 16) by (bit_vector);
        let c: char = if d < 10 {
            (48u8 + d as u8) as char
        } else {
            (87u8 + d as u8) as char
        };
        assert(nibble(h, i as int) == d);
        push_char(s, c);
        assert(hex16(h).take(i + 1) =~= hex16(h).take(i as int).push(c));
        i = i + 1;
    }
    assert(hex16(h).take(16) =~= hex16(h));
}

} // verus!
