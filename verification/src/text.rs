//! Text: the mathematical meaning of the string operations the model
//! uses, and the calls into `std` that carry them out.
use vstd::prelude::*;
use itertools::Itertools;
use vstd::string::*;

verus! {

// ---------------------------------------------------------------------
// Numbers rendered as text
// ---------------------------------------------------------------------

/// The character of a decimal or hexadecimal digit, lowercase.
pub open spec fn digit_char(d: nat) -> char {
    if d < 10 {
        (48 + d) as char
    } else {
        (87 + d) as char
    }
}

/// Digits of `n` in base `radix` (at least one digit), most significant first.
pub open spec fn digits(n: nat, radix: nat) -> Seq<char>
    recommends
        radix >= 2,
    decreases n,
{
    if radix < 2 || n < radix {
        seq![digit_char(n)]
    } else {
        proof {
            vstd::arithmetic::div_mod::lemma_div_decreases(n as int, radix as int);
        }
        digits(n / radix, radix).push(digit_char(n % radix))
    }
}

/// Decimal rendering of an integer, with a leading `-` when negative.
pub open spec fn decimal(n: int) -> Seq<char> {
    if n < 0 {
        seq!['-'] + digits((-n) as nat, 10)
    } else {
        digits(n as nat, 10)
    }
}

/// Lowercase hexadecimal rendering of a natural number, without prefix.
pub open spec fn lower_hex(n: nat) -> Seq<char> {
    digits(n, 16)
}

/// The character of the digit `d` (below 16).
fn digit_char_of(d: u64) -> (c: char)
    requires
        d < 16,
    ensures
        c == digit_char(d as nat),
{
    if d < 10 {
        ((48 + d) as u8) as char
    } else {
        ((87 + d) as u8) as char
    }
}

/// Appends the digits of `n` in base `radix` to `out`.
fn push_digits(out: &mut Vec<char>, n: u64, radix: u64)
    requires
        2 <= radix <= 16,
    ensures
        final(out)@ == old(out)@ + digits(n as nat, radix as nat),
    decreases n,
{
    if n < radix {
        out.push(digit_char_of(n));
        assert(final(out)@ =~= old(out)@ + digits(n as nat, radix as nat));
    } else {
        assert(n / radix < n) by (nonlinear_arith)
            requires
                n >= radix,
                radix >= 2,
        ;
        push_digits(out, n / radix, radix);
        out.push(digit_char_of(n % radix));
        assert(final(out)@ =~= old(out)@ + digits(n as nat, radix as nat));
    }
}

/// Renders an `i32` in decimal, as `Display` of `i32` does.
pub(crate) fn i32_text(n: i32) -> (r: String)
    ensures
        r@ == decimal(n as int),
{
    let mut chars: Vec<char> = Vec::new();
    if n < 0 {
        chars.push('-');
        let m: u64 = (0 - (n as i64)) as u64;
        push_digits(&mut chars, m, 10);
    } else {
        push_digits(&mut chars, n as u64, 10);
    }
    string_from_chars(&chars)
}

/// Renders a `u16` in decimal, as `Display` of `u16` does.
pub(crate) fn u16_text(n: u16) -> (r: String)
    ensures
        r@ == decimal(n as int),
{
    let mut chars: Vec<char> = Vec::new();
    push_digits(&mut chars, n as u64, 10);
    string_from_chars(&chars)
}

/// Renders a `usize` in decimal, as `Display` of `usize` does.
pub(crate) fn usize_text(n: usize) -> (r: String)
    ensures
        r@ == decimal(n as int),
{
    let mut chars: Vec<char> = Vec::new();
    push_digits(&mut chars, n as u64, 10);
    string_from_chars(&chars)
}

/// Renders a `u16` in lowercase hexadecimal without prefix, as `LowerHex`
/// of `u16` does.
pub(crate) fn u16_lower_hex(n: u16) -> (r: String)
    ensures
        r@ == lower_hex(n as nat),
{
    let mut chars: Vec<char> = Vec::new();
    push_digits(&mut chars, n as u64, 16);
    string_from_chars(&chars)
}

// ---------------------------------------------------------------------
// Numbers read from text
// ---------------------------------------------------------------------

/// Value of an ASCII digit or letter as a digit (letters count from 10,
/// either case); 36 for any other character, which no radix accepts.
pub open spec fn digit_value(c: char) -> nat {
    if '0' <= c <= '9' {
        (c as int - 48) as nat
    } else if 'a' <= c <= 'z' {
        (c as int - 87) as nat
    } else if 'A' <= c <= 'Z' {
        (c as int - 55) as nat
    } else {
        36
    }
}

/// Every character of `d` is a digit of base `radix`.
pub open spec fn all_digits(d: Seq<char>, radix: nat) -> bool {
    forall|i: int| 0 <= i < d.len() ==> #[trigger] digit_value(d[i]) < radix
}

/// The number that the digits `d` denote in base `radix`, most significant first.
pub open spec fn digits_value(d: Seq<char>, radix: nat) -> nat
    decreases d.len(),
{
    if d.len() == 0 {
        0
    } else {
        digits_value(d.drop_last(), radix) * radix + digit_value(d.last())
    }
}

/// The number an unsigned integer literal `s` denotes in base `radix`: an
/// optional `+` followed by at least one digit, and nothing else.
pub open spec fn unsigned_literal_value(s: Seq<char>, radix: nat) -> Option<nat> {
    let d = if s.len() > 0 && s[0] == '+' {
        s.drop_first()
    } else {
        s
    };
    if d.len() > 0 && all_digits(d, radix) {
        Some(digits_value(d, radix))
    } else {
        None
    }
}

/// What `u16::from_str_radix` returns: the literal's value when it is one
/// and fits in 16 bits.
pub open spec fn u16_literal_value(s: Seq<char>, radix: nat) -> Option<u16> {
    match unsigned_literal_value(s, radix) {
        Some(n) => if n <= u16::MAX {
            Some(n as u16)
        } else {
            None
        },
        None => None,
    }
}

/// `u16::from_str_radix`: an optional `+` then digits of `radix`, with a
/// value that fits in a `u16`; every other text is an error.
#[verifier::external_body]
pub(crate) fn u16_from_str_radix(s: &str, radix: u32) -> (r: Option<u16>)
    requires
        2 <= radix <= 36,
    ensures
        r == u16_literal_value(s@, radix as nat),
{
    u16::from_str_radix(s, radix).ok()
}

/// The digits `digits` writes are digits of their radix, and denote the
/// number they were written from.
pub proof fn lemma_digits_denote_their_number(n: nat, radix: nat)
    requires
        2 <= radix <= 16,
    ensures
        digits(n, radix).len() > 0,
        all_digits(digits(n, radix), radix),
        digits_value(digits(n, radix), radix) == n,
        forall|i: int| 0 <= i < digits(n, radix).len() ==> {
            let c = #[trigger] digits(n, radix)[i];
            ('0' <= c <= '9' || 'a' <= c <= 'f')
        },
    decreases n,
{
    let d = digits(n, radix);
    if n < radix {
        assert(d =~= seq![digit_char(n)]);
        assert(d.drop_last() =~= Seq::<char>::empty());
        assert(digits_value(d.drop_last(), radix) == 0);
        assert(digit_value(digit_char(n)) == n);
        assert(0 * radix == 0) by (nonlinear_arith);
    } else {
        vstd::arithmetic::div_mod::lemma_div_decreases(n as int, radix as int);
        vstd::arithmetic::div_mod::lemma_fundamental_div_mod(n as int, radix as int);
        vstd::arithmetic::div_mod::lemma_mod_bound(n as int, radix as int);
        vstd::arithmetic::div_mod::lemma_div_pos_is_pos(n as int, radix as int);
        let q = n / radix;
        let m = n % radix;
        lemma_digits_denote_their_number(q, radix);
        let prefix = digits(q, radix);
        assert(d == prefix.push(digit_char(m)));
        assert(d.drop_last() =~= prefix);
        assert(digits_value(d, radix) == digits_value(prefix, radix) * radix + digit_value(digit_char(m)));
        assert(digits_value(d, radix) == q * radix + m) by (nonlinear_arith)
            requires
                digits_value(d, radix) == digits_value(prefix, radix) * radix + digit_value(digit_char(m)),
                digits_value(prefix, radix) == q,
                digit_value(digit_char(m)) == m,
        ;
        assert(q * radix + m == n) by (nonlinear_arith)
            requires
                n == radix * q + m,
        ;
        assert forall|i: int| 0 <= i < d.len() implies digit_value(#[trigger] d[i]) < radix && ('0' <= d[i] <= '9' || 'a' <= d[i] <= 'f') by {
            if i < prefix.len() {
                assert(d[i] == prefix[i]);
            }
        }
    }
}

// ---------------------------------------------------------------------
// Prefixes
// ---------------------------------------------------------------------

/// `s` begins with `p`.
pub open spec fn has_prefix(s: Seq<char>, p: Seq<char>) -> bool {
    p.len() <= s.len() && s.take(p.len() as int) == p
}

/// Whether `s` begins with `p`.
pub(crate) fn starts_with(s: &str, p: &str) -> (r: bool)
    ensures
        r == has_prefix(s@, p@),
{
    let sc = chars_of(s);
    let pc = chars_of(p);
    if pc.len() > sc.len() {
        return false;
    }
    let mut i: usize = 0;
    while i < pc.len()
        invariant
            sc@ == s@,
            pc@ == p@,
            pc@.len() <= sc@.len(),
            i <= pc@.len(),
            forall|j: int| 0 <= j < i ==> sc@[j] == pc@[j],
        decreases pc@.len() - i,
    {
        if sc[i] != pc[i] {
            assert(s@.take(p@.len() as int)[i as int] == s@[i as int]);
            assert(s@.take(p@.len() as int)[i as int] != p@[i as int]);
            return false;
        }
        i = i + 1;
    }
    assert(sc@.take(pc@.len() as int) =~= pc@);
    true
}

/// `s` with every leading repetition of a non-empty `p` removed.
pub open spec fn strip_all_prefixes(s: Seq<char>, p: Seq<char>) -> Seq<char>
    decreases s.len(),
{
    if p.len() > 0 && has_prefix(s, p) {
        strip_all_prefixes(s.skip(p.len() as int), p)
    } else {
        s
    }
}

/// `str::trim_start_matches` with a string pattern.
#[verifier::external_body]
pub(crate) fn trim_start_matches<'a>(s: &'a str, p: &str) -> (r: &'a str)
    ensures
        r@ == strip_all_prefixes(s@, p@),
{
    s.trim_start_matches(p)
}

// ---------------------------------------------------------------------
// Length in bytes
// ---------------------------------------------------------------------

/// Length of the UTF-8 encoding of `s`, which is what `str::len` returns.
pub open spec fn byte_len(s: Seq<char>) -> nat {
    vstd::utf8::encode_utf8(s).len()
}

// ---------------------------------------------------------------------
// Comparison and search
// ---------------------------------------------------------------------

/// Whether two strings hold the same characters.
pub(crate) fn str_eq(a: &str, b: &str) -> (r: bool)
    ensures
        r == (a@ == b@),
{
    let ac = chars_of(a);
    let bc = chars_of(b);
    if ac.len() != bc.len() {
        return false;
    }
    let mut i: usize = 0;
    while i < ac.len()
        invariant
            ac@ == a@,
            bc@ == b@,
            ac@.len() == bc@.len(),
            i <= ac@.len(),
            forall|j: int| 0 <= j < i ==> ac@[j] == bc@[j],
        decreases ac@.len() - i,
    {
        if ac[i] != bc[i] {
            assert(a@[i as int] != b@[i as int]);
            return false;
        }
        i = i + 1;
    }
    assert(ac@ =~= bc@);
    true
}

/// `needle` occurs in `s` as a contiguous run of characters.
pub open spec fn occurs_in(needle: Seq<char>, s: Seq<char>) -> bool {
    exists|i: int| 0 <= i <= s.len() - needle.len() && #[trigger] s.subrange(i, i + needle.len()) == needle
}

/// `str::contains` with a string pattern.
#[verifier::external_body]
pub(crate) fn str_contains(s: &str, needle: &str) -> (r: bool)
    ensures
        r == occurs_in(needle@, s@),
{
    s.contains(needle)
}

// ---------------------------------------------------------------------
// Case and whitespace
// ---------------------------------------------------------------------

/// What `str::to_lowercase` returns: the Unicode lowercase mapping of
/// every character of the string.
pub uninterp spec fn lowercase(s: Seq<char>) -> Seq<char>;

/// Every character of `s` is an ASCII digit or a lowercase ASCII letter.
pub open spec fn is_lower_ascii_alnum(s: Seq<char>) -> bool {
    forall|i: int| 0 <= i < s.len() ==> ('0' <= #[trigger] s[i] <= '9' || 'a' <= s[i] <= 'z')
}

/// The ASCII lowercase of a character: `A` to `Z` become `a` to `z`, every
/// other character stays.
pub open spec fn ascii_lower_char(c: char) -> char {
    if 'A' <= c <= 'Z' {
        ((c as int) + 32) as char
    } else {
        c
    }
}

/// `s` with every ASCII uppercase letter made lowercase.
pub open spec fn ascii_lowercase(s: Seq<char>) -> Seq<char> {
    Seq::new(s.len(), |i: int| ascii_lower_char(s[i]))
}

/// What `str::to_lowercase` returns, written out where it can be: the
/// ASCII lowercase for ASCII text, the mapping `lowercase` for other text.
pub open spec fn lowercased(s: Seq<char>) -> Seq<char> {
    if vstd::utf8::is_ascii_chars(s) {
        ascii_lowercase(s)
    } else {
        lowercase(s)
    }
}

/// `str::to_lowercase`. Its result is the lowercase mapping `lowercase` of
/// the input. On ASCII text that mapping lowercases the letters `A` to `Z`
/// and keeps every other character, so the length stays; a string of ASCII
/// digits and lowercase ASCII letters maps to itself. What the mapping does
/// to characters outside ASCII is left to `lowercase`.
#[verifier::external_body]
pub(crate) fn to_lowercase(s: &str) -> (r: String)
    ensures
        r@ == lowercase(s@),
        r@ == lowercased(s@),
        is_lower_ascii_alnum(s@) ==> r@ == s@,
{
    s.to_lowercase()
}

/// The Unicode `White_Space` property, the whitespace that `str::trim` removes.
pub open spec fn is_white_space(c: char) -> bool {
    ||| '\u{9}' <= c <= '\u{d}'
    ||| c == ' '
    ||| c == '\u{85}'
    ||| c == '\u{a0}'
    ||| c == '\u{1680}'
    ||| '\u{2000}' <= c <= '\u{200a}'
    ||| c == '\u{2028}'
    ||| c == '\u{2029}'
    ||| c == '\u{202f}'
    ||| c == '\u{205f}'
    ||| c == '\u{3000}'
}

/// Number of whitespace characters at the start of `s`.
pub open spec fn leading_white_space(s: Seq<char>) -> nat
    decreases s.len(),
{
    if s.len() > 0 && is_white_space(s[0]) {
        1 + leading_white_space(s.drop_first())
    } else {
        0
    }
}

/// Number of whitespace characters at the end of `s`.
pub open spec fn trailing_white_space(s: Seq<char>) -> nat
    decreases s.len(),
{
    if s.len() > 0 && is_white_space(s.last()) {
        1 + trailing_white_space(s.drop_last())
    } else {
        0
    }
}

/// `s` without its leading and trailing whitespace.
pub open spec fn trimmed(s: Seq<char>) -> Seq<char> {
    let rest = s.skip(leading_white_space(s) as int);
    rest.take(rest.len() - trailing_white_space(rest))
}

/// `str::trim`.
#[verifier::external_body]
pub(crate) fn trim(s: &str) -> (r: &str)
    ensures
        r@ == trimmed(s@),
{
    s.trim()
}

// ---------------------------------------------------------------------
// Characters
// ---------------------------------------------------------------------

/// The characters of `s`, in order (`str::chars` collected).
#[verifier::external_body]
pub(crate) fn chars_of(s: &str) -> (r: Vec<char>)
    ensures
        r@ == s@,
{
    s.chars().collect()
}

/// A string of the characters `v`, in order (`String` collected from chars).
#[verifier::external_body]
pub(crate) fn string_from_chars(v: &Vec<char>) -> (r: String)
    ensures
        r@ == v@,
{
    v.iter().collect()
}

// ---------------------------------------------------------------------
// Hexadecimal bytes
// ---------------------------------------------------------------------

/// Lowercase hexadecimal text of bytes: two digits per byte, high nibble first.
pub open spec fn hex_text(b: Seq<u8>) -> Seq<char>
    decreases b.len(),
{
    if b.len() == 0 {
        Seq::empty()
    } else {
        hex_text(b.drop_last()) + seq![
            digit_char((b.last() / 16) as nat),
            digit_char((b.last() % 16) as nat),
        ]
    }
}

/// `hex::encode`: each byte as two lowercase hexadecimal digits, high
/// nibble first, in the order of the bytes.
#[verifier::external_body]
pub(crate) fn hex_encode(data: &[u8]) -> (r: String)
    ensures
        r@ == hex_text(data@),
{
    hex::encode(data)
}

// ---------------------------------------------------------------------
// Splitting
// ---------------------------------------------------------------------

/// The pieces of `s` between occurrences of `sep`, in order: one piece
/// more than there are separators, each possibly empty.
pub open spec fn split_on(s: Seq<char>, sep: char) -> Seq<Seq<char>>
    decreases s.len(),
{
    if s.len() == 0 {
        seq![Seq::empty()]
    } else {
        let rest = split_on(s.drop_first(), sep);
        if s[0] == sep {
            seq![Seq::empty()] + rest
        } else {
            rest.update(0, seq![s[0]] + rest[0])
        }
    }
}

/// `str::split` on a character, collected with `Itertools::collect_vec`:
/// the pieces of `s` between the occurrences of `sep`, in order.
#[verifier::external_body]
pub(crate) fn split_collect<'a>(s: &'a str, sep: char) -> (r: Vec<&'a str>)
    ensures
        r@.len() == split_on(s@, sep).len(),
        forall|i: int| 0 <= i < r@.len() ==> #[trigger] r@[i]@ == split_on(s@, sep)[i],
{
    s.split(sep).collect_vec()
}

/// `split_on` always gives at least one piece.
pub proof fn lemma_split_on_nonempty(s: Seq<char>, sep: char)
    ensures
        split_on(s, sep).len() >= 1,
    decreases s.len(),
{
    if s.len() > 0 {
        lemma_split_on_nonempty(s.drop_first(), sep);
    }
}

/// A text without the separator is one piece; a separator after such a
/// text starts the pieces of what follows it.
pub proof fn lemma_split_on_first_separator(a: Seq<char>, b: Seq<char>, sep: char)
    requires
        forall|i: int| 0 <= i < a.len() ==> #[trigger] a[i] != sep,
    ensures
        split_on(a, sep) == seq![a],
        split_on(a + seq![sep] + b, sep) == seq![a] + split_on(b, sep),
    decreases a.len(),
{
    lemma_split_on_nonempty(b, sep);
    if a.len() == 0 {
        assert(a + seq![sep] + b =~= seq![sep] + b);
        assert((seq![sep] + b).drop_first() =~= b);
        assert(a =~= Seq::<char>::empty());
    } else {
        let t = a.drop_first();
        assert forall|i: int| 0 <= i < t.len() implies #[trigger] t[i] != sep by {
            assert(t[i] == a[i + 1]);
        }
        lemma_split_on_first_separator(t, b, sep);
        let whole = a + seq![sep] + b;
        assert(whole.drop_first() =~= t + seq![sep] + b);
        assert(whole[0] == a[0]);
        assert(seq![a[0]] + t =~= a);
        assert(split_on(whole, sep) =~= seq![a] + split_on(b, sep));
        assert(split_on(a, sep) =~= seq![a]);
    }
}

// ---------------------------------------------------------------------
// Building text
// ---------------------------------------------------------------------

/// A new string holding `a` followed by `b`.
pub(crate) fn concat2(a: &str, b: &str) -> (r: String)
    ensures
        r@ == a@ + b@,
{
    let mut r = String::new();
    r.append(a);
    r.append(b);
    r
}

/// A new string holding `a`, `b` and `c` in turn.
pub(crate) fn concat3(a: &str, b: &str, c: &str) -> (r: String)
    ensures
        r@ == a@ + b@ + c@,
{
    let mut r = String::new();
    r.append(a);
    r.append(b);
    r.append(c);
    r
}

} // verus!
