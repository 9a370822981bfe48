//! Base32 text of a 32-byte hash, as machine IDs carry it: RFC 4648
//! groups of five bytes become eight characters of the extended-hex
//! alphabet `0-9a-v` in lower case, and the text carries no padding.
use vstd::prelude::*;

verus! {

// ---------------------------------------------------------------------
// Digits
// ---------------------------------------------------------------------

/// The character of a base-32 digit (`d < 32`).
pub open spec fn b32_char(d: nat) -> char {
    if d < 10 {
        (48 + d) as char
    } else {
        (87 + d) as char
    }
}

/// The digit a character of the alphabet stands for; 0 for any other character.
pub open spec fn b32_char_value(c: char) -> nat {
    if '0' <= c <= '9' {
        (c as int - 48) as nat
    } else if 'a' <= c <= 'v' {
        (c as int - 87) as nat
    } else {
        0
    }
}

/// `32` to the power `len`.
pub open spec fn pow32(len: nat) -> nat
    decreases len,
{
    if len == 0 {
        1
    } else {
        32 * pow32((len - 1) as nat)
    }
}

/// `256` to the power `len`.
pub open spec fn pow256(len: nat) -> nat
    decreases len,
{
    if len == 0 {
        1
    } else {
        256 * pow256((len - 1) as nat)
    }
}

/// The last `len` base-32 digits of `n`, most significant first.
pub open spec fn b32_digits(n: nat, len: nat) -> Seq<char>
    decreases len,
{
    if len == 0 {
        Seq::empty()
    } else {
        b32_digits(n / 32, (len - 1) as nat).push(b32_char(n % 32))
    }
}

/// The number the base-32 digits `t` denote, most significant first.
pub open spec fn b32_value(t: Seq<char>) -> nat
    decreases t.len(),
{
    if t.len() == 0 {
        0
    } else {
        b32_value(t.drop_last()) * 32 + b32_char_value(t.last())
    }
}

/// The number the bytes `b` denote, most significant first.
pub open spec fn be_value(b: Seq<u8>) -> nat
    decreases b.len(),
{
    if b.len() == 0 {
        0
    } else {
        be_value(b.drop_last()) * 256 + b.last() as nat
    }
}

/// The last `len` bytes of `n`, most significant first.
pub open spec fn be_bytes(n: nat, len: nat) -> Seq<u8>
    decreases len,
{
    if len == 0 {
        Seq::empty()
    } else {
        be_bytes(n / 256, (len - 1) as nat).push((n % 256) as u8)
    }
}

// ---------------------------------------------------------------------
// Hash text
// ---------------------------------------------------------------------

/// Text of the first `k` five-byte groups of `h`, eight characters each.
pub open spec fn groups_text(h: Seq<u8>, k: nat) -> Seq<char>
    decreases k,
{
    if k == 0 {
        Seq::empty()
    } else {
        groups_text(h, (k - 1) as nat) + b32_digits(
            be_value(h.subrange(5 * (k - 1), (5 * k) as int)),
            8,
        )
    }
}

/// Base32 text of a 32-byte hash: its six five-byte groups, then its last
/// two bytes shifted left by four bits, as four characters.
pub open spec fn hash_text(h: Seq<u8>) -> Seq<char> {
    groups_text(h, 6) + b32_digits(be_value(h.subrange(30, 32)) * 16, 4)
}

/// Bytes of the first `k` eight-character groups of `t`, five each.
pub open spec fn groups_bytes(t: Seq<char>, k: nat) -> Seq<u8>
    decreases k,
{
    if k == 0 {
        Seq::empty()
    } else {
        groups_bytes(t, (k - 1) as nat) + be_bytes(b32_value(t.subrange(8 * (k - 1), (8 * k) as int)), 5)
    }
}

/// The 32-byte hash that a 52-character text reads as: six groups of eight
/// characters, then four characters whose value carries two bytes above
/// four bits.
pub open spec fn text_hash(t: Seq<char>) -> Seq<u8> {
    groups_bytes(t, 6) + be_bytes(b32_value(t.subrange(48, 52)) / 16, 2)
}

// ---------------------------------------------------------------------
// Proofs
// ---------------------------------------------------------------------

proof fn lemma_b32_digits_len(n: nat, len: nat)
    ensures
        b32_digits(n, len).len() == len,
    decreases len,
{
    if len > 0 {
        lemma_b32_digits_len(n / 32, (len - 1) as nat);
    }
}

proof fn lemma_be_bytes_len(n: nat, len: nat)
    ensures
        be_bytes(n, len).len() == len,
    decreases len,
{
    if len > 0 {
        lemma_be_bytes_len(n / 256, (len - 1) as nat);
    }
}

/// Digits read back give the number they were written from.
proof fn lemma_b32_round_trip(n: nat, len: nat)
    requires
        n < pow32(len),
    ensures
        b32_value(b32_digits(n, len)) == n,
        b32_digits(n, len).len() == len,
    decreases len,
{
    lemma_b32_digits_len(n, len);
    if len > 0 {
        let q = n / 32;
        let r = n % 32;
        assert(q < pow32((len - 1) as nat)) by (nonlinear_arith)
            requires
                n < 32 * pow32((len - 1) as nat),
                q == n / 32,
        ;
        lemma_b32_round_trip(q, (len - 1) as nat);
        let d = b32_digits(n, len);
        assert(d.drop_last() =~= b32_digits(q, (len - 1) as nat));
        assert(b32_char_value(b32_char(r)) == r);
        assert(b32_value(d) == q * 32 + r);
        assert(q * 32 + r == n) by (nonlinear_arith)
            requires
                q == n / 32,
                r == n % 32,
        ;
    }
}

/// The bytes of a number below `256^len` read back as that number, and the
/// value of a byte sequence is below `256^len` and writes back as it.
proof fn lemma_be_round_trip(b: Seq<u8>)
    ensures
        be_value(b) < pow256(b.len()),
        be_bytes(be_value(b), b.len()) == b,
    decreases b.len(),
{
    if b.len() > 0 {
        let p = b.drop_last();
        lemma_be_round_trip(p);
        let v = be_value(b);
        let pv = be_value(p);
        let last = b.last() as nat;
        assert(v == pv * 256 + last);
        assert(v < pow256(b.len())) by (nonlinear_arith)
            requires
                v == pv * 256 + last,
                pv < pow256(p.len()),
                last < 256,
                pow256(b.len()) == 256 * pow256(p.len()),
        ;
        assert(v / 256 == pv && v % 256 == last) by (nonlinear_arith)
            requires
                v == pv * 256 + last,
                last < 256,
        ;
        assert(be_bytes(v, b.len()) == be_bytes(pv, p.len()).push((last % 256) as u8));
        assert(be_bytes(v, b.len()) =~= b);
    }
}

proof fn lemma_powers()
    ensures
        pow32(8) == 1099511627776,
        pow256(5) == 1099511627776,
        pow32(4) == 1048576,
        pow256(2) == 65536,
{
    reveal_with_fuel(pow32, 9);
    reveal_with_fuel(pow256, 6);
}

proof fn lemma_groups_text_len(h: Seq<u8>, k: nat)
    ensures
        groups_text(h, k).len() == 8 * k,
    decreases k,
{
    if k > 0 {
        lemma_groups_text_len(h, (k - 1) as nat);
        lemma_b32_digits_len(be_value(h.subrange(5 * (k - 1), (5 * k) as int)), 8);
    }
}

/// Reading the text of the first `k` groups back gives the first `5k` bytes.
proof fn lemma_groups_round_trip(h: Seq<u8>, t: Seq<char>, k: nat)
    requires
        h.len() >= 5 * k,
        t.len() >= 8 * k,
        t.subrange(0, 8 * k as int) == groups_text(h, k),
    ensures
        groups_bytes(t, k) == h.subrange(0, 5 * k as int),
    decreases k,
{
    if k > 0 {
        let j = (k - 1) as nat;
        lemma_groups_text_len(h, j);
        lemma_groups_text_len(h, k);
        let block = h.subrange((5 * j) as int, (5 * k) as int);
        let v = be_value(block);
        lemma_be_round_trip(block);
        lemma_powers();
        lemma_b32_round_trip(v, 8);
        let gt = groups_text(h, k);
        assert(gt == groups_text(h, j) + b32_digits(v, 8));
        assert(t.subrange(0, 8 * j as int) =~= gt.subrange(0, 8 * j as int));
        assert(gt.subrange(0, 8 * j as int) =~= groups_text(h, j));
        lemma_groups_round_trip(h, t, j);
        lemma_b32_digits_len(v, 8);
        assert(t.subrange(8 * j as int, 8 * k as int) =~= gt.subrange(8 * j as int, 8 * k as int));
        assert(gt.subrange(8 * j as int, 8 * k as int) =~= b32_digits(v, 8));
        assert(groups_bytes(t, k) == h.subrange(0, 5 * j as int) + block);
        assert(h.subrange(0, 5 * j as int) + block =~= h.subrange(0, 5 * k as int));
    }
}

/// The hash that `text_hash` reads from `hash_text(h)` is `h`.
pub proof fn lemma_hash_text_round_trip(h: Seq<u8>)
    requires
        h.len() == 32,
    ensures
        hash_text(h).len() == 52,
        text_hash(hash_text(h)) == h,
{
    let t = hash_text(h);
    let tail = h.subrange(30, 32);
    let v = be_value(tail);
    lemma_groups_text_len(h, 6);
    lemma_be_round_trip(tail);
    lemma_powers();
    assert(v * 16 < pow32(4));
    lemma_b32_round_trip(v * 16, 4);
    assert(t.subrange(0, 48) =~= groups_text(h, 6));
    lemma_groups_round_trip(h, t, 6);
    assert(t.subrange(48, 52) =~= b32_digits(v * 16, 4));
    assert((v * 16) / 16 == v);
    assert(text_hash(t) == h.subrange(0, 30) + tail);
    assert(h.subrange(0, 30) + tail =~= h);
}

/// A base32 character: a digit or a letter from `a` to `v`.
pub open spec fn is_b32_char(c: char) -> bool {
    '0' <= c <= '9' || 'a' <= c <= 'v'
}

proof fn lemma_b32_digits_chars(n: nat, len: nat)
    ensures
        forall|i: int| 0 <= i < b32_digits(n, len).len() ==> is_b32_char(#[trigger] b32_digits(n, len)[i]),
    decreases len,
{
    if len > 0 {
        lemma_b32_digits_chars(n / 32, (len - 1) as nat);
        let p = b32_digits(n / 32, (len - 1) as nat);
        assert forall|i: int| 0 <= i < b32_digits(n, len).len() implies is_b32_char(#[trigger] b32_digits(n, len)[i]) by {
            if i < p.len() {
                assert(b32_digits(n, len)[i] == p[i]);
            }
        }
    }
}

proof fn lemma_groups_text_chars(h: Seq<u8>, k: nat)
    ensures
        forall|i: int| 0 <= i < groups_text(h, k).len() ==> is_b32_char(#[trigger] groups_text(h, k)[i]),
    decreases k,
{
    if k > 0 {
        lemma_groups_text_chars(h, (k - 1) as nat);
        let p = groups_text(h, (k - 1) as nat);
        let v = be_value(h.subrange(5 * (k - 1), (5 * k) as int));
        lemma_b32_digits_chars(v, 8);
        let g = groups_text(h, k);
        assert forall|i: int| 0 <= i < g.len() implies is_b32_char(#[trigger] g[i]) by {
            if i < p.len() {
                assert(g[i] == p[i]);
            } else {
                assert(g[i] == b32_digits(v, 8)[i - p.len()]);
            }
        }
    }
}

/// Every character of a hash's text is a base32 character.
pub proof fn lemma_hash_text_chars(h: Seq<u8>)
    ensures
        forall|i: int| 0 <= i < hash_text(h).len() ==> is_b32_char(#[trigger] hash_text(h)[i]),
{
    lemma_groups_text_chars(h, 6);
    let g = groups_text(h, 6);
    let v = be_value(h.subrange(30, 32)) * 16;
    lemma_b32_digits_chars(v, 4);
    let t = hash_text(h);
    assert forall|i: int| 0 <= i < t.len() implies is_b32_char(#[trigger] t[i]) by {
        if i < g.len() {
            assert(t[i] == g[i]);
        } else {
            assert(t[i] == b32_digits(v, 4)[i - g.len()]);
        }
    }
}

// ---------------------------------------------------------------------
// The text as RFC 4648 base32hex
// ---------------------------------------------------------------------

/// The RFC 4648 base32hex alphabet, in lower case.
pub open spec fn base32hex_alphabet() -> Seq<char> {
    "0123456789abcdefghijklmnopqrstuv"@
}

/// The 40-bit big-endian number of the five bytes of `h` from `5 * k` on.
pub open spec fn group40(h: Seq<u8>, k: int) -> nat {
    (h[5 * k] as nat) * 4294967296 + (h[5 * k + 1] as nat) * 16777216 + (h[5 * k + 2] as nat)
        * 65536 + (h[5 * k + 3] as nat) * 256 + (h[5 * k + 4] as nat)
}

proof fn lemma_pow32_positive(n: nat)
    ensures
        pow32(n) > 0,
    decreases n,
{
    if n > 0 {
        lemma_pow32_positive((n - 1) as nat);
    }
}

/// Digit `j` of `b32_digits(n, len)` is the base-32 digit of `n` of weight
/// `32^(len - 1 - j)`.
proof fn lemma_b32_digits_index(n: nat, len: nat, j: int)
    requires
        0 <= j < len,
    ensures
        b32_digits(n, len)[j] == b32_char((n / pow32((len - 1 - j) as nat)) % 32),
    decreases len,
{
    lemma_b32_digits_len(n / 32, (len - 1) as nat);
    let d = b32_digits(n, len);
    assert(d == b32_digits(n / 32, (len - 1) as nat).push(b32_char(n % 32)));
    if j == len - 1 {
        assert(pow32(0) == 1);
        assert(n / 1 == n);
    } else {
        assert(d[j] == b32_digits(n / 32, (len - 1) as nat)[j]);
        lemma_b32_digits_index(n / 32, (len - 1) as nat, j);
        let p = pow32((len - 2 - j) as nat);
        lemma_pow32_positive((len - 2 - j) as nat);
        vstd::arithmetic::div_mod::lemma_div_denominator(n as int, 32, p as int);
        assert(pow32((len - 1 - j) as nat) == 32 * p);
    }
}

/// The digit of weight `32^j` of the group's value.
proof fn lemma_groups_text_index(h: Seq<u8>, m: nat, i: int)
    requires
        h.len() >= 5 * m,
        0 <= i < 8 * m,
    ensures
        groups_text(h, m)[i] == b32_char(
            (be_value(h.subrange(5 * (i / 8), 5 * (i / 8) + 5)) / pow32((7 - i % 8) as nat)) % 32,
        ),
    decreases m,
{
    let j = (m - 1) as nat;
    lemma_groups_text_len(h, j);
    let v = be_value(h.subrange((5 * j) as int, (5 * m) as int));
    lemma_b32_digits_len(v, 8);
    if i < 8 * j {
        lemma_groups_text_index(h, j, i);
    } else {
        assert(i / 8 == j && i % 8 == i - 8 * j) by (nonlinear_arith)
            requires
                8 * j <= i < 8 * j + 8,
        ;
        lemma_b32_digits_index(v, 8, i - 8 * j);
    }
}

/// The value of five bytes is their 40-bit big-endian number.
proof fn lemma_block_value(h: Seq<u8>, k: int)
    requires
        0 <= k,
        5 * k + 5 <= h.len(),
    ensures
        be_value(h.subrange(5 * k, 5 * k + 5)) == group40(h, k),
{
    let b = h.subrange(5 * k, 5 * k + 5);
    assert(b.drop_last() =~= h.subrange(5 * k, 5 * k + 4));
    assert(h.subrange(5 * k, 5 * k + 4).drop_last() =~= h.subrange(5 * k, 5 * k + 3));
    assert(h.subrange(5 * k, 5 * k + 3).drop_last() =~= h.subrange(5 * k, 5 * k + 2));
    assert(h.subrange(5 * k, 5 * k + 2).drop_last() =~= h.subrange(5 * k, 5 * k + 1));
    assert(h.subrange(5 * k, 5 * k + 1).drop_last() =~= Seq::<u8>::empty());
    let b0 = h[5 * k] as int;
    let b1 = h[5 * k + 1] as int;
    let b2 = h[5 * k + 2] as int;
    let b3 = h[5 * k + 3] as int;
    let b4 = h[5 * k + 4] as int;
    assert(be_value(h.subrange(5 * k, 5 * k + 1)) == be_value(Seq::<u8>::empty()) * 256 + b0);
    assert(be_value(h.subrange(5 * k, 5 * k + 1)) == b0);
    assert(be_value(h.subrange(5 * k, 5 * k + 2)) == be_value(h.subrange(5 * k, 5 * k + 1)) * 256 + b1);
    assert(be_value(h.subrange(5 * k, 5 * k + 3)) == be_value(h.subrange(5 * k, 5 * k + 2)) * 256 + b2);
    assert(be_value(h.subrange(5 * k, 5 * k + 4)) == be_value(h.subrange(5 * k, 5 * k + 3)) * 256 + b3);
    assert(be_value(b) == be_value(h.subrange(5 * k, 5 * k + 4)) * 256 + b4);
    assert(be_value(h.subrange(5 * k, 5 * k + 2)) == b0 * 256 + b1);
    assert(be_value(h.subrange(5 * k, 5 * k + 3)) == (b0 * 256 + b1) * 256 + b2);
    assert(be_value(h.subrange(5 * k, 5 * k + 4)) == ((b0 * 256 + b1) * 256 + b2) * 256 + b3);
    assert(be_value(b) == (((b0 * 256 + b1) * 256 + b2) * 256 + b3) * 256 + b4);
    assert((((b0 * 256 + b1) * 256 + b2) * 256 + b3) * 256 + b4 == b0 * 4294967296 + b1 * 16777216
        + b2 * 65536 + b3 * 256 + b4) by (nonlinear_arith);
}

/// Each base-32 digit stands for the character at its place in the
/// base32hex alphabet.
pub proof fn lemma_b32_char_is_base32hex(d: nat)
    requires
        d < 32,
    ensures
        b32_char(d) == base32hex_alphabet()[d as int],
        base32hex_alphabet().len() == 32,
{
    reveal_strlit("0123456789abcdefghijklmnopqrstuv");
    let a = base32hex_alphabet();
    assert(a =~= seq!['0', '1', '2', '3', '4', '5', '6', '7', '8', '9', 'a', 'b', 'c', 'd', 'e', 'f',
        'g', 'h', 'i', 'j', 'k', 'l', 'm', 'n', 'o', 'p', 'q', 'r', 's', 't', 'u', 'v']);
}

/// The base32hex character of the 5-bit digit of weight `32^w` of `v`.
pub open spec fn base32hex_digit(v: nat, w: nat) -> char {
    base32hex_alphabet()[((v / pow32(w)) % 32) as int]
}

/// The text of a 32-byte hash is its RFC 4648 base32hex encoding in lower
/// case without padding: character `i` of the first 48 is the alphabet's
/// character at the 5-bit digit of weight `32^(7 - i % 8)` of the 40-bit
/// group `i / 8` of the hash; the last four encode the last two bytes
/// followed by four zero bits, the same way.
pub proof fn lemma_hash_text_is_base32hex(h: Seq<u8>)
    requires
        h.len() == 32,
    ensures
        hash_text(h).len() == 52,
        forall|i: int|
            0 <= i < 48 ==> #[trigger] hash_text(h)[i] == base32hex_digit(
                group40(h, i / 8),
                (7 - i % 8) as nat,
            ),
        forall|i: int|
            48 <= i < 52 ==> #[trigger] hash_text(h)[i] == base32hex_digit(
                (((h[30] as nat) * 256 + (h[31] as nat)) * 16) as nat,
                (51 - i) as nat,
            ),
{
    lemma_hash_text_round_trip(h);
    lemma_groups_text_len(h, 6);
    let t = hash_text(h);
    let tail = (be_value(h.subrange(30, 32)) * 16) as nat;
    lemma_b32_digits_len(tail, 4);
    assert forall|i: int| 0 <= i < 48 implies #[trigger] t[i] == base32hex_digit(
        group40(h, i / 8),
        (7 - i % 8) as nat,
    ) by {
        assert(t[i] == groups_text(h, 6)[i]);
        lemma_groups_text_index(h, 6, i);
        assert(0 <= i / 8 < 6) by (nonlinear_arith)
            requires
                0 <= i < 48,
        ;
        lemma_block_value(h, i / 8);
        lemma_pow32_positive((7 - i % 8) as nat);
        lemma_b32_char_is_base32hex((group40(h, i / 8) / pow32((7 - i % 8) as nat)) % 32);
    }
    assert(h.subrange(30, 32).drop_last() =~= h.subrange(30, 31));
    assert(h.subrange(30, 31).drop_last() =~= Seq::<u8>::empty());
    assert(be_value(h.subrange(30, 31)) == be_value(Seq::<u8>::empty()) * 256 + h[30] as nat);
    assert(be_value(h.subrange(30, 32)) == be_value(h.subrange(30, 31)) * 256 + h[31] as nat);
    assert(be_value(h.subrange(30, 32)) == (h[30] as nat) * 256 + (h[31] as nat));
    assert forall|i: int| 48 <= i < 52 implies #[trigger] t[i] == base32hex_digit(
        (((h[30] as nat) * 256 + (h[31] as nat)) * 16) as nat,
        (51 - i) as nat,
    ) by {
        assert(t[i] == b32_digits(tail, 4)[i - 48]);
        lemma_b32_digits_index(tail, 4, i - 48);
        lemma_pow32_positive((51 - i) as nat);
        lemma_b32_char_is_base32hex((tail / pow32((51 - i) as nat)) % 32);
    }
}

// ---------------------------------------------------------------------
// Executable encoding and decoding
// ---------------------------------------------------------------------

/// The character of the base-32 digit `d`.
fn b32_char_of(d: u64) -> (c: char)
    requires
        d < 32,
    ensures
        c == b32_char(d as nat),
{
    if d < 10 {
        ((48 + d) as u8) as char
    } else {
        ((87 + d) as u8) as char
    }
}

/// The digit the character `c` stands for.
fn b32_value_of(c: char) -> (d: u64)
    ensures
        d == b32_char_value(c),
        d < 32,
{
    if '0' <= c && c <= '9' {
        (c as u64) - 48
    } else if 'a' <= c && c <= 'v' {
        (c as u64) - 87
    } else {
        0
    }
}

/// Appends the last `len` base-32 digits of `n` to `out`.
fn push_b32_digits(out: &mut Vec<char>, n: u64, len: usize)
    ensures
        final(out)@ == old(out)@ + b32_digits(n as nat, len as nat),
    decreases len,
{
    if len > 0 {
        push_b32_digits(out, n / 32, len - 1);
        out.push(b32_char_of(n % 32));
        assert(final(out)@ =~= old(out)@ + b32_digits(n as nat, len as nat));
    }
}

/// Appends the last `len` bytes of `n` to `out`.
fn push_be_bytes(out: &mut Vec<u8>, n: u64, len: usize)
    ensures
        final(out)@ == old(out)@ + be_bytes(n as nat, len as nat),
    decreases len,
{
    if len > 0 {
        push_be_bytes(out, n / 256, len - 1);
        out.push((n % 256) as u8);
        assert(final(out)@ =~= old(out)@ + be_bytes(n as nat, len as nat));
    }
}

/// The value of the five bytes of `h` from `start` on.
fn group_value(h: &[u8; 32], start: usize) -> (v: u64)
    requires
        start + 5 <= 32,
    ensures
        v == be_value(h@.subrange(start as int, start + 5)),
{
    let mut v: u64 = 0;
    let mut j: usize = 0;
    while j < 5
        invariant
            j <= 5,
            start + 5 <= 32,
            v == be_value(h@.subrange(start as int, start + j)),
            v < pow256(j as nat),
        decreases 5 - j,
    {
        proof {
            lemma_powers();
            reveal_with_fuel(pow256, 6);
        }
        let b = h[start + j];
        assert(h@.subrange(start as int, start + j + 1).drop_last() =~= h@.subrange(
            start as int,
            start + j,
        ));
        assert(v * 256 + b < pow256((j + 1) as nat)) by (nonlinear_arith)
            requires
                v < pow256(j as nat),
                b < 256,
                pow256((j + 1) as nat) == 256 * pow256(j as nat),
                pow256((j + 1) as nat) <= 1099511627776,
        ;
        v = v * 256 + b as u64;
        j = j + 1;
    }
    v
}

/// The value of the `len` characters of `t` from `start` on.
fn text_group_value(t: &Vec<char>, start: usize, len: usize) -> (v: u64)
    requires
        start + len <= t@.len(),
        start <= 48,
        len <= 8,
    ensures
        v == b32_value(t@.subrange(start as int, start + len)),
{
    let mut v: u64 = 0;
    let mut j: usize = 0;
    while j < len
        invariant
            j <= len <= 8,
            start <= 48,
            start + len <= t@.len(),
            v == b32_value(t@.subrange(start as int, start + j)),
            v < pow32(j as nat),
        decreases len - j,
    {
        proof {
            lemma_powers();
            reveal_with_fuel(pow32, 9);
        }
        let d = b32_value_of(t[start + j]);
        assert(t@.subrange(start as int, start + j + 1).drop_last() =~= t@.subrange(
            start as int,
            start + j,
        ));
        assert(v * 32 + d < pow32((j + 1) as nat)) by (nonlinear_arith)
            requires
                v < pow32(j as nat),
                d < 32,
                pow32((j + 1) as nat) == 32 * pow32(j as nat),
                pow32((j + 1) as nat) <= 1099511627776,
        ;
        v = v * 32 + d;
        j = j + 1;
    }
    v
}

/// The base32 text of a 32-byte hash.
pub fn hash_to_text(h: &[u8; 32]) -> (t: Vec<char>)
    ensures
        t@ == hash_text(h@),
{
    let mut t: Vec<char> = Vec::new();
    let mut k: usize = 0;
    while k < 6
        invariant
            k <= 6,
            t@ == groups_text(h@, k as nat),
        decreases 6 - k,
    {
        let v = group_value(h, 5 * k);
        push_b32_digits(&mut t, v, 8);
        k = k + 1;
    }
    let tail: u64 = (h[30] as u64) * 256 + (h[31] as u64);
    assert(h@.subrange(30, 32).drop_last() =~= h@.subrange(30, 31));
    assert(h@.subrange(30, 31).drop_last() =~= Seq::<u8>::empty());
    assert(be_value(h@.subrange(30, 31)) == be_value(Seq::<u8>::empty()) * 256 + h@[30] as nat);
    assert(be_value(h@.subrange(30, 31)) == h@[30] as nat);
    assert(be_value(h@.subrange(30, 32)) == be_value(h@.subrange(30, 31)) * 256 + h@[31] as nat);
    assert(tail == be_value(h@.subrange(30, 32)));
    push_b32_digits(&mut t, tail * 16, 4);
    t
}

/// The hash a 52-character text reads as (see `text_hash`).
pub fn text_to_hash(t: &Vec<char>) -> (h: [u8; 32])
    requires
        t@.len() == 52,
    ensures
        h@ == text_hash(t@),
{
    let mut bytes: Vec<u8> = Vec::new();
    let mut k: usize = 0;
    while k < 6
        invariant
            k <= 6,
            t@.len() == 52,
            bytes@ == groups_bytes(t@, k as nat),
        decreases 6 - k,
    {
        let v = text_group_value(t, 8 * k, 8);
        push_be_bytes(&mut bytes, v, 5);
        k = k + 1;
    }
    let tail = text_group_value(t, 48, 4);
    push_be_bytes(&mut bytes, tail / 16, 2);
    proof {
        lemma_groups_bytes_len(t@, 6);
        lemma_be_bytes_len(b32_value(t@.subrange(48, 52)) / 16, 2);
    }
    let mut h: [u8; 32] = [0u8; 32];
    let mut i: usize = 0;
    while i < 32
        invariant
            i <= 32,
            bytes@.len() == 32,
            forall|j: int| 0 <= j < i ==> h@[j] == bytes@[j],
        decreases 32 - i,
    {
        h[i] = bytes[i];
        i = i + 1;
    }
    assert(h@ =~= bytes@);
    h
}

proof fn lemma_groups_bytes_len(t: Seq<char>, k: nat)
    ensures
        groups_bytes(t, k).len() == 5 * k,
    decreases k,
{
    if k > 0 {
        lemma_groups_bytes_len(t, (k - 1) as nat);
        lemma_be_bytes_len(b32_value(t.subrange(8 * (k - 1), (8 * k) as int)), 5);
    }
}

} // verus!
