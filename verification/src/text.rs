//! Plain text helpers: decimal and hexadecimal rendering of integers,
//! decimal parsing, and the string building blocks the views are made of.
use vstd::prelude::*;
use vstd::string::StringSliceAdditionalSpecFns;
use vstd::utf8::{decode_utf8, encode_utf8, is_char_boundary};

verus! {

// ---------------------------------------------------------------------------
// std String primitives that vstd leaves unspecified
// ---------------------------------------------------------------------------

/// `String::push`: appends one character at the end (std documents exactly this).
#[verifier::external_body]
pub fn string_push(s: &mut String, c: char)
    ensures
        final(s)@ == old(s)@.push(c),
{
    s.push(c);
}

/// `String::pop`: removes and returns the last character, `None` on an empty string.
#[verifier::external_body]
pub fn string_pop(s: &mut String) -> (r: Option<char>)
    ensures
        old(s)@.len() == 0 ==> r is None && final(s)@ == old(s)@,
        old(s)@.len() > 0 ==> r == Some(old(s)@.last()) && final(s)@ == old(s)@.drop_last(),
{
    s.pop()
}

/// `str::to_lowercase`: the lowercase form of a string under Unicode rules.
#[verifier::external_body]
pub fn str_to_lowercase(s: &str) -> (r: String)
    ensures
        r@ == lowercase(s@),
{
    s.to_lowercase()
}

/// What `str::to_lowercase` gives for a string (Unicode case mapping).
pub uninterp spec fn lowercase(s: Seq<char>) -> Seq<char>;

// ---------------------------------------------------------------------------
// Decimal rendering
// ---------------------------------------------------------------------------

/// The ASCII digit for `d` (`d < 10`).
pub open spec fn digit_char(d: nat) -> char {
    (d + 48) as char
}

/// Whether `c` is an ASCII decimal digit.
pub open spec fn is_digit(c: char) -> bool {
    '0' <= c && c <= '9'
}

/// The value of an ASCII digit.
pub open spec fn digit_value(c: char) -> nat {
    (c as int - 48) as nat
}

/// The decimal rendering of `n`, most significant digit first, no leading zeros.
pub open spec fn dec(n: nat) -> Seq<char>
    decreases n,
{
    if n < 10 {
        seq![digit_char(n)]
    } else {
        dec(n / 10).push(digit_char(n % 10))
    }
}

/// Every character of `s` is an ASCII digit.
pub open spec fn all_digits(s: Seq<char>) -> bool {
    forall|i: int| 0 <= i < s.len() ==> is_digit(#[trigger] s[i])
}

/// The number that a string of decimal digits denotes.
pub open spec fn dec_value(s: Seq<char>) -> nat
    decreases s.len(),
{
    if s.len() == 0 {
        0
    } else {
        dec_value(s.drop_last()) * 10 + digit_value(s.last())
    }
}

/// What std's unsigned `FromStr` gives for `s` when the largest value is `max`:
/// an optional leading `+`, then one or more ASCII digits whose value is at most `max`.
pub open spec fn parse_unsigned(s: Seq<char>, max: nat) -> Option<nat> {
    let body = if s.len() > 0 && s[0] == '+' {
        s.drop_first()
    } else {
        s
    };
    if body.len() > 0 && all_digits(body) && dec_value(body) <= max {
        Some(dec_value(body))
    } else {
        None
    }
}

proof fn lemma_digit_roundtrip(d: nat)
    requires
        d < 10,
    ensures
        digit_value(digit_char(d)) == d,
        is_digit(digit_char(d)),
        digit_char(d) != '+',
{
    assert((d + 48) as char as int == d + 48);
}

proof fn lemma_dec_shape(n: nat)
    ensures
        dec(n).len() >= 1,
        all_digits(dec(n)),
        dec_value(dec(n)) == n,
        dec(n)[0] != '+',
    decreases n,
{
    lemma_digit_roundtrip(n % 10);
    if n < 10 {
        assert(dec(n).drop_last() =~= Seq::<char>::empty());
        assert(n % 10 == n);
        assert(dec_value(Seq::<char>::empty()) == 0);
        assert(dec_value(dec(n)) == dec_value(dec(n).drop_last()) * 10 + digit_value(dec(n).last()));
    } else {
        lemma_dec_shape(n / 10);
        let s = dec(n);
        assert(s.drop_last() =~= dec(n / 10));
        assert(n == (n / 10) * 10 + n % 10);
        assert(dec_value(s) == dec_value(s.drop_last()) * 10 + digit_value(s.last()));
        assert forall|i: int| 0 <= i < s.len() implies is_digit(#[trigger] s[i]) by {
            if i < s.len() - 1 {
                assert(s[i] == dec(n / 10)[i]);
            }
        }
    }
}

/// Decimal rendering and parsing agree: the digits of `n` parse back to `n`.
pub proof fn lemma_parse_dec_roundtrip(n: nat, max: nat)
    requires
        n <= max,
    ensures
        parse_unsigned(dec(n), max) == Some(n),
{
    lemma_dec_shape(n);
}

/// Renders `n` in decimal.
pub fn u64_to_dec(n: u64) -> (s: String)
    ensures
        s@ == dec(n as nat),
    decreases n,
{
    if n < 10 {
        let mut s = String::new();
        string_push(&mut s, digit_of(n));
        s
    } else {
        let mut s = u64_to_dec(n / 10);
        string_push(&mut s, digit_of(n % 10));
        s
    }
}

/// Renders `n` in decimal.
pub fn u32_to_dec(n: u32) -> (s: String)
    ensures
        s@ == dec(n as nat),
{
    u64_to_dec(n as u64)
}

/// Renders `n` in decimal.
pub fn usize_to_dec(n: usize) -> (s: String)
    ensures
        s@ == dec(n as nat),
{
    u64_to_dec(n as u64)
}

fn digit_of(d: u64) -> (c: char)
    requires
        d < 10,
    ensures
        c == digit_char(d as nat),
{
    match d {
        0 => '0',
        1 => '1',
        2 => '2',
        3 => '3',
        4 => '4',
        5 => '5',
        6 => '6',
        7 => '7',
        8 => '8',
        _ => '9',
    }
}

proof fn lemma_dec_value_take_step(t: Seq<char>, k: int)
    requires
        0 <= k < t.len(),
    ensures
        dec_value(t.take(k + 1)) == dec_value(t.take(k)) * 10 + digit_value(t[k]),
{
    assert(t.take(k + 1).drop_last() =~= t.take(k));
}

proof fn lemma_dec_value_prefix_le(t: Seq<char>, k: int)
    requires
        0 <= k <= t.len(),
    ensures
        dec_value(t.take(k)) <= dec_value(t),
    decreases t.len(),
{
    if k == t.len() {
        assert(t.take(k) =~= t);
    } else {
        let u = t.drop_last();
        lemma_dec_value_prefix_le(u, k);
        assert(u.take(k) =~= t.take(k));
        assert(dec_value(t) == dec_value(u) * 10 + digit_value(t.last()));
    }
}

/// Parses `s` the way std's unsigned `FromStr` does, for values up to `max`.
pub fn parse_decimal_upto(s: &str, max: u64) -> (r: Option<u64>)
    ensures
        match r {
            Some(v) => parse_unsigned(s@, max as nat) == Some(v as nat),
            None => parse_unsigned(s@, max as nat) is None,
        },
{
    let n = s.unicode_len();
    let mut start: usize = 0;
    if n > 0 && s.get_char(0) == '+' {
        start = 1;
    }
    let ghost body = if s@.len() > 0 && s@[0] == '+' {
        s@.drop_first()
    } else {
        s@
    };
    assert(body =~= s@.subrange(start as int, n as int));
    if start == n {
        return None;
    }
    let mut acc: u64 = 0;
    let mut i: usize = start;
    assert(body.take(0) =~= Seq::<char>::empty());
    while i < n
        invariant
            start <= i <= n,
            n == s@.len(),
            body =~= s@.subrange(start as int, n as int),
            body == (if s@.len() > 0 && s@[0] == '+' {
                s@.drop_first()
            } else {
                s@
            }),
            body.len() > 0,
            acc as nat == dec_value(body.take(i - start)),
            acc <= max,
            forall|j: int| 0 <= j < i - start ==> is_digit(#[trigger] body[j]),
        decreases n - i,
    {
        let c = s.get_char(i);
        assert(c == body[i - start]);
        if !('0' <= c && c <= '9') {
            assert(!is_digit(body[i - start]));
            assert(!all_digits(body));
            return None;
        }
        let d: u64 = (c as u32 - 48) as u64;
        proof {
            lemma_dec_value_take_step(body, i - start);
        }
        match acc.checked_mul(10) {
            None => {
                proof {
                    lemma_overflow_means_none(body, (i - start + 1) as int, max as nat);
                }
                return None;
            },
            Some(t) => match t.checked_add(d) {
                None => {
                    proof {
                        lemma_overflow_means_none(body, (i - start + 1) as int, max as nat);
                    }
                    return None;
                },
                Some(v) => {
                    if v > max {
                        proof {
                            lemma_overflow_means_none(body, (i - start + 1) as int, max as nat);
                        }
                        return None;
                    }
                    acc = v;
                },
            },
        }
        i = i + 1;
    }
    assert(body.take(n - start) =~= body);
    Some(acc)
}

proof fn lemma_overflow_means_none(body: Seq<char>, k: int, max: nat)
    requires
        0 < k <= body.len(),
        dec_value(body.take(k)) > max,
    ensures
        !(all_digits(body) && dec_value(body) <= max),
{
    if all_digits(body) {
        lemma_dec_value_prefix_le(body, k);
    }
}

/// Parses a `u32` the way `str::parse::<u32>` does.
pub fn parse_u32(s: &str) -> (r: Option<u32>)
    ensures
        match r {
            Some(v) => parse_unsigned(s@, u32::MAX as nat) == Some(v as nat),
            None => parse_unsigned(s@, u32::MAX as nat) is None,
        },
{
    match parse_decimal_upto(s, u32::MAX as u64) {
        Some(v) => Some(v as u32),
        None => None,
    }
}

/// Parses a `usize` the way `str::parse::<usize>` does.
pub fn parse_usize(s: &str) -> (r: Option<usize>)
    ensures
        match r {
            Some(v) => parse_unsigned(s@, usize::MAX as nat) == Some(v as nat),
            None => parse_unsigned(s@, usize::MAX as nat) is None,
        },
{
    match parse_decimal_upto(s, usize::MAX as u64) {
        Some(v) => Some(v as usize),
        None => None,
    }
}

/// Whether two strings hold the same characters.
pub fn str_eq(a: &str, b: &str) -> (r: bool)
    ensures
        r == (a@ == b@),
{
    let n = a.unicode_len();
    if n != b.unicode_len() {
        return false;
    }
    let mut i: usize = 0;
    while i < n
        invariant
            i <= n,
            n == a@.len(),
            n == b@.len(),
            forall|j: int| 0 <= j < i ==> a@[j] == b@[j],
        decreases n - i,
    {
        if a.get_char(i) != b.get_char(i) {
            return false;
        }
        i = i + 1;
    }
    assert(a@ =~= b@);
    true
}

// ---------------------------------------------------------------------------
// Byte-indexed cuts
// ---------------------------------------------------------------------------

/// Length in bytes of the UTF-8 encoding of `s`.
pub open spec fn byte_len(s: Seq<char>) -> nat {
    encode_utf8(s).len()
}

/// The text made of the first `n` bytes of `s` (`&s[..n]`).
pub open spec fn byte_prefix(s: Seq<char>, n: nat) -> Seq<char> {
    decode_utf8(encode_utf8(s).take(n as int))
}

/// The text from byte `n` of `s` on (`&s[n..]`).
pub open spec fn byte_suffix(s: Seq<char>, n: nat) -> Seq<char> {
    decode_utf8(encode_utf8(s).skip(n as int))
}

/// Byte `n` of `s` starts a character (or is its end), so `s` may be cut there.
pub open spec fn cut_ok(s: Seq<char>, n: nat) -> bool {
    n <= byte_len(s) && is_char_boundary(encode_utf8(s), n as int)
}

/// `&s[..n]`.
pub fn str_prefix(s: &str, n: usize) -> (r: &str)
    requires
        cut_ok(s@, n as nat),
    ensures
        r@ == byte_prefix(s@, n as nat),
{
    broadcast use vstd::utf8::group_utf8_lib;

    let (a, _b) = s.split_at(n);
    assert(a.spec_bytes() =~= encode_utf8(s@).take(n as int));
    a
}

/// `&s[n..]`.
pub fn str_suffix(s: &str, n: usize) -> (r: &str)
    requires
        cut_ok(s@, n as nat),
    ensures
        r@ == byte_suffix(s@, n as nat),
{
    broadcast use vstd::utf8::group_utf8_lib;

    let (_a, b) = s.split_at(n);
    assert(b.spec_bytes() =~= encode_utf8(s@).skip(n as int));
    b
}

/// `s.len()`: the length in bytes.
pub fn str_byte_len(s: &str) -> (r: usize)
    ensures
        r as nat == byte_len(s@),
{
    s.as_bytes().len()
}

/// `min(n, byte_len(s))`.
pub open spec fn clamp_len(s: Seq<char>, n: nat) -> nat {
    if n <= byte_len(s) {
        n
    } else {
        byte_len(s)
    }
}

/// An id shortened to its first `n` bytes and `...` when longer than `n` bytes.
pub open spec fn shorten(s: Seq<char>, n: nat) -> Seq<char> {
    if byte_len(s) > n {
        byte_prefix(s, n) + "..."@
    } else {
        s
    }
}

/// Shortens `s` to its first `n` bytes followed by `...` when it is longer.
pub fn shorten_str(s: &str, n: usize) -> (r: String)
    requires
        byte_len(s@) > n ==> cut_ok(s@, n as nat),
    ensures
        r@ == shorten(s@, n as nat),
{
    if str_byte_len(s) > n {
        let mut r = str_prefix(s, n).to_owned();
        r.append("...");
        r
    } else {
        s.to_owned()
    }
}

/// A hash as displayed: whole when expanded or at most 16 bytes long, else its
/// first and last 8 bytes around `...`.
pub open spec fn hash_display(s: Seq<char>, expand: bool) -> Seq<char> {
    if expand || byte_len(s) <= 16 {
        s
    } else {
        byte_prefix(s, 8) + "..."@ + byte_suffix(s, (byte_len(s) - 8) as nat)
    }
}

/// `s` can be displayed as a shortened hash without cutting a character.
pub open spec fn hash_cut_ok(s: Seq<char>) -> bool {
    byte_len(s) > 16 ==> cut_ok(s, 8) && cut_ok(s, (byte_len(s) - 8) as nat)
}

/// Formats a hash for display.
pub fn fmt_hash(s: &str, expand: bool) -> (r: String)
    requires
        !expand ==> hash_cut_ok(s@),
    ensures
        r@ == hash_display(s@, expand),
{
    let len = str_byte_len(s);
    if expand || len <= 16 {
        s.to_owned()
    } else {
        let mut r = str_prefix(s, 8).to_owned();
        r.append("...");
        r.append(str_suffix(s, len - 8));
        r
    }
}

// ---------------------------------------------------------------------------
// Hexadecimal
// ---------------------------------------------------------------------------

/// The lowercase hexadecimal digit for `d` (`d < 16`).
pub open spec fn hex_char(d: nat) -> char {
    if d < 10 {
        (d + 48) as char
    } else {
        (d + 87) as char
    }
}

/// The last `k` hexadecimal digits of `n`, zero-padded, most significant first.
pub open spec fn hex_digits(n: nat, k: nat) -> Seq<char>
    decreases k,
{
    if k == 0 {
        seq![]
    } else {
        hex_digits(n / 16, (k - 1) as nat).push(hex_char(n % 16))
    }
}

fn hex_digit(d: u32) -> (c: char)
    requires
        d < 16,
    ensures
        c == hex_char(d as nat),
{
    match d {
        0 => '0',
        1 => '1',
        2 => '2',
        3 => '3',
        4 => '4',
        5 => '5',
        6 => '6',
        7 => '7',
        8 => '8',
        9 => '9',
        10 => 'a',
        11 => 'b',
        12 => 'c',
        13 => 'd',
        14 => 'e',
        _ => 'f',
    }
}

/// `format!("{:0k$x}", n)` for `k` digits at least as many as `n` needs.
pub fn hex_padded(n: u32, k: u32) -> (s: String)
    ensures
        s@ == hex_digits(n as nat, k as nat),
    decreases k,
{
    if k == 0 {
        String::new()
    } else {
        let mut s = hex_padded(n / 16, k - 1);
        string_push(&mut s, hex_digit(n % 16));
        s
    }
}

} // verus!
