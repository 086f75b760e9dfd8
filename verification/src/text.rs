//! Character-level string utilities.
//!
//! Executable helpers over `&str` / `String`, each specified against the
//! character sequence view, plus the spec functions they are proved against.

use vstd::prelude::*;
use vstd::string::*;

verus! {

/// The character for one decimal digit.
pub open spec fn dec_digit(d: int) -> char {
    if d == 0 {
        '0'
    } else if d == 1 {
        '1'
    } else if d == 2 {
        '2'
    } else if d == 3 {
        '3'
    } else if d == 4 {
        '4'
    } else if d == 5 {
        '5'
    } else if d == 6 {
        '6'
    } else if d == 7 {
        '7'
    } else if d == 8 {
        '8'
    } else {
        '9'
    }
}

/// The decimal representation of a non-negative integer, most
/// significant digit first and without leading zeroes.
pub open spec fn dec_str(n: int) -> Seq<char>
    decreases n,
{
    if n < 10 {
        seq![dec_digit(n)]
    } else {
        dec_str(n / 10).push(dec_digit(n % 10))
    }
}

/// The character for one hexadecimal digit.
pub open spec fn hex_digit(d: int) -> char {
    if d < 10 {
        dec_digit(d)
    } else if d == 10 {
        'a'
    } else if d == 11 {
        'b'
    } else if d == 12 {
        'c'
    } else if d == 13 {
        'd'
    } else if d == 14 {
        'e'
    } else {
        'f'
    }
}

/// The lower-case hexadecimal representation of a non-negative integer,
/// zero-padded on the left to exactly `width` digits.
pub open spec fn hex_pad(n: int, width: nat) -> Seq<char>
    decreases width,
{
    if width == 0 {
        Seq::empty()
    } else {
        hex_pad(n / 16, (width - 1) as nat).push(hex_digit(n % 16))
    }
}

/// Whether a character is a lower-case hexadecimal digit.
pub open spec fn is_hex_char(c: char) -> bool {
    c == '0' || c == '1' || c == '2' || c == '3' || c == '4' || c == '5' || c == '6' || c == '7'
        || c == '8' || c == '9' || c == 'a' || c == 'b' || c == 'c' || c == 'd' || c == 'e' || c
        == 'f'
}

/// Every character of a padded hexadecimal representation is a
/// hexadecimal digit, and the representation has exactly `width` of them.
pub proof fn lemma_hex_pad_chars(n: int, width: nat)
    ensures
        hex_pad(n, width).len() == width,
        forall|i: int| 0 <= i < width ==> is_hex_char(#[trigger] hex_pad(n, width)[i]),
    decreases width,
{
    if width > 0 {
        lemma_hex_pad_chars(n / 16, (width - 1) as nat);
    }
}

/// Compares two string slices character by character.
pub fn str_eq_str(a: &str, b: &str) -> (r: bool)
    ensures
        r == (a@ == b@),
{
    let alen = a.unicode_len();
    let blen = b.unicode_len();
    if alen != blen {
        return false;
    }
    let mut i: usize = 0;
    while i < alen
        invariant
            i <= alen,
            alen == a@.len(),
            alen == b@.len(),
            forall|j: int| 0 <= j < i ==> a@[j] == b@[j],
        decreases alen - i,
    {
        if a.get_char(i) != b.get_char(i) {
            return false;
        }
        i = i + 1;
    }
    proof {
        assert(a@ =~= b@);
    }
    true
}

/// Whether `suffix` ends `s`, as a check over characters.
pub fn str_ends_with(s: &str, suffix: &str) -> (r: bool)
    ensures
        r == suffix@.is_suffix_of(s@),
{
    let slen = s.unicode_len();
    let plen = suffix.unicode_len();
    if plen > slen {
        return false;
    }
    let base = slen - plen;
    let mut i: usize = 0;
    while i < plen
        invariant
            i <= plen,
            plen <= slen,
            base == slen - plen,
            slen == s@.len(),
            plen == suffix@.len(),
            forall|j: int| 0 <= j < i ==> s@[base + j] == suffix@[j],
        decreases plen - i,
    {
        if s.get_char(base + i) != suffix.get_char(i) {
            proof {
                assert(s@.subrange(base as int, slen as int)[i as int] == s@[base + i]);
            }
            return false;
        }
        i = i + 1;
    }
    proof {
        assert(suffix@ =~= s@.subrange(base as int, slen as int));
    }
    true
}

/// Whether `prefix` begins `s`, as a check over characters.
pub fn str_starts_with(s: &str, prefix: &str) -> (r: bool)
    ensures
        r == prefix@.is_prefix_of(s@),
{
    let slen = s.unicode_len();
    let plen = prefix.unicode_len();
    if plen > slen {
        return false;
    }
    let mut i: usize = 0;
    while i < plen
        invariant
            i <= plen,
            plen <= slen,
            slen == s@.len(),
            plen == prefix@.len(),
            forall|j: int| 0 <= j < i ==> s@[j] == prefix@[j],
        decreases plen - i,
    {
        if s.get_char(i) != prefix.get_char(i) {
            proof {
                assert(s@.subrange(0, plen as int)[i as int] == s@[i as int]);
            }
            return false;
        }
        i = i + 1;
    }
    proof {
        assert(prefix@ =~= s@.subrange(0, plen as int));
    }
    true
}

/// Removes `suffix` from the end of `s`, when it is there.
pub fn strip_suffix_str(s: &str, suffix: &str) -> (r: Option<String>)
    ensures
        match r {
            Some(t) => suffix@.is_suffix_of(s@) && t@ == s@.take(s@.len() - suffix@.len()),
            None => !suffix@.is_suffix_of(s@),
        },
{
    if str_ends_with(s, suffix) {
        let slen = s.unicode_len();
        let plen = suffix.unicode_len();
        let head = s.substring_char(0, slen - plen);
        Some(head.to_owned())
    } else {
        None
    }
}

/// Finds the first occurrence of `c` in `s` at or after `from`.
pub fn find_char(s: &str, c: char, from: usize) -> (r: usize)
    ensures
        r as int == spec_find(s@, c, from as int),
{
    let slen = s.unicode_len();
    if from >= slen {
        return slen;
    }
    let mut i: usize = from;
    while i < slen
        invariant
            from <= i <= slen,
            slen == s@.len(),
            spec_find(s@, c, from as int) == spec_find(s@, c, i as int),
        decreases slen - i,
    {
        if s.get_char(i) == c {
            return i;
        }
        i = i + 1;
    }
    slen
}

fn is_ws(c: char) -> (r: bool)
    ensures
        r == is_ws_char(c),
{
    c == ' ' || c == '\t' || c == '\n' || c == '\r'
}

/// Removes leading and trailing whitespace.
pub fn trim_str(s: &str) -> (r: String)
    ensures
        r@ == spec_trim(s@),
{
    let slen = s.unicode_len();
    let mut from: usize = 0;
    proof {
        assert(s@.skip(0) =~= s@);
    }
    while from < slen && is_ws(s.get_char(from))
        invariant
            from <= slen,
            slen == s@.len(),
            spec_trim_start(s@) == spec_trim_start(s@.skip(from as int)),
        decreases slen - from,
    {
        proof {
            assert(s@.skip(from as int).drop_first() =~= s@.skip(from as int + 1));
        }
        from = from + 1;
    }
    proof {
        if from < slen {
            assert(spec_trim_start(s@.skip(from as int)) == s@.skip(from as int));
        } else {
            assert(s@.skip(from as int) =~= Seq::<char>::empty());
        }
    }
    let mut to: usize = slen;
    while to > from && is_ws(s.get_char(to - 1))
        invariant
            from <= to <= slen,
            slen == s@.len(),
            spec_trim_end(s@.skip(from as int)) == spec_trim_end(
                s@.subrange(from as int, to as int),
            ),
        decreases to,
    {
        proof {
            assert(s@.subrange(from as int, to as int).last() == s@[to - 1]);
            assert(s@.subrange(from as int, to as int).drop_last() =~= s@.subrange(
                from as int,
                to as int - 1,
            ));
        }
        to = to - 1;
    }
    proof {
        assert(s@.skip(from as int) =~= s@.subrange(from as int, slen as int));
        if to > from {
            assert(s@.subrange(from as int, to as int).last() == s@[to - 1]);
            assert(spec_trim_end(s@.subrange(from as int, to as int)) == s@.subrange(
                from as int,
                to as int,
            ));
        } else {
            assert(s@.subrange(from as int, to as int) =~= Seq::<char>::empty());
        }
    }
    let body = s.substring_char(from, to);
    body.to_owned()
}

/// Replaces every underscore with a space.
pub fn underscores_to_spaces(s: &str) -> (r: String)
    ensures
        r@ == spec_underscore_to_space(s@),
{
    let slen = s.unicode_len();
    let mut r = String::new();
    let mut i: usize = 0;
    while i < slen
        invariant
            i <= slen,
            slen == s@.len(),
            r@ =~= s@.take(i as int).map_values(|c: char| if c == '_' { ' ' } else { c }),
        decreases slen - i,
    {
        let c = s.get_char(i);
        let mapped = if c == '_' {
            ' '
        } else {
            c
        };
        r.push(mapped);
        i = i + 1;
        proof {
            assert(r@ =~= s@.take(i as int).map_values(
                |c: char| if c == '_' {
                    ' '
                } else {
                    c
                },
            ));
        }
    }
    proof {
        assert(s@.take(slen as int) =~= s@);
    }
    r
}

/// The third `/`-separated segment, or all of `s` with fewer than two slashes.
pub fn third_slash_segment(s: &str) -> (r: String)
    ensures
        r@ == spec_third_seg(s@),
{
    let slen = s.unicode_len();
    let i1 = find_char(s, '/', 0);
    proof {
        lemma_find_range(s@, '/', 0);
    }
    if i1 == slen {
        return s.to_owned();
    }
    let i2 = find_char(s, '/', i1 + 1);
    proof {
        lemma_find_range(s@, '/', i1 as int + 1);
    }
    if i2 == slen {
        return s.to_owned();
    }
    let i3 = find_char(s, '/', i2 + 1);
    proof {
        lemma_find_range(s@, '/', i2 as int + 1);
    }
    let seg = s.substring_char(i2 + 1, i3);
    seg.to_owned()
}

/// Everything before the first colon.
pub fn before_colon(s: &str) -> (r: String)
    ensures
        r@ == spec_before_colon(s@),
{
    let i = find_char(s, ':', 0);
    proof {
        lemma_find_range(s@, ':', 0);
    }
    let head = s.substring_char(0, i);
    head.to_owned()
}

/// Joins two string slices.
pub fn concat2(a: &str, b: &str) -> (r: String)
    ensures
        r@ == a@ + b@,
{
    let mut s = a.to_owned();
    s.append(b);
    s
}

/// The position of the first occurrence of `c` in `s` at or after `from`,
/// or the length of `s` when there is none.
pub open spec fn spec_find(s: Seq<char>, c: char, from: int) -> int
    decreases s.len() - from,
{
    if from < 0 || from >= s.len() {
        s.len() as int
    } else if s[from] == c {
        from
    } else {
        spec_find(s, c, from + 1)
    }
}

pub proof fn lemma_find_range(s: Seq<char>, c: char, from: int)
    requires
        0 <= from <= s.len(),
    ensures
        from <= spec_find(s, c, from) <= s.len(),
        spec_find(s, c, from) < s.len() ==> s[spec_find(s, c, from)] == c,
        forall|j: int| from <= j < spec_find(s, c, from) ==> s[j] != c,
    decreases s.len() - from,
{
    if from < s.len() && s[from] != c {
        lemma_find_range(s, c, from + 1);
    }
}

/// Whether a character counts as surrounding whitespace for trimming.
pub open spec fn is_ws_char(c: char) -> bool {
    c == ' ' || c == '\t' || c == '\n' || c == '\r'
}

pub open spec fn spec_trim_start(s: Seq<char>) -> Seq<char>
    decreases s.len(),
{
    if s.len() > 0 && is_ws_char(s[0]) {
        spec_trim_start(s.drop_first())
    } else {
        s
    }
}

pub open spec fn spec_trim_end(s: Seq<char>) -> Seq<char>
    decreases s.len(),
{
    if s.len() > 0 && is_ws_char(s.last()) {
        spec_trim_end(s.drop_last())
    } else {
        s
    }
}

/// `s` without leading and trailing whitespace.
pub open spec fn spec_trim(s: Seq<char>) -> Seq<char> {
    spec_trim_end(spec_trim_start(s))
}

/// `s` with every underscore replaced by a space.
pub open spec fn spec_underscore_to_space(s: Seq<char>) -> Seq<char> {
    s.map_values(|c: char| if c == '_' { ' ' } else { c })
}

/// The third `/`-separated segment of `s`, or all of `s` when it has
/// fewer than two slashes; for a URL this is the authority part.
pub open spec fn spec_third_seg(p: Seq<char>) -> Seq<char> {
    let i1 = spec_find(p, '/', 0);
    let i2 = spec_find(p, '/', i1 + 1);
    if i1 == p.len() || i2 == p.len() {
        p
    } else {
        p.subrange(i2 + 1, spec_find(p, '/', i2 + 1))
    }
}

/// `s` up to but not including its first colon.
pub open spec fn spec_before_colon(s: Seq<char>) -> Seq<char> {
    s.take(spec_find(s, ':', 0))
}

fn dec_digit_char(d: u64) -> (c: char)
    requires
        d < 10,
    ensures
        c == dec_digit(d as int),
{
    if d == 0 {
        '0'
    } else if d == 1 {
        '1'
    } else if d == 2 {
        '2'
    } else if d == 3 {
        '3'
    } else if d == 4 {
        '4'
    } else if d == 5 {
        '5'
    } else if d == 6 {
        '6'
    } else if d == 7 {
        '7'
    } else if d == 8 {
        '8'
    } else {
        '9'
    }
}

fn hex_digit_char(d: u128) -> (c: char)
    requires
        d < 16,
    ensures
        c == hex_digit(d as int),
{
    if d < 10 {
        dec_digit_char(d as u64)
    } else if d == 10 {
        'a'
    } else if d == 11 {
        'b'
    } else if d == 12 {
        'c'
    } else if d == 13 {
        'd'
    } else if d == 14 {
        'e'
    } else {
        'f'
    }
}

/// Builds a string from a sequence of characters held in reverse order.
fn string_from_reversed(digits: &Vec<char>) -> (r: String)
    ensures
        r@ == digits@.reverse(),
{
    let k = digits.len();
    let mut r = String::new();
    let mut i: usize = 0;
    while i < k
        invariant
            i <= k,
            k == digits@.len(),
            r@.len() == i,
            forall|j: int| 0 <= j < i ==> r@[j] == digits@[k - 1 - j],
        decreases k - i,
    {
        r.push(digits[k - 1 - i]);
        i = i + 1;
    }
    proof {
        assert(r@ =~= digits@.reverse());
    }
    r
}

/// Formats a number in decimal.
pub fn u64_to_string(n: u64) -> (r: String)
    ensures
        r@ == dec_str(n as int),
{
    let mut digits: Vec<char> = Vec::new();
    let mut m: u64 = n;
    loop
        invariant
            digits@.len() == 0 ==> m == n,
            m > 0 ==> dec_str(n as int) =~= dec_str(m as int) + digits@.reverse(),
            m == 0 && digits@.len() > 0 ==> dec_str(n as int) =~= digits@.reverse(),
        ensures
            m == 0 && digits@.len() > 0,
        decreases m, (if digits@.len() == 0 { 1int } else { 0int }),
    {
        if m == 0 && digits.len() > 0 {
            break;
        }
        let d = m % 10;
        let ghost old_m = m;
        let ghost old_digits = digits@;
        digits.push(dec_digit_char(d));
        m = m / 10;
        proof {
            assert(digits@.reverse() =~= seq![dec_digit(d as int)] + old_digits.reverse());
            if old_m < 10 {
                assert(dec_str(old_m as int) == seq![dec_digit(old_m as int)]);
                if old_m == 0 {
                    assert(n == 0);
                    assert(dec_str(n as int) =~= digits@.reverse());
                } else {
                    assert(dec_str(n as int) =~= digits@.reverse());
                }
            } else {
                assert(dec_str(old_m as int) == dec_str(old_m as int / 10).push(
                    dec_digit(old_m as int % 10),
                ));
                assert(dec_str(old_m as int) =~= dec_str(m as int) + seq![dec_digit(d as int)]);
                assert(dec_str(n as int) =~= dec_str(m as int) + digits@.reverse());
            }
        }
    }
    string_from_reversed(&digits)
}

/// Formats a number in decimal.
pub fn usize_to_string(n: usize) -> (r: String)
    ensures
        r@ == dec_str(n as int),
{
    u64_to_string(n as u64)
}

/// Formats a number in hexadecimal, zero-padded to `width` digits.
pub fn u128_to_hex(n: u128, width: usize) -> (r: String)
    ensures
        r@ == hex_pad(n as int, width as nat),
{
    let mut digits: Vec<char> = Vec::new();
    let mut m: u128 = n;
    let mut w: usize = width;
    while w > 0
        invariant
            w <= width,
            hex_pad(n as int, width as nat) == hex_pad(m as int, w as nat) + digits@.reverse(),
        decreases w,
    {
        let d = m % 16;
        let ghost old_m = m;
        let ghost old_digits = digits@;
        let ghost old_w = w;
        digits.push(hex_digit_char(d));
        m = m / 16;
        w = w - 1;
        proof {
            assert(digits@.reverse() =~= seq![hex_digit(d as int)] + old_digits.reverse());
            assert(hex_pad(old_m as int, old_w as nat) == hex_pad(m as int, w as nat).push(
                hex_digit(old_m as int % 16),
            ));
            assert(hex_pad(old_m as int, old_w as nat) =~= hex_pad(m as int, w as nat) + seq![
                hex_digit(d as int),
            ]);
            assert(hex_pad(n as int, width as nat) =~= hex_pad(m as int, w as nat)
                + digits@.reverse());
        }
    }
    proof {
        assert(hex_pad(n as int, width as nat) =~= digits@.reverse());
    }
    string_from_reversed(&digits)
}

} // verus!
