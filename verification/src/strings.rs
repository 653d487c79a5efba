//! Verified helpers over strings viewed as character sequences: equality,
//! prefix and substring search, decimal parsing, and the small formatting
//! routines the discovery stage needs to synthesize names and paths.

use core::cmp::Ordering;
use vstd::prelude::*;
use vstd::string::StrSliceExecFns;

verus! {

/// Relies on String::push: appends exactly the given character.
#[verifier::external_body]
pub fn push_char(s: &mut String, c: char)
    ensures
        final(s)@ == old(s)@.push(c),
{
    s.push(c);
}

/// Appends every character of `t` to `s`.
pub fn push_str(s: &mut String, t: &str)
    ensures
        final(s)@ == old(s)@ + t@,
{
    let n = t.unicode_len();
    let mut i: usize = 0;
    while i < n
        invariant
            n == t@.len(),
            i <= n,
            s@ == old(s)@ + t@.subrange(0, i as int),
        decreases n - i,
    {
        let c = t.get_char(i);
        push_char(s, c);
        proof {
            assert(old(s)@ + t@.subrange(0, i + 1 as int) =~= (old(s)@ + t@.subrange(
                0,
                i as int,
            )).push(t@[i as int]));
        }
        i = i + 1;
    }
    proof {
        assert(old(s)@ + t@.subrange(0, n as int) =~= old(s)@ + t@);
    }
}

/// Whether two strings hold the same characters.
pub fn str_eq(a: &str, b: &str) -> (r: bool)
    ensures
        r == (a@ == b@),
{
    let alen = a.unicode_len();
    let blen = b.unicode_len();
    if alen != blen {
        return false;
    }
    let mut i: usize = 0;
    while i < alen
        invariant
            alen == a@.len(),
            blen == b@.len(),
            alen == blen,
            i <= alen,
            forall|j: int| 0 <= j < i ==> a@[j] == b@[j],
        decreases alen - i,
    {
        if a.get_char(i) != b.get_char(i) {
            return false;
        }
        i = i + 1;
    }
    proof {
        assert(a@ =~= b@);
    }
    true
}

/// Whether the character `c` occurs in `s`.
pub open spec fn seq_contains_char(s: Seq<char>, c: char) -> bool {
    exists|i: int| 0 <= i < s.len() && s[i] == c
}

pub fn str_contains_char(s: &str, c: char) -> (r: bool)
    ensures
        r == seq_contains_char(s@, c),
{
    let n = s.unicode_len();
    let mut i: usize = 0;
    while i < n
        invariant
            n == s@.len(),
            i <= n,
            forall|j: int| 0 <= j < i ==> s@[j] != c,
        decreases n - i,
    {
        if s.get_char(i) == c {
            return true;
        }
        i = i + 1;
    }
    false
}

/// Whether `p` is a prefix of `s`.
pub open spec fn seq_is_prefix(p: Seq<char>, s: Seq<char>) -> bool {
    p.len() <= s.len() && forall|i: int| 0 <= i < p.len() ==> s[i] == p[i]
}

pub fn str_starts_with(s: &str, p: &str) -> (r: bool)
    ensures
        r == seq_is_prefix(p@, s@),
{
    let plen = p.unicode_len();
    let slen = s.unicode_len();
    if plen > slen {
        return false;
    }
    let mut i: usize = 0;
    while i < plen
        invariant
            plen == p@.len(),
            slen == s@.len(),
            plen <= slen,
            i <= plen,
            forall|j: int| 0 <= j < i ==> s@[j] == p@[j],
        decreases plen - i,
    {
        if s.get_char(i) != p.get_char(i) {
            return false;
        }
        i = i + 1;
    }
    true
}

/// Whether the needle `n` occurs in `h` starting at position `at`.
pub open spec fn seq_matches_at(h: Seq<char>, n: Seq<char>, at: int) -> bool {
    &&& 0 <= at
    &&& at + n.len() <= h.len()
    &&& forall|j: int| 0 <= j < n.len() ==> h[at + j] == n[j]
}

/// Whether the needle `n` occurs somewhere in `h`.
pub open spec fn seq_contains(h: Seq<char>, n: Seq<char>) -> bool {
    exists|i: int| seq_matches_at(h, n, i)
}

/// Position of the first occurrence of `n` in `h` at or after `from`.
pub open spec fn spec_find_from(h: Seq<char>, n: Seq<char>, from: nat) -> Option<int>
    decreases h.len() - from,
{
    if from + n.len() > h.len() {
        None
    } else if seq_matches_at(h, n, from as int) {
        Some(from as int)
    } else {
        spec_find_from(h, n, from + 1)
    }
}

/// What `spec_find_from` returns is the first match, and `None` means there
/// is none.
pub proof fn lemma_find_from_correct(h: Seq<char>, n: Seq<char>, from: nat)
    ensures
        match spec_find_from(h, n, from) {
            Some(i) => from <= i && seq_matches_at(h, n, i) && forall|j: int|
                from <= j < i ==> !seq_matches_at(h, n, j),
            None => forall|j: int| from <= j ==> !seq_matches_at(h, n, j),
        },
    decreases h.len() - from,
{
    if from + n.len() > h.len() {
        assert forall|j: int| from <= j implies !seq_matches_at(h, n, j) by {
            assert(j + n.len() > h.len());
        }
    } else if seq_matches_at(h, n, from as int) {
    } else {
        lemma_find_from_correct(h, n, from + 1);
    }
}

/// Checks whether `n` occurs in `h` starting at `at`.
pub fn str_matches_at(h: &str, n: &str, at: usize) -> (r: bool)
    ensures
        r == seq_matches_at(h@, n@, at as int),
{
    let hlen = h.unicode_len();
    let nlen = n.unicode_len();
    if at > hlen || nlen > hlen - at {
        return false;
    }
    let mut j: usize = 0;
    while j < nlen
        invariant
            hlen == h@.len(),
            nlen == n@.len(),
            at + nlen <= hlen,
            j <= nlen,
            forall|k: int| 0 <= k < j ==> h@[at + k] == n@[k],
        decreases nlen - j,
    {
        if h.get_char(at + j) != n.get_char(j) {
            return false;
        }
        j = j + 1;
    }
    true
}

/// Position of the first occurrence of `n` in `h`, if any.
pub fn str_find(h: &str, n: &str) -> (r: Option<usize>)
    ensures
        match r {
            Some(i) => spec_find_from(h@, n@, 0) == Some(i as int),
            None => spec_find_from(h@, n@, 0) is None,
        },
{
    let hlen = h.unicode_len();
    let nlen = n.unicode_len();
    if nlen > hlen {
        return None;
    }
    let mut i: usize = 0;
    while i <= hlen - nlen
        invariant
            hlen == h@.len(),
            nlen == n@.len(),
            nlen <= hlen,
            i <= hlen - nlen + 1,
            spec_find_from(h@, n@, 0) == spec_find_from(h@, n@, i as nat),
        decreases hlen - nlen + 1 - i,
    {
        if str_matches_at(h, n, i) {
            return Some(i);
        }
        i = i + 1;
    }
    None
}

/// Checks whether `n` occurs somewhere in `h`.
pub fn str_contains(h: &str, n: &str) -> (r: bool)
    ensures
        r == seq_contains(h@, n@),
{
    proof {
        lemma_find_from_correct(h@, n@, 0);
    }
    match str_find(h, n) {
        Some(_) => true,
        None => {
            proof {
                assert forall|i: int| !seq_matches_at(h@, n@, i) by {
                    if 0 <= i {
                        assert(!seq_matches_at(h@, n@, i));
                    }
                }
            }
            false
        },
    }
}

/// Position of the first occurrence of the character `c` in `s` at or after
/// `from`.
pub open spec fn spec_find_char_from(s: Seq<char>, c: char, from: nat) -> Option<int>
    decreases s.len() - from,
{
    if from >= s.len() {
        None
    } else if s[from as int] == c {
        Some(from as int)
    } else {
        spec_find_char_from(s, c, from + 1)
    }
}
/// What `spec_find_char_from` returns is the first occurrence, and `None`
/// means there is none.
pub proof fn lemma_find_char_from_correct(s: Seq<char>, c: char, from: nat)
    ensures
        match spec_find_char_from(s, c, from) {
            Some(i) => from <= i < s.len() && s[i] == c && forall|j: int|
                from <= j < i ==> s[j] != c,
            None => forall|j: int| from <= j < s.len() ==> s[j] != c,
        },
    decreases s.len() - from,
{
    if from >= s.len() {
    } else if s[from as int] == c {
    } else {
        lemma_find_char_from_correct(s, c, from + 1);
    }
}

/// Position of the first occurrence of the character `c` in `s` at or after
/// position `from`.
pub fn str_find_char_from(s: &str, c: char, from: usize) -> (r: Option<usize>)
    ensures
        match r {
            Some(i) => spec_find_char_from(s@, c, from as nat) == Some(i as int),
            None => spec_find_char_from(s@, c, from as nat) is None,
        },
{
    let n = s.unicode_len();
    if from >= n {
        return None;
    }
    let mut i: usize = from;
    while i < n
        invariant
            n == s@.len(),
            from <= i <= n,
            spec_find_char_from(s@, c, from as nat) == spec_find_char_from(s@, c, i as nat),
        decreases n - i,
    {
        if s.get_char(i) == c {
            return Some(i);
        }
        i = i + 1;
    }
    None
}

/// Whether `c` is one of the ten decimal digits.
pub open spec fn is_dec_digit(c: char) -> bool {
    '0' <= c && c <= '9'
}

pub open spec fn all_dec_digits(s: Seq<char>) -> bool {
    forall|i: int| 0 <= i < s.len() ==> is_dec_digit(#[trigger] s[i])
}

/// Numeric value of a digit character.
pub open spec fn dec_digit_val(c: char) -> int {
    c as int - '0' as int
}

/// Value of a digit string read in base ten.
pub open spec fn dec_digits_val(s: Seq<char>) -> int
    decreases s.len(),
{
    if s.len() == 0 {
        0
    } else {
        dec_digits_val(s.drop_last()) * 10 + dec_digit_val(s.last())
    }
}

pub proof fn lemma_dec_digits_val_nonneg(s: Seq<char>)
    requires
        all_dec_digits(s),
    ensures
        dec_digits_val(s) >= 0,
    decreases s.len(),
{
    if s.len() > 0 {
        assert(all_dec_digits(s.drop_last()));
        lemma_dec_digits_val_nonneg(s.drop_last());
    }
}

/// Reading more digits never shrinks the value.
pub proof fn lemma_dec_digits_val_prefix(s: Seq<char>, k: int)
    requires
        all_dec_digits(s),
        0 <= k <= s.len(),
    ensures
        dec_digits_val(s.subrange(0, k)) <= dec_digits_val(s),
    decreases s.len() - k,
{
    if k == s.len() {
        assert(s.subrange(0, k) =~= s);
    } else {
        let t = s.subrange(0, k + 1);
        assert(all_dec_digits(t));
        assert(t.drop_last() =~= s.subrange(0, k));
        lemma_dec_digits_val_nonneg(s.subrange(0, k));
        assert(dec_digits_val(t) == dec_digits_val(s.subrange(0, k)) * 10 + dec_digit_val(t.last()));
        assert(dec_digits_val(s.subrange(0, k)) * 10 >= dec_digits_val(s.subrange(0, k)))
            by (nonlinear_arith)
            requires
                dec_digits_val(s.subrange(0, k)) >= 0,
        ;
        lemma_dec_digits_val_prefix(s, k + 1);
    }
}

/// The digits of a decimal number: everything after an optional leading
/// plus sign.
pub open spec fn parse_u32_body(s: Seq<char>) -> Seq<char> {
    if s.len() > 0 && s[0] == '+' {
        s.skip(1)
    } else {
        s
    }
}

/// What parsing a string as an unsigned 32-bit decimal number yields: an
/// optional leading plus sign, then one or more digits whose value fits.
pub open spec fn spec_parse_u32(s: Seq<char>) -> Option<u32> {
    let body = parse_u32_body(s);
    if body.len() > 0 && all_dec_digits(body) && dec_digits_val(body) <= u32::MAX {
        Some(dec_digits_val(body) as u32)
    } else {
        None
    }
}

/// Parses a decimal number, with the same acceptance rule as the standard
/// string-to-u32 conversion.
pub fn parse_u32(s: &str) -> (r: Option<u32>)
    ensures
        r == spec_parse_u32(s@),
{
    let n = s.unicode_len();
    let start: usize = if n > 0 && s.get_char(0) == '+' {
        1
    } else {
        0
    };
    let ghost body = parse_u32_body(s@);
    proof {
        assert(body =~= s@.subrange(start as int, n as int));
    }
    if start >= n {
        return None;
    }
    let mut acc: u64 = 0;
    let mut i: usize = start;
    while i < n
        invariant
            n == s@.len(),
            start <= i <= n,
            body == parse_u32_body(s@),
            body == s@.subrange(start as int, n as int),
            all_dec_digits(body.subrange(0, i - start)),
            acc == dec_digits_val(body.subrange(0, i - start)),
            acc <= u32::MAX,
        decreases n - i,
    {
        let c = s.get_char(i);
        if c < '0' || c > '9' {
            proof {
                assert(body[i - start] == c);
                assert(!is_dec_digit(body[i - start]));
                assert(!all_dec_digits(body));
                assert(spec_parse_u32(s@) is None);
            }
            return None;
        }
        let d: u64 = (c as u32 - '0' as u32) as u64;
        let next: u64 = acc * 10 + d;
        proof {
            assert(body.subrange(0, i + 1 - start).drop_last() =~= body.subrange(0, i - start));
            assert(body.subrange(0, i + 1 - start).last() == c);
        }
        if next > 0xffff_ffff {
            proof {
                assert(all_dec_digits(body.subrange(0, i + 1 - start)));
                if all_dec_digits(body) {
                    lemma_dec_digits_val_prefix(body, i + 1 - start);
                    assert(dec_digits_val(body) > u32::MAX);
                }
                assert(spec_parse_u32(s@) is None);
            }
            return None;
        }
        acc = next;
        i = i + 1;
    }
    proof {
        assert(body.subrange(0, n - start) =~= body);
    }
    Some(acc as u32)
}

/// The character for one decimal or hexadecimal digit value.
pub open spec fn digit_char(d: int) -> char {
    if d == 0 { '0' }
    else if d == 1 { '1' }
    else if d == 2 { '2' }
    else if d == 3 { '3' }
    else if d == 4 { '4' }
    else if d == 5 { '5' }
    else if d == 6 { '6' }
    else if d == 7 { '7' }
    else if d == 8 { '8' }
    else if d == 9 { '9' }
    else if d == 10 { 'a' }
    else if d == 11 { 'b' }
    else if d == 12 { 'c' }
    else if d == 13 { 'd' }
    else if d == 14 { 'e' }
    else { 'f' }
}

fn digit_to_char(d: u32) -> (r: char)
    requires
        d < 16,
    ensures
        r == digit_char(d as int),
{
    if d == 0 { '0' }
    else if d == 1 { '1' }
    else if d == 2 { '2' }
    else if d == 3 { '3' }
    else if d == 4 { '4' }
    else if d == 5 { '5' }
    else if d == 6 { '6' }
    else if d == 7 { '7' }
    else if d == 8 { '8' }
    else if d == 9 { '9' }
    else if d == 10 { 'a' }
    else if d == 11 { 'b' }
    else if d == 12 { 'c' }
    else if d == 13 { 'd' }
    else if d == 14 { 'e' }
    else { 'f' }
}

/// The decimal numeral of `n`, without sign or padding.
pub open spec fn spec_u32_dec(n: nat) -> Seq<char>
    decreases n,
{
    if n < 10 {
        seq![digit_char(n as int)]
    } else {
        spec_u32_dec(n / 10).push(digit_char((n % 10) as int))
    }
}

/// Formats `n` in decimal.
pub fn u32_to_dec_str(n: u32) -> (r: String)
    ensures
        r@ == spec_u32_dec(n as nat),
    decreases n,
{
    if n < 10 {
        let mut s = String::new();
        push_char(&mut s, digit_to_char(n));
        proof {
            assert(Seq::<char>::empty().push(digit_char(n as int)) =~= seq![
                digit_char(n as int),
            ]);
        }
        s
    } else {
        let mut s = u32_to_dec_str(n / 10);
        push_char(&mut s, digit_to_char(n % 10));
        s
    }
}

/// The four-digit zero-padded lowercase hexadecimal numeral of `n`.
pub open spec fn spec_u32_hex4(n: nat) -> Seq<char> {
    seq![
        digit_char(((n / 4096) % 16) as int),
        digit_char(((n / 256) % 16) as int),
        digit_char(((n / 16) % 16) as int),
        digit_char((n % 16) as int),
    ]
}

/// Formats `n` as four zero-padded lowercase hexadecimal digits, as target
/// indices are spelled inside synthesized component names.
pub fn u32_to_hex4_str(n: u32) -> (r: String)
    requires
        n < 0x10000,
    ensures
        r@ == spec_u32_hex4(n as nat),
{
    let mut s = String::new();
    push_char(&mut s, digit_to_char((n / 4096) % 16));
    push_char(&mut s, digit_to_char((n / 256) % 16));
    push_char(&mut s, digit_to_char((n / 16) % 16));
    push_char(&mut s, digit_to_char(n % 16));
    proof {
        assert(s@ =~= spec_u32_hex4(n as nat));
    }
    s
}

/// A character with any ASCII upper-case letter turned lower-case; other
/// characters, including letters outside ASCII, are kept as they are.
pub open spec fn lower_char(c: char) -> char {
    if 'A' <= c && c <= 'Z' {
        ((c as int) + 32) as char
    } else {
        c
    }
}

/// The character-by-character ASCII lower-casing of a string.
pub open spec fn lower_seq(s: Seq<char>) -> Seq<char> {
    Seq::new(s.len(), |i: int| lower_char(s[i]))
}

fn char_to_ascii_lowercase(c: char) -> (r: char)
    ensures
        r == lower_char(c),
{
    if c >= 'A' && c <= 'Z' {
        let x: u32 = c as u32;
        proof {
            assert('A' as u32 <= x <= 'Z' as u32);
        }
        let y: u32 = x + 32;
        proof {
            assert(y == (c as int) + 32);
            assert(97 <= y <= 122);
        }
        char_from_ascii(y as u8)
    } else {
        c
    }
}

/// Relies on the char-from-u32 conversion of core: an ASCII code is its own
/// scalar value.
#[verifier::external_body]
fn char_from_ascii(b: u8) -> (r: char)
    requires
        b < 128,
    ensures
        r == (b as char),
{
    char::from(b)
}

/// Lower-cases the ASCII letters of a string.
pub fn str_to_ascii_lowercase(s: &str) -> (r: String)
    ensures
        r@ == lower_seq(s@),
{
    let n = s.unicode_len();
    let mut out = String::new();
    let mut i: usize = 0;
    while i < n
        invariant
            n == s@.len(),
            i <= n,
            out@ == lower_seq(s@).subrange(0, i as int),
        decreases n - i,
    {
        let c = s.get_char(i);
        push_char(&mut out, char_to_ascii_lowercase(c));
        proof {
            assert(lower_seq(s@).subrange(0, i + 1 as int) =~= lower_seq(s@).subrange(
                0,
                i as int,
            ).push(lower_char(s@[i as int])));
        }
        i = i + 1;
    }
    proof {
        assert(lower_seq(s@).subrange(0, n as int) =~= lower_seq(s@));
    }
    out
}

/// Lexicographic comparison of two character sequences, character by
/// character by scalar value, shorter prefix first.
pub open spec fn spec_lex_cmp(a: Seq<char>, b: Seq<char>) -> Ordering
    decreases a.len(),
{
    if a.len() == 0 && b.len() == 0 {
        Ordering::Equal
    } else if a.len() == 0 {
        Ordering::Less
    } else if b.len() == 0 {
        Ordering::Greater
    } else if (a[0] as int) < (b[0] as int) {
        Ordering::Less
    } else if (a[0] as int) > (b[0] as int) {
        Ordering::Greater
    } else {
        spec_lex_cmp(a.skip(1), b.skip(1))
    }
}

/// Lexicographic order compares equal exactly on equal sequences.
pub proof fn lemma_lex_cmp_eq(a: Seq<char>, b: Seq<char>)
    ensures
        (spec_lex_cmp(a, b) == Ordering::Equal) == (a == b),
    decreases a.len(),
{
    if a.len() == 0 && b.len() == 0 {
        assert(a =~= b);
    } else if a.len() == 0 || b.len() == 0 {
        assert(a.len() != b.len());
    } else if (a[0] as int) < (b[0] as int) || (a[0] as int) > (b[0] as int) {
        assert(a != b);
    } else {
        lemma_lex_cmp_eq(a.skip(1), b.skip(1));
        if spec_lex_cmp(a, b) == Ordering::Equal {
            assert(a.skip(1) == b.skip(1));
            assert(a.len() == b.len());
            assert forall|i: int| 0 <= i < a.len() implies a[i] == b[i] by {
                if i > 0 {
                    assert(a.skip(1)[i - 1] == b.skip(1)[i - 1]);
                }
            }
            assert(a =~= b);
        } else {
            if a == b {
                assert(a.skip(1) =~= b.skip(1));
            }
        }
    }
}

/// Swapping the operands of the lexicographic order mirrors the answer.
pub proof fn lemma_lex_cmp_flip(a: Seq<char>, b: Seq<char>)
    ensures
        spec_lex_cmp(a, b) == Ordering::Less <==> spec_lex_cmp(b, a) == Ordering::Greater,
        spec_lex_cmp(a, b) == Ordering::Equal <==> spec_lex_cmp(b, a) == Ordering::Equal,
    decreases a.len(),
{
    if a.len() == 0 && b.len() == 0 {
    } else if a.len() == 0 || b.len() == 0 {
    } else if (a[0] as int) != (b[0] as int) {
    } else {
        lemma_lex_cmp_flip(a.skip(1), b.skip(1));
    }
}

/// The lexicographic order chains: something at most a middle value is below
/// anything the middle value is below.
pub proof fn lemma_lex_cmp_trans(a: Seq<char>, b: Seq<char>, c: Seq<char>)
    requires
        spec_lex_cmp(a, b) != Ordering::Greater,
        spec_lex_cmp(b, c) != Ordering::Greater,
    ensures
        spec_lex_cmp(a, c) != Ordering::Greater,
        spec_lex_cmp(a, b) == Ordering::Less || spec_lex_cmp(b, c) == Ordering::Less
            ==> spec_lex_cmp(a, c) == Ordering::Less,
    decreases a.len() + b.len() + c.len(),
{
    if a.len() == 0 {
        if c.len() == 0 {
            assert(b.len() == 0);
        }
    } else {
        assert(b.len() > 0);
        assert(c.len() > 0);
        if (a[0] as int) == (b[0] as int) && (b[0] as int) == (c[0] as int) {
            lemma_lex_cmp_trans(a.skip(1), b.skip(1), c.skip(1));
        }
    }
}

/// Compares two strings lexicographically.
pub fn str_lex_cmp(a: &str, b: &str) -> (r: Ordering)
    ensures
        r == spec_lex_cmp(a@, b@),
{
    let alen = a.unicode_len();
    let blen = b.unicode_len();
    proof {
        assert(a@.skip(0) =~= a@);
        assert(b@.skip(0) =~= b@);
    }
    let mut i: usize = 0;
    while i < alen && i < blen
        invariant
            alen == a@.len(),
            blen == b@.len(),
            i <= alen,
            i <= blen,
            spec_lex_cmp(a@, b@) == spec_lex_cmp(a@.skip(i as int), b@.skip(i as int)),
        decreases alen - i,
    {
        let ca = a.get_char(i);
        let cb = b.get_char(i);
        proof {
            assert(a@.skip(i as int)[0] == a@[i as int]);
            assert(b@.skip(i as int)[0] == b@[i as int]);
            assert(a@.skip(i as int).skip(1) =~= a@.skip(i + 1 as int));
            assert(b@.skip(i as int).skip(1) =~= b@.skip(i + 1 as int));
        }
        if (ca as u32) < (cb as u32) {
            return Ordering::Less;
        }
        if (ca as u32) > (cb as u32) {
            return Ordering::Greater;
        }
        i = i + 1;
    }
    proof {
        assert(a@.skip(i as int).len() == alen - i);
        assert(b@.skip(i as int).len() == blen - i);
    }
    if alen == blen {
        Ordering::Equal
    } else if alen < blen {
        Ordering::Less
    } else {
        Ordering::Greater
    }
}

} // verus!
