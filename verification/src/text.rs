//! Character-level text utilities: exact string comparison, decimal parsing
//! of the numeric option fields, and decimal formatting of wire parameters.

use vstd::prelude::*;

verus! {

/// Compares two string slices character by character.
pub fn str_eq(a: &str, b: &str) -> (r: bool)
    ensures
        r == (a@ == b@),
{
    let alen = a.unicode_len();
    let blen = b.unicode_len();
    if alen != blen {
        proof {
            assert(a@ == b@ ==> a@.len() == b@.len());
        }
        return false;
    }
    let mut i: usize = 0;
    while i < alen
        invariant
            alen == a@.len(),
            alen == b@.len(),
            i <= alen,
            forall|j: int| 0 <= j < i ==> a@[j] == b@[j],
        decreases alen - i,
    {
        if a.get_char(i) != b.get_char(i) {
            proof {
                assert(a@ == b@ ==> a@[i as int] == b@[i as int]);
            }
            return false;
        }
        i = i + 1;
    }
    proof {
        assert(a@ =~= b@);
    }
    true
}

/// The ASCII-lowercase counterpart of a character; anything but `A`..`Z` is
/// unchanged.
pub open spec fn spec_lower_char(c: char) -> char {
    if c == 'A' {
        'a'
    } else if c == 'B' {
        'b'
    } else if c == 'C' {
        'c'
    } else if c == 'D' {
        'd'
    } else if c == 'E' {
        'e'
    } else if c == 'F' {
        'f'
    } else if c == 'G' {
        'g'
    } else if c == 'H' {
        'h'
    } else if c == 'I' {
        'i'
    } else if c == 'J' {
        'j'
    } else if c == 'K' {
        'k'
    } else if c == 'L' {
        'l'
    } else if c == 'M' {
        'm'
    } else if c == 'N' {
        'n'
    } else if c == 'O' {
        'o'
    } else if c == 'P' {
        'p'
    } else if c == 'Q' {
        'q'
    } else if c == 'R' {
        'r'
    } else if c == 'S' {
        's'
    } else if c == 'T' {
        't'
    } else if c == 'U' {
        'u'
    } else if c == 'V' {
        'v'
    } else if c == 'W' {
        'w'
    } else if c == 'X' {
        'x'
    } else if c == 'Y' {
        'y'
    } else if c == 'Z' {
        'z'
    } else {
        c
    }
}

/// ASCII-lowercases every character of a string.
pub open spec fn ascii_lower(s: Seq<char>) -> Seq<char> {
    s.map_values(|c: char| spec_lower_char(c))
}

fn lower_char(c: char) -> (r: char)
    ensures
        r == spec_lower_char(c),
{
    match c {
        'A' => 'a',
        'B' => 'b',
        'C' => 'c',
        'D' => 'd',
        'E' => 'e',
        'F' => 'f',
        'G' => 'g',
        'H' => 'h',
        'I' => 'i',
        'J' => 'j',
        'K' => 'k',
        'L' => 'l',
        'M' => 'm',
        'N' => 'n',
        'O' => 'o',
        'P' => 'p',
        'Q' => 'q',
        'R' => 'r',
        'S' => 's',
        'T' => 't',
        'U' => 'u',
        'V' => 'v',
        'W' => 'w',
        'X' => 'x',
        'Y' => 'y',
        'Z' => 'z',
        _ => c,
    }
}

/// Compares a string, ASCII case-folded, against a lowercase reference.
pub fn str_eq_ignore_case(a: &str, b: &str) -> (r: bool)
    ensures
        r == (ascii_lower(a@) == b@),
{
    let alen = a.unicode_len();
    let blen = b.unicode_len();
    if alen != blen {
        proof {
            assert(ascii_lower(a@).len() == a@.len());
            assert(ascii_lower(a@) == b@ ==> ascii_lower(a@).len() == b@.len());
        }
        return false;
    }
    let mut i: usize = 0;
    while i < alen
        invariant
            alen == a@.len(),
            alen == b@.len(),
            i <= alen,
            forall|j: int| 0 <= j < i ==> ascii_lower(a@)[j] == b@[j],
        decreases alen - i,
    {
        if lower_char(a.get_char(i)) != b.get_char(i) {
            proof {
                assert(ascii_lower(a@)[i as int] == spec_lower_char(a@[i as int]));
                assert(ascii_lower(a@) == b@ ==> ascii_lower(a@)[i as int] == b@[i as int]);
            }
            return false;
        }
        proof {
            assert(ascii_lower(a@)[i as int] == spec_lower_char(a@[i as int]));
        }
        i = i + 1;
    }
    proof {
        assert(ascii_lower(a@) =~= b@);
    }
    true
}

pub open spec fn spec_is_digit(c: char) -> bool {
    '0' <= c && c <= '9'
}

pub open spec fn digit_val(c: char) -> int {
    c as int - '0' as int
}

pub open spec fn all_digits(s: Seq<char>) -> bool {
    forall|i: int| 0 <= i < s.len() ==> spec_is_digit(#[trigger] s[i])
}

/// The value of an unsigned decimal digit string.
pub open spec fn dec_value(s: Seq<char>) -> int
    decreases s.len(),
{
    if s.len() == 0 {
        0
    } else {
        dec_value(s.drop_last()) * 10 + digit_val(s.last())
    }
}

/// The digit portion of a decimal token: the token with one optional leading
/// `+` removed.
pub open spec fn token_digits(s: Seq<char>) -> Seq<char> {
    if s.len() > 0 && s[0] == '+' {
        s.drop_first()
    } else {
        s
    }
}

/// The meaning of a digits-only decimal string whose value fits 16 bits.
pub open spec fn parse_digits_spec(s: Seq<char>) -> Option<u16> {
    if s.len() > 0 && all_digits(s) && dec_value(s) <= u16::MAX {
        Some(dec_value(s) as u16)
    } else {
        None
    }
}

/// The meaning of a decimal token for an unsigned 16-bit field: an optional
/// leading `+`, then one or more digits, with a value that fits.
pub open spec fn parse_u16_spec(s: Seq<char>) -> Option<u16> {
    parse_digits_spec(token_digits(s))
}

/// The meaning of a decimal token for an unsigned 8-bit field.
pub open spec fn parse_u8_spec(s: Seq<char>) -> Option<u8> {
    match parse_u16_spec(s) {
        Some(v) => if v <= u8::MAX as u16 {
            Some(v as u8)
        } else {
            None
        },
        None => None,
    }
}

proof fn lemma_dec_value_step(s: Seq<char>, k: int)
    requires
        0 <= k < s.len(),
    ensures
        dec_value(s.take(k + 1)) == dec_value(s.take(k)) * 10 + digit_val(s[k]),
{
    assert(s.take(k + 1).drop_last() =~= s.take(k));
    assert(s.take(k + 1).last() == s[k]);
}

/// Parses a digits-only decimal string whose value fits 16 bits.
pub fn parse_digits(s: &str) -> (r: Option<u16>)
    ensures
        r == parse_digits_spec(s@),
{
    let len = s.unicode_len();
    if len == 0 {
        return None;
    }
    let mut acc: u32 = 0;
    let mut over = false;
    let mut i: usize = 0;
    while i < len
        invariant
            i <= len,
            len == s@.len(),
            all_digits(s@.take(i as int)),
            !over ==> acc == dec_value(s@.take(i as int)) && acc <= 65535,
            over ==> dec_value(s@.take(i as int)) > 65535,
        decreases len - i,
    {
        let c = s.get_char(i);
        if c < '0' || c > '9' {
            proof {
                assert(s@[i as int] == c);
                assert(!spec_is_digit(s@[i as int]));
                assert(!all_digits(s@));
            }
            return None;
        }
        let d: u32 = c as u32 - 48;
        proof {
            let ghost k = i as int;
            lemma_dec_value_step(s@, k);
            assert(digit_val(c) == d);
            if over {
                assert(dec_value(s@.take(k + 1)) == dec_value(s@.take(k)) * 10 + d as int);
                assert(dec_value(s@.take(k)) * 10 > 65535 * 10) by (nonlinear_arith)
                    requires dec_value(s@.take(k)) > 65535;
            }
            assert(all_digits(s@.take(k + 1)));
        }
        if over {
        } else if acc > 6553 || (acc == 6553 && d > 5) {
            proof {
                assert(dec_value(s@.take(i + 1)) == acc * 10 + d as int);
            }
            over = true;
            acc = 0;
        } else {
            acc = acc * 10 + d;
        }
        i = i + 1;
    }
    proof {
        assert(s@.take(len as int) =~= s@);
    }
    if over {
        None
    } else {
        Some(acc as u16)
    }
}

/// Parses an unsigned 16-bit decimal token.
pub fn parse_u16(s: &str) -> (r: Option<u16>)
    ensures
        r == parse_u16_spec(s@),
{
    let len = s.unicode_len();
    if len > 0 && s.get_char(0) == '+' {
        let rest = s.substring_char(1, len);
        proof {
            assert(rest@ =~= s@.drop_first());
            assert(token_digits(s@) == rest@);
        }
        parse_digits(rest)
    } else {
        proof {
            assert(token_digits(s@) == s@);
        }
        parse_digits(s)
    }
}

/// Parses an unsigned 8-bit decimal token.
pub fn parse_u8(s: &str) -> (r: Option<u8>)
    ensures
        r == parse_u8_spec(s@),
{
    match parse_u16(s) {
        Some(v) => if v <= 255 {
            Some(v as u8)
        } else {
            None
        },
        None => None,
    }
}

pub open spec fn spec_digit_char(d: int) -> char {
    if d == 0 {
        '0'
    } else if d == 1 {
        '1'
    } else if d == 2 {
        '2'
    } else if d == 3 {
        '3'
    } else if d == 4 {
        '4'
    } else if d == 5 {
        '5'
    } else if d == 6 {
        '6'
    } else if d == 7 {
        '7'
    } else if d == 8 {
        '8'
    } else {
        '9'
    }
}

/// The canonical decimal digit string of a non-negative number: no sign, no
/// leading zeros (a single `0` for zero).
pub open spec fn dec_seq(n: int) -> Seq<char>
    recommends
        n >= 0,
    decreases n,
{
    if n < 10 {
        seq![spec_digit_char(n)]
    } else {
        dec_seq(n / 10).push(spec_digit_char(n % 10))
    }
}

fn digit_str(d: u16) -> (r: &'static str)
    requires
        d < 10,
    ensures
        r@ == seq![spec_digit_char(d as int)],
{
    let r: &'static str = if d == 0 {
        "0"
    } else if d == 1 {
        "1"
    } else if d == 2 {
        "2"
    } else if d == 3 {
        "3"
    } else if d == 4 {
        "4"
    } else if d == 5 {
        "5"
    } else if d == 6 {
        "6"
    } else if d == 7 {
        "7"
    } else if d == 8 {
        "8"
    } else {
        "9"
    };
    proof {
        reveal_strlit("0");
        reveal_strlit("1");
        reveal_strlit("2");
        reveal_strlit("3");
        reveal_strlit("4");
        reveal_strlit("5");
        reveal_strlit("6");
        reveal_strlit("7");
        reveal_strlit("8");
        reveal_strlit("9");
        assert(r@ =~= seq![spec_digit_char(d as int)]);
    }
    r
}

/// Formats a number as its canonical decimal digit string.
pub fn u16_to_dec(n: u16) -> (r: String)
    ensures
        r@ == dec_seq(n as int),
    decreases n,
{
    if n < 10 {
        String::from_str(digit_str(n))
    } else {
        let mut s = u16_to_dec(n / 10);
        s.append(digit_str(n % 10));
        proof {
            assert(s@ =~= dec_seq((n / 10) as int).push(spec_digit_char((n % 10) as int)));
        }
        s
    }
}

/// The length of a decimal digit string grows only at each power of ten.
pub proof fn lemma_dec_seq_len(n: int, k: int)
    requires
        0 <= n,
        1 <= k,
        n < pow10(k),
    ensures
        1 <= dec_seq(n).len() <= k,
    decreases k,
{
    if n < 10 {
    } else {
        assert(pow10(k) == 10 * pow10(k - 1));
        assert(n / 10 < pow10(k - 1)) by (nonlinear_arith)
            requires n < 10 * pow10(k - 1), n >= 10, pow10(k - 1) >= 1;
        lemma_pow10_pos(k - 1);
        lemma_dec_seq_len(n / 10, k - 1);
    }
}

pub open spec fn pow10(k: int) -> int
    recommends
        k >= 0,
    decreases k,
{
    if k <= 0 {
        1
    } else {
        10 * pow10(k - 1)
    }
}

pub proof fn lemma_pow10_pos(k: int)
    ensures
        pow10(k) >= 1,
    decreases k,
{
    if k > 0 {
        lemma_pow10_pos(k - 1);
    }
}

/// A digit string of length `n` has a value below the `n`-th power of ten.
pub proof fn lemma_dec_value_bound(s: Seq<char>)
    requires
        all_digits(s),
    ensures
        0 <= dec_value(s) < pow10(s.len() as int),
    decreases s.len(),
{
    if s.len() == 0 {
    } else {
        assert(all_digits(s.drop_last()));
        lemma_dec_value_bound(s.drop_last());
        let v = dec_value(s.drop_last());
        let p = pow10(s.len() - 1);
        assert(v * 10 <= (p - 1) * 10) by (nonlinear_arith)
            requires v <= p - 1;
        assert(spec_is_digit(s[s.len() - 1]));
        assert(digit_val(s.last()) <= 9);
    }
}

/// The first position at or after `from` where `c` occurs, or the length of
/// `s` if it does not occur there.
pub open spec fn find_from(s: Seq<char>, c: char, from: int) -> int
    recommends
        0 <= from <= s.len(),
    decreases s.len() - from,
{
    if from < 0 || from >= s.len() {
        s.len() as int
    } else if s[from] == c {
        from
    } else {
        find_from(s, c, from + 1)
    }
}

pub proof fn lemma_find_from(s: Seq<char>, c: char, from: int)
    requires
        0 <= from <= s.len(),
    ensures
        from <= find_from(s, c, from) <= s.len(),
        find_from(s, c, from) < s.len() ==> s[find_from(s, c, from)] == c,
        forall|j: int| from <= j < find_from(s, c, from) ==> s[j] != c,
    decreases s.len() - from,
{
    if from < s.len() && s[from] != c {
        lemma_find_from(s, c, from + 1);
    }
}

/// Finds the first occurrence of `c` at or after `from`.
pub fn find_char(s: &str, c: char, from: usize) -> (r: usize)
    requires
        from <= s@.len(),
    ensures
        r == find_from(s@, c, from as int),
{
    let len = s.unicode_len();
    let mut i = from;
    while i < len
        invariant
            from <= i <= len,
            len == s@.len(),
            find_from(s@, c, from as int) == find_from(s@, c, i as int),
        decreases len - i,
    {
        if s.get_char(i) == c {
            return i;
        }
        i = i + 1;
    }
    len
}

pub open spec fn zeros(n: int) -> Seq<char> {
    if n <= 0 {
        Seq::<char>::empty()
    } else {
        Seq::new(n as nat, |i: int| '0')
    }
}

/// Left-pads a digit string with zeros up to width `n`.
pub open spec fn zero_pad(s: Seq<char>, n: int) -> Seq<char> {
    zeros(n - s.len()) + s
}

/// The canonical digit string of a number is all digits and reads back as
/// that number.
pub proof fn lemma_dec_seq_value(n: int)
    requires
        n >= 0,
    ensures
        all_digits(dec_seq(n)),
        dec_value(dec_seq(n)) == n,
        dec_seq(n).len() >= 1,
    decreases n,
{
    if n < 10 {
        let s = seq![spec_digit_char(n)];
        assert(s.drop_last() =~= Seq::<char>::empty());
        assert(s.last() == spec_digit_char(n));
        assert(dec_value(Seq::<char>::empty()) == 0);
        assert(dec_value(s) == dec_value(s.drop_last()) * 10 + digit_val(s.last()));
        assert(digit_val(spec_digit_char(n)) == n);
        assert(spec_is_digit(spec_digit_char(n)));
    } else {
        lemma_dec_seq_value(n / 10);
        let s = dec_seq(n / 10);
        let c = spec_digit_char(n % 10);
        assert(s.push(c).drop_last() =~= s);
        assert(s.push(c).last() == c);
        assert(digit_val(c) == n % 10);
        assert(spec_is_digit(c));
        assert(dec_value(s.push(c)) == n / 10 * 10 + n % 10);
        assert(forall|i: int| 0 <= i < s.push(c).len() ==> spec_is_digit(#[trigger] s.push(c)[i]))
            by {
            assert(forall|i: int| 0 <= i < s.len() ==> s.push(c)[i] == s[i]);
        }
    }
}

/// A block of leading zeros does not change a digit string's value.
pub proof fn lemma_dec_value_leading_zeros(k: int, s: Seq<char>)
    ensures
        dec_value(zeros(k) + s) == dec_value(s),
    decreases s.len(),
{
    if s.len() == 0 {
        assert(zeros(k) + s =~= zeros(k));
        lemma_dec_value_zeros(k);
    } else {
        assert((zeros(k) + s).drop_last() =~= zeros(k) + s.drop_last());
        assert((zeros(k) + s).last() == s.last());
        lemma_dec_value_leading_zeros(k, s.drop_last());
    }
}

proof fn lemma_dec_value_zeros(k: int)
    ensures
        dec_value(zeros(k)) == 0,
        all_digits(zeros(k)),
    decreases k,
{
    if k <= 0 {
    } else {
        lemma_dec_value_zeros(k - 1);
        assert(zeros(k).drop_last() =~= zeros(k - 1));
        assert(zeros(k).last() == '0');
        assert(digit_val('0') == 0);
    }
}

/// A zero-padded digit string is all digits and keeps its value.
pub proof fn lemma_zero_pad(s: Seq<char>, n: int)
    requires
        all_digits(s),
    ensures
        all_digits(zero_pad(s, n)),
        dec_value(zero_pad(s, n)) == dec_value(s),
        zero_pad(s, n).len() == if s.len() >= n {
            s.len() as int
        } else {
            n
        },
{
    let k = n - s.len();
    lemma_dec_value_zeros(k);
    lemma_dec_value_leading_zeros(k, s);
    if k <= 0 {
        assert(zeros(k) + s =~= s);
    } else {
        assert(forall|i: int|
            0 <= i < (zeros(k) + s).len() ==> spec_is_digit(#[trigger] (zeros(k) + s)[i])) by {
            assert(forall|i: int| 0 <= i < k ==> (zeros(k) + s)[i] == '0');
            assert(forall|i: int| k <= i < (zeros(k) + s).len() ==> (zeros(k) + s)[i] == s[i - k]);
        }
    }
}

/// The character-level view of a list of key/value string pairs.
pub open spec fn pairs_view(s: Seq<(String, String)>) -> Seq<(Seq<char>, Seq<char>)> {
    s.map_values(|p: (String, String)| (p.0@, p.1@))
}

} // verus!
verus! {

/// A character that occurs nowhere at or after `from` is not found there.
pub proof fn lemma_find_none(s: Seq<char>, c: char, from: int)
    requires
        0 <= from <= s.len(),
        forall|j: int| from <= j < s.len() ==> s[j] != c,
    ensures
        find_from(s, c, from) == s.len(),
{
    lemma_find_from(s, c, from);
    if find_from(s, c, from) < s.len() {
        assert(s[find_from(s, c, from)] == c);
    }
}

/// No character of a digit string equals a separator outside the digits.
pub proof fn lemma_digits_free_of(s: Seq<char>, c: char)
    requires
        all_digits(s),
        !spec_is_digit(c),
    ensures
        forall|j: int| 0 <= j < s.len() ==> s[j] != c,
{
}

} // verus!
