//! Verified text utilities: decimal rendering and parsing of identifiers,
//! and whitespace trimming, shared by the value objects and the dispatcher.

use vstd::prelude::*;
use vstd::string::StringExecFns;

verus! {

/// The decimal digit character for a value in `0..=9`.
pub open spec fn digit_char(d: int) -> char {
    if d == 0 {
        '0'
    } else if d == 1 {
        '1'
    } else if d == 2 {
        '2'
    } else if d == 3 {
        '3'
    } else if d == 4 {
        '4'
    } else if d == 5 {
        '5'
    } else if d == 6 {
        '6'
    } else if d == 7 {
        '7'
    } else if d == 8 {
        '8'
    } else {
        '9'
    }
}

/// The decimal digits of a non-negative value, most significant first.
pub open spec fn dec_digits(n: int) -> Seq<char>
    decreases n,
{
    if n < 10 {
        seq![digit_char(n)]
    } else {
        dec_digits(n / 10).push(digit_char(n % 10))
    }
}

/// The decimal rendering of a signed value: a minus sign before the digits
/// of the magnitude when the value is negative.
pub open spec fn dec_int(n: int) -> Seq<char> {
    if n < 0 {
        seq!['-'] + dec_digits(-n)
    } else {
        dec_digits(n)
    }
}

/// A one-character string slice for a digit value.
fn digit_str(d: u64) -> (s: &'static str)
    requires
        d < 10,
    ensures
        s@ == seq![digit_char(d as int)],
{
    proof {
        reveal_strlit("0");
        reveal_strlit("1");
        reveal_strlit("2");
        reveal_strlit("3");
        reveal_strlit("4");
        reveal_strlit("5");
        reveal_strlit("6");
        reveal_strlit("7");
        reveal_strlit("8");
        reveal_strlit("9");
    }
    let s: &'static str = match d {
        0 => "0",
        1 => "1",
        2 => "2",
        3 => "3",
        4 => "4",
        5 => "5",
        6 => "6",
        7 => "7",
        8 => "8",
        _ => "9",
    };
    proof {
        assert(s@ =~= seq![digit_char(d as int)]);
    }
    s
}

/// Renders an unsigned value in decimal.
pub fn u64_to_string(n: u64) -> (s: String)
    ensures
        s@ == dec_digits(n as int),
    decreases n,
{
    if n < 10 {
        String::from_str(digit_str(n))
    } else {
        let mut s = u64_to_string(n / 10);
        s.append(digit_str(n % 10));
        proof {
            assert(s@ =~= dec_digits(n as int));
        }
        s
    }
}

/// The digit value of a character, `-1` when it is not a decimal digit.
pub open spec fn char_digit_val(c: char) -> int {
    if c == '0' {
        0
    } else if c == '1' {
        1
    } else if c == '2' {
        2
    } else if c == '3' {
        3
    } else if c == '4' {
        4
    } else if c == '5' {
        5
    } else if c == '6' {
        6
    } else if c == '7' {
        7
    } else if c == '8' {
        8
    } else if c == '9' {
        9
    } else {
        -1
    }
}

/// Whether a character is a decimal digit.
pub open spec fn is_digit_char(c: char) -> bool {
    char_digit_val(c) >= 0
}

/// Whether every character of a sequence is a decimal digit.
pub open spec fn all_digits(s: Seq<char>) -> bool {
    forall|i: int| 0 <= i < s.len() ==> is_digit_char(s[i])
}

/// The value of a sequence of decimal digits, most significant first.
pub open spec fn digits_val(s: Seq<char>) -> int
    decreases s.len(),
{
    if s.len() == 0 {
        0
    } else {
        digits_val(s.drop_last()) * 10 + char_digit_val(s.last())
    }
}

/// The digit part of a decimal string: everything after an optional sign.
pub open spec fn dec_body(s: Seq<char>) -> Seq<char> {
    if s.len() > 0 && (s[0] == '+' || s[0] == '-') {
        s.drop_first()
    } else {
        s
    }
}

/// Whether a decimal string carries a minus sign.
pub open spec fn dec_negative(s: Seq<char>) -> bool {
    s.len() > 0 && s[0] == '-'
}

/// The signed value a decimal string denotes, ignoring range limits.
pub open spec fn str_i64_val(s: Seq<char>) -> int {
    if dec_negative(s) {
        -digits_val(dec_body(s))
    } else {
        digits_val(dec_body(s))
    }
}

/// Whether a string is a well-formed decimal `i64`: an optional sign, at
/// least one digit, nothing else, and a value in the representable range.
pub open spec fn str_is_i64(s: Seq<char>) -> bool {
    &&& dec_body(s).len() > 0
    &&& all_digits(dec_body(s))
    &&& i64::MIN <= str_i64_val(s) <= i64::MAX
}

/// A digit string has a non-negative value.
pub proof fn lemma_digits_val_nonneg(s: Seq<char>)
    requires
        all_digits(s),
    ensures
        digits_val(s) >= 0,
    decreases s.len(),
{
    if s.len() > 0 {
        assert(all_digits(s.drop_last())) by {
            assert(forall|i: int|
                0 <= i < s.len() - 1 ==> s.drop_last()[i] == s[i]);
        }
        lemma_digits_val_nonneg(s.drop_last());
    }
}

/// Appending digits never decreases the value of a digit string.
pub proof fn lemma_digits_val_prefix(s: Seq<char>, i: int)
    requires
        all_digits(s),
        0 <= i <= s.len(),
    ensures
        digits_val(s) >= digits_val(s.subrange(0, i)),
    decreases s.len() - i,
{
    if i < s.len() {
        let p = s.subrange(0, i);
        let q = s.subrange(0, i + 1);
        assert(q.drop_last() =~= p);
        assert(q.last() == s[i]);
        assert(all_digits(p)) by {
            assert(forall|k: int| 0 <= k < i ==> p[k] == s[k]);
        }
        lemma_digits_val_nonneg(p);
        assert(digits_val(q) == digits_val(p) * 10 + char_digit_val(s[i]));
        lemma_digits_val_prefix(s, i + 1);
    } else {
        assert(s.subrange(0, i) =~= s);
    }
}

/// The digit value of a character, `None` when it is not a digit.
fn digit_of(c: char) -> (d: Option<u8>)
    ensures
        match d {
            Some(v) => char_digit_val(c) == v as int,
            None => char_digit_val(c) < 0,
        },
{
    match c {
        '0' => Some(0),
        '1' => Some(1),
        '2' => Some(2),
        '3' => Some(3),
        '4' => Some(4),
        '5' => Some(5),
        '6' => Some(6),
        '7' => Some(7),
        '8' => Some(8),
        '9' => Some(9),
        _ => None,
    }
}

/// Parses a decimal `i64` with an optional leading sign.
///
/// Succeeds exactly on the strings `str_is_i64` describes and returns the
/// value they denote; every other string yields `None`.
pub fn parse_i64(s: &str) -> (r: Option<i64>)
    ensures
        match r {
            Some(v) => str_is_i64(s@) && v as int == str_i64_val(s@),
            None => !str_is_i64(s@),
        },
{
    let n = s.unicode_len();
    if n == 0 {
        return None;
    }
    let first = s.get_char(0);
    let mut i: usize = 0;
    let mut negative: bool = false;
    if first == '+' {
        i = 1;
    } else if first == '-' {
        negative = true;
        i = 1;
    }
    let ghost start = i as int;
    proof {
        assert(dec_body(s@) =~= s@.subrange(start, n as int));
        assert(negative == dec_negative(s@));
    }
    if i == n {
        proof {
            assert(dec_body(s@).len() == 0);
        }
        return None;
    }
    let mut acc: u128 = 0;
    while i < n
        invariant
            0 <= start <= i <= n,
            n == s@.len(),
            dec_body(s@) =~= s@.subrange(start, n as int),
            all_digits(s@.subrange(start, i as int)),
            acc == digits_val(s@.subrange(start, i as int)),
            acc <= 0x8000_0000_0000_0000u128,
        decreases n - i,
    {
        let c = s.get_char(i);
        let ghost p = s@.subrange(start, i as int);
        let ghost q = s@.subrange(start, i as int + 1);
        proof {
            assert(q.drop_last() =~= p);
            assert(q.last() == s@[i as int]);
        }
        match digit_of(c) {
            None => {
                proof {
                    assert(dec_body(s@)[i - start] == s@[i as int]);
                    assert(!all_digits(dec_body(s@)));
                }
                return None;
            },
            Some(d) => {
                acc = acc * 10 + d as u128;
                i = i + 1;
                if acc > 0x8000_0000_0000_0000u128 {
                    proof {
                        if all_digits(dec_body(s@)) {
                            lemma_digits_val_prefix(dec_body(s@), i - start);
                            assert(dec_body(s@).subrange(0, i - start) =~= q);
                        }
                        assert(!str_is_i64(s@));
                    }
                    return None;
                }
            },
        }
    }
    proof {
        assert(s@.subrange(start, i as int) =~= dec_body(s@));
    }
    if negative {
        let v: i64 = (-(acc as i128)) as i64;
        Some(v)
    } else {
        if acc > 0x7fff_ffff_ffff_ffffu128 {
            return None;
        }
        Some(acc as i64)
    }
}

/// Whether a character counts as surrounding whitespace when trimming.
pub open spec fn is_space_char(c: char) -> bool {
    c == ' ' || c == '\t' || c == '\n' || c == '\r'
}

/// Whether a character counts as whitespace, executably.
pub fn is_space(c: char) -> (r: bool)
    ensures
        r == is_space_char(c),
{
    c == ' ' || c == '\t' || c == '\n' || c == '\r'
}

/// A sequence with its leading whitespace removed.
pub open spec fn trim_front(s: Seq<char>) -> Seq<char>
    decreases s.len(),
{
    if s.len() > 0 && is_space_char(s[0]) {
        trim_front(s.drop_first())
    } else {
        s
    }
}

/// A sequence with its trailing whitespace removed.
pub open spec fn trim_back(s: Seq<char>) -> Seq<char>
    decreases s.len(),
{
    if s.len() > 0 && is_space_char(s.last()) {
        trim_back(s.drop_last())
    } else {
        s
    }
}

/// A sequence with whitespace removed from both ends.
pub open spec fn trim_spec(s: Seq<char>) -> Seq<char> {
    trim_back(trim_front(s))
}

/// Trimming the front keeps everything from the first non-space character.
pub proof fn lemma_trim_front_at(s: Seq<char>, i: int)
    requires
        0 <= i <= s.len(),
        forall|k: int| 0 <= k < i ==> is_space_char(s[k]),
        i == s.len() || !is_space_char(s[i]),
    ensures
        trim_front(s) =~= s.subrange(i, s.len() as int),
    decreases i,
{
    if i == 0 {
        assert(s.subrange(0, s.len() as int) =~= s);
    } else {
        let s1 = s.drop_first();
        assert(s1 =~= s.subrange(1, s.len() as int));
        lemma_trim_front_at(s1, i - 1);
        assert(s1.subrange(i - 1, s1.len() as int) =~= s.subrange(i, s.len() as int));
    }
}

/// Trimming the back keeps everything up to the last non-space character.
pub proof fn lemma_trim_back_at(s: Seq<char>, j: int)
    requires
        0 <= j <= s.len(),
        forall|k: int| j <= k < s.len() ==> is_space_char(s[k]),
        j == 0 || !is_space_char(s[j - 1]),
    ensures
        trim_back(s) =~= s.subrange(0, j),
    decreases s.len() - j,
{
    if j == s.len() {
        assert(s.subrange(0, j) =~= s);
    } else {
        let s1 = s.drop_last();
        assert(s1 =~= s.subrange(0, s.len() - 1));
        lemma_trim_back_at(s1, j);
        assert(s1.subrange(0, j) =~= s.subrange(0, j));
    }
}

/// Removes the surrounding whitespace of a string.
pub fn trim_str(s: &str) -> (t: String)
    ensures
        t@ == trim_spec(s@),
{
    let n = s.unicode_len();
    let mut i: usize = 0;
    while i < n && is_space(s.get_char(i))
        invariant
            i <= n,
            n == s@.len(),
            forall|k: int| 0 <= k < i ==> is_space_char(s@[k]),
        decreases n - i,
    {
        i = i + 1;
    }
    if i == n {
        proof {
            lemma_trim_front_at(s@, n as int);
            assert(trim_front(s@) =~= Seq::<char>::empty());
        }
        return String::new();
    }
    let mut j: usize = n;
    while is_space(s.get_char(j - 1))
        invariant
            i < j <= n,
            n == s@.len(),
            !is_space_char(s@[i as int]),
            forall|k: int| j <= k < n ==> is_space_char(s@[k]),
        decreases j,
    {
        j = j - 1;
    }
    let piece = s.substring_char(i, j);
    let t = piece.to_owned();
    proof {
        lemma_trim_front_at(s@, i as int);
        let mid = s@.subrange(i as int, n as int);
        lemma_trim_back_at(mid, j - i);
        assert(mid.subrange(0, j - i) =~= s@.subrange(i as int, j as int));
    }
    t
}

/// Renders a signed value in decimal.
pub fn i64_to_string(n: i64) -> (s: String)
    ensures
        s@ == dec_int(n as int),
{
    if n >= 0 {
        u64_to_string(n as u64)
    } else {
        let magnitude: u64 = if n == i64::MIN {
            9223372036854775808u64
        } else {
            (-n) as u64
        };
        let mut s = String::from_str("-");
        let digits = u64_to_string(magnitude);
        s.append(digits.as_str());
        proof {
            reveal_strlit("-");
            assert(s@ =~= dec_int(n as int));
        }
        s
    }
}

} // verus!
