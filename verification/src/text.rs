//! Searching and splitting decoded console text.
//!
//! Text is a sequence of characters. Positions count characters, not bytes.

use vstd::prelude::*;
use vstd::string::{StrSliceExecFns, StringExecFns};

verus! {

/// `pat` stands in `s` at position `i`.
pub open spec fn occurs_at(s: Seq<char>, pat: Seq<char>, i: int) -> bool {
    &&& 0 <= i
    &&& i + pat.len() <= s.len()
    &&& s.subrange(i, i + pat.len()) =~= pat
}

/// The first position at or after `from` where `pat` stands in `s`.
pub open spec fn find_from(s: Seq<char>, pat: Seq<char>, from: int) -> Option<int>
    decreases s.len() - from,
{
    if from < 0 || from + pat.len() > s.len() {
        None
    } else if occurs_at(s, pat, from) {
        Some(from)
    } else {
        find_from(s, pat, from + 1)
    }
}

/// How many times a non-empty `pat` is met when `s` is read from `from`
/// onwards and the reading resumes behind each occurrence; 0 for an empty
/// `pat`.
pub open spec fn count_from(s: Seq<char>, pat: Seq<char>, from: int) -> nat
    decreases s.len() - from,
{
    if from < 0 || pat.len() == 0 || from + pat.len() > s.len() {
        0
    } else if occurs_at(s, pat, from) {
        1 + count_from(s, pat, from + pat.len())
    } else {
        count_from(s, pat, from + 1)
    }
}

/// What [`count_substring`] answers.
pub open spec fn count_reaches(s: Seq<char>, pat: Seq<char>, n: nat) -> bool {
    n > 0 && (pat.len() == 0 || count_from(s, pat, 0) >= n)
}

/// `find_from` gives the least position at or after `from`, and nothing only
/// if there is no such position.
pub proof fn lemma_find_from_is_first(s: Seq<char>, pat: Seq<char>, from: int)
    requires
        0 <= from,
    ensures
        match find_from(s, pat, from) {
            Some(i) => {
                &&& from <= i
                &&& occurs_at(s, pat, i)
                &&& forall|j: int| from <= j < i ==> !occurs_at(s, pat, j)
            },
            None => forall|j: int| from <= j ==> !occurs_at(s, pat, j),
        },
    decreases s.len() - from,
{
    if from + pat.len() > s.len() {
    } else if occurs_at(s, pat, from) {
    } else {
        lemma_find_from_is_first(s, pat, from + 1);
    }
}

/// Counting from `from` is counting from the first occurrence behind it.
pub proof fn lemma_count_skips_to_first(s: Seq<char>, pat: Seq<char>, from: int)
    requires
        0 <= from,
        pat.len() > 0,
    ensures
        count_from(s, pat, from) == match find_from(s, pat, from) {
            Some(i) => 1 + count_from(s, pat, i + pat.len()),
            None => 0,
        },
    decreases s.len() - from,
{
    if from + pat.len() > s.len() {
    } else if occurs_at(s, pat, from) {
    } else {
        lemma_count_skips_to_first(s, pat, from + 1);
    }
}

/// The characters of `s`, in order.
pub fn chars_of(s: &str) -> (v: Vec<char>)
    ensures
        v@ == s@,
{
    let mut v: Vec<char> = Vec::new();
    for c in it: s.chars()
        invariant
            v@ == it.seq().take(it.index() as int),
            it.seq() == s@,
    {
        v.push(c);
    }
    v
}

/// Whether two texts hold the same characters.
pub fn same_chars(a: &[char], b: &[char]) -> (same: bool)
    ensures
        same == (a@ == b@),
{
    if a.len() != b.len() {
        return false;
    }
    let n: usize = a.len();
    let mut i: usize = 0;
    while i < n
        invariant
            n == a@.len(),
            n == b@.len(),
            i <= n,
            forall|k: int| 0 <= k < i ==> a@[k] == b@[k],
        decreases n - i,
    {
        if a[i] != b[i] {
            return false;
        }
        i += 1;
    }
    assert(a@ =~= b@);
    true
}

/// Whether two texts are the same.
pub fn same_text(a: &str, b: &str) -> (same: bool)
    ensures
        same == (a@ == b@),
{
    let x = chars_of(a);
    let y = chars_of(b);
    same_chars(x.as_slice(), y.as_slice())
}

/// Whether `pat` stands in `s` at position `i`.
pub fn matches_at(s: &[char], pat: &[char], i: usize) -> (b: bool)
    ensures
        b == occurs_at(s@, pat@, i as int),
{
    let n: usize = s.len();
    let m: usize = pat.len();
    if m > n || i > n - m {
        return false;
    }
    let mut k: usize = 0;
    while k < m
        invariant
            n == s@.len(),
            m == pat@.len(),
            i + m <= n,
            k <= m,
            forall|j: int| 0 <= j < k ==> s@[i + j] == pat@[j],
        decreases m - k,
    {
        if s[i + k] != pat[k] {
            assert(s@.subrange(i as int, i + m)[k as int] != pat@[k as int]);
            return false;
        }
        k += 1;
    }
    assert(s@.subrange(i as int, i + m) =~= pat@);
    true
}

/// The first position at or after `from` where `pat` stands in `s`.
pub fn find(s: &[char], pat: &[char], from: usize) -> (r: Option<usize>)
    ensures
        match r {
            Some(i) => find_from(s@, pat@, from as int) == Some(i as int),
            None => find_from(s@, pat@, from as int) is None,
        },
{
    let n: usize = s.len();
    let m: usize = pat.len();
    if m > n {
        return None;
    }
    let last: usize = n - m;
    if from > last {
        return None;
    }
    let mut i: usize = from;
    loop
        invariant
            n == s@.len(),
            m == pat@.len(),
            last == n - m,
            from <= i <= last,
            find_from(s@, pat@, from as int) == find_from(s@, pat@, i as int),
        decreases last - i,
    {
        if matches_at(s, pat, i) {
            return Some(i);
        }
        if i == last {
            assert(find_from(s@, pat@, i + 1) is None);
            return None;
        }
        i += 1;
    }
}

/// Whether `substring` is met at least `n` times when `s` is read from its
/// start and the reading resumes behind each occurrence. An empty `substring`
/// is met any number of times. No text is met zero times: the answer for
/// `n == 0` is `false`.
pub fn count_substring(s: &str, substring: &str, n: usize) -> (b: bool)
    ensures
        b == count_reaches(s@, substring@, n as nat),
{
    if n == 0 {
        return false;
    }
    let text = chars_of(s);
    let pat = chars_of(substring);
    if pat.len() == 0 {
        return true;
    }
    let mut count: usize = 0;
    let mut start: usize = 0;
    loop
        invariant
            text@ == s@,
            text.len() == text@.len(),
            pat@ == substring@,
            pat@.len() > 0,
            count < n,
            count + count_from(text@, pat@, start as int) == count_from(text@, pat@, 0),
        decreases text.len() + 1 - start,
    {
        proof {
            lemma_count_skips_to_first(text@, pat@, start as int);
            lemma_find_from_is_first(text@, pat@, start as int);
        }
        match find(text.as_slice(), pat.as_slice(), start) {
            Some(pos) => {
                count += 1;
                if count == n {
                    return true;
                }
                assert(occurs_at(text@, pat@, pos as int));
                start = pos + pat.len();
            },
            None => {
                return false;
            },
        }
    }
}

/// The capture is not the only one: the anchors frame a second stretch of text.
#[derive(Debug, Clone, Copy, PartialEq, Eq, Structural)]
pub enum CaptureError {
    MoreThanOne,
}

/// The first stretch of `s` at or after `from` that stands between `left` and
/// `right`, as the positions where the stretch begins and ends: `left` is taken
/// at its first occurrence, `right` at its first occurrence behind that.
pub open spec fn next_capture(s: Seq<char>, left: Seq<char>, right: Seq<char>, from: int) -> Option<
    (int, int),
> {
    match find_from(s, left, from) {
        Some(l) => match find_from(s, right, l + left.len()) {
            Some(r) => Some((l + left.len(), r)),
            None => None,
        },
        None => None,
    }
}

/// What [`assert_capture_between`] answers: nothing while the anchors frame no
/// text, the framed text with its position when they frame exactly one
/// stretch, an error when a second stretch follows the first.
pub open spec fn capture_between(s: Seq<char>, left: Seq<char>, right: Seq<char>) -> Result<
    Option<(int, Seq<char>)>,
    CaptureError,
> {
    match next_capture(s, left, right, 0) {
        None => Ok(None),
        Some((begin, end)) => if next_capture(s, left, right, end + right.len()) is Some {
            Err(CaptureError::MoreThanOne)
        } else {
            Ok(Some((begin, s.subrange(begin, end))))
        },
    }
}

/// Finds the first stretch at or after `from` that stands between the anchors.
fn capture_from(s: &[char], left: &[char], right: &[char], from: usize) -> (r: Option<
    (usize, usize),
>)
    ensures
        match r {
            Some((begin, end)) => {
                &&& next_capture(s@, left@, right@, from as int) == Some((begin as int, end as int))
                &&& from <= begin <= end
                &&& end + right@.len() <= s@.len()
            },
            None => next_capture(s@, left@, right@, from as int) is None,
        },
{
    if from > s.len() {
        return None;
    }
    proof {
        lemma_find_from_is_first(s@, left@, from as int);
    }
    match find(s, left, from) {
        None => None,
        Some(l) => {
            let begin: usize = l + left.len();
            proof {
                lemma_find_from_is_first(s@, right@, begin as int);
            }
            match find(s, right, begin) {
                None => None,
                Some(end) => Some((begin, end)),
            }
        },
    }
}

/// Captures the text that stands between `left` and `right` in `src`, with the
/// position of its first character.
pub fn assert_capture_between(src: &str, left: &str, right: &str) -> (r: Result<
    Option<(usize, String)>,
    CaptureError,
>)
    ensures
        match capture_between(src@, left@, right@) {
            Err(e) => r == Err::<Option<(usize, String)>, CaptureError>(e),
            Ok(None) => r == Ok::<Option<(usize, String)>, CaptureError>(None),
            Ok(Some((begin, text))) => {
                &&& r matches Ok(Some((pos, captured)))
                &&& pos == begin
                &&& captured@ == text
            },
        },
{
    let text = chars_of(src);
    let l = chars_of(left);
    let r = chars_of(right);
    match capture_from(text.as_slice(), l.as_slice(), r.as_slice(), 0) {
        None => Ok(None),
        Some((begin, end)) => {
            let resume: usize = end + r.len();
            if capture_from(text.as_slice(), l.as_slice(), r.as_slice(), resume).is_some() {
                Err(CaptureError::MoreThanOne)
            } else {
                Ok(Some((begin, src.substring_char(begin, end).to_owned())))
            }
        },
    }
}

/// `c` is one of the ten decimal digits.
pub open spec fn is_digit(c: char) -> bool {
    '0' <= c <= '9'
}

/// The number a decimal digit stands for; 0 for any other character.
pub open spec fn digit_value(c: char) -> nat {
    if is_digit(c) {
        (c as u32 - '0' as u32) as nat
    } else {
        0
    }
}

/// Every character of `s` is a decimal digit.
pub open spec fn all_digits(s: Seq<char>) -> bool {
    forall|i: int| 0 <= i < s.len() ==> is_digit(#[trigger] s[i])
}

/// The number that the digits of `s` write in base ten.
pub open spec fn decimal_value(s: Seq<char>) -> nat
    decreases s.len(),
{
    if s.len() == 0 {
        0
    } else {
        10 * decimal_value(s.drop_last()) + digit_value(s.last())
    }
}

/// The 32-bit integer that `s` writes: an optional sign, then one or more
/// decimal digits and nothing else, the whole within the range of `i32`.
pub open spec fn parse_i32_spec(s: Seq<char>) -> Option<i32> {
    let signed = s.len() > 0 && (s[0] == '-' || s[0] == '+');
    let negative = s.len() > 0 && s[0] == '-';
    let digits = if signed {
        s.skip(1)
    } else {
        s
    };
    let value = if negative {
        -(decimal_value(digits) as int)
    } else {
        decimal_value(digits) as int
    };
    if digits.len() > 0 && all_digits(digits) && i32::MIN <= value <= i32::MAX {
        Some(value as i32)
    } else {
        None
    }
}

/// A number is at least what any of its leading digits write.
pub proof fn lemma_decimal_value_grows(s: Seq<char>, k: int)
    requires
        0 <= k <= s.len(),
    ensures
        decimal_value(s.take(k)) <= decimal_value(s),
    decreases s.len() - k,
{
    if k == s.len() {
        assert(s.take(k) =~= s);
    } else {
        lemma_decimal_value_grows(s, k + 1);
        assert(s.take(k + 1).drop_last() =~= s.take(k));
    }
}

/// Reads `s` as a 32-bit integer in base ten.
pub fn parse_i32(s: &[char]) -> (r: Option<i32>)
    ensures
        r == parse_i32_spec(s@),
{
    let n: usize = s.len();
    if n == 0 {
        return None;
    }
    let negative = s[0] == '-';
    let start: usize = if s[0] == '-' || s[0] == '+' {
        1
    } else {
        0
    };
    if start == n {
        return None;
    }
    let ghost digits = if start == 1 {
        s@.skip(1)
    } else {
        s@
    };
    let mut acc: i64 = 0;
    let mut k: usize = start;
    while k < n
        invariant
            0 < n == s@.len(),
            start <= k <= n,
            start <= 1,
            (start == 1) == (s@[0] == '-' || s@[0] == '+'),
            digits == if start == 1 {
                s@.skip(1)
            } else {
                s@
            },
            forall|i: int| 0 <= i < k - start ==> is_digit(#[trigger] digits[i]),
            acc == decimal_value(digits.take(k - start)),
            0 <= acc <= 0x8000_0000,
        decreases n - k,
    {
        let c = s[k];
        assert(c == digits[k - start]);
        if c < '0' || c > '9' {
            assert(!is_digit(digits[k - start]));
            return None;
        }
        let d: i64 = (c as u32 - '0' as u32) as i64;
        assert(digits.take(k - start + 1).drop_last() =~= digits.take(k - start));
        if acc * 10 + d > 0x8000_0000 {
            proof {
                lemma_decimal_value_grows(digits, k - start + 1);
            }
            return None;
        }
        acc = acc * 10 + d;
        k += 1;
    }
    assert(digits.take(n - start) =~= digits);
    if negative {
        Some((-acc) as i32)
    } else if acc == 0x8000_0000 {
        None
    } else {
        Some(acc as i32)
    }
}

/// The character that writes the digit `d`.
pub open spec fn digit_char(d: nat) -> char {
    if d == 0 {
        '0'
    } else if d == 1 {
        '1'
    } else if d == 2 {
        '2'
    } else if d == 3 {
        '3'
    } else if d == 4 {
        '4'
    } else if d == 5 {
        '5'
    } else if d == 6 {
        '6'
    } else if d == 7 {
        '7'
    } else if d == 8 {
        '8'
    } else {
        '9'
    }
}

/// The digits that write `n` in base ten, without leading zeros.
pub open spec fn decimal_digits(n: nat) -> Seq<char>
    decreases n,
{
    if n < 10 {
        seq![digit_char(n)]
    } else {
        decimal_digits(n / 10).push(digit_char(n % 10))
    }
}

/// The digits that write `n` in base ten, with zeros in front up to `width`
/// digits.
pub open spec fn padded_digits(n: nat, width: nat) -> Seq<char>
    decreases n,
{
    let rest = if width > 0 {
        (width - 1) as nat
    } else {
        0
    };
    if n < 10 {
        Seq::new(rest, |i: int| '0').push(digit_char(n))
    } else {
        padded_digits(n / 10, rest).push(digit_char(n % 10))
    }
}

/// Padding adds zeros only: the digits are those of the number, and they are
/// at least as many as the width asks for.
pub proof fn lemma_padded_digits(n: nat, width: nat)
    ensures
        padded_digits(n, width).len() >= width,
        padded_digits(n, width).len() >= decimal_digits(n).len(),
        padded_digits(n, width) == Seq::new(
            (padded_digits(n, width).len() - decimal_digits(n).len()) as nat,
            |i: int| '0',
        ) + decimal_digits(n),
        width <= decimal_digits(n).len() ==> padded_digits(n, width) == decimal_digits(n),
    decreases n,
{
    let rest = if width > 0 {
        (width - 1) as nat
    } else {
        0
    };
    let zeros = |k: nat| Seq::new(k, |i: int| '0');
    if n < 10 {
        assert(padded_digits(n, width) =~= zeros(rest) + decimal_digits(n));
        assert(zeros(0) + decimal_digits(n) =~= decimal_digits(n));
    } else {
        lemma_padded_digits(n / 10, rest);
        let inner = padded_digits(n / 10, rest);
        let k = (inner.len() - decimal_digits(n / 10).len()) as nat;
        assert(inner.push(digit_char(n % 10)) =~= zeros(k) + decimal_digits(n));
        assert(zeros(0) + decimal_digits(n) =~= decimal_digits(n));
    }
}

/// Reading the digits that write a number gives the number back.
pub proof fn lemma_decimal_round_trip(n: nat)
    ensures
        decimal_digits(n).len() > 0,
        all_digits(decimal_digits(n)),
        decimal_value(decimal_digits(n)) == n,
    decreases n,
{
    assert(digit_value(digit_char(n % 10)) == n % 10);
    assert(is_digit(digit_char(n % 10)));
    if n < 10 {
        assert(decimal_digits(n).drop_last() =~= Seq::<char>::empty());
        assert(decimal_value(Seq::<char>::empty()) == 0);
    } else {
        lemma_decimal_round_trip(n / 10);
        assert(decimal_digits(n).drop_last() =~= decimal_digits(n / 10));
    }
}

/// The text of one digit.
fn digit_str(d: u64) -> (s: &'static str)
    requires
        d < 10,
    ensures
        s@ == seq![digit_char(d as nat)],
{
    proof {
        reveal_strlit("0");
        reveal_strlit("1");
        reveal_strlit("2");
        reveal_strlit("3");
        reveal_strlit("4");
        reveal_strlit("5");
        reveal_strlit("6");
        reveal_strlit("7");
        reveal_strlit("8");
        reveal_strlit("9");
    }
    let s = if d == 0 {
        "0"
    } else if d == 1 {
        "1"
    } else if d == 2 {
        "2"
    } else if d == 3 {
        "3"
    } else if d == 4 {
        "4"
    } else if d == 5 {
        "5"
    } else if d == 6 {
        "6"
    } else if d == 7 {
        "7"
    } else if d == 8 {
        "8"
    } else {
        "9"
    };
    assert(s@ =~= seq![digit_char(d as nat)]);
    s
}

/// Appends `n` in base ten to `out`.
pub fn push_decimal(out: &mut String, n: u64)
    ensures
        final(out)@ == old(out)@ + decimal_digits(n as nat),
    decreases n,
{
    if n >= 10 {
        push_decimal(out, n / 10);
    }
    out.append(digit_str(n % 10));
    assert(out@ =~= old(out)@ + decimal_digits(n as nat));
}

/// Appends `n` in base ten to `out`, with zeros in front up to `width` digits.
pub fn push_padded(out: &mut String, n: u64, width: usize)
    ensures
        final(out)@ == old(out)@ + padded_digits(n as nat, width as nat),
    decreases n,
{
    let rest: usize = if width > 0 {
        width - 1
    } else {
        0
    };
    if n >= 10 {
        push_padded(out, n / 10, rest);
    } else {
        let ghost before = out@;
        let mut k: usize = 0;
        while k < rest
            invariant
                k <= rest,
                out@ == before + Seq::new(k as nat, |i: int| '0'),
            decreases rest - k,
        {
            proof {
                reveal_strlit("0");
            }
            out.append("0");
            k += 1;
            assert(out@ =~= before + Seq::new(k as nat, |i: int| '0'));
        }
    }
    out.append(digit_str(n % 10));
    assert(out@ =~= old(out)@ + padded_digits(n as nat, width as nat));
}

} // verus!
