//! Character-level text helpers shared by the rest of the library: pattern
//! occurrence, searching, and a few conversions, all over `Seq<char>` models.

use vstd::prelude::*;
use vstd::string::{StrSliceExecFns, StringExecFns};

verus! {

broadcast use vstd::string::group_string_axioms;

/// `pat` occurs in `s` starting at index `i`.
pub open spec fn occurs_at(s: Seq<char>, pat: Seq<char>, i: int) -> bool {
    &&& 0 <= i
    &&& i + pat.len() <= s.len()
    &&& s.subrange(i, i + pat.len()) == pat
}

/// The characters of a string slice, in order.
pub fn str_chars(s: &str) -> (v: Vec<char>)
    ensures
        v@ == s@,
{
    let mut v: Vec<char> = Vec::new();
    for c in it: s.chars()
        invariant
            v@ == it.seq().take(it.index()),
    {
        v.push(c);
    }
    v
}


/// `i` is the earliest index at which `pat` occurs in `s`.
pub open spec fn is_first_occurrence(s: Seq<char>, pat: Seq<char>, i: int) -> bool {
    &&& occurs_at(s, pat, i)
    &&& forall|j: int| 0 <= j < i ==> !occurs_at(s, pat, j)
}

/// `i` is the latest index at which `pat` occurs in `s`.
pub open spec fn is_last_occurrence(s: Seq<char>, pat: Seq<char>, i: int) -> bool {
    &&& occurs_at(s, pat, i)
    &&& forall|j: int| i < j ==> !occurs_at(s, pat, j)
}

/// The index of the first occurrence of `pat` in `s`, if any.
pub open spec fn first_index_of(s: Seq<char>, pat: Seq<char>) -> Option<int> {
    if exists|i: int| is_first_occurrence(s, pat, i) {
        Some(choose|i: int| is_first_occurrence(s, pat, i))
    } else {
        None
    }
}

/// The index of the last occurrence of `pat` in `s`, if any.
pub open spec fn last_index_of(s: Seq<char>, pat: Seq<char>) -> Option<int> {
    if exists|i: int| is_last_occurrence(s, pat, i) {
        Some(choose|i: int| is_last_occurrence(s, pat, i))
    } else {
        None
    }
}

/// There is at most one first occurrence.
pub proof fn lemma_first_occurrence_unique(s: Seq<char>, pat: Seq<char>, i: int, j: int)
    requires
        is_first_occurrence(s, pat, i),
        is_first_occurrence(s, pat, j),
    ensures
        i == j,
{
}

/// There is at most one last occurrence.
pub proof fn lemma_last_occurrence_unique(s: Seq<char>, pat: Seq<char>, i: int, j: int)
    requires
        is_last_occurrence(s, pat, i),
        is_last_occurrence(s, pat, j),
    ensures
        i == j,
{
}

/// A first occurrence is what `first_index_of` names.
pub proof fn lemma_first_index_of(s: Seq<char>, pat: Seq<char>, i: int)
    requires
        is_first_occurrence(s, pat, i),
    ensures
        first_index_of(s, pat) == Some(i),
{
    let k = choose|k: int| is_first_occurrence(s, pat, k);
    lemma_first_occurrence_unique(s, pat, i, k);
}

/// A last occurrence is what `last_index_of` names.
pub proof fn lemma_last_index_of(s: Seq<char>, pat: Seq<char>, i: int)
    requires
        is_last_occurrence(s, pat, i),
    ensures
        last_index_of(s, pat) == Some(i),
{
    let k = choose|k: int| is_last_occurrence(s, pat, k);
    lemma_last_occurrence_unique(s, pat, i, k);
}

/// Wherever `pat` occurs, it has a first occurrence.
pub proof fn lemma_first_occurrence_exists(s: Seq<char>, pat: Seq<char>, i: int)
    requires
        occurs_at(s, pat, i),
    ensures
        exists|k: int| k <= i && is_first_occurrence(s, pat, k),
    decreases i,
{
    if exists|j: int| 0 <= j < i && occurs_at(s, pat, j) {
        let j = choose|j: int| 0 <= j < i && occurs_at(s, pat, j);
        lemma_first_occurrence_exists(s, pat, j);
    } else {
        assert(is_first_occurrence(s, pat, i));
    }
}

/// Wherever `pat` occurs, it has a last occurrence.
pub proof fn lemma_last_occurrence_exists(s: Seq<char>, pat: Seq<char>, i: int)
    requires
        occurs_at(s, pat, i),
    ensures
        exists|k: int| i <= k && is_last_occurrence(s, pat, k),
    decreases s.len() - i,
{
    if exists|j: int| i < j && occurs_at(s, pat, j) {
        let j = choose|j: int| i < j && occurs_at(s, pat, j);
        lemma_last_occurrence_exists(s, pat, j);
    } else {
        assert(is_last_occurrence(s, pat, i));
    }
}

/// Whether `pat` occurs in `s` at index `i`, for an index where it fits.
fn matches_at(s: &Vec<char>, pat: &Vec<char>, i: usize) -> (r: bool)
    requires
        i + pat@.len() <= s@.len(),
    ensures
        r == occurs_at(s@, pat@, i as int),
{
    let n = pat.len();
    let len = s.len();
    let mut k: usize = 0;
    while k < n
        invariant
            n == pat@.len(),
            len == s@.len(),
            i + n <= len,
            k <= n,
            forall|m: int| 0 <= m < k ==> s@[i + m] == pat@[m],
        decreases n - k,
    {
        if s[i + k] != pat[k] {
            assert(s@.subrange(i as int, i + n)[k as int] != pat@[k as int]);
            return false;
        }
        k = k + 1;
    }
    assert(s@.subrange(i as int, i + n) =~= pat@);
    true
}

/// The first index at which `pat` occurs in `s`, or `None`.
pub fn find_first(s: &Vec<char>, pat: &Vec<char>) -> (r: Option<usize>)
    ensures
        match r {
            Some(i) => is_first_occurrence(s@, pat@, i as int),
            None => forall|j: int| !occurs_at(s@, pat@, j),
        },
{
    let n = s.len();
    let m = pat.len();
    if m > n {
        return None;
    }
    if m == 0 {
        assert(s@.subrange(0, 0) =~= pat@);
        return Some(0);
    }
    let mut i: usize = 0;
    while i <= n - m
        invariant
            n == s@.len(),
            m == pat@.len(),
            0 < m <= n,
            i <= n - m + 1,
            forall|j: int| 0 <= j < i ==> !occurs_at(s@, pat@, j),
        decreases n - m + 1 - i,
    {
        if matches_at(s, pat, i) {
            return Some(i);
        }
        i = i + 1;
    }
    None
}

/// The last index at which `pat` occurs in `s`, or `None`.
pub fn find_last(s: &Vec<char>, pat: &Vec<char>) -> (r: Option<usize>)
    ensures
        match r {
            Some(i) => is_last_occurrence(s@, pat@, i as int),
            None => forall|j: int| !occurs_at(s@, pat@, j),
        },
{
    let n = s.len();
    let m = pat.len();
    if m > n {
        return None;
    }
    if m == 0 {
        assert(s@.subrange(n as int, n as int) =~= pat@);
        return Some(n);
    }
    let mut i: usize = n - m + 1;
    while i > 0
        invariant
            n == s@.len(),
            m == pat@.len(),
            0 < m <= n,
            i <= n - m + 1,
            forall|j: int| i <= j ==> !occurs_at(s@, pat@, j),
        decreases i,
    {
        if matches_at(s, pat, i - 1) {
            return Some(i - 1);
        }
        i = i - 1;
    }
    None
}


/// The decimal digit character for `d` (`0 <= d < 10`).
pub open spec fn digit_char(d: int) -> char {
    seq!['0', '1', '2', '3', '4', '5', '6', '7', '8', '9'][d]
}

/// The decimal numeral of `n`, without sign or leading zeros.
pub open spec fn decimal_digits(n: nat) -> Seq<char>
    decreases n,
{
    if n < 10 {
        seq![digit_char(n as int)]
    } else {
        decimal_digits(n / 10).push(digit_char((n % 10) as int))
    }
}

/// The one-character string of the digit `d`.
fn digit_str(d: u64) -> (r: &'static str)
    requires
        d < 10,
    ensures
        r@ == seq![digit_char(d as int)],
{
    let digits = "0123456789";
    proof {
        reveal_strlit("0123456789");
    }
    let r = digits.substring_char(d as usize, (d + 1) as usize);
    assert(r@ =~= seq![digit_char(d as int)]);
    r
}

/// `n` written in decimal, as `Display` writes an unsigned integer.
pub fn decimal_text(n: u64) -> (r: String)
    ensures
        r@ == decimal_digits(n as nat),
    decreases n,
{
    if n < 10 {
        String::from_str(digit_str(n))
    } else {
        let mut r = decimal_text(n / 10);
        r.append(digit_str(n % 10));
        r
    }
}

/// `c` is an ASCII decimal digit.
pub open spec fn is_digit(c: char) -> bool {
    '0' <= c <= '9'
}

/// The value of the decimal digit `c`.
pub open spec fn digit_value(c: char) -> int {
    (c as int) - ('0' as int)
}

/// The value of a string of decimal digits (most significant first).
pub open spec fn decimal_value(s: Seq<char>) -> nat
    decreases s.len(),
{
    if s.len() == 0 {
        0
    } else {
        (decimal_value(s.drop_last()) * 10 + digit_value(s.last())) as nat
    }
}

/// `s` without its leading `+`, if it has one.
pub open spec fn unsigned_digits(s: Seq<char>) -> Seq<char> {
    if s.len() > 0 && s[0] == '+' {
        s.drop_first()
    } else {
        s
    }
}

/// Every character of `s` is a decimal digit.
pub open spec fn all_digits(s: Seq<char>) -> bool {
    forall|i: int| 0 <= i < s.len() ==> is_digit(#[trigger] s[i])
}

/// What `str::parse::<u64>` makes of `s`: an optional leading `+`, then one
/// or more decimal digits whose value fits in a `u64`; anything else fails.
pub open spec fn parsed_u64(s: Seq<char>) -> Option<u64> {
    let digits = unsigned_digits(s);
    if digits.len() > 0 && all_digits(digits) && decimal_value(digits) <= u64::MAX {
        Some(decimal_value(digits) as u64)
    } else {
        None
    }
}

/// Parses `s` as an unsigned decimal `u64`, with the rules of
/// `str::parse::<u64>`.
pub fn parse_u64(s: &str) -> (r: Option<u64>)
    ensures
        r == parsed_u64(s@),
{
    let chars = str_chars(s);
    let n = chars.len();
    let mut i: usize = 0;
    if n > 0 && chars[0] == '+' {
        i = 1;
    }
    let ghost digits = unsigned_digits(s@);
    assert(digits =~= chars@.subrange(i as int, n as int));
    if i >= n {
        return None;
    }
    let start = i;
    let mut value: u64 = 0;
    while i < n
        invariant
            n == chars@.len(),
            chars@ == s@,
            start <= i <= n,
            start < n,
            digits == unsigned_digits(s@),
            digits =~= chars@.subrange(start as int, n as int),
            forall|k: int| start <= k < i ==> is_digit(#[trigger] chars@[k]),
            value == decimal_value(chars@.subrange(start as int, i as int)),
        decreases n - i,
    {
        let c = chars[i];
        if !('0' <= c && c <= '9') {
            assert(digits[i - start] == c);
            assert(!is_digit(digits[i - start]));
            assert(!all_digits(digits));
            return None;
        }
        let d = (c as u64) - ('0' as u64);
        assert(chars@.subrange(start as int, i + 1).drop_last() =~= chars@.subrange(
            start as int,
            i as int,
        ));
        assert(is_digit(c));
        assert(decimal_value(chars@.subrange(start as int, i + 1)) == value * 10 + d);
        if value > (u64::MAX - d) / 10 {
            assert(value * 10 + d > u64::MAX) by (nonlinear_arith)
                requires
                    value > (u64::MAX - d) / 10,
                    d <= 9,
            ;
            proof {
                if all_digits(digits) {
                    lemma_decimal_value_monotone(digits, (i + 1 - start) as int);
                    assert(digits.subrange(0, (i + 1 - start) as int) =~= chars@.subrange(
                        start as int,
                        i + 1,
                    ));
                }
            }
            return None;
        }
        assert(value * 10 + d <= u64::MAX) by (nonlinear_arith)
            requires
                value <= (u64::MAX - d) / 10,
                d <= 9,
        ;
        value = value * 10 + d;
        i = i + 1;
    }
    assert(chars@.subrange(start as int, n as int) =~= digits);
    Some(value)
}

/// Each digit character is an ASCII digit with its own value.
pub(crate) proof fn lemma_digit_char(d: int)
    requires
        0 <= d < 10,
    ensures
        is_digit(digit_char(d)),
        digit_value(digit_char(d)) == d,
{
    let t = seq!['0', '1', '2', '3', '4', '5', '6', '7', '8', '9'];
    assert(t[0] == '0' && t[1] == '1' && t[2] == '2' && t[3] == '3' && t[4] == '4');
    assert(t[5] == '5' && t[6] == '6' && t[7] == '7' && t[8] == '8' && t[9] == '9');
}

/// The numeral of `n` is a non-empty digit string whose value is `n`.
proof fn lemma_decimal_digits_value(n: nat)
    ensures
        decimal_digits(n).len() > 0,
        all_digits(decimal_digits(n)),
        decimal_value(decimal_digits(n)) == n,
    decreases n,
{
    if n < 10 {
        lemma_digit_char(n as int);
        assert(decimal_digits(n).drop_last() =~= Seq::<char>::empty());
        assert(decimal_value(Seq::<char>::empty()) == 0);
    } else {
        lemma_decimal_digits_value(n / 10);
        lemma_digit_char((n % 10) as int);
        let s = decimal_digits(n);
        assert(s.drop_last() =~= decimal_digits(n / 10));
        assert(s.last() == digit_char((n % 10) as int));
        assert((n / 10) * 10 + n % 10 == n) by (nonlinear_arith);
        assert forall|i: int| 0 <= i < s.len() implies is_digit(#[trigger] s[i]) by {
            if i < s.len() - 1 {
                assert(s[i] == decimal_digits(n / 10)[i]);
            }
        }
    }
}

/// Law: parsing reads back what `decimal_text` writes: the numeral of any
/// `u64`, with or without a leading `+`, parses to that number.
pub proof fn lemma_decimal_round_trip(n: u64)
    ensures
        parsed_u64(decimal_digits(n as nat)) == Some(n),
        parsed_u64(seq!['+'] + decimal_digits(n as nat)) == Some(n),
{
    let s = decimal_digits(n as nat);
    lemma_decimal_digits_value(n as nat);
    assert(is_digit(s[0]));
    assert(unsigned_digits(s) == s);
    assert((seq!['+'] + s)[0] == '+');
    assert((seq!['+'] + s).drop_first() =~= s);
}

/// Law: parsing fails on the empty string, on a lone `+`, and on any
/// string with a character other than a decimal digit after its optional
/// leading `+`.
pub proof fn lemma_parse_rejects_non_digits(s: Seq<char>, i: int)
    requires
        0 <= i < s.len(),
        !is_digit(s[i]),
        i > 0 || s[0] != '+',
    ensures
        parsed_u64(s) is None,
        parsed_u64(Seq::<char>::empty()) is None,
        parsed_u64(seq!['+']) is None,
{
    let d = unsigned_digits(s);
    if s.len() > 0 && s[0] == '+' {
        assert(d[i - 1] == s[i]);
    } else {
        assert(d[i] == s[i]);
    }
    assert(seq!['+'].drop_first() =~= Seq::<char>::empty());
}

/// The value of a digit string is at least that of any of its prefixes.
proof fn lemma_decimal_value_monotone(s: Seq<char>, k: int)
    requires
        0 <= k <= s.len(),
        all_digits(s),
    ensures
        decimal_value(s.subrange(0, k)) <= decimal_value(s),
    decreases s.len(),
{
    if k < s.len() {
        lemma_decimal_value_monotone(s.drop_last(), k);
        assert(s.drop_last().subrange(0, k) =~= s.subrange(0, k));
    } else {
        assert(s.subrange(0, k) =~= s);
    }
}


/// `s` with every trailing `c` removed.
pub open spec fn trim_trailing(s: Seq<char>, c: char) -> Seq<char>
    decreases s.len(),
{
    if s.len() > 0 && s.last() == c {
        trim_trailing(s.drop_last(), c)
    } else {
        s
    }
}

/// `trim_trailing` keeps a prefix: everything after it is `c`.
proof fn lemma_trim_trailing_prefix(s: Seq<char>, c: char, k: int)
    requires
        0 <= k <= s.len(),
        forall|j: int| k <= j < s.len() ==> s[j] == c,
        k == 0 || s[k - 1] != c,
    ensures
        trim_trailing(s, c) == s.subrange(0, k),
    decreases s.len(),
{
    if s.len() > k {
        lemma_trim_trailing_prefix(s.drop_last(), c, k);
        assert(s.drop_last().subrange(0, k) =~= s.subrange(0, k));
    } else {
        assert(s.subrange(0, k) =~= s);
    }
}

/// `s` with all trailing slashes removed, as `str::trim_end_matches('/')`
/// does it, copied into a new string.
pub fn trim_trailing_slashes(s: &str) -> (r: String)
    ensures
        r@ == trim_trailing(s@, '/'),
{
    let chars = str_chars(s);
    let mut k: usize = chars.len();
    while k > 0 && chars[k - 1] == '/'
        invariant
            chars@ == s@,
            k <= chars@.len(),
            forall|j: int| k <= j < chars@.len() ==> chars@[j] == '/',
        decreases k,
    {
        k = k - 1;
    }
    proof {
        lemma_trim_trailing_prefix(s@, '/', k as int);
    }
    String::from_str(s.substring_char(0, k))
}

/// Whether two strings hold the same characters.
pub fn str_equal(a: &str, b: &str) -> (r: bool)
    ensures
        r == (a@ == b@),
{
    let x = str_chars(a);
    let y = str_chars(b);
    if x.len() != y.len() {
        return false;
    }
    let n = x.len();
    let mut i: usize = 0;
    while i < n
        invariant
            n == x@.len(),
            n == y@.len(),
            x@ == a@,
            y@ == b@,
            i <= n,
            forall|j: int| 0 <= j < i ==> x@[j] == y@[j],
        decreases n - i,
    {
        if x[i] != y[i] {
            assert(x@[i as int] != y@[i as int]);
            return false;
        }
        i = i + 1;
    }
    assert(x@ =~= y@);
    true
}


/// What `Debug` writes for a string: the text quoted, with escapes.
pub uninterp spec fn debug_quoted(s: Seq<char>) -> Seq<char>;

/// Formats `s` with `Debug` (`format!("{:?}", s)`). Claimed: the text is
/// `debug_quoted` of the characters of `s`, a function of them alone; and,
/// as `str`'s `Debug` escapes only double quotes, backslashes and
/// non-printable characters, a string of printable ASCII without `"` or `\`
/// is written between double quotes unchanged.
#[verifier::external_body]
pub(crate) fn debug_text(s: &str) -> (r: String)
    ensures
        r@ == debug_quoted(s@),
        (forall|i: int|
            0 <= i < s@.len() ==> ' ' <= #[trigger] s@[i] <= '~' && s@[i] != '"' && s@[i]
                != '\\') ==> r@ == seq!['"'] + s@ + seq!['"'],
{
    format!("{:?}", s)
}

} // verus!
