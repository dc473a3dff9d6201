//! Character-level model of the wire text and the verified scanning
//! primitives that the field and command parsers share.
//!
//! Every operation is specified over `Seq<char>` views.  The protocol text is
//! plain ASCII, but nothing here assumes it: the executable functions walk
//! characters, so their contracts hold for arbitrary input strings.

use vstd::prelude::*;

verus! {

// ---------------------------------------------------------------------------
// Character classes
// ---------------------------------------------------------------------------

/// A decimal digit `'0'..='9'`.
pub open spec fn is_dec_digit(c: char) -> bool {
    48 <= c as int && c as int <= 57
}

/// An uppercase ASCII letter `'A'..='Z'`.
pub open spec fn is_ascii_uppercase(c: char) -> bool {
    65 <= c as int && c as int <= 90
}

/// A lowercase ASCII letter `'a'..='z'`.
pub open spec fn is_ascii_lowercase(c: char) -> bool {
    97 <= c as int && c as int <= 122
}

/// The delimiter class a numeric field scans backwards for: the character
/// that separates this field's decimal digits from whatever precedes them.
#[derive(Clone, Copy, Debug)]
pub enum DelimiterKind {
    /// An uppercase ASCII letter.
    Uppercase,
    /// An uppercase ASCII letter or `'%'`.
    UppercaseOrPercent,
    /// An uppercase or lowercase ASCII letter.
    Letter,
}

/// Whether `c` belongs to the delimiter class `kind`.
pub open spec fn is_delimiter(kind: DelimiterKind, c: char) -> bool {
    match kind {
        DelimiterKind::Uppercase => is_ascii_uppercase(c),
        DelimiterKind::UppercaseOrPercent => is_ascii_uppercase(c) || c == '%',
        DelimiterKind::Letter => is_ascii_uppercase(c) || is_ascii_lowercase(c),
    }
}

/// No decimal digit is a delimiter, in any class.
pub proof fn lemma_digit_not_delimiter(kind: DelimiterKind, c: char)
    requires
        is_dec_digit(c),
    ensures
        !is_delimiter(kind, c),
{
}

// ---------------------------------------------------------------------------
// Searching
// ---------------------------------------------------------------------------

/// The first index `>= i` at which `c` occurs in `s`, if any.
pub open spec fn find_char_from(s: Seq<char>, c: char, i: int) -> Option<int>
    decreases s.len() - i,
{
    if i < 0 || i >= s.len() {
        None
    } else if s[i] == c {
        Some(i)
    } else {
        find_char_from(s, c, i + 1)
    }
}

/// The first index at which `c` occurs in `s`, if any.
pub open spec fn find_char(s: Seq<char>, c: char) -> Option<int> {
    find_char_from(s, c, 0)
}

/// The last index `< end` at which a `kind` delimiter occurs in `s`, if any.
pub open spec fn rfind_delimiter_before(s: Seq<char>, kind: DelimiterKind, end: int) -> Option<
    int,
>
    decreases end,
{
    if end <= 0 || end > s.len() {
        None
    } else if is_delimiter(kind, s[end - 1]) {
        Some(end - 1)
    } else {
        rfind_delimiter_before(s, kind, end - 1)
    }
}

/// `t` occurs in `s` starting at index `i`.
pub open spec fn match_at(s: Seq<char>, t: Seq<char>, i: int) -> bool {
    &&& 0 <= i
    &&& i + t.len() <= s.len()
    &&& forall|j: int| 0 <= j < t.len() ==> s[i + j] == t[j]
}

/// `t` occurs somewhere in `s` (substring containment).
pub open spec fn contains_seq(s: Seq<char>, t: Seq<char>) -> bool {
    exists|i: int| match_at(s, t, i)
}

/// The first index `>= i` at which `t` occurs in `s`, if any.
pub open spec fn find_sub_from(s: Seq<char>, t: Seq<char>, i: int) -> Option<int>
    decreases s.len() - i,
{
    if i < 0 || i + t.len() > s.len() {
        None
    } else if match_at(s, t, i) {
        Some(i)
    } else {
        find_sub_from(s, t, i + 1)
    }
}

/// The first index at which `t` occurs in `s`, if any.
pub open spec fn find_sub(s: Seq<char>, t: Seq<char>) -> Option<int> {
    find_sub_from(s, t, 0)
}

// ---------------------------------------------------------------------------
// Decimal numerals
// ---------------------------------------------------------------------------

/// The digit character for `d` (`0 <= d <= 9`).
pub open spec fn char_of_digit(d: int) -> char {
    if d == 0 {
        '0'
    } else if d == 1 {
        '1'
    } else if d == 2 {
        '2'
    } else if d == 3 {
        '3'
    } else if d == 4 {
        '4'
    } else if d == 5 {
        '5'
    } else if d == 6 {
        '6'
    } else if d == 7 {
        '7'
    } else if d == 8 {
        '8'
    } else {
        '9'
    }
}

/// The numeric value of a digit character.
pub open spec fn digit_val(c: char) -> nat {
    (c as int - 48) as nat
}

/// The canonical decimal numeral for `n`: no sign, no leading zeros beyond
/// the natural representation.
pub open spec fn dec_digits(n: nat) -> Seq<char>
    decreases n,
{
    if n < 10 {
        seq![char_of_digit(n as int)]
    } else {
        dec_digits(n / 10).push(char_of_digit((n % 10) as int))
    }
}

/// Every character of `s` is a decimal digit.
pub open spec fn all_dec_digits(s: Seq<char>) -> bool {
    forall|i: int| 0 <= i < s.len() ==> is_dec_digit(s[i])
}

/// The value of a sequence of decimal digits, most significant first.
pub open spec fn dec_val(s: Seq<char>) -> nat
    decreases s.len(),
{
    if s.len() == 0 {
        0
    } else {
        dec_val(s.drop_last()) * 10 + digit_val(s.last())
    }
}

/// The value an unsigned decimal parse of `s` yields: the digits' value when
/// `s` is one or more digits, optionally preceded by a single `'+'`, and
/// nothing otherwise.
pub open spec fn parse_uint(s: Seq<char>) -> Option<nat> {
    if s.len() > 0 && s[0] == '+' {
        if s.len() > 1 && all_dec_digits(s.skip(1)) {
            Some(dec_val(s.skip(1)))
        } else {
            None
        }
    } else if s.len() > 0 && all_dec_digits(s) {
        Some(dec_val(s))
    } else {
        None
    }
}

// ---------------------------------------------------------------------------
// The numeric field convention: digits terminated by a suffix character,
// delimited on the left by the nearest delimiter character.
// ---------------------------------------------------------------------------

/// Where the digit run of a numeric field starts: one past the last `kind`
/// delimiter before `end`, or the beginning of the fragment.
pub open spec fn number_start(s: Seq<char>, kind: DelimiterKind, end: int) -> int {
    match rfind_delimiter_before(s, kind, end) {
        Some(i) => i + 1,
        None => 0,
    }
}

/// The candidate digit run of a numeric field inside `s`: everything between
/// the nearest `kind` delimiter and the first occurrence of `suffix`.
pub open spec fn scan_number(s: Seq<char>, suffix: char, kind: DelimiterKind) -> Option<
    Seq<char>,
> {
    match find_char(s, suffix) {
        Some(pos) => Some(s.subrange(number_start(s, kind, pos), pos)),
        None => None,
    }
}

/// The complete decode of a numeric field from a fragment: scan for the
/// digit run, parse it, and accept the value iff it lies in `[min, max]`.
pub open spec fn parse_bounded(
    s: Seq<char>,
    suffix: char,
    kind: DelimiterKind,
    min: nat,
    max: nat,
) -> Option<nat> {
    match scan_number(s, suffix, kind) {
        Some(digits) => match parse_uint(digits) {
            Some(n) => if min <= n && n <= max {
                Some(n)
            } else {
                None
            },
            None => None,
        },
        None => None,
    }
}

// ---------------------------------------------------------------------------
// Executable scanning primitives
// ---------------------------------------------------------------------------

/// Whether `c` belongs to the delimiter class `kind` (executable form).
pub fn delimiter_matches(kind: DelimiterKind, c: char) -> (r: bool)
    ensures
        r == is_delimiter(kind, c),
{
    let u = c as u32;
    match kind {
        DelimiterKind::Uppercase => 65 <= u && u <= 90,
        DelimiterKind::UppercaseOrPercent => (65 <= u && u <= 90) || u == 37,
        DelimiterKind::Letter => (65 <= u && u <= 90) || (97 <= u && u <= 122),
    }
}

/// The first occurrence of the character `c` in `s`.
pub fn str_find_char(s: &str, c: char) -> (r: Option<usize>)
    ensures
        match r {
            Some(i) => i < s@.len() && find_char(s@, c) == Some(i as int),
            None => find_char(s@, c) is None,
        },
{
    let n = s.unicode_len();
    let mut j: usize = 0;
    while j < n
        invariant
            j <= n,
            n == s@.len(),
            find_char(s@, c) == find_char_from(s@, c, j as int),
        decreases n - j,
    {
        if s.get_char(j) == c {
            return Some(j);
        }
        j += 1;
    }
    None
}

/// The last occurrence of a `kind` delimiter in `s` before index `end`.
pub fn str_rfind_delimiter(s: &str, kind: DelimiterKind, end: usize) -> (r: Option<usize>)
    requires
        end <= s@.len(),
    ensures
        match r {
            Some(i) => i < end && rfind_delimiter_before(s@, kind, end as int) == Some(i as int),
            None => rfind_delimiter_before(s@, kind, end as int) is None,
        },
{
    let mut j: usize = end;
    while j > 0
        invariant
            j <= end <= s@.len(),
            rfind_delimiter_before(s@, kind, end as int) == rfind_delimiter_before(
                s@,
                kind,
                j as int,
            ),
        decreases j,
    {
        if delimiter_matches(kind, s.get_char(j - 1)) {
            return Some(j - 1);
        }
        j -= 1;
    }
    None
}

/// Whether `t` occurs in `s` starting at index `i`.
fn str_match_at(s: &str, t: &str, i: usize) -> (r: bool)
    requires
        i + t@.len() <= s@.len(),
    ensures
        r == match_at(s@, t@, i as int),
{
    let n = s.unicode_len();
    let m = t.unicode_len();
    let mut j: usize = 0;
    while j < m
        invariant
            j <= m,
            n == s@.len(),
            m == t@.len(),
            i + m <= n,
            forall|k: int| 0 <= k < j ==> s@[i + k] == t@[k],
        decreases m - j,
    {
        if s.get_char(i + j) != t.get_char(j) {
            return false;
        }
        j += 1;
    }
    true
}

/// Whether `s` starts with `t`.
pub fn str_starts_with(s: &str, t: &str) -> (r: bool)
    ensures
        r == match_at(s@, t@, 0),
{
    let n = s.unicode_len();
    let m = t.unicode_len();
    if m > n {
        return false;
    }
    str_match_at(s, t, 0)
}

/// Whether `s` contains `t` as a substring.
pub fn str_contains(s: &str, t: &str) -> (r: bool)
    ensures
        r == contains_seq(s@, t@),
{
    match str_find_sub(s, t) {
        Some(i) => {
            proof {
                lemma_find_sub_char(s@, t@);
            }
            true
        },
        None => {
            proof {
                lemma_find_sub_char(s@, t@);
            }
            false
        },
    }
}

/// The first occurrence of the substring `t` in `s`.
pub fn str_find_sub(s: &str, t: &str) -> (r: Option<usize>)
    ensures
        match r {
            Some(i) => i + t@.len() <= s@.len() && find_sub(s@, t@) == Some(i as int),
            None => find_sub(s@, t@) is None,
        },
{
    let n = s.unicode_len();
    let m = t.unicode_len();
    if m > n {
        return None;
    }
    let mut j: usize = 0;
    while j <= n - m
        invariant
            m <= n,
            n == s@.len(),
            m == t@.len(),
            j <= n - m + 1,
            find_sub(s@, t@) == find_sub_from(s@, t@, j as int),
        decreases n - j,
    {
        if str_match_at(s, t, j) {
            return Some(j);
        }
        j += 1;
    }
    None
}

/// `find_sub` succeeds exactly when the substring occurs somewhere.
pub proof fn lemma_find_sub_char(s: Seq<char>, t: Seq<char>)
    ensures
        find_sub(s, t) is Some <==> contains_seq(s, t),
        find_sub(s, t) is Some ==> match_at(s, t, find_sub(s, t)->Some_0),
{
    lemma_find_sub_from_char(s, t, 0);
}

proof fn lemma_find_sub_from_char(s: Seq<char>, t: Seq<char>, i: int)
    requires
        0 <= i,
        forall|k: int| 0 <= k < i ==> !match_at(s, t, k),
    ensures
        find_sub_from(s, t, i) is Some <==> contains_seq(s, t),
        find_sub_from(s, t, i) is Some ==> match_at(s, t, find_sub_from(s, t, i)->Some_0),
    decreases s.len() - i,
{
    if i + t.len() > s.len() {
        assert forall|k: int| !match_at(s, t, k) by {
            if k >= i {
                assert(!match_at(s, t, k));
            }
        }
    } else if match_at(s, t, i) {
    } else {
        lemma_find_sub_from_char(s, t, i + 1);
    }
}

/// Parse the character range `[from, to)` of `s` as an unsigned decimal
/// number, rejecting values above `cap`.
pub fn parse_u32_in(s: &str, from: usize, to: usize, cap: u32) -> (r: Option<u32>)
    requires
        from <= to <= s@.len(),
    ensures
        match parse_uint(s@.subrange(from as int, to as int)) {
            Some(n) => r == if n <= cap {
                Some(n as u32)
            } else {
                None::<u32>
            },
            None => r is None,
        },
{
    let ghost whole = s@.subrange(from as int, to as int);
    if from == to {
        return None;
    }
    // An optional single leading '+' is accepted, as an unsigned decimal
    // parse admits one.
    let digit_start: usize = if s.get_char(from) == '+' {
        from + 1
    } else {
        from
    };
    if digit_start == to {
        return None;
    }
    proof {
        if whole[0] == '+' {
            assert(whole.skip(1) =~= s@.subrange(digit_start as int, to as int));
        } else {
            assert(whole =~= s@.subrange(digit_start as int, to as int));
        }
    }
    let ghost digits = s@.subrange(digit_start as int, to as int);
    let mut acc: u64 = 0;
    let cap64 = cap as u64;
    let mut j: usize = digit_start;
    while j < to
        invariant
            from <= digit_start <= j <= to <= s@.len(),
            whole == s@.subrange(from as int, to as int),
            whole.len() > 0,
            digit_start == if whole[0] == '+' {
                from + 1
            } else {
                from as int
            },
            whole[0] == '+' ==> digits == whole.skip(1),
            whole[0] != '+' ==> digits == whole,
            digits == s@.subrange(digit_start as int, to as int),
            digits.len() > 0,
            acc <= cap64,
            cap64 == cap,
            all_dec_digits(s@.subrange(digit_start as int, j as int)),
            acc == dec_val(s@.subrange(digit_start as int, j as int)),
        decreases to - j,
    {
        let c = s.get_char(j);
        let u = c as u32;
        if u < 48 || u > 57 {
            proof {
                assert(!is_dec_digit(digits[j - digit_start]));
                assert(!all_dec_digits(digits));
            }
            return None;
        }
        let d = (u - 48) as u64;
        proof {
            let pre = s@.subrange(digit_start as int, j as int);
            let ext = s@.subrange(digit_start as int, j + 1 as int);
            assert(ext =~= pre.push(s@[j as int]));
            assert(ext.drop_last() =~= pre);
        }
        acc = acc * 10 + d;
        if acc > cap64 {
            proof {
                let done = s@.subrange(digit_start as int, j + 1 as int);
                assert(dec_val(done) == acc);
                if all_dec_digits(digits) {
                    assert(done =~= digits.subrange(0, j + 1 - digit_start));
                    lemma_dec_val_prefix_le(digits, (j + 1 - digit_start) as int);
                    assert(dec_val(digits) >= dec_val(done));
                }
                assert(match parse_uint(whole) {
                    Some(n) => n > cap,
                    None => true,
                });
            }
            return None;
        }
        j += 1;
    }
    Some(acc as u32)
}

/// The value of a digit-sequence prefix never exceeds the whole.
pub proof fn lemma_dec_val_prefix_le(s: Seq<char>, k: int)
    requires
        0 <= k <= s.len(),
    ensures
        dec_val(s) >= dec_val(s.subrange(0, k)),
    decreases s.len(),
{
    if k == s.len() {
        assert(s.subrange(0, k) =~= s);
    } else {
        let s0 = s.drop_last();
        lemma_dec_val_prefix_le(s0, k);
        assert(s0.subrange(0, k) =~= s.subrange(0, k));
    }
}

/// The one-character string for digit `d`.
fn digit_str(d: u32) -> (r: &'static str)
    requires
        d < 10,
    ensures
        r@ == seq![char_of_digit(d as int)],
{
    proof {
        reveal_strlit("0");
        reveal_strlit("1");
        reveal_strlit("2");
        reveal_strlit("3");
        reveal_strlit("4");
        reveal_strlit("5");
        reveal_strlit("6");
        reveal_strlit("7");
        reveal_strlit("8");
        reveal_strlit("9");
    }
    let r = match d {
        0 => "0",
        1 => "1",
        2 => "2",
        3 => "3",
        4 => "4",
        5 => "5",
        6 => "6",
        7 => "7",
        8 => "8",
        _ => "9",
    };
    proof {
        assert(r@ =~= seq![char_of_digit(d as int)]);
    }
    r
}

/// Render `n` as its canonical decimal numeral.
pub fn render_u32(n: u32) -> (r: String)
    ensures
        r@ == dec_digits(n as nat),
    decreases n,
{
    if n < 10 {
        String::from_str(digit_str(n))
    } else {
        let mut front = render_u32(n / 10);
        front.append(digit_str(n % 10));
        proof {
            assert(front@ =~= dec_digits(n as nat));
        }
        front
    }
}

/// Scan a fragment for a numeric field: find the first `suffix`, scan
/// backwards for the nearest `kind` delimiter, and parse the digits between,
/// rejecting values above `cap`.
pub fn scan_u32(val: &str, suffix: char, kind: DelimiterKind, cap: u32) -> (r: Option<u32>)
    ensures
        match scan_number(val@, suffix, kind) {
            Some(digits) => match parse_uint(digits) {
                Some(n) => r == if n <= cap {
                    Some(n as u32)
                } else {
                    None::<u32>
                },
                None => r is None,
            },
            None => r is None,
        },
{
    match str_find_char(val, suffix) {
        Some(pos) => {
            let start = match str_rfind_delimiter(val, kind, pos) {
                Some(i) => i + 1,
                None => 0,
            };
            parse_u32_in(val, start, pos, cap)
        },
        None => None,
    }
}

// ---------------------------------------------------------------------------
// Lemmas relating rendering and scanning
// ---------------------------------------------------------------------------

/// The canonical numeral is nonempty and consists of digits only.
pub proof fn lemma_dec_digits_shape(n: nat)
    ensures
        dec_digits(n).len() >= 1,
        all_dec_digits(dec_digits(n)),
    decreases n,
{
    if n >= 10 {
        lemma_dec_digits_shape(n / 10);
    }
}

/// The canonical numeral of `n` evaluates back to `n`.
pub proof fn lemma_dec_val_of_dec_digits(n: nat)
    ensures
        dec_val(dec_digits(n)) == n,
    decreases n,
{
    if n < 10 {
        assert(dec_digits(n).drop_last() =~= Seq::<char>::empty());
        assert(dec_val(Seq::<char>::empty()) == 0);
        assert(dec_val(dec_digits(n)) == 0 * 10 + digit_val(char_of_digit(n as int)));
    } else {
        lemma_dec_val_of_dec_digits(n / 10);
        assert(dec_digits(n).drop_last() =~= dec_digits(n / 10));
        assert(dec_digits(n).last() == char_of_digit((n % 10) as int));
    }
}

/// The canonical numeral is the exact decimal rendering: it never carries a
/// leading zero, except for the single digit of zero itself.
pub proof fn lemma_dec_digits_no_leading_zero(n: nat)
    ensures
        n > 0 ==> dec_digits(n)[0] != '0',
    decreases n,
{
    if n >= 10 {
        lemma_dec_digits_shape(n / 10);
        lemma_dec_digits_no_leading_zero(n / 10);
        assert(dec_digits(n)[0] == dec_digits(n / 10)[0]);
    }
}

/// An unsigned decimal parse of the canonical numeral of `n` yields `n`.
pub proof fn lemma_parse_uint_of_dec_digits(n: nat)
    ensures
        parse_uint(dec_digits(n)) == Some(n),
{
    lemma_dec_digits_shape(n);
    lemma_dec_val_of_dec_digits(n);
    assert(is_dec_digit(dec_digits(n)[0]));
}

/// If `c` occurs at `i` and nowhere earlier, the search finds it there.
pub proof fn lemma_find_char_exact(s: Seq<char>, c: char, i: int)
    requires
        0 <= i < s.len(),
        s[i] == c,
        forall|j: int| 0 <= j < i ==> s[j] != c,
    ensures
        find_char(s, c) == Some(i),
{
    lemma_find_char_from_exact(s, c, 0, i);
}

proof fn lemma_find_char_from_exact(s: Seq<char>, c: char, lo: int, i: int)
    requires
        0 <= lo <= i < s.len(),
        s[i] == c,
        forall|j: int| lo <= j < i ==> s[j] != c,
    ensures
        find_char_from(s, c, lo) == Some(i),
    decreases i - lo,
{
    if lo < i {
        lemma_find_char_from_exact(s, c, lo + 1, i);
    }
}

/// If `c` occurs nowhere in `s`, the search fails.
pub proof fn lemma_find_char_absent(s: Seq<char>, c: char)
    requires
        forall|j: int| 0 <= j < s.len() ==> s[j] != c,
    ensures
        find_char(s, c) is None,
{
    lemma_find_char_from_absent(s, c, 0);
}

proof fn lemma_find_char_from_absent(s: Seq<char>, c: char, lo: int)
    requires
        forall|j: int| lo <= j < s.len() ==> s[j] != c,
    ensures
        find_char_from(s, c, lo) is None,
    decreases s.len() - lo,
{
    if 0 <= lo < s.len() {
        lemma_find_char_from_absent(s, c, lo + 1);
    }
}

/// If no `kind` delimiter occurs before `end`, the backward search fails.
pub proof fn lemma_rfind_delimiter_absent(s: Seq<char>, kind: DelimiterKind, end: int)
    requires
        forall|j: int| 0 <= j < end ==> !is_delimiter(kind, s[j]),
    ensures
        rfind_delimiter_before(s, kind, end) is None,
    decreases end,
{
    if 0 < end <= s.len() {
        lemma_rfind_delimiter_absent(s, kind, end - 1);
    }
}

/// Scanning the rendered numeral-plus-suffix recovers exactly the numeral:
/// the suffix is found right after the digits, and no delimiter interferes.
pub proof fn lemma_scan_of_rendered(n: nat, suffix: char, kind: DelimiterKind)
    requires
        !is_dec_digit(suffix),
    ensures
        scan_number(dec_digits(n) + seq![suffix], suffix, kind) == Some(dec_digits(n)),
{
    let digits = dec_digits(n);
    let s = digits + seq![suffix];
    lemma_dec_digits_shape(n);
    lemma_find_char_exact(s, suffix, digits.len() as int);
    assert forall|j: int| 0 <= j < digits.len() implies !is_delimiter(kind, s[j]) by {
        lemma_digit_not_delimiter(kind, s[j]);
    }
    lemma_rfind_delimiter_absent(s, kind, digits.len() as int);
    assert(s.subrange(0, digits.len() as int) =~= digits);
}

/// Decoding the rendered numeral-plus-suffix of an in-range value yields
/// that value.
pub proof fn lemma_parse_bounded_of_rendered(
    n: nat,
    suffix: char,
    kind: DelimiterKind,
    min: nat,
    max: nat,
)
    requires
        !is_dec_digit(suffix),
        min <= n <= max,
    ensures
        parse_bounded(dec_digits(n) + seq![suffix], suffix, kind, min, max) == Some(n),
{
    lemma_scan_of_rendered(n, suffix, kind);
    lemma_parse_uint_of_dec_digits(n);
}

/// Every character of a rendered numeric field is a digit or its suffix.
pub proof fn lemma_rendered_chars(n: nat, suffix: char)
    ensures
        forall|i: int|
            0 <= i < (dec_digits(n) + seq![suffix]).len() ==> (is_dec_digit(
                (dec_digits(n) + seq![suffix])[i],
            ) || (dec_digits(n) + seq![suffix])[i] == suffix),
{
    lemma_dec_digits_shape(n);
}

// ---------------------------------------------------------------------------
// Lemmas refuting containment
// ---------------------------------------------------------------------------

/// Two same-length sequences that differ at one position: the one is not
/// contained in the other.
pub proof fn lemma_not_contains_same_len(s: Seq<char>, t: Seq<char>, j: int)
    requires
        s.len() == t.len(),
        0 <= j < t.len(),
        s[j] != t[j],
    ensures
        !contains_seq(s, t),
{
    assert forall|i: int| !match_at(s, t, i) by {
        if 0 <= i && i + t.len() <= s.len() {
            assert(i == 0);
            if match_at(s, t, 0) {
                assert(s[0 + j] == t[j]);
            }
        }
    }
}

/// If some character of `t` occurs nowhere in `s`, then `t` is not contained
/// in `s`.
pub proof fn lemma_not_contains_missing_char(s: Seq<char>, t: Seq<char>, k: int)
    requires
        0 <= k < t.len(),
        forall|i: int| 0 <= i < s.len() ==> s[i] != t[k],
    ensures
        !contains_seq(s, t),
{
    assert forall|i: int| !match_at(s, t, i) by {
        if match_at(s, t, i) {
            assert(s[i + k] == t[k]);
        }
    }
}

/// A sequence is contained in itself.
pub proof fn lemma_contains_self(s: Seq<char>)
    ensures
        contains_seq(s, s),
{
    assert(match_at(s, s, 0));
}

/// If `t` occurs at the start of `s`, the substring search finds the first
/// occurrence there.
pub proof fn lemma_find_sub_at_zero(s: Seq<char>, t: Seq<char>)
    requires
        match_at(s, t, 0),
    ensures
        find_sub(s, t) == Some(0int),
{
}

} // verus!
