//! Character-level text handling shared by the bot: turning strings into
//! character vectors and back.

use vstd::prelude::*;

verus! {

/// Appends one character to a `String`.
///
/// Trusted: calls `String::push`, which std documents as appending the
/// character to the end of the string.
#[verifier::external_body]
pub(crate) fn push_char(s: &mut String, c: char)
    ensures
        final(s)@ == old(s)@.push(c),
{
    s.push(c);
}

/// The characters of `s`, in order.
pub fn chars_of(s: &str) -> (v: Vec<char>)
    ensures
        v@ == s@,
{
    let mut v: Vec<char> = Vec::new();
    for c in it: s.chars()
        invariant
            v@ == it.seq().take(it.index() as int),
    {
        v.push(c);
    }
    v
}

/// The string made of the characters of `v`, in order.
pub fn string_from_chars(v: &Vec<char>) -> (s: String)
    ensures
        s@ == v@,
{
    let mut s = String::new();
    let mut i: usize = 0;
    while i < v.len()
        invariant
            i <= v.len(),
            s@ == v@.take(i as int),
        decreases v.len() - i,
    {
        push_char(&mut s, v[i]);
        assert(v@.take(i as int).push(v@[i as int]) =~= v@.take(i + 1));
        i = i + 1;
    }
    assert(v@.take(v.len() as int) =~= v@);
    s
}

} // verus!

verus! {

// ---------------------------------------------------------------------------
// Decimal rendering
// ---------------------------------------------------------------------------

/// The character for a decimal digit `d` (`0 <= d < 10`).
pub open spec fn digit_char(d: int) -> char {
    if d == 0 {
        '0'
    } else if d == 1 {
        '1'
    } else if d == 2 {
        '2'
    } else if d == 3 {
        '3'
    } else if d == 4 {
        '4'
    } else if d == 5 {
        '5'
    } else if d == 6 {
        '6'
    } else if d == 7 {
        '7'
    } else if d == 8 {
        '8'
    } else {
        '9'
    }
}

/// The decimal representation of a natural number, without leading zeros.
pub open spec fn dec_nat(n: nat) -> Seq<char>
    decreases n,
{
    if n < 10 {
        seq![digit_char(n as int)]
    } else {
        dec_nat(n / 10).push(digit_char((n % 10) as int))
    }
}

/// The decimal representation of an integer, with a leading `-` when negative
/// (what Rust's `Display` prints for integers).
pub open spec fn dec_int(i: int) -> Seq<char> {
    if i < 0 {
        seq!['-'] + dec_nat((-i) as nat)
    } else {
        dec_nat(i as nat)
    }
}

fn digit_to_char(d: u64) -> (c: char)
    requires
        d < 10,
    ensures
        c == digit_char(d as int),
{
    match d {
        0 => '0',
        1 => '1',
        2 => '2',
        3 => '3',
        4 => '4',
        5 => '5',
        6 => '6',
        7 => '7',
        8 => '8',
        _ => '9',
    }
}

/// The decimal digits of `n`.
pub fn decimal_digits(n: u64) -> (v: Vec<char>)
    ensures
        v@ == dec_nat(n as nat),
{
    let mut m: u64 = n;
    let mut acc: Vec<char> = Vec::new();
    while m >= 10
        invariant
            dec_nat(n as nat) == dec_nat(m as nat) + acc@,
        decreases m,
    {
        let d = m % 10;
        let c = digit_to_char(d);
        let ghost old_acc = acc@;
        acc.insert(0, c);
        assert(dec_nat(m as nat) == dec_nat((m / 10) as nat).push(c));
        assert(dec_nat((m / 10) as nat).push(c) + old_acc =~= dec_nat((m / 10) as nat) + acc@);
        m = m / 10;
    }
    let ghost old_acc = acc@;
    acc.insert(0, digit_to_char(m));
    assert(acc@ =~= dec_nat(m as nat) + old_acc);
    acc
}

/// `n` written in decimal, as `Display` does for unsigned integers.
pub fn decimal_u64(n: u64) -> (s: String)
    ensures
        s@ == dec_nat(n as nat),
{
    let v = decimal_digits(n);
    string_from_chars(&v)
}

/// `i` written in decimal, as `Display` does for signed integers.
pub fn decimal_i64(i: i64) -> (s: String)
    ensures
        s@ == dec_int(i as int),
{
    if i < 0 {
        let mag: u64 = (0i128 - i as i128) as u64;
        let digits = decimal_digits(mag);
        let mut s = String::new();
        push_char(&mut s, '-');
        let rest = string_from_chars(&digits);
        s.append(rest.as_str());
        assert(s@ =~= dec_int(i as int));
        s
    } else {
        decimal_u64(i as u64)
    }
}

} // verus!

verus! {

// ---------------------------------------------------------------------------
// Integer and boolean parsing (the grammars of `i64::from_str` and
// `bool::from_str`)
// ---------------------------------------------------------------------------

pub open spec fn is_ascii_digit(c: char) -> bool {
    '0' <= c && c <= '9'
}

pub open spec fn all_digits(s: Seq<char>) -> bool {
    forall|i: int| 0 <= i < s.len() ==> #[trigger] is_ascii_digit(s[i])
}

/// The value of a string of decimal digits (leading zeros allowed).
pub open spec fn digits_value(s: Seq<char>) -> int
    decreases s.len(),
{
    if s.len() == 0 {
        0
    } else {
        digits_value(s.drop_last()) * 10 + (s.last() as int - '0' as int)
    }
}

/// What `str::parse::<i64>` accepts: an optional `+` or `-`, then one or more
/// ASCII digits whose value fits in an `i64`.
pub open spec fn spec_parse_i64(s: Seq<char>) -> Option<i64> {
    let signed = s.len() > 0 && (s[0] == '-' || s[0] == '+');
    let body = if signed {
        s.drop_first()
    } else {
        s
    };
    let v = if s.len() > 0 && s[0] == '-' {
        -digits_value(body)
    } else {
        digits_value(body)
    };
    if body.len() == 0 || !all_digits(body) {
        None
    } else if i64::MIN <= v && v <= i64::MAX {
        Some(v as i64)
    } else {
        None
    }
}

/// What `str::parse::<bool>` accepts: exactly `true` or `false`.
pub open spec fn spec_parse_bool(s: Seq<char>) -> Option<bool> {
    if s == "true"@ {
        Some(true)
    } else if s == "false"@ {
        Some(false)
    } else {
        None
    }
}

proof fn lemma_digits_value_nonneg(s: Seq<char>)
    requires
        all_digits(s),
    ensures
        digits_value(s) >= 0,
    decreases s.len(),
{
    if s.len() > 0 {
        assert(all_digits(s.drop_last())) by {
            assert forall|i: int| 0 <= i < s.drop_last().len() implies #[trigger] is_ascii_digit(
                s.drop_last()[i],
            ) by {
                assert(is_ascii_digit(s[i]));
            }
        }
        lemma_digits_value_nonneg(s.drop_last());
        assert(is_ascii_digit(s[s.len() - 1]));
    }
}

/// Saturation bound used while accumulating digits: one more than `2^63`.
const DIGITS_CAP: u64 = 9223372036854775809;

/// Parses `s` as `str::parse::<i64>` does; `None` where it returns an error.
pub fn parse_i64(s: &Vec<char>) -> (r: Option<i64>)
    ensures
        r == spec_parse_i64(s@),
{
    let n = s.len();
    if n == 0 {
        return None;
    }
    let neg = s[0] == '-';
    let start: usize = if s[0] == '-' || s[0] == '+' {
        1
    } else {
        0
    };
    let ghost body = if start == 1 {
        s@.drop_first()
    } else {
        s@
    };
    assert(body =~= s@.subrange(start as int, n as int));
    if start == n {
        return None;
    }
    let mut acc: u64 = 0;
    let mut i: usize = start;
    while i < n
        invariant
            start <= i <= n,
            n == s.len(),
            body == s@.subrange(start as int, n as int),
            0 < n,
            start == 1 <==> (s@[0] == '-' || s@[0] == '+'),
            start <= 1,
            body == (if start == 1 {
                s@.drop_first()
            } else {
                s@
            }),
            all_digits(s@.subrange(start as int, i as int)),
            acc as int == if digits_value(s@.subrange(start as int, i as int)) < DIGITS_CAP {
                digits_value(s@.subrange(start as int, i as int))
            } else {
                DIGITS_CAP as int
            },
        decreases n - i,
    {
        let c = s[i];
        let ghost prev = s@.subrange(start as int, i as int);
        let ghost next = s@.subrange(start as int, i + 1);
        assert(next.drop_last() =~= prev);
        if !(c >= '0' && c <= '9') {
            assert(body[i - start] == c);
            assert(!is_ascii_digit(body[i - start]));
            assert(!all_digits(body));
            return None;
        }
        let d: u64 = (c as u32 - '0' as u32) as u64;
        assert(digits_value(next) == digits_value(prev) * 10 + d);
        proof {
            lemma_digits_value_nonneg(prev);
        }
        let wide: u128 = acc as u128 * 10 + d as u128;
        acc = if wide > DIGITS_CAP as u128 {
            DIGITS_CAP
        } else {
            wide as u64
        };
        assert(all_digits(next)) by {
            assert forall|k: int| 0 <= k < next.len() implies #[trigger] is_ascii_digit(
                next[k],
            ) by {
                if k < prev.len() {
                    assert(next[k] == prev[k]);
                }
            }
        }
        i = i + 1;
    }
    assert(s@.subrange(start as int, n as int) =~= body);
    if neg {
        if acc <= 9223372036854775808 {
            Some((0i128 - acc as i128) as i64)
        } else {
            None
        }
    } else {
        if acc <= 9223372036854775807 {
            Some(acc as i64)
        } else {
            None
        }
    }
}

/// Whether two character vectors hold the same characters.
pub fn chars_equal(a: &Vec<char>, b: &Vec<char>) -> (r: bool)
    ensures
        r == (a@ == b@),
{
    if a.len() != b.len() {
        return false;
    }
    let mut i: usize = 0;
    while i < a.len()
        invariant
            a.len() == b.len(),
            i <= a.len(),
            forall|k: int| 0 <= k < i ==> a@[k] == b@[k],
        decreases a.len() - i,
    {
        if a[i] != b[i] {
            return false;
        }
        i = i + 1;
    }
    assert(a@ =~= b@);
    true
}

/// Parses `s` as `str::parse::<bool>` does; `None` where it returns an error.
pub fn parse_bool(s: &Vec<char>) -> (r: Option<bool>)
    ensures
        r == spec_parse_bool(s@),
{
    let t = chars_of("true");
    let f = chars_of("false");
    if chars_equal(s, &t) {
        Some(true)
    } else if chars_equal(s, &f) {
        Some(false)
    } else {
        None
    }
}

} // verus!

verus! {

// ---------------------------------------------------------------------------
// Whitespace-separated words (`str::split_whitespace`)
// ---------------------------------------------------------------------------

/// The characters with the Unicode `White_Space` property, which is what
/// `char::is_whitespace` tests.
pub open spec fn is_white_space(c: char) -> bool {
    ('\u{9}' <= c && c <= '\u{d}') || c == ' ' || c == '\u{85}' || c == '\u{a0}' || c
        == '\u{1680}' || ('\u{2000}' <= c && c <= '\u{200a}') || c == '\u{2028}' || c
        == '\u{2029}' || c == '\u{202f}' || c == '\u{205f}' || c == '\u{3000}'
}

fn white_space(c: char) -> (r: bool)
    ensures
        r == is_white_space(c),
{
    ('\u{9}' <= c && c <= '\u{d}') || c == ' ' || c == '\u{85}' || c == '\u{a0}' || c
        == '\u{1680}' || ('\u{2000}' <= c && c <= '\u{200a}') || c == '\u{2028}' || c
        == '\u{2029}' || c == '\u{202f}' || c == '\u{205f}' || c == '\u{3000}'
}

/// The word under construction, closed off: no word when it is empty.
pub open spec fn close_word(cur: Seq<char>) -> Seq<Seq<char>> {
    if cur.len() == 0 {
        seq![]
    } else {
        seq![cur]
    }
}

/// The words of `s`, given that `cur` is the part of a word already read.
pub open spec fn words_from(s: Seq<char>, cur: Seq<char>) -> Seq<Seq<char>>
    decreases s.len(),
{
    if s.len() == 0 {
        close_word(cur)
    } else if is_white_space(s[0]) {
        close_word(cur) + words_from(s.drop_first(), seq![])
    } else {
        words_from(s.drop_first(), cur.push(s[0]))
    }
}

/// The maximal runs of non-whitespace characters of `s`, in order: what
/// `str::split_whitespace` yields.
pub open spec fn words(s: Seq<char>) -> Seq<Seq<char>> {
    words_from(s, seq![])
}

/// The view of a vector of character vectors.
pub open spec fn views(v: Seq<Vec<char>>) -> Seq<Seq<char>> {
    v.map_values(|w: Vec<char>| w@)
}

/// Splits `s` into its whitespace-separated words.
pub fn split_words(s: &Vec<char>) -> (r: Vec<Vec<char>>)
    ensures
        views(r@) == words(s@),
{
    let mut out: Vec<Vec<char>> = Vec::new();
    let mut cur: Vec<char> = Vec::new();
    let mut i: usize = 0;
    assert(s@.skip(0) =~= s@);
    while i < s.len()
        invariant
            i <= s.len(),
            words(s@) == views(out@) + words_from(s@.skip(i as int), cur@),
        decreases s.len() - i,
    {
        let c = s[i];
        let ghost rest = s@.skip(i as int);
        assert(rest[0] == c);
        assert(rest.drop_first() =~= s@.skip(i + 1));
        if white_space(c) {
            let ghost before = views(out@);
            let ghost cw = cur@;
            let ghost later = words_from(s@.skip(i + 1), seq![]);
            assert(words_from(rest, cw) == close_word(cw) + later);
            if cur.len() > 0 {
                out.push(cur);
                cur = Vec::new();
            } else {
                cur = Vec::new();
            }
            assert(views(out@) =~= before + close_word(cw));
            assert(before + (close_word(cw) + later) =~= views(out@) + later);
        } else {
            cur.push(c);
        }
        i = i + 1;
    }
    if cur.len() > 0 {
        let ghost before = views(out@);
        out.push(cur);
        assert(views(out@) =~= before + close_word(cur@));
    }
    out
}

} // verus!

verus! {

// ---------------------------------------------------------------------------
// Substring search (the pattern searches of `str::contains` and `str::split`)
// ---------------------------------------------------------------------------

/// Whether `p` occurs in `s` starting at index `i`.
pub open spec fn occurs_at(s: Seq<char>, p: Seq<char>, i: int) -> bool {
    0 <= i && i + p.len() <= s.len() && s.subrange(i, i + p.len()) == p
}

/// The first index at or after `from` where `p` occurs in `s`.
pub open spec fn find_from(s: Seq<char>, p: Seq<char>, from: int) -> Option<int>
    decreases s.len() + 1 - from,
{
    if from < 0 || from + p.len() > s.len() {
        None
    } else if occurs_at(s, p, from) {
        Some(from)
    } else {
        find_from(s, p, from + 1)
    }
}

/// Whether `p` occurs somewhere in `s` (`str::contains`).
pub open spec fn contains_seq(s: Seq<char>, p: Seq<char>) -> bool {
    find_from(s, p, 0) is Some
}

/// The text before the first `c` in `s`, or all of `s` when it holds no `c`:
/// the first piece that `str::split` yields for a character pattern.
pub open spec fn before_char(s: Seq<char>, c: char) -> Seq<char>
    decreases s.len(),
{
    if s.len() == 0 {
        s
    } else if s[0] == c {
        seq![]
    } else {
        seq![s[0]] + before_char(s.drop_first(), c)
    }
}

/// The second piece that `str::split(p)` yields: the text between the first
/// occurrence of `p` and the next one (or the end); `None` when `p` does not
/// occur.
pub open spec fn second_piece(s: Seq<char>, p: Seq<char>) -> Option<Seq<char>> {
    match find_from(s, p, 0) {
        None => None,
        Some(i) => {
            let start = i + p.len();
            match find_from(s, p, start) {
                Some(j) => Some(s.subrange(start, j)),
                None => Some(s.subrange(start, s.len() as int)),
            }
        },
    }
}

proof fn lemma_find_skip(s: Seq<char>, p: Seq<char>, from: int, to: int)
    requires
        0 <= from <= to,
        forall|k: int| from <= k < to ==> !occurs_at(s, p, k),
        to + p.len() <= s.len() || from + p.len() > s.len() || to == from,
    ensures
        find_from(s, p, from) == find_from(s, p, to),
    decreases to - from,
{
    if from < to {
        if from + p.len() > s.len() {
            assert(find_from(s, p, from) is None);
        } else {
            assert(!occurs_at(s, p, from));
            lemma_find_skip(s, p, from + 1, to);
        }
    }
}

proof fn lemma_find_none(s: Seq<char>, p: Seq<char>, from: int)
    requires
        0 <= from,
        forall|k: int| from <= k && k + p.len() <= s.len() ==> !occurs_at(s, p, k),
    ensures
        find_from(s, p, from) is None,
    decreases s.len() + 1 - from,
{
    if from + p.len() <= s.len() {
        lemma_find_none(s, p, from + 1);
    }
}

/// Whether `p` occurs in `s` at index `i`.
fn matches_at(s: &Vec<char>, p: &Vec<char>, i: usize) -> (r: bool)
    requires
        i + p.len() <= s.len(),
    ensures
        r == occurs_at(s@, p@, i as int),
{
    let mut k: usize = 0;
    while k < p.len()
        invariant
            i + p.len() <= s.len(),
            k <= p.len(),
            forall|j: int| 0 <= j < k ==> s@[i + j] == p@[j],
        decreases p.len() - k,
    {
        if s[i + k] != p[k] {
            assert(s@.subrange(i as int, i + p.len())[k as int] != p@[k as int]);
            return false;
        }
        k = k + 1;
    }
    assert(s@.subrange(i as int, i + p.len()) =~= p@);
    true
}

/// The first index at or after `from` where `p` occurs in `s`.
pub fn find_chars(s: &Vec<char>, p: &Vec<char>, from: usize) -> (r: Option<usize>)
    ensures
        r matches Some(i) ==> find_from(s@, p@, from as int) == Some(i as int) && from <= i && i
            + p.len() <= s.len(),
        r is None ==> find_from(s@, p@, from as int) is None,
{
    if p.len() > s.len() || from > s.len() - p.len() {
        proof {
            lemma_find_none(s@, p@, from as int);
        }
        return None;
    }
    let last = s.len() - p.len();
    let mut i = from;
    loop
        invariant
            last + p.len() == s.len(),
            from <= i <= last,
            forall|k: int| from <= k < i ==> !occurs_at(s@, p@, k),
        decreases last - i,
    {
        if matches_at(s, p, i) {
            proof {
                lemma_find_skip(s@, p@, from as int, i as int);
            }
            return Some(i);
        }
        if i == last {
            proof {
                lemma_find_none(s@, p@, from as int);
            }
            return None;
        }
        i = i + 1;
    }
}

/// Whether `p` occurs in `s`.
pub fn contains_chars(s: &Vec<char>, p: &Vec<char>) -> (r: bool)
    ensures
        r == contains_seq(s@, p@),
{
    find_chars(s, p, 0).is_some()
}

/// The text of `s` before the first `c` (all of `s` when there is none).
pub fn chars_before(s: &Vec<char>, c: char) -> (r: Vec<char>)
    ensures
        r@ == before_char(s@, c),
{
    let mut out: Vec<char> = Vec::new();
    let mut i: usize = 0;
    assert(s@.skip(0) =~= s@);
    while i < s.len()
        invariant
            i <= s.len(),
            forall|k: int| 0 <= k < i ==> s@[k] != c,
            out@ == s@.take(i as int),
            before_char(s@, c) == out@ + before_char(s@.skip(i as int), c),
        decreases s.len() - i,
    {
        let ghost rest = s@.skip(i as int);
        assert(rest[0] == s@[i as int]);
        if s[i] == c {
            assert(before_char(rest, c) == Seq::<char>::empty());
            assert(out@ + before_char(rest, c) =~= out@);
            return out;
        }
        assert(rest.drop_first() =~= s@.skip(i + 1));
        let ghost before = out@;
        out.push(s[i]);
        assert(before + (seq![s@[i as int]] + before_char(s@.skip(i + 1), c)) =~= out@
            + before_char(s@.skip(i + 1), c));
        assert(out@ =~= s@.take(i + 1));
        i = i + 1;
    }
    assert(before_char(s@.skip(i as int), c) =~= Seq::<char>::empty());
    assert(out@ + Seq::<char>::empty() =~= out@);
    out
}

/// The second piece that `str::split(p)` yields on `s`.
pub fn split_second_piece(s: &Vec<char>, p: &Vec<char>) -> (r: Option<Vec<char>>)
    ensures
        r matches Some(v) ==> second_piece(s@, p@) == Some(v@),
        r is None ==> second_piece(s@, p@) is None,
{
    match find_chars(s, p, 0) {
        None => None,
        Some(i) => {
            let start = i + p.len();
            let end = match find_chars(s, p, start) {
                Some(j) => j,
                None => s.len(),
            };
            let mut out: Vec<char> = Vec::new();
            let mut k = start;
            while k < end
                invariant
                    start <= k <= end <= s.len(),
                    out@ == s@.subrange(start as int, k as int),
                decreases end - k,
            {
                out.push(s[k]);
                assert(out@ =~= s@.subrange(start as int, k + 1));
                k = k + 1;
            }
            Some(out)
        },
    }
}

} // verus!

verus! {

// ---------------------------------------------------------------------------
// Padding and hexadecimal rendering
// ---------------------------------------------------------------------------

/// `s` followed by spaces up to `width` characters: what the format spec
/// `{: <width}` prints (nothing is cut when `s` is longer).
pub open spec fn padded(s: Seq<char>, width: nat) -> Seq<char> {
    if s.len() < width {
        s + Seq::new((width - s.len()) as nat, |_i: int| ' ')
    } else {
        s
    }
}

/// Appends `s` to `out`, padded with spaces to `width` characters.
pub fn push_padded(out: &mut String, s: &str, width: usize)
    ensures
        final(out)@ == old(out)@ + padded(s@, width as nat),
{
    out.append(s);
    let n = s.unicode_len();
    let ghost base = out@;
    let mut k = n;
    while k < width
        invariant
            n == s@.len(),
            k >= n,
            if n < width {
                k <= width
            } else {
                k == n
            },
            out@ == base + Seq::new((k - n) as nat, |_i: int| ' '),
        decreases width - k,
    {
        push_char(out, ' ');
        assert(out@ =~= base + Seq::new((k + 1 - n) as nat, |_i: int| ' '));
        k = k + 1;
    }
    assert(base == old(out)@ + s@);
    if n < width {
        assert(k == width);
        assert(out@ =~= old(out)@ + padded(s@, width as nat));
    } else {
        assert(k == n);
        assert(out@ =~= base);
        assert(out@ =~= old(out)@ + padded(s@, width as nat));
    }
}

/// The lower-case hexadecimal digit for `d` (`0 <= d < 16`).
pub open spec fn hex_char(d: int) -> char {
    if d < 10 {
        digit_char(d)
    } else if d == 10 {
        'a'
    } else if d == 11 {
        'b'
    } else if d == 12 {
        'c'
    } else if d == 13 {
        'd'
    } else if d == 14 {
        'e'
    } else {
        'f'
    }
}

/// Each byte as two lower-case hexadecimal digits, high nibble first: what
/// `{:02x}` prints for each byte.
pub open spec fn lower_hex(bytes: Seq<u8>) -> Seq<char>
    decreases bytes.len(),
{
    if bytes.len() == 0 {
        seq![]
    } else {
        lower_hex(bytes.drop_last()) + seq![
            hex_char(bytes.last() as int / 16),
            hex_char(bytes.last() as int % 16),
        ]
    }
}

fn nibble_to_char(d: u8) -> (c: char)
    requires
        d < 16,
    ensures
        c == hex_char(d as int),
{
    if d < 10 {
        digit_to_char(d as u64)
    } else if d == 10 {
        'a'
    } else if d == 11 {
        'b'
    } else if d == 12 {
        'c'
    } else if d == 13 {
        'd'
    } else if d == 14 {
        'e'
    } else {
        'f'
    }
}

/// `bytes` written as lower-case hexadecimal, two digits per byte.
pub fn to_lower_hex(bytes: &[u8]) -> (s: String)
    ensures
        s@ == lower_hex(bytes@),
{
    let mut s = String::new();
    let mut i: usize = 0;
    while i < bytes.len()
        invariant
            i <= bytes.len(),
            s@ == lower_hex(bytes@.take(i as int)),
        decreases bytes.len() - i,
    {
        let b = bytes[i];
        assert(bytes@.take(i + 1).drop_last() =~= bytes@.take(i as int));
        push_char(&mut s, nibble_to_char(b / 16));
        push_char(&mut s, nibble_to_char(b % 16));
        assert(s@ =~= lower_hex(bytes@.take(i + 1)));
        i = i + 1;
    }
    assert(bytes@.take(bytes.len() as int) =~= bytes@);
    s
}

} // verus!

verus! {

// ---------------------------------------------------------------------------
// Laws of decimal rendering and parsing
// ---------------------------------------------------------------------------

proof fn lemma_digit_char_value(d: int)
    requires
        0 <= d < 10,
    ensures
        digit_char(d) as int - '0' as int == d,
        is_ascii_digit(digit_char(d)),
{
}

proof fn lemma_dec_nat_digits(n: nat)
    ensures
        dec_nat(n).len() >= 1,
        all_digits(dec_nat(n)),
        digits_value(dec_nat(n)) == n,
    decreases n,
{
    let s = dec_nat(n);
    if n < 10 {
        assert(s.drop_last() =~= Seq::<char>::empty());
        lemma_digit_char_value(n as int);
        assert(digits_value(s) == digits_value(s.drop_last()) * 10 + (s.last() as int - '0' as int));
    } else {
        lemma_dec_nat_digits(n / 10);
        let p = dec_nat(n / 10);
        assert(s.drop_last() =~= p);
        assert(s.last() == digit_char((n % 10) as int));
        lemma_digit_char_value((n % 10) as int);
        assert(digits_value(s) == digits_value(p) * 10 + (s.last() as int - '0' as int));
        assert((n / 10) * 10 + n % 10 == n);
        assert forall|i: int| 0 <= i < s.len() implies #[trigger] is_ascii_digit(s[i]) by {
            if i < p.len() {
                assert(s[i] == p[i]);
                assert(is_ascii_digit(p[i]));
            }
        }
    }
}

/// Every `i64` written in decimal parses back to itself: what the bot prints
/// as a chat id (`/myid`, the usage summary) is what `/setpremium` accepts.
pub proof fn law_decimal_round_trip(i: i64)
    ensures
        spec_parse_i64(dec_int(i as int)) == Some(i),
{
    let s = dec_int(i as int);
    if i < 0 {
        let d = dec_nat((-i) as nat);
        lemma_dec_nat_digits((-i) as nat);
        assert(s[0] == '-');
        assert(s.drop_first() =~= d);
    } else {
        let d = dec_nat(i as nat);
        lemma_dec_nat_digits(i as nat);
        assert(is_ascii_digit(d[0]));
    }
}

/// `true` and `false`, as printed, parse back to themselves.
pub proof fn law_bool_round_trip(b: bool)
    ensures
        spec_parse_bool(if b {
            "true"@
        } else {
            "false"@
        }) == Some(b),
{
    reveal_strlit("true");
    reveal_strlit("false");
    if !b {
        assert("false"@ != "true"@) by {
            assert("false"@.len() != "true"@.len());
        }
    }
}

} // verus!

verus! {

// ---------------------------------------------------------------------------
// Laws of word splitting
// ---------------------------------------------------------------------------

/// `s` holds no whitespace.
pub open spec fn no_white_space(s: Seq<char>) -> bool {
    forall|i: int| 0 <= i < s.len() ==> !is_white_space(#[trigger] s[i])
}

proof fn lemma_words_from_word(a: Seq<char>, rest: Seq<char>, cur: Seq<char>)
    requires
        no_white_space(a),
    ensures
        words_from(a + rest, cur) == words_from(rest, cur + a),
    decreases a.len(),
{
    if a.len() == 0 {
        assert(a + rest =~= rest);
        assert(cur + a =~= cur);
    } else {
        let s = a + rest;
        assert(s[0] == a[0]);
        assert(!is_white_space(a[0]));
        assert(s.drop_first() =~= a.drop_first() + rest);
        assert(no_white_space(a.drop_first())) by {
            assert forall|i: int| 0 <= i < a.drop_first().len() implies !is_white_space(
                #[trigger] a.drop_first()[i],
            ) by {
                assert(a.drop_first()[i] == a[i + 1]);
            }
        }
        lemma_words_from_word(a.drop_first(), rest, cur.push(a[0]));
        assert(cur.push(a[0]) + a.drop_first() =~= cur + a);
    }
}

/// A non-empty run of non-whitespace characters followed by a space and more
/// text is the first word of it.
pub proof fn law_words_cons(a: Seq<char>, b: Seq<char>)
    requires
        a.len() > 0,
        no_white_space(a),
    ensures
        words(a + seq![' '] + b) == seq![a] + words(b),
{
    let e = Seq::<char>::empty();
    assert(a + seq![' '] + b =~= a + (seq![' '] + b));
    lemma_words_from_word(a, seq![' '] + b, e);
    assert(e + a =~= a);
    let r = seq![' '] + b;
    assert(r[0] == ' ');
    assert(r.drop_first() =~= b);
}

/// A non-empty run of non-whitespace characters is one word.
pub proof fn law_words_single(a: Seq<char>)
    requires
        a.len() > 0,
        no_white_space(a),
    ensures
        words(a) == seq![a],
{
    let e = Seq::<char>::empty();
    assert(a + e =~= a);
    lemma_words_from_word(a, e, e);
    assert(e + a =~= a);
}

/// Decimal numbers hold no whitespace and are never empty.
pub proof fn law_decimal_is_one_word(i: int)
    ensures
        dec_int(i).len() > 0,
        no_white_space(dec_int(i)),
{
    let n: nat = if i < 0 {
        (-i) as nat
    } else {
        i as nat
    };
    lemma_dec_nat_digits(n);
    let d = dec_nat(n);
    assert forall|k: int| 0 <= k < dec_int(i).len() implies !is_white_space(
        #[trigger] dec_int(i)[k],
    ) by {
        if i < 0 {
            if k > 0 {
                assert(dec_int(i)[k] == d[k - 1]);
                assert(is_ascii_digit(d[k - 1]));
            }
        } else {
            assert(is_ascii_digit(d[k]));
        }
    }
}

} // verus!

verus! {

// ---------------------------------------------------------------------------
// Laws of cutting and padding
// ---------------------------------------------------------------------------

/// `before_char(s, c)` is the longest prefix of `s` holding no `c`: it is a
/// prefix of `s`, holds no `c`, and either is all of `s` or is followed by a
/// `c` in `s`.
pub proof fn law_before_char_longest_prefix(s: Seq<char>, c: char)
    ensures
        before_char(s, c).len() <= s.len(),
        s.take(before_char(s, c).len() as int) == before_char(s, c),
        forall|i: int| 0 <= i < before_char(s, c).len() ==> before_char(s, c)[i] != c,
        before_char(s, c).len() == s.len() || s[before_char(s, c).len() as int] == c,
    decreases s.len(),
{
    let b = before_char(s, c);
    if s.len() == 0 {
        assert(s.take(0) =~= b);
    } else if s[0] == c {
        assert(s.take(0) =~= b);
    } else {
        let t = s.drop_first();
        law_before_char_longest_prefix(t, c);
        let bt = before_char(t, c);
        assert(b == seq![s[0]] + bt);
        assert(s.take(b.len() as int) =~= b) by {
            assert forall|i: int| 0 <= i < b.len() implies s.take(b.len() as int)[i] == b[i] by {
                if i > 0 {
                    assert(t.take(bt.len() as int)[i - 1] == bt[i - 1]);
                }
            }
        }
        assert forall|i: int| 0 <= i < b.len() implies b[i] != c by {
            if i > 0 {
                assert(b[i] == bt[i - 1]);
            }
        }
        if bt.len() < t.len() {
            assert(s[b.len() as int] == t[bt.len() as int]);
        }
    }
}

/// `padded(s, width)` is `s` followed by spaces, and has `width` characters or
/// those of `s`, whichever is more.
pub proof fn law_padded(s: Seq<char>, width: nat)
    ensures
        padded(s, width).len() == if s.len() < width {
            width
        } else {
            s.len()
        },
        padded(s, width).take(s.len() as int) == s,
        forall|i: int| s.len() <= i < padded(s, width).len() ==> padded(s, width)[i] == ' ',
{
    assert(padded(s, width).take(s.len() as int) =~= s);
}

} // verus!
