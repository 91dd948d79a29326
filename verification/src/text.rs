//! Character-level helpers: trimming, splitting and decimal integers.

use vstd::prelude::*;
use vstd::string::StrSliceExecFns;
use vstd::string::StringExecFns;
use vstd::utf8::{decode_utf8, valid_utf8};

verus! {

/// Whether `c` is white space: one of the code points with the Unicode
/// property `White_Space`.
pub open spec fn is_whitespace(c: char) -> bool {
    ||| '\u{9}' <= c <= '\u{d}'
    ||| c == ' '
    ||| c == '\u{85}'
    ||| c == '\u{a0}'
    ||| c == '\u{1680}'
    ||| '\u{2000}' <= c <= '\u{200a}'
    ||| c == '\u{2028}'
    ||| c == '\u{2029}'
    ||| c == '\u{202f}'
    ||| c == '\u{205f}'
    ||| c == '\u{3000}'
}

/// Tells whether `c` is white space.
pub fn char_is_whitespace(c: char) -> (b: bool)
    ensures
        b == is_whitespace(c),
{
    let code: u32 = c as u32;
    (0x9 <= code && code <= 0xd) || code == 0x20 || code == 0x85 || code == 0xa0 || code == 0x1680
        || (0x2000 <= code && code <= 0x200a) || code == 0x2028 || code == 0x2029 || code
        == 0x202f || code == 0x205f || code == 0x3000
}

/// `s` without the white space it starts with.
pub open spec fn trim_start(s: Seq<char>) -> Seq<char>
    decreases s.len(),
{
    if s.len() > 0 && is_whitespace(s.first()) {
        trim_start(s.drop_first())
    } else {
        s
    }
}

/// `s` without the white space it ends with.
pub open spec fn trim_end(s: Seq<char>) -> Seq<char>
    decreases s.len(),
{
    if s.len() > 0 && is_whitespace(s.last()) {
        trim_end(s.drop_last())
    } else {
        s
    }
}

/// `s` without the white space at either end.
pub open spec fn trimmed(s: Seq<char>) -> Seq<char> {
    trim_end(trim_start(s))
}

/// Dropping `n` leading white-space characters does not change what
/// `trim_start` gives.
proof fn trim_start_skips(s: Seq<char>, n: int)
    requires
        0 <= n <= s.len(),
        forall|i: int| 0 <= i < n ==> is_whitespace(#[trigger] s[i]),
    ensures
        trim_start(s) == trim_start(s.skip(n)),
    decreases n,
{
    if n == 0 {
        assert(s.skip(0) == s);
    } else {
        assert(is_whitespace(s[0]));
        let rest = s.drop_first();
        assert forall|i: int| 0 <= i < n - 1 implies is_whitespace(#[trigger] rest[i]) by {
            assert(rest[i] == s[i + 1]);
        }
        trim_start_skips(rest, n - 1);
        assert(rest.skip(n - 1) == s.skip(n));
    }
}

/// Dropping trailing white-space characters down to length `n` does not
/// change what `trim_end` gives.
proof fn trim_end_takes(s: Seq<char>, n: int)
    requires
        0 <= n <= s.len(),
        forall|i: int| n <= i < s.len() ==> is_whitespace(#[trigger] s[i]),
    ensures
        trim_end(s) == trim_end(s.take(n)),
    decreases s.len() - n,
{
    if n == s.len() {
        assert(s.take(n) == s);
    } else {
        assert(is_whitespace(s[s.len() - 1]));
        let rest = s.drop_last();
        trim_end_takes(rest, n);
        assert(rest.take(n) == s.take(n));
    }
}

/// The text without the white space at either end.
pub fn trim(s: &str) -> (t: &str)
    ensures
        t@ == trimmed(s@),
{
    let n: usize = s.unicode_len();
    let mut from: usize = 0;
    while from < n && char_is_whitespace(s.get_char(from))
        invariant
            from <= n,
            n == s@.len(),
            forall|i: int| 0 <= i < from ==> is_whitespace(#[trigger] s@[i]),
        decreases n - from,
    {
        from = from + 1;
    }
    let mut to: usize = n;
    while to > from && char_is_whitespace(s.get_char(to - 1))
        invariant
            from <= to <= n,
            n == s@.len(),
            forall|i: int| to <= i < n ==> is_whitespace(#[trigger] s@[i]),
        decreases to,
    {
        to = to - 1;
    }
    proof {
        let head = s@.skip(from as int);
        let body = s@.subrange(from as int, to as int);
        trim_start_skips(s@, from as int);
        if head.len() > 0 {
            assert(head.first() == s@[from as int]);
        }
        assert(trim_start(s@) == head);
        assert forall|i: int| to - from <= i < head.len() implies is_whitespace(
            #[trigger] head[i],
        ) by {
            assert(head[i] == s@[i + from]);
        }
        trim_end_takes(head, to - from);
        assert(head.take(to - from) == body);
        if body.len() > 0 {
            assert(body.last() == s@[to - 1]);
        }
        assert(trim_end(body) == body);
    }
    s.substring_char(from, to)
}

/// The positions at which `sep` stands in `s`, in increasing order.
pub open spec fn separators(s: Seq<char>, sep: char) -> Seq<int>
    decreases s.len(),
{
    if s.len() == 0 {
        Seq::empty()
    } else if s.last() == sep {
        separators(s.drop_last(), sep).push(s.len() - 1)
    } else {
        separators(s.drop_last(), sep)
    }
}

/// The `j`-th piece of `s` between two neighbouring separators, counted
/// from 0; the first piece starts and the last piece ends with `s`.
pub open spec fn field(s: Seq<char>, sep: char, j: int) -> Seq<char> {
    let at = separators(s, sep);
    let from = if j == 0 {
        0
    } else {
        at[j - 1] + 1
    };
    let to = if j == at.len() {
        s.len() as int
    } else {
        at[j]
    };
    s.subrange(from, to)
}

/// The pieces of `s` between its separators: one more than there are
/// separators, empty pieces included.
pub open spec fn fields(s: Seq<char>, sep: char) -> Seq<Seq<char>> {
    Seq::new(separators(s, sep).len() + 1, |j: int| field(s, sep, j))
}

/// The separators of `s` are positions of `s` that hold `sep`, in strictly
/// increasing order, and there are no others.
pub proof fn separators_are_ordered(s: Seq<char>, sep: char)
    ensures
        separators(s, sep).len() <= s.len(),
        forall|j: int|
            0 <= j < separators(s, sep).len() ==> 0 <= (#[trigger] separators(s, sep)[j]) < s.len()
                && s[separators(s, sep)[j]] == sep,
        forall|j: int, k: int|
            0 <= j < k < separators(s, sep).len() ==> (#[trigger] separators(s, sep)[j]) < (
            #[trigger] separators(s, sep)[k]),
        forall|i: int|
            0 <= i < s.len() && s[i] == sep ==> exists|j: int|
                0 <= j < separators(s, sep).len() && #[trigger] separators(s, sep)[j] == i,
    decreases s.len(),
{
    if s.len() > 0 {
        let rest = s.drop_last();
        let before = separators(rest, sep);
        let all = separators(s, sep);
        separators_are_ordered(rest, sep);
        assert forall|j: int| 0 <= j < all.len() implies 0 <= (#[trigger] all[j]) < s.len()
            && s[all[j]] == sep by {
            if j < before.len() {
                assert(all[j] == before[j]);
                assert(rest[before[j]] == s[before[j]]);
            }
        }
        assert forall|j: int, k: int| 0 <= j < k < all.len() implies (#[trigger] all[j]) < (
        #[trigger] all[k]) by {
            assert(all[j] == before[j]);
            if k < before.len() {
                assert(all[k] == before[k]);
            }
        }
        assert forall|i: int| 0 <= i < s.len() && s[i] == sep implies exists|j: int|
            0 <= j < all.len() && #[trigger] all[j] == i by {
            if i < rest.len() {
                assert(rest[i] == s[i]);
                let j = choose|j: int| 0 <= j < before.len() && #[trigger] before[j] == i;
                assert(all[j] == i);
            } else {
                assert(all[all.len() - 1] == i);
            }
        }
    }
}

/// No piece of a split holds a separator, and the pieces together with the
/// separators between them are as long as the text.
pub proof fn fields_hold_no_separator(s: Seq<char>, sep: char)
    ensures
        forall|j: int, i: int|
            0 <= j < fields(s, sep).len() && 0 <= i < fields(s, sep)[j].len() ==> (
            #[trigger] fields(s, sep)[j][i]) != sep,
        forall|j: int|
            0 <= j < fields(s, sep).len() ==> (#[trigger] fields(s, sep)[j]).len() <= s.len(),
{
    separators_are_ordered(s, sep);
    let at = separators(s, sep);
    assert forall|j: int, i: int|
        0 <= j < fields(s, sep).len() && 0 <= i < fields(s, sep)[j].len() implies (
    #[trigger] fields(s, sep)[j][i]) != sep by {
        let from = if j == 0 {
            0
        } else {
            at[j - 1] + 1
        };
        let to = if j == at.len() {
            s.len() as int
        } else {
            at[j]
        };
        if j > 0 && j < at.len() {
            assert(at[j - 1] < at[j]);
        }
        assert(fields(s, sep)[j] == s.subrange(from, to));
        let p = from + i;
        assert(fields(s, sep)[j][i] == s[p]);
        if s[p] == sep {
            let k = choose|k: int| 0 <= k < at.len() && #[trigger] at[k] == p;
            if j > 0 && k <= j - 1 {
                if k < j - 1 {
                    assert(at[k] < at[j - 1]);
                }
            } else if j < at.len() {
                if k > j {
                    assert(at[j] < at[k]);
                }
            }
        }
    }
    assert forall|j: int| 0 <= j < fields(s, sep).len() implies (#[trigger] fields(
        s,
        sep,
    )[j]).len() <= s.len() by {
        if j > 0 && j < at.len() {
            assert(at[j - 1] < at[j]);
        }
    }
}

/// The positions of `sep` in `s`.
fn find_separators(s: &str, sep: char) -> (at: Vec<usize>)
    ensures
        at@.len() == separators(s@, sep).len(),
        forall|j: int| 0 <= j < at@.len() ==> #[trigger] at@[j] == separators(s@, sep)[j],
{
    let n: usize = s.unicode_len();
    let mut at: Vec<usize> = Vec::new();
    let mut i: usize = 0;
    while i < n
        invariant
            i <= n,
            n == s@.len(),
            at@.len() == separators(s@.take(i as int), sep).len(),
            forall|j: int|
                0 <= j < at@.len() ==> #[trigger] at@[j] == separators(s@.take(i as int), sep)[j],
        decreases n - i,
    {
        proof {
            assert(s@.take(i + 1).drop_last() == s@.take(i as int));
        }
        if s.get_char(i) == sep {
            at.push(i);
        }
        i = i + 1;
    }
    proof {
        assert(s@.take(n as int) == s@);
    }
    at
}

/// Splits `s` at every `sep`.
pub fn split(s: &str, sep: char) -> (pieces: Vec<&str>)
    ensures
        pieces@.len() == fields(s@, sep).len(),
        forall|j: int| 0 <= j < pieces@.len() ==> (#[trigger] pieces@[j])@ == fields(s@, sep)[j],
{
    let n: usize = s.unicode_len();
    let at = find_separators(s, sep);
    proof {
        separators_are_ordered(s@, sep);
    }
    let mut pieces: Vec<&str> = Vec::new();
    let mut from: usize = 0;
    let mut j: usize = 0;
    while j < at.len()
        invariant
            j <= at@.len(),
            n == s@.len(),
            at@.len() == separators(s@, sep).len(),
            forall|k: int| 0 <= k < at@.len() ==> #[trigger] at@[k] == separators(s@, sep)[k],
            forall|k: int|
                0 <= k < separators(s@, sep).len() ==> 0 <= (#[trigger] separators(s@, sep)[k])
                    < s@.len(),
            forall|k: int, l: int|
                0 <= k < l < separators(s@, sep).len() ==> (#[trigger] separators(s@, sep)[k]) < (
                #[trigger] separators(s@, sep)[l]),
            from == (if j == 0 {
                0
            } else {
                separators(s@, sep)[j - 1] + 1
            }),
            from <= n,
            pieces@.len() == j,
            forall|k: int| 0 <= k < j ==> (#[trigger] pieces@[k])@ == field(s@, sep, k),
        decreases at@.len() - j,
    {
        let to: usize = at[j];
        proof {
            assert(at@[j as int] == separators(s@, sep)[j as int]);
            if j > 0 {
                assert(separators(s@, sep)[j - 1] < separators(s@, sep)[j as int]);
            }
        }
        pieces.push(s.substring_char(from, to));
        from = to + 1;
        j = j + 1;
    }
    pieces.push(s.substring_char(from, n));
    pieces
}

/// Whether `c` is one of the ten ASCII digits.
pub open spec fn is_digit(c: char) -> bool {
    '0' <= c <= '9'
}

/// The number that the digit `c` stands for.
pub open spec fn digit_value(c: char) -> int {
    c as int - '0' as int
}

/// Whether `s` holds ASCII digits only.
pub open spec fn all_digits(s: Seq<char>) -> bool {
    forall|i: int| 0 <= i < s.len() ==> is_digit(#[trigger] s[i])
}

/// The number that the digits `s` write in base ten.
pub open spec fn decimal(s: Seq<char>) -> int
    decreases s.len(),
{
    if s.len() == 0 {
        0
    } else {
        10 * decimal(s.drop_last()) + digit_value(s.last())
    }
}

/// The integer that `s` writes: an optional sign, then at least one digit
/// and nothing else.
pub open spec fn signed_decimal(s: Seq<char>) -> Option<int> {
    let signed = s.len() > 0 && (s[0] == '-' || s[0] == '+');
    let digits = if signed {
        s.drop_first()
    } else {
        s
    };
    if digits.len() > 0 && all_digits(digits) {
        Some(
            if s[0] == '-' {
                -decimal(digits)
            } else {
                decimal(digits)
            },
        )
    } else {
        None
    }
}

/// The integer that `s` writes, where it fits 32 bits.
pub open spec fn decimal_i32(s: Seq<char>) -> Option<i32> {
    match signed_decimal(s) {
        Some(v) => if i32::MIN <= v <= i32::MAX {
            Some(v as i32)
        } else {
            None
        },
        None => None,
    }
}

/// More digits never write a smaller number.
proof fn decimal_grows(s: Seq<char>, k: int)
    requires
        0 <= k <= s.len(),
        all_digits(s),
    ensures
        0 <= decimal(s.take(k)) <= decimal(s),
    decreases s.len(),
{
    if s.len() == 0 {
        assert(s.take(k) == s);
    } else if k == s.len() {
        assert(s.take(k) == s);
        decimal_grows(s.drop_last(), k - 1);
    } else {
        decimal_grows(s.drop_last(), k);
        assert(s.drop_last().take(k) == s.take(k));
        assert(is_digit(s.last()));
    }
}

/// Reads a decimal integer of 32 bits: an optional sign, then digits. White
/// space, an empty text and a number out of range give `None`.
pub fn parse_i32(s: &str) -> (r: Option<i32>)
    ensures
        r == decimal_i32(s@),
{
    let n: usize = s.unicode_len();
    if n == 0 {
        return None;
    }
    let first = s.get_char(0);
    let negative = first == '-';
    let start: usize = if first == '-' || first == '+' {
        1
    } else {
        0
    };
    let ghost digits = s@.skip(start as int);
    proof {
        assert(digits == if start == 1 {
            s@.drop_first()
        } else {
            s@
        });
    }
    if start == n {
        return None;
    }
    let mut acc: i64 = 0;
    let mut i: usize = start;
    while i < n
        invariant
            start <= i <= n,
            n == s@.len(),
            digits == s@.skip(start as int),
            digits == (if s@.len() > 0 && (s@[0] == '-' || s@[0] == '+') {
                s@.drop_first()
            } else {
                s@
            }),
            all_digits(digits.take(i - start)),
            acc == decimal(digits.take(i - start)),
            0 <= acc <= 2147483648,
        decreases n - i,
    {
        let c = s.get_char(i);
        let code: u32 = c as u32;
        proof {
            assert(digits[i - start] == c);
            assert(digits.take(i - start + 1).drop_last() == digits.take(i - start));
        }
        if code < 48 || code > 57 {
            proof {
                assert(!is_digit(digits[i - start]));
            }
            return None;
        }
        acc = acc * 10 + (code - 48) as i64;
        proof {
            assert(is_digit(c));
            assert(all_digits(digits.take(i - start + 1))) by {
                assert forall|k: int| 0 <= k < i - start + 1 implies is_digit(
                    #[trigger] digits.take(i - start + 1)[k],
                ) by {
                    if k < i - start {
                        assert(digits.take(i - start)[k] == digits.take(i - start + 1)[k]);
                    }
                }
            }
        }
        if acc > 2147483648 {
            proof {
                if all_digits(digits) {
                    decimal_grows(digits, i - start + 1);
                }
            }
            return None;
        }
        i = i + 1;
    }
    proof {
        assert(digits.take(n - start) == digits);
    }
    if negative {
        Some((-acc) as i32)
    } else if acc <= 2147483647 {
        Some(acc as i32)
    } else {
        None
    }
}

/// Decodes `bytes` with `std::str::from_utf8` and copies the text: `Some`
/// exactly for well-formed UTF-8, with the characters that the bytes encode.
#[verifier::external_body]
pub(crate) fn utf8_text(bytes: &[u8]) -> (text: Option<String>)
    ensures
        text is Some <==> valid_utf8(bytes@),
        text matches Some(s) ==> s@ == decode_utf8(bytes@),
{
    match std::str::from_utf8(bytes) {
        Ok(s) => Some(s.to_string()),
        Err(_) => None,
    }
}

/// The text without the white space at its end.
pub fn trim_trailing(s: &str) -> (t: &str)
    ensures
        t@ == trim_end(s@),
{
    let n: usize = s.unicode_len();
    let mut to: usize = n;
    while to > 0 && char_is_whitespace(s.get_char(to - 1))
        invariant
            to <= n,
            n == s@.len(),
            forall|i: int| to <= i < n ==> is_whitespace(#[trigger] s@[i]),
        decreases to,
    {
        to = to - 1;
    }
    proof {
        let body = s@.subrange(0, to as int);
        trim_end_takes(s@, to as int);
        assert(s@.take(to as int) == body);
        if body.len() > 0 {
            assert(body.last() == s@[to - 1]);
        }
        assert(trim_end(body) == body);
    }
    s.substring_char(0, to)
}

/// `unit` written `n` times in a row.
pub open spec fn repeated(unit: Seq<char>, n: nat) -> Seq<char>
    decreases n,
{
    if n == 0 {
        Seq::empty()
    } else {
        repeated(unit, (n - 1) as nat) + unit
    }
}

/// `unit` written `n` times in a row.
pub fn repeat(unit: &str, n: usize) -> (text: String)
    ensures
        text@ == repeated(unit@, n as nat),
{
    let mut text = String::new();
    let mut i: usize = 0;
    while i < n
        invariant
            i <= n,
            text@ == repeated(unit@, i as nat),
        decreases n - i,
    {
        text.append(unit);
        i = i + 1;
    }
    text
}

/// The number of extended grapheme clusters of `text`, as the crate
/// `unicode-segmentation` counts them.
pub uninterp spec fn grapheme_count(text: Seq<char>) -> nat;

/// Counts what `UnicodeSegmentation::graphemes` yields for `text`, with
/// extended clusters. The contract only names the result.
#[verifier::external_body]
pub(crate) fn count_graphemes(text: &str) -> (n: usize)
    ensures
        n == grapheme_count(text@),
{
    unicode_segmentation::UnicodeSegmentation::graphemes(text, true).count()
}

/// The texts of a list of lines.
pub open spec fn lines_view(lines: Seq<String>) -> Seq<Seq<char>> {
    lines.map_values(|line: String| line@)
}

/// The texts of a list of labelled values.
pub open spec fn pairs_view(pairs: Seq<(String, String)>) -> Seq<(Seq<char>, Seq<char>)> {
    pairs.map_values(|pair: (String, String)| (pair.0@, pair.1@))
}

/// `a` followed by `b`.
pub fn join(a: &str, b: &str) -> (joined: String)
    ensures
        joined@ == a@ + b@,
{
    String::from_str(a).concat(b)
}

/// Appends `line` to `lines`.
pub fn push_line(lines: &mut Vec<String>, line: String)
    ensures
        lines_view(final(lines)@) == lines_view(old(lines)@).push(line@),
{
    lines.push(line);
    assert(lines_view(lines@) =~= lines_view(old(lines)@).push(line@));
}

/// Appends the pair of `label` and `value` to `pairs`.
pub fn push_pair(pairs: &mut Vec<(String, String)>, label: String, value: String)
    ensures
        pairs_view(final(pairs)@) == pairs_view(old(pairs)@).push((label@, value@)),
{
    pairs.push((label, value));
    assert(pairs_view(pairs@) =~= pairs_view(old(pairs)@).push((label@, value@)));
}

} // verus!
