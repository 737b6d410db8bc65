//! Validation of colours written in the `"H S% L%"` notation used for
//! project statuses, tags and projects.

use vstd::prelude::*;
use crate::text::chars_of;

verus! {

/// `s` cut at every occurrence of `sep` (what `str::split` with a `char` yields):
/// `k` separators give `k + 1` pieces, empty pieces included.
pub open spec fn split_on(s: Seq<char>, sep: char) -> Seq<Seq<char>>
    decreases s.len(),
{
    if s.len() == 0 {
        seq![Seq::<char>::empty()]
    } else {
        let rest = split_on(s.drop_last(), sep);
        if s.last() == sep {
            rest.push(Seq::<char>::empty())
        } else {
            rest.update(rest.len() - 1, rest.last().push(s.last()))
        }
    }
}

pub open spec fn is_ascii_digit(c: char) -> bool {
    '0' <= c && c <= '9'
}

pub open spec fn all_digits(d: Seq<char>) -> bool {
    forall|i: int| 0 <= i < d.len() ==> is_ascii_digit(#[trigger] d[i])
}

/// The number that a string of ASCII digits denotes in base ten.
pub open spec fn digits_value(d: Seq<char>) -> nat
    decreases d.len(),
{
    if d.len() == 0 {
        0
    } else {
        digits_value(d.drop_last()) * 10 + ((d.last() as nat) - 48) as nat
    }
}

/// What parsing `s` as an unsigned integer type whose largest value is `max`
/// gives (`str::parse` for `u8`, `u16`, ...): an optional leading `+`, then at
/// least one ASCII digit and nothing else, denoting a value no larger than `max`.
pub open spec fn parse_unsigned(s: Seq<char>, max: nat) -> Option<nat> {
    let d = if s.len() > 0 && s[0] == '+' { s.drop_first() } else { s };
    if d.len() == 0 || !all_digits(d) || digits_value(d) > max {
        None
    } else {
        Some(digits_value(d))
    }
}

/// `s` with one trailing `%` removed, when it has one (`str::strip_suffix('%')`).
pub open spec fn strip_percent(s: Seq<char>) -> Option<Seq<char>> {
    if s.len() > 0 && s.last() == '%' {
        Some(s.drop_last())
    } else {
        None
    }
}

/// A hue: an unsigned 16-bit number no larger than 360.
pub open spec fn hue_ok(s: Seq<char>) -> bool {
    match parse_unsigned(s, 65535) {
        Some(h) => h <= 360,
        None => false,
    }
}

/// A percentage: an unsigned 8-bit number no larger than 100, followed by `%`.
pub open spec fn percent_ok(s: Seq<char>) -> bool {
    match strip_percent(s) {
        Some(body) => match parse_unsigned(body, 255) {
            Some(v) => v <= 100,
            None => false,
        },
        None => false,
    }
}

/// A colour in `"H S% L%"` notation: exactly three pieces separated by single
/// spaces, a hue of at most 360, then saturation and lightness of at most 100%.
pub open spec fn hsl_valid(s: Seq<char>) -> bool {
    let parts = split_on(s, ' ');
    &&& parts.len() == 3
    &&& hue_ok(parts[0])
    &&& percent_ok(parts[1])
    &&& percent_ok(parts[2])
}

pub proof fn lemma_split_nonempty(s: Seq<char>, sep: char)
    ensures
        split_on(s, sep).len() >= 1,
    decreases s.len(),
{
    if s.len() > 0 {
        lemma_split_nonempty(s.drop_last(), sep);
    }
}

/// How many times `c` occurs in `s`.
pub open spec fn count_char(s: Seq<char>, c: char) -> nat
    decreases s.len(),
{
    if s.len() == 0 {
        0
    } else {
        count_char(s.drop_last(), c) + if s.last() == c { 1nat } else { 0nat }
    }
}

/// Cutting at every separator gives one piece more than there are separators.
pub proof fn lemma_split_len(s: Seq<char>, sep: char)
    ensures
        split_on(s, sep).len() == count_char(s, sep) + 1,
    decreases s.len(),
{
    if s.len() > 0 {
        lemma_split_len(s.drop_last(), sep);
        lemma_split_nonempty(s.drop_last(), sep);
    }
}

/// A non-empty last piece ends where the text ends.
pub proof fn lemma_split_last_piece(s: Seq<char>, sep: char)
    ensures
        split_on(s, sep).len() >= 1,
        split_on(s, sep).last().len() > 0 ==> s.len() > 0 && s.last() == split_on(s, sep).last().last(),
{
    lemma_split_nonempty(s, sep);
    if s.len() > 0 {
        lemma_split_nonempty(s.drop_last(), sep);
    }
}

/// Every accepted colour holds exactly two spaces and ends in `%`: a lightness
/// written without its `%` (such as `"217 91% 60"`) is rejected. Its second
/// and third pieces each end in `%` with at most 100 before it, and its first
/// is a hue of at most 360.
pub proof fn lemma_accepted_color_shape(s: Seq<char>)
    requires
        hsl_valid(s),
    ensures
        count_char(s, ' ') == 2,
        s.len() > 0,
        s.last() == '%',
        ({
            let parts = split_on(s, ' ');
            &&& parts.len() == 3
            &&& parts[1].len() > 0 && parts[1].last() == '%'
            &&& parts[2].len() > 0 && parts[2].last() == '%'
            &&& parse_unsigned(parts[1].drop_last(), 255) matches Some(v) && v <= 100
            &&& parse_unsigned(parts[2].drop_last(), 255) matches Some(v) && v <= 100
            &&& parse_unsigned(parts[0], 65535) matches Some(h) && h <= 360
        }),
{
    lemma_split_len(s, ' ');
    lemma_split_last_piece(s, ' ');
    let parts = split_on(s, ' ');
    assert(parts.last() == parts[2]);
}

proof fn lemma_prefix_value_le(d: Seq<char>, k: int)
    requires
        all_digits(d),
        0 <= k <= d.len(),
    ensures
        digits_value(d.take(k)) <= digits_value(d),
    decreases d.len(),
{
    if k < d.len() {
        let p = d.drop_last();
        assert(d.take(k) =~= p.take(k));
        assert(all_digits(p)) by {
            assert forall|i: int| 0 <= i < p.len() implies is_ascii_digit(#[trigger] p[i]) by {
                assert(p[i] == d[i]);
            }
        }
        lemma_prefix_value_le(p, k);
    } else {
        assert(d.take(k) =~= d);
    }
}

/// Parses the digits of `d` as an unsigned number no larger than `max`.
pub fn parse_unsigned_chars(d: &Vec<char>, max: u64) -> (r: Option<u64>)
    requires
        max < 1_000_000_000,
    ensures
        match parse_unsigned(d@, max as nat) {
            Some(v) => r == Some(v as u64),
            None => r is None,
        },
{
    let len = d.len();
    let start: usize = if len > 0 && d[0] == '+' { 1 } else { 0 };
    let ghost digits = if d@.len() > 0 && d@[0] == '+' { d@.drop_first() } else { d@ };
    assert(digits =~= d@.subrange(start as int, len as int));
    if start == len {
        return None;
    }
    let mut v: u64 = 0;
    let mut i: usize = start;
    while i < len
        invariant
            start <= i <= len,
            len == d@.len(),
            digits == d@.subrange(start as int, len as int),
            digits == (if d@.len() > 0 && d@[0] == '+' { d@.drop_first() } else { d@ }),
            digits.len() > 0,
            v as nat == digits_value(d@.subrange(start as int, i as int)),
            v <= max,
            max < 1_000_000_000,
            all_digits(d@.subrange(start as int, i as int)),
        decreases len - i,
    {
        let c = d[i];
        if !('0' <= c && c <= '9') {
            assert(digits[i - start] == c);
            assert(!all_digits(digits));
            return None;
        }
        let ghost before = d@.subrange(start as int, i as int);
        let ghost after = d@.subrange(start as int, i + 1);
        assert(after.drop_last() =~= before);
        assert(after.last() == c);
        assert(all_digits(after)) by {
            assert forall|j: int| 0 <= j < after.len() implies is_ascii_digit(#[trigger] after[j]) by {
                if j < before.len() {
                    assert(after[j] == before[j]);
                }
            }
        }
        let dg: u64 = (c as u32 - 48) as u64;
        v = v * 10 + dg;
        i = i + 1;
        if v > max {
            proof {
                assert(after =~= digits.take(after.len() as int));
                if all_digits(digits) {
                    lemma_prefix_value_le(digits, after.len() as int);
                }
            }
            return None;
        }
    }
    assert(d@.subrange(start as int, i as int) =~= digits);
    Some(v)
}

/// Splits `s` at every `sep`, as `str::split` does.
pub fn split_chars(s: &Vec<char>, sep: char) -> (parts: Vec<Vec<char>>)
    ensures
        parts@.len() == split_on(s@, sep).len(),
        forall|k: int| 0 <= k < parts@.len() ==> #[trigger] parts@[k]@ == split_on(s@, sep)[k],
{
    let mut done: Vec<Vec<char>> = Vec::new();
    let mut current: Vec<char> = Vec::new();
    let len = s.len();
    let mut i: usize = 0;
    while i < len
        invariant
            i <= len,
            len == s@.len(),
            done@.len() + 1 == split_on(s@.take(i as int), sep).len(),
            forall|k: int| 0 <= k < done@.len() ==> #[trigger] done@[k]@ == split_on(s@.take(i as int), sep)[k],
            current@ == split_on(s@.take(i as int), sep).last(),
        decreases len - i,
    {
        let c = s[i];
        let ghost pre = s@.take(i as int);
        let ghost nxt = s@.take(i + 1);
        assert(nxt.drop_last() =~= pre);
        assert(nxt.last() == c);
        proof {
            lemma_split_nonempty(pre, sep);
        }
        if c == sep {
            done.push(current);
            current = Vec::new();
        } else {
            current.push(c);
        }
        i = i + 1;
    }
    assert(s@.take(len as int) =~= s@);
    done.push(current);
    done
}

/// Whether `color` is written as `"H S% L%"` with `H <= 360` and both
/// percentages at most 100.
pub fn is_valid_hsl_color(color: &str) -> (b: bool)
    ensures
        b == hsl_valid(color@),
{
    let cs = chars_of(color);
    let parts = split_chars(&cs, ' ');
    if parts.len() != 3 {
        return false;
    }
    assert(parts@[0]@ == split_on(color@, ' ')[0]);
    assert(parts@[1]@ == split_on(color@, ' ')[1]);
    assert(parts@[2]@ == split_on(color@, ' ')[2]);
    let h = match parse_unsigned_chars(&parts[0], 65535) {
        Some(h) => h,
        None => return false,
    };
    if h > 360 {
        return false;
    }
    let s_ok = percent_piece_ok(&parts[1]);
    if !s_ok {
        return false;
    }
    percent_piece_ok(&parts[2])
}

/// Whether `piece` is a percentage of at most 100 followed by `%`.
fn percent_piece_ok(piece: &Vec<char>) -> (b: bool)
    ensures
        b == percent_ok(piece@),
{
    let n = piece.len();
    if n == 0 || piece[n - 1] != '%' {
        return false;
    }
    let mut body: Vec<char> = Vec::new();
    let mut i: usize = 0;
    while i < n - 1
        invariant
            n == piece@.len(),
            n >= 1,
            i <= n - 1,
            body@ == piece@.take(i as int),
        decreases n - 1 - i,
    {
        body.push(piece[i]);
        i = i + 1;
    }
    assert(body@ =~= piece@.drop_last());
    match parse_unsigned_chars(&body, 255) {
        Some(v) => v <= 100,
        None => false,
    }
}

} // verus!
