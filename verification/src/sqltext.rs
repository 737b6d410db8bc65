//! Building SQL text: joining pieces, quoting identifiers, escaping quotes.

use vstd::prelude::*;
use crate::ids::{uuid_hex, uuid_to_hex};
use crate::text::{chars_of, push_char};

verus! {

/// The characters of each string, in order.
pub open spec fn strings_view(v: Seq<String>) -> Seq<Seq<char>> {
    v.map_values(|s: String| s@)
}

/// `parts` written one after another with `sep` between neighbours
/// (`[T]::join` on strings).
pub open spec fn join(parts: Seq<Seq<char>>, sep: Seq<char>) -> Seq<char>
    decreases parts.len(),
{
    if parts.len() == 0 {
        Seq::<char>::empty()
    } else if parts.len() == 1 {
        parts[0]
    } else {
        join(parts.drop_last(), sep) + sep + parts.last()
    }
}

/// A UUID as an SQL blob literal, the form in which the store keeps it (its 16
/// bytes): `X'` followed by its 32 hexadecimal digits and a closing quote.
pub open spec fn quoted_id(id: u128) -> Seq<char> {
    seq!['X', '\''] + uuid_hex(id) + seq!['\'']
}

/// Each UUID as an SQL blob literal.
pub open spec fn quoted_ids(ids: Seq<u128>) -> Seq<Seq<char>> {
    ids.map_values(|id: u128| quoted_id(id))
}

/// Comma-separated UUID literals, as used inside `IN (...)`.
pub open spec fn id_list(ids: Seq<u128>) -> Seq<char> {
    join(quoted_ids(ids), ", "@)
}

/// What one character becomes inside an SQL string literal: a single quote is
/// doubled, every other character stays.
pub open spec fn escape_char(c: char) -> Seq<char> {
    if c == '\'' {
        seq!['\'', '\'']
    } else {
        seq![c]
    }
}

/// `s` with every single quote doubled (`str::replace('\'', "''")`).
pub open spec fn escape_quotes(s: Seq<char>) -> Seq<char>
    decreases s.len(),
{
    if s.len() == 0 {
        Seq::<char>::empty()
    } else {
        escape_quotes(s.drop_last()) + escape_char(s.last())
    }
}

/// How SQL reads the body of a string literal back: a doubled quote stands for
/// one quote.
pub open spec fn unescape_quotes(t: Seq<char>) -> Seq<char>
    decreases t.len(),
{
    if t.len() == 0 {
        Seq::<char>::empty()
    } else if t.len() >= 2 && t.last() == '\'' && t[t.len() - 2] == '\'' {
        unescape_quotes(t.drop_last().drop_last()).push('\'')
    } else {
        unescape_quotes(t.drop_last()).push(t.last())
    }
}

/// Escaping loses nothing: reading the escaped text back gives the text that was escaped, so
/// a search text can never end the SQL string literal it is placed in.
pub proof fn lemma_unescape_escape(s: Seq<char>)
    ensures
        unescape_quotes(escape_quotes(s)) == s,
    decreases s.len(),
{
    if s.len() > 0 {
        let p = s.drop_last();
        lemma_unescape_escape(p);
        let t = escape_quotes(s);
        assert(t == escape_quotes(p) + escape_char(s.last()));
        if s.last() == '\'' {
            assert(t.drop_last().drop_last() =~= escape_quotes(p));
        } else {
            assert(t.drop_last() =~= escape_quotes(p));
        }
        assert(s =~= p.push(s.last()));
    }
}

/// A quoted identifier is a well-formed SQL blob literal: `X'`, then 32 digits
/// with no quote among them, then the closing quote, so it cannot end early.
pub proof fn lemma_quoted_id_is_closed_literal(id: u128)
    ensures
        quoted_id(id).len() == 35,
        quoted_id(id)[0] == 'X',
        quoted_id(id)[1] == '\'',
        quoted_id(id)[34] == '\'',
        forall|i: int| 2 <= i < 34 ==> #[trigger] quoted_id(id)[i] != '\'',
{
    let h = uuid_hex(id);
    assert forall|k: int| 0 <= k < 32 implies #[trigger] h[k] != '\'' by {
        let d = crate::ids::uuid_nibble(id, k as nat);
        assert(d < 16);
        if d < 10 {
            assert(((48 + d) as u8) as char != '\'');
        } else {
            assert(((87 + d) as u8) as char != '\'');
        }
    }
    assert forall|i: int| 2 <= i < 34 implies #[trigger] quoted_id(id)[i] != '\'' by {
        assert(quoted_id(id)[i] == h[i - 2]);
    }
}

/// Two texts with the same escaped form are the same text.
pub proof fn lemma_escape_injective(a: Seq<char>, b: Seq<char>)
    requires
        escape_quotes(a) == escape_quotes(b),
    ensures
        a == b,
{
    lemma_unescape_escape(a);
    lemma_unescape_escape(b);
}

/// A joined text starts with its first part.
pub proof fn lemma_join_starts_with_first(parts: Seq<Seq<char>>, sep: Seq<char>)
    requires
        parts.len() >= 1,
    ensures
        join(parts, sep).len() >= parts[0].len(),
        join(parts, sep).subrange(0, parts[0].len() as int) == parts[0],
    decreases parts.len(),
{
    if parts.len() > 1 {
        let p = parts.drop_last();
        lemma_join_starts_with_first(p, sep);
        let j = join(p, sep);
        assert(join(parts, sep) == j + sep + parts.last());
        assert((j + sep + parts.last()).subrange(0, parts[0].len() as int) =~= j.subrange(
            0,
            parts[0].len() as int,
        ));
    } else {
        assert(join(parts, sep).subrange(0, parts[0].len() as int) =~= parts[0]);
    }
}

/// `parts` joined with `sep` between neighbours.
pub fn join_strings(parts: &Vec<String>, sep: &str) -> (r: String)
    ensures
        r@ == join(strings_view(parts@), sep@),
{
    let mut r = String::new();
    let n = parts.len();
    let mut i: usize = 0;
    while i < n
        invariant
            n == parts@.len(),
            i <= n,
            r@ == join(strings_view(parts@).take(i as int), sep@),
        decreases n - i,
    {
        let ghost v = strings_view(parts@);
        assert(v.take(i + 1).drop_last() =~= v.take(i as int));
        assert(v.take(i + 1).last() == parts@[i as int]@);
        if i == 0 {
            assert(v.take(1) =~= seq![parts@[0]@]);
        } else {
            r.append(sep);
        }
        r.append(parts[i].as_str());
        i = i + 1;
    }
    assert(strings_view(parts@).take(n as int) =~= strings_view(parts@));
    r
}

/// A UUID as an SQL blob literal.
pub fn quote_id(id: u128) -> (s: String)
    ensures
        s@ == quoted_id(id),
{
    let mut s = String::new();
    push_char(&mut s, 'X');
    push_char(&mut s, '\'');
    let t = uuid_to_hex(id);
    s.append(t.as_str());
    push_char(&mut s, '\'');
    assert(s@ =~= quoted_id(id));
    s
}

/// Comma-separated UUID literals.
pub fn quote_id_list(ids: &Vec<u128>) -> (s: String)
    ensures
        s@ == id_list(ids@),
{
    let mut quoted: Vec<String> = Vec::new();
    let n = ids.len();
    let mut i: usize = 0;
    while i < n
        invariant
            n == ids@.len(),
            i <= n,
            quoted@.len() == i,
            strings_view(quoted@) =~= quoted_ids(ids@.take(i as int)),
        decreases n - i,
    {
        let q = quote_id(ids[i]);
        let ghost before = quoted@;
        quoted.push(q);
        proof {
            let lhs = strings_view(quoted@);
            let rhs = quoted_ids(ids@.take(i + 1));
            assert(lhs.len() == rhs.len());
            assert forall|k: int| 0 <= k < lhs.len() implies lhs[k] == rhs[k] by {
                if k < i {
                    assert(quoted@[k] == before[k]);
                    assert(strings_view(before)[k] == before[k]@);
                } else {
                    assert(quoted@[k] == q);
                }
            }
            assert(lhs =~= rhs);
        }
        i = i + 1;
    }
    assert(ids@.take(n as int) =~= ids@);
    join_strings(&quoted, ", ")
}

/// `s` with every single quote doubled.
pub fn escape_sql_quotes(s: &str) -> (r: String)
    ensures
        r@ == escape_quotes(s@),
{
    let cs = chars_of(s);
    let mut r = String::new();
    let n = cs.len();
    let mut i: usize = 0;
    while i < n
        invariant
            n == cs@.len(),
            cs@ == s@,
            i <= n,
            r@ == escape_quotes(cs@.take(i as int)),
        decreases n - i,
    {
        let c = cs[i];
        assert(cs@.take(i + 1).drop_last() =~= cs@.take(i as int));
        assert(cs@.take(i + 1).last() == c);
        if c == '\'' {
            push_char(&mut r, '\'');
            push_char(&mut r, '\'');
        } else {
            push_char(&mut r, c);
        }
        i = i + 1;
        assert(r@ =~= escape_quotes(cs@.take(i as int)));
    }
    assert(cs@.take(n as int) =~= cs@);
    r
}

} // verus!
