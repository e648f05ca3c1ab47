//! The floor form's vertex list as text.
//!
//! A floor is drawn over a list of vertex indices. The property panel
//! shows that list as one text field, the indices rendered as decimal
//! numerals joined by commas. When the field loses focus the text is
//! read back: the comma-separated parts are parsed in order, and the
//! edit is accepted exactly when every part parses, or when only the
//! last part fails (the parse consumes the failing part before it
//! checks that nothing is left). A rendered list always reads back as
//! itself.

use vstd::prelude::*;

use crate::decimal::dec_rep;
use crate::decimal::fmt_usize;
use crate::decimal::is_dec_digit;
use crate::decimal::lemma_dec_rep;
use crate::decimal::lemma_parse_dec_rep;
use crate::decimal::parse_usize_spec;
use crate::decimal::parse_usize_str;

verus! {

/// No character of `p` is a comma.
pub open spec fn comma_free(p: Seq<char>) -> bool {
    forall|i: int| 0 <= i < p.len() ==> #[trigger] p[i] != ','
}

/// Replace the first part of `ss` by `a` prepended to it.
pub open spec fn prepend_first(a: Seq<char>, ss: Seq<Seq<char>>) -> Seq<Seq<char>> {
    ss.update(0, a + ss[0])
}

/// The comma-separated parts of `s`, in order. Empty text is one empty
/// part; every comma separates two parts.
pub open spec fn split_commas(s: Seq<char>) -> Seq<Seq<char>>
    decreases s.len(),
{
    if s.len() == 0 {
        seq![Seq::<char>::empty()]
    } else if s[0] == ',' {
        seq![Seq::<char>::empty()] + split_commas(s.drop_first())
    } else {
        prepend_first(seq![s[0]], split_commas(s.drop_first()))
    }
}

/// The parts joined back with a comma between each two.
pub open spec fn join_commas(parts: Seq<Seq<char>>) -> Seq<char>
    decreases parts.len(),
{
    if parts.len() == 0 {
        Seq::<char>::empty()
    } else if parts.len() == 1 {
        parts[0]
    } else {
        parts[0] + seq![','] + join_commas(parts.drop_first())
    }
}

/// Index of the first part that is not a numeral in range, or the
/// number of parts when every one parses.
pub open spec fn first_unparsable(parts: Seq<Seq<char>>) -> int
    decreases parts.len(),
{
    if parts.len() == 0 {
        0
    } else if parse_usize_spec(parts[0]) is None {
        0
    } else {
        1 + first_unparsable(parts.drop_first())
    }
}

/// What reading the vertices field yields. The parts before the first
/// failing one become the list; the edit is accepted exactly when at
/// most the last part fails to parse.
pub open spec fn parse_vertices_spec(s: Seq<char>) -> Option<Seq<usize>> {
    let parts = split_commas(s);
    let j = first_unparsable(parts);
    if j >= parts.len() - 1 {
        Some(Seq::new(j as nat, |i: int| parse_usize_spec(parts[i]).unwrap()))
    } else {
        None
    }
}

/// The text the panel shows for a vertex list.
pub open spec fn vertices_text(v: Seq<usize>) -> Seq<char> {
    join_commas(v.map_values(|n: usize| dec_rep(n as nat)))
}

/// Splitting always yields at least one part.
proof fn lemma_split_commas_len(s: Seq<char>)
    ensures
        split_commas(s).len() >= 1,
    decreases s.len(),
{
    if s.len() == 0 {
    } else {
        lemma_split_commas_len(s.drop_first());
    }
}

/// Prepending to the first part twice is prepending once.
proof fn lemma_prepend_compose(x: Seq<char>, y: Seq<char>, ss: Seq<Seq<char>>)
    requires
        ss.len() >= 1,
    ensures
        prepend_first(x, prepend_first(y, ss)) == prepend_first(x + y, ss),
{
    assert(x + (y + ss[0]) =~= (x + y) + ss[0]);
    assert(prepend_first(x, prepend_first(y, ss)) =~~= prepend_first(x + y, ss));
}

/// Prepending nothing changes nothing.
proof fn lemma_prepend_empty(a: Seq<char>, ss: Seq<Seq<char>>)
    requires
        a.len() == 0,
        ss.len() >= 1,
    ensures
        prepend_first(a, ss) == ss,
{
    assert(a + ss[0] =~= ss[0]);
    assert(prepend_first(a, ss) =~~= ss);
}

/// Splitting comma-free text followed by anything splits the tail and
/// prepends the text to its first part.
proof fn lemma_split_prepend(a: Seq<char>, b: Seq<char>)
    requires
        comma_free(a),
    ensures
        split_commas(a + b) == prepend_first(a, split_commas(b)),
    decreases a.len(),
{
    lemma_split_commas_len(b);
    if a.len() == 0 {
        assert(a + b =~= b);
        lemma_prepend_empty(a, split_commas(b));
    } else {
        let s = a + b;
        assert(s[0] == a[0]);
        assert(s[0] != ',');
        assert(s.drop_first() =~= a.drop_first() + b);
        assert(comma_free(a.drop_first())) by {
            assert(forall|i: int|
                0 <= i < a.drop_first().len() ==> #[trigger] a.drop_first()[i] == a[i + 1]);
        }
        lemma_split_prepend(a.drop_first(), b);
        lemma_prepend_compose(seq![a[0]], a.drop_first(), split_commas(b));
        assert(seq![a[0]] + a.drop_first() =~= a);
    }
}

/// Splitting undoes joining, for any parts free of commas.
pub proof fn lemma_split_join(parts: Seq<Seq<char>>)
    requires
        parts.len() >= 1,
        forall|i: int| 0 <= i < parts.len() ==> comma_free(#[trigger] parts[i]),
    ensures
        split_commas(join_commas(parts)) == parts,
    decreases parts.len(),
{
    if parts.len() == 1 {
        let p = parts[0];
        assert(p + Seq::<char>::empty() =~= p);
        lemma_split_prepend(p, Seq::<char>::empty());
        assert(split_commas(p) == prepend_first(p, seq![Seq::<char>::empty()]));
        assert(prepend_first(p, seq![Seq::<char>::empty()]) =~~= seq![p]);
        assert(parts =~~= seq![p]);
    } else {
        let rest = parts.drop_first();
        assert(forall|i: int| 0 <= i < rest.len() ==> #[trigger] rest[i] == parts[i + 1]);
        lemma_split_join(rest);
        let b = seq![','] + join_commas(rest);
        assert(b[0] == ',');
        assert(b.drop_first() =~= join_commas(rest));
        assert(split_commas(b) == seq![Seq::<char>::empty()] + rest);
        assert(join_commas(parts) =~= parts[0] + b);
        lemma_split_prepend(parts[0], b);
        lemma_split_commas_len(b);
        assert(parts[0] + (seq![Seq::<char>::empty()] + rest)[0] =~= parts[0]);
        assert(prepend_first(parts[0], seq![Seq::<char>::empty()] + rest) =~~= parts);
    }
}

/// Joining a first part extended by `a` prepends `a` to the join.
proof fn lemma_join_prepend(a: Seq<char>, ss: Seq<Seq<char>>)
    requires
        ss.len() >= 1,
    ensures
        join_commas(prepend_first(a, ss)) == a + join_commas(ss),
{
    let up = prepend_first(a, ss);
    if ss.len() == 1 {
        assert(up.len() == 1);
        assert(up[0] == a + ss[0]);
    } else {
        assert(up.drop_first() =~= ss.drop_first());
        assert(join_commas(up) == (a + ss[0]) + seq![','] + join_commas(ss.drop_first()));
        assert((a + ss[0]) + seq![','] + join_commas(ss.drop_first()) =~= a + (ss[0] + seq![',']
            + join_commas(ss.drop_first())));
    }
}

/// Splitting loses nothing: joining the parts back restores the text.
pub proof fn lemma_join_split(s: Seq<char>)
    ensures
        join_commas(split_commas(s)) == s,
    decreases s.len(),
{
    if s.len() == 0 {
    } else if s[0] == ',' {
        lemma_join_split(s.drop_first());
        lemma_split_commas_len(s.drop_first());
        let ss = split_commas(s.drop_first());
        let whole = seq![Seq::<char>::empty()] + ss;
        assert(whole.len() >= 2);
        assert(whole.drop_first() =~= ss);
        assert(whole[0] == Seq::<char>::empty());
        assert(join_commas(whole) == Seq::<char>::empty() + seq![','] + join_commas(ss));
        assert(Seq::<char>::empty() + seq![','] + s.drop_first() =~= s);
    } else {
        lemma_join_split(s.drop_first());
        lemma_split_commas_len(s.drop_first());
        lemma_join_prepend(seq![s[0]], split_commas(s.drop_first()));
        assert(seq![s[0]] + s.drop_first() =~= s);
    }
}

/// `first_unparsable` is the index it promises to be.
proof fn lemma_first_unparsable_is(parts: Seq<Seq<char>>, k: int)
    requires
        0 <= k <= parts.len(),
        forall|i: int| 0 <= i < k ==> parse_usize_spec(#[trigger] parts[i]) is Some,
        k < parts.len() ==> parse_usize_spec(parts[k]) is None,
    ensures
        first_unparsable(parts) == k,
    decreases parts.len(),
{
    if parts.len() == 0 {
    } else if k == 0 {
    } else {
        let rest = parts.drop_first();
        assert(forall|i: int| 0 <= i < rest.len() ==> #[trigger] rest[i] == parts[i + 1]);
        lemma_first_unparsable_is(rest, k - 1);
    }
}

/// A single comma string slice.
fn comma_str() -> (r: &'static str)
    ensures
        r@ =~= seq![','],
{
    proof {
        reveal_strlit(",");
    }
    ","
}

/// The views of a vector of owned parts.
pub open spec fn part_views(parts: Seq<String>) -> Seq<Seq<char>> {
    parts.map_values(|p: String| p@)
}

/// Split text at every comma, as the vertices field is read.
pub fn split_on_commas(s: &str) -> (parts: Vec<String>)
    ensures
        part_views(parts@) == split_commas(s@),
        parts@.len() >= 1,
{
    let n = s.unicode_len();
    let mut parts: Vec<String> = Vec::new();
    let mut start: usize = 0;
    let mut i: usize = 0;
    proof {
        lemma_split_commas_len(s@.skip(0));
        assert(s@.skip(0) =~= s@);
        assert(s@.subrange(0, 0) =~= Seq::<char>::empty());
        lemma_prepend_empty(s@.subrange(0, 0), split_commas(s@));
    }
    while i < n
        invariant
            0 <= start <= i <= n,
            n == s@.len(),
            split_commas(s@) == part_views(parts@) + prepend_first(
                s@.subrange(start as int, i as int),
                split_commas(s@.skip(i as int)),
            ),
        decreases n - i,
    {
        let ghost cur = s@.subrange(start as int, i as int);
        let ghost tail = split_commas(s@.skip(i as int));
        proof {
            lemma_split_commas_len(s@.skip(i as int));
            assert(s@.skip(i as int).len() > 0);
            assert(s@.skip(i as int)[0] == s@[i as int]);
            assert(s@.skip(i as int).drop_first() =~= s@.skip(i + 1));
        }
        let c = s.get_char(i);
        if c == ',' {
            let piece = s.substring_char(start, i).to_owned();
            proof {
                lemma_split_commas_len(s@.skip(i + 1));
                assert(tail == seq![Seq::<char>::empty()] + split_commas(s@.skip(i + 1)));
                assert(cur + tail[0] =~= cur);
                assert(prepend_first(cur, tail) =~~= seq![cur] + split_commas(s@.skip(i + 1)));
                assert(part_views(parts@.push(piece)) =~= part_views(parts@) + seq![cur]);
                assert(s@.subrange(i + 1, i + 1) =~= Seq::<char>::empty());
                lemma_prepend_empty(s@.subrange(i + 1, i + 1), split_commas(s@.skip(i + 1)));
                assert(part_views(parts@) + prepend_first(cur, tail) =~~= part_views(
                    parts@.push(piece),
                ) + prepend_first(s@.subrange(i + 1, i + 1), split_commas(s@.skip(i + 1))));
            }
            parts.push(piece);
            start = i + 1;
        } else {
            proof {
                assert(tail == prepend_first(seq![s@[i as int]], split_commas(s@.skip(i + 1))));
                lemma_split_commas_len(s@.skip(i + 1));
                lemma_prepend_compose(cur, seq![s@[i as int]], split_commas(s@.skip(i + 1)));
                assert(cur + seq![s@[i as int]] =~= s@.subrange(start as int, i + 1));
            }
        }
        i = i + 1;
    }
    let piece = s.substring_char(start, n).to_owned();
    proof {
        let cur = s@.subrange(start as int, n as int);
        assert(s@.skip(n as int) =~= Seq::<char>::empty());
        assert(split_commas(s@.skip(n as int)) == seq![Seq::<char>::empty()]);
        assert(cur + Seq::<char>::empty() =~= cur);
        assert(prepend_first(cur, seq![Seq::<char>::empty()]) =~~= seq![cur]);
        assert(part_views(parts@.push(piece)) =~= part_views(parts@) + seq![cur]);
        assert(part_views(parts@) + prepend_first(cur, split_commas(s@.skip(n as int))) =~~=
            part_views(parts@.push(piece)));
    }
    parts.push(piece);
    parts
}

/// Read a vertex list from the panel's text, exactly as the form does:
/// parse the comma-separated parts in order, keep the values before the
/// first failure, and accept only when nothing follows that failure.
pub fn parse_vertices(s: &str) -> (r: Option<Vec<usize>>)
    ensures
        r is Some <==> parse_vertices_spec(s@) is Some,
        r matches Some(v) ==> parse_vertices_spec(s@) == Some(v@),
{
    let parts = split_on_commas(s);
    let ghost pv = split_commas(s@);
    let len = parts.len();
    let mut vals: Vec<usize> = Vec::new();
    let mut j: usize = 0;
    while j < len
        invariant
            0 <= j <= len,
            len == parts@.len(),
            part_views(parts@) == pv,
            pv == split_commas(s@),
            vals@.len() == j,
            forall|i: int|
                0 <= i < j ==> parse_usize_spec(#[trigger] pv[i]) == Some(vals@[i]),
        decreases len - j,
    {
        let part = &parts[j];
        match parse_usize_str(part.as_str()) {
            Some(v) => {
                proof {
                    assert(pv[j as int] == parts@[j as int]@);
                }
                vals.push(v);
            },
            None => {
                proof {
                    assert(pv[j as int] == parts@[j as int]@);
                    lemma_first_unparsable_is(pv, j as int);
                }
                if j + 1 < len {
                    return None;
                } else {
                    proof {
                        assert(vals@ =~= Seq::new(
                            j as nat,
                            |i: int| parse_usize_spec(pv[i]).unwrap(),
                        ));
                    }
                    return Some(vals);
                }
            },
        }
        j = j + 1;
    }
    proof {
        lemma_first_unparsable_is(pv, len as int);
        assert(vals@ =~= Seq::new(len as nat, |i: int| parse_usize_spec(pv[i]).unwrap()));
    }
    Some(vals)
}

/// Appending one more part to a join appends a comma and the part.
proof fn lemma_join_push(parts: Seq<Seq<char>>, q: Seq<char>)
    ensures
        parts.len() == 0 ==> join_commas(parts.push(q)) == q,
        parts.len() >= 1 ==> join_commas(parts.push(q)) == join_commas(parts) + seq![','] + q,
    decreases parts.len(),
{
    let whole = parts.push(q);
    if parts.len() == 0 {
        assert(whole.len() == 1);
        assert(whole[0] == q);
    } else if parts.len() == 1 {
        assert(whole.len() == 2);
        assert(whole.drop_first() =~= seq![q]);
        assert(join_commas(seq![q]) == q);
        assert(join_commas(whole) == whole[0] + seq![','] + q);
        assert(whole[0] == parts[0]);
        assert(join_commas(parts) == parts[0]);
    } else {
        assert(whole.drop_first() =~= parts.drop_first().push(q));
        lemma_join_push(parts.drop_first(), q);
        assert(join_commas(whole) == parts[0] + seq![','] + (join_commas(parts.drop_first())
            + seq![','] + q));
        assert(parts[0] + seq![','] + (join_commas(parts.drop_first()) + seq![','] + q) =~= (
        parts[0] + seq![','] + join_commas(parts.drop_first())) + seq![','] + q);
    }
}

/// Render a vertex list as the panel shows it: decimal numerals joined
/// by commas.
pub fn render_vertices(v: &Vec<usize>) -> (r: String)
    ensures
        r@ == vertices_text(v@),
{
    let ghost parts = v@.map_values(|n: usize| dec_rep(n as nat));
    if v.len() == 0 {
        proof {
            assert(parts.len() == 0);
        }
        return String::new();
    }
    let mut out = fmt_usize(v[0]);
    proof {
        assert(v@.take(1).map_values(|n: usize| dec_rep(n as nat)) =~= seq![
            dec_rep(v@[0] as nat),
        ]);
    }
    let mut k: usize = 1;
    while k < v.len()
        invariant
            1 <= k <= v@.len(),
            out@ == join_commas(v@.take(k as int).map_values(|n: usize| dec_rep(n as nat))),
        decreases v@.len() - k,
    {
        let ghost prefix = v@.take(k as int).map_values(|n: usize| dec_rep(n as nat));
        out.append(comma_str());
        let numeral = fmt_usize(v[k]);
        out.append(numeral.as_str());
        proof {
            lemma_join_push(prefix, dec_rep(v@[k as int] as nat));
            assert(prefix.len() >= 1);
            assert(v@.take(k + 1).map_values(|n: usize| dec_rep(n as nat)) =~= prefix.push(
                dec_rep(v@[k as int] as nat),
            ));
            assert(out@ =~= join_commas(prefix) + seq![','] + dec_rep(v@[k as int] as nat));
        }
        k = k + 1;
    }
    proof {
        assert(v@.take(v@.len() as int) =~= v@);
    }
    out
}

/// A rendered vertex list reads back as itself: rendering then parsing
/// returns exactly the list that was rendered.
pub proof fn lemma_vertices_round_trip(v: Seq<usize>)
    ensures
        parse_vertices_spec(vertices_text(v)) == Some(v),
{
    let parts = v.map_values(|n: usize| dec_rep(n as nat));
    if v.len() == 0 {
        let s = join_commas(parts);
        assert(parts.len() == 0);
        assert(s =~= Seq::<char>::empty());
        let sp = split_commas(s);
        assert(sp == seq![Seq::<char>::empty()]);
        assert(parse_usize_spec(Seq::<char>::empty()) is None);
        lemma_first_unparsable_is(sp, 0);
        assert(parse_vertices_spec(s) == Some(Seq::new(0, |i: int| parse_usize_spec(sp[i]).unwrap())));
        assert(Seq::new(0, |i: int| parse_usize_spec(sp[i]).unwrap()) =~= v);
    } else {
        assert forall|i: int| 0 <= i < parts.len() implies comma_free(#[trigger] parts[i]) by {
            lemma_dec_rep(v[i] as nat);
            assert forall|m: int| 0 <= m < parts[i].len() implies #[trigger] parts[i][m] != ',' by {
                assert(is_dec_digit(parts[i][m]));
            }
        }
        lemma_split_join(parts);
        assert forall|i: int|
            0 <= i < parts.len() implies parse_usize_spec(#[trigger] parts[i]) == Some(v[i]) by {
            lemma_parse_dec_rep(v[i]);
        }
        lemma_first_unparsable_is(parts, parts.len() as int);
        assert(Seq::new(parts.len(), |i: int| parse_usize_spec(parts[i]).unwrap()) =~= v);
    }
}

} // verus!
