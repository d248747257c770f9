//! The query string of a locator, and reading one back into its entries.
use vstd::prelude::*;
use crate::locator::{entries_view, entries_wf, Locator};
use crate::text::separator_free;

verus! {

/// The index of the first `c` in `s`, or -1 where `s` holds none.
pub open spec fn first_index_of(s: Seq<char>, c: char) -> int
    decreases s.len(),
{
    if s.len() == 0 {
        -1
    } else if s[0] == c {
        0
    } else {
        let k = first_index_of(s.drop_first(), c);
        if k < 0 {
            -1
        } else {
            k + 1
        }
    }
}

/// One entry as it stands in a query string: `name=value`.
pub open spec fn entry_text(e: (Seq<char>, Seq<char>)) -> Seq<char> {
    e.0 + seq!['='] + e.1
}

/// The query string of a list of entries: their texts joined by `&`.
pub open spec fn query_text(es: Seq<(Seq<char>, Seq<char>)>) -> Seq<char>
    decreases es.len(),
{
    if es.len() == 0 {
        Seq::empty()
    } else if es.len() == 1 {
        entry_text(es[0])
    } else {
        entry_text(es[0]) + seq!['&'] + query_text(es.drop_first())
    }
}

/// Reads one entry: the text before the first `=` is the name, the text after
/// it the value; with no `=` the whole text is the name and the value is empty.
pub open spec fn split_entry(s: Seq<char>) -> (Seq<char>, Seq<char>) {
    let k = first_index_of(s, '=');
    if k < 0 {
        (s, Seq::empty())
    } else {
        (s.take(k), s.skip(k + 1))
    }
}

/// Reads a query string: the pieces between `&` separators, each read as an entry.
pub open spec fn split_query(s: Seq<char>) -> Seq<(Seq<char>, Seq<char>)>
    decreases s.len(),
{
    if s.len() == 0 {
        Seq::empty()
    } else {
        let k = first_index_of(s, '&');
        if 0 <= k < s.len() {
            seq![split_entry(s.take(k))] + split_query(s.skip(k + 1))
        } else {
            seq![split_entry(s)]
        }
    }
}

/// The full text of a locator: its path, then `?` and the query string where
/// it has entries.
pub open spec fn locator_text(v: (Seq<char>, Seq<(Seq<char>, Seq<char>)>)) -> Seq<char> {
    if v.1.len() == 0 {
        v.0
    } else {
        v.0 + seq!['?'] + query_text(v.1)
    }
}

proof fn lemma_first_index_is(s: Seq<char>, c: char, k: int)
    requires
        0 <= k <= s.len(),
        forall|i: int| 0 <= i < k ==> s[i] != c,
        k < s.len() ==> s[k] == c,
    ensures
        first_index_of(s, c) == if k < s.len() { k } else { -1 },
    decreases s.len(),
{
    if s.len() > 0 && k > 0 {
        let t = s.drop_first();
        assert forall|i: int| 0 <= i < k - 1 implies t[i] != c by {
            assert(t[i] == s[i + 1]);
        }
        lemma_first_index_is(t, c, k - 1);
    }
}

proof fn lemma_split_entry(e: (Seq<char>, Seq<char>))
    requires
        separator_free(e.0),
    ensures
        split_entry(entry_text(e)) == e,
{
    let s = entry_text(e);
    assert forall|i: int| 0 <= i < e.0.len() implies s[i] != '=' by {
        assert(s[i] == e.0[i]);
    }
    lemma_first_index_is(s, '=', e.0.len() as int);
    assert(s.take(e.0.len() as int) =~= e.0);
    assert(s.skip(e.0.len() as int + 1) =~= e.1);
}

proof fn lemma_entry_amp_free(e: (Seq<char>, Seq<char>))
    requires
        separator_free(e.0),
        separator_free(e.1),
    ensures
        forall|i: int| 0 <= i < entry_text(e).len() ==> entry_text(e)[i] != '&',
{
    let s = entry_text(e);
    assert forall|i: int| 0 <= i < s.len() implies s[i] != '&' by {
        if i < e.0.len() {
            assert(s[i] == e.0[i]);
        } else if i > e.0.len() {
            assert(s[i] == e.1[i - e.0.len() - 1]);
        }
    }
}

/// Appending an entry to a non-empty list appends `&` and its text.
pub proof fn lemma_query_text_push(es: Seq<(Seq<char>, Seq<char>)>, e: (Seq<char>, Seq<char>))
    requires
        es.len() >= 1,
    ensures
        query_text(es.push(e)) == query_text(es) + seq!['&'] + entry_text(e),
    decreases es.len(),
{
    let longer = es.push(e);
    assert(longer.drop_first() =~= es.drop_first().push(e));
    if es.len() == 1 {
        assert(longer.drop_first() =~= seq![e]);
        assert(query_text(seq![e]) == entry_text(e));
        assert(longer[0] == es[0]);
        assert(query_text(longer) =~= query_text(es) + seq!['&'] + entry_text(e));
    } else {
        assert(longer[0] == es[0]);
        lemma_query_text_push(es.drop_first(), e);
        assert(query_text(longer) =~= query_text(es) + seq!['&'] + entry_text(e));
    }
}

/// Reading back the query string of separator-free entries gives those
/// entries, in the same order.
pub proof fn lemma_split_query_text(es: Seq<(Seq<char>, Seq<char>)>)
    requires
        entries_wf(es),
    ensures
        split_query(query_text(es)) == es,
    decreases es.len(),
{
    if es.len() == 0 {
        assert(split_query(query_text(es)) =~= es);
    } else {
        let e = es[0];
        let t = entry_text(e);
        lemma_entry_amp_free(e);
        lemma_split_entry(e);
        if es.len() == 1 {
            lemma_first_index_is(t, '&', t.len() as int);
            assert(split_query(query_text(es)) =~= es);
        } else {
            let rest = es.drop_first();
            assert(entries_wf(rest)) by {
                assert forall|i: int| 0 <= i < rest.len() implies separator_free(
                    #[trigger] rest[i].0,
                ) && separator_free(rest[i].1) by {
                    assert(rest[i] == es[i + 1]);
                }
            }
            lemma_split_query_text(rest);
            let s = query_text(es);
            assert(s == t + seq!['&'] + query_text(rest));
            assert forall|i: int| 0 <= i < t.len() implies s[i] != '&' by {
                assert(s[i] == t[i]);
            }
            lemma_first_index_is(s, '&', t.len() as int);
            assert(s.take(t.len() as int) =~= t);
            assert(s.skip(t.len() as int + 1) =~= query_text(rest));
            assert(split_query(s) =~= seq![e] + rest);
            assert(seq![e] + rest =~= es);
        }
    }
}

/// The law of the query string: reading back the query string of a locator
/// gives exactly its entries, in order.
pub proof fn lemma_query_round_trip(l: Locator)
    requires
        l.wf(),
    ensures
        split_query(query_text(l@.1)) == l@.1,
{
    lemma_split_query_text(l@.1);
}

/// The first index at or after `from` where `s` holds `c`, or the length of
/// `s` where there is none.
fn find_char(s: &str, from: usize, c: char) -> (r: usize)
    requires
        from <= s@.len(),
    ensures
        from <= r <= s@.len(),
        forall|i: int| from <= i < r ==> s@[i] != c,
        r < s@.len() ==> s@[r as int] == c,
{
    let n = s.unicode_len();
    let mut i = from;
    while i < n
        invariant
            n == s@.len(),
            from <= i <= n,
            forall|j: int| from <= j < i ==> s@[j] != c,
        decreases n - i,
    {
        if s.get_char(i) == c {
            return i;
        }
        i = i + 1;
    }
    i
}

/// Reads one query entry, as [`split_entry`] says.
pub fn parse_entry(piece: &str) -> (r: (String, String))
    ensures
        (r.0@, r.1@) == split_entry(piece@),
{
    let n = piece.unicode_len();
    let k = find_char(piece, 0, '=');
    proof {
        lemma_first_index_is(piece@, '=', k as int);
    }
    if k == n {
        (String::from_str(piece), String::new())
    } else {
        let name = String::from_str(piece.substring_char(0, k));
        let value = String::from_str(piece.substring_char(k + 1, n));
        assert(value@ =~= piece@.skip(k as int + 1));
        (name, value)
    }
}

/// Reads a query string back into its entries, as [`split_query`] says.
pub fn parse_query(s: &str) -> (r: Vec<(String, String)>)
    ensures
        entries_view(r@) == split_query(s@),
{
    let n = s.unicode_len();
    let mut out: Vec<(String, String)> = Vec::new();
    let mut start: usize = 0;
    assert(s@.skip(0) =~= s@);
    while start < n
        invariant
            n == s@.len(),
            start <= n,
            split_query(s@) == entries_view(out@) + split_query(s@.skip(start as int)),
        decreases n - start,
    {
        let ghost t = s@.skip(start as int);
        let k = find_char(s, start, '&');
        proof {
            assert forall|i: int| 0 <= i < k - start implies t[i] != '&' by {
                assert(t[i] == s@[start + i]);
            }
            if k < n {
                assert(t[k - start] == s@[k as int]);
            }
            lemma_first_index_is(t, '&', k - start);
        }
        let piece = s.substring_char(start, k);
        let e = parse_entry(piece);
        let ghost old_view = entries_view(out@);
        out.push(e);
        assert(entries_view(out@) =~= old_view.push((e.0@, e.1@)));
        if k < n {
            assert(t.take(k - start) =~= piece@);
            assert(t.skip(k - start + 1) =~= s@.skip(k as int + 1));
            start = k + 1;
        } else {
            assert(t =~= piece@);
            assert(s@.skip(n as int) =~= Seq::<char>::empty());
            start = n;
        }
        assert(old_view.push((e.0@, e.1@)) + split_query(s@.skip(start as int)) =~= old_view + (
        seq![(e.0@, e.1@)] + split_query(s@.skip(start as int))));
    }
    assert(s@.skip(start as int) =~= Seq::<char>::empty());
    assert(entries_view(out@) + Seq::empty() =~= entries_view(out@));
    out
}

} // verus!
