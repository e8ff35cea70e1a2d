//! What writing and reading a property string do to each other.
//!
//! Reading back what was written gives the pairs that were written, as far
//! as they can be written at all: a pair with an empty key is never written,
//! and a separator inside a key or a value would be read as a separator.

use crate::properties::{
    as_pair, entries, is_separator, lookup, nonempty, other_key, pair_text, pairs_of, render,
    trimmed, FIELD_SEPARATOR, LIST_SEPARATOR,
};
use crate::text::{
    first_index, lemma_first_index, lemma_first_index_is, lemma_split_all_pieces, split_all,
    split_first,
};
use vstd::prelude::*;

verus! {

/// A pair that reads back as it was written, if it is written: no `;` and
/// no `=` in the key, no `;` in the value.
pub open spec fn clean(e: (Seq<char>, Seq<char>)) -> bool {
    &&& !e.0.contains(LIST_SEPARATOR)
    &&& !e.0.contains(FIELD_SEPARATOR)
    &&& !e.1.contains(LIST_SEPARATOR)
}

/// Whether every pair is clean.
pub open spec fn all_clean(es: Seq<(Seq<char>, Seq<char>)>) -> bool {
    forall|i: int| 0 <= i < es.len() ==> clean(#[trigger] es[i])
}

/// Selects the pairs whose key is not empty: those that are written.
pub open spec fn keyed() -> spec_fn((Seq<char>, Seq<char>)) -> bool {
    |e: (Seq<char>, Seq<char>)| e.0.len() > 0
}

/// A text without the character is passed over whole.
proof fn lemma_first_index_absent(s: Seq<char>, c: char)
    requires
        !s.contains(c),
    ensures
        first_index(s, c) == s.len(),
{
    assert forall|j: int| 0 <= j < s.len() implies s[j] != c by {
        assert(s.contains(s[j]));
    }
    lemma_first_index_is(s, c, s.len() as int);
}

/// Splitting two texts joined by a separator gives the pieces of the first,
/// then those of the second.
pub proof fn lemma_split_all_joined(a: Seq<char>, b: Seq<char>, sep: char)
    ensures
        split_all(a + seq![sep] + b, sep) == split_all(a, sep) + split_all(b, sep),
    decreases a.len(),
{
    let whole = a + seq![sep] + b;
    lemma_first_index(a, sep);
    let i = first_index(a, sep) as int;
    assert forall|j: int| 0 <= j < i implies whole[j] != sep by {
        assert(whole[j] == a[j]);
    }
    if i < a.len() {
        assert(whole[i] == a[i]);
        lemma_first_index_is(whole, sep, i);
        assert(whole.take(i) =~= a.take(i));
        assert(whole.skip(i + 1) =~= a.skip(i + 1) + seq![sep] + b);
        lemma_split_all_joined(a.skip(i + 1), b, sep);
        assert(split_all(whole, sep) =~= split_all(a, sep) + split_all(b, sep));
    } else {
        assert(whole[i] == sep);
        lemma_first_index_is(whole, sep, i);
        assert(whole.take(i) =~= a);
        assert(whole.skip(i + 1) =~= b);
    }
}

/// The text of a clean pair holds no `;`, and reads back as the pair.
pub proof fn lemma_pair_text_reads_back(e: (Seq<char>, Seq<char>))
    requires
        clean(e),
    ensures
        !pair_text(e).contains(LIST_SEPARATOR),
        split_first(pair_text(e), FIELD_SEPARATOR) == e,
        split_all(pair_text(e), LIST_SEPARATOR) == seq![pair_text(e)],
        pair_text(e).len() >= e.0.len(),
{
    let t = pair_text(e);
    assert forall|j: int| 0 <= j < t.len() implies t[j] != LIST_SEPARATOR by {
        if e.1.len() == 0 {
            assert(e.0.contains(t[j]));
        } else if j < e.0.len() {
            assert(t[j] == e.0[j]);
            assert(e.0.contains(e.0[j]));
        } else if j > e.0.len() {
            assert(t[j] == e.1[j - e.0.len() - 1]);
            assert(e.1.contains(e.1[j - e.0.len() - 1]));
        }
    }
    lemma_first_index_is(t, LIST_SEPARATOR, t.len() as int);
    if e.1.len() == 0 {
        lemma_first_index_absent(t, FIELD_SEPARATOR);
        assert(e.1 =~= Seq::<char>::empty());
    } else {
        let i = e.0.len() as int;
        assert forall|j: int| 0 <= j < i implies t[j] != FIELD_SEPARATOR by {
            assert(t[j] == e.0[j]);
            assert(e.0.contains(e.0[j]));
        }
        assert(t[i] == FIELD_SEPARATOR);
        lemma_first_index_is(t, FIELD_SEPARATOR, i);
        assert(t.take(i) =~= e.0);
        assert(t.skip(i + 1) =~= e.1);
    }
}

/// One more piece gives one more pair, unless the piece is empty.
proof fn lemma_pairs_of_push(pieces: Seq<Seq<char>>, p: Seq<char>)
    ensures
        pairs_of(pieces.push(p)) == if p.len() > 0 {
            pairs_of(pieces).push(split_first(p, FIELD_SEPARATOR))
        } else {
            pairs_of(pieces)
        },
{
    pieces.lemma_filter_push(p, nonempty());
    if p.len() > 0 {
        pieces.filter(nonempty()).lemma_push_map_commute(as_pair(), p);
    }
}

/// Nothing is written for pairs of which none has a key, and something for
/// any other.
proof fn lemma_render_empty(es: Seq<(Seq<char>, Seq<char>)>)
    ensures
        render(es).len() == 0 <==> es.filter(keyed()).len() == 0,
    decreases es.len(),
{
    reveal(Seq::filter);
    if es.len() > 0 {
        lemma_render_empty(es.drop_last());
        assert(es.drop_last().push(es.last()) =~= es);
        es.drop_last().lemma_filter_push(es.last(), keyed());
    }
}

/// Reading back what was written for clean pairs gives those pairs that
/// have a key, in their order.
pub proof fn lemma_entries_of_render(es: Seq<(Seq<char>, Seq<char>)>)
    requires
        all_clean(es),
    ensures
        entries(render(es)) == es.filter(keyed()),
    decreases es.len(),
{
    reveal(Seq::filter);
    if es.len() == 0 {
        let none = Seq::<Seq<char>>::empty();
        assert(split_all(render(es), LIST_SEPARATOR) =~= none.push(Seq::<char>::empty()));
        lemma_pairs_of_push(none, Seq::<char>::empty());
        assert(pairs_of(none) =~= Seq::<(Seq<char>, Seq<char>)>::empty());
        assert(es.filter(keyed()) =~= Seq::<(Seq<char>, Seq<char>)>::empty());
    } else {
        let init = es.drop_last();
        let e = es.last();
        assert(init.push(e) =~= es);
        assert(all_clean(init)) by {
            assert forall|i: int| 0 <= i < init.len() implies clean(#[trigger] init[i]) by {
                assert(init[i] == es[i]);
            }
        }
        lemma_entries_of_render(init);
        init.lemma_filter_push(e, keyed());
        if e.0.len() > 0 {
            lemma_pair_text_reads_back(e);
            lemma_render_empty(init);
            if render(init).len() == 0 {
                let none = Seq::<Seq<char>>::empty();
                assert(render(es) == pair_text(e));
                assert(split_all(render(es), LIST_SEPARATOR) =~= none.push(pair_text(e)));
                lemma_pairs_of_push(none, pair_text(e));
                assert(pairs_of(none) =~= Seq::<(Seq<char>, Seq<char>)>::empty());
                assert(init.filter(keyed()) =~= Seq::<(Seq<char>, Seq<char>)>::empty());
            } else {
                assert(render(es) == render(init) + seq![LIST_SEPARATOR] + pair_text(e));
                lemma_split_all_joined(render(init), pair_text(e), LIST_SEPARATOR);
                let before = split_all(render(init), LIST_SEPARATOR);
                assert(before + seq![pair_text(e)] =~= before.push(pair_text(e)));
                lemma_pairs_of_push(before, pair_text(e));
            }
        }
    }
}

/// Every pair read from a property string is clean: what is read is what
/// can be written.
pub proof fn lemma_entries_clean(s: Seq<char>)
    ensures
        all_clean(entries(s)),
{
    let pieces = split_all(s, LIST_SEPARATOR);
    let kept = pieces.filter(nonempty());
    lemma_split_all_pieces(s, LIST_SEPARATOR);
    assert forall|i: int| 0 <= i < entries(s).len() implies clean(#[trigger] entries(s)[i]) by {
        let p = kept[i];
        assert(entries(s)[i] == split_first(p, FIELD_SEPARATOR));
        pieces.lemma_filter_contains_rev(nonempty(), p);
        assert(pieces.contains(p));
        let j = choose|j: int| 0 <= j < pieces.len() && pieces[j] == p;
        assert(!pieces[j].contains(LIST_SEPARATOR));
        lemma_first_index(p, FIELD_SEPARATOR);
        let k = first_index(p, FIELD_SEPARATOR) as int;
        let e = split_first(p, FIELD_SEPARATOR);
        assert forall|c: char| e.0.contains(c) implies c != LIST_SEPARATOR && c
            != FIELD_SEPARATOR by {
            let x = choose|x: int| 0 <= x < e.0.len() && e.0[x] == c;
            assert(e.0[x] == p[x]);
            assert(p.contains(p[x]));
        }
        assert forall|c: char| e.1.contains(c) implies c != LIST_SEPARATOR by {
            let x = choose|x: int| 0 <= x < e.1.len() && e.1[x] == c;
            assert(e.1[x] == p[x + k + 1]);
            assert(p.contains(p[x + k + 1]));
        }
    }
}

/// Looking a key up among the pairs that have a key finds what looking it
/// up among all of them finds, for a key that is not empty.
proof fn lemma_lookup_keyed(es: Seq<(Seq<char>, Seq<char>)>, k: Seq<char>)
    requires
        k.len() > 0,
    ensures
        lookup(es.filter(keyed()), k) == lookup(es, k),
    decreases es.len(),
{
    reveal(Seq::filter);
    if es.len() > 0 {
        let rest = es.drop_first();
        lemma_lookup_keyed(rest, k);
        assert(seq![es[0]] + rest =~= es);
        Seq::filter_distributes_over_add(seq![es[0]], rest, keyed());
        assert(seq![es[0]].filter(keyed()) =~= if es[0].0.len() > 0 {
            seq![es[0]]
        } else {
            Seq::empty()
        }) by {
            Seq::<(Seq<char>, Seq<char>)>::empty().lemma_filter_push(es[0], keyed());
            assert(Seq::<(Seq<char>, Seq<char>)>::empty().push(es[0]) =~= seq![es[0]]);
        }
        if es[0].0.len() > 0 {
            let kept = seq![es[0]] + rest.filter(keyed());
            assert(kept[0] == es[0]);
            assert(kept.drop_first() =~= rest.filter(keyed()));
        } else {
            assert(Seq::<(Seq<char>, Seq<char>)>::empty() + rest.filter(keyed()) =~= rest.filter(
                keyed(),
            ));
            assert(es[0].0 != k);
        }
    }
}

/// Among the pairs with another key than `k`, `k` is not found, and any
/// other key is found as before.
proof fn lemma_lookup_other_key(es: Seq<(Seq<char>, Seq<char>)>, k: Seq<char>, q: Seq<char>)
    ensures
        lookup(es.filter(other_key(k)), q) == if q == k {
            None
        } else {
            lookup(es, q)
        },
    decreases es.len(),
{
    reveal(Seq::filter);
    if es.len() > 0 {
        let rest = es.drop_first();
        lemma_lookup_other_key(rest, k, q);
        assert(seq![es[0]] + rest =~= es);
        Seq::filter_distributes_over_add(seq![es[0]], rest, other_key(k));
        assert(seq![es[0]].filter(other_key(k)) =~= if es[0].0 != k {
            seq![es[0]]
        } else {
            Seq::empty()
        }) by {
            Seq::<(Seq<char>, Seq<char>)>::empty().lemma_filter_push(es[0], other_key(k));
            assert(Seq::<(Seq<char>, Seq<char>)>::empty().push(es[0]) =~= seq![es[0]]);
        }
        if es[0].0 != k {
            let kept = seq![es[0]] + rest.filter(other_key(k));
            assert(kept[0] == es[0]);
            assert(kept.drop_first() =~= rest.filter(other_key(k)));
        } else {
            assert(Seq::<(Seq<char>, Seq<char>)>::empty() + rest.filter(other_key(k))
                =~= rest.filter(other_key(k)));
        }
    }
}

/// Looking a key up after one more pair finds what was found before, and
/// the new pair only where nothing was.
proof fn lemma_lookup_push(es: Seq<(Seq<char>, Seq<char>)>, e: (Seq<char>, Seq<char>), q: Seq<char>)
    ensures
        lookup(es.push(e), q) == match lookup(es, q) {
            Some(v) => Some(v),
            None => if e.0 == q {
                Some(e.1)
            } else {
                None
            },
        },
    decreases es.len(),
{
    if es.len() == 0 {
        assert(es.push(e).drop_first() =~= es);
    } else {
        lemma_lookup_push(es.drop_first(), e, q);
        assert(es.push(e).drop_first() =~= es.drop_first().push(e));
    }
}

/// After a key was given a value, the key has that value, and every other
/// key has the value it had. This holds for a key that is not empty and
/// that, like its value, holds no separator that would split it.
pub proof fn lemma_insert_then_get(s: Seq<char>, k: Seq<char>, v: Seq<char>, q: Seq<char>)
    requires
        clean((k, v)),
        k.len() > 0,
        q.len() > 0,
    ensures
        ({
            let after = render(entries(s).filter(other_key(k)).push((k, v)));
            lookup(entries(after), q) == if q == k {
                Some(v)
            } else {
                lookup(entries(s), q)
            }
        }),
{
    let kept = entries(s).filter(other_key(k));
    let written = kept.push((k, v));
    lemma_entries_clean(s);
    assert(all_clean(written)) by {
        assert forall|i: int| 0 <= i < written.len() implies clean(#[trigger] written[i]) by {
            if i < kept.len() {
                entries(s).lemma_filter_contains_rev(other_key(k), kept[i]);
                let j = choose|j: int| 0 <= j < entries(s).len() && entries(s)[j] == kept[i];
                assert(clean(entries(s)[j]));
            }
        }
    }
    lemma_entries_of_render(written);
    lemma_lookup_keyed(written, q);
    lemma_lookup_push(kept, (k, v), q);
    lemma_lookup_other_key(entries(s), k, q);
}

/// After a key was removed it has no value, and every other key has the
/// value it had.
pub proof fn lemma_remove_then_get(s: Seq<char>, k: Seq<char>, q: Seq<char>)
    requires
        q.len() > 0,
    ensures
        ({
            let after = render(entries(s).filter(other_key(k)));
            lookup(entries(after), q) == if q == k {
                None
            } else {
                lookup(entries(s), q)
            }
        }),
{
    let kept = entries(s).filter(other_key(k));
    lemma_entries_clean(s);
    assert(all_clean(kept)) by {
        assert forall|i: int| 0 <= i < kept.len() implies clean(#[trigger] kept[i]) by {
            entries(s).lemma_filter_contains_rev(other_key(k), kept[i]);
            let j = choose|j: int| 0 <= j < entries(s).len() && entries(s)[j] == kept[i];
            assert(clean(entries(s)[j]));
        }
    }
    lemma_entries_of_render(kept);
    lemma_lookup_keyed(kept, q);
    lemma_lookup_other_key(entries(s), k, q);
}

/// Trimming leaves a beginning of the text that does not end in a
/// separator, and only separators are cut off; so trimming again changes
/// nothing.
pub proof fn lemma_trimmed(s: Seq<char>)
    ensures
        trimmed(s).len() <= s.len(),
        trimmed(s) == s.take(trimmed(s).len() as int),
        trimmed(s).len() > 0 ==> !is_separator(trimmed(s).last()),
        forall|i: int| trimmed(s).len() <= i < s.len() ==> is_separator(s[i]),
        trimmed(trimmed(s)) == trimmed(s),
    decreases s.len(),
{
    if s.len() > 0 && is_separator(s.last()) {
        let init = s.drop_last();
        lemma_trimmed(init);
        assert(init.take(trimmed(init).len() as int) =~= s.take(trimmed(init).len() as int));
        assert forall|i: int| trimmed(s).len() <= i < s.len() implies is_separator(s[i]) by {
            if i < init.len() {
                assert(s[i] == init[i]);
            }
        }
    } else {
        assert(s.take(s.len() as int) =~= s);
    }
}

} // verus!
