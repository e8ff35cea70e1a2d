//! A map of key/value properties kept as one string: `key=value` items
//! separated by `;`, the values of one key separated by `|`.

use crate::text::{split, split_all, split_first, split_once, str_eq, views};
use std::borrow::Cow;
use std::collections::HashMap;
use vstd::prelude::*;
use vstd::string::StringExecFns;

verus! {

/// Stands between two properties.
pub const LIST_SEPARATOR: char = ';';

/// Stands between a key and its value.
pub const FIELD_SEPARATOR: char = '=';

/// Stands between the values of one key.
pub const VALUE_SEPARATOR: char = '|';

/// Whether `c` is one of the three separators.
pub open spec fn is_separator(c: char) -> bool {
    c == LIST_SEPARATOR || c == FIELD_SEPARATOR || c == VALUE_SEPARATOR
}

/// `s` without the separators that end it.
pub open spec fn trimmed(s: Seq<char>) -> Seq<char>
    decreases s.len(),
{
    if s.len() > 0 && is_separator(s.last()) {
        trimmed(s.drop_last())
    } else {
        s
    }
}

/// Selects the pieces that hold at least one character.
pub open spec fn nonempty() -> spec_fn(Seq<char>) -> bool {
    |p: Seq<char>| p.len() > 0
}

/// Reads one piece as a key and a value.
pub open spec fn as_pair() -> spec_fn(Seq<char>) -> (Seq<char>, Seq<char>) {
    |p: Seq<char>| split_first(p, FIELD_SEPARATOR)
}

/// The key/value pairs that the pieces spell, empty pieces left out.
pub open spec fn pairs_of(pieces: Seq<Seq<char>>) -> Seq<(Seq<char>, Seq<char>)> {
    pieces.filter(nonempty()).map_values(as_pair())
}

/// The key/value pairs of a property string, in the order written.
pub open spec fn entries(s: Seq<char>) -> Seq<(Seq<char>, Seq<char>)> {
    pairs_of(split_all(s, LIST_SEPARATOR))
}

/// The value of the first pair whose key is `k`.
pub open spec fn lookup(es: Seq<(Seq<char>, Seq<char>)>, k: Seq<char>) -> Option<Seq<char>>
    decreases es.len(),
{
    if es.len() == 0 {
        None
    } else if es[0].0 == k {
        Some(es[0].1)
    } else {
        lookup(es.drop_first(), k)
    }
}

/// Whether some pair has the key `k`.
pub open spec fn has_key(es: Seq<(Seq<char>, Seq<char>)>, k: Seq<char>) -> bool {
    exists|i: int| 0 <= i < es.len() && (#[trigger] es[i]).0 == k
}

/// Selects the pairs whose key is not `k`.
pub open spec fn other_key(k: Seq<char>) -> spec_fn((Seq<char>, Seq<char>)) -> bool {
    |e: (Seq<char>, Seq<char>)| e.0 != k
}

/// Selects the pairs whose key is the key of no pair of `new`.
pub open spec fn not_in(new: Seq<(Seq<char>, Seq<char>)>) -> spec_fn(
    (Seq<char>, Seq<char>),
) -> bool {
    |e: (Seq<char>, Seq<char>)| !has_key(new, e.0)
}

/// One pair as text: the key alone when the value is empty.
pub open spec fn pair_text(e: (Seq<char>, Seq<char>)) -> Seq<char> {
    if e.1.len() == 0 {
        e.0
    } else {
        e.0 + seq![FIELD_SEPARATOR] + e.1
    }
}

/// `text` with one more pair written behind it. A pair with an empty key
/// writes nothing.
pub open spec fn with_pair(text: Seq<char>, e: (Seq<char>, Seq<char>)) -> Seq<char> {
    if e.0.len() == 0 {
        text
    } else if text.len() == 0 {
        pair_text(e)
    } else {
        text + seq![LIST_SEPARATOR] + pair_text(e)
    }
}

/// The property string that spells the pairs, in their order.
pub open spec fn render(es: Seq<(Seq<char>, Seq<char>)>) -> Seq<char>
    decreases es.len(),
{
    if es.len() == 0 {
        Seq::empty()
    } else {
        with_pair(render(es.drop_last()), es.last())
    }
}

/// The views of a sequence of pairs of string slices.
pub open spec fn pair_views(v: Seq<(&str, &str)>) -> Seq<(Seq<char>, Seq<char>)> {
    v.map_values(|e: (&str, &str)| (e.0@, e.1@))
}

/// The view of an optional string slice.
pub open spec fn opt_view(o: Option<&str>) -> Option<Seq<char>> {
    match o {
        Some(s) => Some(s@),
        None => None,
    }
}

/// The view of an optional string.
pub open spec fn opt_string_view(o: Option<String>) -> Option<Seq<char>> {
    match o {
        Some(s) => Some(s@),
        None => None,
    }
}

/// A map of key/value (string, string) properties, kept as the text that
/// spells them.
#[derive(Clone, Debug, Eq)]
pub struct Properties {
    inner: String,
}

impl View for Properties {
    type V = Seq<char>;

    closed spec fn view(&self) -> Seq<char> {
        self.inner@
    }
}

impl PartialEq for Properties {
    /// Two maps of properties are equal when the same text spells them.
    fn eq(&self, other: &Self) -> (r: bool) {
        self.inner == other.inner
    }
}

impl vstd::std_specs::cmp::PartialEqSpecImpl for Properties {
    open spec fn obeys_eq_spec() -> bool {
        true
    }

    open spec fn eq_spec(&self, other: &Self) -> bool {
        self@ == other@
    }
}

impl Default for Properties {
    /// Properties that contain nothing.
    fn default() -> (r: Properties)
        ensures
            r@ == Seq::<char>::empty(),
    {
        Properties { inner: String::new() }
    }
}

impl Properties {
    /// Returns `true` if properties does not contain anything.
    pub fn is_empty(&self) -> (r: bool)
        ensures
            r == (self@.len() == 0),
    {
        self.inner.as_str().is_empty()
    }

    /// Returns properties as a string slice.
    pub fn as_str(&self) -> (r: &str)
        ensures
            r@ == self@,
    {
        self.inner.as_str()
    }

    /// Returns the key/value pairs, in the order written.
    pub fn iter(&self) -> (r: Vec<(&str, &str)>)
        ensures
            pair_views(r@) == entries(self@),
    {
        let pieces = split(self.inner.as_str(), LIST_SEPARATOR);
        let mut out: Vec<(&str, &str)> = Vec::new();
        let mut i: usize = 0;
        proof {
            reveal(Seq::filter);
            assert(views(pieces@).take(0) =~= Seq::<Seq<char>>::empty());
            assert(pair_views(out@) =~= pairs_of(views(pieces@).take(0)));
        }
        while i < pieces.len()
            invariant
                i <= pieces.len(),
                pair_views(out@) == pairs_of(views(pieces@).take(i as int)),
            decreases pieces.len() - i,
        {
            let piece = pieces[i];
            let ghost ps = views(pieces@);
            let ghost before = pair_views(out@);
            proof {
                assert(ps[i as int] == piece@);
                ps.lemma_take_succ_push(i as int);
                ps.take(i as int).lemma_filter_push(piece@, nonempty());
            }
            if !piece.is_empty() {
                let pair = split_once(piece, FIELD_SEPARATOR);
                out.push(pair);
                proof {
                    assert(pair_views(out@) =~= before.push((pair.0@, pair.1@)));
                    ps.take(i as int).filter(nonempty()).lemma_push_map_commute(
                        as_pair(),
                        piece@,
                    );
                }
            }
            i += 1;
        }
        proof {
            assert(views(pieces@).take(i as int) =~= views(pieces@));
        }
        out
    }

    /// Returns the value written for the key: that of the first pair with
    /// this key.
    pub fn get(&self, k: &str) -> (r: Option<&str>)
        ensures
            opt_view(r) == lookup(entries(self@), k@),
    {
        let es = self.iter();
        let mut i: usize = 0;
        proof {
            assert(pair_views(es@).skip(0) =~= pair_views(es@));
        }
        while i < es.len()
            invariant
                i <= es.len(),
                pair_views(es@) == entries(self@),
                lookup(pair_views(es@).skip(i as int), k@) == lookup(entries(self@), k@),
            decreases es.len() - i,
        {
            let ghost rest = pair_views(es@).skip(i as int);
            proof {
                assert(rest[0] == (es@[i as int].0@, es@[i as int].1@));
                assert(rest.drop_first() =~= pair_views(es@).skip(i + 1));
            }
            if str_eq(es[i].0, k) {
                return Some(es[i].1);
            }
            i += 1;
        }
        None
    }

    /// Returns `true` if properties contains the specified key.
    pub fn contains_key(&self, k: &str) -> (r: bool)
        ensures
            r == lookup(entries(self@), k@).is_some(),
    {
        self.get(k).is_some()
    }

    /// Returns the values written for the key, in the order written: the
    /// pieces of its value between `|`. Nothing when the key is absent.
    pub fn values(&self, k: &str) -> (r: Vec<&str>)
        ensures
            views(r@) == match lookup(entries(self@), k@) {
                Some(v) => split_all(v, VALUE_SEPARATOR),
                None => Seq::empty(),
            },
    {
        match self.get(k) {
            Some(v) => split(v, VALUE_SEPARATOR),
            None => {
                let r: Vec<&str> = Vec::new();
                assert(views(r@) =~= Seq::<Seq<char>>::empty());
                r
            },
        }
    }

    /// Builds properties from key/value pairs, written in their order. A
    /// pair with an empty key is left out; a pair with an empty value is
    /// written as its key alone.
    pub fn from_iter(pairs: &[(&str, &str)]) -> (r: Properties)
        ensures
            r@ == render(pair_views(pairs@)),
    {
        let mut into = String::new();
        let mut i: usize = 0;
        proof {
            assert(pair_views(pairs@).take(0) =~= Seq::<(Seq<char>, Seq<char>)>::empty());
        }
        while i < pairs.len()
            invariant
                i <= pairs.len(),
                into@ == render(pair_views(pairs@).take(i as int)),
            decreases pairs.len() - i,
        {
            proof {
                lemma_render_take_succ(pair_views(pairs@), i as int);
            }
            push_pair(&mut into, pairs[i].0, pairs[i].1);
            i += 1;
        }
        proof {
            assert(pair_views(pairs@).take(i as int) =~= pair_views(pairs@));
        }
        Properties { inner: into }
    }

    /// Inserts a key/value pair. Every pair that had this key leaves, and
    /// the new pair is written last. Returns the value that the key had.
    pub fn insert(&mut self, k: &str, v: &str) -> (r: Option<String>)
        ensures
            opt_string_view(r) == lookup(entries(old(self)@), k@),
            final(self)@ == render(entries(old(self)@).filter(other_key(k@)).push((k@, v@))),
    {
        let item = match self.get(k) {
            Some(value) => Some(String::from_str(value)),
            None => None,
        };
        let mut into = write_without_key(&self.iter(), k);
        proof {
            let kept = entries(self@).filter(other_key(k@));
            assert(kept.push((k@, v@)).drop_last() =~= kept);
        }
        push_pair(&mut into, k, v);
        self.inner = into;
        item
    }

    /// Removes a key: every pair that had it leaves. Returns the value that
    /// the key had.
    pub fn remove(&mut self, k: &str) -> (r: Option<String>)
        ensures
            opt_string_view(r) == lookup(entries(old(self)@), k@),
            final(self)@ == render(entries(old(self)@).filter(other_key(k@))),
    {
        let item = match self.get(k) {
            Some(value) => Some(String::from_str(value)),
            None => None,
        };
        let into = write_without_key(&self.iter(), k);
        self.inner = into;
        item
    }

    /// Extend these properties with other properties: a pair of `self`
    /// whose key `other` has leaves, and the pairs of `other` follow.
    pub fn extend(&mut self, other: &Properties)
        ensures
            final(self)@ == render(
                entries(old(self)@).filter(not_in(entries(other@))) + entries(other@),
            ),
    {
        let new = other.iter();
        self.extend_from_iter(new.as_slice());
    }

    /// Extend these properties with key/value pairs: a pair of `self` whose
    /// key is among the new ones leaves, and the new pairs follow in their
    /// order.
    pub fn extend_from_iter(&mut self, iter: &[(&str, &str)])
        ensures
            final(self)@ == render(
                entries(old(self)@).filter(not_in(pair_views(iter@))) + pair_views(iter@),
            ),
    {
        let mut into = String::new();
        let es = self.iter();
        let ghost current = pair_views(es@);
        let ghost new = pair_views(iter@);
        let mut i: usize = 0;
        proof {
            reveal(Seq::filter);
            assert(current.take(0) =~= Seq::<(Seq<char>, Seq<char>)>::empty());
        }
        while i < es.len()
            invariant
                i <= es.len(),
                current == pair_views(es@),
                new == pair_views(iter@),
                into@ == render(current.take(i as int).filter(not_in(new))),
            decreases es.len() - i,
        {
            let ghost e = (es@[i as int].0@, es@[i as int].1@);
            let ghost kept = current.take(i as int).filter(not_in(new));
            proof {
                assert(current[i as int] == e);
                current.lemma_take_succ_push(i as int);
                current.take(i as int).lemma_filter_push(e, not_in(new));
                assert(kept.push(e).drop_last() =~= kept);
            }
            if !any_key(iter, es[i].0) {
                push_pair(&mut into, es[i].0, es[i].1);
            }
            i += 1;
        }
        let ghost kept = current.filter(not_in(new));
        let mut j: usize = 0;
        proof {
            assert(current.take(i as int) =~= current);
            assert(kept + new.take(0) =~= kept);
        }
        while j < iter.len()
            invariant
                j <= iter.len(),
                new == pair_views(iter@),
                into@ == render(kept + new.take(j as int)),
            decreases iter.len() - j,
        {
            proof {
                let e = (iter@[j as int].0@, iter@[j as int].1@);
                assert(new[j as int] == e);
                assert(kept + new.take(j + 1) =~= (kept + new.take(j as int)).push(e));
                assert((kept + new.take(j as int)).push(e).drop_last() =~= kept + new.take(
                    j as int,
                ));
            }
            push_pair(&mut into, iter[j].0, iter[j].1);
            j += 1;
        }
        proof {
            assert(new.take(j as int) =~= new);
        }
        self.inner = into;
    }

    /// The text that spells these properties.
    pub fn to_string(&self) -> (r: String)
        ensures
            r@ == self@,
    {
        self.inner.clone()
    }

    /// Convert these properties into owned properties.
    pub fn into_owned(self) -> (r: Properties)
        ensures
            r@ == self@,
    {
        self
    }
}

/// Writes one more pair behind `into`.
fn push_pair(into: &mut String, k: &str, v: &str)
    ensures
        final(into)@ == with_pair(old(into)@, (k@, v@)),
{
    proof {
        reveal_strlit(";");
        reveal_strlit("=");
    }
    if !k.is_empty() {
        if !into.as_str().is_empty() {
            into.append(";");
            assert(";"@ =~= seq![LIST_SEPARATOR]);
        }
        into.append(k);
        if !v.is_empty() {
            into.append("=");
            assert("="@ =~= seq![FIELD_SEPARATOR]);
            into.append(v);
        }
        assert(into@ =~= with_pair(old(into)@, (k@, v@)));
    }
}

/// Rendering one pair more writes that pair behind what was rendered.
pub proof fn lemma_render_take_succ(es: Seq<(Seq<char>, Seq<char>)>, i: int)
    requires
        0 <= i < es.len(),
    ensures
        render(es.take(i + 1)) == with_pair(render(es.take(i)), es[i]),
{
    assert(es.take(i + 1).drop_last() =~= es.take(i));
}

/// Writes the pairs whose key is not `k`.
fn write_without_key(es: &Vec<(&str, &str)>, k: &str) -> (into: String)
    ensures
        into@ == render(pair_views(es@).filter(other_key(k@))),
{
    let mut into = String::new();
    let ghost all = pair_views(es@);
    let mut i: usize = 0;
    proof {
        reveal(Seq::filter);
        assert(all.take(0) =~= Seq::<(Seq<char>, Seq<char>)>::empty());
    }
    while i < es.len()
        invariant
            i <= es.len(),
            all == pair_views(es@),
            into@ == render(all.take(i as int).filter(other_key(k@))),
        decreases es.len() - i,
    {
        let ghost e = (es@[i as int].0@, es@[i as int].1@);
        let ghost kept = all.take(i as int).filter(other_key(k@));
        proof {
            assert(all[i as int] == e);
            all.lemma_take_succ_push(i as int);
            all.take(i as int).lemma_filter_push(e, other_key(k@));
            assert(kept.push(e).drop_last() =~= kept);
        }
        if !str_eq(es[i].0, k) {
            push_pair(&mut into, es[i].0, es[i].1);
        }
        i += 1;
    }
    proof {
        assert(all.take(i as int) =~= all);
    }
    into
}

/// Whether some pair has the key `k`.
fn any_key(pairs: &[(&str, &str)], k: &str) -> (r: bool)
    ensures
        r == has_key(pair_views(pairs@), k@),
{
    let mut i: usize = 0;
    while i < pairs.len()
        invariant
            i <= pairs.len(),
            forall|j: int| 0 <= j < i ==> (#[trigger] pair_views(pairs@)[j]).0 != k@,
        decreases pairs.len() - i,
    {
        assert(pair_views(pairs@)[i as int].0 == pairs@[i as int].0@);
        if str_eq(pairs[i].0, k) {
            return true;
        }
        i += 1;
    }
    false
}

/// Whether `c` is one of the three separators.
fn separates(c: char) -> (r: bool)
    ensures
        r == is_separator(c),
{
    c == LIST_SEPARATOR || c == FIELD_SEPARATOR || c == VALUE_SEPARATOR
}

/// `s` without the separators that end it.
fn trim_separators(s: &str) -> (r: &str)
    ensures
        r@ == trimmed(s@),
{
    let cs = crate::text::chars_of(s);
    let mut end: usize = cs.len();
    proof {
        assert(s@.take(end as int) =~= s@);
    }
    while end > 0 && separates(cs[end - 1])
        invariant
            end <= cs.len(),
            cs@ == s@,
            trimmed(s@.take(end as int)) == trimmed(s@),
        decreases end,
    {
        proof {
            assert(s@.take(end as int).drop_last() =~= s@.take(end - 1));
        }
        end -= 1;
    }
    s.substring_char(0, end)
}

impl From<&str> for Properties {
    /// Reads properties from their text; separators that end it are dropped.
    fn from(value: &str) -> (r: Properties)
        ensures
            r@ == trimmed(value@),
    {
        Properties { inner: String::from_str(trim_separators(value)) }
    }
}

impl vstd::std_specs::convert::FromSpecImpl<&str> for Properties {
    open spec fn obeys_from_spec() -> bool {
        false
    }

    open spec fn from_spec(v: &str) -> Properties {
        arbitrary()
    }
}

impl From<String> for Properties {
    /// Reads properties from their text; separators that end it are dropped.
    fn from(value: String) -> (r: Properties)
        ensures
            r@ == trimmed(value@),
    {
        Properties { inner: String::from_str(trim_separators(value.as_str())) }
    }
}

impl vstd::std_specs::convert::FromSpecImpl<String> for Properties {
    open spec fn obeys_from_spec() -> bool {
        false
    }

    open spec fn from_spec(v: String) -> Properties {
        arbitrary()
    }
}

impl<'s> From<Cow<'s, str>> for Properties {
    /// Reads properties from their text; separators that end it are dropped.
    fn from(value: Cow<'s, str>) -> (r: Properties)
        ensures
            r@ == trimmed(value@),
    {
        match value {
            Cow::Borrowed(s) => Properties::from(s),
            Cow::Owned(s) => Properties::from(s),
        }
    }
}

impl<'s> vstd::std_specs::convert::FromSpecImpl<Cow<'s, str>> for Properties {
    open spec fn obeys_from_spec() -> bool {
        false
    }

    open spec fn from_spec(v: Cow<'s, str>) -> Properties {
        arbitrary()
    }
}

impl From<&[(&str, &str)]> for Properties {
    /// Builds properties from key/value pairs, as `from_iter` does.
    fn from(value: &[(&str, &str)]) -> (r: Properties)
        ensures
            r@ == render(pair_views(value@)),
    {
        Properties::from_iter(value)
    }
}

impl vstd::std_specs::convert::FromSpecImpl<&[(&str, &str)]> for Properties {
    open spec fn obeys_from_spec() -> bool {
        false
    }

    open spec fn from_spec(v: &[(&str, &str)]) -> Properties {
        arbitrary()
    }
}

/// A value that reads as text: a key or a value of a map of properties.
pub trait Text {
    /// The characters that the value reads as.
    spec fn chars(&self) -> Seq<char>;

    /// The value as a string slice.
    fn text(&self) -> (r: &str)
        ensures
            r@ == self.chars(),
    ;
}

impl Text for String {
    open spec fn chars(&self) -> Seq<char> {
        self@
    }

    fn text(&self) -> (r: &str) {
        self.as_str()
    }
}

impl<'a> Text for &'a str {
    open spec fn chars(&self) -> Seq<char> {
        self@
    }

    fn text(&self) -> (r: &str) {
        self
    }
}

impl<'a> Text for Cow<'a, str> {
    open spec fn chars(&self) -> Seq<char> {
        self@
    }

    fn text(&self) -> (r: &str) {
        match self {
            Cow::Borrowed(s) => s,
            Cow::Owned(s) => s.as_str(),
        }
    }
}

/// Whether `pairs` lists the entries of `map`, in some order: as many
/// pairs as the map has keys, each the text of a key with the text of its
/// value, and every key among them.
pub open spec fn lists<K: Text, V: Text>(pairs: Seq<(&str, &str)>, map: Map<K, V>) -> bool {
    &&& map.dom().finite()
    &&& pairs.len() == map.dom().len()
    &&& forall|i: int|
        0 <= i < pairs.len() ==> exists|k: K|
            map.contains_key(k) && k.chars() == (#[trigger] pairs[i]).0@ && map[k].chars()
                == pairs[i].1@
    &&& forall|k: K| #[trigger]
        map.contains_key(k) ==> exists|i: int|
            0 <= i < pairs.len() && k.chars() == (#[trigger] pairs[i]).0@ && map[k].chars()
                == pairs[i].1@
}

/// `std::collections::HashMap::iter`, each entry handed out as a pair of
/// string slices. The contract claims that the pairs are the entries of the
/// map, each once; it claims nothing of their order, which is that in which
/// the map is walked. (For keys that are text, vstd says nothing of this
/// walk: its own contract holds for keys of its hash model only.)
#[verifier::external_body]
fn map_pairs<'a, K: Text, V: Text>(map: &'a HashMap<K, V>) -> (r: Vec<(&'a str, &'a str)>)
    ensures
        lists(r@, map@),
{
    map.iter().map(|(k, v)| (k.text(), v.text())).collect()
}

impl<K: Text, V: Text> From<HashMap<K, V>> for Properties {
    /// Builds properties from the entries of a map, written in the order
    /// in which the map is walked.
    fn from(map: HashMap<K, V>) -> (r: Properties)
        ensures
            exists|pairs: Seq<(&str, &str)>| lists(pairs, map@) && r@ == render(pair_views(pairs)),
    {
        let pairs = map_pairs(&map);
        Properties::from_iter(pairs.as_slice())
    }
}

impl<K: Text, V: Text> vstd::std_specs::convert::FromSpecImpl<HashMap<K, V>> for Properties {
    open spec fn obeys_from_spec() -> bool {
        false
    }

    open spec fn from_spec(v: HashMap<K, V>) -> Properties {
        arbitrary()
    }
}

} // verus!
