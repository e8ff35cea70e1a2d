//! Character-level text model: finding a character, splitting on it, and
//! the executable counterparts on `&str`.

use vstd::prelude::*;
use vstd::string::StringExecFns;

verus! {

/// Position of the first `c` in `s`; `s.len()` when `s` holds no `c`.
pub open spec fn first_index(s: Seq<char>, c: char) -> nat
    decreases s.len(),
{
    if s.len() == 0 || s[0] == c {
        0
    } else {
        1 + first_index(s.drop_first(), c)
    }
}

/// The pieces of `s` between occurrences of `sep`. There is always at least
/// one piece, and pieces may be empty.
pub open spec fn split_all(s: Seq<char>, sep: char) -> Seq<Seq<char>>
    decreases s.len(),
{
    let i = first_index(s, sep) as int;
    if i < s.len() {
        seq![s.take(i)] + split_all(s.skip(i + 1), sep)
    } else {
        seq![s]
    }
}

/// What stands before and after the first `c` of `s`; all of `s` and
/// nothing when `s` holds no `c`.
pub open spec fn split_first(s: Seq<char>, c: char) -> (Seq<char>, Seq<char>) {
    let i = first_index(s, c) as int;
    if i < s.len() {
        (s.take(i), s.skip(i + 1))
    } else {
        (s, Seq::empty())
    }
}

/// The views of a sequence of string slices.
pub open spec fn views(v: Seq<&str>) -> Seq<Seq<char>> {
    v.map_values(|p: &str| p@)
}

/// `first_index` stays within `s`, points at a `c` when inside, and
/// passes over no `c` on the way.
pub proof fn lemma_first_index(s: Seq<char>, c: char)
    ensures
        first_index(s, c) <= s.len(),
        first_index(s, c) < s.len() ==> s[first_index(s, c) as int] == c,
        forall|j: int| 0 <= j < first_index(s, c) ==> s[j] != c,
    decreases s.len(),
{
    if s.len() == 0 || s[0] == c {
    } else {
        let t = s.drop_first();
        lemma_first_index(t, c);
        assert forall|j: int| 0 <= j < first_index(s, c) implies s[j] != c by {
            if j > 0 {
                assert(s[j] == t[j - 1]);
            }
        }
    }
}

/// A position that no `c` precedes, and that holds a `c` unless it is the
/// end, is the first index.
pub proof fn lemma_first_index_is(s: Seq<char>, c: char, i: int)
    requires
        0 <= i <= s.len(),
        forall|j: int| 0 <= j < i ==> s[j] != c,
        i < s.len() ==> s[i] == c,
    ensures
        first_index(s, c) == i,
    decreases s.len(),
{
    if s.len() == 0 || s[0] == c {
    } else {
        let t = s.drop_first();
        assert forall|j: int| 0 <= j < i - 1 implies t[j] != c by {
            assert(t[j] == s[j + 1]);
        }
        lemma_first_index_is(t, c, i - 1);
    }
}

/// No piece of a split holds the separator.
pub proof fn lemma_split_all_pieces(s: Seq<char>, sep: char)
    ensures
        split_all(s, sep).len() >= 1,
        forall|i: int|
            0 <= i < split_all(s, sep).len() ==> !(#[trigger] split_all(s, sep)[i]).contains(sep),
    decreases s.len(),
{
    lemma_first_index(s, sep);
    let i = first_index(s, sep) as int;
    if i < s.len() {
        lemma_split_all_pieces(s.skip(i + 1), sep);
        let rest = split_all(s.skip(i + 1), sep);
        assert forall|k: int| 0 <= k < split_all(s, sep).len() implies !(#[trigger] split_all(
            s,
            sep,
        )[k]).contains(sep) by {
            if k == 0 {
                assert(split_all(s, sep)[0] == s.take(i));
            } else {
                assert(split_all(s, sep)[k] == rest[k - 1]);
            }
        }
    } else {
        assert(split_all(s, sep)[0] == s);
    }
}

/// The characters of `s`, in order.
pub fn chars_of(s: &str) -> (v: Vec<char>)
    ensures
        v@ == s@,
{
    let mut v: Vec<char> = Vec::new();
    for c in it: s.chars()
        invariant
            v@ == it.seq().take(it.index()),
            it.seq() == s@,
    {
        v.push(c);
    }
    v
}

/// Whether two string slices hold the same characters.
pub fn str_eq(a: &str, b: &str) -> (r: bool)
    ensures
        r == (a@ == b@),
{
    let x = chars_of(a);
    let y = chars_of(b);
    if x.len() != y.len() {
        return false;
    }
    let mut i: usize = 0;
    while i < x.len()
        invariant
            i <= x.len(),
            x.len() == y.len(),
            x@ == a@,
            y@ == b@,
            forall|j: int| 0 <= j < i ==> x@[j] == y@[j],
        decreases x.len() - i,
    {
        if x[i] != y[i] {
            return false;
        }
        i += 1;
    }
    assert(x@ =~= y@);
    true
}

/// First position of `c` in `cs[lo..hi]`, counted in `cs`; `hi` when that
/// window holds no `c`.
pub fn find_char(cs: &Vec<char>, lo: usize, hi: usize, c: char) -> (k: usize)
    requires
        lo <= hi <= cs.len(),
    ensures
        lo <= k <= hi,
        k - lo == first_index(cs@.subrange(lo as int, hi as int), c),
{
    let mut k: usize = lo;
    while k < hi && cs[k] != c
        invariant
            lo <= k <= hi <= cs.len(),
            forall|j: int| lo <= j < k ==> cs@[j] != c,
        decreases hi - k,
    {
        k += 1;
    }
    proof {
        lemma_first_index_is(cs@.subrange(lo as int, hi as int), c, k - lo);
    }
    k
}

/// Splits `s` at its first `c`: what stands before it and what stands after
/// it. Without a `c` in `s`, all of `s` and the empty string.
pub fn split_once(s: &str, c: char) -> (r: (&str, &str))
    ensures
        (r.0@, r.1@) == split_first(s@, c),
{
    let cs = chars_of(s);
    let n = cs.len();
    let k = find_char(&cs, 0, n, c);
    assert(cs@.subrange(0, n as int) =~= s@);
    if k < n {
        (s.substring_char(0, k), s.substring_char(k + 1, n))
    } else {
        (s, s.substring_char(n, n))
    }
}

/// Splits `s` on every `sep`. The result has one piece more than `s` has
/// separators; a piece may be empty.
pub fn split(s: &str, sep: char) -> (r: Vec<&str>)
    ensures
        views(r@) == split_all(s@, sep),
{
    let cs = chars_of(s);
    let n = cs.len();
    let mut out: Vec<&str> = Vec::new();
    let mut start: usize = 0;
    proof {
        assert(s@.skip(0) =~= s@);
        assert(views(out@) + split_all(s@, sep) =~= split_all(s@, sep));
    }
    loop
        invariant_except_break
            start <= n,
            views(out@) + split_all(s@.skip(start as int), sep) == split_all(s@, sep),
        invariant
            n == cs.len(),
            cs@ == s@,
        ensures
            views(out@) == split_all(s@, sep),
        decreases n - start,
    {
        let k = find_char(&cs, start, n, sep);
        let piece = s.substring_char(start, k);
        let ghost rest = s@.skip(start as int);
        let ghost before = views(out@);
        proof {
            assert(cs@.subrange(start as int, n as int) =~= rest);
            assert(rest.take(k - start) =~= piece@);
        }
        out.push(piece);
        assert(views(out@) =~= before.push(piece@));
        if k == n {
            assert(split_all(rest, sep) =~= seq![piece@]);
            assert(before + seq![piece@] =~= before.push(piece@));
            break;
        }
        proof {
            assert(rest.skip(k - start + 1) =~= s@.skip(k + 1));
            assert(split_all(rest, sep) == seq![piece@] + split_all(s@.skip(k + 1), sep));
            assert(before + (seq![piece@] + split_all(s@.skip(k + 1), sep)) =~= before.push(piece@)
                + split_all(s@.skip(k + 1), sep));
        }
        start = k + 1;
    }
    out
}

/// The character of a decimal digit.
pub open spec fn digit(d: nat) -> char {
    if d == 0 {
        '0'
    } else if d == 1 {
        '1'
    } else if d == 2 {
        '2'
    } else if d == 3 {
        '3'
    } else if d == 4 {
        '4'
    } else if d == 5 {
        '5'
    } else if d == 6 {
        '6'
    } else if d == 7 {
        '7'
    } else if d == 8 {
        '8'
    } else {
        '9'
    }
}

/// The decimal numeral of `n`, without leading zeros.
pub open spec fn decimal(n: nat) -> Seq<char>
    decreases n,
{
    if n < 10 {
        seq![digit(n)]
    } else {
        decimal(n / 10).push(digit(n % 10))
    }
}

/// The numeral of one decimal digit.
fn digit_str(d: usize) -> (r: &'static str)
    requires
        d < 10,
    ensures
        r@ == seq![digit(d as nat)],
{
    proof {
        reveal_strlit("0");
        reveal_strlit("1");
        reveal_strlit("2");
        reveal_strlit("3");
        reveal_strlit("4");
        reveal_strlit("5");
        reveal_strlit("6");
        reveal_strlit("7");
        reveal_strlit("8");
        reveal_strlit("9");
    }
    let r = if d == 0 {
        "0"
    } else if d == 1 {
        "1"
    } else if d == 2 {
        "2"
    } else if d == 3 {
        "3"
    } else if d == 4 {
        "4"
    } else if d == 5 {
        "5"
    } else if d == 6 {
        "6"
    } else if d == 7 {
        "7"
    } else if d == 8 {
        "8"
    } else {
        "9"
    };
    assert(r@ =~= seq![digit(d as nat)]);
    r
}

/// Writes the decimal numeral of `n` behind `into`.
pub fn write_decimal(into: &mut String, n: usize)
    ensures
        final(into)@ == old(into)@ + decimal(n as nat),
    decreases n,
{
    if n >= 10 {
        write_decimal(into, n / 10);
    }
    into.append(digit_str(n % 10));
    assert(into@ =~= old(into)@ + decimal(n as nat));
}

} // verus!
