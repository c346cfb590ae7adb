//! Header lines, and the mapping that the header lines of a response amount
//! to: one entry for each name, holding the value of the last line with that
//! name.

use vstd::prelude::*;

verus! {

/// A header as a pair of texts: the name, then the value.
pub type Pair = (Seq<char>, Seq<char>);

/// One header line.
#[derive(Clone, Debug, PartialEq, Eq)]
pub struct Header {
    pub name: String,
    pub value: String,
}

impl View for Header {
    type V = Pair;

    open spec fn view(&self) -> Pair {
        (self.name@, self.value@)
    }
}

/// The headers of a list as pairs of texts, in the same order.
pub open spec fn pairs(headers: Seq<Header>) -> Seq<Pair> {
    Seq::new(headers.len(), |i: int| headers[i]@)
}

/// Some entry of `s` has the name `name`.
pub open spec fn has_name(s: Seq<Pair>, name: Seq<char>) -> bool {
    exists|i: int| 0 <= i < s.len() && (#[trigger] s[i]).0 == name
}

/// No two entries of `s` share a name.
pub open spec fn names_distinct(s: Seq<Pair>) -> bool {
    forall|i: int, j: int| 0 <= i < j < s.len() ==> (#[trigger] s[i]).0 != (#[trigger] s[j]).0
}

/// The value that `s` gives for `name`: that of the last entry with that name.
pub open spec fn lookup(s: Seq<Pair>, name: Seq<char>) -> Option<Seq<char>>
    decreases s.len(),
{
    if s.len() == 0 {
        None
    } else if s.last().0 == name {
        Some(s.last().1)
    } else {
        lookup(s.drop_last(), name)
    }
}

/// `s` with the value `value` in every entry named `name`.
pub open spec fn replaced(s: Seq<Pair>, name: Seq<char>, value: Seq<char>) -> Seq<Pair> {
    Seq::new(
        s.len(),
        |i: int|
            if s[i].0 == name {
                (name, value)
            } else {
                s[i]
            },
    )
}

/// `s` after one more line: a known name keeps its place and takes the new
/// value, a new name is added at the end.
pub open spec fn put(s: Seq<Pair>, name: Seq<char>, value: Seq<char>) -> Seq<Pair> {
    if has_name(s, name) {
        replaced(s, name, value)
    } else {
        s.push((name, value))
    }
}

/// The mapping that the lines `raw` amount to, its names in the order in
/// which each first occurs.
pub open spec fn collapsed(raw: Seq<Pair>) -> Seq<Pair>
    decreases raw.len(),
{
    if raw.len() == 0 {
        Seq::empty()
    } else {
        put(collapsed(raw.drop_last()), raw.last().0, raw.last().1)
    }
}

/// Replacing the value of a name changes what is looked up under that name
/// and nothing else.
pub proof fn lemma_replaced_lookup(s: Seq<Pair>, name: Seq<char>, value: Seq<char>, n: Seq<char>)
    ensures
        lookup(replaced(s, name, value), n) == if n == name {
            if has_name(s, name) {
                Some(value)
            } else {
                None
            }
        } else {
            lookup(s, n)
        },
    decreases s.len(),
{
    if s.len() > 0 {
        let front = s.drop_last();
        lemma_replaced_lookup(front, name, value, n);
        assert(replaced(s, name, value).drop_last() =~= replaced(front, name, value));
        if s.last().0 == name {
            assert(s[s.len() - 1].0 == name);
        } else if has_name(s, name) {
            let i = choose|i: int| 0 <= i < s.len() && (#[trigger] s[i]).0 == name;
            assert(front[i].0 == name);
        } else if has_name(front, name) {
            let i = choose|i: int| 0 <= i < front.len() && (#[trigger] front[i]).0 == name;
            assert(s[i].0 == name);
        }
    }
}

/// After one more line, its name gives its value and every other name gives
/// what it gave before.
pub proof fn lemma_put_lookup(s: Seq<Pair>, name: Seq<char>, value: Seq<char>, n: Seq<char>)
    ensures
        lookup(put(s, name, value), n) == if n == name {
            Some(value)
        } else {
            lookup(s, n)
        },
{
    if has_name(s, name) {
        lemma_replaced_lookup(s, name, value, n);
    } else {
        assert(s.push((name, value)).drop_last() =~= s);
    }
}

/// One more line leaves the names distinct.
pub proof fn lemma_put_distinct(s: Seq<Pair>, name: Seq<char>, value: Seq<char>)
    requires
        names_distinct(s),
    ensures
        names_distinct(put(s, name, value)),
{
    let t = put(s, name, value);
    if has_name(s, name) {
        assert forall|i: int, j: int| 0 <= i < j < t.len() implies (#[trigger] t[i]).0 != (
        #[trigger] t[j]).0 by {
            assert(t[i].0 == s[i].0);
            assert(t[j].0 == s[j].0);
        }
    } else {
        assert forall|i: int, j: int| 0 <= i < j < t.len() implies (#[trigger] t[i]).0 != (
        #[trigger] t[j]).0 by {
            if j == s.len() {
                assert(s[i].0 != name);
            } else {
                assert(t[i].0 == s[i].0);
                assert(t[j].0 == s[j].0);
            }
        }
    }
}

/// The mapping has each name once.
pub proof fn lemma_collapsed_distinct(raw: Seq<Pair>)
    ensures
        names_distinct(collapsed(raw)),
    decreases raw.len(),
{
    if raw.len() > 0 {
        lemma_collapsed_distinct(raw.drop_last());
        lemma_put_distinct(collapsed(raw.drop_last()), raw.last().0, raw.last().1);
    }
}

/// The mapping gives for each name what the lines give: the value of the last
/// line with that name, and nothing for a name that no line has.
pub proof fn lemma_collapsed_lookup(raw: Seq<Pair>, n: Seq<char>)
    ensures
        lookup(collapsed(raw), n) == lookup(raw, n),
    decreases raw.len(),
{
    if raw.len() > 0 {
        lemma_collapsed_lookup(raw.drop_last(), n);
        lemma_put_lookup(collapsed(raw.drop_last()), raw.last().0, raw.last().1, n);
    }
}

/// Records one line in `out`.
pub fn put_header(out: &mut Vec<Header>, name: &String, value: &String)
    ensures
        pairs(final(out)@) == put(pairs(old(out)@), name@, value@),
{
    let ghost before = pairs(out@);
    let n: usize = out.len();
    let mut found = false;
    let mut i: usize = 0;
    while i < n
        invariant
            i <= n,
            n == out@.len(),
            n == before.len(),
            found == has_name(before.take(i as int), name@),
            forall|j: int| 0 <= j < i ==> (#[trigger] out@[j])@ == replaced(before, name@, value@)[j],
            forall|j: int| i <= j < n ==> (#[trigger] out@[j])@ == before[j],
        decreases n - i,
    {
        let same = out[i].name == *name;
        proof {
            let prev = before.take(i as int);
            let next = before.take(i + 1);
            if has_name(prev, name@) {
                let k = choose|k: int| 0 <= k < prev.len() && (#[trigger] prev[k]).0 == name@;
                assert(next[k].0 == name@);
            }
            if same {
                assert(next[i as int].0 == name@);
            }
            if has_name(next, name@) && !same {
                let k = choose|k: int| 0 <= k < next.len() && (#[trigger] next[k]).0 == name@;
                assert(prev[k].0 == name@);
            }
        }
        if same {
            out.set(i, Header { name: name.clone(), value: value.clone() });
            found = true;
        }
        i += 1;
    }
    proof {
        assert(before.take(n as int) =~= before);
    }
    if found {
        assert(pairs(out@) =~= replaced(before, name@, value@));
    } else {
        out.push(Header { name: name.clone(), value: value.clone() });
        assert(pairs(out@) =~= before.push((name@, value@)));
    }
}

/// Collapses the header lines of a response into a mapping. Where a name
/// occurs more than once the last value wins; every name of `raw` is kept.
pub fn collapse(raw: &Vec<Header>) -> (r: Vec<Header>)
    ensures
        pairs(r@) == collapsed(pairs(raw@)),
        names_distinct(pairs(r@)),
        forall|name: Seq<char>| lookup(pairs(r@), name) == #[trigger] lookup(pairs(raw@), name),
{
    let mut out: Vec<Header> = Vec::new();
    let mut i: usize = 0;
    assert(pairs(out@) =~= collapsed(pairs(raw@).take(0)));
    while i < raw.len()
        invariant
            i <= raw@.len(),
            pairs(out@) == collapsed(pairs(raw@).take(i as int)),
        decreases raw@.len() - i,
    {
        proof {
            let next = pairs(raw@).take(i + 1);
            assert(next.drop_last() =~= pairs(raw@).take(i as int));
            assert(next.last() == raw@[i as int]@);
        }
        put_header(&mut out, &raw[i].name, &raw[i].value);
        i += 1;
    }
    proof {
        assert(pairs(raw@).take(raw@.len() as int) =~= pairs(raw@));
        lemma_collapsed_distinct(pairs(raw@));
        assert forall|name: Seq<char>| lookup(pairs(out@), name) == #[trigger] lookup(
            pairs(raw@),
            name,
        ) by {
            lemma_collapsed_lookup(pairs(raw@), name);
        }
    }
    out
}

} // verus!
