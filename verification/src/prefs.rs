//! Ordered preference lists of champion names.
//!
//! A `PreferenceList` is the configured fallback order for one intent (bans
//! or picks): an ordered sequence of names with duplicates removed, keeping
//! the first occurrence of each name.

use vstd::prelude::*;

verus! {

/// Removes duplicates from `s`, keeping the first occurrence of each
/// element and the relative order of the kept elements.
pub open spec fn dedup_names(s: Seq<Seq<char>>) -> Seq<Seq<char>>
    decreases s.len(),
{
    if s.len() == 0 {
        Seq::empty()
    } else if s.drop_last().contains(s.last()) {
        dedup_names(s.drop_last())
    } else {
        dedup_names(s.drop_last()).push(s.last())
    }
}

/// All elements of `s` are pairwise different.
pub open spec fn distinct_names(s: Seq<Seq<char>>) -> bool {
    forall|i: int, j: int| 0 <= i < j < s.len() ==> s[i] != s[j]
}

/// Deduplication keeps exactly the elements of the input.
pub proof fn lemma_dedup_names_contains(s: Seq<Seq<char>>, x: Seq<char>)
    ensures
        dedup_names(s).contains(x) <==> s.contains(x),
    decreases s.len(),
{
    if s.len() == 0 {
    } else {
        let t = s.drop_last();
        let last = s.last();
        lemma_dedup_names_contains(t, x);
        assert(s.contains(x) <==> (t.contains(x) || x == last)) by {
            if t.contains(x) {
                let i = choose|i: int| 0 <= i < t.len() && t[i] == x;
                assert(s[i] == x);
            }
            if x == last {
                assert(s[s.len() - 1] == x);
            }
            if s.contains(x) {
                let i = choose|i: int| 0 <= i < s.len() && s[i] == x;
                if i < s.len() - 1 {
                    assert(t[i] == x);
                }
            }
        }
        if !t.contains(last) {
            let d = dedup_names(t);
            assert(d.push(last).contains(x) <==> (d.contains(x) || x == last)) by {
                if d.contains(x) {
                    let i = choose|i: int| 0 <= i < d.len() && d[i] == x;
                    assert(d.push(last)[i] == x);
                }
                assert(d.push(last)[d.len() as int] == last);
                if d.push(last).contains(x) {
                    let i = choose|i: int| 0 <= i < d.push(last).len() && d.push(last)[i] == x;
                    if i < d.len() {
                        assert(d[i] == x);
                    }
                }
            }
        }
    }
}

/// The result of deduplication is duplicate-free.
pub proof fn lemma_dedup_names_distinct(s: Seq<Seq<char>>)
    ensures
        distinct_names(dedup_names(s)),
    decreases s.len(),
{
    if s.len() == 0 {
    } else {
        lemma_dedup_names_distinct(s.drop_last());
        if s.drop_last().contains(s.last()) {
        } else {
            lemma_dedup_names_contains(s.drop_last(), s.last());
            let d = dedup_names(s.drop_last());
            assert forall|i: int, j: int| 0 <= i < j < dedup_names(s).len() implies
                dedup_names(s)[i] != dedup_names(s)[j] by {
                if j < d.len() {
                } else {
                    assert(dedup_names(s)[j] == s.last());
                    assert(dedup_names(s)[i] == d[i]);
                    if d[i] == s.last() {
                        assert(d.contains(s.last()));
                    }
                }
            }
        }
    }
}

/// Ordered, deduplicated sequence of champion names for one intent.
pub struct PreferenceList {
    pub names: Vec<String>,
}

impl View for PreferenceList {
    type V = Seq<Seq<char>>;

    open spec fn view(&self) -> Seq<Seq<char>> {
        self.names@.map_values(|s: String| s@)
    }
}

/// `true` when `v` holds a string whose characters are `name`.
fn names_contain(v: &Vec<String>, name: &String) -> (r: bool)
    ensures
        r == v@.map_values(|s: String| s@).contains(name@),
{
    let ghost vw = v@.map_values(|s: String| s@);
    let n: usize = v.len();
    let mut i: usize = 0;
    while i < n
        invariant
            n == v.len(),
            i <= n,
            vw == v@.map_values(|s: String| s@),
            forall|j: int| 0 <= j < i ==> vw[j] != name@,
        decreases n - i,
    {
        if v[i] == *name {
            assert(vw[i as int] == name@);
            return true;
        }
        i = i + 1;
    }
    assert(!vw.contains(name@));
    false
}

impl PreferenceList {
    /// Builds a preference list from the configured names, dropping every
    /// repetition of a name after its first occurrence.
    pub fn new(names: Vec<String>) -> (r: PreferenceList)
        ensures
            r@ == dedup_names(names@.map_values(|s: String| s@)),
            distinct_names(r@),
    {
        let ghost input = names@.map_values(|s: String| s@);
        let mut out: Vec<String> = Vec::new();
        let n: usize = names.len();
        let mut i: usize = 0;
        assert(input.subrange(0, 0) =~= Seq::<Seq<char>>::empty());
        while i < n
            invariant
                n == names.len(),
                i <= n,
                input == names@.map_values(|s: String| s@),
                out@.map_values(|s: String| s@) == dedup_names(input.subrange(0, i as int)),
            decreases n - i,
        {
            let ghost pre = input.subrange(0, i as int);
            let ghost cur = input.subrange(0, i + 1 as int);
            assert(cur.drop_last() =~= pre);
            assert(cur.last() == input[i as int]);
            proof {
                lemma_dedup_names_contains(pre, input[i as int]);
            }
            if names_contain(&out, &names[i]) {
                assert(out@.map_values(|s: String| s@) =~= dedup_names(cur));
            } else {
                let name = names[i].clone();
                assert(name@ == input[i as int]);
                out.push(name);
                assert(out@.map_values(|s: String| s@) =~= dedup_names(cur));
            }
            i = i + 1;
        }
        assert(input.subrange(0, n as int) =~= input);
        proof {
            lemma_dedup_names_distinct(input);
        }
        PreferenceList { names: out }
    }

    /// Number of names in the list.
    pub fn len(&self) -> (r: usize)
        ensures
            r == self@.len(),
    {
        self.names.len()
    }

    /// The name at position `i`.
    pub fn get(&self, i: usize) -> (r: &String)
        requires
            i < self@.len(),
        ensures
            r@ == self@[i as int],
    {
        &self.names[i]
    }
}

} // verus!
