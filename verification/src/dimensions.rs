//! The dimensions that tell the series of a metric apart.
use crate::text::str_eq;
use vstd::prelude::*;
use vstd::string::*;

verus! {

/// The map that a list of name and value pairs stands for; of two pairs with
/// one name, the later one counts.
pub open spec fn pairs_map(pairs: Seq<(String, String)>) -> Map<Seq<char>, Seq<char>>
    decreases pairs.len(),
{
    if pairs.len() == 0 {
        Map::empty()
    } else {
        pairs_map(pairs.drop_last()).insert(pairs.last().0@, pairs.last().1@)
    }
}

/// Whether no name occurs twice in `pairs`.
pub open spec fn distinct_names(pairs: Seq<(String, String)>) -> bool {
    forall|i: int, j: int| 0 <= i < j < pairs.len() ==> pairs[i].0@ != pairs[j].0@
}

/// A name that `pairs` does not hold is not in its map.
proof fn lemma_absent(pairs: Seq<(String, String)>, name: Seq<char>)
    requires
        forall|i: int| 0 <= i < pairs.len() ==> pairs[i].0@ != name,
    ensures
        !pairs_map(pairs).contains_key(name),
    decreases pairs.len(),
{
    if pairs.len() > 0 {
        lemma_absent(pairs.drop_last(), name);
    }
}

/// With distinct names, the pair at `i` is what the map holds for its name.
proof fn lemma_present(pairs: Seq<(String, String)>, i: int)
    requires
        distinct_names(pairs),
        0 <= i < pairs.len(),
    ensures
        pairs_map(pairs).contains_key(pairs[i].0@),
        pairs_map(pairs)[pairs[i].0@] == pairs[i].1@,
    decreases pairs.len(),
{
    if i < pairs.len() - 1 {
        lemma_present(pairs.drop_last(), i);
    }
}

/// With distinct names, a new value at `i` is a new value for that name.
proof fn lemma_replace(pairs: Seq<(String, String)>, i: int, pair: (String, String))
    requires
        distinct_names(pairs),
        0 <= i < pairs.len(),
        pair.0@ == pairs[i].0@,
    ensures
        pairs_map(pairs.update(i, pair)) == pairs_map(pairs).insert(pair.0@, pair.1@),
    decreases pairs.len(),
{
    let changed = pairs.update(i, pair);
    if i == pairs.len() - 1 {
        assert(changed.drop_last() =~= pairs.drop_last());
        assert(pairs_map(changed) =~= pairs_map(pairs).insert(pair.0@, pair.1@));
    } else {
        lemma_replace(pairs.drop_last(), i, pair);
        assert(changed.drop_last() =~= pairs.drop_last().update(i, pair));
        assert(changed.last() == pairs.last());
        assert(pairs_map(changed) =~= pairs_map(pairs).insert(pair.0@, pair.1@));
    }
}

/// The dimensions of a metric: a value for each of a few names.
#[derive(Debug, PartialEq, Eq)]
pub struct Dimensions {
    pairs: Vec<(String, String)>,
}

impl View for Dimensions {
    type V = Map<Seq<char>, Seq<char>>;

    closed spec fn view(&self) -> Map<Seq<char>, Seq<char>> {
        pairs_map(self.pairs@)
    }
}

impl Dimensions {
    #[verifier::type_invariant]
    spec fn names_are_distinct(&self) -> bool {
        distinct_names(self.pairs@)
    }

    /// No dimension.
    pub fn new() -> (r: Dimensions)
        ensures
            r@ == Map::<Seq<char>, Seq<char>>::empty(),
    {
        Dimensions { pairs: Vec::new() }
    }

    /// These dimensions with `name` given the value `value`, in place of the
    /// value it had, if any.
    pub fn with(self, name: String, value: String) -> (r: Dimensions)
        ensures
            r@ == self@.insert(name@, value@),
    {
        proof {
            use_type_invariant(&self);
        }
        let mut pairs = self.pairs;
        match position(&pairs, name.as_str()) {
            Some(i) => {
                proof {
                    lemma_replace(pairs@, i as int, (name, value));
                }
                pairs[i] = (name, value);
            },
            None => {
                let ghost before = pairs@;
                pairs.push((name, value));
                assert(pairs@.drop_last() =~= before);
            },
        }
        Dimensions { pairs }
    }

    /// The value of `name`, if it has one.
    pub fn get(&self, name: &str) -> (r: Option<&String>)
        ensures
            match r {
                Some(value) => self@.contains_key(name@) && self@[name@] == value@,
                None => !self@.contains_key(name@),
            },
    {
        proof {
            use_type_invariant(self);
        }
        match position(&self.pairs, name) {
            Some(i) => {
                proof {
                    lemma_present(self.pairs@, i as int);
                }
                Some(&self.pairs[i].1)
            },
            None => {
                proof {
                    lemma_absent(self.pairs@, name@);
                }
                None
            },
        }
    }

    /// The names and their values as a list in which no name occurs twice.
    pub fn to_pairs(&self) -> (r: Vec<(String, String)>)
        ensures
            distinct_names(r@),
            pairs_map(r@) == self@,
    {
        proof {
            use_type_invariant(self);
        }
        let mut r: Vec<(String, String)> = Vec::new();
        let mut i: usize = 0;
        while i < self.pairs.len()
            invariant
                i <= self.pairs@.len(),
                r@.len() == i,
                forall|k: int|
                    0 <= k < i ==> (#[trigger] r@[k]).0@ == self.pairs@[k].0@ && r@[k].1@
                        == self.pairs@[k].1@,
            decreases self.pairs@.len() - i,
        {
            r.push((self.pairs[i].0.clone(), self.pairs[i].1.clone()));
            i = i + 1;
        }
        proof {
            lemma_same_map(r@, self.pairs@);
        }
        r
    }
}

/// The place of `name` among `pairs`.
fn position(pairs: &Vec<(String, String)>, name: &str) -> (r: Option<usize>)
    ensures
        match r {
            Some(i) => i < pairs@.len() && pairs@[i as int].0@ == name@,
            None => forall|i: int| 0 <= i < pairs@.len() ==> pairs@[i].0@ != name@,
        },
{
    let mut i: usize = 0;
    while i < pairs.len()
        invariant
            i <= pairs@.len(),
            forall|k: int| 0 <= k < i ==> pairs@[k].0@ != name@,
        decreases pairs@.len() - i,
    {
        if str_eq(pairs[i].0.as_str(), name) {
            return Some(i);
        }
        i = i + 1;
    }
    None
}

/// Lists that agree pair by pair in what their texts hold stand for one map.
proof fn lemma_same_map(a: Seq<(String, String)>, b: Seq<(String, String)>)
    requires
        a.len() == b.len(),
        forall|k: int| 0 <= k < a.len() ==> (#[trigger] a[k]).0@ == b[k].0@ && a[k].1@ == b[k].1@,
    ensures
        pairs_map(a) == pairs_map(b),
    decreases a.len(),
{
    if a.len() > 0 {
        lemma_same_map(a.drop_last(), b.drop_last());
    }
}

} // verus!
