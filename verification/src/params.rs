//! The parameter builder: an order-irrelevant mapping from string keys to
//! optional string values, built fresh per call through a configuration
//! callback and treated as immutable afterwards.

use vstd::prelude::*;

verus! {

/// The mapping that a sequence of key/value entries denotes: a later entry
/// for a key overrides an earlier one.
spec fn param_map_of(s: Seq<(String, Option<String>)>) -> Map<Seq<char>, Option<Seq<char>>>
    decreases s.len(),
{
    if s.len() == 0 {
        Map::empty()
    } else {
        param_map_of(s.drop_last()).insert(s.last().0@, s.last().1.deep_view())
    }
}

/// Whether no two entries of the sequence share a key.
spec fn unique_keys(s: Seq<(String, Option<String>)>) -> bool {
    forall|i: int, j: int| 0 <= i < j < s.len() ==> s[i].0@ != s[j].0@
}

/// A set of request parameters: a mapping from string keys to optional
/// string values. Insertion order carries no meaning; the set is abstractly
/// a [`Map`] from key to optional value. An absent (`None`) value records
/// that the key was configured without a value; such entries are omitted
/// when the set is handed out as query pairs.
#[derive(Debug, PartialEq, Eq)]
pub struct ParamSet {
    pairs: Vec<(String, Option<String>)>,
}

impl View for ParamSet {
    type V = Map<Seq<char>, Option<Seq<char>>>;

    closed spec fn view(&self) -> Map<Seq<char>, Option<Seq<char>>> {
        param_map_of(self.pairs@)
    }
}

/// The denoted mapping contains a key exactly when some entry carries it.
proof fn lemma_param_map_contains(s: Seq<(String, Option<String>)>, k: Seq<char>)
    ensures
        param_map_of(s).contains_key(k) <==> exists|i: int| 0 <= i < s.len() && s[i].0@ == k,
    decreases s.len(),
{
    if s.len() > 0 {
        lemma_param_map_contains(s.drop_last(), k);
        if param_map_of(s).contains_key(k) && s.last().0@ != k {
            let i = choose|i: int| 0 <= i < s.drop_last().len() && s.drop_last()[i].0@ == k;
            assert(s[i].0@ == k);
        }
        if exists|i: int| 0 <= i < s.len() && s[i].0@ == k {
            let i = choose|i: int| 0 <= i < s.len() && s[i].0@ == k;
            if i < s.len() - 1 {
                assert(s.drop_last()[i].0@ == k);
            }
        }
    }
}

/// Under unique keys, each entry's key is mapped to that entry's value.
proof fn lemma_param_map_entry(s: Seq<(String, Option<String>)>, i: int)
    requires
        unique_keys(s),
        0 <= i < s.len(),
    ensures
        param_map_of(s).contains_key(s[i].0@),
        param_map_of(s)[s[i].0@] == s[i].1.deep_view(),
    decreases s.len(),
{
    if i == s.len() - 1 {
    } else {
        assert(unique_keys(s.drop_last()));
        assert(s.drop_last()[i] == s[i]);
        lemma_param_map_entry(s.drop_last(), i);
        assert(s[i].0@ != s.last().0@);
    }
}

/// Overwriting the entry that holds a key denotes the same mapping as
/// inserting that key into the denoted mapping.
proof fn lemma_param_map_update(s: Seq<(String, Option<String>)>, i: int, p: (String, Option<String>))
    requires
        unique_keys(s),
        0 <= i < s.len(),
        s[i].0@ == p.0@,
    ensures
        param_map_of(s.update(i, p)) =~= param_map_of(s).insert(p.0@, p.1.deep_view()),
    decreases s.len(),
{
    if i == s.len() - 1 {
        assert(s.update(i, p).drop_last() =~= s.drop_last());
    } else {
        assert(unique_keys(s.drop_last()));
        assert(s.drop_last()[i] == s[i]);
        lemma_param_map_update(s.drop_last(), i, p);
        assert(s.update(i, p).drop_last() =~= s.drop_last().update(i, p));
        assert(s.update(i, p).last() == s.last());
        assert(s[i].0@ != s.last().0@);
    }
}

/// Under unique keys, the denoted mapping has exactly one key per entry.
proof fn lemma_param_map_dom_len(s: Seq<(String, Option<String>)>)
    requires
        unique_keys(s),
    ensures
        param_map_of(s).dom().finite(),
        param_map_of(s).dom().len() == s.len(),
    decreases s.len(),
{
    if s.len() > 0 {
        assert(unique_keys(s.drop_last()));
        lemma_param_map_dom_len(s.drop_last());
        lemma_param_map_contains(s.drop_last(), s.last().0@);
        assert(!param_map_of(s.drop_last()).contains_key(s.last().0@));
    }
}

impl ParamSet {
    #[verifier::type_invariant]
    spec fn inv(self) -> bool {
        unique_keys(self.pairs@)
    }

    /// Creates an empty parameter set.
    pub fn new() -> (r: ParamSet)
        ensures
            r@ == Map::<Seq<char>, Option<Seq<char>>>::empty(),
    {
        ParamSet { pairs: Vec::new() }
    }

    /// Finds the position of the entry holding the key, if any.
    fn find_key(pairs: &Vec<(String, Option<String>)>, key: &String) -> (r: Option<usize>)
        ensures
            r matches Some(i) ==> 0 <= i < pairs@.len() && pairs@[i as int].0@ == key@,
            r is None ==> forall|j: int| 0 <= j < pairs@.len() ==> pairs@[j].0@ != key@,
    {
        let n = pairs.len();
        let mut i: usize = 0;
        while i < n
            invariant
                n == pairs@.len(),
                0 <= i <= n,
                forall|j: int| 0 <= j < i ==> pairs@[j].0@ != key@,
            decreases n - i,
        {
            if pairs[i].0 == *key {
                return Some(i);
            }
            i = i + 1;
        }
        None
    }

    /// Sets the value for a key, overriding an earlier value for the same
    /// key if there was one. Abstractly: a map insertion.
    pub fn insert(&mut self, key: String, value: Option<String>)
        ensures
            final(self)@ == old(self)@.insert(key@, value.deep_view()),
    {
        proof {
            use_type_invariant(&*self);
        }
        let mut pairs: Vec<(String, Option<String>)> = Vec::new();
        std::mem::swap(&mut pairs, &mut self.pairs);
        let ghost orig = pairs@;
        match Self::find_key(&pairs, &key) {
            Some(i) => {
                pairs.set(i, (key, value));
                proof {
                    lemma_param_map_update(orig, i as int, pairs@[i as int]);
                    assert forall|a: int, b: int| 0 <= a < b < pairs@.len() implies pairs@[a].0@
                        != pairs@[b].0@ by {
                        assert(orig[a].0@ != orig[b].0@);
                    }
                }
            },
            None => {
                pairs.push((key, value));
                proof {
                    assert(pairs@.drop_last() =~= orig);
                }
            },
        }
        proof {
            assert(param_map_of(pairs@) =~= param_map_of(orig).insert(key@, value.deep_view()));
        }
        self.pairs = pairs;
    }

    /// Looks a key up: the value configured for it, or `None` when the key
    /// was never configured.
    pub fn get(&self, key: &String) -> (r: Option<&Option<String>>)
        ensures
            match r {
                Some(v) => self@.contains_key(key@) && v.deep_view() == self@[key@],
                None => !self@.contains_key(key@),
            },
    {
        proof {
            use_type_invariant(&*self);
            lemma_param_map_contains(self.pairs@, key@);
        }
        match Self::find_key(&self.pairs, key) {
            Some(i) => {
                proof {
                    lemma_param_map_entry(self.pairs@, i as int);
                }
                Some(&self.pairs[i].1)
            },
            None => None,
        }
    }

    /// The number of distinct keys in the set.
    pub fn len(&self) -> (n: usize)
        ensures
            n == self@.dom().len(),
    {
        proof {
            use_type_invariant(&*self);
            lemma_param_map_dom_len(self.pairs@);
        }
        self.pairs.len()
    }

    /// Hands the set out as query pairs: exactly the keys that carry a
    /// present value, each with that value, every key once, in no promised
    /// order. Keys configured with an absent value are omitted.
    pub fn query_pairs(&self) -> (r: Vec<(String, String)>)
        ensures
            forall|m: int|
                0 <= m < r@.len() ==> self@.contains_key(#[trigger] r@[m].0@) && self@[r@[m].0@]
                    == Some(r@[m].1@),
            forall|k: Seq<char>|
                self@.contains_key(k) && self@[k] is Some ==> exists|m: int|
                    0 <= m < r@.len() && r@[m].0@ == k,
            forall|m1: int, m2: int| 0 <= m1 < m2 < r@.len() ==> r@[m1].0@ != r@[m2].0@,
    {
        proof {
            use_type_invariant(&*self);
        }
        let n = self.pairs.len();
        let mut r: Vec<(String, String)> = Vec::new();
        let mut i: usize = 0;
        while i < n
            invariant
                unique_keys(self.pairs@),
                self@ == param_map_of(self.pairs@),
                n == self.pairs@.len(),
                0 <= i <= n,
                forall|m: int|
                    0 <= m < r@.len() ==> self@.contains_key(#[trigger] r@[m].0@) && self@[r@[m].0@]
                        == Some(r@[m].1@),
                forall|m: int|
                    0 <= m < r@.len() ==> exists|j: int|
                        0 <= j < i && self.pairs@[j].0@ == #[trigger] r@[m].0@,
                forall|j: int|
                    0 <= j < i && self.pairs@[j].1 is Some ==> exists|m: int|
                        0 <= m < r@.len() && r@[m].0@ == #[trigger] self.pairs@[j].0@,
                forall|m1: int, m2: int| 0 <= m1 < m2 < r@.len() ==> r@[m1].0@ != r@[m2].0@,
            decreases n - i,
        {
            let ghost r0 = r@;
            let pair = &self.pairs[i];
            if let Some(value) = &pair.1 {
                proof {
                    lemma_param_map_entry(self.pairs@, i as int);
                    assert forall|m: int| 0 <= m < r@.len() implies r@[m].0@
                        != self.pairs@[i as int].0@ by {
                        let j = choose|j: int| 0 <= j < i && self.pairs@[j].0@ == r@[m].0@;
                        assert(self.pairs@[j].0@ != self.pairs@[i as int].0@);
                    }
                }
                r.push((pair.0.clone(), value.clone()));
                proof {
                    assert(r@.drop_last() =~= r0);
                }
            }
            proof {
                assert forall|j: int|
                    0 <= j < i + 1 && self.pairs@[j].1 is Some implies exists|m: int|
                    0 <= m < r@.len() && r@[m].0@ == #[trigger] self.pairs@[j].0@ by {
                    if j < i {
                        let m = choose|m: int|
                            0 <= m < r0.len() && r0[m].0@ == self.pairs@[j].0@;
                        assert(r@[m].0@ == self.pairs@[j].0@);
                    } else {
                        assert(r@[r@.len() - 1].0@ == self.pairs@[j].0@);
                    }
                }
            }
            i = i + 1;
        }
        proof {
            assert forall|k: Seq<char>| self@.contains_key(k) && self@[k] is Some implies exists|
                m: int,
            | 0 <= m < r@.len() && r@[m].0@ == k by {
                lemma_param_map_contains(self.pairs@, k);
                let j = choose|j: int| 0 <= j < self.pairs@.len() && self.pairs@[j].0@ == k;
                lemma_param_map_entry(self.pairs@, j);
                assert(self.pairs@[j].1 is Some);
            }
        }
        r
    }
}

/// Builds a parameter set: creates an empty set, hands it to the
/// configuration callback once, and returns what the callback made of it.
/// The result contains exactly the entries the callback put in.
pub fn build<F: FnOnce(ParamSet) -> ParamSet>(configure: F) -> (r: ParamSet)
    requires
        forall|p: ParamSet|
            p@ == Map::<Seq<char>, Option<Seq<char>>>::empty() ==> call_requires(configure, (p,)),
    ensures
        exists|p: ParamSet|
            p@ == Map::<Seq<char>, Option<Seq<char>>>::empty() && call_ensures(
                configure,
                (p,),
                r,
            ),
{
    let p = ParamSet::new();
    configure(p)
}

/// A pure configuration callback yields the same mapping however often it
/// is used to build a parameter set: if the views of two results of the two
/// callbacks agree whenever their inputs agree, and both callbacks were
/// applied to an empty set, the two built sets denote equal mappings.
pub proof fn lemma_build_deterministic<F1: FnOnce(ParamSet) -> ParamSet, F2: FnOnce(
    ParamSet,
) -> ParamSet>(f1: F1, f2: F2, r1: ParamSet, r2: ParamSet)
    requires
        forall|p1: ParamSet, p2: ParamSet, q1: ParamSet, q2: ParamSet|
            p1@ == p2@ && #[trigger] call_ensures(f1, (p1,), q1) && #[trigger] call_ensures(
                f2,
                (p2,),
                q2,
            ) ==> q1@ == q2@,
        exists|p: ParamSet|
            p@ == Map::<Seq<char>, Option<Seq<char>>>::empty() && call_ensures(f1, (p,), r1),
        exists|p: ParamSet|
            p@ == Map::<Seq<char>, Option<Seq<char>>>::empty() && call_ensures(f2, (p,), r2),
    ensures
        r1@ == r2@,
{
    let p1 = choose|p: ParamSet|
        p@ == Map::<Seq<char>, Option<Seq<char>>>::empty() && call_ensures(f1, (p,), r1);
    let p2 = choose|p: ParamSet|
        p@ == Map::<Seq<char>, Option<Seq<char>>>::empty() && call_ensures(f2, (p,), r2);
    assert(p1@ == p2@);
}

} // verus!
