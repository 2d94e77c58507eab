//! The parameters of one request: field names with one string value each.

use vstd::prelude::*;

verus! {

/// The views of a list of name/value pairs.
pub open spec fn pairs_view(pairs: Seq<(String, String)>) -> Seq<(Seq<char>, Seq<char>)> {
    pairs.map_values(|p: (String, String)| (p.0@, p.1@))
}

/// The names of a list of name/value pairs.
pub open spec fn pair_names(pairs: Seq<(Seq<char>, Seq<char>)>) -> Seq<Seq<char>> {
    pairs.map_values(|p: (Seq<char>, Seq<char>)| p.0)
}

/// Some name stands at two places of the list.
pub open spec fn has_repeated_name(names: Seq<Seq<char>>) -> bool {
    exists|i: int, j: int| 0 <= i < j < names.len() && names[i] == names[j]
}

/// The pair at `i` has the name `k`.
pub open spec fn names_at(pairs: Seq<(Seq<char>, Seq<char>)>, k: Seq<char>, i: int) -> bool {
    0 <= i < pairs.len() && pairs[i].0 == k
}

/// The map of a list of name/value pairs in which no name is repeated: each
/// name with the value of the pair that has it.
pub open spec fn pairs_to_map(pairs: Seq<(Seq<char>, Seq<char>)>) -> Map<Seq<char>, Seq<char>> {
    Map::new(
        |k: Seq<char>| exists|i: int| names_at(pairs, k, i),
        |k: Seq<char>| pairs[choose|i: int| names_at(pairs, k, i)].1,
    )
}

/// Where no name is repeated, each pair is a pair of the map.
pub proof fn lemma_map_has_pair(pairs: Seq<(Seq<char>, Seq<char>)>, i: int)
    requires
        !has_repeated_name(pair_names(pairs)),
        0 <= i < pairs.len(),
    ensures
        pairs_to_map(pairs).contains_key(pairs[i].0),
        pairs_to_map(pairs)[pairs[i].0] == pairs[i].1,
{
    let k = pairs[i].0;
    assert(names_at(pairs, k, i));
    let c = choose|c: int| names_at(pairs, k, c);
    if c != i {
        let names = pair_names(pairs);
        assert(names[c] == names[i]);
        assert(has_repeated_name(names)) by {
            if c < i {
                assert(0 <= c < i < names.len() && names[c] == names[i]);
            } else {
                assert(0 <= i < c < names.len() && names[i] == names[c]);
            }
        }
    }
}

/// Each key of the map is the name of a pair.
pub proof fn lemma_map_key_is_name(pairs: Seq<(Seq<char>, Seq<char>)>, k: Seq<char>) -> (i: int)
    requires
        pairs_to_map(pairs).contains_key(k),
    ensures
        names_at(pairs, k, i),
{
    choose|i: int| names_at(pairs, k, i)
}

/// One more pair under a new name is an insertion into the map.
pub proof fn lemma_map_of_push(
    pairs: Seq<(Seq<char>, Seq<char>)>,
    name: Seq<char>,
    value: Seq<char>,
)
    requires
        !has_repeated_name(pair_names(pairs)),
        !pair_names(pairs).contains(name),
    ensures
        !has_repeated_name(pair_names(pairs.push((name, value)))),
        pairs_to_map(pairs.push((name, value))) == pairs_to_map(pairs).insert(name, value),
{
    let more = pairs.push((name, value));
    let n = pairs.len() as int;
    lemma_new_name_repeats_nothing(pairs, name, value);
    let want = pairs_to_map(pairs).insert(name, value);
    assert forall|k: Seq<char>| pairs_to_map(more).dom().contains(k) == want.dom().contains(
        k,
    ) by {
        if pairs_to_map(more).dom().contains(k) {
            let c = lemma_map_key_is_name(more, k);
            if c < n {
                assert(names_at(pairs, k, c));
            }
        }
        if want.dom().contains(k) && k != name {
            let c = lemma_map_key_is_name(pairs, k);
            assert(names_at(more, k, c));
        }
        assert(names_at(more, name, n));
    }
    assert forall|k: Seq<char>| pairs_to_map(more).dom().contains(k) implies pairs_to_map(more)[k]
        == want[k] by {
        let c = lemma_map_key_is_name(more, k);
        lemma_map_has_pair(more, c);
        if c < n {
            assert(pair_names(pairs)[c] == k);
            lemma_map_has_pair(pairs, c);
        }
    }
    assert(pairs_to_map(more) =~= want);
}

/// One more pair under a new name repeats no name.
pub proof fn lemma_new_name_repeats_nothing(
    pairs: Seq<(Seq<char>, Seq<char>)>,
    name: Seq<char>,
    value: Seq<char>,
)
    requires
        !pair_names(pairs).contains(name),
    ensures
        has_repeated_name(pair_names(pairs.push((name, value)))) == has_repeated_name(
            pair_names(pairs),
        ),
{
    let names = pair_names(pairs);
    let more = pair_names(pairs.push((name, value)));
    assert(more =~= names.push(name));
    if has_repeated_name(more) {
        let (i, j) = choose|i: int, j: int| 0 <= i < j < more.len() && more[i] == more[j];
        if j == names.len() {
            assert(names[i] == name);
        } else {
            assert(0 <= i < j < names.len() && names[i] == names[j]);
        }
    }
    if has_repeated_name(names) {
        let (i, j) = choose|i: int, j: int| 0 <= i < j < names.len() && names[i] == names[j];
        assert(0 <= i < j < more.len() && more[i] == more[j]);
    }
}

/// A map from field name to value. No name occurs twice.
#[derive(Debug)]
pub struct ParameterMap {
    entries: Vec<(String, String)>,
}

impl View for ParameterMap {
    type V = Map<Seq<char>, Seq<char>>;

    closed spec fn view(&self) -> Map<Seq<char>, Seq<char>> {
        pairs_to_map(self.pairs())
    }
}

/// Whether two of the pairs have one name.
fn pairs_repeat_a_name(pairs: &Vec<(String, String)>) -> (r: bool)
    ensures
        r == has_repeated_name(pair_names(pairs_view(pairs@))),
{
    let ghost names = pair_names(pairs_view(pairs@));
    let n = pairs.len();
    let mut i: usize = 0;
    while i < n
        invariant
            0 <= i <= n,
            n == pairs@.len(),
            names == pair_names(pairs_view(pairs@)),
            forall|a: int, b: int| 0 <= a < b < n && a < i ==> names[a] != names[b],
        decreases n - i,
    {
        let mut j: usize = i + 1;
        while j < n
            invariant
                i < j <= n,
                n == pairs@.len(),
                names == pair_names(pairs_view(pairs@)),
                forall|b: int| i < b < j ==> names[i as int] != names[b],
            decreases n - j,
        {
            if pairs[i].0 == pairs[j].0 {
                assert(0 <= i < j < names.len() && names[i as int] == names[j as int]);
                return true;
            }
            j += 1;
        }
        i += 1;
    }
    false
}

impl ParameterMap {
    /// The entries as a list of name/value pairs.
    closed spec fn pairs(&self) -> Seq<(Seq<char>, Seq<char>)> {
        pairs_view(self.entries@)
    }

    /// No name occurs twice among the entries.
    #[verifier::type_invariant]
    closed spec fn names_distinct(&self) -> bool {
        !has_repeated_name(pair_names(self.pairs()))
    }

    /// Replacing the value of the entry at `i` is an insertion into the
    /// view.
    proof fn lemma_replaced(&self, after: ParameterMap, i: int, value: Seq<char>)
        requires
            self.names_distinct(),
            0 <= i < self.pairs().len(),
            after.pairs() == self.pairs().update(i, (self.pairs()[i].0, value)),
        ensures
            after.names_distinct(),
            after@ == self@.insert(self.pairs()[i].0, value),
    {
        let before = self.pairs();
        let now = after.pairs();
        let name = before[i].0;
        assert(pair_names(now) =~= pair_names(before));
        let want = self@.insert(name, value);
        assert forall|k: Seq<char>| after@.dom().contains(k) == want.dom().contains(k) by {
            if after@.dom().contains(k) {
                let c = lemma_map_key_is_name(now, k);
                assert(names_at(before, k, c));
            }
            if want.dom().contains(k) && k != name {
                let c = lemma_map_key_is_name(before, k);
                assert(names_at(now, k, c));
            }
            assert(names_at(now, name, i));
        }
        assert forall|k: Seq<char>| after@.dom().contains(k) implies after@[k] == want[k] by {
            let c = lemma_map_key_is_name(now, k);
            lemma_map_has_pair(now, c);
            if c != i {
                assert(pair_names(before)[c] == k);
                lemma_map_has_pair(before, c);
                if k == name {
                    lemma_map_has_pair(before, i);
                    assert(pair_names(before)[i] == pair_names(before)[c]);
                    assert(has_repeated_name(pair_names(before))) by {
                        if c < i {
                            assert(0 <= c < i < pair_names(before).len());
                        } else {
                            assert(0 <= i < c < pair_names(before).len());
                        }
                    }
                }
            }
        }
        assert(after@ =~= want);
    }

    /// The view has as many keys as there are entries.
    proof fn lemma_len_is_dom_len(&self)
        requires
            self.names_distinct(),
        ensures
            self@.dom().finite(),
            self@.dom().len() == self.entries@.len(),
    {
        let n = self.entries@.len() as int;
        self.lemma_dom_of_prefix(n);
        assert(self.prefix_names(n) =~= self@.dom()) by {
            assert forall|k: Seq<char>| self@.dom().contains(k) implies self.prefix_names(
                n,
            ).contains(k) by {
                let i = lemma_map_key_is_name(self.pairs(), k);
            }
        }
    }

    /// The names of the first `n` entries.
    closed spec fn prefix_names(&self, n: int) -> Set<Seq<char>> {
        Set::new(|k: Seq<char>| exists|i: int| 0 <= i < n && names_at(self.pairs(), k, i))
    }

    /// The first `n` entries have `n` names.
    proof fn lemma_dom_of_prefix(&self, n: int)
        requires
            self.names_distinct(),
            0 <= n <= self.entries@.len(),
        ensures
            self.prefix_names(n).finite(),
            self.prefix_names(n).len() == n,
        decreases n,
    {
        let pairs = self.pairs();
        if n == 0 {
            assert(self.prefix_names(0) =~= Set::<Seq<char>>::empty());
        } else {
            self.lemma_dom_of_prefix(n - 1);
            let k = pairs[n - 1].0;
            assert(names_at(pairs, k, n - 1));
            assert(self.prefix_names(n) =~= self.prefix_names(n - 1).insert(k)) by {
                assert forall|x: Seq<char>| self.prefix_names(n).contains(x) implies
                    self.prefix_names(n - 1).insert(k).contains(x) by {
                    let i = choose|i: int| 0 <= i < n && names_at(pairs, x, i);
                    if i != n - 1 {
                        assert(0 <= i < n - 1 && names_at(pairs, x, i));
                    }
                }
            }
            assert(!self.prefix_names(n - 1).contains(k)) by {
                if self.prefix_names(n - 1).contains(k) {
                    let i = choose|i: int| 0 <= i < n - 1 && names_at(pairs, k, i);
                    let names = pair_names(pairs);
                    assert(0 <= i < n - 1 < names.len() && names[i] == names[n - 1]);
                }
            }
        }
    }

    /// A map without names.
    pub fn new() -> (r: ParameterMap)
        ensures
            r@ == Map::<Seq<char>, Seq<char>>::empty(),
    {
        let r = ParameterMap { entries: Vec::new() };
        assert(r@ =~= Map::<Seq<char>, Seq<char>>::empty()) by {
            assert forall|k: Seq<char>| !r@.dom().contains(k) by {
                if r@.dom().contains(k) {
                    let i = lemma_map_key_is_name(r.pairs(), k);
                }
            }
        }
        r
    }

    /// The number of names in the map.
    pub fn len(&self) -> (n: usize)
        ensures
            n == self@.dom().len(),
            self@.dom().finite(),
    {
        proof {
            use_type_invariant(self);
            self.lemma_len_is_dom_len();
        }
        self.entries.len()
    }

    /// The value of the field `name`, if the map has it.
    pub fn get(&self, name: &str) -> (r: Option<&String>)
        ensures
            match r {
                Some(value) => self@.contains_key(name@) && value@ == self@[name@],
                None => !self@.contains_key(name@),
            },
    {
        proof {
            use_type_invariant(self);
        }
        let key = name.to_owned();
        let mut i: usize = 0;
        while i < self.entries.len()
            invariant
                0 <= i <= self.entries@.len(),
                key@ == name@,
                self.names_distinct(),
                forall|j: int| 0 <= j < i ==> self.pairs()[j].0 != name@,
            decreases self.entries@.len() - i,
        {
            if self.entries[i].0 == key {
                proof {
                    lemma_map_has_pair(self.pairs(), i as int);
                }
                return Some(&self.entries[i].1);
            }
            i += 1;
        }
        proof {
            if self@.contains_key(name@) {
                let c = lemma_map_key_is_name(self.pairs(), name@);
            }
        }
        None
    }

    /// Whether the map has the field `name`.
    pub fn contains(&self, name: &str) -> (r: bool)
        ensures
            r == self@.contains_key(name@),
    {
        self.get(name).is_some()
    }

    /// Gives the field `name` the value `value`, in place of the value that
    /// it had, if it had one.
    pub fn insert(&mut self, name: String, value: String)
        ensures
            final(self)@ == old(self)@.insert(name@, value@),
    {
        proof {
            use_type_invariant(&*self);
        }
        let ghost before = *self;
        let mut entries: Vec<(String, String)> = Vec::new();
        std::mem::swap(&mut self.entries, &mut entries);
        let mut i: usize = 0;
        let mut found: bool = false;
        while i < entries.len() && !found
            invariant
                0 <= i <= entries@.len(),
                entries@ == before.entries@,
                found ==> i < entries@.len() && entries@[i as int].0@ == name@,
                forall|j: int| 0 <= j < i ==> pairs_view(entries@)[j].0 != name@,
            decreases entries@.len() - i + if found { 0int } else { 1int },
        {
            if entries[i].0 == name {
                found = true;
            } else {
                i += 1;
            }
        }
        if found {
            entries[i] = (name, value);
            proof {
                assert(pairs_view(entries@) =~= before.pairs().update(
                    i as int,
                    (before.pairs()[i as int].0, value@),
                ));
                assert(pair_names(pairs_view(entries@)) =~= pair_names(before.pairs()));
            }
        } else {
            entries.push((name, value));
            proof {
                assert(pairs_view(entries@) =~= before.pairs().push((name@, value@)));
                assert(!pair_names(before.pairs()).contains(name@));
                lemma_map_of_push(before.pairs(), name@, value@);
            }
        }
        self.entries = entries;
        proof {
            if found {
                before.lemma_replaced(*self, i as int, value@);
            }
        }
    }

    /// The map of the pairs, where no two of them have one name; `None`
    /// where two do.
    pub fn from_pairs(pairs: Vec<(String, String)>) -> (r: Option<ParameterMap>)
        ensures
            match r {
                Some(map) => !has_repeated_name(pair_names(pairs_view(pairs@))) && map@
                    == pairs_to_map(pairs_view(pairs@)),
                None => has_repeated_name(pair_names(pairs_view(pairs@))),
            },
    {
        if pairs_repeat_a_name(&pairs) {
            None
        } else {
            Some(ParameterMap { entries: pairs })
        }
    }
}

} // verus!
