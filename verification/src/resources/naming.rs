use vstd::prelude::*;
use vstd::string::StringExecFns;
use super::name_order::{lemma_name_irreflexive, lemma_name_total, lemma_name_transitive, name_less, sorted_names, str_less};

verus! {

/// The decimal digit character for `d` (`d < 10`).
pub open spec fn digit_char(d: nat) -> char {
    if d == 0 {
        '0'
    } else if d == 1 {
        '1'
    } else if d == 2 {
        '2'
    } else if d == 3 {
        '3'
    } else if d == 4 {
        '4'
    } else if d == 5 {
        '5'
    } else if d == 6 {
        '6'
    } else if d == 7 {
        '7'
    } else if d == 8 {
        '8'
    } else {
        '9'
    }
}

/// The decimal representation of `n`, without leading zeros, as `to_string` writes it.
pub open spec fn decimal(n: nat) -> Seq<char>
    decreases n,
{
    if n < 10 {
        seq![digit_char(n)]
    } else {
        decimal(n / 10).push(digit_char(n % 10))
    }
}

/// `base`, an underscore and the decimal representation of `index`: the name an
/// entry gets when `base` is taken.
pub open spec fn suffixed(base: Seq<char>, index: nat) -> Seq<char> {
    base + seq!['_'] + decimal(index)
}

proof fn lemma_decimal_len(n: nat)
    ensures
        decimal(n).len() >= 1,
        n < 10 ==> decimal(n).len() == 1,
        n >= 10 ==> decimal(n).len() >= 2,
    decreases n,
{
    if n >= 10 {
        lemma_decimal_len(n / 10);
    }
}

/// Different numbers have different decimal representations.
pub proof fn lemma_decimal_injective(a: nat, b: nat)
    requires
        decimal(a) == decimal(b),
    ensures
        a == b,
    decreases a,
{
    lemma_decimal_len(a);
    lemma_decimal_len(b);
    if a < 10 {
        assert(decimal(a)[0] == digit_char(a));
        assert(decimal(b)[0] == digit_char(b));
    } else {
        let da = decimal(a);
        let db = decimal(b);
        assert(da.last() == digit_char(a % 10));
        assert(db.last() == digit_char(b % 10));
        assert(da.drop_last() =~= decimal(a / 10));
        assert(db.drop_last() =~= decimal(b / 10));
        lemma_decimal_injective(a / 10, b / 10);
    }
}

/// Different indices give different suffixed names.
pub proof fn lemma_suffixed_injective(base: Seq<char>, a: nat, b: nat)
    requires
        suffixed(base, a) == suffixed(base, b),
    ensures
        a == b,
{
    let p = base + seq!['_'];
    assert(suffixed(base, a).subrange(p.len() as int, suffixed(base, a).len() as int) =~= decimal(a));
    assert(suffixed(base, b).subrange(p.len() as int, suffixed(base, b).len() as int) =~= decimal(b));
    lemma_decimal_injective(a, b);
}

/// The one-character string of a decimal digit.
fn digit_str(d: usize) -> (s: &'static str)
    requires
        d < 10,
    ensures
        s@ == seq![digit_char(d as nat)],
{
    proof {
        reveal_strlit("0");
        reveal_strlit("1");
        reveal_strlit("2");
        reveal_strlit("3");
        reveal_strlit("4");
        reveal_strlit("5");
        reveal_strlit("6");
        reveal_strlit("7");
        reveal_strlit("8");
        reveal_strlit("9");
    }
    if d == 0 {
        "0"
    } else if d == 1 {
        "1"
    } else if d == 2 {
        "2"
    } else if d == 3 {
        "3"
    } else if d == 4 {
        "4"
    } else if d == 5 {
        "5"
    } else if d == 6 {
        "6"
    } else if d == 7 {
        "7"
    } else if d == 8 {
        "8"
    } else {
        "9"
    }
}

/// The decimal representation of `n`.
pub fn usize_to_decimal(n: usize) -> (s: String)
    ensures
        s@ == decimal(n as nat),
    decreases n,
{
    if n < 10 {
        String::from_str(digit_str(n))
    } else {
        let mut s = usize_to_decimal(n / 10);
        s.append(digit_str(n % 10));
        s
    }
}

/// `base` followed by an underscore and `index`, such as `mesh_2`.
pub fn suffixed_name(base: &str, index: usize) -> (s: String)
    ensures
        s@ == suffixed(base@, index as nat),
{
    proof {
        reveal_strlit("_");
    }
    let mut s = String::from_str(base);
    s.append("_");
    let digits = usize_to_decimal(index);
    s.append(digits.as_str());
    s
}

/// The names `suffixed(base, j)` for `start <= j < end`.
pub open spec fn candidates(base: Seq<char>, start: nat, end: nat) -> Set<Seq<char>> {
    Set::new(|s: Seq<char>| exists|j: nat| start <= j < end && s == suffixed(base, j))
}

proof fn lemma_candidates_len(base: Seq<char>, start: nat, end: nat)
    requires
        start <= end,
    ensures
        candidates(base, start, end).finite(),
        candidates(base, start, end).len() == end - start,
    decreases end - start,
{
    if end == start {
        assert(candidates(base, start, end) =~= Set::empty());
    } else {
        let prev = (end - 1) as nat;
        lemma_candidates_len(base, start, prev);
        assert(candidates(base, start, end) =~= candidates(base, start, prev).insert(
            suffixed(base, prev),
        ));
        if candidates(base, start, prev).contains(suffixed(base, prev)) {
            let j = choose|j: nat| start <= j < prev && suffixed(base, prev) == suffixed(base, j);
            lemma_suffixed_injective(base, prev, j);
        }
    }
}

/// A set of names, each bound to one value. Entries are kept in the order of their
/// names, as `String` compares them; no name occurs twice.
pub struct NameRegistry<V> {
    entries: Vec<(String, V)>,
}

impl<V> NameRegistry<V> {
    /// The names, in increasing order.
    pub closed spec fn names(self) -> Seq<Seq<char>> {
        self.entries@.map_values(|e: (String, V)| e.0@)
    }

    /// The value stored under the `i`-th name.
    pub closed spec fn value_at(self, i: int) -> V {
        self.entries@[i].1
    }

    /// The names are in increasing order, so no name occurs twice.
    pub closed spec fn wf(self) -> bool {
        &&& sorted_names(self.names())
        &&& self.names().no_duplicates()
    }

    /// The names of a well-formed registry are in increasing order.
    pub proof fn lemma_sorted(self)
        requires
            self.wf(),
        ensures
            sorted_names(self.names()),
    {
    }

    /// The registry as a map from names to values.
    pub closed spec fn view(self) -> Map<Seq<char>, V> {
        Map::new(
            |k: Seq<char>| self.names().contains(k),
            |k: Seq<char>| self.value_at(self.names().index_of(k)),
        )
    }

    /// The view binds each name to the value stored with it.
    pub proof fn lemma_view(self)
        requires
            self.wf(),
        ensures
            forall|k: Seq<char>| #[trigger] self.view().contains_key(k) <==> self.names().contains(k),
            forall|i: int|
                0 <= i < self.names().len() ==> #[trigger] self.view()[self.names()[i]]
                    == self.value_at(i),
            self.view().dom().finite(),
            self.view().dom().len() == self.names().len(),
    {
        assert forall|i: int| 0 <= i < self.names().len() implies #[trigger] self.view()[self.names()[i]]
            == self.value_at(i) by {
            assert(self.names().contains(self.names()[i]));
            let j = self.names().index_of(self.names()[i]);
            assert(self.names()[j] == self.names()[i]);
        }
        assert(self.view().dom() =~= self.names().to_set());
        self.names().unique_seq_to_set();
    }

    pub fn new() -> (r: Self)
        ensures
            r.wf(),
            r.view() == Map::<Seq<char>, V>::empty(),
            r.names() == Seq::<Seq<char>>::empty(),
    {
        let r = NameRegistry { entries: Vec::new() };
        assert(r.names() =~= Seq::<Seq<char>>::empty());
        assert(r.view() =~= Map::<Seq<char>, V>::empty());
        r
    }

    /// The number of entries.
    pub fn len(&self) -> (n: usize)
        ensures
            n == self.names().len(),
    {
        self.entries.len()
    }

    /// The position of `name` among the names, if it is present.
    pub fn position(&self, name: &str) -> (r: Option<usize>)
        ensures
            match r {
                Some(i) => i < self.names().len() && self.names()[i as int] == name@,
                None => !self.names().contains(name@),
            },
    {
        let key = String::from_str(name);
        let n = self.entries.len();
        for i in 0..n
            invariant
                n == self.entries@.len(),
                key@ == name@,
                forall|j: int| 0 <= j < i ==> self.names()[j] != name@,
        {
            if self.entries[i].0 == key {
                return Some(i);
            }
        }
        None
    }

    /// Whether a value is stored under `name`.
    pub fn contains(&self, name: &str) -> (r: bool)
        requires
            self.wf(),
        ensures
            r == self.view().contains_key(name@),
    {
        proof {
            self.lemma_view();
        }
        self.position(name).is_some()
    }

    /// The value stored under `name`, if any.
    pub fn get(&self, name: &str) -> (r: Option<&V>)
        requires
            self.wf(),
        ensures
            match r {
                Some(v) => self.view().contains_key(name@) && *v == self.view()[name@],
                None => !self.view().contains_key(name@),
            },
    {
        proof {
            self.lemma_view();
        }
        match self.position(name) {
            Some(i) => Some(&self.entries[i].1),
            None => None,
        }
    }

    /// The name at position `i`.
    pub fn name_at(&self, i: usize) -> (s: &String)
        requires
            i < self.names().len(),
        ensures
            s@ == self.names()[i as int],
    {
        &self.entries[i].0
    }

    /// The value at position `i`.
    pub fn get_at(&self, i: usize) -> (v: &V)
        requires
            i < self.names().len(),
        ensures
            *v == self.value_at(i as int),
    {
        &self.entries[i].1
    }

    /// Stores `value` under `name`, which must be free, at the place its name takes
    /// in the order.
    pub fn insert_new(&mut self, name: String, value: V)
        requires
            old(self).wf(),
            !old(self).view().contains_key(name@),
        ensures
            final(self).wf(),
            final(self).view() == old(self).view().insert(name@, value),
            exists|p: int|
                0 <= p <= old(self).names().len() && final(self).names() == old(self).names().insert(
                    p,
                    name@,
                ),
    {
        proof {
            old(self).lemma_view();
        }
        let ghost k = name@;
        let ghost v = value;
        let ghost old_names = old(self).names();
        let n = self.entries.len();
        let mut p: usize = 0;
        while p < n && !str_less(name.as_str(), self.entries[p].0.as_str())
            invariant
                n == self.entries@.len(),
                p <= n,
                old_names == self.names(),
                forall|i: int| 0 <= i < p ==> !name_less(k, #[trigger] old_names[i]),
                k == name@,
            decreases n - p,
        {
            p = p + 1;
        }
        proof {
            assert(forall|i: int| 0 <= i < old_names.len() ==> old_names[i] == #[trigger] self.entries@[i].0@);
            assert forall|i: int| 0 <= i < p implies name_less(#[trigger] old_names[i], k) by {
                assert(old_names.contains(old_names[i]));
                lemma_name_total(old_names[i], k);
            }
            assert forall|j: int| p <= j < old_names.len() implies name_less(k, #[trigger] old_names[j]) by {
                if j > p {
                    lemma_name_transitive(k, old_names[p as int], old_names[j]);
                }
            }
        }
        self.entries.insert(p, (name, value));
        proof {
            let new_names = self.names();
            assert(new_names =~= old_names.insert(p as int, k));
            assert forall|i: int, j: int| 0 <= i < j < new_names.len() implies name_less(
                #[trigger] new_names[i],
                #[trigger] new_names[j],
            ) by {
                if i < p && j < p {
                } else if i < p && j == p {
                } else if i < p {
                    assert(new_names[j] == old_names[j - 1]);
                } else if i == p {
                    assert(new_names[j] == old_names[j - 1]);
                } else {
                    assert(new_names[i] == old_names[i - 1]);
                    assert(new_names[j] == old_names[j - 1]);
                }
            }
            assert forall|i: int, j: int|
                0 <= i < new_names.len() && 0 <= j < new_names.len() && i != j implies new_names[i]
                != new_names[j] by {
                if i < j {
                    assert(name_less(new_names[i], new_names[j]));
                } else {
                    assert(name_less(new_names[j], new_names[i]));
                }
                lemma_name_irreflexive(new_names[i]);
            }
            self.lemma_view();
            assert forall|key: Seq<char>| #[trigger] self.view().contains_key(key)
                == old(self).view().insert(k, v).contains_key(key) by {
                if old_names.contains(key) {
                    let j = choose|j: int| 0 <= j < old_names.len() && old_names[j] == key;
                    if j < p {
                        assert(new_names[j] == key);
                    } else {
                        assert(new_names[j + 1] == key);
                    }
                }
                if key == k {
                    assert(new_names[p as int] == k);
                }
                if new_names.contains(key) {
                    let j = choose|j: int| 0 <= j < new_names.len() && new_names[j] == key;
                    if j < p {
                        assert(old_names[j] == key);
                    } else if j > p {
                        assert(old_names[j - 1] == key);
                    }
                }
            }
            assert forall|key: Seq<char>| self.view().contains_key(key) implies #[trigger] self.view()[key]
                == old(self).view().insert(k, v)[key] by {
                let i = new_names.index_of(key);
                assert(new_names[i] == key);
                if i < p {
                    assert(old_names[i] == key);
                    assert(old(self).view()[old_names[i]] == old(self).value_at(i));
                } else if i > p {
                    assert(old_names[i - 1] == key);
                    assert(old(self).view()[old_names[i - 1]] == old(self).value_at(i - 1));
                }
            }
            assert(self.view() =~= old(self).view().insert(k, v));
        }
    }

    /// The smallest `i >= start` such that `base_i` is free.
    pub fn free_suffix(&self, base: &str, start: usize) -> (i: usize)
        requires
            self.wf(),
            start + self.names().len() < usize::MAX,
        ensures
            start <= i,
            !self.view().contains_key(suffixed(base@, i as nat)),
            forall|j: nat| start <= j < i ==> #[trigger] self.view().contains_key(suffixed(base@, j)),
    {
        proof {
            self.lemma_view();
        }
        let mut i = start;
        loop
            invariant
                self.wf(),
                start <= i,
                start + self.names().len() < usize::MAX,
                forall|j: nat| start <= j < i ==> #[trigger] self.view().contains_key(suffixed(base@, j)),
                forall|k: Seq<char>| #[trigger] self.view().contains_key(k) <==> self.names().contains(k),
                self.view().dom().finite(),
                self.view().dom().len() == self.names().len(),
            decreases start + self.names().len() + 1 - i,
        {
            let candidate = suffixed_name(base, i);
            let taken = self.contains(candidate.as_str());
            if !taken {
                return i;
            }
            proof {
                let c = candidates(base@, start as nat, (i + 1) as nat);
                lemma_candidates_len(base@, start as nat, (i + 1) as nat);
                assert(c.subset_of(self.view().dom()));
                vstd::set_lib::lemma_len_subset(c, self.view().dom());
            }
            i = i + 1;
        }
    }

    /// Replaces every stored value by what `f` makes of it, keeping the names and
    /// their order.
    pub fn map_values<F: Fn(V) -> V>(&mut self, f: F)
        requires
            old(self).wf(),
            forall|v: V| call_requires(f, (v,)),
        ensures
            final(self).wf(),
            final(self).names() == old(self).names(),
            forall|i: int|
                0 <= i < old(self).names().len() ==> call_ensures(
                    f,
                    (old(self).value_at(i),),
                    #[trigger] final(self).value_at(i),
                ),
    {
        let mut rest: Vec<(String, V)> = Vec::new();
        std::mem::swap(&mut rest, &mut self.entries);
        let ghost orig = rest@;
        let n = rest.len();
        let mut i: usize = 0;
        while i < n
            invariant
                n == orig.len(),
                i <= n,
                rest@ == orig.subrange(i as int, n as int),
                self.entries@.len() == i,
                forall|j: int| 0 <= j < i ==> #[trigger] self.entries@[j].0 == orig[j].0,
                forall|j: int|
                    0 <= j < i ==> call_ensures(f, (orig[j].1,), #[trigger] self.entries@[j].1),
                forall|v: V| call_requires(f, (v,)),
            decreases n - i,
        {
            let (name, value) = rest.remove(0);
            assert(orig[i as int] == (name, value));
            let changed = f(value);
            self.entries.push((name, changed));
            i = i + 1;
            assert(rest@ =~= orig.subrange(i as int, n as int));
        }
        assert(self.names() =~= old(self).names());
    }
}

} // verus!
