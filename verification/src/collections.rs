//! Small sets and maps keyed by the service's enumerations.
//!
//! The settings service keeps sets of setting types and controller flags,
//! and maps from setting types to handlers. Their elements are plain enums,
//! so a vector without repeated elements holds them; its view is the
//! mathematical set (or map) that the rest of the library speaks of.
use vstd::prelude::*;
use vstd::std_specs::cmp::PartialEqSpec;

verus! {

/// An element of a [`KeySet`] or a key of a [`KeyMap`]: a plain value whose
/// equality can be decided at run time.
pub trait SetElement: Copy + Sized {
    /// Whether `self` and `other` are the same value.
    fn same(&self, other: &Self) -> (b: bool)
        ensures
            b == (*self == *other),
    ;
}

/// `s.index_of(s[i]) == i` when nothing occurs twice in `s`.
proof fn lemma_index_of_unique<T>(s: Seq<T>, i: int)
    requires
        s.no_duplicates(),
        0 <= i < s.len(),
    ensures
        s.index_of(s[i]) == i,
{
    assert(s.contains(s[i]));
}

/// Position of `x` in `items`, if it is there.
fn position<T: SetElement>(items: &Vec<T>, x: &T) -> (r: Option<usize>)
    ensures
        match r {
            Some(i) => i < items@.len() && items@[i as int] == *x,
            None => !items@.contains(*x),
        },
{
    let n = items.len();
    let mut i: usize = 0;
    while i < n
        invariant
            n == items@.len(),
            i <= n,
            forall|j: int| 0 <= j < i ==> items@[j] != *x,
        decreases n - i,
    {
        if items[i].same(x) {
            return Some(i);
        }
        i = i + 1;
    }
    None
}

/// A finite set of plain values, such as the setting types that the
/// service brings up.
#[derive(Debug)]
pub struct KeySet<T> {
    items: Vec<T>,
}

impl<T> View for KeySet<T> {
    type V = Set<T>;

    closed spec fn view(&self) -> Set<T> {
        self.items@.to_set()
    }
}

impl<T> KeySet<T> {
    #[verifier::type_invariant]
    spec fn inv(self) -> bool {
        self.items@.no_duplicates()
    }
}

impl<T: SetElement> KeySet<T> {
    /// The elements in the order in which the set hands them out.
    pub closed spec fn elements_seq(&self) -> Seq<T> {
        self.items@
    }

    /// The empty set.
    pub fn new() -> (s: Self)
        ensures
            s@ == Set::<T>::empty(),
            s.elements_seq() == Seq::<T>::empty(),
    {
        let s = KeySet { items: Vec::new() };
        assert(s@ =~= Set::<T>::empty());
        s
    }

    /// Whether `x` is in the set.
    pub fn contains(&self, x: &T) -> (b: bool)
        ensures
            b == self@.contains(*x),
    {
        position(&self.items, x).is_some()
    }

    /// Adds `x`; tells whether it was new to the set.
    pub fn insert(&mut self, x: T) -> (added: bool)
        ensures
            final(self)@ == old(self)@.insert(x),
            added == !old(self)@.contains(x),
            added ==> final(self).elements_seq() == old(self).elements_seq().push(x),
            !added ==> final(self).elements_seq() == old(self).elements_seq(),
    {
        proof {
            use_type_invariant(&*self);
        }
        match position(&self.items, &x) {
            Some(_) => {
                assert(self@ =~= self@.insert(x));
                false
            },
            None => {
                let ghost before = self.items@;
                let mut items: Vec<T> = Vec::new();
                std::mem::swap(&mut items, &mut self.items);
                items.push(x);
                proof {
                    assert(items@.no_duplicates()) by {
                        assert forall|a: int, b: int|
                            0 <= a < items@.len() && 0 <= b < items@.len() && a != b implies items@[a]
                            != items@[b] by {
                            if a == before.len() {
                                assert(before[b] == items@[b]);
                            } else if b == before.len() {
                                assert(before[a] == items@[a]);
                            }
                        }
                    }
                }
                self.items = items;
                assert(self.items@ == before.push(x));
                assert(self@ =~= before.to_set().insert(x)) by {
                    before.lemma_push_to_set_commute(x);
                }
                true
            },
        }
    }

    /// The set of the elements of `elems`.
    pub fn from_slice(elems: &[T]) -> (s: Self)
        ensures
            s@ == elems@.to_set(),
    {
        let mut s = KeySet::new();
        let n = elems.len();
        let mut i: usize = 0;
        while i < n
            invariant
                n == elems@.len(),
                i <= n,
                s@ == elems@.subrange(0, i as int).to_set(),
            decreases n - i,
        {
            let x = elems[i];
            s.insert(x);
            assert(elems@.subrange(0, i + 1) == elems@.subrange(0, i as int).push(x));
            proof {
                elems@.subrange(0, i as int).lemma_push_to_set_commute(x);
            }
            i = i + 1;
        }
        assert(elems@.subrange(0, n as int) == elems@);
        s
    }

    /// How many elements the set holds.
    pub fn len(&self) -> (n: usize)
        ensures
            n == self@.len(),
    {
        proof {
            use_type_invariant(self);
            self.items@.unique_seq_to_set();
        }
        self.items.len()
    }

    /// The elements, each once, in the set's order.
    pub fn elements(&self) -> (v: Vec<T>)
        ensures
            v@ == self.elements_seq(),
            v@.no_duplicates(),
            v@.to_set() == self@,
    {
        proof {
            use_type_invariant(self);
            self.items@.unique_seq_to_set();
        }
        let mut v: Vec<T> = Vec::new();
        let n = self.items.len();
        let mut i: usize = 0;
        while i < n
            invariant
                n == self.items@.len(),
                i <= n,
                v@ == self.items@.subrange(0, i as int),
            decreases n - i,
        {
            v.push(self.items[i]);
            assert(self.items@.subrange(0, i + 1) == self.items@.subrange(0, i as int).push(self.items@[i as int]));
            i = i + 1;
        }
        assert(self.items@.subrange(0, n as int) == self.items@);
        v
    }

    /// A copy of the set.
    fn duplicate(&self) -> (s: Self)
        ensures
            s@ == self@,
            s.elements_seq() == self.elements_seq(),
    {
        proof {
            use_type_invariant(self);
            self.items@.unique_seq_to_set();
        }
        KeySet { items: self.elements() }
    }
}

impl<T: SetElement> Clone for KeySet<T> {
    fn clone(&self) -> (s: Self)
        ensures
            s@ == self@,
            s.elements_seq() == self.elements_seq(),
    {
        self.duplicate()
    }
}

/// Two sets are equal when they hold the same elements, whatever their order.
impl<T: SetElement> PartialEq for KeySet<T> {
    fn eq(&self, other: &Self) -> (r: bool) {
        proof {
            use_type_invariant(self);
            use_type_invariant(other);
            self.items@.unique_seq_to_set();
            other.items@.unique_seq_to_set();
            vstd::seq_lib::seq_to_set_is_finite(self.items@);
            vstd::seq_lib::seq_to_set_is_finite(other.items@);
        }
        if self.items.len() != other.items.len() {
            return false;
        }
        let n = self.items.len();
        let mut i: usize = 0;
        while i < n
            invariant
                n == self.items@.len(),
                i <= n,
                forall|j: int| 0 <= j < i ==> other@.contains(#[trigger] self.items@[j]),
            decreases n - i,
        {
            if !other.contains(&self.items[i]) {
                assert(self@.contains(self.items@[i as int]));
                return false;
            }
            i = i + 1;
        }
        proof {
            assert(self@.subset_of(other@)) by {
                assert forall|y: T| self@.contains(y) implies other@.contains(y) by {
                    let j = choose|j: int| 0 <= j < self.items@.len() && self.items@[j] == y;
                }
            }
            vstd::set_lib::lemma_subset_equality(self@, other@);
        }
        true
    }
}

impl<T: SetElement> vstd::std_specs::cmp::PartialEqSpecImpl for KeySet<T> {
    open spec fn obeys_eq_spec() -> bool {
        true
    }

    open spec fn eq_spec(&self, other: &Self) -> bool {
        self@ == other@
    }
}

/// A finite map from plain keys to values, such as the custom handlers of
/// the settings service.
#[derive(Debug)]
pub struct KeyMap<K, V> {
    keys: Vec<K>,
    values: Vec<V>,
}

impl<K, V> View for KeyMap<K, V> {
    type V = Map<K, V>;

    closed spec fn view(&self) -> Map<K, V> {
        Map::new(|k: K| self.keys@.contains(k), |k: K| self.values@[self.keys@.index_of(k)])
    }
}

impl<K, V> KeyMap<K, V> {
    #[verifier::type_invariant]
    spec fn inv(self) -> bool {
        &&& self.keys@.no_duplicates()
        &&& self.keys@.len() == self.values@.len()
    }
}

impl<K: SetElement, V> KeyMap<K, V> {
    /// The keys in the order in which the map hands its entries out.
    pub closed spec fn keys_seq(&self) -> Seq<K> {
        self.keys@
    }

    /// The empty map.
    pub fn new() -> (m: Self)
        ensures
            m@ == Map::<K, V>::empty(),
    {
        let m = KeyMap { keys: Vec::new(), values: Vec::new() };
        assert(m@ =~= Map::<K, V>::empty());
        m
    }

    /// Whether `k` has a value in the map.
    pub fn contains_key(&self, k: &K) -> (b: bool)
        ensures
            b == self@.contains_key(*k),
    {
        position(&self.keys, k).is_some()
    }

    /// How many entries the map holds.
    pub fn len(&self) -> (n: usize)
        ensures
            n == self@.len(),
    {
        proof {
            use_type_invariant(self);
            self.keys@.unique_seq_to_set();
            assert(self@.dom() =~= self.keys@.to_set());
        }
        self.keys.len()
    }

    /// The value of `k`, if it has one.
    pub fn get(&self, k: &K) -> (r: Option<&V>)
        ensures
            match r {
                Some(v) => self@.contains_key(*k) && *v == self@[*k],
                None => !self@.contains_key(*k),
            },
    {
        proof {
            use_type_invariant(self);
        }
        match position(&self.keys, k) {
            Some(i) => {
                proof {
                    lemma_index_of_unique(self.keys@, i as int);
                }
                Some(&self.values[i])
            },
            None => None,
        }
    }

    /// Sets the value of `k` to `v`; hands back the value it replaced.
    pub fn insert(&mut self, k: K, v: V) -> (replaced: Option<V>)
        ensures
            final(self)@ == old(self)@.insert(k, v),
            match replaced {
                Some(w) => old(self)@.contains_key(k) && w == old(self)@[k],
                None => !old(self)@.contains_key(k),
            },
    {
        proof {
            use_type_invariant(&*self);
        }
        let ghost old_keys = self.keys@;
        let ghost old_values = self.values@;
        let ghost old_map = self@;
        match position(&self.keys, &k) {
            Some(i) => {
                proof {
                    lemma_index_of_unique(old_keys, i as int);
                }
                let mut taken = KeyMap::new();
                std::mem::swap(self, &mut taken);
                let KeyMap { keys, mut values } = taken;
                values.push(v);
                let w = values.swap_remove(i);
                *self = KeyMap { keys, values };
                assert(self.values@ =~= old_values.update(i as int, v));
                assert(self.keys@ == old_keys);
                assert(self.values@ == old_values.update(i as int, v));
                assert(self@ =~= old_map.insert(k, v)) by {
                    assert forall|key: K| #[trigger] self@.contains_key(key) implies self@[key]
                        == old_map.insert(k, v)[key] by {
                        let j = old_keys.index_of(key);
                        assert(old_keys.contains(key));
                        let jj = choose|jj: int| 0 <= jj < old_keys.len() && old_keys[jj] == key;
                        lemma_index_of_unique(old_keys, jj);
                    }
                }
                Some(w)
            },
            None => {
                let ghost n = old_keys.len() as int;
                let mut taken = KeyMap::new();
                std::mem::swap(self, &mut taken);
                let KeyMap { mut keys, mut values } = taken;
                keys.push(k);
                values.push(v);
                assert(keys@.no_duplicates()) by {
                    assert forall|a: int, b: int|
                        0 <= a < keys@.len() && 0 <= b < keys@.len() && a != b implies keys@[a]
                        != keys@[b] by {
                        if a == n {
                            assert(old_keys[b] == keys@[b]);
                        } else if b == n {
                            assert(old_keys[a] == keys@[a]);
                        }
                    }
                }
                *self = KeyMap { keys, values };
                assert(self.keys@ == old_keys.push(k));
                assert(self.values@ == old_values.push(v));
                assert(self@ =~= old_map.insert(k, v)) by {
                    assert forall|key: K| #[trigger]
                        self@.contains_key(key) <==> old_map.insert(k, v).contains_key(key) by {
                        if self.keys@.contains(key) && key != k {
                            let j = choose|j: int| 0 <= j < self.keys@.len() && self.keys@[j] == key;
                            assert(old_keys[j] == key);
                        }
                        if old_keys.contains(key) {
                            let j = choose|j: int| 0 <= j < old_keys.len() && old_keys[j] == key;
                            assert(self.keys@[j] == key);
                        }
                        if key == k {
                            assert(self.keys@[n] == k);
                        }
                    }
                    assert forall|key: K| #[trigger] self@.contains_key(key) implies self@[key]
                        == old_map.insert(k, v)[key] by {
                        let jj = choose|jj: int| 0 <= jj < self.keys@.len() && self.keys@[jj] == key;
                        lemma_index_of_unique(self.keys@, jj);
                        if key != k {
                            lemma_index_of_unique(old_keys, jj);
                        }
                    }
                }
                None
            },
        }
    }

    /// Takes one entry out of the map, or tells that the map is empty.
    pub fn pop(&mut self) -> (r: Option<(K, V)>)
        ensures
            match r {
                Some((k, v)) => {
                    &&& old(self)@.contains_key(k)
                    &&& v == old(self)@[k]
                    &&& final(self)@ == old(self)@.remove(k)
                    &&& final(self).keys_seq().len() + 1 == old(self).keys_seq().len()
                },
                None => old(self)@ == Map::<K, V>::empty() && final(self)@ == old(self)@,
            },
    {
        proof {
            use_type_invariant(&*self);
        }
        let ghost old_keys = self.keys@;
        let ghost old_values = self.values@;
        let ghost old_map = self@;
        if self.keys.len() == 0 {
            assert(old_map =~= Map::<K, V>::empty());
            return None;
        }
        let mut taken = KeyMap::new();
        std::mem::swap(self, &mut taken);
        let KeyMap { mut keys, mut values } = taken;
        let k = keys.pop().unwrap();
        let v = values.pop().unwrap();
        let ghost n = keys@.len() as int;
        assert(keys@ == old_keys.drop_last());
        assert(keys@.no_duplicates()) by {
            assert forall|a: int, b: int|
                0 <= a < keys@.len() && 0 <= b < keys@.len() && a != b implies keys@[a] != keys@[b] by {
                assert(old_keys[a] == keys@[a] && old_keys[b] == keys@[b]);
            }
        }
        *self = KeyMap { keys, values };
        proof {
            lemma_index_of_unique(old_keys, n);
            assert(old_keys[n] == k);
            assert(old_keys.contains(k));
            assert(self@ =~= old_map.remove(k)) by {
                assert forall|key: K| #[trigger]
                    self@.contains_key(key) <==> old_map.remove(k).contains_key(key) by {
                    if self.keys@.contains(key) {
                        let j = choose|j: int| 0 <= j < self.keys@.len() && self.keys@[j] == key;
                        assert(old_keys[j] == key);
                        assert(j != n);
                    }
                    if old_keys.contains(key) && key != k {
                        let j = choose|j: int| 0 <= j < old_keys.len() && old_keys[j] == key;
                        assert(j != n);
                        assert(self.keys@[j] == key);
                    }
                }
                assert forall|key: K| #[trigger] self@.contains_key(key) implies self@[key]
                    == old_map.remove(k)[key] by {
                    let j = choose|j: int| 0 <= j < self.keys@.len() && self.keys@[j] == key;
                    lemma_index_of_unique(self.keys@, j);
                    assert(old_keys[j] == key);
                    lemma_index_of_unique(old_keys, j);
                }
            }
        }
        Some((k, v))
    }
}

/// Two key sets are equal exactly when they hold the same elements, whatever
/// order they hold them in.
pub proof fn lemma_key_set_equality<T: SetElement>(a: KeySet<T>, b: KeySet<T>)
    ensures
        <KeySet<T> as PartialEqSpec>::obeys_eq_spec(),
        a.eq_spec(&b) == (a@ == b@),
        a.eq_spec(&b) == (forall|x: T| a@.contains(x) <==> b@.contains(x)),
{
    if forall|x: T| a@.contains(x) <==> b@.contains(x) {
        assert(a@ =~= b@);
    }
}
} // verus!
