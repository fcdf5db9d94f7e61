//! A mapping from define names to values that keeps the order in which the
//! names were first entered.

use vstd::prelude::*;

verus! {

/// No name occurs twice in `s`.
pub open spec fn names_distinct<T>(s: Seq<(Seq<char>, T)>) -> bool {
    forall|i: int, j: int| 0 <= i < j < s.len() ==> (#[trigger] s[i]).0 != (#[trigger] s[j]).0
}

/// Some entry of `s` is named `name`.
pub open spec fn has_name<T>(s: Seq<(Seq<char>, T)>, name: Seq<char>) -> bool {
    exists|i: int| 0 <= i < s.len() && (#[trigger] s[i]).0 == name
}

/// The place of an entry named `name` in `s`, where there is one.
pub open spec fn place_of<T>(s: Seq<(Seq<char>, T)>, name: Seq<char>) -> int {
    choose|i: int| 0 <= i < s.len() && (#[trigger] s[i]).0 == name
}

/// The value entered under `name`, if any.
pub open spec fn lookup<T>(s: Seq<(Seq<char>, T)>, name: Seq<char>) -> Option<T> {
    if has_name(s, name) {
        Some(s[place_of(s, name)].1)
    } else {
        None
    }
}

/// `s` with `value` entered under `name`: in the place of the entry of that
/// name, or at the end where there is none.
pub open spec fn put<T>(s: Seq<(Seq<char>, T)>, name: Seq<char>, value: T) -> Seq<
    (Seq<char>, T),
> {
    if has_name(s, name) {
        s.update(place_of(s, name), (name, value))
    } else {
        s.push((name, value))
    }
}

/// With distinct names, the entry at a place is the one found under its name.
pub proof fn lemma_lookup_at<T>(s: Seq<(Seq<char>, T)>, i: int)
    requires
        names_distinct(s),
        0 <= i < s.len(),
    ensures
        has_name(s, s[i].0),
        place_of(s, s[i].0) == i,
        lookup(s, s[i].0) == Some(s[i].1),
{
    assert(has_name(s, s[i].0));
    let p = place_of(s, s[i].0);
    if p < i {
        assert(s[p].0 != s[i].0);
    } else if i < p {
        assert(s[i].0 != s[p].0);
    }
}

/// Entering a value keeps the names distinct.
pub proof fn lemma_put_distinct<T>(s: Seq<(Seq<char>, T)>, name: Seq<char>, value: T)
    requires
        names_distinct(s),
    ensures
        names_distinct(put(s, name, value)),
        lookup(put(s, name, value), name) == Some(value),
        forall|other: Seq<char>| other != name ==> lookup(put(s, name, value), other) == lookup(s, other),
{
    let t = put(s, name, value);
    if has_name(s, name) {
        let p = place_of(s, name);
        assert forall|i: int, j: int| 0 <= i < j < t.len() implies (#[trigger] t[i]).0 != (
        #[trigger] t[j]).0 by {
            assert(t[i].0 == s[i].0);
            assert(t[j].0 == s[j].0);
        }
        lemma_lookup_at(t, p);
        assert forall|other: Seq<char>| other != name implies lookup(t, other) == lookup(
            s,
            other,
        ) by {
            if has_name(s, other) {
                let q = place_of(s, other);
                assert(t[q] == s[q]);
                lemma_lookup_at(s, q);
                lemma_lookup_at(t, q);
            } else {
                if has_name(t, other) {
                    let q = place_of(t, other);
                    assert(s[q].0 == other);
                }
            }
        }
    } else {
        assert forall|i: int, j: int| 0 <= i < j < t.len() implies (#[trigger] t[i]).0 != (
        #[trigger] t[j]).0 by {
            if j == s.len() {
                assert(s[i].0 != name);
            } else {
                assert(t[i] == s[i]);
                assert(t[j] == s[j]);
            }
        }
        lemma_lookup_at(t, s.len() as int);
        assert forall|other: Seq<char>| other != name implies lookup(t, other) == lookup(
            s,
            other,
        ) by {
            if has_name(s, other) {
                let q = place_of(s, other);
                assert(t[q] == s[q]);
                lemma_lookup_at(s, q);
                lemma_lookup_at(t, q);
            } else {
                if has_name(t, other) {
                    let q = place_of(t, other);
                    assert(s[q].0 == other);
                }
            }
        }
    }
}

/// An insertion-ordered mapping from names to values of type `V`.
///
/// No name occurs twice: entering a value under a name that is present
/// replaces the value in place.
#[derive(Debug)]
pub struct DefineMap<V: View> {
    names: Vec<String>,
    values: Vec<V>,
}

spec fn paired<V: View>(names: Seq<String>, values: Seq<V>) -> Seq<(Seq<char>, V::V)> {
    Seq::new(names.len(), |i: int| (names[i]@, values[i]@))
}

impl<V: View> View for DefineMap<V> {
    type V = Seq<(Seq<char>, V::V)>;

    closed spec fn view(&self) -> Seq<(Seq<char>, V::V)> {
        paired(self.names@, self.values@)
    }
}

impl<V: View> DefineMap<V> {
    #[verifier::type_invariant]
    closed spec fn well_formed(&self) -> bool {
        &&& self.names@.len() == self.values@.len()
        &&& names_distinct(self@)
    }

    /// The empty mapping.
    pub fn new() -> (m: Self)
        ensures
            m@ == Seq::<(Seq<char>, V::V)>::empty(),
    {
        let m = DefineMap { names: Vec::new(), values: Vec::new() };
        assert(m@ =~= Seq::<(Seq<char>, V::V)>::empty());
        m
    }

    /// The number of entries. No two of them share a name.
    pub fn len(&self) -> (n: usize)
        ensures
            n == self@.len(),
            names_distinct(self@),
    {
        proof {
            use_type_invariant(self);
        }
        self.names.len()
    }

    /// The name of the entry at place `i`.
    pub fn name(&self, i: usize) -> (r: &String)
        requires
            i < self@.len(),
        ensures
            r@ == self@[i as int].0,
    {
        &self.names[i]
    }

    /// The value of the entry at place `i`.
    pub fn value(&self, i: usize) -> (r: &V)
        requires
            i < self@.len(),
        ensures
            r@ == self@[i as int].1,
    {
        proof {
            use_type_invariant(self);
        }
        &self.values[i]
    }

    /// The place of the entry named `name`, if there is one.
    pub fn find(&self, name: &String) -> (r: Option<usize>)
        ensures
            r is Some <==> has_name(self@, name@),
            r matches Some(i) ==> i < self@.len() && self@[i as int].0 == name@ && place_of(
                self@,
                name@,
            ) == i,
    {
        proof {
            use_type_invariant(self);
        }
        let mut i: usize = 0;
        while i < self.names.len()
            invariant
                i <= self.names@.len(),
                self@.len() == self.names@.len(),
                forall|j: int| 0 <= j < i ==> (#[trigger] self@[j]).0 != name@,
                names_distinct(self@),
            decreases self.names@.len() - i,
        {
            if self.names[i] == *name {
                proof {
                    lemma_lookup_at(self@, i as int);
                }
                return Some(i);
            }
            i = i + 1;
        }
        None
    }

    /// The value entered under `name`, if any.
    pub fn get(&self, name: &String) -> (r: Option<&V>)
        ensures
            r is Some <==> has_name(self@, name@),
            r matches Some(v) ==> lookup(self@, name@) == Some(v@),
    {
        proof {
            use_type_invariant(self);
        }
        match self.find(name) {
            Some(i) => Some(&self.values[i]),
            None => None,
        }
    }

    /// This mapping with `value` entered under `name`: in the place of the
    /// entry of that name or, where there is none, at the end.
    pub fn with(self, name: String, value: V) -> (m: Self)
        ensures
            m@ == put(self@, name@, value@),
    {
        proof {
            use_type_invariant(&self);
            lemma_put_distinct(self@, name@, value@);
        }
        let found = self.find(&name);
        let ghost before = self@;
        let DefineMap { mut names, mut values } = self;
        match found {
            Some(i) => {
                values[i] = value;
            },
            None => {
                names.push(name);
                values.push(value);
            },
        }
        assert(paired(names@, values@) =~= put(before, name@, value@));
        DefineMap { names, values }
    }

    /// Enters `value` under `name`, in the place of the entry of that name or,
    /// where there is none, at the end.
    pub fn insert(&mut self, name: String, value: V)
        ensures
            final(self)@ == put(old(self)@, name@, value@),
    {
        let mut taken = DefineMap::new();
        std::mem::swap(self, &mut taken);
        *self = taken.with(name, value);
    }
}

} // verus!
