//! Names and finite sets of names.
//!
//! Identifiers are compared by their text. A [`NameSet`] is the executable
//! counterpart of a mathematical set of texts.

use vstd::prelude::*;

verus! {

/// Whether some entry of `names` has the text `n`.
pub open spec fn has_text(names: Seq<String>, n: Seq<char>) -> bool {
    exists|i: int| 0 <= i < names.len() && #[trigger] names[i]@ == n
}

/// The set of texts that occur in `names`.
pub open spec fn text_set(names: Seq<String>) -> Set<Seq<char>> {
    Set::new(|n: Seq<char>| has_text(names, n))
}

/// Appending one entry adds its text to the set.
pub proof fn lemma_text_set_push(names: Seq<String>, s: String)
    ensures
        text_set(names.push(s)) == text_set(names).insert(s@),
{
    let left = text_set(names.push(s));
    let right = text_set(names).insert(s@);
    assert forall|n: Seq<char>| left.contains(n) == right.contains(n) by {
        if has_text(names.push(s), n) {
            let i = choose|i: int| 0 <= i < names.push(s).len() && #[trigger] names.push(s)[i]@ == n;
            if i < names.len() {
                assert(names[i]@ == n);
            }
        }
        if has_text(names, n) {
            let i = choose|i: int| 0 <= i < names.len() && #[trigger] names[i]@ == n;
            assert(names.push(s)[i]@ == n);
        }
        if n == s@ {
            assert(names.push(s)[names.len() as int]@ == n);
        }
    }
    assert(left =~= right);
}

/// Whether two strings have the same text.
pub fn same_text(a: &String, b: &String) -> (r: bool)
    ensures
        r == (a@ == b@),
{
    *a == *b
}

/// Whether `name` is exactly the literal `text`.
pub fn is_text(name: &String, text: &str) -> (r: bool)
    ensures
        r == (name@ == text@),
{
    let t = text.to_owned();
    *name == t
}

/// A finite set of names.
pub struct NameSet {
    names: Vec<String>,
}

impl View for NameSet {
    type V = Set<Seq<char>>;

    closed spec fn view(&self) -> Set<Seq<char>> {
        text_set(self.names@)
    }
}

/// Whether no two entries of `names` have the same text.
pub open spec fn distinct_texts(names: Seq<String>) -> bool {
    forall|i: int, j: int|
        0 <= i < j < names.len() ==> (#[trigger] names[i])@ != (#[trigger] names[j])@
}

impl NameSet {
    /// No name is held twice.
    #[verifier::type_invariant]
    spec fn each_once(self) -> bool {
        distinct_texts(self.names@)
    }

    /// The empty set.
    pub fn new() -> (r: Self)
        ensures
            r@ == Set::<Seq<char>>::empty(),
    {
        let r = NameSet { names: Vec::new() };
        assert(r@ =~= Set::<Seq<char>>::empty());
        r
    }

    /// Whether `name` belongs to the set.
    pub fn contains(&self, name: &String) -> (r: bool)
        ensures
            r == self@.contains(name@),
    {
        let mut i: usize = 0;
        while i < self.names.len()
            invariant
                i <= self.names.len(),
                forall|j: int| 0 <= j < i ==> self.names@[j]@ != name@,
            decreases self.names.len() - i,
        {
            if self.names[i] == *name {
                return true;
            }
            i += 1;
        }
        false
    }

    /// Adds `name` to the set.
    pub fn insert(&mut self, name: String)
        ensures
            final(self)@ == old(self)@.insert(name@),
    {
        proof {
            use_type_invariant(&*self);
        }
        if !self.contains(&name) {
            proof {
                lemma_text_set_push(self.names@, name);
                assert forall|i: int| 0 <= i < self.names@.len() implies (
                #[trigger] self.names@[i])@ != name@ by {
                    if self.names@[i]@ == name@ {
                        assert(has_text(self.names@, name@));
                    }
                }
            }
            let mut taken = NameSet { names: Vec::new() };
            core::mem::swap(self, &mut taken);
            let NameSet { mut names } = taken;
            names.push(name);
            *self = NameSet { names };
        } else {
            assert(self@ =~= self@.insert(name@));
        }
    }

    /// Adds every name of `other` to the set.
    pub fn extend(&mut self, other: &NameSet)
        ensures
            final(self)@ == old(self)@.union(other@),
    {
        let mut i: usize = 0;
        while i < other.names.len()
            invariant
                i <= other.names.len(),
                self@ == old(self)@.union(text_set(other.names@.take(i as int))),
            decreases other.names.len() - i,
        {
            let name = other.names[i].clone();
            proof {
                let taken = other.names@.take(i as int);
                assert(other.names@.take(i + 1) =~= taken.push(other.names@[i as int]));
                lemma_text_set_push(taken, other.names@[i as int]);
                assert(old(self)@.union(text_set(taken)).insert(name@) =~= old(self)@.union(
                    text_set(taken).insert(name@),
                ));
            }
            self.insert(name);
            i += 1;
        }
        proof {
            assert(other.names@.take(other.names@.len() as int) =~= other.names@);
        }
    }

    /// A copy of the set.
    pub fn copy(&self) -> (r: Self)
        ensures
            r@ == self@,
    {
        let mut r = NameSet::new();
        r.extend(self);
        assert(r@ =~= self@);
        r
    }

    /// The union of the set with `other`.
    pub fn with(&self, other: &NameSet) -> (r: Self)
        ensures
            r@ == self@.union(other@),
    {
        let mut r = self.copy();
        r.extend(other);
        r
    }

    /// Whether the set shares a name with `other`.
    pub fn intersects(&self, other: &NameSet) -> (r: bool)
        ensures
            r == !self@.disjoint(other@),
    {
        let mut i: usize = 0;
        while i < self.names.len()
            invariant
                i <= self.names.len(),
                forall|j: int| 0 <= j < i ==> !other@.contains(#[trigger] self.names@[j]@),
            decreases self.names.len() - i,
        {
            if other.contains(&self.names[i]) {
                assert(self@.contains(self.names@[i as int]@));
                return true;
            }
            i += 1;
        }
        assert(self@.disjoint(other@)) by {
            assert forall|n: Seq<char>| self@.contains(n) implies !other@.contains(n) by {
                let j = choose|j: int| 0 <= j < self.names@.len() && #[trigger] self.names@[j]@ == n;
            }
        }
        false
    }

    /// Whether the set is empty.
    pub fn is_empty(&self) -> (r: bool)
        ensures
            r == (self@ == Set::<Seq<char>>::empty()),
    {
        if self.names.len() == 0 {
            assert(self@ =~= Set::<Seq<char>>::empty());
            true
        } else {
            assert(self@.contains(self.names@[0]@));
            false
        }
    }

    /// The names of the set, each once.
    pub fn to_vec(&self) -> (r: Vec<String>)
        ensures
            text_set(r@) == self@,
            distinct_texts(r@),
    {
        proof {
            use_type_invariant(self);
        }
        let mut r: Vec<String> = Vec::new();
        let mut i: usize = 0;
        while i < self.names.len()
            invariant
                i <= self.names.len(),
                r@.len() == i,
                forall|j: int| 0 <= j < i ==> r@[j]@ == self.names@[j]@,
            decreases self.names.len() - i,
        {
            r.push(self.names[i].clone());
            i += 1;
        }
        proof {
            assert forall|n: Seq<char>| text_set(r@).contains(n) == self@.contains(n) by {
                if has_text(r@, n) {
                    let j = choose|j: int| 0 <= j < r@.len() && #[trigger] r@[j]@ == n;
                    assert(self.names@[j]@ == n);
                }
                if has_text(self.names@, n) {
                    let j = choose|j: int| 0 <= j < self.names@.len() && #[trigger] self.names@[j]@ == n;
                    assert(r@[j]@ == n);
                }
            }
            assert(text_set(r@) =~= self@);
        }
        r
    }
}

} // verus!
