use vstd::prelude::*;

verus! {

/// The set of local binding names that came from façade imports.
pub struct NameSet {
    names: Vec<String>,
}

impl View for NameSet {
    type V = Set<Seq<char>>;

    closed spec fn view(&self) -> Set<Seq<char>> {
        Set::new(|s: Seq<char>| exists|i: int| 0 <= i < self.names@.len() && #[trigger] self.names@[i]@ == s)
    }
}

impl NameSet {
    /// An empty name set.
    pub fn new() -> (r: NameSet)
        ensures
            r@ == Set::<Seq<char>>::empty(),
    {
        let r = NameSet { names: Vec::new() };
        assert(r@ =~= Set::<Seq<char>>::empty());
        r
    }

    /// Whether `name` is in the set.
    pub fn contains(&self, name: &String) -> (r: bool)
        ensures
            r == self@.contains(name@),
    {
        let mut i: usize = 0;
        while i < self.names.len()
            invariant
                i <= self.names@.len(),
                forall|j: int| 0 <= j < i ==> self.names@[j]@ != name@,
            decreases self.names@.len() - i,
        {
            if self.names[i] == *name {
                assert(self.names@[i as int]@ == name@);
                return true;
            }
            i = i + 1;
        }
        false
    }

    /// Adds `name` to the set.
    pub fn insert(&mut self, name: String)
        ensures
            final(self)@ == old(self)@.insert(name@),
    {
        let ghost s = name@;
        self.names.push(name);
        let ghost n = self.names@.len() - 1;
        assert(self.names@[n]@ == s);
        assert forall|t: Seq<char>| #[trigger] old(self)@.insert(s).contains(t) implies self@.contains(t) by {
            if t != s {
                let j = choose|j: int| 0 <= j < old(self).names@.len() && #[trigger] old(self).names@[j]@ == t;
                assert(self.names@[j] == old(self).names@[j]);
            }
        }
        assert(final(self)@ =~= old(self)@.insert(s));
    }
}

} // verus!
