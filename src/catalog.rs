//! Named entries with distinct names, kept in the order they were first inserted.

use vstd::prelude::*;
use vstd::string::StringExecFns;

verus! {

/// Whether some entry of `s` is called `name`.
pub open spec fn has_name<T>(s: Seq<(Seq<char>, T)>, name: Seq<char>) -> bool {
    exists|i: int| 0 <= i < s.len() && #[trigger] s[i].0 == name
}

/// Whether no two entries of `s` share a name.
pub open spec fn names_unique<T>(s: Seq<(Seq<char>, T)>) -> bool {
    forall|i: int, j: int| 0 <= i < j < s.len() ==> #[trigger] s[i].0 != #[trigger] s[j].0
}

/// `s` with `name` bound to `value`: the entry of that name replaced in place, or a new
/// entry at the end.
pub open spec fn inserted<T>(s: Seq<(Seq<char>, T)>, name: Seq<char>, value: T) -> Seq<(Seq<char>, T)> {
    if has_name(s, name) {
        s.map_values(|e: (Seq<char>, T)| if e.0 == name { (name, value) } else { e })
    } else {
        s.push((name, value))
    }
}

/// Values under distinct names, in the order in which the names were first inserted.
pub struct Catalog<T> {
    entries: Vec<(String, T)>,
}

impl<T> Catalog<T> {
    #[verifier::type_invariant]
    spec fn names_are_unique(&self) -> bool {
        names_unique(self@)
    }
}

impl<T> View for Catalog<T> {
    type V = Seq<(Seq<char>, T)>;

    closed spec fn view(&self) -> Seq<(Seq<char>, T)> {
        self.entries@.map_values(|e: (String, T)| (e.0@, e.1))
    }
}

impl<T> Catalog<T> {
    /// An empty catalog.
    pub fn new() -> (r: Catalog<T>)
        ensures
            r@ == Seq::<(Seq<char>, T)>::empty(),
    {
        let r = Catalog { entries: Vec::new() };
        assert(r@ =~= Seq::<(Seq<char>, T)>::empty());
        r
    }

    /// The number of entries.
    pub fn len(&self) -> (r: usize)
        ensures
            r == self@.len(),
    {
        self.entries.len()
    }

    /// The name of entry `i`.
    pub fn name_at(&self, i: usize) -> (r: &String)
        requires
            i < self@.len(),
        ensures
            r@ == self@[i as int].0,
    {
        &self.entries[i].0
    }

    /// The value of entry `i`.
    pub fn value_at(&self, i: usize) -> (r: &T)
        requires
            i < self@.len(),
        ensures
            *r == self@[i as int].1,
    {
        &self.entries[i].1
    }

    /// Binds `name` to `value`, replacing the value of an entry of that name in place.
    pub fn insert(&mut self, name: String, value: T)
        ensures
            final(self)@ == inserted(old(self)@, name@, value),
            names_unique(final(self)@),
    {
        proof {
            use_type_invariant(&*self);
        }
        let ghost before = self@;
        let mut entries: Vec<(String, T)> = Vec::new();
        std::mem::swap(&mut entries, &mut self.entries);
        assert(entries@.map_values(|e: (String, T)| (e.0@, e.1)) == before);
        let mut i: usize = 0;
        while i < entries.len()
            invariant
                i <= entries@.len(),
                entries@.map_values(|e: (String, T)| (e.0@, e.1)) == before,
                names_unique(before),
                before == old(self)@,
                forall|k: int| 0 <= k < i ==> before[k].0 != name@,
            decreases entries@.len() - i,
        {
            if entries[i].0 == name {
                let ghost old_entries = entries@;
                entries.set(i, (name, value));
                proof {
                    assert(before[i as int].0 == name@);
                    assert(has_name(before, name@));
                    let after = entries@.map_values(|e: (String, T)| (e.0@, e.1));
                    let want = inserted(before, name@, value);
                    assert(after.len() == want.len());
                    assert forall|k: int| 0 <= k < after.len() implies after[k] == want[k] by {
                        if k != i {
                            assert(old_entries[k] == entries@[k]);
                            if k > i {
                                assert(before[i as int].0 != before[k].0);
                            }
                        }
                    }
                    assert(after =~= want);
                    assert(names_unique(after)) by {
                        assert forall|a: int, b: int| 0 <= a < b < after.len() implies #[trigger] after[a].0
                            != #[trigger] after[b].0 by {
                            assert(before[a].0 != before[b].0);
                        }
                    }
                }
                self.entries = entries;
                assert(self@ =~= inserted(before, name@, value));
                return;
            }
            i = i + 1;
        }
        proof {
            assert(!has_name(before, name@));
        }
        entries.push((name, value));
        assert(entries@.map_values(|e: (String, T)| (e.0@, e.1)) =~= before.push((name@, value)));
        self.entries = entries;
    }

    /// The value of the entry called `name`, if there is one.
    pub fn get(&self, name: &str) -> (r: Option<&T>)
        ensures
            match r {
                Some(v) => exists|i: int|
                    0 <= i < self@.len() && #[trigger] self@[i].0 == name@ && self@[i].1 == *v,
                None => !has_name(self@, name@),
            },
    {
        let wanted = String::from_str(name);
        let mut i: usize = 0;
        while i < self.entries.len()
            invariant
                i <= self@.len(),
                wanted@ == name@,
                forall|k: int| 0 <= k < i ==> self@[k].0 != name@,
            decreases self@.len() - i,
        {
            if self.entries[i].0 == wanted {
                assert(self@[i as int].0 == name@);
                return Some(&self.entries[i].1);
            }
            i = i + 1;
        }
        None
    }
}

} // verus!
