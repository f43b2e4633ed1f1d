use vstd::prelude::*;

use crate::term::Type;

verus! {

/// A spec-level account of an association list: later entries shadow earlier
/// ones, exactly as repeated `insert` calls build a map.
pub open spec fn map_of(entries: Seq<(String, Type)>) -> Map<Seq<char>, Type>
    decreases entries.len(),
{
    if entries.len() == 0 {
        Map::empty()
    } else {
        map_of(entries.drop_last()).insert(entries.last().0@, entries.last().1)
    }
}

/// Looking a key up in an association list, newest entry first.
pub open spec fn entry_lookup(entries: Seq<(String, Type)>, key: Seq<char>) -> Option<Type>
    decreases entries.len(),
{
    if entries.len() == 0 {
        None
    } else if entries.last().0@ == key {
        Some(entries.last().1)
    } else {
        entry_lookup(entries.drop_last(), key)
    }
}

/// `entry_lookup` computes exactly the map that `map_of` builds.
proof fn lemma_entry_lookup_is_map_of(entries: Seq<(String, Type)>, key: Seq<char>)
    ensures
        map_of(entries).contains_key(key) <==> entry_lookup(entries, key) is Some,
        map_of(entries).contains_key(key) ==> entry_lookup(entries, key) == Some(
            map_of(entries)[key],
        ),
    decreases entries.len(),
{
    if entries.len() > 0 && entries.last().0@ != key {
        lemma_entry_lookup_is_map_of(entries.drop_last(), key);
    }
}

/// The typing environment: a mapping from identifier name to `Type`.
/// Extension builds a fresh value, so a child scope never disturbs the
/// environment a sibling scope sees. Viewed as a `Map<Seq<char>, Type>`.
pub struct Bindings {
    entries: Vec<(String, Type)>,
}

impl View for Bindings {
    type V = Map<Seq<char>, Type>;

    closed spec fn view(&self) -> Map<Seq<char>, Type> {
        map_of(self.entries@)
    }
}

impl Bindings {
    /// The empty environment.
    pub fn new() -> (result: Bindings)
        ensures
            result@ == Map::<Seq<char>, Type>::empty(),
    {
        Bindings { entries: Vec::new() }
    }

    /// Binds `name` to `ty`, shadowing any earlier binding of the same name.
    pub fn insert(&mut self, name: String, ty: Type)
        ensures
            final(self)@ == old(self)@.insert(name@, ty),
    {
        let ghost before = self.entries@;
        self.entries.push((name, ty));
        proof {
            assert(self.entries@.drop_last() =~= before);
        }
    }

    /// The bound type of `name`, or `None` where no binding exists.
    pub fn lookup(&self, name: &String) -> (result: Option<&Type>)
        ensures
            match result {
                Some(ty) => self@.contains_key(name@) && *ty == self@[name@],
                None => !self@.contains_key(name@),
            },
    {
        proof {
            lemma_entry_lookup_is_map_of(self.entries@, name@);
            assert(self.entries@.take(self.entries@.len() as int) =~= self.entries@);
        }
        let mut i: usize = self.entries.len();
        while i > 0
            invariant
                i <= self.entries.len(),
                entry_lookup(self.entries@, name@) == entry_lookup(
                    self.entries@.take(i as int),
                    name@,
                ),
            decreases i,
        {
            i = i - 1;
            if self.entries[i].0 == *name {
                proof {
                    lemma_entry_lookup_is_map_of(self.entries@, name@);
                    let matched = self.entries@.take(i + 1);
                    assert(matched.last() == self.entries@[i as int]);
                    assert(entry_lookup(matched, name@) == Some(self.entries@[i as int].1));
                }
                return Some(&self.entries[i].1);
            }
            proof {
                assert(self.entries@.take(i + 1).drop_last() =~= self.entries@.take(i as int));
            }
        }
        proof {
            assert(self.entries@.take(0) =~= Seq::<(String, Type)>::empty());
        }
        None
    }

    /// A fresh environment equal to this one extended with `name` bound to
    /// `ty`; this environment itself is untouched.
    pub fn extended(&self, name: &String, ty: &Type) -> (result: Bindings)
        ensures
            result@ == self@.insert(name@, *ty),
    {
        let mut entries: Vec<(String, Type)> = Vec::new();
        let mut i: usize = 0;
        while i < self.entries.len()
            invariant
                i <= self.entries.len(),
                entries@ =~= self.entries@.take(i as int),
            decreases self.entries.len() - i,
        {
            let entry = (self.entries[i].0.clone(), self.entries[i].1.clone());
            entries.push(entry);
            i = i + 1;
        }
        proof {
            assert(entries@ =~= self.entries@);
        }
        entries.push((name.clone(), ty.clone()));
        proof {
            assert(entries@.drop_last() =~= self.entries@);
        }
        Bindings { entries }
    }
}

} // verus!
