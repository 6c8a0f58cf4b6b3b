//! A plain table of environment-variable names and values. The process
//! environment itself is read outside the library; the registry receives its
//! snapshot through this type, whose view is a mathematical map from variable
//! name to value (a later entry for the same name overrides an earlier one).

use vstd::prelude::*;

verus! {

/// The map described by a sequence of (name, value) entries, later entries
/// overriding earlier ones.
pub open spec fn env_map_of(entries: Seq<(String, String)>) -> Map<Seq<char>, Seq<char>>
    decreases entries.len(),
{
    if entries.len() == 0 {
        Map::empty()
    } else {
        env_map_of(entries.drop_last()).insert(entries.last().0@, entries.last().1@)
    }
}

/// A snapshot of environment variables, handed to the library by its caller.
pub struct EnvVars {
    entries: Vec<(String, String)>,
}

impl View for EnvVars {
    type V = Map<Seq<char>, Seq<char>>;

    closed spec fn view(&self) -> Map<Seq<char>, Seq<char>> {
        env_map_of(self.entries@)
    }
}

impl EnvVars {
    /// An empty snapshot: no variable is set.
    pub fn new() -> (r: EnvVars)
        ensures
            r@ == Map::<Seq<char>, Seq<char>>::empty(),
    {
        EnvVars { entries: Vec::new() }
    }

    /// Records that variable `name` has value `value`, overriding any earlier
    /// entry for the same name.
    pub fn set(&mut self, name: String, value: String)
        ensures
            final(self)@ == old(self)@.insert(name@, value@),
    {
        let ghost old_entries = self.entries@;
        let ghost n = name@;
        let ghost v = value@;
        self.entries.push((name, value));
        proof {
            assert(self.entries@.drop_last() =~= old_entries);
        }
    }

    /// Looks a variable up; `None` exactly when the snapshot has no entry for
    /// this name.
    pub fn get<'a>(&'a self, name: &String) -> (r: Option<&'a String>)
        ensures
            match r {
                Some(value) => self@.contains_key(name@) && self@[name@] == value@,
                None => !self@.contains_key(name@),
            },
    {
        let mut i: usize = self.entries.len();
        proof {
            assert(self.entries@.take(i as int) =~= self.entries@);
        }
        while i > 0
            invariant
                i <= self.entries@.len(),
                self@.contains_key(name@) == env_map_of(self.entries@.take(i as int)).contains_key(
                    name@,
                ),
                self@.contains_key(name@) ==> self@[name@] == env_map_of(
                    self.entries@.take(i as int),
                )[name@],
            decreases i,
        {
            let j = i - 1;
            proof {
                assert(self.entries@.take(i as int).drop_last() =~= self.entries@.take(j as int));
                assert(self.entries@.take(i as int).last() == self.entries@[j as int]);
            }
            if self.entries[j].0 == *name {
                return Some(&self.entries[j].1);
            }
            i = j;
        }
        proof {
            assert(self.entries@.take(0) =~= Seq::<(String, String)>::empty());
        }
        None
    }
}

} // verus!
