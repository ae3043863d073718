//! A read-only snapshot of the process environment, handed to the library by
//! its caller so that credential resolution is a pure function of its inputs.

use vstd::prelude::*;

use crate::strings::opt_view;

verus! {

/// One environment variable.
pub struct EnvEntry {
    pub name: String,
    pub value: String,
}

/// An ordered snapshot of environment variables; the first entry with a
/// matching name wins.
pub struct EnvMap {
    pub entries: Vec<EnvEntry>,
}

/// The value of the first entry named `name`, or `None`.
pub open spec fn env_lookup(entries: Seq<EnvEntry>, name: Seq<char>) -> Option<Seq<char>>
    decreases entries.len(),
{
    if entries.len() == 0 {
        None
    } else if entries[0].name@ == name {
        Some(entries[0].value@)
    } else {
        env_lookup(entries.drop_first(), name)
    }
}

impl EnvMap {
    /// The value bound to `name` in this snapshot, if any.
    pub open spec fn lookup(&self, name: Seq<char>) -> Option<Seq<char>> {
        env_lookup(self.entries@, name)
    }

    /// An empty snapshot.
    pub fn new() -> (r: Self)
        ensures
            r.entries@.len() == 0,
    {
        EnvMap { entries: Vec::new() }
    }

    /// Appends one variable to the snapshot.
    pub fn define(&mut self, name: String, value: String)
        ensures
            final(self).entries@ == old(self).entries@.push((EnvEntry { name, value })),
    {
        self.entries.push(EnvEntry { name, value });
    }

    /// Looks `name` up in the snapshot.
    pub fn get(&self, name: &String) -> (r: Option<String>)
        ensures
            opt_view(r) == self.lookup(name@),
    {
        let mut i: usize = 0;
        proof {
            assert(self.entries@.skip(0) =~= self.entries@);
        }
        while i < self.entries.len()
            invariant
                i <= self.entries@.len(),
                env_lookup(self.entries@, name@) == env_lookup(
                    self.entries@.skip(i as int),
                    name@,
                ),
            decreases self.entries@.len() - i,
        {
            proof {
                assert(self.entries@.skip(i as int)[0] == self.entries@[i as int]);
                assert(self.entries@.skip(i as int).drop_first() =~= self.entries@.skip(
                    i as int + 1,
                ));
            }
            if self.entries[i].name == *name {
                return Some(self.entries[i].value.clone());
            }
            i = i + 1;
        }
        None
    }

    /// A field-for-field copy of the snapshot.
    pub fn duplicate(&self) -> (r: Self)
        ensures
            r.entries@ == self.entries@,
    {
        let mut entries: Vec<EnvEntry> = Vec::new();
        let mut i: usize = 0;
        while i < self.entries.len()
            invariant
                i <= self.entries@.len(),
                entries@ == self.entries@.take(i as int),
            decreases self.entries@.len() - i,
        {
            entries.push(
                EnvEntry {
                    name: self.entries[i].name.clone(),
                    value: self.entries[i].value.clone(),
                },
            );
            proof {
                assert(self.entries@.take(i as int + 1) =~= self.entries@.take(i as int).push(
                    self.entries@[i as int],
                ));
            }
            i = i + 1;
        }
        proof {
            assert(self.entries@.take(self.entries@.len() as int) =~= self.entries@);
        }
        EnvMap { entries }
    }
}

} // verus!
