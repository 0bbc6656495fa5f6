use crate::entries::distinct_keys;
use crate::entries::inserted;
use crate::entries::lemma_absent;
use crate::entries::lemma_distinct_inserted;
use crate::entries::lemma_first_index_unique;
use crate::entries::lookup;
use super::clone_entries;
use super::clone_value;
use super::entries_view;
use super::find_entry;
use super::RuntimeValue;
use super::Value;
use super::ValueType;
use super::ValueView;
use vstd::prelude::*;
use vstd::std_specs::convert::FromSpecImpl;

verus! {

pub type Key = String;

/// A mapping from property names to values. Its model is the list of its
/// entries; a name is looked up at its first entry.
///
/// The entries are kept as a list, in the order in which their names were
/// first bound: what is written out of an object then depends on the object
/// alone, and every lookup and every change is stated and proved over the
/// list.
#[derive(Debug)]
pub struct ObjectValue {
    pub map: Vec<(Key, Value)>,
}

impl View for ObjectValue {
    type V = Seq<(Seq<char>, ValueView)>;

    open spec fn view(&self) -> Seq<(Seq<char>, ValueView)> {
        entries_view(self.map)
    }
}

impl RuntimeValue for ObjectValue {
    open spec fn kind_spec(&self) -> ValueType {
        ValueType::Object
    }

    fn kind(&self) -> ValueType {
        ValueType::Object
    }
}

impl From<Vec<(Key, Value)>> for ObjectValue {
    fn from(map: Vec<(Key, Value)>) -> (r: Self) {
        ObjectValue { map }
    }
}

impl FromSpecImpl<Vec<(Key, Value)>> for ObjectValue {
    open spec fn obeys_from_spec() -> bool {
        true
    }

    open spec fn from_spec(map: Vec<(Key, Value)>) -> Self {
        ObjectValue { map }
    }
}

impl Clone for ObjectValue {
    fn clone(&self) -> (r: Self)
        ensures
            r@ == self@,
    {
        ObjectValue { map: clone_entries(&self.map) }
    }
}

impl ObjectValue {
    /// No property name occurs twice.
    pub open spec fn wf(&self) -> bool {
        distinct_keys(self@)
    }

    /// A copy of the entries.
    pub fn map(&self) -> (r: Vec<(Key, Value)>)
        ensures
            entries_view(r) == self@,
    {
        clone_entries(&self.map)
    }

    /// A copy of the value under `key`, if the object has that property.
    pub fn get_property(&self, key: Key) -> (r: Option<Value>)
        ensures
            match r {
                Some(v) => lookup(self@, key@) == Some(v@),
                None => lookup(self@, key@) == None::<ValueView>,
            },
    {
        match find_entry(&self.map, &key) {
            Some(i) => {
                proof {
                    lemma_first_index_unique(self@, key@, i as int);
                }
                Some(clone_value(&self.map[i].1))
            },
            None => {
                proof {
                    lemma_absent(self@, key@);
                }
                None
            },
        }
    }

    /// Binds the property `key` to `value`: in place of the entry that the
    /// object has under that name, or as a new last entry where it has none.
    pub fn assign_property(&mut self, key: Key, value: Value)
        ensures
            final(self)@ == inserted(old(self)@, key@, value@),
            old(self).wf() ==> final(self).wf(),
    {
        proof {
            if self.wf() {
                lemma_distinct_inserted(self@, key@, value@);
            }
        }
        match find_entry(&self.map, &key) {
            Some(i) => {
                proof {
                    lemma_first_index_unique(self@, key@, i as int);
                }
                self.map[i] = (key, value);
            },
            None => {
                proof {
                    lemma_absent(self@, key@);
                }
                self.map.push((key, value));
            },
        }
        assert(self@ =~= inserted(old(self)@, key@, value@));
    }
}

} // verus!
