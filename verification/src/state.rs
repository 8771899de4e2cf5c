use crate::str_map::StrMap;
use vstd::prelude::*;

pub mod doc_sync_state;

verus! {

#[verifier::external_type_specification]
#[verifier::external_body]
pub struct ExJsonValue(serde_json::Value);

/// Copies a JSON value with `serde_json::Value::clone`, which the crate
/// derives: the copy has the same variant and the same contents as the
/// value copied. The contract says that the two are equal.
#[verifier::external_body]
fn copy_value(value: &serde_json::Value) -> (copy: serde_json::Value)
    ensures
        copy == *value,
{
    value.clone()
}

/// Keeps JSON values by key, in memory.
#[derive(Debug)]
pub struct StateManager {
    state: StrMap<serde_json::Value>,
}

impl StateManager {
    /// What is kept: each key with its value.
    pub closed spec fn entries(&self) -> Map<Seq<char>, serde_json::Value> {
        self.state@
    }

    /// A manager that keeps nothing.
    pub fn new() -> (manager: Self)
        ensures
            manager.entries() == Map::<Seq<char>, serde_json::Value>::empty(),
    {
        StateManager { state: StrMap::new() }
    }

    /// A copy of the value kept under `key`.
    pub fn get(&self, key: &str) -> (value: Option<serde_json::Value>)
        ensures
            match value {
                Some(v) => self.entries().contains_key(key@) && v == self.entries()[key@],
                None => !self.entries().contains_key(key@),
            },
    {
        match self.state.get(key) {
            Some(v) => Some(copy_value(v)),
            None => None,
        }
    }

    /// Keeps `value` under `key`, in place of what was kept there.
    pub fn set(&mut self, key: &str, value: serde_json::Value)
        ensures
            final(self).entries() == old(self).entries().insert(key@, value),
    {
        self.state.insert(String::from_str(key), value);
    }

    /// Takes out and hands back what is kept under `key`.
    pub fn remove(&mut self, key: &str) -> (value: Option<serde_json::Value>)
        ensures
            final(self).entries() == old(self).entries().remove(key@),
            match value {
                Some(v) => old(self).entries().contains_key(key@) && v == old(self).entries()[key@],
                None => !old(self).entries().contains_key(key@),
            },
    {
        self.state.remove(key)
    }

    /// Takes out everything.
    pub fn clear(&mut self)
        ensures
            final(self).entries() == Map::<Seq<char>, serde_json::Value>::empty(),
    {
        self.state.clear();
    }
}

impl Default for StateManager {
    fn default() -> (manager: Self)
        ensures
            manager.entries() == Map::<Seq<char>, serde_json::Value>::empty(),
    {
        StateManager::new()
    }
}

} // verus!
