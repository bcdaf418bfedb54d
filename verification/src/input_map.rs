//! The binding table: which action a key, with its modifiers, asks for in
//! each key table, and which key is the leader.

use crate::keycode::key_codes_equal;
use crate::keycode::same_key;
use crate::modifiers::Modifiers;
use vstd::prelude::*;
use wezterm_input_types::KeyCode;

verus! {

/// What a binding asks for.
#[derive(Clone, Copy, Debug, PartialEq, Eq, Structural, Hash)]
pub enum KeyAssignment {
    /// Nothing: the key is taken and nothing happens.
    Nop,
    /// An action of the host, by the number under which the host knows it.
    Action(u64),
}

/// One entry of a key table.
#[derive(Clone, Copy, Debug, PartialEq, Eq, Structural, Hash)]
pub struct KeyTableEntry {
    pub action: KeyAssignment,
}

/// One binding: in `table` (the default table where it is `None`), `key`
/// with exactly the modifiers `mods` asks for `entry`.
#[derive(Clone, Debug)]
pub struct KeyBinding {
    pub table: Option<String>,
    pub key: KeyCode,
    pub mods: Modifiers,
    pub entry: KeyTableEntry,
}

/// The key that starts the leader, and how long the leader then lasts.
#[derive(Clone, Debug)]
pub struct LeaderBinding {
    pub key: KeyCode,
    pub mods: Modifiers,
    pub timeout_milliseconds: u64,
}

/// The bindings of all key tables, in the order in which they are tried.
#[derive(Clone, Debug)]
pub struct InputMap {
    pub bindings: Vec<KeyBinding>,
    pub leader: Option<LeaderBinding>,
}

/// Calls the `==` of `str`: true where both hold the same characters.
#[verifier::external_body]
fn same_text(a: &str, b: &str) -> (r: bool)
    ensures
        r == (a@ == b@),
{
    a == b
}

/// The name of a table as its characters; `None` is the default table.
pub open spec fn table_of(name: Option<&str>) -> Option<Seq<char>> {
    match name {
        Some(s) => Some(s@),
        None => None,
    }
}

impl KeyBinding {
    /// Is this a binding of `key` with `mods` in `table`?
    pub open spec fn binds(&self, key: KeyCode, mods: Modifiers, table: Option<Seq<char>>) -> bool {
        &&& same_key(self.key, key)
        &&& self.mods == mods
        &&& match (self.table, table) {
            (Some(mine), Some(asked)) => mine@ == asked,
            (None, None) => true,
            _ => false,
        }
    }

    fn is_for(&self, key: &KeyCode, mods: Modifiers, table_name: Option<&str>) -> (r: bool)
        ensures
            r == self.binds(*key, mods, table_of(table_name)),
    {
        let same_table = match (&self.table, table_name) {
            (Some(mine), Some(asked)) => same_text(mine.as_str(), asked),
            (None, None) => true,
            _ => false,
        };
        same_table && self.mods.bits == mods.bits && key_codes_equal(&self.key, key)
    }
}

impl InputMap {
    /// A map without bindings and without a leader.
    pub fn new() -> (map: InputMap)
        ensures
            map.bindings@.len() == 0,
            map.leader is None,
    {
        InputMap { bindings: Vec::new(), leader: None }
    }

    /// The entry of the first binding at or after `from` that binds `key`
    /// with `mods` in `table`.
    pub open spec fn binding_from(
        &self,
        key: KeyCode,
        mods: Modifiers,
        table: Option<Seq<char>>,
        from: int,
    ) -> Option<KeyTableEntry>
        decreases self.bindings@.len() - from,
    {
        if from < 0 || from >= self.bindings@.len() {
            None
        } else if self.bindings@[from].binds(key, mods, table) {
            Some(self.bindings@[from].entry)
        } else {
            self.binding_from(key, mods, table, from + 1)
        }
    }

    /// What `key` with `mods` asks for in `table`: the entry of the first
    /// binding for them, `None` where there is none.
    pub open spec fn binding(&self, key: KeyCode, mods: Modifiers, table: Option<Seq<char>>) -> Option<
        KeyTableEntry,
    > {
        self.binding_from(key, mods, table, 0)
    }

    /// How long the leader lasts where `key` with `mods` starts it.
    pub open spec fn leader_timeout(&self, key: KeyCode, mods: Modifiers) -> Option<u64> {
        match self.leader {
            Some(leader) => if same_key(leader.key, key) && leader.mods == mods {
                Some(leader.timeout_milliseconds)
            } else {
                None
            },
            None => None,
        }
    }

    /// What `key` with `mods` asks for in the table `table_name`, or in the
    /// default table where that is `None`.
    pub fn lookup_key(&self, key: &KeyCode, mods: Modifiers, table_name: Option<&str>) -> (r: Option<
        KeyTableEntry,
    >)
        ensures
            r == self.binding(*key, mods, table_of(table_name)),
    {
        let mut i: usize = 0;
        while i < self.bindings.len()
            invariant
                i <= self.bindings@.len(),
                self.binding(*key, mods, table_of(table_name)) == self.binding_from(
                    *key,
                    mods,
                    table_of(table_name),
                    i as int,
                ),
            decreases self.bindings@.len() - i,
        {
            if self.bindings[i].is_for(key, mods, table_name) {
                return Some(self.bindings[i].entry);
            }
            i += 1;
        }
        None
    }

    /// The leader's timeout where `key` with `mods` is the leader key.
    pub fn is_leader(&self, key: &KeyCode, mods: Modifiers) -> (r: Option<u64>)
        ensures
            r == self.leader_timeout(*key, mods),
    {
        match &self.leader {
            Some(leader) => {
                if leader.mods.bits == mods.bits && key_codes_equal(&leader.key, key) {
                    Some(leader.timeout_milliseconds)
                } else {
                    None
                }
            },
            None => None,
        }
    }
}

} // verus!
