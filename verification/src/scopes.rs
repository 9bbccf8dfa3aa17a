//! What a contract defines, by name.

use crate::types::FixedSize;
use vstd::hash_map::StringHashMap;
use vstd::prelude::*;

verus! {

/// One named definition of a contract.
#[derive(Clone, Debug, PartialEq, Eq)]
pub enum ContractDef {
    /// A function: its parameter types in declaration order, and the type
    /// of its result if it has one.
    Function { params: Vec<FixedSize>, return_type: Option<FixedSize> },
    /// A variable kept in the contract's storage.
    Storage { typ: FixedSize },
    /// An event that the contract can emit.
    Event { fields: Vec<FixedSize> },
}

/// The definitions of one contract, keyed by name. The dispatcher only ever
/// reads it.
pub struct ContractDefs {
    defs: StringHashMap<ContractDef>,
}

impl View for ContractDefs {
    type V = Map<Seq<char>, ContractDef>;

    closed spec fn view(&self) -> Map<Seq<char>, ContractDef> {
        self.defs@
    }
}

impl ContractDefs {
    /// A table without definitions.
    pub fn new() -> (table: ContractDefs)
        ensures
            table@ == Map::<Seq<char>, ContractDef>::empty(),
    {
        ContractDefs { defs: StringHashMap::new() }
    }

    /// Defines `name`, replacing any earlier definition of it.
    pub fn insert(&mut self, name: String, def: ContractDef)
        ensures
            final(self)@ == old(self)@.insert(name@, def),
    {
        self.defs.insert(name, def);
    }

    /// Looks `name` up.
    pub fn get(&self, name: &str) -> (def: Option<&ContractDef>)
        ensures
            match def {
                Some(def) => self@.contains_key(name@) && *def == self@[name@],
                None => !self@.contains_key(name@),
            },
    {
        self.defs.get(name)
    }
}

} // verus!
