//! The module registry: which identifier byte names which module.
//!
//! The table is a `HashMap` of three entries. It sits behind a
//! `once_cell::sync::Lazy`, so it is built when it is first looked into and
//! is never changed afterwards.

use crate::commands::Module;
use once_cell::sync::Lazy;
use std::collections::HashMap;
use vstd::prelude::*;

verus! {

pub const BALLAST_ID: u8 = 0x0;

pub const PROP_ID: u8 = 0x1;

pub const LIGHT_ID: u8 = 0x2;

/// The module that an identifier byte names, if it names one.
pub open spec fn module_of(module_id: u8) -> Option<Module> {
    if module_id == BALLAST_ID {
        Some(Module::Ballast)
    } else if module_id == PROP_ID {
        Some(Module::Propulsion)
    } else if module_id == LIGHT_ID {
        Some(Module::Light)
    } else {
        None
    }
}

/// The registry as a map: exactly the identifiers that name a module, each
/// with its module.
pub open spec fn module_ids() -> Map<u8, Module> {
    Map::new(|id: u8| module_of(id) is Some, |id: u8| module_of(id)->Some_0)
}

/// Builds the registry table from its three entries.
pub fn module_table() -> (table: HashMap<u8, Module>)
    ensures
        table@ == module_ids(),
{
    let mut table: HashMap<u8, Module> = HashMap::new();
    table.insert(BALLAST_ID, Module::Ballast);
    table.insert(LIGHT_ID, Module::Light);
    table.insert(PROP_ID, Module::Propulsion);
    assert(table@ =~= module_ids());
    table
}

/// The registry table behind its lazily initialised cell.
///
/// The cell's type carries a function pointer, which Verus does not accept,
/// so the struct is opaque to the verifier. [`lazy_module_ids`] is the only
/// place that makes one, and it fixes [`module_table`] as the initialiser.
#[verifier::external_body]
struct ModuleIds {
    cell: Lazy<HashMap<u8, Module>>,
}

/// Calls `once_cell::sync::Lazy::new` with [`module_table`] as the
/// initialiser. The table is not built yet, and nothing is assumed of the
/// cell.
#[verifier::external_body]
fn lazy_module_ids() -> (ids: ModuleIds) {
    ModuleIds { cell: Lazy::new(module_table) }
}

/// Calls `once_cell::sync::Lazy::force`, which runs the initialiser unless it
/// has run already and hands out the value that it produced.
///
/// Assumed, not proved: the table handed out is one that a call of
/// [`module_table`] returned, which is what `call_ensures` says below. What
/// such a table holds then follows from the contract of [`module_table`],
/// which is proved. The initialiser does not panic and does not touch the
/// cell, so the call returns.
#[verifier::external_body]
fn force_module_ids(ids: &ModuleIds) -> (table: &HashMap<u8, Module>)
    ensures
        call_ensures(module_table, (), *table),
{
    Lazy::force(&ids.cell)
}

/// Looks a module identifier up in the registry.
pub fn lookup(module_id: u8) -> (found: Option<Module>)
    ensures
        found == module_of(module_id),
{
    let ids = lazy_module_ids();
    let table = force_module_ids(&ids);
    match table.get(&module_id) {
        Some(module) => Some(*module),
        None => None,
    }
}

} // verus!
