//! The complete decoded or constructed unit: all entity stores together.

use vstd::prelude::*;

use crate::function::ModuleFunctions;
use crate::ids::{ExportId, FunctionId, GlobalId, TableId};
use crate::interner::ModuleTypes;
use crate::locals::ModuleLocals;
use crate::ty::{RefType, ValType};

verus! {

/// A constant value usable in a global initializer.
#[derive(Clone, Copy, Debug, PartialEq, Eq, Structural)]
pub enum Value {
    /// A 32-bit integer.
    I32(i32),
    /// A 64-bit integer.
    I64(i64),
}

/// A constant initializer expression.
#[derive(Clone, Copy, Debug, PartialEq, Eq, Structural)]
pub enum ConstExpr {
    /// A constant value.
    Value(Value),
    /// A null reference of the given type.
    RefNull(RefType),
}

/// A table: limits and element type.
#[derive(Clone, Copy, Debug)]
pub struct Table {
    /// Whether the table is indexed by 64-bit addresses.
    pub table64: bool,
    /// The initial number of elements.
    pub initial: u64,
    /// The optional maximum number of elements.
    pub maximum: Option<u64>,
    /// The type of the elements.
    pub element_ty: RefType,
}

/// The tables of a module.
pub struct ModuleTables {
    /// The tables, in index order.
    pub tables: Vec<Table>,
}

impl ModuleTables {
    /// An empty store.
    pub fn new() -> (r: ModuleTables)
        ensures
            r.tables@ == Seq::<Table>::empty(),
    {
        let r = ModuleTables { tables: Vec::new() };
        proof {
            assert(r.tables@ =~= Seq::<Table>::empty());
        }
        r
    }

    /// Adds a locally defined table and returns its id.
    pub fn add_local(
        &mut self,
        table64: bool,
        initial: u64,
        maximum: Option<u64>,
        element_ty: RefType,
    ) -> (id: TableId)
        ensures
            id.index == old(self).tables@.len(),
            final(self).tables@ == old(self).tables@.push(
                Table { table64, initial, maximum, element_ty },
            ),
    {
        let id = TableId { index: self.tables.len() };
        self.tables.push(Table { table64, initial, maximum, element_ty });
        id
    }
}

/// A global: its type, mutability, and constant initializer.
#[derive(Clone, Copy, Debug)]
pub struct Global {
    /// The type of the global's value.
    pub ty: ValType,
    /// Whether the global may be written.
    pub mutable: bool,
    /// Whether the global is shared.
    pub shared: bool,
    /// The constant initializer.
    pub init: ConstExpr,
}

/// The globals of a module.
pub struct ModuleGlobals {
    /// The globals, in index order.
    pub globals: Vec<Global>,
}

impl ModuleGlobals {
    /// An empty store.
    pub fn new() -> (r: ModuleGlobals)
        ensures
            r.globals@ == Seq::<Global>::empty(),
    {
        let r = ModuleGlobals { globals: Vec::new() };
        proof {
            assert(r.globals@ =~= Seq::<Global>::empty());
        }
        r
    }

    /// Adds a locally defined global and returns its id.
    pub fn add_local(&mut self, ty: ValType, mutable: bool, shared: bool, init: ConstExpr) -> (id:
        GlobalId)
        ensures
            id.index == old(self).globals@.len(),
            final(self).globals@ == old(self).globals@.push(Global { ty, mutable, shared, init }),
    {
        let id = GlobalId { index: self.globals.len() };
        self.globals.push(Global { ty, mutable, shared, init });
        id
    }
}

/// One exported function under an external name.
#[derive(Debug)]
pub struct Export {
    /// The name the entity is exported under.
    pub name: String,
    /// The exported function.
    pub item: FunctionId,
}

/// The export table: names mapped to entity ids.
pub struct ModuleExports {
    /// The exports, in index order.
    pub exports: Vec<Export>,
}

impl ModuleExports {
    /// An empty store.
    pub fn new() -> (r: ModuleExports)
        ensures
            r.exports@ == Seq::<Export>::empty(),
    {
        let r = ModuleExports { exports: Vec::new() };
        proof {
            assert(r.exports@ =~= Seq::<Export>::empty());
        }
        r
    }

    /// Adds an export of a function under the given name and returns its id.
    pub fn add(&mut self, name: &str, item: FunctionId) -> (id: ExportId)
        ensures
            id.index == old(self).exports@.len(),
            final(self).exports@.len() == old(self).exports@.len() + 1,
            forall|i: int|
                0 <= i < old(self).exports@.len() ==> final(self).exports@[i] == old(
                    self,
                ).exports@[i],
            final(self).exports@.last().name@ == name@,
            final(self).exports@.last().item == item,
    {
        let id = ExportId { index: self.exports.len() };
        self.exports.push(Export { name: name.to_owned(), item });
        id
    }
}

/// Configuration of non-semantic output. It never changes program behavior;
/// this library emits no provenance metadata either way, so the flag is kept
/// only to be honored by front ends that do.
#[derive(Clone, Copy, Debug)]
pub struct ModuleConfig {
    /// Whether provenance metadata may be emitted at all.
    pub producers_enabled: bool,
}

impl ModuleConfig {
    /// The default configuration.
    pub fn new() -> (r: ModuleConfig)
        ensures
            r.producers_enabled,
    {
        ModuleConfig { producers_enabled: true }
    }

    /// Sets whether provenance metadata may be emitted.
    pub fn generate_producers_section(&mut self, enabled: bool)
        ensures
            final(self).producers_enabled == enabled,
    {
        self.producers_enabled = enabled;
    }
}

/// The complete unit, holding all entity stores.
pub struct Module {
    /// Configuration of non-semantic output.
    pub config: ModuleConfig,
    /// The deduplicated function signatures.
    pub types: ModuleTypes,
    /// The functions.
    pub funcs: ModuleFunctions,
    /// The locals.
    pub locals: ModuleLocals,
    /// The tables.
    pub tables: ModuleTables,
    /// The globals.
    pub globals: ModuleGlobals,
    /// The exports.
    pub exports: ModuleExports,
}

impl Module {
    /// The stores of a well-formed module are each well-formed.
    pub open spec fn wf(&self) -> bool {
        &&& self.types.wf()
        &&& self.funcs.wf()
        &&& self.locals.wf()
    }

    /// An empty module under the given configuration.
    pub fn with_config(config: ModuleConfig) -> (r: Module)
        ensures
            r.wf(),
            r.config == config,
            r.types.entries().len() == 0,
            r.funcs.entries().len() == 0,
            r.locals.entries().len() == 0,
            r.tables.tables@.len() == 0,
            r.globals.globals@.len() == 0,
            r.exports.exports@.len() == 0,
    {
        Module {
            config,
            types: ModuleTypes::new(),
            funcs: ModuleFunctions::new(),
            locals: ModuleLocals::new(),
            tables: ModuleTables::new(),
            globals: ModuleGlobals::new(),
            exports: ModuleExports::new(),
        }
    }
}

} // verus!
