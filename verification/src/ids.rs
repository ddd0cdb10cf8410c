use vstd::prelude::*;

verus! {

/// An identifier for types.
#[derive(Clone, Copy, Debug, PartialEq, Eq, Hash, Structural)]
pub struct TypeId {
    /// Position of the type in the type arena.
    pub index: usize,
}

/// An identifier for functions.
#[derive(Clone, Copy, Debug, PartialEq, Eq, Hash, Structural)]
pub struct FunctionId {
    /// Position of the function in the function arena.
    pub index: usize,
}

/// An identifier for locals.
#[derive(Clone, Copy, Debug, PartialEq, Eq, Hash, Structural)]
pub struct LocalId {
    /// Position of the local in the local arena.
    pub index: usize,
}

/// An identifier for instruction sequences inside one function.
#[derive(Clone, Copy, Debug, PartialEq, Eq, Hash, Structural)]
pub struct InstrSeqId {
    /// Position of the sequence in the owning builder or function.
    pub index: usize,
}

/// An identifier for tables.
#[derive(Clone, Copy, Debug, PartialEq, Eq, Hash, Structural)]
pub struct TableId {
    /// Position of the table in the table list.
    pub index: usize,
}

/// An identifier for globals.
#[derive(Clone, Copy, Debug, PartialEq, Eq, Hash, Structural)]
pub struct GlobalId {
    /// Position of the global in the global list.
    pub index: usize,
}

/// An identifier for exports.
#[derive(Clone, Copy, Debug, PartialEq, Eq, Hash, Structural)]
pub struct ExportId {
    /// Position of the export in the export list.
    pub index: usize,
}

} // verus!
