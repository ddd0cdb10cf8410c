pub mod arena;
pub mod builder;
pub mod codec;
mod convert;
pub mod decode;
pub mod encode;
pub mod error;
pub mod function;
pub mod ids;
pub mod ir;
pub mod interner;
pub mod locals;
pub mod module;
pub mod ty;

pub use crate::arena::{Tombstone, TombstoneArena};
pub use crate::builder::{BuilderV, FunctionBuilder};
pub use crate::error::{Error, Unsupported};
pub use crate::function::{Function, FunctionV, ModuleFunctions};
pub use crate::interner::ModuleTypes;
pub use crate::ir::{BinaryOp, Instr, InstrSeq, InstrSeqV};
pub use crate::locals::{Local, ModuleLocals};
pub use crate::module::{ConstExpr, Export, Global, Module, ModuleConfig, ModuleExports, ModuleGlobals, ModuleTables, Table, Value};
pub use crate::ids::{ExportId, FunctionId, GlobalId, InstrSeqId, LocalId, TableId, TypeId};
pub use crate::ty::{AbstractHeapType, HeapType, RefType, Type, TypeKey, ValType};
