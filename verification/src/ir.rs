//! Structured instructions and instruction sequences.

use vstd::prelude::*;

use crate::ids::{GlobalId, InstrSeqId, LocalId, TableId};
use crate::ty::{HeapType, RefType, ValType};

verus! {

/// Binary numeric operators of the subset this library models.
#[derive(Clone, Copy, Debug, PartialEq, Eq, Structural)]
pub enum BinaryOp {
    /// 32-bit integer addition.
    I32Add,
    /// 32-bit unsigned less-than.
    I32LtU,
}

/// One structured operation. Control constructs reference the sequence that
/// forms their body by id; branches name their target sequence by id, never
/// by a relative nesting depth — depth is computed at encode time.
#[derive(Clone, Copy, Debug, PartialEq, Eq, Structural)]
pub enum Instr {
    /// A block whose body is the referenced sequence.
    Block { seq: InstrSeqId },
    /// A loop whose body is the referenced sequence.
    Loop { seq: InstrSeqId },
    /// An unconditional branch to the enclosing sequence with the given id.
    Br { seq: InstrSeqId },
    /// A conditional branch to the enclosing sequence with the given id.
    BrIf { seq: InstrSeqId },
    /// Reads a local.
    LocalGet { local: LocalId },
    /// Writes a local.
    LocalSet { local: LocalId },
    /// Reads a global.
    GlobalGet { global: GlobalId },
    /// Writes a global.
    GlobalSet { global: GlobalId },
    /// Reads a table element.
    TableGet { table: TableId },
    /// Writes a table element.
    TableSet { table: TableId },
    /// Pushes a 32-bit integer constant.
    I32Const { value: i32 },
    /// Applies a binary numeric operator.
    Binop { op: BinaryOp },
    /// Drops the top of the stack.
    Drop,
    /// Returns from the function.
    Return,
    /// Pushes a null reference of the given type.
    RefNull { ty: RefType },
    /// Wraps a 32-bit integer into an `i31` reference.
    RefI31,
    /// Extracts the signed integer from an `i31` reference.
    I31GetS,
    /// Extracts the unsigned integer from an `i31` reference.
    I31GetU,
    /// Tests whether a reference matches the destination type; pushes an
    /// i32 answer.
    RefTest { nullable: bool, heap: HeapType },
    /// Casts a reference to the destination type, trapping on failure.
    RefCast { nullable: bool, heap: HeapType },
    /// Branches to `seq` carrying the value narrowed to the destination type
    /// when the runtime check succeeds; falls through carrying the original
    /// value otherwise.
    BrOnCast {
        seq: InstrSeqId,
        from_nullable: bool,
        from_heap: HeapType,
        to_nullable: bool,
        to_heap: HeapType,
    },
    /// The complement: falls through carrying the narrowed value on success;
    /// branches to `seq` carrying the original value on failure.
    BrOnCastFail {
        seq: InstrSeqId,
        from_nullable: bool,
        from_heap: HeapType,
        to_nullable: bool,
        to_heap: HeapType,
    },
    /// Converts an external reference to an internal one.
    AnyConvertExtern,
    /// Converts an internal reference to an external one.
    ExternConvertAny,
}

impl Instr {
    /// The reference type a successful cast or test narrows to: exactly the
    /// destination nullability over the destination heap type.
    pub open spec fn spec_cast_result(self) -> Option<RefType> {
        match self {
            Instr::RefTest { nullable, heap } => Some(RefType { nullable, heap_type: heap }),
            Instr::RefCast { nullable, heap } => Some(RefType { nullable, heap_type: heap }),
            Instr::BrOnCast { to_nullable, to_heap, .. } => Some(
                RefType { nullable: to_nullable, heap_type: to_heap },
            ),
            Instr::BrOnCastFail { to_nullable, to_heap, .. } => Some(
                RefType { nullable: to_nullable, heap_type: to_heap },
            ),
            _ => None,
        }
    }

    /// The static type carried to the branch target: the narrowed
    /// destination type for a successful match, the original source type for
    /// a failed one.
    pub open spec fn spec_branch_carried(self) -> Option<RefType> {
        match self {
            Instr::BrOnCast { to_nullable, to_heap, .. } => Some(
                RefType { nullable: to_nullable, heap_type: to_heap },
            ),
            Instr::BrOnCastFail { from_nullable, from_heap, .. } => Some(
                RefType { nullable: from_nullable, heap_type: from_heap },
            ),
            _ => None,
        }
    }

    /// The static type carried past the instruction on fallthrough: the
    /// original source type when the successful match branched away, the
    /// narrowed destination type when the failure branched away.
    pub open spec fn spec_fallthrough_carried(self) -> Option<RefType> {
        match self {
            Instr::BrOnCast { from_nullable, from_heap, .. } => Some(
                RefType { nullable: from_nullable, heap_type: from_heap },
            ),
            Instr::BrOnCastFail { to_nullable, to_heap, .. } => Some(
                RefType { nullable: to_nullable, heap_type: to_heap },
            ),
            _ => None,
        }
    }

    /// The reference type a successful cast narrows to.
    pub fn cast_result(&self) -> (r: Option<RefType>)
        ensures
            r == self.spec_cast_result(),
    {
        match *self {
            Instr::RefTest { nullable, heap } => Some(RefType { nullable, heap_type: heap }),
            Instr::RefCast { nullable, heap } => Some(RefType { nullable, heap_type: heap }),
            Instr::BrOnCast { to_nullable, to_heap, .. } => Some(
                RefType { nullable: to_nullable, heap_type: to_heap },
            ),
            Instr::BrOnCastFail { to_nullable, to_heap, .. } => Some(
                RefType { nullable: to_nullable, heap_type: to_heap },
            ),
            _ => None,
        }
    }

    /// The static type carried to the branch target.
    pub fn branch_carried(&self) -> (r: Option<RefType>)
        ensures
            r == self.spec_branch_carried(),
    {
        match *self {
            Instr::BrOnCast { to_nullable, to_heap, .. } => Some(
                RefType { nullable: to_nullable, heap_type: to_heap },
            ),
            Instr::BrOnCastFail { from_nullable, from_heap, .. } => Some(
                RefType { nullable: from_nullable, heap_type: from_heap },
            ),
            _ => None,
        }
    }

    /// The static type carried past the instruction on fallthrough.
    pub fn fallthrough_carried(&self) -> (r: Option<RefType>)
        ensures
            r == self.spec_fallthrough_carried(),
    {
        match *self {
            Instr::BrOnCast { from_nullable, from_heap, .. } => Some(
                RefType { nullable: from_nullable, heap_type: from_heap },
            ),
            Instr::BrOnCastFail { to_nullable, to_heap, .. } => Some(
                RefType { nullable: to_nullable, heap_type: to_heap },
            ),
            _ => None,
        }
    }
}

/// Law: a cast or test to a non-nullable destination narrows to exactly the
/// non-nullable variant of the destination heap type — a type distinct from
/// the nullable default alias of the same heap type.
pub proof fn lemma_cast_result_typing(nullable: bool, heap: HeapType)
    ensures
        (Instr::RefCast { nullable, heap }).spec_cast_result() == Some(
            RefType { nullable, heap_type: heap },
        ),
        (Instr::RefTest { nullable, heap }).spec_cast_result() == Some(
            RefType { nullable, heap_type: heap },
        ),
        !nullable ==> (Instr::RefCast { nullable, heap }).spec_cast_result() != Some(
            RefType { nullable: true, heap_type: heap },
        ),
{
}

/// Law: branch-on-cast edge typing. A successful match branches away
/// carrying exactly the destination type and falls through carrying the
/// original source type; the failing variant is the complement. A
/// non-nullable destination yields a non-nullable carried type, never the
/// nullable alias of the same heap type.
pub proof fn lemma_br_on_cast_edge_typing(
    seq: InstrSeqId,
    from_nullable: bool,
    from_heap: HeapType,
    to_nullable: bool,
    to_heap: HeapType,
)
    ensures
        (Instr::BrOnCast {
            seq,
            from_nullable,
            from_heap,
            to_nullable,
            to_heap,
        }).spec_branch_carried() == Some(RefType { nullable: to_nullable, heap_type: to_heap }),
        (Instr::BrOnCast {
            seq,
            from_nullable,
            from_heap,
            to_nullable,
            to_heap,
        }).spec_fallthrough_carried() == Some(
            RefType { nullable: from_nullable, heap_type: from_heap },
        ),
        (Instr::BrOnCastFail {
            seq,
            from_nullable,
            from_heap,
            to_nullable,
            to_heap,
        }).spec_branch_carried() == Some(
            RefType { nullable: from_nullable, heap_type: from_heap },
        ),
        (Instr::BrOnCastFail {
            seq,
            from_nullable,
            from_heap,
            to_nullable,
            to_heap,
        }).spec_fallthrough_carried() == Some(
            RefType { nullable: to_nullable, heap_type: to_heap },
        ),
        !to_nullable ==> (Instr::BrOnCast {
            seq,
            from_nullable,
            from_heap,
            to_nullable,
            to_heap,
        }).spec_branch_carried() != Some(RefType { nullable: true, heap_type: to_heap }),
{
}

/// The structural content of an instruction sequence.
pub struct InstrSeqV {
    /// The operations, in order.
    pub instrs: Seq<Instr>,
    /// The declared static result types of the sequence.
    pub results: Seq<ValType>,
}

/// An ordered list of structured operations with a stable id and a declared
/// static result signature.
#[derive(Debug, Clone)]
pub struct InstrSeq {
    /// The operations, in order.
    pub instrs: Vec<Instr>,
    /// The declared static result types of the sequence.
    pub results: Vec<ValType>,
}

impl View for InstrSeq {
    type V = InstrSeqV;

    open spec fn view(&self) -> InstrSeqV {
        InstrSeqV { instrs: self.instrs@, results: self.results@ }
    }
}

} // verus!
