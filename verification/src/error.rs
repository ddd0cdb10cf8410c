use vstd::prelude::*;

verus! {

/// A construct of the binary format that this library recognizes but has no
/// internal representation for. Decoding one is always reported, never
/// silently coerced to a supported construct.
#[derive(Clone, Copy, Debug, PartialEq, Eq, Structural)]
pub enum Unsupported {
    /// A concrete (indexed) heap type.
    ConcreteHeapType,
    /// An exact-reference heap type.
    ExactHeapType,
    /// A continuation (stack-switching) type.
    ContinuationType,
    /// A block type given as a type-section index.
    BlockTypeIndex,
    /// A composite or recursive type-section form (struct, array, rec).
    CompositeType,
    /// An export of anything but a function.
    ExportKind,
    /// A section this library does not model.
    Section,
    /// An instruction this library does not model.
    Opcode,
}

/// Every failure of the library is one of these explicit outcomes.
#[derive(Clone, Copy, Debug, PartialEq, Eq, Structural)]
pub enum Error {
    /// Decoding met a construct with no internal representation.
    UnsupportedFeature(Unsupported),
    /// Bytes failed schema-level parsing; carries the offset of the failure.
    MalformedInput { offset: usize },
    /// A programmatic-construction invariant was violated.
    BuilderMisuse,
    /// A representable but not yet encodable internal state reached the
    /// encoder.
    Unimplemented,
}

} // verus!
