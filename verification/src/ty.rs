//! Function and value types of the module format.

use vstd::prelude::*;

use crate::ids::TypeId;

verus! {

/// Kinds of heap object an abstract garbage-collected reference may point to.
#[derive(Clone, Copy, Debug, PartialEq, Eq, Hash, Structural)]
pub enum AbstractHeapType {
    /// The abstract `func` heap type (any function).
    Func,
    /// The abstract `extern` heap type (external/host references).
    Extern,
    /// The abstract `any` heap type (any internal reference).
    Any,
    /// The abstract `none` heap type (bottom type for internal refs).
    NoneType,
    /// The abstract `noextern` heap type (bottom type for external refs).
    NoExtern,
    /// The abstract `nofunc` heap type (bottom type for function refs).
    NoFunc,
    /// The abstract `eq` heap type (comparable references: i31, struct, array).
    Eq,
    /// The abstract `struct` heap type.
    Struct,
    /// The abstract `array` heap type.
    Array,
    /// The abstract `i31` heap type (31-bit integers).
    I31,
    /// The abstract `exn` heap type (exceptions).
    Exn,
    /// The abstract `noexn` heap type (bottom type for exception refs).
    NoExn,
}

/// A heap type for garbage-collected reference types.
///
/// This represents the kind of heap object a reference points to.
#[derive(Clone, Copy, Debug, PartialEq, Eq, Hash, Structural)]
pub enum HeapType {
    /// An abstract heap type (func, extern, any, ...).
    Abstract(AbstractHeapType),
    /// A concrete (indexed) heap type. Recognized in the model, but no
    /// construction path yields one and the encoder rejects it.
    Concrete(u32),
}

/// A reference type: a nullability flag together with the heap type that the
/// reference points to.
#[derive(Clone, Copy, Debug, PartialEq, Eq, Hash, Structural)]
pub struct RefType {
    /// Whether this reference type is nullable.
    pub nullable: bool,
    /// The heap type that this reference points to.
    pub heap_type: HeapType,
}

/// A value type.
#[derive(Clone, Copy, Debug, PartialEq, Eq, Hash, Structural)]
pub enum ValType {
    /// 32-bit integer.
    I32,
    /// 64-bit integer.
    I64,
    /// 32-bit float.
    F32,
    /// 64-bit float.
    F64,
    /// 128-bit vector.
    V128,
    /// Reference.
    Ref(RefType),
}

impl RefType {
    /// The nullable shorthand reference to the given abstract heap type.
    pub open spec fn spec_nullable_to(a: AbstractHeapType) -> RefType {
        RefType { nullable: true, heap_type: HeapType::Abstract(a) }
    }

    /// The `anyref` type: nullable reference to `any`.
    pub fn anyref() -> (r: RefType)
        ensures
            r == RefType::spec_nullable_to(AbstractHeapType::Any),
    {
        RefType { nullable: true, heap_type: HeapType::Abstract(AbstractHeapType::Any) }
    }

    /// The `eqref` type: nullable reference to `eq`.
    pub fn eqref() -> (r: RefType)
        ensures
            r == RefType::spec_nullable_to(AbstractHeapType::Eq),
    {
        RefType { nullable: true, heap_type: HeapType::Abstract(AbstractHeapType::Eq) }
    }

    /// The `funcref` type: nullable reference to `func`.
    pub fn funcref() -> (r: RefType)
        ensures
            r == RefType::spec_nullable_to(AbstractHeapType::Func),
    {
        RefType { nullable: true, heap_type: HeapType::Abstract(AbstractHeapType::Func) }
    }

    /// The `externref` type: nullable reference to `extern`.
    pub fn externref() -> (r: RefType)
        ensures
            r == RefType::spec_nullable_to(AbstractHeapType::Extern),
    {
        RefType { nullable: true, heap_type: HeapType::Abstract(AbstractHeapType::Extern) }
    }

    /// The `i31ref` type: nullable reference to `i31`.
    pub fn i31ref() -> (r: RefType)
        ensures
            r == RefType::spec_nullable_to(AbstractHeapType::I31),
    {
        RefType { nullable: true, heap_type: HeapType::Abstract(AbstractHeapType::I31) }
    }

    /// The `arrayref` type: nullable reference to `array`.
    pub fn arrayref() -> (r: RefType)
        ensures
            r == RefType::spec_nullable_to(AbstractHeapType::Array),
    {
        RefType { nullable: true, heap_type: HeapType::Abstract(AbstractHeapType::Array) }
    }

    /// The `structref` type: nullable reference to `struct`.
    pub fn structref() -> (r: RefType)
        ensures
            r == RefType::spec_nullable_to(AbstractHeapType::Struct),
    {
        RefType { nullable: true, heap_type: HeapType::Abstract(AbstractHeapType::Struct) }
    }

    /// The `exnref` type: nullable reference to `exn`.
    pub fn exnref() -> (r: RefType)
        ensures
            r == RefType::spec_nullable_to(AbstractHeapType::Exn),
    {
        RefType { nullable: true, heap_type: HeapType::Abstract(AbstractHeapType::Exn) }
    }

    /// The `nullref` type: nullable reference to `none`.
    pub fn nullref() -> (r: RefType)
        ensures
            r == RefType::spec_nullable_to(AbstractHeapType::NoneType),
    {
        RefType { nullable: true, heap_type: HeapType::Abstract(AbstractHeapType::NoneType) }
    }

    /// The `nullexternref` type: nullable reference to `noextern`.
    pub fn nullexternref() -> (r: RefType)
        ensures
            r == RefType::spec_nullable_to(AbstractHeapType::NoExtern),
    {
        RefType { nullable: true, heap_type: HeapType::Abstract(AbstractHeapType::NoExtern) }
    }

    /// The `nullfuncref` type: nullable reference to `nofunc`.
    pub fn nullfuncref() -> (r: RefType)
        ensures
            r == RefType::spec_nullable_to(AbstractHeapType::NoFunc),
    {
        RefType { nullable: true, heap_type: HeapType::Abstract(AbstractHeapType::NoFunc) }
    }

    /// Returns whether this reference type is nullable.
    pub fn is_nullable(&self) -> (r: bool)
        ensures
            r == self.nullable,
    {
        self.nullable
    }
}

/// The canonical text name of an abstract heap type.
pub open spec fn spec_heap_name(a: AbstractHeapType) -> Seq<char> {
    match a {
        AbstractHeapType::Func => "func"@,
        AbstractHeapType::Extern => "extern"@,
        AbstractHeapType::Any => "any"@,
        AbstractHeapType::NoneType => "none"@,
        AbstractHeapType::NoExtern => "noextern"@,
        AbstractHeapType::NoFunc => "nofunc"@,
        AbstractHeapType::Eq => "eq"@,
        AbstractHeapType::Struct => "struct"@,
        AbstractHeapType::Array => "array"@,
        AbstractHeapType::I31 => "i31"@,
        AbstractHeapType::Exn => "exn"@,
        AbstractHeapType::NoExn => "noexn"@,
    }
}

/// The canonical shorthand for the nullable reference to an abstract heap
/// type.
pub open spec fn spec_ref_shorthand(a: AbstractHeapType) -> Seq<char> {
    match a {
        AbstractHeapType::Func => "funcref"@,
        AbstractHeapType::Extern => "externref"@,
        AbstractHeapType::Any => "anyref"@,
        AbstractHeapType::NoneType => "nullref"@,
        AbstractHeapType::NoExtern => "nullexternref"@,
        AbstractHeapType::NoFunc => "nullfuncref"@,
        AbstractHeapType::Eq => "eqref"@,
        AbstractHeapType::Struct => "structref"@,
        AbstractHeapType::Array => "arrayref"@,
        AbstractHeapType::I31 => "i31ref"@,
        AbstractHeapType::Exn => "exnref"@,
        AbstractHeapType::NoExn => "nullexnref"@,
    }
}

/// The decimal digit character for one digit value.
pub open spec fn spec_digit_char(d: nat) -> char {
    if d == 0 {
        '0'
    } else if d == 1 {
        '1'
    } else if d == 2 {
        '2'
    } else if d == 3 {
        '3'
    } else if d == 4 {
        '4'
    } else if d == 5 {
        '5'
    } else if d == 6 {
        '6'
    } else if d == 7 {
        '7'
    } else if d == 8 {
        '8'
    } else {
        '9'
    }
}

/// The decimal rendering of a number, most significant digit first.
pub open spec fn spec_decimal(n: nat) -> Seq<char>
    decreases n,
{
    if n < 10 {
        seq![spec_digit_char(n)]
    } else {
        spec_decimal(n / 10) + seq![spec_digit_char(n % 10)]
    }
}

/// The canonical text of a heap type: the abstract name, or the index of a
/// concrete type.
pub open spec fn spec_heap_render(h: HeapType) -> Seq<char> {
    match h {
        HeapType::Abstract(a) => spec_heap_name(a),
        HeapType::Concrete(i) => spec_decimal(i as nat),
    }
}

/// The canonical text of a reference type: nullable abstract references use
/// the shorthand, everything else uses the explicit parenthesized form.
pub open spec fn spec_ref_render(t: RefType) -> Seq<char> {
    if t.nullable {
        match t.heap_type {
            HeapType::Abstract(a) => spec_ref_shorthand(a),
            HeapType::Concrete(i) => "(ref null "@ + spec_decimal(i as nat) + ")"@,
        }
    } else {
        "(ref "@ + spec_heap_render(t.heap_type) + ")"@
    }
}

/// The canonical text of a value type.
pub open spec fn spec_val_render(v: ValType) -> Seq<char> {
    match v {
        ValType::I32 => "i32"@,
        ValType::I64 => "i64"@,
        ValType::F32 => "f32"@,
        ValType::F64 => "f64"@,
        ValType::V128 => "v128"@,
        ValType::Ref(r) => spec_ref_render(r),
    }
}

/// The canonical text name of an abstract heap type.
fn heap_name(a: AbstractHeapType) -> (r: &'static str)
    ensures
        r@ == spec_heap_name(a),
{
    match a {
        AbstractHeapType::Func => "func",
        AbstractHeapType::Extern => "extern",
        AbstractHeapType::Any => "any",
        AbstractHeapType::NoneType => "none",
        AbstractHeapType::NoExtern => "noextern",
        AbstractHeapType::NoFunc => "nofunc",
        AbstractHeapType::Eq => "eq",
        AbstractHeapType::Struct => "struct",
        AbstractHeapType::Array => "array",
        AbstractHeapType::I31 => "i31",
        AbstractHeapType::Exn => "exn",
        AbstractHeapType::NoExn => "noexn",
    }
}

/// One decimal digit as text.
fn digit_str(d: u32) -> (r: &'static str)
    requires
        d < 10,
    ensures
        r@ == seq![spec_digit_char(d as nat)],
{
    let r = match d {
        0u32 => "0",
        1u32 => "1",
        2u32 => "2",
        3u32 => "3",
        4u32 => "4",
        5u32 => "5",
        6u32 => "6",
        7u32 => "7",
        8u32 => "8",
        _ => "9",
    };
    proof {
        reveal_strlit("0");
        reveal_strlit("1");
        reveal_strlit("2");
        reveal_strlit("3");
        reveal_strlit("4");
        reveal_strlit("5");
        reveal_strlit("6");
        reveal_strlit("7");
        reveal_strlit("8");
        reveal_strlit("9");
    }
    r
}

/// Appends the decimal rendering of `n` to `out`.
fn append_decimal(out: &mut String, n: u32)
    ensures
        final(out)@ == old(out)@ + spec_decimal(n as nat),
    decreases n,
{
    if n < 10 {
        out.append(digit_str(n));
    } else {
        append_decimal(out, n / 10);
        out.append(digit_str(n % 10));
        assert(final(out)@ == old(out)@ + spec_decimal(n as nat));
    }
}

impl HeapType {
    /// The canonical text of this heap type.
    pub fn render(&self) -> (r: String)
        ensures
            r@ == spec_heap_render(*self),
    {
        let mut s = String::new();
        match self {
            HeapType::Abstract(a) => {
                s.append(heap_name(*a));
            },
            HeapType::Concrete(i) => {
                append_decimal(&mut s, *i);
            },
        }
        s
    }
}

impl RefType {
    /// The canonical text of this reference type: `"i31ref"` for the nullable
    /// shorthand, `"(ref i31)"` for the non-nullable form.
    pub fn render(&self) -> (r: String)
        ensures
            r@ == spec_ref_render(*self),
    {
        if self.nullable {
            match self.heap_type {
                HeapType::Abstract(a) => {
                    let mut s = String::new();
                    let short = match a {
                        AbstractHeapType::Func => "funcref",
                        AbstractHeapType::Extern => "externref",
                        AbstractHeapType::Any => "anyref",
                        AbstractHeapType::NoneType => "nullref",
                        AbstractHeapType::NoExtern => "nullexternref",
                        AbstractHeapType::NoFunc => "nullfuncref",
                        AbstractHeapType::Eq => "eqref",
                        AbstractHeapType::Struct => "structref",
                        AbstractHeapType::Array => "arrayref",
                        AbstractHeapType::I31 => "i31ref",
                        AbstractHeapType::Exn => "exnref",
                        AbstractHeapType::NoExn => "nullexnref",
                    };
                    s.append(short);
                    s
                },
                HeapType::Concrete(i) => {
                    let mut s = String::from_str("(ref null ");
                    append_decimal(&mut s, i);
                    s.append(")");
                    s
                },
            }
        } else {
            let mut s = String::from_str("(ref ");
            let h = self.heap_type.render();
            s.append(h.as_str());
            s.append(")");
            s
        }
    }
}

impl ValType {
    /// The canonical text of this value type.
    pub fn render(&self) -> (r: String)
        ensures
            r@ == spec_val_render(*self),
    {
        match self {
            ValType::I32 => String::from_str("i32"),
            ValType::I64 => String::from_str("i64"),
            ValType::F32 => String::from_str("f32"),
            ValType::F64 => String::from_str("f64"),
            ValType::V128 => String::from_str("v128"),
            ValType::Ref(r) => r.render(),
        }
    }
}

/// The structural content of a function type: everything that equality and
/// interning go by. The id and the debug name are deliberately excluded.
pub struct TypeKey {
    /// Parameter types, in order.
    pub params: Seq<ValType>,
    /// Result types, in order.
    pub results: Seq<ValType>,
    /// Whether the type exists only to give a function entry block a
    /// signature.
    pub is_for_function_entry: bool,
}

/// A function type.
#[derive(Debug, Clone)]
pub struct Type {
    id: TypeId,
    params: Vec<ValType>,
    results: Vec<ValType>,
    // Whether or not this type is for a function entry block, and therefore
    // is for internal use only and is left out when the type section is
    // serialized.
    is_for_function_entry: bool,
    /// An optional name for debugging.
    pub name: Option<String>,
}

impl Type {
    /// The structural content this type is compared and interned by.
    pub closed spec fn key(&self) -> TypeKey {
        TypeKey {
            params: self.params@,
            results: self.results@,
            is_for_function_entry: self.is_for_function_entry,
        }
    }

    /// The id this type was created under.
    pub closed spec fn spec_id(&self) -> TypeId {
        self.id
    }

    /// The optional debug name, as text.
    pub closed spec fn spec_name(&self) -> Option<Seq<char>> {
        match self.name {
            Some(n) => Some(n@),
            None => None,
        }
    }

    /// Construct a new function type.
    pub(crate) fn new(id: TypeId, params: Vec<ValType>, results: Vec<ValType>) -> (r: Type)
        ensures
            r.spec_id() == id,
            r.key() == (TypeKey { params: params@, results: results@, is_for_function_entry: false }),
            r.spec_name() is None,
    {
        Type { id, params, results, is_for_function_entry: false, name: None }
    }

    /// Construct a new type for a function entry block: no parameters, and
    /// flagged so the encoder leaves it out of the type section.
    pub(crate) fn for_function_entry(id: TypeId, results: Vec<ValType>) -> (r: Type)
        ensures
            r.spec_id() == id,
            r.key() == (TypeKey {
                params: Seq::<ValType>::empty(),
                results: results@,
                is_for_function_entry: true,
            }),
            r.spec_name() is None,
    {
        let params: Vec<ValType> = Vec::new();
        assert(params@ =~= Seq::<ValType>::empty());
        Type { id, params, results, is_for_function_entry: true, name: None }
    }

    /// Get the id of this type.
    pub fn id(&self) -> (r: TypeId)
        ensures
            r == self.spec_id(),
    {
        self.id
    }

    /// Get the parameters to this function type.
    pub fn params(&self) -> (r: &[ValType])
        ensures
            r@ == self.key().params,
    {
        self.params.as_slice()
    }

    /// Get the results of this function type.
    pub fn results(&self) -> (r: &[ValType])
        ensures
            r@ == self.key().results,
    {
        self.results.as_slice()
    }

    /// Whether this type only gives a function entry block a signature.
    pub fn is_for_function_entry(&self) -> (r: bool)
        ensures
            r == self.key().is_for_function_entry,
    {
        self.is_for_function_entry
    }

    /// Structural equality: params, results and the entry flag, never id or
    /// name, so two types built independently but structurally identical are
    /// equal.
    pub fn structurally_equal(&self, other: &Type) -> (r: bool)
        ensures
            r == (self.key() == other.key()),
    {
        let r = val_types_equal(self.params.as_slice(), other.params.as_slice())
            && val_types_equal(self.results.as_slice(), other.results.as_slice())
            && self.is_for_function_entry == other.is_for_function_entry;
        proof {
            if r {
                assert(self.key() =~= other.key());
            }
        }
        r
    }

    /// Clears the content of a deleted type: params and results are
    /// emptied, while the id, the entry flag and the name survive — the id
    /// keeps pointing at the slot as an explicit tombstone, never reused
    /// and never dangling.
    pub(crate) fn clear(&mut self)
        ensures
            final(self).key().params == Seq::<ValType>::empty(),
            final(self).key().results == Seq::<ValType>::empty(),
            final(self).spec_id() == old(self).spec_id(),
            final(self).key().is_for_function_entry == old(self).key().is_for_function_entry,
            final(self).spec_name() == old(self).spec_name(),
    {
        self.params = Vec::new();
        self.results = Vec::new();
        assert(final(self).key().params =~= Seq::<ValType>::empty());
        assert(final(self).key().results =~= Seq::<ValType>::empty());
    }
}

/// Element-wise equality of two value-type lists.
pub fn val_types_equal(a: &[ValType], b: &[ValType]) -> (r: bool)
    ensures
        r == (a@ == b@),
{
    if a.len() != b.len() {
        assert(a@ != b@);
        return false;
    }
    let n = a.len();
    let mut i: usize = 0;
    while i < n
        invariant
            n == a@.len() && n == b@.len(),
            i <= n,
            forall|j: int| 0 <= j < i ==> a@[j] == b@[j],
        decreases n - i,
    {
        if a[i] != b[i] {
            return false;
        }
        i += 1;
    }
    proof {
        assert(a@ =~= b@);
    }
    true
}


/// The rank of an abstract heap type in the component ordering.
pub open spec fn spec_abs_heap_rank(a: AbstractHeapType) -> int {
    match a {
        AbstractHeapType::Func => 0,
        AbstractHeapType::Extern => 1,
        AbstractHeapType::Any => 2,
        AbstractHeapType::NoneType => 3,
        AbstractHeapType::NoExtern => 4,
        AbstractHeapType::NoFunc => 5,
        AbstractHeapType::Eq => 6,
        AbstractHeapType::Struct => 7,
        AbstractHeapType::Array => 8,
        AbstractHeapType::I31 => 9,
        AbstractHeapType::Exn => 10,
        AbstractHeapType::NoExn => 11,
    }
}

/// An order-defining key for value types: the numeric types first, then
/// references, non-nullable before nullable, abstract heap types before
/// concrete ones. Two value types compare equal exactly when they are equal.
pub open spec fn spec_val_type_rank(v: ValType) -> int {
    match v {
        ValType::I32 => 0,
        ValType::I64 => rank_unit(),
        ValType::F32 => 2 * rank_unit(),
        ValType::F64 => 3 * rank_unit(),
        ValType::V128 => 4 * rank_unit(),
        ValType::Ref(t) => 5 * rank_unit() + (match t.heap_type {
            HeapType::Abstract(a) => spec_abs_heap_rank(a),
            HeapType::Concrete(i) => 16 + i as int,
        }) * 2 + (if t.nullable {
            1int
        } else {
            0int
        }),
    }
}

/// The stride between the major variants of the value-type key: wide enough
/// that no reference key reaches the next variant.
pub open spec fn rank_unit() -> int {
    0x10000000000
}

/// The key is injective: equal keys mean equal value types.
pub proof fn lemma_val_type_rank_injective(a: ValType, b: ValType)
    requires
        spec_val_type_rank(a) == spec_val_type_rank(b),
    ensures
        a == b,
{
    match (a, b) {
        (ValType::Ref(ta), ValType::Ref(tb)) => {
            match (ta.heap_type, tb.heap_type) {
                (HeapType::Abstract(x), HeapType::Abstract(y)) => {
                    assert(spec_abs_heap_rank(x) == spec_abs_heap_rank(y));
                },
                _ => {},
            }
        },
        _ => {},
    }
}

/// The component ordering of value types, as a three-way comparison over
/// the key.
pub open spec fn spec_val_type_cmp(a: ValType, b: ValType) -> int {
    if spec_val_type_rank(a) < spec_val_type_rank(b) {
        -1
    } else if spec_val_type_rank(a) > spec_val_type_rank(b) {
        1
    } else {
        0
    }
}

/// Lexicographic three-way comparison of two value-type lists: a proper
/// prefix orders before its extensions.
pub open spec fn spec_val_types_cmp(a: Seq<ValType>, b: Seq<ValType>) -> int
    decreases a.len(),
{
    if a.len() == 0 && b.len() == 0 {
        0
    } else if a.len() == 0 {
        -1
    } else if b.len() == 0 {
        1
    } else if spec_val_type_cmp(a[0], b[0]) != 0 {
        spec_val_type_cmp(a[0], b[0])
    } else {
        spec_val_types_cmp(a.drop_first(), b.drop_first())
    }
}

/// The structural ordering of function types: lexicographic, parameters
/// first, then results; id, name and the entry flag play no part.
pub open spec fn spec_type_cmp(a: TypeKey, b: TypeKey) -> int {
    if spec_val_types_cmp(a.params, b.params) != 0 {
        spec_val_types_cmp(a.params, b.params)
    } else {
        spec_val_types_cmp(a.results, b.results)
    }
}

/// Two value-type lists compare equal exactly when they are equal.
pub proof fn lemma_val_types_cmp_zero(x: Seq<ValType>, y: Seq<ValType>)
    ensures
        spec_val_types_cmp(x, y) == 0 <==> x == y,
    decreases x.len(),
{
    if x.len() == 0 || y.len() == 0 {
        if x.len() == 0 && y.len() == 0 {
            assert(x =~= y);
        }
    } else {
        lemma_val_types_cmp_zero(x.drop_first(), y.drop_first());
        if spec_val_types_cmp(x, y) == 0 {
            lemma_val_type_rank_injective(x[0], y[0]);
            assert(x =~= seq![x[0]] + x.drop_first());
            assert(y =~= seq![y[0]] + y.drop_first());
        }
        if x == y {
            assert(x.drop_first() == y.drop_first());
        }
    }
}

/// Law: the structural ordering agrees with structural equality up to the
/// entry flag — two type keys compare equal exactly when their parameters
/// and results coincide.
pub proof fn lemma_type_order_matches_equality(a: TypeKey, b: TypeKey)
    ensures
        spec_type_cmp(a, b) == 0 <==> (a.params == b.params && a.results == b.results),
{
    lemma_val_types_cmp_zero(a.params, b.params);
    lemma_val_types_cmp_zero(a.results, b.results);
}

/// Comparing lists whose first `i` members carry equal keys is comparing
/// what remains.
proof fn lemma_val_types_cmp_skip(a: Seq<ValType>, b: Seq<ValType>, i: int)
    requires
        0 <= i <= a.len(),
        i <= b.len(),
        forall|j: int| 0 <= j < i ==> spec_val_type_rank(#[trigger] a[j]) == spec_val_type_rank(
            b[j],
        ),
    ensures
        spec_val_types_cmp(a, b) == spec_val_types_cmp(a.skip(i), b.skip(i)),
    decreases i,
{
    if i > 0 {
        assert(a.skip(0) =~= a);
        assert(b.skip(0) =~= b);
        assert(a.drop_first().skip(i - 1) =~= a.skip(i));
        assert(b.drop_first().skip(i - 1) =~= b.skip(i));
        assert forall|j: int| 0 <= j < i - 1 implies spec_val_type_rank(
            #[trigger] a.drop_first()[j],
        ) == spec_val_type_rank(b.drop_first()[j]) by {
            assert(a.drop_first()[j] == a[j + 1] && b.drop_first()[j] == b[j + 1]);
        }
        lemma_val_types_cmp_skip(a.drop_first(), b.drop_first(), i - 1);
    } else {
        assert(a.skip(0) =~= a);
        assert(b.skip(0) =~= b);
    }
}

/// The order-defining key of a value type.
fn val_type_rank(v: &ValType) -> (r: u64)
    ensures
        r as int == spec_val_type_rank(*v),
{
    match *v {
        ValType::I32 => 0,
        ValType::I64 => 0x10000000000,
        ValType::F32 => 2 * 0x10000000000,
        ValType::F64 => 3 * 0x10000000000,
        ValType::V128 => 4 * 0x10000000000,
        ValType::Ref(t) => {
            let sub: u64 = match t.heap_type {
                HeapType::Abstract(a) => match a {
                    AbstractHeapType::Func => 0,
                    AbstractHeapType::Extern => 1,
                    AbstractHeapType::Any => 2,
                    AbstractHeapType::NoneType => 3,
                    AbstractHeapType::NoExtern => 4,
                    AbstractHeapType::NoFunc => 5,
                    AbstractHeapType::Eq => 6,
                    AbstractHeapType::Struct => 7,
                    AbstractHeapType::Array => 8,
                    AbstractHeapType::I31 => 9,
                    AbstractHeapType::Exn => 10,
                    AbstractHeapType::NoExn => 11,
                },
                HeapType::Concrete(i) => 16 + i as u64,
            };
            5 * 0x10000000000 + sub * 2 + (if t.nullable {
                1
            } else {
                0
            })
        },
    }
}

/// Lexicographic three-way comparison of two value-type lists.
fn val_types_compare(a: &[ValType], b: &[ValType]) -> (r: core::cmp::Ordering)
    ensures
        r is Less <==> spec_val_types_cmp(a@, b@) == -1,
        r is Equal <==> spec_val_types_cmp(a@, b@) == 0,
        r is Greater <==> spec_val_types_cmp(a@, b@) == 1,
{
    let mut i: usize = 0;
    loop
        invariant
            i <= a@.len(),
            i <= b@.len(),
            forall|j: int|
                0 <= j < i ==> spec_val_type_rank(#[trigger] a@[j]) == spec_val_type_rank(b@[j]),
        decreases a@.len() - i,
    {
        proof {
            lemma_val_types_cmp_skip(a@, b@, i as int);
        }
        if i == a.len() && i == b.len() {
            proof {
                assert(a@.skip(i as int) =~= Seq::<ValType>::empty());
                assert(b@.skip(i as int) =~= Seq::<ValType>::empty());
            }
            return core::cmp::Ordering::Equal;
        }
        if i == a.len() {
            proof {
                assert(a@.skip(i as int) =~= Seq::<ValType>::empty());
                assert(b@.skip(i as int).len() > 0);
            }
            return core::cmp::Ordering::Less;
        }
        if i == b.len() {
            proof {
                assert(b@.skip(i as int) =~= Seq::<ValType>::empty());
                assert(a@.skip(i as int).len() > 0);
            }
            return core::cmp::Ordering::Greater;
        }
        let ka = val_type_rank(&a[i]);
        let kb = val_type_rank(&b[i]);
        proof {
            assert(a@.skip(i as int)[0] == a@[i as int]);
            assert(b@.skip(i as int)[0] == b@[i as int]);
        }
        if ka < kb {
            return core::cmp::Ordering::Less;
        }
        if ka > kb {
            return core::cmp::Ordering::Greater;
        }
        i += 1;
    }
}

impl Type {
    /// The structural ordering: lexicographic over the parameters, then the
    /// results — component-wise over the value-type order, with id and name
    /// excluded, so the order agrees with structural equality.
    pub fn compare(&self, other: &Type) -> (r: core::cmp::Ordering)
        ensures
            r is Less <==> spec_type_cmp(self.key(), other.key()) == -1,
            r is Equal <==> spec_type_cmp(self.key(), other.key()) == 0,
            r is Greater <==> spec_type_cmp(self.key(), other.key()) == 1,
    {
        let p = val_types_compare(self.params.as_slice(), other.params.as_slice());
        match p {
            core::cmp::Ordering::Equal => val_types_compare(
                self.results.as_slice(),
                other.results.as_slice(),
            ),
            _ => p,
        }
    }
}

} // verus!
