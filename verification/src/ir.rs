//! The canonical, language-neutral type representation, struct definitions,
//! per-field attributes, and the structured errors of the crate.

use vstd::prelude::*;

verus! {

/// A field's declared type: a primitive of the fixed vocabulary, a reference
/// to a user-defined type (passed through untouched), or a parametric generic
/// with an ordered list of arguments.
#[derive(Debug)]
pub enum TypeIR {
    Primitive(String),
    Named(String),
    Generic(String, Vec<TypeIR>),
}

/// An orthogonal per-field flag; a field may carry any subset.
#[derive(Clone, Copy, Debug, PartialEq, Eq, Structural)]
pub enum FieldAttr {
    PrimaryKey,
    Serializable,
    ExcludeCompare,
    ExcludeString,
    ExcludeHash,
}

/// One field of a struct definition: its identifier, declared type, storage
/// and CSV column names, and attribute set.
#[derive(Debug)]
pub struct FieldDef {
    pub field_name: String,
    pub ty: TypeIR,
    pub table_col: String,
    pub csv_col: String,
    pub attrs: Vec<FieldAttr>,
}

/// A struct definition; field order is significant and preserved end-to-end.
#[derive(Debug)]
pub struct StructDef {
    pub name: String,
    pub table_name: String,
    pub fields: Vec<FieldDef>,
}

/// A failure while lowering a type to target-language syntax.
#[derive(Debug, PartialEq, Eq)]
pub enum ResolveError {
    /// A primitive name that the registry does not map.
    UnknownPrimitive { name: String },
    /// A generic constructor name that the registry does not map.
    UnknownGenericConstructor { name: String },
    /// A generic applied to the wrong number of arguments. For a variadic
    /// constructor `expected` is 1, the least argument count allowed.
    ArityMismatch { constructor: String, expected: usize, actual: usize },
}

/// An eagerly detected configuration error: a struct's field set needs a
/// primitive or constructor that a target registry does not supply.
#[derive(Debug)]
pub struct RegistryValidationFailure {
    pub struct_name: String,
    pub field_name: String,
    pub cause: ResolveError,
}

/// A failure while traversing a reflection tree.
#[derive(Debug, PartialEq, Eq)]
pub enum MetaError {
    /// A nested handle that does not point at an earlier arena entry: the
    /// referenced value is gone or was recorded after the referring one.
    DanglingReflectionReference { handle: usize },
}

/// Whether an attribute list carries a given flag.
pub fn attrs_contain(attrs: &Vec<FieldAttr>, a: FieldAttr) -> (r: bool)
    ensures
        r == attrs@.contains(a),
{
    let n = attrs.len();
    let mut i: usize = 0;
    while i < n
        invariant
            i <= n,
            n == attrs@.len(),
            forall|j: int| 0 <= j < i ==> attrs@[j] != a,
        decreases n - i,
    {
        if attrs[i] == a {
            assert(attrs@.contains(a));
            return true;
        }
        i = i + 1;
    }
    assert(!attrs@.contains(a));
    false
}

} // verus!
