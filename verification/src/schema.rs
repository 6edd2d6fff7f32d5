//! The schema model: an immutable in-memory picture of one annotated type
//! definition, built by a front-end parser and read by the validator.

use vstd::prelude::*;

verus! {

/// Where a schema node was declared. The parser attaches a stable node
/// identifier to every entity it produces; diagnostics carry it back so an
/// error can be rendered at the original definition site.
#[derive(Clone, Copy, Debug, PartialEq, Eq, Structural)]
pub struct Location {
    pub node: u64,
}

/// Declared byte length of a node's fixed-size encoding. An `Explicit` hint
/// was written out by the schema author and is subject to validation; a
/// `Computed` hint is inferred later by the code generator and is not
/// checked here.
#[derive(Clone, Copy, Debug)]
pub enum SizeHint {
    Explicit { value: usize },
    Computed,
}

/// Attributes carried by a top-level container: an optional 32-bit
/// constructor identifier, whether the wire representation is boxed
/// (identifier-prefixed), and an optional size hint.
#[derive(Clone, Copy, Debug)]
pub struct ContainerAttrs {
    pub id: Option<u32>,
    pub boxed: bool,
    pub size_hint: Option<SizeHint>,
}

/// Attributes carried by one enum variant.
#[derive(Clone, Copy, Debug)]
pub struct VariantAttrs {
    pub id: Option<u32>,
    pub size_hint: Option<SizeHint>,
}

/// Attributes carried by one field.
#[derive(Clone, Copy, Debug)]
pub struct FieldAttrs {
    pub size_hint: Option<SizeHint>,
}

/// One field of a struct container or of an enum variant.
#[derive(Clone, Debug)]
pub struct Field {
    pub name: String,
    pub ty: String,
    pub attrs: FieldAttrs,
    pub location: Location,
}

/// One arm of an enum container. Order within the containing list is
/// significant for decoding, so it is preserved everywhere.
#[derive(Clone, Debug)]
pub struct Variant {
    pub name: String,
    pub attrs: VariantAttrs,
    pub fields: Vec<Field>,
    pub location: Location,
}

/// The body of a container: the ordered fields of a struct, or the ordered
/// variants of an enum.
#[derive(Clone, Debug)]
pub enum Data {
    Struct(Vec<Field>),
    Enum(Vec<Variant>),
}

/// One top-level type definition as handed over by the parser.
#[derive(Clone, Debug)]
pub struct Container {
    pub attrs: ContainerAttrs,
    pub data: Data,
    pub location: Location,
}

} // verus!
