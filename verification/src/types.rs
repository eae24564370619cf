//! Resolved types, regions and substitutions, as the type checker that ran
//! before the translation left them.

use vstd::prelude::*;
use crate::defs::{DefId, NodeId, ParamSpace};

verus! {

/// The width of an integer type.
#[derive(Clone, Copy, Debug, PartialEq, Eq, Structural)]
pub enum IntWidth {
    W8,
    W16,
    W32,
    W64,
    /// The width of the platform's pointers.
    Native,
}

/// The width of a floating-point type.
#[derive(Clone, Copy, Debug, PartialEq, Eq, Structural)]
pub enum FloatWidth {
    W32,
    W64,
}

#[derive(Clone, Copy, Debug, PartialEq, Eq, Structural)]
pub enum Mutability {
    Mutable,
    Immutable,
}

/// A region bound by a binder.
#[derive(Clone, Copy, Debug, PartialEq, Eq, Structural)]
pub enum BoundRegion {
    /// An anonymous region, known by its position.
    Anon(u32),
    /// A region named in the source.
    Named(DefId),
    /// Any other bound region.
    Other,
}

#[derive(Clone, Copy, Debug, PartialEq, Eq, Structural)]
pub enum Region {
    /// A named region bound where its item is declared.
    EarlyBound(NodeId),
    /// A region bound by a function signature.
    LateBound(BoundRegion),
    /// A region free in a function body.
    Free(BoundRegion),
    Static,
    /// A region tied to a block or statement.
    Scope(NodeId),
    /// Any other region.
    Other,
}

/// The regions of a substitution.
#[derive(Debug, PartialEq, Eq)]
pub enum RegionSubsts {
    /// The regions were erased.
    Erased,
    NonErased(Vec<Region>),
}

/// The regions and types given to the parameters of a generic item.
#[derive(Debug, PartialEq, Eq)]
pub struct Substs {
    pub regions: RegionSubsts,
    pub types: Vec<Ty>,
}

/// A resolved type.
#[derive(Debug, PartialEq, Eq)]
pub enum Ty {
    Bool,
    Char,
    Int(IntWidth),
    Uint(IntWidth),
    Float(FloatWidth),
    /// A struct or an enum, with the substitution for its parameters.
    Adt(DefId, Substs),
    Str,
    /// A slice of elements of one type.
    Slice(Box<Ty>),
    /// An array of a fixed number of elements.
    Array(Box<Ty>, u64),
    RawPtr(Mutability, Box<Ty>),
    Ref(Region, Mutability, Box<Ty>),
    Tuple(Vec<Ty>),
    /// The associated type `name` of a trait, with the trait's substitution.
    Projection(DefId, Substs, String),
    /// A generic type parameter: its space and its index there.
    Param(ParamSpace, u32),
    /// Any other kind of type.
    Other,
}

} // verus!
