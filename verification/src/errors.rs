//! Why the translation of a definition can fail.

use vstd::prelude::*;
use vstd::string::*;
use crate::defs::DefId;
use crate::text::{decimal, push_decimal};

verus! {

/// A construct outside the translated subset of the language.
#[derive(Clone, Copy, Debug, PartialEq, Eq, Structural)]
pub enum Construct {
    /// A substitution whose regions were erased.
    ErasedRegions,
    /// A kind of type that has no encoding.
    TypeKind,
    /// A kind of region that has no encoding.
    RegionKind,
    /// A kind of bound region that has no encoding.
    BoundRegionKind,
    /// A named lifetime that resolves to a free region.
    FreeRegion,
    /// A parameter that is not bound by a plain identifier.
    ArgPattern,
    /// A local that is not bound by a plain identifier.
    LocalPattern,
    /// A local without an initializer.
    UninitLocal,
    /// A macro in statement position.
    MacroStmt,
    /// A method call resolved in a way other than statically or through a
    /// type parameter's bound.
    MethodOrigin,
    /// A method call resolved to an associated type.
    AssocTypeAsMethod,
    /// A method call with explicit type arguments.
    MethodTypeArgs,
    /// An indexing expression.
    Index,
    /// A range expression.
    Range,
    /// A struct literal with a base struct.
    StructBase,
    /// Any other kind of expression outside the subset.
    ExprKind,
    /// A re-borrow nested in another re-borrow.
    NestedAutoRef,
    /// An implicit re-borrow other than to a reference or raw pointer.
    AutoRefKind,
    /// An implicit reification of a function to a function pointer.
    ReifyFnPointer,
    /// An implicit dereference of a value that is no pointer.
    DerefNonPointer,
    /// A kind of literal outside the subset.
    LitKind,
    /// A match arm with more or fewer than one pattern.
    ArmPatterns,
    /// A match arm with a guard.
    ArmGuard,
    /// An enum pattern that does not resolve to a variant.
    PatNotVariant,
    /// Any other kind of pattern outside the subset.
    PatKind,
    /// An enum variant with named fields.
    VariantKind,
    /// A struct field without a name.
    UnnamedField,
    /// A static in a foreign block.
    ForeignStatic,
    /// A method given by a macro.
    MacroMethod,
    /// Parenthesized parameters on a trait reference.
    ParenthesizedParams,
    /// An associated type in an implementation of no trait.
    AssocTypeWithoutTrait,
    /// An abstract function whose definition is no trait method.
    NotATraitMethod,
    /// A method with a receiver and no parameter to hold it.
    ReceiverWithoutParam,
}

/// A query table that lacked an expected entry.
#[derive(Clone, Copy, Debug, PartialEq, Eq, Structural)]
pub enum Table {
    Resolutions,
    NodeTypes,
    SourceTypes,
    MethodCalls,
    NamedRegions,
    TraitItems,
    Discriminants,
    Signatures,
    TraitGenerics,
}

/// A failed translation.
#[derive(Clone, Copy, Debug, PartialEq, Eq, Structural)]
pub enum TransError {
    /// The definition uses a construct outside the translated subset.
    Unsupported(Construct),
    /// A query table has no entry where the definition needs one.
    Missing(Table),
    /// No path is known for a definition whose name had to be mangled.
    UnresolvedPath(DefId),
}

/// The words that describe an unsupported construct.
pub open spec fn construct_text(c: Construct) -> Seq<char> {
    match c {
        Construct::ErasedRegions => "unsupported ErasedRegions"@,
        Construct::TypeKind => "unrecognized type"@,
        Construct::RegionKind => "unsupported Region variant"@,
        Construct::BoundRegionKind => "unsupported BoundRegion variant"@,
        Construct::FreeRegion => "unsupported DefFreeRegion"@,
        Construct::ArgPattern => "unsupported Pat_ variant in Arg"@,
        Construct::LocalPattern => "unsupported Pat_ variant in Local"@,
        Construct::UninitLocal => "assertion failed: self.init.is_some()"@,
        Construct::MacroStmt => "expected no macros, but saw StmtMac"@,
        Construct::MethodOrigin => "unsupported MethodOrigin variant"@,
        Construct::AssocTypeAsMethod => "unexpected TypeTraitItemId in method call"@,
        Construct::MethodTypeArgs => "assertion failed: tys.len() == 0"@,
        Construct::Index => "exprindex"@,
        Construct::Range => "exprrange"@,
        Construct::StructBase => "assertion failed: opt_base.is_none()"@,
        Construct::ExprKind => "unrecognized Expr_ variant"@,
        Construct::NestedAutoRef => "assertion failed: autoref.is_none()"@,
        Construct::AutoRefKind => "unsupported AutoRef variant"@,
        Construct::ReifyFnPointer => "unsupported AdjustAddEnv"@,
        Construct::DerefNonPointer => "unexpected ty variant"@,
        Construct::LitKind => "unrecognized Lit_ variant"@,
        Construct::ArmPatterns => "assertion failed: self.pats.len() == 1"@,
        Construct::ArmGuard => "assertion failed: self.guard.is_none()"@,
        Construct::PatNotVariant => "couldn't find variant for enum pattern"@,
        Construct::PatKind => "unhandled Pat_ variant"@,
        Construct::VariantKind => "unsupported VariantKind variant"@,
        Construct::UnnamedField => "called `Option::unwrap()` on a `None` value"@,
        Construct::ForeignStatic => "can't translate ForeignItemStatic"@,
        Construct::MacroMethod => "unexpected MethMac"@,
        Construct::ParenthesizedParams => "unsupported ParenthesizedParameters"@,
        Construct::AssocTypeWithoutTrait => "called `Option::unwrap()` on a `None` value"@,
        Construct::NotATraitMethod => "expected MethodTraitItem"@,
        Construct::ReceiverWithoutParam => "receiver without a parameter"@,
    }
}

/// The words that name a query table.
pub open spec fn table_text(t: Table) -> Seq<char> {
    match t {
        Table::Resolutions => "missing definition resolution"@,
        Table::NodeTypes => "missing node type"@,
        Table::SourceTypes => "missing resolved source type"@,
        Table::MethodCalls => "missing method resolution"@,
        Table::NamedRegions => "missing DefRegion"@,
        Table::TraitItems => "missing trait item"@,
        Table::Discriminants => "missing variant discriminant"@,
        Table::Signatures => "can't find method"@,
        Table::TraitGenerics => "can't find trait"@,
    }
}

/// The message that describes a failure.
pub open spec fn error_text(e: TransError) -> Seq<char> {
    match e {
        TransError::Unsupported(c) => construct_text(c),
        TransError::Missing(t) => table_text(t),
        TransError::UnresolvedPath(d) => "missing path of definition "@ + decimal(d.krate as nat)
            + ":"@ + decimal(d.node as nat),
    }
}

impl Construct {
    /// The words that describe this construct.
    pub fn describe(self) -> (r: &'static str)
        ensures
            r@ == construct_text(self),
    {
        match self {
            Construct::ErasedRegions => "unsupported ErasedRegions",
            Construct::TypeKind => "unrecognized type",
            Construct::RegionKind => "unsupported Region variant",
            Construct::BoundRegionKind => "unsupported BoundRegion variant",
            Construct::FreeRegion => "unsupported DefFreeRegion",
            Construct::ArgPattern => "unsupported Pat_ variant in Arg",
            Construct::LocalPattern => "unsupported Pat_ variant in Local",
            Construct::UninitLocal => "assertion failed: self.init.is_some()",
            Construct::MacroStmt => "expected no macros, but saw StmtMac",
            Construct::MethodOrigin => "unsupported MethodOrigin variant",
            Construct::AssocTypeAsMethod => "unexpected TypeTraitItemId in method call",
            Construct::MethodTypeArgs => "assertion failed: tys.len() == 0",
            Construct::Index => "exprindex",
            Construct::Range => "exprrange",
            Construct::StructBase => "assertion failed: opt_base.is_none()",
            Construct::ExprKind => "unrecognized Expr_ variant",
            Construct::NestedAutoRef => "assertion failed: autoref.is_none()",
            Construct::AutoRefKind => "unsupported AutoRef variant",
            Construct::ReifyFnPointer => "unsupported AdjustAddEnv",
            Construct::DerefNonPointer => "unexpected ty variant",
            Construct::LitKind => "unrecognized Lit_ variant",
            Construct::ArmPatterns => "assertion failed: self.pats.len() == 1",
            Construct::ArmGuard => "assertion failed: self.guard.is_none()",
            Construct::PatNotVariant => "couldn't find variant for enum pattern",
            Construct::PatKind => "unhandled Pat_ variant",
            Construct::VariantKind => "unsupported VariantKind variant",
            Construct::UnnamedField => "called `Option::unwrap()` on a `None` value",
            Construct::ForeignStatic => "can't translate ForeignItemStatic",
            Construct::MacroMethod => "unexpected MethMac",
            Construct::ParenthesizedParams => "unsupported ParenthesizedParameters",
            Construct::AssocTypeWithoutTrait => "called `Option::unwrap()` on a `None` value",
            Construct::NotATraitMethod => "expected MethodTraitItem",
            Construct::ReceiverWithoutParam => "receiver without a parameter",
        }
    }
}

impl Table {
    /// The words that name this table.
    pub fn describe(self) -> (r: &'static str)
        ensures
            r@ == table_text(self),
    {
        match self {
            Table::Resolutions => "missing definition resolution",
            Table::NodeTypes => "missing node type",
            Table::SourceTypes => "missing resolved source type",
            Table::MethodCalls => "missing method resolution",
            Table::NamedRegions => "missing DefRegion",
            Table::TraitItems => "missing trait item",
            Table::Discriminants => "missing variant discriminant",
            Table::Signatures => "can't find method",
            Table::TraitGenerics => "can't find trait",
        }
    }
}

impl TransError {
    /// Whether the failure ends the whole run instead of one definition.
    pub open spec fn spec_is_fatal(self) -> bool {
        self is UnresolvedPath
    }

    /// Whether the failure ends the whole run instead of one definition.
    #[verifier::when_used_as_spec(spec_is_fatal)]
    pub fn is_fatal(self) -> (b: bool)
        ensures
            b == self.spec_is_fatal(),
    {
        match self {
            TransError::UnresolvedPath(_) => true,
            _ => false,
        }
    }

    /// The message that describes this failure.
    pub fn message(self) -> (r: String)
        ensures
            r@ == error_text(self),
    {
        match self {
            TransError::Unsupported(c) => String::from_str(c.describe()),
            TransError::Missing(t) => String::from_str(t.describe()),
            TransError::UnresolvedPath(d) => {
                let mut out = String::from_str("missing path of definition ");
                push_decimal(&mut out, d.krate as u64);
                out.append(":");
                push_decimal(&mut out, d.node as u64);
                out
            },
        }
    }
}

} // verus!
