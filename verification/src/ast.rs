//! The syntax tree of the program under translation, reduced to what the
//! translation reads. Facts that the analyses before it derived are not
//! stored in the tree: they are looked up in the query tables by the
//! identity of the node.

use vstd::prelude::*;
use crate::defs::NodeId;
use crate::types::Mutability;

verus! {

/// A type as written in the source.
#[derive(Clone, Copy, Debug, PartialEq, Eq, Structural)]
pub struct SourceTy {
    pub id: NodeId,
}

/// A lifetime as written in the source.
#[derive(Clone, Copy, Debug, PartialEq, Eq, Structural)]
pub struct Lifetime {
    pub id: NodeId,
}

#[derive(Clone, Copy, Debug, PartialEq, Eq, Structural)]
pub enum Lit {
    Byte(u8),
    Int(u64),
    Bool(bool),
    /// Any other literal.
    Other,
}

#[derive(Clone, Copy, Debug, PartialEq, Eq, Structural)]
pub enum BinOp {
    Add,
    Sub,
    Mul,
    Div,
    Rem,
    And,
    Or,
    BitXor,
    BitAnd,
    BitOr,
    Shl,
    Shr,
    Eq,
    Lt,
    Le,
    Ne,
    Ge,
    Gt,
}

#[derive(Clone, Copy, Debug, PartialEq, Eq, Structural)]
pub enum UnOp {
    Uniq,
    Deref,
    Not,
    Neg,
}

#[derive(Clone, Copy, Debug, PartialEq, Eq, Structural)]
pub enum Unsafety {
    Normal,
    Unsafe,
}

#[derive(Debug, PartialEq, Eq)]
pub struct Block {
    pub id: NodeId,
    pub rules: Unsafety,
    pub stmts: Vec<Stmt>,
    pub expr: Option<Box<Expr>>,
}

#[derive(Debug, PartialEq, Eq)]
pub enum Stmt {
    Decl(Decl),
    /// An expression without a trailing semicolon.
    Expr(Expr),
    /// An expression with a trailing semicolon.
    Semi(Expr),
    /// A macro in statement position.
    Mac,
}

#[derive(Debug, PartialEq, Eq)]
pub enum Decl {
    Local(Local),
    /// An item declared inside a block. It is translated where the
    /// program lists it, not here.
    Item,
}

#[derive(Debug, PartialEq, Eq)]
pub struct Local {
    pub id: NodeId,
    pub pat: Pat,
    pub init: Option<Expr>,
}

/// A field of a struct literal.
#[derive(Debug, PartialEq, Eq)]
pub struct Field {
    pub ident: String,
    pub expr: Expr,
}

#[derive(Debug, PartialEq, Eq)]
pub struct Arm {
    pub pats: Vec<Pat>,
    pub guard: Option<Expr>,
    pub body: Expr,
}

#[derive(Debug, PartialEq, Eq)]
pub struct Pat {
    pub id: NodeId,
    pub kind: PatKind,
}

#[derive(Debug, PartialEq, Eq)]
pub enum PatKind {
    /// A single wildcard.
    Wild,
    /// An identifier, with the pattern it binds if there is one.
    Ident(String, Option<Box<Pat>>),
    /// A path with the patterns of its arguments, if it lists them.
    Enum(Option<Vec<Pat>>),
    Tup(Vec<Pat>),
    Lit(Box<Expr>),
    /// Any other pattern.
    Other,
}

#[derive(Debug, PartialEq, Eq)]
pub struct Expr {
    pub id: NodeId,
    pub kind: ExprKind,
}

#[derive(Debug, PartialEq, Eq)]
pub enum ExprKind {
    /// A call of the callee with arguments.
    Call(Box<Expr>, Vec<Expr>),
    /// A method call: the number of explicit type arguments, then the
    /// receiver and the other arguments.
    MethodCall(usize, Vec<Expr>),
    Tup(Vec<Expr>),
    Binary(BinOp, Box<Expr>, Box<Expr>),
    Unary(UnOp, Box<Expr>),
    Lit(Lit),
    Cast(Box<Expr>, SourceTy),
    If(Box<Expr>, Box<Block>, Option<Box<Expr>>),
    Match(Box<Expr>, Vec<Arm>),
    Block(Box<Block>),
    Assign(Box<Expr>, Box<Expr>),
    /// Access to the named field of a value.
    Field(Box<Expr>, String),
    Index(Box<Expr>, Box<Expr>),
    Range,
    /// A path, known by the identifier of its last segment.
    Path(String),
    AddrOf(Mutability, Box<Expr>),
    Ret(Option<Box<Expr>>),
    /// A struct literal: its fields and its base struct, if it has one.
    Struct(Vec<Field>, Option<Box<Expr>>),
    Paren(Box<Expr>),
    /// Any other expression.
    Other,
}

/// The lifetime and type parameters that a definition declares: the
/// identity of each lifetime, and the number of type parameters.
#[derive(Debug, PartialEq, Eq)]
pub struct Generics {
    pub lifetimes: Vec<NodeId>,
    pub ty_params: usize,
}

/// A parameter of a function.
#[derive(Debug, PartialEq, Eq)]
pub struct Arg {
    pub pat: Pat,
    pub ty: SourceTy,
}

#[derive(Clone, Copy, Debug, PartialEq, Eq, Structural)]
pub enum FunctionRetTy {
    Return(SourceTy),
    /// The function does not return.
    NoReturn,
    /// No return type is written.
    DefaultReturn,
}

#[derive(Debug, PartialEq, Eq)]
pub struct FnDecl {
    pub inputs: Vec<Arg>,
    pub output: FunctionRetTy,
}

#[derive(Debug, PartialEq, Eq)]
pub struct StructField {
    /// The name of the field, if it has one.
    pub ident: Option<String>,
    pub ty: SourceTy,
}

#[derive(Debug, PartialEq, Eq)]
pub enum VariantKind {
    /// A variant with positional fields.
    Tuple(Vec<SourceTy>),
    /// A variant with named fields.
    Struct,
}

#[derive(Debug, PartialEq, Eq)]
pub struct Variant {
    pub id: NodeId,
    pub kind: VariantKind,
}

/// The parameters on the last segment of a path.
#[derive(Debug, PartialEq, Eq)]
pub enum PathParameters {
    AngleBracketed(Vec<Lifetime>, Vec<SourceTy>),
    Parenthesized,
}

/// A reference to a trait in the header of an implementation.
#[derive(Debug, PartialEq, Eq)]
pub struct TraitRef {
    pub ref_id: NodeId,
    pub parameters: PathParameters,
}

/// How a method names its receiver.
#[derive(Debug, PartialEq, Eq)]
pub enum ExplicitSelf {
    /// No receiver.
    Static,
    /// By value.
    Value(String),
    /// By reference, with a lifetime if one is written.
    Region(Option<Lifetime>, Mutability, String),
    /// With its type spelled out.
    Explicit(SourceTy, String),
}

#[derive(Debug, PartialEq, Eq)]
pub enum MethodKind {
    Decl(String, Generics, ExplicitSelf, Unsafety, FnDecl, Block),
    /// A method given by a macro.
    Mac,
}

#[derive(Debug, PartialEq, Eq)]
pub struct Method {
    pub id: NodeId,
    pub kind: MethodKind,
}

/// A member of an implementation block.
#[derive(Debug, PartialEq, Eq)]
pub enum ImplItem {
    Method(Method),
    /// An associated type: its node, its name and the type it stands for.
    Type(NodeId, String, SourceTy),
}

/// An item of a foreign block.
#[derive(Debug, PartialEq, Eq)]
pub enum ForeignItem {
    Fn(NodeId, FnDecl, Generics),
    Static(NodeId),
}

/// An implementation block: its generics, the trait it implements if any,
/// the type it is for, and its members.
#[derive(Debug, PartialEq, Eq)]
pub struct Impl {
    pub generics: Generics,
    pub trait_ref: Option<TraitRef>,
    pub self_ty: SourceTy,
    pub items: Vec<ImplItem>,
}

#[derive(Debug, PartialEq, Eq)]
pub enum ItemKind {
    Struct(Vec<StructField>, Generics),
    Enum(Vec<Variant>, Generics),
    Fn(FnDecl, Unsafety, Generics, Block),
    Impl(Impl),
    Const(SourceTy, Expr),
    /// A foreign block: the name of its calling convention and its items.
    ForeignMod(String, Vec<ForeignItem>),
    /// Any other item.
    Other,
}

#[derive(Debug, PartialEq, Eq)]
pub struct Item {
    pub id: NodeId,
    pub kind: ItemKind,
}

} // verus!
