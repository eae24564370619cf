//! The query tables of an annotated program. The translation reads them and
//! never changes them.

use vstd::prelude::*;
use std::collections::HashMap;
use crate::defs::{DefId, NodeId, ParamSpace, LOCAL_CRATE};
use crate::types::{Mutability, Region, Substs, Ty};

verus! {

/// A table from definitions to facts about them.
pub struct DefTable<V> {
    map: HashMap<u64, V>,
}

impl<V> View for DefTable<V> {
    type V = Map<DefId, V>;

    closed spec fn view(&self) -> Map<DefId, V> {
        Map::new(
            |d: DefId| self.map@.contains_key(d.spec_key()),
            |d: DefId| self.map@[d.spec_key()],
        )
    }
}

impl<V> DefTable<V> {
    /// A table without entries.
    pub fn new() -> (t: DefTable<V>)
        ensures
            t@ == Map::<DefId, V>::empty(),
    {
        let t = DefTable { map: HashMap::new() };
        assert(t@ =~= Map::<DefId, V>::empty());
        t
    }

    /// Files `v` under `d`, in place of what was filed there.
    pub fn insert(&mut self, d: DefId, v: V)
        ensures
            final(self)@ == old(self)@.insert(d, v),
    {
        self.map.insert(d.key(), v);
        proof {
            assert forall|x: DefId| x != d implies x.spec_key() != d.spec_key() by {
                DefId::key_injective(x, d);
            }
            assert(self@ =~= old(self)@.insert(d, v));
        }
    }

    /// What is filed under `d`, if anything.
    pub fn get(&self, d: DefId) -> (r: Option<&V>)
        ensures
            r == (if self@.contains_key(d) {
                Some(&self@[d])
            } else {
                None
            }),
    {
        let k = d.key();
        self.map.get(&k)
    }
}

/// What a path or an identifier pattern resolves to.
#[derive(Clone, Copy, Debug, PartialEq, Eq, Structural)]
pub enum Def {
    /// A variant of an enum: the enum and the variant.
    Variant(DefId, DefId),
    /// A local variable, known by the node that binds it.
    Local(NodeId),
    /// A struct.
    Struct(DefId),
    /// A method called without a receiver; the flag tells whether it is
    /// reached through its trait instead of a definite implementation.
    StaticMethod(DefId, bool),
    /// Any other definition.
    Other(DefId),
}

impl Def {
    /// The definition that this resolution stands for.
    pub open spec fn spec_def_id(self) -> DefId {
        match self {
            Def::Variant(_, v) => v,
            Def::Local(id) => DefId { krate: LOCAL_CRATE, node: id },
            Def::Struct(d) => d,
            Def::StaticMethod(d, _) => d,
            Def::Other(d) => d,
        }
    }

    /// The definition that this resolution stands for.
    #[verifier::when_used_as_spec(spec_def_id)]
    pub fn def_id(self) -> (d: DefId)
        ensures
            d == self.spec_def_id(),
    {
        match self {
            Def::Variant(_, v) => v,
            Def::Local(id) => DefId::local(id),
            Def::Struct(d) => d,
            Def::StaticMethod(d, _) => d,
            Def::Other(d) => d,
        }
    }
}

/// How a method call finds its method.
#[derive(Clone, Copy, Debug, PartialEq, Eq, Structural)]
pub enum MethodOrigin {
    /// The method of a definite implementation.
    Static(DefId),
    /// A method of the trait that bounds a type parameter: the trait and
    /// the method's position among the trait's items.
    TypeParam(DefId, usize),
    /// Any other origin.
    Other,
}

/// The resolution of a method call or of an overloaded operator.
#[derive(Debug, PartialEq, Eq)]
pub struct MethodCallee {
    pub origin: MethodOrigin,
    pub substs: Substs,
}

/// An implicit re-borrow. The flag tells whether another re-borrow is
/// nested in it.
#[derive(Clone, Copy, Debug, PartialEq, Eq, Structural)]
pub enum AutoRef {
    /// To a reference with the given region and mutability.
    Ptr(Region, Mutability, bool),
    /// To a raw pointer.
    Unsafe(Mutability, bool),
    /// Any other re-borrow.
    Other,
}

/// An implicit coercion attached to an expression.
#[derive(Clone, Copy, Debug, PartialEq, Eq, Structural)]
pub enum Adjustment {
    /// A number of dereferences, then at most one re-borrow.
    DerefRef(usize, Option<AutoRef>),
    /// A function turned into a function pointer.
    ReifyFnPointer,
}

/// What a lifetime written in the source resolves to.
#[derive(Clone, Copy, Debug, PartialEq, Eq, Structural)]
pub enum DefRegion {
    Static,
    EarlyBound(NodeId),
    LateBound(NodeId),
    Free,
}

/// An item of a trait.
#[derive(Clone, Copy, Debug, PartialEq, Eq, Structural)]
pub enum TraitItemId {
    Method(DefId),
    Type(DefId),
}

/// A generic parameter as its definition declares it.
#[derive(Clone, Copy, Debug, PartialEq, Eq, Structural)]
pub struct ParamDef {
    pub space: ParamSpace,
    pub index: u32,
}

/// The generic parameters of a definition.
#[derive(Debug, PartialEq, Eq)]
pub struct TyGenerics {
    pub regions: Vec<ParamDef>,
    pub types: Vec<ParamDef>,
}

/// What a function returns.
#[derive(Debug, PartialEq, Eq)]
pub enum FnOutput {
    Converging(Ty),
    /// The function does not return normally.
    Diverging,
}

/// The declared signature of an item of a trait or implementation.
#[derive(Debug, PartialEq, Eq)]
pub enum Signature {
    Method(TyGenerics, Vec<Ty>, FnOutput),
    /// An associated type.
    Type,
}

/// Whether a type has a destructor.
#[derive(Clone, Copy, Debug, PartialEq, Eq, Structural)]
pub enum DtorKind {
    /// The type has none.
    NoDtor,
    /// The implementation that destroys values of the type.
    TraitDtor(DefId),
}

/// The query tables.
pub struct Tables {
    /// What each path or pattern node resolves to.
    pub def_map: HashMap<NodeId, Def>,
    /// The type of each expression, pattern, block and local.
    pub node_types: HashMap<NodeId, Ty>,
    /// The resolved type of each type written in the source.
    pub source_types: HashMap<NodeId, Ty>,
    /// The substitution recorded for a path node.
    pub item_substs: HashMap<NodeId, Substs>,
    /// The method that a method call or overloaded operator resolves to.
    pub method_map: HashMap<NodeId, MethodCallee>,
    /// The implicit coercion of an expression.
    pub adjustments: HashMap<NodeId, Adjustment>,
    /// What each lifetime written in the source resolves to.
    pub named_regions: HashMap<NodeId, DefRegion>,
    /// The segments of the path at which a definition is declared.
    pub paths: DefTable<Vec<String>>,
    /// The items of each trait, in declaration order.
    pub trait_items: DefTable<Vec<TraitItemId>>,
    /// The discriminant of each enum variant.
    pub discriminants: DefTable<u64>,
    /// The destructor implementation of each type that has one.
    pub dtors: DefTable<DefId>,
    /// The declared signature of each trait item.
    pub signatures: DefTable<Signature>,
    /// The generic parameters of each trait.
    pub trait_generics: DefTable<TyGenerics>,
}

impl Tables {
    /// Tables without entries.
    pub fn new() -> (t: Tables)
        ensures
            t.def_map@ == Map::<NodeId, Def>::empty(),
            t.node_types@ == Map::<NodeId, Ty>::empty(),
            t.source_types@ == Map::<NodeId, Ty>::empty(),
            t.item_substs@ == Map::<NodeId, Substs>::empty(),
            t.method_map@ == Map::<NodeId, MethodCallee>::empty(),
            t.adjustments@ == Map::<NodeId, Adjustment>::empty(),
            t.named_regions@ == Map::<NodeId, DefRegion>::empty(),
            t.paths@ == Map::<DefId, Vec<String>>::empty(),
            t.trait_items@ == Map::<DefId, Vec<TraitItemId>>::empty(),
            t.discriminants@ == Map::<DefId, u64>::empty(),
            t.dtors@ == Map::<DefId, DefId>::empty(),
            t.signatures@ == Map::<DefId, Signature>::empty(),
            t.trait_generics@ == Map::<DefId, TyGenerics>::empty(),
    {
        Tables {
            def_map: HashMap::new(),
            node_types: HashMap::new(),
            source_types: HashMap::new(),
            item_substs: HashMap::new(),
            method_map: HashMap::new(),
            adjustments: HashMap::new(),
            named_regions: HashMap::new(),
            paths: DefTable::new(),
            trait_items: DefTable::new(),
            discriminants: DefTable::new(),
            dtors: DefTable::new(),
            signatures: DefTable::new(),
            trait_generics: DefTable::new(),
        }
    }
}

impl Tables {
    /// The destructor of the type `d`.
    pub open spec fn spec_ty_dtor(&self, d: DefId) -> DtorKind {
        if self.dtors@.contains_key(d) {
            DtorKind::TraitDtor(self.dtors@[d])
        } else {
            DtorKind::NoDtor
        }
    }

    /// The destructor of the type `d`.
    #[verifier::when_used_as_spec(spec_ty_dtor)]
    pub fn ty_dtor(&self, d: DefId) -> (k: DtorKind)
        ensures
            k == self.spec_ty_dtor(d),
    {
        match self.dtors.get(d) {
            Some(dtor) => DtorKind::TraitDtor(*dtor),
            None => DtorKind::NoDtor,
        }
    }
}

/// What the table `m` holds for the node `id`, if anything.
pub fn lookup<'a, V>(m: &'a HashMap<NodeId, V>, id: NodeId) -> (r: Option<&'a V>)
    ensures
        r == (if m@.contains_key(id) {
            Some(&m@[id])
        } else {
            None
        }),
{
    m.get(&id)
}

} // verus!
