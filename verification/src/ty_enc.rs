//! The canonical encoding of resolved types, substitutions and regions.

use vstd::prelude::*;
use vstd::string::*;
use crate::context::{advanced, delivers, list_step, TransCtxt};
use crate::defs::ParamSpace;
use crate::ast::SourceTy;
use crate::errors::{Construct, Table, TransError};
use crate::mangle::{mangled_def_name, mangled_name};
use crate::outcome::{
    as_result, counted_list, effects_of, effects_step, effects_stop, list_outcome, pure_outcome,
    text_of, texts_of, views, Effect, Outcome,
};
use crate::registry::Entry;
use crate::tables::{lookup, Tables};
use crate::text::{decimal, push_decimal};
use crate::types::{BoundRegion, FloatWidth, IntWidth, Mutability, Region, RegionSubsts, Substs, Ty};

verus! {

/// The prefix of the positional names of the parameters of a space.
pub open spec fn space_text(s: ParamSpace) -> Seq<char> {
    match s {
        ParamSpace::Type => "t_"@,
        ParamSpace::SelfSpace => "s_"@,
        ParamSpace::Function => "f_"@,
    }
}

/// The number of bits that an integer width is encoded with. The width of
/// the platform counts as 32.
pub open spec fn int_bits(w: IntWidth) -> nat {
    match w {
        IntWidth::W8 => 8,
        IntWidth::W16 => 16,
        IntWidth::W32 => 32,
        IntWidth::W64 => 64,
        IntWidth::Native => 32,
    }
}

pub open spec fn float_bits(w: FloatWidth) -> nat {
    match w {
        FloatWidth::W32 => 32,
        FloatWidth::W64 => 64,
    }
}

/// The tag of a reference type.
pub open spec fn ref_tag(m: Mutability) -> Seq<char> {
    match m {
        Mutability::Mutable => "ref_mut"@,
        Mutability::Immutable => "ref"@,
    }
}

/// The tag of a raw pointer type.
pub open spec fn ptr_tag(m: Mutability) -> Seq<char> {
    match m {
        Mutability::Mutable => "ptr_mut"@,
        Mutability::Immutable => "ptr"@,
    }
}

/// The encoding of a bound region.
pub open spec fn bound_region_text(br: BoundRegion) -> Result<Seq<char>, TransError> {
    match br {
        BoundRegion::Anon(i) => Ok("r_anon_"@ + decimal(i as nat)),
        BoundRegion::Named(d) => Ok(
            "r_named_"@ + decimal(d.krate as nat) + "_"@ + decimal(d.node as nat),
        ),
        BoundRegion::Other => Err(TransError::Unsupported(Construct::BoundRegionKind)),
    }
}

/// The encoding of a region.
pub open spec fn region_text(r: Region) -> Result<Seq<char>, TransError> {
    match r {
        Region::EarlyBound(id) => Ok("r_named_0_"@ + decimal(id as nat)),
        Region::LateBound(br) => bound_region_text(br),
        Region::Free(br) => bound_region_text(br),
        Region::Static => Ok("r_static"@),
        Region::Scope(id) => Ok("r_scope_"@ + decimal(id as nat)),
        Region::Other => Err(TransError::Unsupported(Construct::RegionKind)),
    }
}

/// The outcomes of encoding each region of `rs`.
pub open spec fn region_outcomes(rs: Seq<Region>) -> Seq<Outcome> {
    Seq::new(rs.len(), |i: int| pure_outcome(region_text(rs[i])))
}

/// The encoding of the regions of a substitution.
pub open spec fn region_substs_text(rs: RegionSubsts) -> Result<Seq<char>, TransError> {
    match rs {
        RegionSubsts::Erased => Err(TransError::Unsupported(Construct::ErasedRegions)),
        RegionSubsts::NonErased(v) => as_result(list_outcome(region_outcomes(v@))),
    }
}

/// The outcomes of encoding each type of `ts`.
pub open spec fn tys_outcomes(tables: &Tables, ns: Seq<char>, ts: Seq<Ty>) -> Seq<Outcome>
    decreases ts,
{
    Seq::new(
        ts.len(),
        |i: int|
            if 0 <= i < ts.len() {
                ty_outcome(tables, ns, ts[i])
            } else {
                pure_outcome(Ok(Seq::empty()))
            },
    )
}

/// The outcome of encoding a substitution: its regions, then its types,
/// each as a sequence.
#[verifier::opaque]
pub open spec fn substs_outcome(tables: &Tables, ns: Seq<char>, s: Substs) -> Outcome
    decreases s,
{
    let r = region_substs_text(s.regions);
    let t = list_outcome(tys_outcomes(tables, ns, s.types@));
    Outcome { text: r->Ok_0 + " "@ + t.text, effect: Effect::guarded(r, t.effect) }
}

/// The name under which the associated type `item` of the trait named
/// `trait_name` is registered.
pub open spec fn projection_name(trait_name: Seq<char>, item: Seq<char>) -> Seq<char> {
    trait_name + "_"@ + item
}

/// The outcome of encoding a type. Encoding the projection of an associated
/// type makes the context observe an abstract type.
#[verifier::opaque]
pub open spec fn ty_outcome(tables: &Tables, ns: Seq<char>, t: Ty) -> Outcome
    decreases t,
{
    match t {
        Ty::Bool => pure_outcome(Ok("[bool]"@)),
        Ty::Char => pure_outcome(Ok("[char]"@)),
        Ty::Int(w) => pure_outcome(Ok("[int "@ + decimal(int_bits(w)) + "]"@)),
        Ty::Uint(w) => pure_outcome(Ok("[uint "@ + decimal(int_bits(w)) + "]"@)),
        Ty::Float(w) => pure_outcome(Ok("[float "@ + decimal(float_bits(w)) + "]"@)),
        Ty::Adt(d, substs) => {
            let name = mangled_name(tables, ns, d);
            let s = substs_outcome(tables, ns, substs);
            Outcome {
                text: "[adt "@ + name->Ok_0 + " "@ + s.text + "]"@,
                effect: Effect::guarded(name, s.effect),
            }
        },
        Ty::Str => pure_outcome(Ok("[str]"@)),
        Ty::Slice(elem) => {
            let e = ty_outcome(tables, ns, *elem);
            Outcome { text: "[vec "@ + e.text + "]"@, effect: e.effect }
        },
        Ty::Array(elem, len) => {
            let e = ty_outcome(tables, ns, *elem);
            Outcome {
                text: "[fixed_vec "@ + decimal(len as nat) + " "@ + e.text + "]"@,
                effect: e.effect,
            }
        },
        Ty::RawPtr(m, to) => {
            let e = ty_outcome(tables, ns, *to);
            Outcome { text: "["@ + ptr_tag(m) + " "@ + e.text + "]"@, effect: e.effect }
        },
        Ty::Ref(r, m, to) => {
            let region = region_text(r);
            let e = ty_outcome(tables, ns, *to);
            Outcome {
                text: "["@ + ref_tag(m) + " "@ + region->Ok_0 + " "@ + e.text + "]"@,
                effect: Effect::guarded(region, e.effect),
            }
        },
        Ty::Tuple(ts) => {
            if ts@.len() == 0 {
                pure_outcome(Ok("[unit]"@))
            } else {
                let l = list_outcome(tys_outcomes(tables, ns, ts@));
                Outcome { text: "[tuple "@ + l.text + "]"@, effect: l.effect }
            }
        },
        Ty::Projection(trait_did, substs, item) => {
            let trait_name = mangled_name(tables, ns, trait_did);
            let name = projection_name(trait_name->Ok_0, item@);
            let s = substs_outcome(tables, ns, substs);
            Outcome {
                text: "[abstract "@ + name + " "@ + s.text + "]"@,
                effect: Effect::guarded(
                    trait_name,
                    Effect::saw_type(Entry { name, def: trait_did }).followed_by(s.effect),
                ),
            }
        },
        Ty::Param(space, idx) => pure_outcome(
            Ok("[var "@ + space_text(space) + decimal(idx as nat) + "]"@),
        ),
        Ty::Other => pure_outcome(Err(TransError::Unsupported(Construct::TypeKind))),
    }
}

/// The outcome of encoding a type written in the source: the encoding of
/// the type it was resolved to.
pub open spec fn source_ty_outcome(tables: &Tables, ns: Seq<char>, t: SourceTy) -> Outcome {
    if tables.source_types@.contains_key(t.id) {
        ty_outcome(tables, ns, tables.source_types@[t.id])
    } else {
        pure_outcome(Err(TransError::Missing(Table::SourceTypes)))
    }
}

impl SourceTy {
    /// Encodes a type written in the source.
    pub fn trans(&self, tables: &Tables, ctx: &mut TransCtxt) -> (r: Result<String, TransError>)
        ensures
            delivers(*old(ctx), *final(ctx), r, source_ty_outcome(tables, old(ctx).ns(), *self)),
    {
        match lookup(&tables.source_types, self.id) {
            Some(t) => t.trans(tables, ctx),
            None => Err(TransError::Missing(Table::SourceTypes)),
        }
    }
}

impl ParamSpace {
    /// The prefix of the positional names of the parameters of this space.
    pub fn trans(self) -> (r: &'static str)
        ensures
            r@ == space_text(self),
    {
        match self {
            ParamSpace::Type => "t_",
            ParamSpace::SelfSpace => "s_",
            ParamSpace::Function => "f_",
        }
    }
}

impl Mutability {
    /// The tag of a reference of this mutability.
    pub fn ref_tag(self) -> (r: &'static str)
        ensures
            r@ == ref_tag(self),
    {
        match self {
            Mutability::Mutable => "ref_mut",
            Mutability::Immutable => "ref",
        }
    }

    /// The tag of a raw pointer of this mutability.
    pub fn ptr_tag(self) -> (r: &'static str)
        ensures
            r@ == ptr_tag(self),
    {
        match self {
            Mutability::Mutable => "ptr_mut",
            Mutability::Immutable => "ptr",
        }
    }
}

impl IntWidth {
    /// The number of bits this width is encoded with.
    pub fn bits(self) -> (n: u64)
        ensures
            n == int_bits(self),
    {
        match self {
            IntWidth::W8 => 8,
            IntWidth::W16 => 16,
            IntWidth::W32 => 32,
            IntWidth::W64 => 64,
            IntWidth::Native => 32,
        }
    }
}

impl FloatWidth {
    /// The number of bits of this width.
    pub fn bits(self) -> (n: u64)
        ensures
            n == float_bits(self),
    {
        match self {
            FloatWidth::W32 => 32,
            FloatWidth::W64 => 64,
        }
    }
}

impl BoundRegion {
    /// Encodes a bound region.
    pub fn trans_extra(&self) -> (r: Result<String, TransError>)
        ensures
            text_of(r) == bound_region_text(*self),
    {
        match self {
            BoundRegion::Anon(i) => {
                let mut out = String::from_str("r_anon_");
                push_decimal(&mut out, *i as u64);
                Ok(out)
            },
            BoundRegion::Named(d) => {
                let mut out = String::from_str("r_named_");
                push_decimal(&mut out, d.krate as u64);
                out.append("_");
                push_decimal(&mut out, d.node as u64);
                Ok(out)
            },
            BoundRegion::Other => Err(TransError::Unsupported(Construct::BoundRegionKind)),
        }
    }
}

impl Region {
    /// Encodes a region.
    pub fn trans(&self) -> (r: Result<String, TransError>)
        ensures
            text_of(r) == region_text(*self),
    {
        match self {
            Region::EarlyBound(id) => {
                let mut out = String::from_str("r_named_0_");
                push_decimal(&mut out, *id as u64);
                Ok(out)
            },
            Region::LateBound(br) => br.trans_extra(),
            Region::Free(br) => br.trans_extra(),
            Region::Static => Ok(String::from_str("r_static")),
            Region::Scope(id) => {
                let mut out = String::from_str("r_scope_");
                push_decimal(&mut out, *id as u64);
                Ok(out)
            },
            Region::Other => Err(TransError::Unsupported(Construct::RegionKind)),
        }
    }
}

/// Encodes a sequence of regions.
pub fn trans_regions(rs: &Vec<Region>) -> (r: Result<String, TransError>)
    ensures
        text_of(r) == as_result(list_outcome(region_outcomes(rs@))),
{
    let ghost parts = region_outcomes(rs@);
    let mut strs: Vec<String> = Vec::new();
    let mut i: usize = 0;
    assert(parts.take(0) =~= Seq::<Outcome>::empty());
    assert(views(strs@) =~= texts_of(parts.take(0)));
    while i < rs.len()
        invariant
            i <= rs.len(),
            parts == region_outcomes(rs@),
            effects_of(parts.take(i as int)).failure is None,
            views(strs@) == texts_of(parts.take(i as int)),
        decreases rs.len() - i,
    {
        let r = rs[i].trans();
        proof {
            effects_step(parts, i as int);
        }
        match r {
            Ok(s) => {
                strs.push(s);
                assert(views(strs@) =~= texts_of(parts.take(i + 1)));
            },
            Err(e) => {
                proof {
                    effects_stop(parts, i + 1);
                }
                return Err(e);
            },
        }
        i += 1;
    }
    assert(parts.take(i as int) =~= parts);
    Ok(counted_list(&strs))
}

impl RegionSubsts {
    /// Encodes the regions of a substitution.
    pub fn trans(&self) -> (r: Result<String, TransError>)
        ensures
            text_of(r) == region_substs_text(*self),
    {
        match self {
            RegionSubsts::Erased => Err(TransError::Unsupported(Construct::ErasedRegions)),
            RegionSubsts::NonErased(v) => trans_regions(v),
        }
    }
}

/// Encodes a sequence of types.
pub fn trans_tys(tables: &Tables, ctx: &mut TransCtxt, ts: &Vec<Ty>) -> (r: Result<
    String,
    TransError,
>)
    ensures
        delivers(*old(ctx), *final(ctx), r, list_outcome(tys_outcomes(tables, old(ctx).ns(), ts@))),
    decreases ts, 0nat,
{
    let ghost c0 = *ctx;
    let ghost parts = tys_outcomes(tables, ctx.ns(), ts@);
    let mut strs: Vec<String> = Vec::new();
    let mut i: usize = 0;
    assert(parts.take(0) =~= Seq::<Outcome>::empty());
    assert(views(strs@) =~= texts_of(parts.take(0)));
    while i < ts.len()
        invariant
            i <= ts.len(),
            c0 == *old(ctx),
            parts == tys_outcomes(tables, c0.ns(), ts@),
            advanced(c0, *ctx, effects_of(parts.take(i as int))),
            effects_of(parts.take(i as int)).failure is None,
            views(strs@) == texts_of(parts.take(i as int)),
        decreases ts.len() - i,
    {
        let ghost ci = *ctx;
        let r = ts[i].trans(tables, ctx);
        proof {
            reveal_with_fuel(ty_outcome, 1);
            list_step(c0, ci, *ctx, parts, i as int, r);
        }
        match r {
            Ok(s) => {
                strs.push(s);
                assert(views(strs@) =~= texts_of(parts.take(i + 1)));
            },
            Err(e) => {
                return Err(e);
            },
        }
        i += 1;
    }
    assert(parts.take(i as int) =~= parts);
    Ok(counted_list(&strs))
}

impl Substs {
    /// Encodes a substitution.
    pub fn trans(&self, tables: &Tables, ctx: &mut TransCtxt) -> (r: Result<String, TransError>)
        ensures
            delivers(*old(ctx), *final(ctx), r, substs_outcome(tables, old(ctx).ns(), *self)),
        decreases self, 1nat,
    {
        reveal_with_fuel(substs_outcome, 1);
        reveal_with_fuel(ty_outcome, 1);
        let mut out = self.regions.trans()?;
        let types = trans_tys(tables, ctx, &self.types)?;
        out.append(" ");
        out.append(types.as_str());
        Ok(out)
    }
}

/// Encodes the type of a reference with the given region and mutability to
/// a value of type `to`.
pub fn trans_ref_to(
    tables: &Tables,
    ctx: &mut TransCtxt,
    region: &Region,
    m: Mutability,
    to: &Ty,
) -> (r: Result<String, TransError>)
    ensures
        delivers(
            *old(ctx),
            *final(ctx),
            r,
            ty_outcome(tables, old(ctx).ns(), Ty::Ref(*region, m, Box::new(*to))),
        ),
    decreases to, 1nat,
{
    reveal_with_fuel(ty_outcome, 1);
    let rt = region.trans()?;
    let inner = to.trans(tables, ctx)?;
    let mut out = String::from_str("[");
    out.append(m.ref_tag());
    out.append(" ");
    out.append(rt.as_str());
    out.append(" ");
    out.append(inner.as_str());
    out.append("]");
    Ok(out)
}

/// Encodes the type of a raw pointer of the given mutability to a value of
/// type `to`.
pub fn trans_ptr_to(tables: &Tables, ctx: &mut TransCtxt, m: Mutability, to: &Ty) -> (r: Result<
    String,
    TransError,
>)
    ensures
        delivers(
            *old(ctx),
            *final(ctx),
            r,
            ty_outcome(tables, old(ctx).ns(), Ty::RawPtr(m, Box::new(*to))),
        ),
    decreases to, 1nat,
{
    reveal_with_fuel(ty_outcome, 1);
    let inner = to.trans(tables, ctx)?;
    let mut out = String::from_str("[");
    out.append(m.ptr_tag());
    out.append(" ");
    out.append(inner.as_str());
    out.append("]");
    Ok(out)
}

impl Ty {
    /// Encodes a type.
    pub fn trans(&self, tables: &Tables, ctx: &mut TransCtxt) -> (r: Result<String, TransError>)
        ensures
            delivers(*old(ctx), *final(ctx), r, ty_outcome(tables, old(ctx).ns(), *self)),
        decreases self, 0nat,
    {
        reveal_with_fuel(ty_outcome, 1);
        reveal_with_fuel(substs_outcome, 1);
        match self {
            Ty::Bool => Ok(String::from_str("[bool]")),
            Ty::Char => Ok(String::from_str("[char]")),
            Ty::Int(w) => {
                let mut out = String::from_str("[int ");
                push_decimal(&mut out, w.bits());
                out.append("]");
                Ok(out)
            },
            Ty::Uint(w) => {
                let mut out = String::from_str("[uint ");
                push_decimal(&mut out, w.bits());
                out.append("]");
                Ok(out)
            },
            Ty::Float(w) => {
                let mut out = String::from_str("[float ");
                push_decimal(&mut out, w.bits());
                out.append("]");
                Ok(out)
            },
            Ty::Adt(d, substs) => {
                let name = mangled_def_name(tables, ctx.crate_name.as_str(), *d)?;
                let s = substs.trans(tables, ctx)?;
                let mut out = String::from_str("[adt ");
                out.append(name.as_str());
                out.append(" ");
                out.append(s.as_str());
                out.append("]");
                Ok(out)
            },
            Ty::Str => Ok(String::from_str("[str]")),
            Ty::Slice(elem) => {
                let e = elem.trans(tables, ctx)?;
                let mut out = String::from_str("[vec ");
                out.append(e.as_str());
                out.append("]");
                Ok(out)
            },
            Ty::Array(elem, len) => {
                let e = elem.trans(tables, ctx)?;
                let mut out = String::from_str("[fixed_vec ");
                push_decimal(&mut out, *len);
                out.append(" ");
                out.append(e.as_str());
                out.append("]");
                Ok(out)
            },
            Ty::RawPtr(m, to) => trans_ptr_to(tables, ctx, *m, to),
            Ty::Ref(r, m, to) => trans_ref_to(tables, ctx, r, *m, to),
            Ty::Tuple(ts) => {
                if ts.len() == 0 {
                    Ok(String::from_str("[unit]"))
                } else {
                    let l = trans_tys(tables, ctx, ts)?;
                    let mut out = String::from_str("[tuple ");
                    out.append(l.as_str());
                    out.append("]");
                    Ok(out)
                }
            },
            Ty::Projection(trait_did, substs, item) => {
                let mut name = mangled_def_name(tables, ctx.crate_name.as_str(), *trait_did)?;
                name.append("_");
                name.append(item.as_str());
                ctx.observe_type(name.clone(), *trait_did);
                let s = substs.trans(tables, ctx)?;
                let mut out = String::from_str("[abstract ");
                out.append(name.as_str());
                out.append(" ");
                out.append(s.as_str());
                out.append("]");
                Ok(out)
            },
            Ty::Param(space, idx) => {
                let mut out = String::from_str("[var ");
                out.append(space.trans());
                push_decimal(&mut out, *idx as u64);
                out.append("]");
                Ok(out)
            },
            Ty::Other => Err(TransError::Unsupported(Construct::TypeKind)),
        }
    }
}

} // verus!
