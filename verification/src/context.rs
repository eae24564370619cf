//! The state that one translation run threads through every encoder.

use vstd::prelude::*;
use vstd::string::*;
use crate::defs::DefId;
use crate::errors::TransError;
use crate::outcome::{
    effects_of, effects_step, effects_stop, texts_of, views, Effect, Outcome,
};
use crate::registry::{replay, Entry, Registry};

verus! {

/// The translation context: the two registries of abstract entities and
/// the namespace that prefixes the names of local definitions.
pub struct TransCtxt {
    pub observed_abstract_fns: Registry,
    pub observed_abstract_types: Registry,
    pub crate_name: String,
}

impl TransCtxt {
    /// A context with empty registries.
    pub fn new(crate_name: String) -> (c: TransCtxt)
        ensures
            c.crate_name == crate_name,
            c.observed_abstract_fns.entries() == Seq::<Entry>::empty(),
            c.observed_abstract_types.entries() == Seq::<Entry>::empty(),
    {
        TransCtxt {
            observed_abstract_fns: Registry::new(),
            observed_abstract_types: Registry::new(),
            crate_name,
        }
    }

    /// The namespace as contracts speak of it.
    pub open spec fn ns(self) -> Seq<char> {
        self.crate_name@
    }

    /// Records the abstract function `name`, observed for `def`.
    pub fn observe_fn(&mut self, name: String, def: DefId)
        ensures
            advanced(*old(self), *final(self), Effect::saw_fn(Entry { name: name@, def })),
    {
        self.observed_abstract_fns.insert(name, def);
    }

    /// Records the abstract type `name`, observed for `def`.
    pub fn observe_type(&mut self, name: String, def: DefId)
        ensures
            advanced(*old(self), *final(self), Effect::saw_type(Entry { name: name@, def })),
    {
        self.observed_abstract_types.insert(name, def);
    }
}

/// The context `post` is `pre` after the effect `e` took place: the
/// namespace is the same, and the registries have recorded what `e`
/// observed, in its order.
pub open spec fn advanced(pre: TransCtxt, post: TransCtxt, e: Effect) -> bool {
    &&& post.crate_name@ == pre.crate_name@
    &&& post.observed_abstract_fns.entries() == replay(
        pre.observed_abstract_fns.entries(),
        e.fns,
    )
    &&& post.observed_abstract_types.entries() == replay(
        pre.observed_abstract_types.entries(),
        e.types,
    )
}

/// A translation step that started in `pre`, ended in `post` and returned
/// `r` did what `o` says: it failed exactly if `o` fails, with that
/// failure; it returned the text of `o` otherwise; and the context
/// recorded the observations of `o`.
pub open spec fn delivers(
    pre: TransCtxt,
    post: TransCtxt,
    r: Result<String, TransError>,
    o: Outcome,
) -> bool {
    &&& advanced(pre, post, o.effect)
    &&& match r {
        Ok(s) => o.effect.failure is None && s@ == o.text,
        Err(e) => o.effect.failure == Some(e),
    }
}

/// A step that translated each item of a sequence did what the outcomes
/// `parts` of the items say: it failed exactly if one of them fails, with
/// the first failure; it returned their texts otherwise; and the context
/// recorded their observations in order.
pub open spec fn delivers_each(
    pre: TransCtxt,
    post: TransCtxt,
    r: Result<Vec<String>, TransError>,
    parts: Seq<Outcome>,
) -> bool {
    &&& advanced(pre, post, effects_of(parts))
    &&& match r {
        Ok(v) => effects_of(parts).failure is None && views(v@) == texts_of(parts),
        Err(e) => effects_of(parts).failure == Some(e),
    }
}

/// One more item of a sequence has been translated: the context has
/// advanced by the items so far, and a failure of the item is the failure
/// of the sequence.
pub proof fn list_step(
    c0: TransCtxt,
    ci: TransCtxt,
    cj: TransCtxt,
    parts: Seq<Outcome>,
    i: int,
    r: Result<String, TransError>,
)
    requires
        0 <= i < parts.len(),
        advanced(c0, ci, effects_of(parts.take(i))),
        effects_of(parts.take(i)).failure is None,
        delivers(ci, cj, r, parts[i]),
    ensures
        advanced(c0, cj, effects_of(parts.take(i + 1))),
        r matches Ok(s) ==> effects_of(parts.take(i + 1)).failure is None && texts_of(
            parts.take(i + 1),
        ) == texts_of(parts.take(i)).push(s@),
        r matches Err(e) ==> advanced(c0, cj, effects_of(parts)) && effects_of(parts).failure
            == Some(e),
{
    effects_step(parts, i);
    if r is Err {
        effects_stop(parts, i + 1);
    }
}

} // verus!
