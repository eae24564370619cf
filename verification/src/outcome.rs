//! What translating a piece of the program amounts to: its text, whether it
//! fails, and which abstract entities it makes the context observe.

use vstd::prelude::*;
use vstd::string::*;
use crate::errors::TransError;
use crate::registry::{Entry, Log};
use crate::text::{decimal, decimal_string};

verus! {

/// What a translation does besides producing text.
pub struct Effect {
    /// The failure that stops the translation, if it fails.
    pub failure: Option<TransError>,
    /// The abstract functions observed, in the order of observation.
    pub fns: Log,
    /// The abstract types observed, in the order of observation.
    pub types: Log,
}

/// The text of a translation together with its effect. The text means
/// nothing where the effect is a failure.
pub struct Outcome {
    pub text: Seq<char>,
    pub effect: Effect,
}

impl Effect {
    /// Success without observations.
    pub open spec fn none() -> Effect {
        Effect { failure: None, fns: Log::Nil, types: Log::Nil }
    }

    /// Whether the result `r` of a step without observations is a failure.
    pub open spec fn check<T>(r: Result<T, TransError>) -> Effect {
        Effect {
            failure: match r {
                Ok(_) => None,
                Err(e) => Some(e),
            },
            fns: Log::Nil,
            types: Log::Nil,
        }
    }

    /// An immediate failure.
    pub open spec fn fail(e: TransError) -> Effect {
        Effect { failure: Some(e), fns: Log::Nil, types: Log::Nil }
    }

    /// The observation of one abstract function.
    pub open spec fn saw_fn(e: Entry) -> Effect {
        Effect { failure: None, fns: Log::One(e), types: Log::Nil }
    }

    /// The observation of one abstract type.
    pub open spec fn saw_type(e: Entry) -> Effect {
        Effect { failure: None, fns: Log::Nil, types: Log::One(e) }
    }

    /// This effect followed by `next`, which takes place only if this one
    /// is no failure.
    pub open spec fn followed_by(self, next: Effect) -> Effect {
        if self.failure is Some {
            self
        } else {
            Effect {
                failure: next.failure,
                fns: self.fns.and(next.fns),
                types: self.types.and(next.types),
            }
        }
    }

    /// The effect `e` behind a step without observations whose result is
    /// `r`: if that step fails, nothing else takes place.
    pub open spec fn guarded<T>(r: Result<T, TransError>, e: Effect) -> Effect {
        match r {
            Ok(_) => e,
            Err(x) => Effect::fail(x),
        }
    }
}

/// The effects of `parts` one after the other.
pub open spec fn effects_of(parts: Seq<Outcome>) -> Effect
    decreases parts.len(),
{
    if parts.len() == 0 {
        Effect::none()
    } else {
        effects_of(parts.drop_last()).followed_by(parts.last().effect)
    }
}

/// The texts of `parts`.
pub open spec fn texts_of(parts: Seq<Outcome>) -> Seq<Seq<char>> {
    parts.map_values(|o: Outcome| o.text)
}

/// Every text of `texts` with a space before it.
pub open spec fn spaced(texts: Seq<Seq<char>>) -> Seq<char>
    decreases texts.len(),
{
    if texts.len() == 0 {
        Seq::empty()
    } else {
        spaced(texts.drop_last()) + " "@ + texts.last()
    }
}

/// The encoding of a sequence: the number of its items, then the items,
/// separated by single spaces.
pub open spec fn counted(texts: Seq<Seq<char>>) -> Seq<char> {
    decimal(texts.len()) + spaced(texts)
}

/// The outcome of translating a sequence whose items have the outcomes
/// `parts`.
pub open spec fn list_outcome(parts: Seq<Outcome>) -> Outcome {
    Outcome { text: counted(texts_of(parts)), effect: effects_of(parts) }
}

/// A pure outcome: `text`, or the failure of `r`.
pub open spec fn pure_outcome(r: Result<Seq<char>, TransError>) -> Outcome {
    Outcome {
        text: match r {
            Ok(t) => t,
            Err(_) => Seq::empty(),
        },
        effect: Effect::check(r),
    }
}

/// An outcome without observations, as a result.
pub open spec fn as_result(o: Outcome) -> Result<Seq<char>, TransError> {
    match o.effect.failure {
        Some(e) => Err(e),
        None => Ok(o.text),
    }
}

/// The views of the strings of `v`.
pub open spec fn views(v: Seq<String>) -> Seq<Seq<char>> {
    v.map_values(|s: String| s@)
}

/// The views of a sequence with one more string are the views of the
/// sequence with one more view.
pub proof fn views_push(v: Seq<String>, s: String)
    ensures
        views(v.push(s)) == views(v).push(s@),
{
    assert(views(v.push(s)) =~= views(v).push(s@));
}

/// The result `r` as contracts speak of it.
pub open spec fn text_of(r: Result<String, TransError>) -> Result<Seq<char>, TransError> {
    match r {
        Ok(s) => Ok(s@),
        Err(e) => Err(e),
    }
}

pub proof fn effects_step(parts: Seq<Outcome>, i: int)
    requires
        0 <= i < parts.len(),
    ensures
        effects_of(parts.take(i + 1)) == effects_of(parts.take(i)).followed_by(parts[i].effect),
        texts_of(parts.take(i + 1)) == texts_of(parts.take(i)).push(parts[i].text),
{
    assert(parts.take(i + 1).drop_last() =~= parts.take(i));
    assert(texts_of(parts.take(i + 1)) =~= texts_of(parts.take(i)).push(parts[i].text));
}

/// Once a part has failed, the parts after it change nothing.
pub proof fn effects_stop(parts: Seq<Outcome>, i: int)
    requires
        0 <= i <= parts.len(),
        effects_of(parts.take(i)).failure is Some,
    ensures
        effects_of(parts) == effects_of(parts.take(i)),
    decreases parts.len() - i,
{
    if i == parts.len() {
        assert(parts.take(i) =~= parts);
    } else {
        effects_step(parts, i);
        effects_stop(parts, i + 1);
    }
}

/// The encoding of a sequence of already translated items.
pub fn counted_list(items: &Vec<String>) -> (r: String)
    ensures
        r@ == counted(views(items@)),
{
    let mut out = decimal_string(items.len() as u64);
    let ghost texts = views(items@);
    let mut i: usize = 0;
    assert(texts.take(0) =~= Seq::<Seq<char>>::empty());
    assert(out@ =~= decimal(texts.len()) + spaced(texts.take(0)));
    while i < items.len()
        invariant
            i <= items.len(),
            texts == views(items@),
            out@ == decimal(texts.len()) + spaced(texts.take(i as int)),
        decreases items.len() - i,
    {
        out.append(" ");
        out.append(items[i].as_str());
        proof {
            assert(texts.take(i + 1).drop_last() =~= texts.take(i as int));
            assert(texts.take(i + 1).last() == items@[i as int]@);
            assert(out@ =~= decimal(texts.len()) + spaced(texts.take(i + 1)));
        }
        i += 1;
    }
    assert(texts.take(i as int) =~= texts);
    out
}

} // verus!
