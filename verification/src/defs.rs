//! Identities shared by every part of the translation.

use vstd::prelude::*;

verus! {

/// The unit that holds the definitions of the program under translation.
pub const LOCAL_CRATE: u32 = 0;

/// Identity of a node of the syntax tree.
pub type NodeId = u32;

/// Identity of a definition: the unit it comes from and its index there.
#[derive(Clone, Copy, Debug, PartialEq, Eq, Structural)]
pub struct DefId {
    pub krate: u32,
    pub node: u32,
}

impl DefId {
    /// The number under which tables file this definition.
    pub open spec fn spec_key(self) -> u64 {
        (self.krate * 0x1_0000_0000 + self.node) as u64
    }

    /// The number under which tables file this definition.
    #[verifier::when_used_as_spec(spec_key)]
    pub fn key(self) -> (k: u64)
        ensures
            k == self.spec_key(),
    {
        self.krate as u64 * 0x1_0000_0000 + self.node as u64
    }

    /// Two definitions are filed under one number only if they are the same.
    pub proof fn key_injective(a: DefId, b: DefId)
        ensures
            a.spec_key() == b.spec_key() <==> a == b,
    {
    }

    /// The definition that the node `node` of the translated program makes.
    pub fn local(node: NodeId) -> (d: DefId)
        ensures
            d == (DefId { krate: LOCAL_CRATE, node }),
    {
        DefId { krate: LOCAL_CRATE, node }
    }
}

/// The space a generic parameter belongs to.
#[derive(Clone, Copy, Debug, PartialEq, Eq, Structural)]
pub enum ParamSpace {
    /// Parameters of a type or of an implementation block.
    Type,
    /// The implicit self parameter of a trait.
    SelfSpace,
    /// Parameters of a function or method.
    Function,
}

} // verus!
