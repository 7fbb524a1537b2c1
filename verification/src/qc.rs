//! The kinds of contract item that quick-check guards are generated for.
use vstd::prelude::*;

verus! {

/// Rewrites contract assertions into quick-check guards; it keeps no
/// state.
pub struct QcAstRewriter {}

impl QcAstRewriter {
    pub fn new() -> (r: QcAstRewriter)
        ensures
            r == (QcAstRewriter {}),
    {
        QcAstRewriter {}
    }
}

/// The kind of a contract item.
#[derive(Clone, Copy, Debug, PartialEq, Eq, Structural)]
pub enum SpecItemType {
    Precondition,
    Postcondition,
    Predicate,
}

impl SpecItemType {
    /// The short name of the kind, as it appears in generated names.
    pub open spec fn label(self) -> Seq<char> {
        match self {
            SpecItemType::Precondition => "pre"@,
            SpecItemType::Postcondition => "post"@,
            SpecItemType::Predicate => "pred"@,
        }
    }

    /// The short name of the kind: `pre`, `post` or `pred`.
    pub fn to_string(&self) -> (r: String)
        ensures
            r@ == self.label(),
    {
        match self {
            SpecItemType::Precondition => String::from_str("pre"),
            SpecItemType::Postcondition => String::from_str("post"),
            SpecItemType::Predicate => String::from_str("pred"),
        }
    }
}

} // verus!
