//! The field-level delegate marker `parent`, which takes no arguments.
use vstd::prelude::*;
use crate::args::{malformed, malformed_error};
use crate::decl::{Item, ItemV};
use crate::error::{DirectiveError, ErrorV, Family};
use crate::generate::Generate;
use crate::tokens::{Token, TokenV, view_tokens};

verus! {

/// Marks the field that a delegation directive resolves its type to.
#[derive(Clone, Copy, Debug, PartialEq, Eq, Structural)]
pub struct ParentAttribute {}

/// The marker's arguments must be empty.
pub open spec fn parent_of(s: Seq<TokenV>) -> Result<ParentAttribute, ErrorV> {
    if s.len() == 0 {
        Ok(ParentAttribute {})
    } else {
        Err(malformed(Family::Parent, s))
    }
}

impl ParentAttribute {
    /// Reads the arguments of a delegate marker.
    pub fn parse(toks: &Vec<Token>) -> (r: Result<Self, DirectiveError>)
        ensures
            match r {
                Ok(p) => parent_of(view_tokens(toks@)) == Ok::<ParentAttribute, ErrorV>(p),
                Err(e) => parent_of(view_tokens(toks@)) == Err::<ParentAttribute, ErrorV>(e@),
            },
    {
        if toks.len() == 0 {
            Ok(ParentAttribute {})
        } else {
            Err(malformed_error(Family::Parent, toks.as_slice()))
        }
    }
}

} // verus!

verus! {

impl Generate for ParentAttribute {
    open spec fn generated(&self, input: ItemV) -> Result<Seq<TokenV>, ErrorV> {
        Ok(Seq::empty())
    }

    open spec fn appends(&self) -> bool {
        true
    }

    /// A field-level marker generates nothing by itself: the struct-level
    /// directive reads it.
    fn generate(&mut self, input: &Item) -> (r: Result<Vec<Token>, DirectiveError>) {
        let out: Vec<Token> = Vec::new();
        assert(view_tokens(out@) =~= Seq::<TokenV>::empty());
        Ok(out)
    }

    fn auto_append(&self) -> (r: bool) {
        true
    }
}

} // verus!
