//! Declarative code synthesis for named structures: accessors, delegation
//! and reflection tables, driven by directives attached to a declaration.
use vstd::prelude::*;

pub mod tokens;
pub mod outside;
pub mod error;
pub mod args;
pub mod getter;
pub mod setter;
pub mod accessors;
pub mod fields;
pub mod decl;
pub mod parent;
pub mod extends;
pub mod root;
pub mod generate;
pub mod laws;

use crate::decl::{Item, ItemV, item_tokens};
use crate::error::{DirectiveError, ErrorV};
use crate::generate::{Generate, auto_output};
use crate::parent::{ParentAttribute, parent_of};
use crate::root::{RoopertAttribute, root_appends, root_generated, root_of};
use crate::tokens::{Token, TokenV, tokens_string, tokens_text, view_tokens};

verus! {

/// The text that replaces an item carrying `#[roopert(ARGS)]`, where `attr`
/// holds `ARGS`.
pub open spec fn expansion_of(attr: Seq<TokenV>, item: ItemV) -> Result<Seq<char>, ErrorV> {
    match root_of(attr) {
        Err(e) => Err(e),
        Ok(r) => match auto_output(root_generated(r, item), root_appends(r), item) {
            Ok(t) => Ok(tokens_text(t)),
            Err(e) => Err(e),
        },
    }
}

/// The text that replaces an item carrying the shorthand `#[parent(ARGS)]`.
pub open spec fn parent_expansion_of(attr: Seq<TokenV>, item: ItemV) -> Result<Seq<char>, ErrorV> {
    match parent_of(attr) {
        Err(e) => Err(e),
        Ok(_) => Ok(tokens_text(item_tokens(item))),
    }
}

/// Expands the umbrella directive: reads `attr`, generates from `item`, and
/// gives the source text that replaces the item.
pub fn roopert(attr: &Vec<Token>, item: &Item) -> (r: Result<String, DirectiveError>)
    ensures
        match r {
            Ok(s) => expansion_of(view_tokens(attr@), item@) == Ok::<Seq<char>, ErrorV>(s@),
            Err(e) => expansion_of(view_tokens(attr@), item@) == Err::<Seq<char>, ErrorV>(e@),
        },
{
    let mut a = RoopertAttribute::parse(attr)?;
    let out = a.generate_auto(item)?;
    Ok(tokens_string(out.as_slice()))
}

/// Expands the shorthand delegate marker, which leaves the item as it is.
pub fn parent(attr: &Vec<Token>, item: &Item) -> (r: Result<String, DirectiveError>)
    ensures
        match r {
            Ok(s) => parent_expansion_of(view_tokens(attr@), item@) == Ok::<Seq<char>, ErrorV>(s@),
            Err(e) => parent_expansion_of(view_tokens(attr@), item@) == Err::<Seq<char>, ErrorV>(e@),
        },
{
    let mut a = ParentAttribute::parse(attr)?;
    let out = a.generate_auto(item)?;
    assert(item_tokens(item@) + Seq::<TokenV>::empty() =~= item_tokens(item@));
    Ok(tokens_string(out.as_slice()))
}

} // verus!
