//! What every directive family does with the item it is attached to.
use vstd::prelude::*;
use crate::decl::{Item, ItemV, item_tokens, push_all, push_item};
use crate::error::{DirectiveError, ErrorV};
use crate::tokens::{Token, TokenV, view_tokens};

verus! {

/// Generated tokens, or the error, as views.
pub open spec fn view_output(r: Result<Vec<Token>, DirectiveError>) -> Result<Seq<TokenV>, ErrorV> {
    match r {
        Ok(t) => Ok(view_tokens(t@)),
        Err(e) => Err(e@),
    }
}

/// The output that stands in place of the item: the item followed by what was
/// generated where the family appends, what was generated alone otherwise.
pub open spec fn auto_output(
    generated: Result<Seq<TokenV>, ErrorV>,
    appends: bool,
    item: ItemV,
) -> Result<Seq<TokenV>, ErrorV> {
    match generated {
        Ok(t) => if appends {
            Ok(item_tokens(item) + t)
        } else {
            Ok(t)
        },
        Err(e) => Err(e),
    }
}

/// Synthesis of code from an item that carries a directive.
pub trait Generate: Sized {
    /// What the directive generates from an item.
    spec fn generated(&self, input: ItemV) -> Result<Seq<TokenV>, ErrorV>;

    /// Whether the output is the item followed by what was generated.
    spec fn appends(&self) -> bool;

    fn generate(&mut self, input: &Item) -> (r: Result<Vec<Token>, DirectiveError>)
        ensures
            view_output(r) == old(self).generated(input@),
            *final(self) == *old(self),
    ;

    fn auto_append(&self) -> (r: bool)
        ensures
            r == self.appends(),
    ;

    /// The output that replaces the item.
    fn generate_auto(&mut self, input: &Item) -> (r: Result<Vec<Token>, DirectiveError>)
        ensures
            view_output(r) == auto_output(old(self).generated(input@), old(self).appends(), input@),
            *final(self) == *old(self),
    {
        let generated = self.generate(input)?;
        if self.auto_append() {
            let mut out: Vec<Token> = Vec::new();
            push_item(&mut out, input);
            push_all(&mut out, generated.as_slice());
            assert(view_tokens(out@) =~= item_tokens(input@) + view_tokens(generated@));
            Ok(out)
        } else {
            Ok(generated)
        }
    }
}

} // verus!
