//! The umbrella directive `roopert(kind, ...)`: a leading keyword names the
//! directive family, and the rest is that family's argument list.
use vstd::prelude::*;
use crate::accessors::{AccessorsAttribute, accessors_generated, accessors_of};
use crate::decl::{Item, ItemV};
use crate::generate::Generate;
use crate::args::{malformed, malformed_error, text_is};
use crate::error::{DirectiveError, ErrorV, Family};
use crate::extends::{ExtendsAttribute, extends_generated, extends_of};
use crate::fields::{FieldsAttribute, FieldsV, fields_generated, fields_of};
use crate::getter::{GetterAttribute, GetterV, getter_of};
use crate::parent::{ParentAttribute, parent_of};
use crate::setter::{SetterAttribute, SetterV, setter_of};
use crate::tokens::{Token, TokenV, token_range, view_tokens};

verus! {

/// A directive of one of the families.
#[derive(Debug)]
pub enum RoopertAttributeType {
    Parent(ParentAttribute),
    Extends(ExtendsAttribute),
    Accessors(AccessorsAttribute),
    Getter(GetterAttribute),
    Setter(SetterAttribute),
    Fields(FieldsAttribute),
}

pub enum RootV {
    Parent,
    Extends(Seq<Seq<TokenV>>),
    Accessors(AccessorsAttribute),
    Getter(GetterV),
    Setter(SetterV),
    Fields(FieldsV),
}

impl View for RoopertAttributeType {
    type V = RootV;

    open spec fn view(&self) -> RootV {
        match self {
            RoopertAttributeType::Parent(_) => RootV::Parent,
            RoopertAttributeType::Extends(e) => RootV::Extends(e@),
            RoopertAttributeType::Accessors(a) => RootV::Accessors(*a),
            RoopertAttributeType::Getter(g) => RootV::Getter(g@),
            RoopertAttributeType::Setter(s) => RootV::Setter(s@),
            RoopertAttributeType::Fields(f) => RootV::Fields(f@),
        }
    }
}

/// One umbrella directive.
#[derive(Debug)]
pub struct RoopertAttribute {
    pub attr: RoopertAttributeType,
}

impl View for RoopertAttribute {
    type V = RootV;

    open spec fn view(&self) -> RootV {
        self.attr@
    }
}

/// The arguments after the leading keyword and the comma that may follow it.
pub open spec fn root_rest(s: Seq<TokenV>) -> Seq<TokenV> {
    if s.len() > 1 && (s[1] matches TokenV::Punct(',', _)) {
        s.skip(2)
    } else {
        s.skip(1)
    }
}

/// The directive that an umbrella argument list describes.
pub open spec fn root_of(s: Seq<TokenV>) -> Result<RootV, ErrorV> {
    if s.len() == 0 || !(s[0] matches TokenV::Ident(_)) {
        Err(malformed(Family::Roopert, s))
    } else {
        let kw = s[0]->Ident_0;
        let rest = root_rest(s);
        if kw == "parent"@ {
            match parent_of(rest) {
                Ok(_) => Ok(RootV::Parent),
                Err(e) => Err(e),
            }
        } else if kw == "extend"@ || kw == "extends"@ {
            match extends_of(rest) {
                Ok(t) => Ok(RootV::Extends(t)),
                Err(e) => Err(e),
            }
        } else if kw == "accessors"@ {
            match accessors_of(rest) {
                Ok(a) => Ok(RootV::Accessors(a)),
                Err(e) => Err(e),
            }
        } else if kw == "get"@ {
            match getter_of(rest) {
                Ok(g) => Ok(RootV::Getter(g)),
                Err(e) => Err(e),
            }
        } else if kw == "set"@ {
            match setter_of(rest) {
                Ok(g) => Ok(RootV::Setter(g)),
                Err(e) => Err(e),
            }
        } else if kw == "fields"@ {
            match fields_of(rest) {
                Ok(f) => Ok(RootV::Fields(f)),
                Err(e) => Err(e),
            }
        } else {
            Err(ErrorV::UnknownDirective { keyword: kw })
        }
    }
}

impl RoopertAttributeType {
    /// A delegate marker.
    pub fn is_parent(&self) -> (r: bool)
        ensures
            r == (self@ is Parent),
    {
        matches!(self, RoopertAttributeType::Parent(_))
    }

    /// A delegation directive.
    pub fn is_extends(&self) -> (r: bool)
        ensures
            r == (self@ is Extends),
    {
        matches!(self, RoopertAttributeType::Extends(_))
    }

    /// A getter directive.
    pub fn is_getter(&self) -> (r: bool)
        ensures
            r == (self@ is Getter),
    {
        matches!(self, RoopertAttributeType::Getter(_))
    }

    /// A setter directive.
    pub fn is_setter(&self) -> (r: bool)
        ensures
            r == (self@ is Setter),
    {
        matches!(self, RoopertAttributeType::Setter(_))
    }
}

impl RoopertAttribute {
    /// Reads an umbrella directive's arguments.
    pub fn parse(toks: &Vec<Token>) -> (r: Result<Self, DirectiveError>)
        ensures
            crate::error::view_result(r) == root_of(view_tokens(toks@)),
    {
        let ghost s = view_tokens(toks@);
        let kw = if toks.len() > 0 {
            match &toks[0] {
                Token::Ident(k) => k.clone(),
                _ => {
                    return Err(malformed_error(Family::Roopert, toks.as_slice()));
                },
            }
        } else {
            return Err(malformed_error(Family::Roopert, toks.as_slice()));
        };
        let start: usize = if toks.len() > 1 && matches!(toks[1], Token::Punct(',', _)) {
            2
        } else {
            1
        };
        let rest = token_range(toks, start, toks.len());
        assert(view_tokens(rest@) =~= root_rest(s));
        let attr = if text_is(&kw, "parent") {
            let _ = ParentAttribute::parse(&rest)?;
            RoopertAttributeType::Parent(ParentAttribute {})
        } else if text_is(&kw, "extend") || text_is(&kw, "extends") {
            RoopertAttributeType::Extends(ExtendsAttribute::parse(&rest)?)
        } else if text_is(&kw, "accessors") {
            RoopertAttributeType::Accessors(AccessorsAttribute::parse(&rest)?)
        } else if text_is(&kw, "get") {
            RoopertAttributeType::Getter(GetterAttribute::parse(&rest)?)
        } else if text_is(&kw, "set") {
            RoopertAttributeType::Setter(SetterAttribute::parse(&rest)?)
        } else if text_is(&kw, "fields") {
            RoopertAttributeType::Fields(FieldsAttribute::parse(&rest)?)
        } else {
            return Err(DirectiveError::UnknownDirective { keyword: kw });
        };
        Ok(RoopertAttribute { attr })
    }
}

} // verus!

verus! {

/// What a directive of any family generates.
pub open spec fn root_generated(r: RootV, input: ItemV) -> Result<Seq<TokenV>, ErrorV> {
    match r {
        RootV::Extends(t) => extends_generated(t, input),
        RootV::Accessors(a) => accessors_generated(a, input),
        RootV::Fields(f) => fields_generated(f, input),
        _ => Ok(Seq::empty()),
    }
}

/// Whether a directive's output is the item followed by what it generated:
/// so for the field-level markers, which generate nothing.
pub open spec fn root_appends(r: RootV) -> bool {
    match r {
        RootV::Parent => true,
        RootV::Getter(_) => true,
        RootV::Setter(_) => true,
        _ => false,
    }
}

impl Generate for RoopertAttributeType {
    open spec fn generated(&self, input: ItemV) -> Result<Seq<TokenV>, ErrorV> {
        root_generated(self@, input)
    }

    open spec fn appends(&self) -> bool {
        root_appends(self@)
    }

    fn generate(&mut self, input: &Item) -> (r: Result<Vec<Token>, DirectiveError>) {
        match self {
            RoopertAttributeType::Parent(p) => p.generate(input),
            RoopertAttributeType::Extends(e) => e.generate(input),
            RoopertAttributeType::Accessors(a) => a.generate(input),
            RoopertAttributeType::Getter(g) => g.generate(input),
            RoopertAttributeType::Setter(s) => s.generate(input),
            RoopertAttributeType::Fields(f) => f.generate(input),
        }
    }

    fn auto_append(&self) -> (r: bool) {
        match self {
            RoopertAttributeType::Parent(p) => p.auto_append(),
            RoopertAttributeType::Extends(e) => e.auto_append(),
            RoopertAttributeType::Accessors(a) => a.auto_append(),
            RoopertAttributeType::Getter(g) => g.auto_append(),
            RoopertAttributeType::Setter(s) => s.auto_append(),
            RoopertAttributeType::Fields(f) => f.auto_append(),
        }
    }
}

impl Generate for RoopertAttribute {
    open spec fn generated(&self, input: ItemV) -> Result<Seq<TokenV>, ErrorV> {
        root_generated(self@, input)
    }

    open spec fn appends(&self) -> bool {
        root_appends(self@)
    }

    fn generate(&mut self, input: &Item) -> (r: Result<Vec<Token>, DirectiveError>) {
        self.attr.generate(input)
    }

    fn auto_append(&self) -> (r: bool) {
        self.attr.auto_append()
    }
}

} // verus!
