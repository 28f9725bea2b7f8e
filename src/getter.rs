//! The field-level getter directive: `get(pre = expr, mutable = bool, name = "f")`.
use vstd::prelude::*;
use crate::args::{
    Arg, ArgV, arg_key, arg_list_of, bool_value, bool_value_of, key_of, parse_arg_list,
    str_value, str_value_of, text_is,
};
use crate::decl::{Item, ItemV};
use crate::error::{DirectiveError, ErrorV, Family};
use crate::generate::Generate;
use crate::outside::lower_of;
use crate::decl::{ident, push_all, push_one};
use crate::tokens::{Delim, Token, TokenV, copy_tokens, view_tokens};

verus! {

/// The shape of one generated read accessor.
#[derive(Debug)]
pub struct GetterAttribute {
    /// An expression evaluated before the reference is produced.
    pub pre: Option<Vec<Token>>,
    /// Whether the accessor hands out a mutable reference.
    pub mutable: bool,
    /// The accessor's name, where it is not `get_<field>`.
    pub name: Option<String>,
}

pub struct GetterV {
    pub pre: Option<Seq<TokenV>>,
    pub mutable: bool,
    pub name: Option<Seq<char>>,
}

/// An optional token sequence as a view.
pub open spec fn view_opt_tokens(o: Option<Vec<Token>>) -> Option<Seq<TokenV>> {
    match o {
        Some(v) => Some(view_tokens(v@)),
        None => None,
    }
}

/// An optional string as a view.
pub open spec fn view_opt_string(o: Option<String>) -> Option<Seq<char>> {
    match o {
        Some(s) => Some(s@),
        None => None,
    }
}

impl View for GetterAttribute {
    type V = GetterV;

    open spec fn view(&self) -> GetterV {
        GetterV { pre: view_opt_tokens(self.pre), mutable: self.mutable, name: view_opt_string(self.name) }
    }
}

/// A getter with no directive of its own.
pub open spec fn default_getter() -> GetterV {
    GetterV { pre: None, mutable: false, name: None }
}

/// The getter after one more argument.
pub open spec fn getter_step(a: ArgV, g: GetterV) -> Result<GetterV, ErrorV> {
    match key_of(Family::Getter, a) {
        Err(e) => Err(e),
        Ok((k, v)) => {
            let lk = lower_of(k);
            if lk == "pre"@ {
                Ok(GetterV { pre: Some(v), mutable: g.mutable, name: g.name })
            } else if lk == "mut"@ || lk == "mut_"@ || lk == "mutable"@ {
                match bool_value_of(v) {
                    Some(b) => Ok(GetterV { pre: g.pre, mutable: b, name: g.name }),
                    None => Err(ErrorV::UnrecognizedValue { family: Family::Getter, option: k }),
                }
            } else if lk == "name"@ {
                match str_value_of(v) {
                    Some(n) => Ok(GetterV { pre: g.pre, mutable: g.mutable, name: Some(n) }),
                    None => Err(ErrorV::UnrecognizedValue { family: Family::Getter, option: k }),
                }
            } else {
                Err(ErrorV::UnknownOption { family: Family::Getter, keyword: k })
            }
        },
    }
}

/// The getter after the arguments from `i` on.
pub open spec fn getter_from(args: Seq<ArgV>, i: int, g: GetterV) -> Result<GetterV, ErrorV>
    decreases args.len() - i,
{
    if i < 0 || i >= args.len() {
        Ok(g)
    } else {
        match getter_step(args[i], g) {
            Ok(n) => getter_from(args, i + 1, n),
            Err(e) => Err(e),
        }
    }
}

/// The getter that an argument list describes; a later option overrides an
/// earlier one.
pub open spec fn getter_of(s: Seq<TokenV>) -> Result<GetterV, ErrorV> {
    match arg_list_of(Family::Getter, s) {
        Err(e) => Err(e),
        Ok(args) => getter_from(args, 0, default_getter()),
    }
}

impl GetterAttribute {
    /// The getter of a field that has no getter directive.
    pub fn with_accessor_defaults() -> (r: Self)
        ensures
            r@ == default_getter(),
    {
        GetterAttribute { pre: None, mutable: false, name: None }
    }

    fn apply(&mut self, a: &Arg) -> (r: Result<(), DirectiveError>)
        ensures
            match r {
                Ok(_) => getter_step(a@, old(self)@) == Ok::<GetterV, ErrorV>(final(self)@),
                Err(e) => getter_step(a@, old(self)@) == Err::<GetterV, ErrorV>(e@),
            },
    {
        let (k, lk, v) = arg_key(Family::Getter, a)?;
        if text_is(&lk, "pre") {
            self.pre = Some(copy_tokens(v.as_slice()));
            Ok(())
        } else if text_is(&lk, "mut") || text_is(&lk, "mut_") || text_is(&lk, "mutable") {
            match bool_value(v) {
                Some(b) => {
                    self.mutable = b;
                    Ok(())
                },
                None => Err(DirectiveError::UnrecognizedValue { family: Family::Getter, option: k }),
            }
        } else if text_is(&lk, "name") {
            match str_value(v) {
                Some(n) => {
                    self.name = Some(n);
                    Ok(())
                },
                None => Err(DirectiveError::UnrecognizedValue { family: Family::Getter, option: k }),
            }
        } else {
            Err(DirectiveError::UnknownOption { family: Family::Getter, keyword: k })
        }
    }

    /// Reads the arguments of a getter directive.
    pub fn parse(toks: &Vec<Token>) -> (r: Result<Self, DirectiveError>)
        ensures
            crate::error::view_result(r) == getter_of(view_tokens(toks@)),
    {
        let args = parse_arg_list(Family::Getter, toks)?;
        let ghost av = args@.map_values(|x: Arg| x@);
        let mut g = Self::with_accessor_defaults();
        let mut i: usize = 0;
        while i < args.len()
            invariant
                i <= args@.len(),
                av == args@.map_values(|x: Arg| x@),
                arg_list_of(Family::Getter, view_tokens(toks@)) == Ok::<Seq<ArgV>, ErrorV>(av),
                getter_of(view_tokens(toks@)) == getter_from(av, i as int, g@),
            decreases args@.len() - i,
        {
            let step = g.apply(&args[i]);
            if let Err(e) = step {
                return Err(e);
            }
            i += 1;
        }
        Ok(g)
    }
}

} // verus!

verus! {

/// The name of a generated getter: the one given, else `get_<field>`.
pub open spec fn getter_name(g: GetterV, field: Seq<char>) -> Seq<char> {
    match g.name {
        Some(n) => n,
        None => "get_"@ + field,
    }
}

/// A side-effect expression as a statement, or nothing.
pub open spec fn effect_tokens(e: Option<Seq<TokenV>>) -> Seq<TokenV> {
    match e {
        Some(x) => x + seq![TokenV::Punct(';', false)],
        None => Seq::empty(),
    }
}

/// `mut` where `m` holds.
pub open spec fn mut_tokens(m: bool) -> Seq<TokenV> {
    if m {
        seq![TokenV::Ident("mut"@)]
    } else {
        Seq::empty()
    }
}

/// The generated getter of `field` of type `ty`:
/// `pub fn NAME(&[mut] self) -> &'_ [mut] TY { [PRE;] &[mut] self.FIELD }`.
pub open spec fn getter_fn_tokens(g: GetterV, field: Seq<char>, ty: Seq<TokenV>) -> Seq<TokenV> {
    seq![
        TokenV::Ident("pub"@),
        TokenV::Ident("fn"@),
        TokenV::Ident(getter_name(g, field)),
        TokenV::Open(Delim::Paren),
        TokenV::Punct('&', false),
    ] + mut_tokens(g.mutable) + seq![
        TokenV::Ident("self"@),
        TokenV::Close(Delim::Paren),
        TokenV::Punct('-', true),
        TokenV::Punct('>', false),
        TokenV::Punct('&', false),
        TokenV::Punct('\'', true),
        TokenV::Ident("_"@),
    ] + mut_tokens(g.mutable) + ty + seq![TokenV::Open(Delim::Brace)]
        + effect_tokens(g.pre) + seq![TokenV::Punct('&', false)] + mut_tokens(g.mutable) + seq![
        TokenV::Ident("self"@),
        TokenV::Punct('.', false),
        TokenV::Ident(field),
        TokenV::Close(Delim::Brace),
    ]
}

/// Appends `mut` where `m` holds.
pub fn push_mut(out: &mut Vec<Token>, m: bool)
    ensures
        view_tokens(final(out)@) == view_tokens(old(out)@) + mut_tokens(m),
{
    if m {
        push_one(out, ident("mut"));
    }
    assert(view_tokens(out@) =~= view_tokens(old(out)@) + mut_tokens(m));
}

/// Appends a side-effect statement, if there is one.
pub fn push_effect(out: &mut Vec<Token>, e: &Option<Vec<Token>>)
    ensures
        view_tokens(final(out)@) == view_tokens(old(out)@) + effect_tokens(view_opt_tokens(*e)),
{
    match e {
        Some(x) => {
            push_all(out, x.as_slice());
            push_one(out, Token::Punct(';', false));
        },
        None => {},
    }
    assert(view_tokens(out@) =~= view_tokens(old(out)@) + effect_tokens(view_opt_tokens(*e)));
}

impl GetterAttribute {
    /// The name of the getter of `field`.
    pub fn fn_name(&self, field: &String) -> (r: String)
        ensures
            r@ == getter_name(self@, field@),
    {
        match &self.name {
            Some(n) => n.clone(),
            None => {
                let mut n = String::from_str("get_");
                n.append(field.as_str());
                n
            },
        }
    }

    /// The tokens of the getter of `target_field`, of type `parent_type`.
    pub fn impl_get_fn(&self, target_field: &String, parent_type: &Vec<Token>) -> (r: Vec<Token>)
        ensures
            view_tokens(r@) == getter_fn_tokens(self@, target_field@, view_tokens(parent_type@)),
    {
        let mut out: Vec<Token> = Vec::new();
        push_one(&mut out, ident("pub"));
        push_one(&mut out, ident("fn"));
        push_one(&mut out, Token::Ident(self.fn_name(target_field)));
        push_one(&mut out, Token::Open(Delim::Paren));
        push_one(&mut out, Token::Punct('&', false));
        push_mut(&mut out, self.mutable);
        push_one(&mut out, ident("self"));
        push_one(&mut out, Token::Close(Delim::Paren));
        push_one(&mut out, Token::Punct('-', true));
        push_one(&mut out, Token::Punct('>', false));
        push_one(&mut out, Token::Punct('&', false));
        push_one(&mut out, Token::Punct('\'', true));
        push_one(&mut out, ident("_"));
        push_mut(&mut out, self.mutable);
        push_all(&mut out, parent_type.as_slice());
        push_one(&mut out, Token::Open(Delim::Brace));
        push_effect(&mut out, &self.pre);
        push_one(&mut out, Token::Punct('&', false));
        push_mut(&mut out, self.mutable);
        push_one(&mut out, ident("self"));
        push_one(&mut out, Token::Punct('.', false));
        push_one(&mut out, Token::Ident(target_field.clone()));
        push_one(&mut out, Token::Close(Delim::Brace));
        assert(view_tokens(out@) =~= getter_fn_tokens(self@, target_field@, view_tokens(parent_type@)));
        out
    }
}

} // verus!

verus! {

impl Generate for GetterAttribute {
    open spec fn generated(&self, input: ItemV) -> Result<Seq<TokenV>, ErrorV> {
        Ok(Seq::empty())
    }

    open spec fn appends(&self) -> bool {
        true
    }

    /// A field-level marker generates nothing by itself: the struct-level
    /// directive reads it.
    fn generate(&mut self, input: &Item) -> (r: Result<Vec<Token>, DirectiveError>) {
        let out: Vec<Token> = Vec::new();
        assert(view_tokens(out@) =~= Seq::<TokenV>::empty());
        Ok(out)
    }

    fn auto_append(&self) -> (r: bool) {
        true
    }
}

} // verus!
