//! The field-level setter directive: `set(pre = expr, post = expr, name = "f")`.
use vstd::prelude::*;
use crate::args::{Arg, ArgV, arg_key, arg_list_of, key_of, parse_arg_list, str_value, str_value_of, text_is};
use crate::decl::{Item, ItemV};
use crate::error::{DirectiveError, ErrorV, Family};
use crate::generate::Generate;
use crate::getter::{effect_tokens, push_effect, view_opt_string, view_opt_tokens};
use crate::outside::lower_of;
use crate::decl::{ident, push_all, push_one};
use crate::tokens::{Delim, Token, TokenV, copy_tokens, view_tokens};

verus! {

/// The shape of one generated write accessor.
#[derive(Debug)]
pub struct SetterAttribute {
    /// An expression evaluated before the assignment.
    pub pre: Option<Vec<Token>>,
    /// An expression evaluated after the assignment.
    pub post: Option<Vec<Token>>,
    /// The accessor's name, where it is not `set_<field>`.
    pub name: Option<String>,
}

pub struct SetterV {
    pub pre: Option<Seq<TokenV>>,
    pub post: Option<Seq<TokenV>>,
    pub name: Option<Seq<char>>,
}

impl View for SetterAttribute {
    type V = SetterV;

    open spec fn view(&self) -> SetterV {
        SetterV {
            pre: view_opt_tokens(self.pre),
            post: view_opt_tokens(self.post),
            name: view_opt_string(self.name),
        }
    }
}

/// A setter with no directive of its own.
pub open spec fn default_setter() -> SetterV {
    SetterV { pre: None, post: None, name: None }
}

/// The setter after one more argument.
pub open spec fn setter_step(a: ArgV, g: SetterV) -> Result<SetterV, ErrorV> {
    match key_of(Family::Setter, a) {
        Err(e) => Err(e),
        Ok((k, v)) => {
            let lk = lower_of(k);
            if lk == "pre"@ {
                Ok(SetterV { pre: Some(v), post: g.post, name: g.name })
            } else if lk == "post"@ {
                Ok(SetterV { pre: g.pre, post: Some(v), name: g.name })
            } else if lk == "name"@ {
                match str_value_of(v) {
                    Some(n) => Ok(SetterV { pre: g.pre, post: g.post, name: Some(n) }),
                    None => Err(ErrorV::UnrecognizedValue { family: Family::Setter, option: k }),
                }
            } else {
                Err(ErrorV::UnknownOption { family: Family::Setter, keyword: k })
            }
        },
    }
}

/// The setter after the arguments from `i` on.
pub open spec fn setter_from(args: Seq<ArgV>, i: int, g: SetterV) -> Result<SetterV, ErrorV>
    decreases args.len() - i,
{
    if i < 0 || i >= args.len() {
        Ok(g)
    } else {
        match setter_step(args[i], g) {
            Ok(n) => setter_from(args, i + 1, n),
            Err(e) => Err(e),
        }
    }
}

/// The setter that an argument list describes; a later option overrides an
/// earlier one.
pub open spec fn setter_of(s: Seq<TokenV>) -> Result<SetterV, ErrorV> {
    match arg_list_of(Family::Setter, s) {
        Err(e) => Err(e),
        Ok(args) => setter_from(args, 0, default_setter()),
    }
}

impl SetterAttribute {
    /// The setter of a field that has no setter directive.
    pub fn with_accessor_defaults() -> (r: Self)
        ensures
            r@ == default_setter(),
    {
        SetterAttribute { pre: None, post: None, name: None }
    }

    fn apply(&mut self, a: &Arg) -> (r: Result<(), DirectiveError>)
        ensures
            match r {
                Ok(_) => setter_step(a@, old(self)@) == Ok::<SetterV, ErrorV>(final(self)@),
                Err(e) => setter_step(a@, old(self)@) == Err::<SetterV, ErrorV>(e@),
            },
    {
        let (k, lk, v) = arg_key(Family::Setter, a)?;
        if text_is(&lk, "pre") {
            self.pre = Some(copy_tokens(v.as_slice()));
            Ok(())
        } else if text_is(&lk, "post") {
            self.post = Some(copy_tokens(v.as_slice()));
            Ok(())
        } else if text_is(&lk, "name") {
            match str_value(v) {
                Some(n) => {
                    self.name = Some(n);
                    Ok(())
                },
                None => Err(DirectiveError::UnrecognizedValue { family: Family::Setter, option: k }),
            }
        } else {
            Err(DirectiveError::UnknownOption { family: Family::Setter, keyword: k })
        }
    }

    /// Reads the arguments of a setter directive.
    pub fn parse(toks: &Vec<Token>) -> (r: Result<Self, DirectiveError>)
        ensures
            crate::error::view_result(r) == setter_of(view_tokens(toks@)),
    {
        let args = parse_arg_list(Family::Setter, toks)?;
        let ghost av = args@.map_values(|x: Arg| x@);
        let mut g = Self::with_accessor_defaults();
        let mut i: usize = 0;
        while i < args.len()
            invariant
                i <= args@.len(),
                av == args@.map_values(|x: Arg| x@),
                arg_list_of(Family::Setter, view_tokens(toks@)) == Ok::<Seq<ArgV>, ErrorV>(av),
                setter_of(view_tokens(toks@)) == setter_from(av, i as int, g@),
            decreases args@.len() - i,
        {
            let step = g.apply(&args[i]);
            if let Err(e) = step {
                return Err(e);
            }
            i += 1;
        }
        Ok(g)
    }
}

} // verus!

verus! {

/// The name of a generated setter: the one given, else `set_<field>`.
pub open spec fn setter_name(g: SetterV, field: Seq<char>) -> Seq<char> {
    match g.name {
        Some(n) => n,
        None => "set_"@ + field,
    }
}

/// The generated setter of `field` of type `ty`:
/// `pub fn NAME(&mut self, x: TY) { [PRE;] self.FIELD = x; [POST;] }`.
pub open spec fn setter_fn_tokens(g: SetterV, field: Seq<char>, ty: Seq<TokenV>) -> Seq<TokenV> {
    seq![
        TokenV::Ident("pub"@),
        TokenV::Ident("fn"@),
        TokenV::Ident(setter_name(g, field)),
        TokenV::Open(Delim::Paren),
        TokenV::Punct('&', false),
        TokenV::Ident("mut"@),
        TokenV::Ident("self"@),
        TokenV::Punct(',', false),
        TokenV::Ident("x"@),
        TokenV::Punct(':', false),
    ] + ty + seq![
        TokenV::Close(Delim::Paren),
        TokenV::Open(Delim::Brace),
    ] + effect_tokens(g.pre) + seq![
        TokenV::Ident("self"@),
        TokenV::Punct('.', false),
        TokenV::Ident(field),
        TokenV::Punct('=', false),
        TokenV::Ident("x"@),
        TokenV::Punct(';', false),
    ] + effect_tokens(g.post) + seq![TokenV::Close(Delim::Brace)]
}

impl SetterAttribute {
    /// The name of the setter of `field`.
    pub fn fn_name(&self, field: &String) -> (r: String)
        ensures
            r@ == setter_name(self@, field@),
    {
        match &self.name {
            Some(n) => n.clone(),
            None => {
                let mut n = String::from_str("set_");
                n.append(field.as_str());
                n
            },
        }
    }

    /// The tokens of the setter of `target_field`, of type `parent_type`.
    pub fn impl_set_fn(&self, target_field: &String, parent_type: &Vec<Token>) -> (r: Vec<Token>)
        ensures
            view_tokens(r@) == setter_fn_tokens(self@, target_field@, view_tokens(parent_type@)),
    {
        let mut out: Vec<Token> = Vec::new();
        push_one(&mut out, ident("pub"));
        push_one(&mut out, ident("fn"));
        push_one(&mut out, Token::Ident(self.fn_name(target_field)));
        push_one(&mut out, Token::Open(Delim::Paren));
        push_one(&mut out, Token::Punct('&', false));
        push_one(&mut out, ident("mut"));
        push_one(&mut out, ident("self"));
        push_one(&mut out, Token::Punct(',', false));
        push_one(&mut out, ident("x"));
        push_one(&mut out, Token::Punct(':', false));
        push_all(&mut out, parent_type.as_slice());
        push_one(&mut out, Token::Close(Delim::Paren));
        push_one(&mut out, Token::Open(Delim::Brace));
        push_effect(&mut out, &self.pre);
        push_one(&mut out, ident("self"));
        push_one(&mut out, Token::Punct('.', false));
        push_one(&mut out, Token::Ident(target_field.clone()));
        push_one(&mut out, Token::Punct('=', false));
        push_one(&mut out, ident("x"));
        push_one(&mut out, Token::Punct(';', false));
        push_effect(&mut out, &self.post);
        push_one(&mut out, Token::Close(Delim::Brace));
        assert(view_tokens(out@) =~= setter_fn_tokens(self@, target_field@, view_tokens(parent_type@)));
        out
    }
}

} // verus!

verus! {

impl Generate for SetterAttribute {
    open spec fn generated(&self, input: ItemV) -> Result<Seq<TokenV>, ErrorV> {
        Ok(Seq::empty())
    }

    open spec fn appends(&self) -> bool {
        true
    }

    /// A field-level marker generates nothing by itself: the struct-level
    /// directive reads it.
    fn generate(&mut self, input: &Item) -> (r: Result<Vec<Token>, DirectiveError>) {
        let out: Vec<Token> = Vec::new();
        assert(view_tokens(out@) =~= Seq::<TokenV>::empty());
        Ok(out)
    }

    fn auto_append(&self) -> (r: bool) {
        true
    }
}

} // verus!
