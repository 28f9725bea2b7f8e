//! The argument grammar that every directive shares: a comma-separated list of
//! `key = value` assignments or bare expressions, and the kinds of value.
use vstd::prelude::*;
use crate::error::{DirectiveError, ErrorV, Family};
use crate::outside::{lower_of, lowercase, str_literal_of, str_literal_value};
use crate::tokens::{
    Token, TokenV, is_ident_text, is_joint, split_at_commas, split_commas, step_depth,
    token_range, tokens_string, tokens_text, view_token_lists, view_tokens,
};

verus! {

/// One argument of a directive.
#[derive(Debug)]
pub enum Arg {
    /// `left = right`, split at the first `=` that stands alone outside groups.
    Assign(Vec<Token>, Vec<Token>),
    /// An argument with no such `=`.
    Bare(Vec<Token>),
}

pub enum ArgV {
    Assign(Seq<TokenV>, Seq<TokenV>),
    Bare(Seq<TokenV>),
}

impl View for Arg {
    type V = ArgV;

    open spec fn view(&self) -> ArgV {
        match self {
            Arg::Assign(l, r) => ArgV::Assign(view_tokens(l@), view_tokens(r@)),
            Arg::Bare(b) => ArgV::Bare(view_tokens(b@)),
        }
    }
}

/// Token `i` of `s` is an `=` that is neither joined to the next character
/// nor the end of a joined operator such as `==` or `<=`.
pub open spec fn is_assign_at(s: Seq<TokenV>, i: int) -> bool {
    s[i] == TokenV::Punct('=', false) && !(i > 0 && is_joint(s[i - 1]))
}

/// The first assignment `=` at group depth 0, searching from `i` at depth `d`.
pub open spec fn assign_from(s: Seq<TokenV>, i: int, d: nat) -> Option<int>
    decreases s.len() - i,
{
    if i < 0 || i >= s.len() {
        None
    } else if d == 0 && is_assign_at(s, i) {
        Some(i)
    } else {
        assign_from(s, i + 1, step_depth(d, s[i]))
    }
}

/// One comma-separated part read as an argument.
pub open spec fn arg_of(s: Seq<TokenV>) -> ArgV {
    match assign_from(s, 0, 0) {
        Some(k) => ArgV::Assign(s.take(k), s.skip(k + 1)),
        None => ArgV::Bare(s),
    }
}

/// No side of the argument is empty.
pub open spec fn arg_complete(a: ArgV) -> bool {
    match a {
        ArgV::Assign(l, r) => l.len() > 0 && r.len() > 0,
        ArgV::Bare(b) => b.len() > 0,
    }
}

/// The comma-separated parts of an argument list; a final comma ends the list.
pub open spec fn arg_parts(s: Seq<TokenV>) -> Seq<Seq<TokenV>> {
    let parts = split_commas(s, false);
    if parts.len() > 0 && parts.last().len() == 0 {
        parts.drop_last()
    } else {
        parts
    }
}

/// The arguments of a list, or `None` where one of them is incomplete (as in
/// `a,,b` or `pre =`).
pub open spec fn args_of(s: Seq<TokenV>) -> Option<Seq<ArgV>> {
    let parts = arg_parts(s);
    if forall|i: int| 0 <= i < parts.len() ==> arg_complete(#[trigger] arg_of(parts[i])) {
        Some(parts.map_values(|p: Seq<TokenV>| arg_of(p)))
    } else {
        None
    }
}

/// The malformed-directive error of a family for the text of `s`.
pub open spec fn malformed(f: Family, s: Seq<TokenV>) -> ErrorV {
    ErrorV::MalformedDirective { family: f, text: tokens_text(s) }
}

/// The argument list of a directive of family `f`.
pub open spec fn arg_list_of(f: Family, s: Seq<TokenV>) -> Result<Seq<ArgV>, ErrorV> {
    match args_of(s) {
        Some(a) => Ok(a),
        None => Err(malformed(f, s)),
    }
}

/// A value that is one identifier: its text.
pub open spec fn word_of(s: Seq<TokenV>) -> Option<Seq<char>> {
    if s.len() == 1 && (s[0] matches TokenV::Ident(_)) {
        Some(s[0]->Ident_0)
    } else {
        None
    }
}

/// A value that is one string literal: the string.
pub open spec fn str_value_of(s: Seq<TokenV>) -> Option<Seq<char>> {
    if s.len() == 1 && (s[0] matches TokenV::Literal(_)) {
        str_literal_of(s[0]->Literal_0)
    } else {
        None
    }
}

/// A boolean value: `true` or `false`, or a string literal that is one of them
/// in any case.
pub open spec fn bool_value_of(s: Seq<TokenV>) -> Option<bool> {
    if s.len() == 1 && is_ident_text(s[0], "true"@) {
        Some(true)
    } else if s.len() == 1 && is_ident_text(s[0], "false"@) {
        Some(false)
    } else {
        match str_value_of(s) {
            Some(v) => if lower_of(v) == "true"@ {
                Some(true)
            } else if lower_of(v) == "false"@ {
                Some(false)
            } else {
                None
            },
            None => None,
        }
    }
}

/// A rule value, in lower case: a bare word or a string literal.
pub open spec fn rule_word_of(s: Seq<TokenV>) -> Option<Seq<char>> {
    match word_of(s) {
        Some(w) => Some(lower_of(w)),
        None => match str_value_of(s) {
            Some(v) => Some(lower_of(v)),
            None => None,
        },
    }
}

/// Whether `s` reads `w`.
pub fn text_is(s: &String, w: &str) -> (r: bool)
    ensures
        r == (s@ == w@),
{
    *s == String::from_str(w)
}

/// The malformed-directive error of a family for the text of `toks`.
pub fn malformed_error(f: Family, toks: &[Token]) -> (e: DirectiveError)
    ensures
        e@ == malformed(f, view_tokens(toks@)),
{
    DirectiveError::MalformedDirective { family: f, text: tokens_string(toks) }
}

/// Reads one comma-separated part as an argument.
pub fn arg_from_part(s: &Vec<Token>) -> (r: Arg)
    ensures
        r@ == arg_of(view_tokens(s@)),
{
    let ghost v = view_tokens(s@);
    let mut i: usize = 0;
    let mut d: usize = 0;
    while i < s.len()
        invariant
            i <= s@.len(),
            d <= i,
            v == view_tokens(s@),
            assign_from(v, 0, 0) == assign_from(v, i as int, d as nat),
        decreases s@.len() - i,
    {
        let lone = matches!(s[i], Token::Punct('=', false)) && !(i > 0 && matches!(
            s[i - 1],
            Token::Punct(_, true)
        ));
        if d == 0 && lone {
            let l = token_range(s, 0, i);
            let r = token_range(s, i + 1, s.len());
            assert(view_tokens(l@) =~= v.take(i as int));
            assert(view_tokens(r@) =~= v.skip(i + 1));
            return Arg::Assign(l, r);
        }
        match s[i] {
            Token::Open(_) => {
                d = d + 1;
            },
            Token::Close(_) => {
                if d > 0 {
                    d = d - 1;
                }
            },
            _ => {},
        }
        i += 1;
    }
    let b = token_range(s, 0, s.len());
    assert(view_tokens(b@) =~= v);
    Arg::Bare(b)
}

/// Parses the argument list of a directive of family `f`.
pub fn parse_arg_list(f: Family, toks: &Vec<Token>) -> (r: Result<Vec<Arg>, DirectiveError>)
    ensures
        match r {
            Ok(a) => arg_list_of(f, view_tokens(toks@)) == Ok::<Seq<ArgV>, ErrorV>(
                a@.map_values(|x: Arg| x@),
            ),
            Err(e) => arg_list_of(f, view_tokens(toks@)) == Err::<Seq<ArgV>, ErrorV>(e@),
        },
{
    let ghost s = view_tokens(toks@);
    let mut parts = split_at_commas(toks, false);
    if parts.len() > 0 && parts[parts.len() - 1].len() == 0 {
        let ghost before = view_token_lists(parts@);
        parts.pop();
        assert(view_token_lists(parts@) =~= before.drop_last());
    }
    let ghost ps = view_token_lists(parts@);
    assert(ps == arg_parts(s));
    let mut out: Vec<Arg> = Vec::new();
    let mut i: usize = 0;
    while i < parts.len()
        invariant
            i <= parts@.len(),
            ps == view_token_lists(parts@),
            ps == arg_parts(s),
            s == view_tokens(toks@),
            out@.len() == i,
            forall|k: int| 0 <= k < i ==> #[trigger] out@[k]@ == arg_of(ps[k]),
            forall|k: int| 0 <= k < i ==> arg_complete(#[trigger] arg_of(ps[k])),
        decreases parts@.len() - i,
    {
        let a = arg_from_part(&parts[i]);
        let complete = match &a {
            Arg::Assign(l, r) => l.len() > 0 && r.len() > 0,
            Arg::Bare(b) => b.len() > 0,
        };
        if !complete {
            assert(!arg_complete(arg_of(ps[i as int])));
            assert(args_of(s) is None);
            return Err(malformed_error(f, toks.as_slice()));
        }
        out.push(a);
        i += 1;
    }
    assert(forall|k: int| 0 <= k < ps.len() ==> arg_complete(#[trigger] arg_of(ps[k])));
    assert(out@.map_values(|x: Arg| x@) =~= ps.map_values(|p: Seq<TokenV>| arg_of(p)));
    Ok(out)
}

/// The text of a value that is one identifier.
pub fn word_value(s: &Vec<Token>) -> (r: Option<String>)
    ensures
        match r {
            Some(w) => word_of(view_tokens(s@)) == Some(w@),
            None => word_of(view_tokens(s@)) is None,
        },
{
    if s.len() == 1 {
        match &s[0] {
            Token::Ident(w) => {
                return Some(w.clone());
            },
            _ => {},
        }
    }
    None
}

/// The string of a value that is one string literal.
pub fn str_value(s: &Vec<Token>) -> (r: Option<String>)
    ensures
        match r {
            Some(v) => str_value_of(view_tokens(s@)) == Some(v@),
            None => str_value_of(view_tokens(s@)) is None,
        },
{
    if s.len() == 1 {
        match &s[0] {
            Token::Literal(text) => {
                return str_literal_value(text.as_str());
            },
            _ => {},
        }
    }
    None
}

/// A boolean value (see `bool_value_of`).
pub fn bool_value(s: &Vec<Token>) -> (r: Option<bool>)
    ensures
        r == bool_value_of(view_tokens(s@)),
{
    if s.len() == 1 && crate::tokens::ident_is(&s[0], "true") {
        return Some(true);
    }
    if s.len() == 1 && crate::tokens::ident_is(&s[0], "false") {
        return Some(false);
    }
    match str_value(s) {
        Some(v) => {
            let low = lowercase(v.as_str());
            if text_is(&low, "true") {
                Some(true)
            } else if text_is(&low, "false") {
                Some(false)
            } else {
                None
            }
        },
        None => None,
    }
}

/// A rule value in lower case (see `rule_word_of`).
pub fn rule_word(s: &Vec<Token>) -> (r: Option<String>)
    ensures
        match r {
            Some(w) => rule_word_of(view_tokens(s@)) == Some(w@),
            None => rule_word_of(view_tokens(s@)) is None,
        },
{
    match word_value(s) {
        Some(w) => Some(lowercase(w.as_str())),
        None => match str_value(s) {
            Some(v) => Some(lowercase(v.as_str())),
            None => None,
        },
    }
}

} // verus!

verus! {

/// The key and the value of an assignment, the key being one identifier.
pub open spec fn key_of(f: Family, a: ArgV) -> Result<(Seq<char>, Seq<TokenV>), ErrorV> {
    match a {
        ArgV::Bare(b) => Err(malformed(f, b)),
        ArgV::Assign(l, r) => match word_of(l) {
            Some(k) => Ok((k, r)),
            None => Err(malformed(f, l)),
        },
    }
}

/// The one identifier that a path is made of, or the malformed-directive
/// error of family `f` for any other path.
pub fn single_path_segment(path: &Vec<Token>, f: Family) -> (r: Result<String, DirectiveError>)
    ensures
        match r {
            Ok(w) => word_of(view_tokens(path@)) == Some(w@),
            Err(e) => word_of(view_tokens(path@)) is None && e@ == malformed(f, view_tokens(path@)),
        },
{
    match word_value(path) {
        Some(w) => Ok(w),
        None => Err(malformed_error(f, path.as_slice())),
    }
}

/// The key of an assignment, its lower-case form and its value.
pub fn arg_key(f: Family, a: &Arg) -> (r: Result<(String, String, &Vec<Token>), DirectiveError>)
    ensures
        match r {
            Ok((k, lk, v)) => key_of(f, a@) == Ok::<(Seq<char>, Seq<TokenV>), ErrorV>(
                (k@, view_tokens(v@)),
            ) && lk@ == lower_of(k@),
            Err(e) => key_of(f, a@) == Err::<(Seq<char>, Seq<TokenV>), ErrorV>(e@),
        },
{
    match a {
        Arg::Bare(b) => Err(malformed_error(f, b.as_slice())),
        Arg::Assign(l, r) => {
            let k = single_path_segment(l, f)?;
            let lk = lowercase(k.as_str());
            Ok((k, lk, r))
        },
    }
}

} // verus!
