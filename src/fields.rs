//! The reflection directive: `fields(rule = rule, metadata = "text")` on a
//! structure, `field(meta = "text")` on a field, and the synthesis of the
//! name-indexed reflection table.
use vstd::prelude::*;
use crate::args::{
    Arg, ArgV, arg_key, arg_list_of, key_of, parse_arg_list, rule_word, rule_word_of, str_value,
    str_value_of, text_is,
};
use crate::accessors::malformed_field;
use crate::decl::{
    Attr, AttrV, Field, FieldV, Item, ItemV, StructDecl, StructV, attr_args, attr_args_of,
    attr_named, ident, is_field_attribute, is_roopert_attribute, push_all, push_one, push_struct,
    push_trait_impl_head, struct_tokens, trait_impl_head_tokens, view_attrs, view_fields,
    with_fields_of,
};
use crate::error::{DirectiveError, ErrorV, Family};
use crate::generate::Generate;
use crate::getter::{mut_tokens, push_mut};
use crate::outside::{lower_of, push_char};
use crate::root::{RoopertAttribute, RoopertAttributeType, RootV, root_of};
use crate::tokens::{Delim, Token, TokenV, copy_tokens, view_tokens};

verus! {

/// Which fields take part in reflection when they have no directive of their own.
#[derive(Clone, Copy, Debug, PartialEq, Eq, Structural)]
pub enum FieldsAutoRule {
    All,
    /// Only fields declared plainly `pub`.
    Public,
    No,
}

/// The rule that a lower-case word names.
pub open spec fn fields_rule_named(w: Seq<char>) -> Option<FieldsAutoRule> {
    if w == "all"@ {
        Some(FieldsAutoRule::All)
    } else if w == "public"@ {
        Some(FieldsAutoRule::Public)
    } else if w == "no"@ {
        Some(FieldsAutoRule::No)
    } else {
        None
    }
}

/// The rule that a value names (a word or a string literal, in any case).
pub open spec fn fields_rule_of(v: Seq<TokenV>) -> Option<FieldsAutoRule> {
    match rule_word_of(v) {
        Some(w) => fields_rule_named(w),
        None => None,
    }
}

/// The visibility `pub`, with no restriction.
pub open spec fn is_public(vis: Seq<TokenV>) -> bool {
    vis == seq![TokenV::Ident("pub"@)]
}

/// Whether a rule lets a field of visibility `vis` take part.
pub open spec fn field_needed(rule: FieldsAutoRule, vis: Seq<TokenV>) -> bool {
    match rule {
        FieldsAutoRule::All => true,
        FieldsAutoRule::Public => is_public(vis),
        FieldsAutoRule::No => false,
    }
}

impl FieldsAutoRule {
    /// Whether the rule lets a field of visibility `vis` take part.
    pub fn needs_accessor(&self, vis: &Vec<Token>) -> (r: bool)
        ensures
            r == field_needed(*self, view_tokens(vis@)),
    {
        match self {
            FieldsAutoRule::All => true,
            FieldsAutoRule::Public => {
                let r = vis.len() == 1 && crate::tokens::ident_is(&vis[0], "pub");
                proof {
                    let one = seq![TokenV::Ident("pub"@)];
                    assert(one.len() == 1 && one[0] == TokenV::Ident("pub"@));
                    if r {
                        assert(view_tokens(vis@) =~= seq![TokenV::Ident("pub"@)]);
                    } else if vis.len() == 1 {
                        assert(view_tokens(vis@)[0] != TokenV::Ident("pub"@));
                    } else {
                        assert(view_tokens(vis@).len() != 1);
                    }
                }
                r
            },
            FieldsAutoRule::No => false,
        }
    }

    fn from_value(v: &Vec<Token>) -> (r: Option<FieldsAutoRule>)
        ensures
            r == fields_rule_of(view_tokens(v@)),
    {
        match rule_word(v) {
            Some(w) => if text_is(&w, "all") {
                Some(FieldsAutoRule::All)
            } else if text_is(&w, "public") {
                Some(FieldsAutoRule::Public)
            } else if text_is(&w, "no") {
                Some(FieldsAutoRule::No)
            } else {
                None
            },
            None => None,
        }
    }
}

/// A metadata text: its value, and the string literal that wrote it.
#[derive(Debug)]
pub struct Metadata {
    pub value: String,
    pub literal: String,
}

pub struct MetaV {
    pub value: Seq<char>,
    pub literal: Seq<char>,
}

impl View for Metadata {
    type V = MetaV;

    open spec fn view(&self) -> MetaV {
        MetaV { value: self.value@, literal: self.literal@ }
    }
}

impl Clone for Metadata {
    fn clone(&self) -> (r: Self)
        ensures
            r == *self,
    {
        Metadata { value: self.value.clone(), literal: self.literal.clone() }
    }
}

/// The reflection policy of a structure, or the marker of one field.
#[derive(Debug)]
pub struct FieldsAttribute {
    pub rule: FieldsAutoRule,
    pub metadata: Option<Metadata>,
}

pub struct FieldsV {
    pub rule: FieldsAutoRule,
    pub metadata: Option<MetaV>,
}

/// Optional metadata as a view.
pub open spec fn view_opt_meta(m: Option<Metadata>) -> Option<MetaV> {
    match m {
        Some(x) => Some(x@),
        None => None,
    }
}

impl View for FieldsAttribute {
    type V = FieldsV;

    open spec fn view(&self) -> FieldsV {
        FieldsV { rule: self.rule, metadata: view_opt_meta(self.metadata) }
    }
}

/// The policy after one more argument.
pub open spec fn fields_step(a: ArgV, p: FieldsV) -> Result<FieldsV, ErrorV> {
    match key_of(Family::Fields, a) {
        Err(e) => Err(e),
        Ok((k, v)) => {
            let lk = lower_of(k);
            if lk == "rule"@ {
                match fields_rule_of(v) {
                    Some(r) => Ok(FieldsV { rule: r, metadata: p.metadata }),
                    None => Err(ErrorV::UnrecognizedValue { family: Family::Fields, option: k }),
                }
            } else if lk == "metadata"@ || lk == "meta"@ {
                match str_value_of(v) {
                    Some(m) => Ok(
                        FieldsV {
                            rule: p.rule,
                            metadata: Some(MetaV { value: m, literal: v[0]->Literal_0 }),
                        },
                    ),
                    None => Err(ErrorV::UnrecognizedValue { family: Family::Fields, option: k }),
                }
            } else {
                Err(ErrorV::UnknownOption { family: Family::Fields, keyword: k })
            }
        },
    }
}

/// The policy after the arguments from `i` on.
pub open spec fn fields_from(args: Seq<ArgV>, i: int, p: FieldsV) -> Result<FieldsV, ErrorV>
    decreases args.len() - i,
{
    if i < 0 || i >= args.len() {
        Ok(p)
    } else {
        match fields_step(args[i], p) {
            Ok(n) => fields_from(args, i + 1, n),
            Err(e) => Err(e),
        }
    }
}

/// The policy that an argument list describes: rule `No` and no metadata
/// unless given.
pub open spec fn fields_of(s: Seq<TokenV>) -> Result<FieldsV, ErrorV> {
    match arg_list_of(Family::Fields, s) {
        Err(e) => Err(e),
        Ok(args) => fields_from(args, 0, FieldsV { rule: FieldsAutoRule::No, metadata: None }),
    }
}

impl FieldsAttribute {
    fn apply(&mut self, a: &Arg) -> (r: Result<(), DirectiveError>)
        ensures
            match r {
                Ok(_) => fields_step(a@, old(self)@) == Ok::<FieldsV, ErrorV>(final(self)@),
                Err(e) => fields_step(a@, old(self)@) == Err::<FieldsV, ErrorV>(e@),
            },
    {
        let (k, lk, v) = arg_key(Family::Fields, a)?;
        if text_is(&lk, "rule") {
            match FieldsAutoRule::from_value(v) {
                Some(r) => {
                    self.rule = r;
                    Ok(())
                },
                None => Err(DirectiveError::UnrecognizedValue { family: Family::Fields, option: k }),
            }
        } else if text_is(&lk, "metadata") || text_is(&lk, "meta") {
            match str_value(v) {
                Some(m) => {
                    let literal = match &v[0] {
                        Token::Literal(t) => t.clone(),
                        _ => String::new(),
                    };
                    self.metadata = Some(Metadata { value: m, literal });
                    Ok(())
                },
                None => Err(DirectiveError::UnrecognizedValue { family: Family::Fields, option: k }),
            }
        } else {
            Err(DirectiveError::UnknownOption { family: Family::Fields, keyword: k })
        }
    }

    /// Reads the arguments of a reflection directive.
    pub fn parse(toks: &Vec<Token>) -> (r: Result<Self, DirectiveError>)
        ensures
            crate::error::view_result(r) == fields_of(view_tokens(toks@)),
    {
        let args = parse_arg_list(Family::Fields, toks)?;
        let ghost av = args@.map_values(|x: Arg| x@);
        let mut p = FieldsAttribute { rule: FieldsAutoRule::No, metadata: None };
        let mut i: usize = 0;
        while i < args.len()
            invariant
                i <= args@.len(),
                av == args@.map_values(|x: Arg| x@),
                arg_list_of(Family::Fields, view_tokens(toks@)) == Ok::<Seq<ArgV>, ErrorV>(av),
                fields_of(view_tokens(toks@)) == fields_from(av, i as int, p@),
            decreases args@.len() - i,
        {
            let step = p.apply(&args[i]);
            if let Err(e) = step {
                return Err(e);
            }
            i += 1;
        }
        Ok(p)
    }
}

} // verus!

verus! {

/// A field annotation read by the reflection directive: a reflective marker,
/// in short (`field(...)`) or umbrella (`roopert(fields, ...)`) form, is
/// consumed and gives its metadata (`Some`); every other annotation is kept
/// (`None`).
pub open spec fn field_mark_of(a: AttrV, name: Seq<char>) -> Result<Option<Option<MetaV>>, ErrorV> {
    if attr_named(a, "field"@) {
        match attr_args_of(a.tokens) {
            Some(t) => match fields_of(t) {
                Ok(m) => Ok(Some(m.metadata)),
                Err(_) => Err(malformed_field(Family::Fields, name)),
            },
            None => Err(malformed_field(Family::Fields, name)),
        }
    } else if attr_named(a, "roopert"@) {
        match attr_args_of(a.tokens) {
            Some(t) => match root_of(t) {
                Ok(RootV::Fields(m)) => Ok(Some(m.metadata)),
                Ok(_) => Ok(None),
                Err(_) => Err(malformed_field(Family::Roopert, name)),
            },
            None => Err(malformed_field(Family::Roopert, name)),
        }
    } else {
        Ok(None)
    }
}

/// A field's annotations without its reflective markers, whether it had one,
/// and the metadata of the last.
pub struct FieldScanV {
    pub kept: Seq<AttrV>,
    pub marked: bool,
    pub meta: Option<MetaV>,
}

/// Reads the annotations of the field `name` in order; the first that fails
/// ends the reading.
pub open spec fn field_scan(attrs: Seq<AttrV>, name: Seq<char>) -> Result<FieldScanV, ErrorV>
    decreases attrs.len(),
{
    if attrs.len() == 0 {
        Ok(FieldScanV { kept: Seq::empty(), marked: false, meta: None })
    } else {
        match field_scan(attrs.drop_last(), name) {
            Err(e) => Err(e),
            Ok(st) => match field_mark_of(attrs.last(), name) {
                Err(e) => Err(e),
                Ok(Some(m)) => Ok(FieldScanV { kept: st.kept, marked: true, meta: m }),
                Ok(None) => Ok(
                    FieldScanV { kept: st.kept.push(attrs.last()), marked: st.marked, meta: st.meta },
                ),
            },
        }
    }
}

/// One field as the reflection directive sees it: without its markers,
/// whether it takes part, and its metadata.
pub struct ReflectField {
    pub field: Field,
    pub included: bool,
    pub meta: Option<Metadata>,
}

pub struct ReflectFieldV {
    pub field: FieldV,
    pub included: bool,
    pub meta: Option<MetaV>,
}

impl View for ReflectField {
    type V = ReflectFieldV;

    open spec fn view(&self) -> ReflectFieldV {
        ReflectFieldV { field: self.field@, included: self.included, meta: view_opt_meta(self.meta) }
    }
}

/// A field takes part where it has a marker or where the rule asks for it.
/// Its metadata is its marker's, else the structure's default.
pub open spec fn reflect_field_of(p: FieldsV, f: FieldV) -> Result<ReflectFieldV, ErrorV> {
    match field_scan(f.attrs, f.name) {
        Err(e) => Err(e),
        Ok(st) => {
            let field = FieldV { attrs: st.kept, vis: f.vis, name: f.name, ty: f.ty };
            if st.marked {
                Ok(
                    ReflectFieldV {
                        field,
                        included: true,
                        meta: if st.meta is Some {
                            st.meta
                        } else {
                            p.metadata
                        },
                    },
                )
            } else if field_needed(p.rule, f.vis) {
                Ok(ReflectFieldV { field, included: true, meta: p.metadata })
            } else {
                Ok(ReflectFieldV { field, included: false, meta: None })
            }
        },
    }
}

/// Every field read in order; the first that fails ends the reading.
pub open spec fn reflect_fields_of(p: FieldsV, fs: Seq<FieldV>) -> Result<Seq<ReflectFieldV>, ErrorV>
    decreases fs.len(),
{
    if fs.len() == 0 {
        Ok(Seq::empty())
    } else {
        match reflect_fields_of(p, fs.drop_last()) {
            Err(e) => Err(e),
            Ok(ps) => match reflect_field_of(p, fs.last()) {
                Ok(x) => Ok(ps.push(x)),
                Err(e) => Err(e),
            },
        }
    }
}

/// The string literal that writes a field name.
pub open spec fn name_literal(n: Seq<char>) -> TokenV {
    TokenV::Literal(seq!['"'] + n + seq!['"'])
}

/// `"name",` for a field that takes part.
pub open spec fn list_entry(r: ReflectFieldV) -> Seq<TokenV> {
    if r.included {
        seq![name_literal(r.field.name), TokenV::Punct(',', false)]
    } else {
        Seq::empty()
    }
}

/// `"name" => Some(&[mut] self.name),` for a field that takes part.
pub open spec fn get_arm(r: ReflectFieldV, m: bool) -> Seq<TokenV> {
    if r.included {
        seq![
            name_literal(r.field.name),
            TokenV::Punct('=', true),
            TokenV::Punct('>', false),
            TokenV::Ident("Some"@),
            TokenV::Open(Delim::Paren),
            TokenV::Punct('&', false),
        ] + mut_tokens(m) + seq![
            TokenV::Ident("self"@),
            TokenV::Punct('.', false),
            TokenV::Ident(r.field.name),
            TokenV::Close(Delim::Paren),
            TokenV::Punct(',', false),
        ]
    } else {
        Seq::empty()
    }
}

/// `Some("text")` or `None`.
pub open spec fn meta_value(m: Option<MetaV>) -> Seq<TokenV> {
    match m {
        Some(x) => seq![
            TokenV::Ident("Some"@),
            TokenV::Open(Delim::Paren),
            TokenV::Literal(x.literal),
            TokenV::Close(Delim::Paren),
        ],
        None => seq![TokenV::Ident("None"@)],
    }
}

/// `"name" => Some("text"),` or `"name" => None,` for a field that takes part.
pub open spec fn meta_arm(r: ReflectFieldV) -> Seq<TokenV> {
    if r.included {
        seq![name_literal(r.field.name), TokenV::Punct('=', true), TokenV::Punct('>', false)]
            + meta_value(r.meta) + seq![TokenV::Punct(',', false)]
    } else {
        Seq::empty()
    }
}

/// The names of the fields that take part, in order.
pub open spec fn list_entries(rs: Seq<ReflectFieldV>) -> Seq<TokenV>
    decreases rs.len(),
{
    if rs.len() == 0 {
        Seq::empty()
    } else {
        list_entries(rs.drop_last()) + list_entry(rs.last())
    }
}

/// The match arms of `get` or `get_mut`.
pub open spec fn get_arms(rs: Seq<ReflectFieldV>, m: bool) -> Seq<TokenV>
    decreases rs.len(),
{
    if rs.len() == 0 {
        Seq::empty()
    } else {
        get_arms(rs.drop_last(), m) + get_arm(rs.last(), m)
    }
}

/// The match arms of `metadata`.
pub open spec fn meta_arms(rs: Seq<ReflectFieldV>) -> Seq<TokenV>
    decreases rs.len(),
{
    if rs.len() == 0 {
        Seq::empty()
    } else {
        meta_arms(rs.drop_last()) + meta_arm(rs.last())
    }
}

/// `_ => None`, then the end of the match and of the method.
pub open spec fn match_tail() -> Seq<TokenV> {
    seq![
        TokenV::Ident("_"@),
        TokenV::Punct('=', true),
        TokenV::Punct('>', false),
        TokenV::Ident("None"@),
        TokenV::Close(Delim::Brace),
        TokenV::Close(Delim::Brace),
    ]
}

/// `fn fields(&self) -> &[&str] { &[`
pub open spec fn fields_fn_head() -> Seq<TokenV> {
    seq![
        TokenV::Ident("fn"@),
        TokenV::Ident("fields"@),
        TokenV::Open(Delim::Paren),
        TokenV::Punct('&', false),
        TokenV::Ident("self"@),
        TokenV::Close(Delim::Paren),
        TokenV::Punct('-', true),
        TokenV::Punct('>', false),
        TokenV::Punct('&', false),
        TokenV::Open(Delim::Bracket),
        TokenV::Punct('&', false),
        TokenV::Ident("str"@),
        TokenV::Close(Delim::Bracket),
        TokenV::Open(Delim::Brace),
        TokenV::Punct('&', false),
        TokenV::Open(Delim::Bracket),
    ]
}

/// `fn NAME(&[mut] self, field_name: &str) -> Option<&[mut] dyn std::any::Any> { match field_name {`
pub open spec fn get_fn_head(m: bool) -> Seq<TokenV> {
    seq![
        TokenV::Ident("fn"@),
        TokenV::Ident(if m { "get_mut"@ } else { "get"@ }),
        TokenV::Open(Delim::Paren),
        TokenV::Punct('&', false),
    ] + mut_tokens(m) + seq![
        TokenV::Ident("self"@),
        TokenV::Punct(',', false),
        TokenV::Ident("field_name"@),
        TokenV::Punct(':', false),
        TokenV::Punct('&', false),
        TokenV::Ident("str"@),
        TokenV::Close(Delim::Paren),
        TokenV::Punct('-', true),
        TokenV::Punct('>', false),
        TokenV::Ident("Option"@),
        TokenV::Punct('<', false),
        TokenV::Punct('&', false),
    ] + mut_tokens(m) + seq![
        TokenV::Ident("dyn"@),
        TokenV::Ident("std"@),
        TokenV::Punct(':', true),
        TokenV::Punct(':', false),
        TokenV::Ident("any"@),
        TokenV::Punct(':', true),
        TokenV::Punct(':', false),
        TokenV::Ident("Any"@),
        TokenV::Punct('>', false),
        TokenV::Open(Delim::Brace),
        TokenV::Ident("match"@),
        TokenV::Ident("field_name"@),
        TokenV::Open(Delim::Brace),
    ]
}

/// `fn metadata(&self, field_name: &str) -> Option<&str> { match field_name {`
pub open spec fn meta_fn_head() -> Seq<TokenV> {
    seq![
        TokenV::Ident("fn"@),
        TokenV::Ident("metadata"@),
        TokenV::Open(Delim::Paren),
        TokenV::Punct('&', false),
        TokenV::Ident("self"@),
        TokenV::Punct(',', false),
        TokenV::Ident("field_name"@),
        TokenV::Punct(':', false),
        TokenV::Punct('&', false),
        TokenV::Ident("str"@),
        TokenV::Close(Delim::Paren),
        TokenV::Punct('-', true),
        TokenV::Punct('>', false),
        TokenV::Ident("Option"@),
        TokenV::Punct('<', false),
        TokenV::Punct('&', false),
        TokenV::Ident("str"@),
        TokenV::Punct('>', false),
        TokenV::Open(Delim::Brace),
        TokenV::Ident("match"@),
        TokenV::Ident("field_name"@),
        TokenV::Open(Delim::Brace),
    ]
}

/// `roopert::Fields`, the run-time trait.
pub open spec fn fields_trait_path() -> Seq<TokenV> {
    seq![
        TokenV::Ident("roopert"@),
        TokenV::Punct(':', true),
        TokenV::Punct(':', false),
        TokenV::Ident("Fields"@),
    ]
}

/// The implementation of the run-time reflection trait.
pub open spec fn reflection_impl_tokens(d: StructV, rs: Seq<ReflectFieldV>) -> Seq<TokenV> {
    trait_impl_head_tokens(d, fields_trait_path()) + seq![TokenV::Open(Delim::Brace)]
        + fields_fn_head() + list_entries(rs) + seq![
        TokenV::Close(Delim::Bracket),
        TokenV::Close(Delim::Brace),
    ] + get_fn_head(false) + get_arms(rs, false) + match_tail() + get_fn_head(true) + get_arms(
        rs,
        true,
    ) + match_tail() + meta_fn_head() + meta_arms(rs) + match_tail() + seq![
        TokenV::Close(Delim::Brace),
    ]
}

/// The fields of the read declaration.
pub open spec fn reflect_plain_fields(rs: Seq<ReflectFieldV>) -> Seq<FieldV> {
    rs.map_values(|x: ReflectFieldV| x.field)
}

/// What the reflection directive generates: the declaration without its
/// markers, then the implementation of the run-time trait.
pub open spec fn fields_generated(p: FieldsV, item: ItemV) -> Result<Seq<TokenV>, ErrorV> {
    match item {
        ItemV::Other(_) => Err(ErrorV::UnsupportedTarget { family: Family::Fields }),
        ItemV::Struct(d) => match reflect_fields_of(p, d.fields) {
            Err(e) => Err(e),
            Ok(rs) => Ok(
                struct_tokens(with_fields_of(d, reflect_plain_fields(rs))) + reflection_impl_tokens(
                    d,
                    rs,
                ),
            ),
        },
    }
}

proof fn lemma_field_scan_err(attrs: Seq<AttrV>, name: Seq<char>, k: int)
    requires
        0 <= k <= attrs.len(),
        field_scan(attrs.take(k), name) is Err,
    ensures
        field_scan(attrs, name) == field_scan(attrs.take(k), name),
    decreases attrs.len() - k,
{
    if k < attrs.len() {
        assert(attrs.take(k + 1).drop_last() =~= attrs.take(k));
        lemma_field_scan_err(attrs, name, k + 1);
    } else {
        assert(attrs.take(k) =~= attrs);
    }
}

proof fn lemma_reflect_fields_err(p: FieldsV, fs: Seq<FieldV>, k: int)
    requires
        0 <= k <= fs.len(),
        reflect_fields_of(p, fs.take(k)) is Err,
    ensures
        reflect_fields_of(p, fs) == reflect_fields_of(p, fs.take(k)),
    decreases fs.len() - k,
{
    if k < fs.len() {
        assert(fs.take(k + 1).drop_last() =~= fs.take(k));
        lemma_reflect_fields_err(p, fs, k + 1);
    } else {
        assert(fs.take(k) =~= fs);
    }
}

/// A copy of optional metadata.
fn copy_meta(m: &Option<Metadata>) -> (r: Option<Metadata>)
    ensures
        view_opt_meta(r) == view_opt_meta(*m),
{
    match m {
        Some(x) => Some(x.clone()),
        None => None,
    }
}

fn field_mark(a: &Attr, name: &String) -> (r: Result<Option<Option<Metadata>>, DirectiveError>)
    ensures
        match r {
            Ok(Some(m)) => field_mark_of(a@, name@) == Ok::<Option<Option<MetaV>>, ErrorV>(
                Some(view_opt_meta(m)),
            ),
            Ok(None) => field_mark_of(a@, name@) == Ok::<Option<Option<MetaV>>, ErrorV>(None),
            Err(e) => field_mark_of(a@, name@) == Err::<Option<Option<MetaV>>, ErrorV>(e@),
        },
{
    if is_field_attribute(a) {
        match attr_args(a) {
            Some(t) => match FieldsAttribute::parse(&t) {
                Ok(m) => Ok(Some(m.metadata)),
                Err(_) => Err(DirectiveError::MalformedDirective { family: Family::Fields, text: name.clone() }),
            },
            None => Err(DirectiveError::MalformedDirective { family: Family::Fields, text: name.clone() }),
        }
    } else if is_roopert_attribute(a) {
        match attr_args(a) {
            Some(t) => match RoopertAttribute::parse(&t) {
                Ok(r) => match r.attr {
                    RoopertAttributeType::Fields(m) => Ok(Some(m.metadata)),
                    _ => Ok(None),
                },
                Err(_) => Err(DirectiveError::MalformedDirective { family: Family::Roopert, text: name.clone() }),
            },
            None => Err(DirectiveError::MalformedDirective { family: Family::Roopert, text: name.clone() }),
        }
    } else {
        Ok(None)
    }
}

impl FieldsAttribute {
    /// Reads one field: its markers are consumed.
    pub fn reflect_field(&self, f: &Field) -> (r: Result<ReflectField, DirectiveError>)
        ensures
            crate::error::view_result(r) == reflect_field_of(self@, f@),
    {
        let ghost va = view_attrs(f.attrs@);
        let mut kept: Vec<Attr> = Vec::new();
        let mut marked = false;
        let mut meta: Option<Metadata> = None;
        let mut i: usize = 0;
        assert(va.take(0) =~= Seq::<AttrV>::empty());
        assert(view_attrs(kept@) =~= Seq::<AttrV>::empty());
        while i < f.attrs.len()
            invariant
                i <= f.attrs@.len(),
                va == view_attrs(f.attrs@),
                field_scan(va.take(i as int), f.name@) == Ok::<FieldScanV, ErrorV>(
                    FieldScanV { kept: view_attrs(kept@), marked, meta: view_opt_meta(meta) },
                ),
            decreases f.attrs@.len() - i,
        {
            let ghost k0 = view_attrs(kept@);
            assert(va.take(i + 1).drop_last() =~= va.take(i as int));
            assert(va.take(i + 1).last() == f.attrs@[i as int]@);
            match field_mark(&f.attrs[i], &f.name) {
                Err(e) => {
                    proof {
                        lemma_field_scan_err(va, f.name@, i + 1);
                    }
                    return Err(e);
                },
                Ok(Some(m)) => {
                    marked = true;
                    meta = m;
                },
                Ok(None) => {
                    kept.push(f.attrs[i].duplicate());
                    assert(view_attrs(kept@) =~= k0.push(f.attrs@[i as int]@));
                },
            }
            i += 1;
        }
        assert(va.take(f.attrs@.len() as int) =~= va);
        let field = Field { attrs: kept, vis: copy_tokens(f.vis.as_slice()), name: f.name.clone(), ty: copy_tokens(f.ty.as_slice()) };
        if marked {
            let meta = if meta.is_some() {
                meta
            } else {
                copy_meta(&self.metadata)
            };
            Ok(ReflectField { field, included: true, meta })
        } else if self.rule.needs_accessor(&f.vis) {
            Ok(ReflectField { field, included: true, meta: copy_meta(&self.metadata) })
        } else {
            Ok(ReflectField { field, included: false, meta: None })
        }
    }

    /// Reads every field of a declaration.
    pub fn reflect_fields(&self, d: &StructDecl) -> (r: Result<Vec<ReflectField>, DirectiveError>)
        ensures
            match r {
                Ok(ps) => reflect_fields_of(self@, d@.fields) == Ok::<Seq<ReflectFieldV>, ErrorV>(
                    ps@.map_values(|x: ReflectField| x@),
                ),
                Err(e) => reflect_fields_of(self@, d@.fields) == Err::<Seq<ReflectFieldV>, ErrorV>(e@),
            },
    {
        let ghost fs = d@.fields;
        let mut ps: Vec<ReflectField> = Vec::new();
        let mut i: usize = 0;
        assert(fs.take(0) =~= Seq::<FieldV>::empty());
        assert(ps@.map_values(|x: ReflectField| x@) =~= Seq::<ReflectFieldV>::empty());
        while i < d.fields.len()
            invariant
                i <= d.fields@.len(),
                fs == d@.fields,
                fs == view_fields(d.fields@),
                ps@.len() == i,
                reflect_fields_of(self@, fs.take(i as int)) == Ok::<Seq<ReflectFieldV>, ErrorV>(
                    ps@.map_values(|x: ReflectField| x@),
                ),
            decreases d.fields@.len() - i,
        {
            let ghost p0 = ps@.map_values(|x: ReflectField| x@);
            assert(fs.take(i + 1).drop_last() =~= fs.take(i as int));
            assert(fs.take(i + 1).last() == d.fields@[i as int]@);
            let x = match self.reflect_field(&d.fields[i]) {
                Ok(x) => x,
                Err(e) => {
                    proof {
                        lemma_reflect_fields_err(self@, fs, i + 1);
                    }
                    return Err(e);
                },
            };
            ps.push(x);
            assert(ps@.map_values(|x: ReflectField| x@) =~= p0.push(ps@[i as int]@));
            i += 1;
        }
        assert(fs.take(d.fields@.len() as int) =~= fs);
        Ok(ps)
    }
}

/// The string literal that writes a field name.
fn name_literal_token(n: &String) -> (r: Token)
    ensures
        r@ == name_literal(n@),
{
    let mut s = String::new();
    push_char(&mut s, '"');
    s.append(n.as_str());
    push_char(&mut s, '"');
    assert(s@ =~= seq!['"'] + n@ + seq!['"']);
    Token::Literal(s)
}

fn push_list_entry(out: &mut Vec<Token>, r: &ReflectField)
    ensures
        view_tokens(final(out)@) == view_tokens(old(out)@) + list_entry(r@),
{
    let ghost before = view_tokens(out@);
    if r.included {
        push_one(out, name_literal_token(&r.field.name));
        push_one(out, Token::Punct(',', false));
    }
    assert(view_tokens(out@) =~= before + list_entry(r@));
}

fn push_get_arm(out: &mut Vec<Token>, r: &ReflectField, m: bool)
    ensures
        view_tokens(final(out)@) == view_tokens(old(out)@) + get_arm(r@, m),
{
    let ghost before = view_tokens(out@);
    if r.included {
        push_one(out, name_literal_token(&r.field.name));
        push_one(out, Token::Punct('=', true));
        push_one(out, Token::Punct('>', false));
        push_one(out, ident("Some"));
        push_one(out, Token::Open(Delim::Paren));
        push_one(out, Token::Punct('&', false));
        push_mut(out, m);
        push_one(out, ident("self"));
        push_one(out, Token::Punct('.', false));
        push_one(out, Token::Ident(r.field.name.clone()));
        push_one(out, Token::Close(Delim::Paren));
        push_one(out, Token::Punct(',', false));
    }
    assert(view_tokens(out@) =~= before + get_arm(r@, m));
}

fn push_meta_arm(out: &mut Vec<Token>, r: &ReflectField)
    ensures
        view_tokens(final(out)@) == view_tokens(old(out)@) + meta_arm(r@),
{
    let ghost before = view_tokens(out@);
    if r.included {
        push_one(out, name_literal_token(&r.field.name));
        push_one(out, Token::Punct('=', true));
        push_one(out, Token::Punct('>', false));
        match &r.meta {
            Some(x) => {
                push_one(out, ident("Some"));
                push_one(out, Token::Open(Delim::Paren));
                push_one(out, Token::Literal(x.literal.clone()));
                push_one(out, Token::Close(Delim::Paren));
            },
            None => {
                push_one(out, ident("None"));
            },
        }
        push_one(out, Token::Punct(',', false));
    }
    assert(view_tokens(out@) =~= before + meta_arm(r@));
}

/// Which list of a reflection table to write.
enum TablePart {
    Names,
    Get(bool),
    Meta,
}

spec fn table_part_tokens(rs: Seq<ReflectFieldV>, k: TablePart) -> Seq<TokenV> {
    match k {
        TablePart::Names => list_entries(rs),
        TablePart::Get(m) => get_arms(rs, m),
        TablePart::Meta => meta_arms(rs),
    }
}

/// Appends one list of the table, over every field.
fn push_table_part(out: &mut Vec<Token>, rs: &Vec<ReflectField>, k: TablePart)
    ensures
        view_tokens(final(out)@) == view_tokens(old(out)@) + table_part_tokens(
            rs@.map_values(|x: ReflectField| x@),
            k,
        ),
{
    let ghost before = view_tokens(out@);
    let ghost rv = rs@.map_values(|x: ReflectField| x@);
    let mut i: usize = 0;
    assert(rv.take(0) =~= Seq::<ReflectFieldV>::empty());
    assert(view_tokens(out@) =~= before + table_part_tokens(rv.take(0), k));
    while i < rs.len()
        invariant
            i <= rs@.len(),
            rv == rs@.map_values(|x: ReflectField| x@),
            view_tokens(out@) == before + table_part_tokens(rv.take(i as int), k),
        decreases rs@.len() - i,
    {
        match k {
            TablePart::Names => push_list_entry(out, &rs[i]),
            TablePart::Get(m) => push_get_arm(out, &rs[i], m),
            TablePart::Meta => push_meta_arm(out, &rs[i]),
        }
        assert(rv.take(i + 1).drop_last() =~= rv.take(i as int));
        assert(rv.take(i + 1).last() == rs@[i as int]@);
        i += 1;
        assert(view_tokens(out@) =~= before + table_part_tokens(rv.take(i as int), k));
    }
    assert(rv.take(rs@.len() as int) =~= rv);
}

fn push_match_tail(out: &mut Vec<Token>)
    ensures
        view_tokens(final(out)@) == view_tokens(old(out)@) + match_tail(),
{
    let ghost before = view_tokens(out@);
    push_one(out, ident("_"));
    push_one(out, Token::Punct('=', true));
    push_one(out, Token::Punct('>', false));
    push_one(out, ident("None"));
    push_one(out, Token::Close(Delim::Brace));
    push_one(out, Token::Close(Delim::Brace));
    assert(view_tokens(out@) =~= before + match_tail());
}

fn push_fields_fn_head(out: &mut Vec<Token>)
    ensures
        view_tokens(final(out)@) == view_tokens(old(out)@) + fields_fn_head(),
{
    let ghost before = view_tokens(out@);
    push_one(out, ident("fn"));
    push_one(out, ident("fields"));
    push_one(out, Token::Open(Delim::Paren));
    push_one(out, Token::Punct('&', false));
    push_one(out, ident("self"));
    push_one(out, Token::Close(Delim::Paren));
    push_one(out, Token::Punct('-', true));
    push_one(out, Token::Punct('>', false));
    push_one(out, Token::Punct('&', false));
    push_one(out, Token::Open(Delim::Bracket));
    push_one(out, Token::Punct('&', false));
    push_one(out, ident("str"));
    push_one(out, Token::Close(Delim::Bracket));
    push_one(out, Token::Open(Delim::Brace));
    push_one(out, Token::Punct('&', false));
    push_one(out, Token::Open(Delim::Bracket));
    assert(view_tokens(out@) =~= before + fields_fn_head());
}

fn push_get_fn_head(out: &mut Vec<Token>, m: bool)
    ensures
        view_tokens(final(out)@) == view_tokens(old(out)@) + get_fn_head(m),
{
    let ghost before = view_tokens(out@);
    push_one(out, ident("fn"));
    push_one(out, if m { ident("get_mut") } else { ident("get") });
    push_one(out, Token::Open(Delim::Paren));
    push_one(out, Token::Punct('&', false));
    push_mut(out, m);
    push_one(out, ident("self"));
    push_one(out, Token::Punct(',', false));
    push_one(out, ident("field_name"));
    push_one(out, Token::Punct(':', false));
    push_one(out, Token::Punct('&', false));
    push_one(out, ident("str"));
    push_one(out, Token::Close(Delim::Paren));
    push_one(out, Token::Punct('-', true));
    push_one(out, Token::Punct('>', false));
    push_one(out, ident("Option"));
    push_one(out, Token::Punct('<', false));
    push_one(out, Token::Punct('&', false));
    push_mut(out, m);
    push_one(out, ident("dyn"));
    push_one(out, ident("std"));
    push_one(out, Token::Punct(':', true));
    push_one(out, Token::Punct(':', false));
    push_one(out, ident("any"));
    push_one(out, Token::Punct(':', true));
    push_one(out, Token::Punct(':', false));
    push_one(out, ident("Any"));
    push_one(out, Token::Punct('>', false));
    push_one(out, Token::Open(Delim::Brace));
    push_one(out, ident("match"));
    push_one(out, ident("field_name"));
    push_one(out, Token::Open(Delim::Brace));
    assert(view_tokens(out@) =~= before + get_fn_head(m));
}

fn push_meta_fn_head(out: &mut Vec<Token>)
    ensures
        view_tokens(final(out)@) == view_tokens(old(out)@) + meta_fn_head(),
{
    let ghost before = view_tokens(out@);
    push_one(out, ident("fn"));
    push_one(out, ident("metadata"));
    push_one(out, Token::Open(Delim::Paren));
    push_one(out, Token::Punct('&', false));
    push_one(out, ident("self"));
    push_one(out, Token::Punct(',', false));
    push_one(out, ident("field_name"));
    push_one(out, Token::Punct(':', false));
    push_one(out, Token::Punct('&', false));
    push_one(out, ident("str"));
    push_one(out, Token::Close(Delim::Paren));
    push_one(out, Token::Punct('-', true));
    push_one(out, Token::Punct('>', false));
    push_one(out, ident("Option"));
    push_one(out, Token::Punct('<', false));
    push_one(out, Token::Punct('&', false));
    push_one(out, ident("str"));
    push_one(out, Token::Punct('>', false));
    push_one(out, Token::Open(Delim::Brace));
    push_one(out, ident("match"));
    push_one(out, ident("field_name"));
    push_one(out, Token::Open(Delim::Brace));
    assert(view_tokens(out@) =~= before + meta_fn_head());
}

/// The implementation of the run-time reflection trait for the structure.
pub fn reflection_impl(d: &StructDecl, rs: &Vec<ReflectField>) -> (r: Vec<Token>)
    ensures
        view_tokens(r@) == reflection_impl_tokens(d@, rs@.map_values(|x: ReflectField| x@)),
{
    let ghost rv = rs@.map_values(|x: ReflectField| x@);
    let mut tr: Vec<Token> = Vec::new();
    push_one(&mut tr, ident("roopert"));
    push_one(&mut tr, Token::Punct(':', true));
    push_one(&mut tr, Token::Punct(':', false));
    push_one(&mut tr, ident("Fields"));
    assert(view_tokens(tr@) =~= fields_trait_path());
    let mut out: Vec<Token> = Vec::new();
    push_trait_impl_head(&mut out, d, tr.as_slice());
    push_one(&mut out, Token::Open(Delim::Brace));
    push_fields_fn_head(&mut out);
    push_table_part(&mut out, rs, TablePart::Names);
    push_one(&mut out, Token::Close(Delim::Bracket));
    push_one(&mut out, Token::Close(Delim::Brace));
    push_get_fn_head(&mut out, false);
    push_table_part(&mut out, rs, TablePart::Get(false));
    push_match_tail(&mut out);
    push_get_fn_head(&mut out, true);
    push_table_part(&mut out, rs, TablePart::Get(true));
    push_match_tail(&mut out);
    push_meta_fn_head(&mut out);
    push_table_part(&mut out, rs, TablePart::Meta);
    push_match_tail(&mut out);
    push_one(&mut out, Token::Close(Delim::Brace));
    assert(view_tokens(out@) =~= reflection_impl_tokens(d@, rv));
    out
}

/// Copies of the fields that a reflection directive read.
fn reflect_field_copies(ps: &Vec<ReflectField>) -> (r: Vec<Field>)
    ensures
        view_fields(r@) == reflect_plain_fields(ps@.map_values(|x: ReflectField| x@)),
{
    let ghost pv = ps@.map_values(|x: ReflectField| x@);
    let mut r: Vec<Field> = Vec::new();
    let mut i: usize = 0;
    while i < ps.len()
        invariant
            i <= ps@.len(),
            pv == ps@.map_values(|x: ReflectField| x@),
            view_fields(r@) == reflect_plain_fields(pv).take(i as int),
        decreases ps@.len() - i,
    {
        let ghost r0 = view_fields(r@);
        r.push(ps[i].field.duplicate());
        assert(view_fields(r@) =~= r0.push(pv[i as int].field));
        i += 1;
        assert(view_fields(r@) =~= reflect_plain_fields(pv).take(i as int));
    }
    assert(reflect_plain_fields(pv).take(ps@.len() as int) =~= reflect_plain_fields(pv));
    r
}

impl Generate for FieldsAttribute {
    open spec fn generated(&self, input: ItemV) -> Result<Seq<TokenV>, ErrorV> {
        fields_generated(self@, input)
    }

    open spec fn appends(&self) -> bool {
        false
    }

    fn generate(&mut self, input: &Item) -> (r: Result<Vec<Token>, DirectiveError>) {
        match input {
            Item::Other(_) => Err(DirectiveError::UnsupportedTarget { family: Family::Fields }),
            Item::Struct(d) => {
                let rs = self.reflect_fields(d)?;
                let stripped = d.with_fields(reflect_field_copies(&rs));
                let mut out: Vec<Token> = Vec::new();
                push_struct(&mut out, &stripped);
                push_all(&mut out, reflection_impl(d, &rs).as_slice());
                Ok(out)
            },
        }
    }

    fn auto_append(&self) -> (r: bool) {
        false
    }
}

} // verus!
