//! The annotated declaration that the directives work on: a structure with
//! named fields, each with its annotations, visibility and type; annotation
//! classification; and the declaration's tokens.
use vstd::prelude::*;
use crate::tokens::{Delim, Token, TokenV, copy_tokens, step_depth, token_range, view_tokens};

verus! {

/// One annotation `#[path tokens]`, its path and what follows the path.
#[derive(Debug)]
pub struct Attr {
    pub path: Vec<Token>,
    pub tokens: Vec<Token>,
}

pub struct AttrV {
    pub path: Seq<TokenV>,
    pub tokens: Seq<TokenV>,
}

impl View for Attr {
    type V = AttrV;

    open spec fn view(&self) -> AttrV {
        AttrV { path: view_tokens(self.path@), tokens: view_tokens(self.tokens@) }
    }
}

impl Attr {
    /// A copy of the annotation.
    pub fn duplicate(&self) -> (r: Attr)
        ensures
            r@ == self@,
    {
        Attr { path: copy_tokens(self.path.as_slice()), tokens: copy_tokens(self.tokens.as_slice()) }
    }
}

/// A named field.
#[derive(Debug)]
pub struct Field {
    pub attrs: Vec<Attr>,
    /// The visibility tokens: none for the default visibility.
    pub vis: Vec<Token>,
    pub name: String,
    pub ty: Vec<Token>,
}

pub struct FieldV {
    pub attrs: Seq<AttrV>,
    pub vis: Seq<TokenV>,
    pub name: Seq<char>,
    pub ty: Seq<TokenV>,
}

/// Annotations as views.
pub open spec fn view_attrs(s: Seq<Attr>) -> Seq<AttrV> {
    s.map_values(|a: Attr| a@)
}

impl View for Field {
    type V = FieldV;

    open spec fn view(&self) -> FieldV {
        FieldV {
            attrs: view_attrs(self.attrs@),
            vis: view_tokens(self.vis@),
            name: self.name@,
            ty: view_tokens(self.ty@),
        }
    }
}

/// Fields as views.
pub open spec fn view_fields(s: Seq<Field>) -> Seq<FieldV> {
    s.map_values(|f: Field| f@)
}

/// A structure with named fields. The generics are kept as written
/// (`<T: Clone>`), as an implementation introduces them (`<T: Clone>`, with no
/// defaults) and as the type names them (`<T>`).
#[derive(Debug)]
pub struct StructDecl {
    pub attrs: Vec<Attr>,
    pub vis: Vec<Token>,
    pub name: String,
    pub generics: Vec<Token>,
    pub impl_generics: Vec<Token>,
    pub type_generics: Vec<Token>,
    pub where_clause: Vec<Token>,
    pub fields: Vec<Field>,
}

pub struct StructV {
    pub attrs: Seq<AttrV>,
    pub vis: Seq<TokenV>,
    pub name: Seq<char>,
    pub generics: Seq<TokenV>,
    pub impl_generics: Seq<TokenV>,
    pub type_generics: Seq<TokenV>,
    pub where_clause: Seq<TokenV>,
    pub fields: Seq<FieldV>,
}

impl View for StructDecl {
    type V = StructV;

    open spec fn view(&self) -> StructV {
        StructV {
            attrs: view_attrs(self.attrs@),
            vis: view_tokens(self.vis@),
            name: self.name@,
            generics: view_tokens(self.generics@),
            impl_generics: view_tokens(self.impl_generics@),
            type_generics: view_tokens(self.type_generics@),
            where_clause: view_tokens(self.where_clause@),
            fields: view_fields(self.fields@),
        }
    }
}

/// What a directive is attached to: a structure with named fields, or any
/// other item, as its tokens.
#[derive(Debug)]
pub enum Item {
    Struct(StructDecl),
    Other(Vec<Token>),
}

/// The annotation's path ends in the identifier `w`.
pub open spec fn attr_named(a: AttrV, w: Seq<char>) -> bool {
    a.path.len() > 0 && a.path.last() == TokenV::Ident(w)
}

fn is_attribute(attr: &Attr, last: &str) -> (r: bool)
    ensures
        r == attr_named(attr@, last@),
{
    let n = attr.path.len();
    if n == 0 {
        return false;
    }
    let r = crate::tokens::ident_is(&attr.path[n - 1], last);
    assert(view_tokens(attr.path@).last() == attr.path@[n - 1]@);
    r
}

/// The delegate marker `parent`.
pub fn is_parent_attribute(attr: &Attr) -> (r: bool)
    ensures
        r == attr_named(attr@, "parent"@),
{
    is_attribute(attr, "parent")
}

/// The umbrella directive `roopert`.
pub fn is_roopert_attribute(attr: &Attr) -> (r: bool)
    ensures
        r == attr_named(attr@, "roopert"@),
{
    is_attribute(attr, "roopert")
}

/// The getter marker `get`.
pub fn is_getter_attribute(attr: &Attr) -> (r: bool)
    ensures
        r == attr_named(attr@, "get"@),
{
    is_attribute(attr, "get")
}

/// The setter marker `set`.
pub fn is_setter_attribute(attr: &Attr) -> (r: bool)
    ensures
        r == attr_named(attr@, "set"@),
{
    is_attribute(attr, "set")
}

/// An annotation named `metadata`.
pub fn is_metadata_attribute(attr: &Attr) -> (r: bool)
    ensures
        r == attr_named(attr@, "metadata"@),
{
    is_attribute(attr, "metadata")
}

/// The reflective-field marker `field`.
pub fn is_field_attribute(attr: &Attr) -> (r: bool)
    ensures
        r == attr_named(attr@, "field"@),
{
    is_attribute(attr, "field")
}

/// An annotation named `fields`.
pub fn is_fields_attribute(attr: &Attr) -> (r: bool)
    ensures
        r == attr_named(attr@, "fields"@),
{
    is_attribute(attr, "fields")
}

/// The first position from `i` on where the group depth, `d` before `i`,
/// comes back to zero.
pub open spec fn close_from(s: Seq<TokenV>, i: int, d: nat) -> Option<int>
    decreases s.len() - i,
{
    if i < 0 || i >= s.len() {
        None
    } else if step_depth(d, s[i]) == 0 {
        Some(i)
    } else {
        close_from(s, i + 1, step_depth(d, s[i]))
    }
}

/// The arguments of an annotation: none for a bare one (`#[get]`), the
/// contents of its parentheses for `#[get(...)]`, and nothing readable
/// otherwise.
pub open spec fn attr_args_of(t: Seq<TokenV>) -> Option<Seq<TokenV>> {
    if t.len() == 0 {
        Some(Seq::empty())
    } else if t[0] == TokenV::Open(Delim::Paren) && close_from(t, 0, 0) == Some(t.len() - 1) {
        Some(t.subrange(1, t.len() - 1))
    } else {
        None
    }
}

/// The arguments of an annotation (see `attr_args_of`).
pub fn attr_args(attr: &Attr) -> (r: Option<Vec<Token>>)
    ensures
        match r {
            Some(v) => attr_args_of(attr@.tokens) == Some(view_tokens(v@)),
            None => attr_args_of(attr@.tokens) is None,
        },
{
    let t = &attr.tokens;
    let ghost s = view_tokens(t@);
    let n = t.len();
    if n == 0 {
        let v: Vec<Token> = Vec::new();
        assert(view_tokens(v@) =~= Seq::<TokenV>::empty());
        return Some(v);
    }
    if !matches!(t[0], Token::Open(Delim::Paren)) {
        return None;
    }
    let mut i: usize = 0;
    let mut d: usize = 0;
    while i < n
        invariant
            n == t@.len(),
            i <= n,
            d <= i,
            s == view_tokens(t@),
            s[0] == TokenV::Open(Delim::Paren),
            attr@.tokens == s,
            i > 0 ==> d > 0,
            close_from(s, 0, 0) == close_from(s, i as int, d as nat),
        decreases n - i,
    {
        let ghost d_old = d as nat;
        match t[i] {
            Token::Open(_) => {
                d = d + 1;
            },
            Token::Close(_) => {
                if d > 0 {
                    d = d - 1;
                }
            },
            _ => {},
        }
        assert(d as nat == step_depth(d_old, s[i as int]));
        if d == 0 {
            assert(close_from(s, i as int, d_old) == Some(i as int));
            if i + 1 == n {
                let v = token_range(t, 1, n - 1);
                assert(view_tokens(v@) =~= s.subrange(1, s.len() - 1));
                return Some(v);
            }
            return None;
        }
        i += 1;
    }
    None
}

/// The tokens of one annotation.
pub open spec fn attr_tokens(a: AttrV) -> Seq<TokenV> {
    seq![TokenV::Punct('#', false), TokenV::Open(Delim::Bracket)] + a.path + a.tokens + seq![
        TokenV::Close(Delim::Bracket),
    ]
}

/// The tokens of a list of annotations.
pub open spec fn attrs_tokens(s: Seq<AttrV>) -> Seq<TokenV>
    decreases s.len(),
{
    if s.len() == 0 {
        Seq::empty()
    } else {
        attrs_tokens(s.drop_last()) + attr_tokens(s.last())
    }
}

/// The tokens of one field, with its comma.
pub open spec fn field_tokens(f: FieldV) -> Seq<TokenV> {
    attrs_tokens(f.attrs) + f.vis + seq![TokenV::Ident(f.name), TokenV::Punct(':', false)] + f.ty
        + seq![TokenV::Punct(',', false)]
}

/// The tokens of a list of fields.
pub open spec fn fields_tokens(s: Seq<FieldV>) -> Seq<TokenV>
    decreases s.len(),
{
    if s.len() == 0 {
        Seq::empty()
    } else {
        fields_tokens(s.drop_last()) + field_tokens(s.last())
    }
}

/// The tokens of a structure declaration.
pub open spec fn struct_tokens(d: StructV) -> Seq<TokenV> {
    attrs_tokens(d.attrs) + d.vis + seq![TokenV::Ident("struct"@), TokenV::Ident(d.name)]
        + d.generics + d.where_clause + seq![TokenV::Open(Delim::Brace)] + fields_tokens(d.fields)
        + seq![TokenV::Close(Delim::Brace)]
}

/// An identifier token.
pub fn ident(w: &str) -> (r: Token)
    ensures
        r@ == TokenV::Ident(w@),
{
    Token::Ident(String::from_str(w))
}

/// Appends a token.
pub fn push_one(out: &mut Vec<Token>, t: Token)
    ensures
        view_tokens(final(out)@) == view_tokens(old(out)@).push(t@),
{
    let ghost before = view_tokens(out@);
    out.push(t);
    assert(view_tokens(out@) =~= before.push(t@));
}

/// Appends copies of tokens.
pub fn push_all(out: &mut Vec<Token>, toks: &[Token])
    ensures
        view_tokens(final(out)@) == view_tokens(old(out)@) + view_tokens(toks@),
{
    let ghost before = view_tokens(out@);
    let mut i: usize = 0;
    while i < toks.len()
        invariant
            i <= toks@.len(),
            view_tokens(out@) == before + view_tokens(toks@).take(i as int),
        decreases toks@.len() - i,
    {
        let ghost mid = view_tokens(out@);
        out.push(toks[i].clone());
        assert(view_tokens(out@) =~= mid.push(toks@[i as int]@));
        i += 1;
        assert(view_tokens(out@) =~= before + view_tokens(toks@).take(i as int));
    }
    assert(view_tokens(toks@).take(toks@.len() as int) =~= view_tokens(toks@));
}

/// Appends the tokens of one annotation.
pub fn push_attr(out: &mut Vec<Token>, a: &Attr)
    ensures
        view_tokens(final(out)@) == view_tokens(old(out)@) + attr_tokens(a@),
{
    let ghost before = view_tokens(out@);
    push_one(out, Token::Punct('#', false));
    push_one(out, Token::Open(Delim::Bracket));
    push_all(out, a.path.as_slice());
    push_all(out, a.tokens.as_slice());
    push_one(out, Token::Close(Delim::Bracket));
    assert(view_tokens(out@) =~= before + attr_tokens(a@));
}

/// Appends the tokens of a list of annotations.
pub fn push_attrs(out: &mut Vec<Token>, attrs: &Vec<Attr>)
    ensures
        view_tokens(final(out)@) == view_tokens(old(out)@) + attrs_tokens(view_attrs(attrs@)),
{
    let ghost before = view_tokens(out@);
    let ghost va = view_attrs(attrs@);
    let mut i: usize = 0;
    assert(va.take(0) =~= Seq::<AttrV>::empty());
    assert(view_tokens(out@) =~= before + attrs_tokens(va.take(0)));
    while i < attrs.len()
        invariant
            i <= attrs@.len(),
            va == view_attrs(attrs@),
            view_tokens(out@) == before + attrs_tokens(va.take(i as int)),
        decreases attrs@.len() - i,
    {
        push_attr(out, &attrs[i]);
        assert(va.take(i + 1).drop_last() =~= va.take(i as int));
        i += 1;
        assert(view_tokens(out@) =~= before + attrs_tokens(va.take(i as int)));
    }
    assert(va.take(attrs@.len() as int) =~= va);
}

/// Appends the tokens of one field.
pub fn push_field(out: &mut Vec<Token>, f: &Field)
    ensures
        view_tokens(final(out)@) == view_tokens(old(out)@) + field_tokens(f@),
{
    let ghost before = view_tokens(out@);
    push_attrs(out, &f.attrs);
    push_all(out, f.vis.as_slice());
    push_one(out, Token::Ident(f.name.clone()));
    push_one(out, Token::Punct(':', false));
    push_all(out, f.ty.as_slice());
    push_one(out, Token::Punct(',', false));
    assert(view_tokens(out@) =~= before + field_tokens(f@));
}

/// Appends the tokens of a structure declaration.
pub fn push_struct(out: &mut Vec<Token>, d: &StructDecl)
    ensures
        view_tokens(final(out)@) == view_tokens(old(out)@) + struct_tokens(d@),
{
    let ghost before = view_tokens(out@);
    let ghost vf = view_fields(d.fields@);
    push_attrs(out, &d.attrs);
    push_all(out, d.vis.as_slice());
    push_one(out, ident("struct"));
    push_one(out, Token::Ident(d.name.clone()));
    push_all(out, d.generics.as_slice());
    push_all(out, d.where_clause.as_slice());
    push_one(out, Token::Open(Delim::Brace));
    let ghost head = view_tokens(out@);
    let mut i: usize = 0;
    assert(vf.take(0) =~= Seq::<FieldV>::empty());
    assert(view_tokens(out@) =~= head + fields_tokens(vf.take(0)));
    while i < d.fields.len()
        invariant
            i <= d.fields@.len(),
            vf == view_fields(d.fields@),
            view_tokens(out@) == head + fields_tokens(vf.take(i as int)),
        decreases d.fields@.len() - i,
    {
        push_field(out, &d.fields[i]);
        assert(vf.take(i + 1).drop_last() =~= vf.take(i as int));
        i += 1;
        assert(view_tokens(out@) =~= head + fields_tokens(vf.take(i as int)));
    }
    assert(vf.take(d.fields@.len() as int) =~= vf);
    push_one(out, Token::Close(Delim::Brace));
    assert(view_tokens(out@) =~= before + struct_tokens(d@));
}

} // verus!

verus! {

pub enum ItemV {
    Struct(StructV),
    Other(Seq<TokenV>),
}

impl View for Item {
    type V = ItemV;

    open spec fn view(&self) -> ItemV {
        match self {
            Item::Struct(d) => ItemV::Struct(d@),
            Item::Other(t) => ItemV::Other(view_tokens(t@)),
        }
    }
}

/// The tokens of an item.
pub open spec fn item_tokens(i: ItemV) -> Seq<TokenV> {
    match i {
        ItemV::Struct(d) => struct_tokens(d),
        ItemV::Other(t) => t,
    }
}

/// The declaration `d` with other fields.
pub open spec fn with_fields_of(d: StructV, fs: Seq<FieldV>) -> StructV {
    StructV {
        attrs: d.attrs,
        vis: d.vis,
        name: d.name,
        generics: d.generics,
        impl_generics: d.impl_generics,
        type_generics: d.type_generics,
        where_clause: d.where_clause,
        fields: fs,
    }
}

/// Copies of a list of annotations.
pub fn duplicate_attrs(v: &Vec<Attr>) -> (r: Vec<Attr>)
    ensures
        view_attrs(r@) == view_attrs(v@),
{
    let mut r: Vec<Attr> = Vec::new();
    let mut i: usize = 0;
    while i < v.len()
        invariant
            i <= v@.len(),
            view_attrs(r@) == view_attrs(v@).take(i as int),
        decreases v@.len() - i,
    {
        let ghost before = view_attrs(r@);
        r.push(v[i].duplicate());
        assert(view_attrs(r@) =~= before.push(v@[i as int]@));
        i += 1;
        assert(view_attrs(r@) =~= view_attrs(v@).take(i as int));
    }
    assert(view_attrs(v@).take(v@.len() as int) =~= view_attrs(v@));
    r
}

impl Field {
    /// A copy of the field.
    pub fn duplicate(&self) -> (r: Field)
        ensures
            r@ == self@,
    {
        Field {
            attrs: duplicate_attrs(&self.attrs),
            vis: copy_tokens(self.vis.as_slice()),
            name: self.name.clone(),
            ty: copy_tokens(self.ty.as_slice()),
        }
    }
}

impl StructDecl {
    /// The same declaration with `fields` in place of its own.
    pub fn with_fields(&self, fields: Vec<Field>) -> (r: StructDecl)
        ensures
            r@ == with_fields_of(self@, view_fields(fields@)),
    {
        StructDecl {
            attrs: duplicate_attrs(&self.attrs),
            vis: copy_tokens(self.vis.as_slice()),
            name: self.name.clone(),
            generics: copy_tokens(self.generics.as_slice()),
            impl_generics: copy_tokens(self.impl_generics.as_slice()),
            type_generics: copy_tokens(self.type_generics.as_slice()),
            where_clause: copy_tokens(self.where_clause.as_slice()),
            fields,
        }
    }
}

/// Appends the tokens of an item.
pub fn push_item(out: &mut Vec<Token>, i: &Item)
    ensures
        view_tokens(final(out)@) == view_tokens(old(out)@) + item_tokens(i@),
{
    match i {
        Item::Struct(d) => push_struct(out, d),
        Item::Other(t) => push_all(out, t.as_slice()),
    }
}

/// `impl<G> NAME<A> WHERE`: the head of an implementation for the structure.
pub open spec fn impl_head_tokens(d: StructV) -> Seq<TokenV> {
    seq![TokenV::Ident("impl"@)] + d.impl_generics + seq![TokenV::Ident(d.name)] + d.type_generics
        + d.where_clause
}

/// `impl<G> TRAIT for NAME<A> WHERE`: the head of a trait implementation.
pub open spec fn trait_impl_head_tokens(d: StructV, tr: Seq<TokenV>) -> Seq<TokenV> {
    seq![TokenV::Ident("impl"@)] + d.impl_generics + tr + seq![
        TokenV::Ident("for"@),
        TokenV::Ident(d.name),
    ] + d.type_generics + d.where_clause
}

/// Appends the head of a trait implementation for the structure.
pub fn push_trait_impl_head(out: &mut Vec<Token>, d: &StructDecl, tr: &[Token])
    ensures
        view_tokens(final(out)@) == view_tokens(old(out)@) + trait_impl_head_tokens(
            d@,
            view_tokens(tr@),
        ),
{
    let ghost before = view_tokens(out@);
    push_one(out, ident("impl"));
    push_all(out, d.impl_generics.as_slice());
    push_all(out, tr);
    push_one(out, ident("for"));
    push_one(out, Token::Ident(d.name.clone()));
    push_all(out, d.type_generics.as_slice());
    push_all(out, d.where_clause.as_slice());
    assert(view_tokens(out@) =~= before + trait_impl_head_tokens(d@, view_tokens(tr@)));
}

/// Appends the head of an implementation for the structure.
pub fn push_impl_head(out: &mut Vec<Token>, d: &StructDecl)
    ensures
        view_tokens(final(out)@) == view_tokens(old(out)@) + impl_head_tokens(d@),
{
    let ghost before = view_tokens(out@);
    push_one(out, ident("impl"));
    push_all(out, d.impl_generics.as_slice());
    push_one(out, Token::Ident(d.name.clone()));
    push_all(out, d.type_generics.as_slice());
    push_all(out, d.where_clause.as_slice());
    assert(view_tokens(out@) =~= before + impl_head_tokens(d@));
}

} // verus!
