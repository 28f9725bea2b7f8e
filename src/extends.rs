//! The delegation directive `extends(TypeA, TypeB, ...)`, and the synthesis of
//! reference, conversion and dereference implementations toward a field.
use vstd::prelude::*;
use crate::accessors::malformed_field;
use crate::args::{malformed, malformed_error};
use crate::decl::{
    Attr, AttrV, Field, FieldV, Item, ItemV, StructDecl, StructV, attr_args, attr_args_of,
    attr_named, ident, is_parent_attribute, is_roopert_attribute, push_all, push_one, push_struct,
    push_trait_impl_head, struct_tokens, trait_impl_head_tokens, view_attrs, view_fields,
    with_fields_of,
};
use crate::error::{DirectiveError, ErrorV, Family};
use crate::generate::{Generate, view_output};
use crate::getter::{mut_tokens, push_mut};
use crate::parent::{ParentAttribute, parent_of};
use crate::root::{RoopertAttribute, RootV, root_of};
use crate::tokens::{
    Delim, Token, TokenV, copy_tokens, split_at_commas, split_commas, tokens_eq, tokens_string,
    tokens_text, view_token_lists, view_tokens,
};

verus! {

/// The types that a structure delegates to, in the order written.
#[derive(Debug)]
pub struct ExtendsAttribute {
    pub types: Vec<Vec<Token>>,
}

impl View for ExtendsAttribute {
    type V = Seq<Seq<TokenV>>;

    open spec fn view(&self) -> Seq<Seq<TokenV>> {
        view_token_lists(self.types@)
    }
}

/// A non-empty list of types separated by commas (none after the last).
pub open spec fn extends_of(s: Seq<TokenV>) -> Result<Seq<Seq<TokenV>>, ErrorV> {
    let parts = split_commas(s, true);
    if forall|i: int| 0 <= i < parts.len() ==> (#[trigger] parts[i]).len() > 0 {
        Ok(parts)
    } else {
        Err(malformed(Family::Extends, s))
    }
}

impl ExtendsAttribute {
    /// Reads the arguments of a delegation directive.
    pub fn parse(toks: &Vec<Token>) -> (r: Result<Self, DirectiveError>)
        ensures
            crate::error::view_result(r) == extends_of(view_tokens(toks@)),
    {
        let parts = split_at_commas(toks, true);
        let ghost ps = view_token_lists(parts@);
        let mut i: usize = 0;
        while i < parts.len()
            invariant
                i <= parts@.len(),
                ps == view_token_lists(parts@),
                ps == split_commas(view_tokens(toks@), true),
                forall|k: int| 0 <= k < i ==> (#[trigger] ps[k]).len() > 0,
            decreases parts@.len() - i,
        {
            if parts[i].len() == 0 {
                assert(ps[i as int].len() == 0);
                return Err(malformed_error(Family::Extends, toks.as_slice()));
            }
            i += 1;
        }
        Ok(ExtendsAttribute { types: parts })
    }
}

} // verus!

verus! {

/// A field annotation read by the delegation directive: a delegate marker, in
/// short (`parent`) or umbrella (`roopert(parent)`) form, is consumed
/// (`Some(true)`); every other annotation is kept (`Some(false)`).
pub open spec fn parent_mark_of(a: AttrV, name: Seq<char>) -> Result<bool, ErrorV> {
    if attr_named(a, "parent"@) {
        match attr_args_of(a.tokens) {
            Some(t) => match parent_of(t) {
                Ok(_) => Ok(true),
                Err(_) => Err(malformed_field(Family::Parent, name)),
            },
            None => Err(malformed_field(Family::Parent, name)),
        }
    } else if attr_named(a, "roopert"@) {
        match attr_args_of(a.tokens) {
            Some(t) => match root_of(t) {
                Ok(RootV::Parent) => Ok(true),
                Ok(_) => Ok(false),
                Err(_) => Err(malformed_field(Family::Roopert, name)),
            },
            None => Err(malformed_field(Family::Roopert, name)),
        }
    } else {
        Ok(false)
    }
}

/// A field without its delegate markers, and whether it had one.
pub struct ParentScanV {
    pub kept: Seq<AttrV>,
    pub marked: bool,
}

/// Reads the annotations of the field `name` in order; the first that fails
/// ends the reading.
pub open spec fn parent_scan(attrs: Seq<AttrV>, name: Seq<char>) -> Result<ParentScanV, ErrorV>
    decreases attrs.len(),
{
    if attrs.len() == 0 {
        Ok(ParentScanV { kept: Seq::empty(), marked: false })
    } else {
        match parent_scan(attrs.drop_last(), name) {
            Err(e) => Err(e),
            Ok(st) => match parent_mark_of(attrs.last(), name) {
                Err(e) => Err(e),
                Ok(true) => Ok(ParentScanV { kept: st.kept, marked: true }),
                Ok(false) => Ok(ParentScanV { kept: st.kept.push(attrs.last()), marked: st.marked }),
            },
        }
    }
}

/// One field as the delegation directive sees it.
pub struct DelegateField {
    pub field: Field,
    pub marked: bool,
}

pub struct DelegateFieldV {
    pub field: FieldV,
    pub marked: bool,
}

impl View for DelegateField {
    type V = DelegateFieldV;

    open spec fn view(&self) -> DelegateFieldV {
        DelegateFieldV { field: self.field@, marked: self.marked }
    }
}

/// A field without its markers, and whether it had one.
pub open spec fn delegate_field_of(f: FieldV) -> Result<DelegateFieldV, ErrorV> {
    match parent_scan(f.attrs, f.name) {
        Err(e) => Err(e),
        Ok(st) => Ok(
            DelegateFieldV {
                field: FieldV { attrs: st.kept, vis: f.vis, name: f.name, ty: f.ty },
                marked: st.marked,
            },
        ),
    }
}

/// Every field read in order; the first that fails ends the reading.
pub open spec fn delegate_fields_of(fs: Seq<FieldV>) -> Result<Seq<DelegateFieldV>, ErrorV>
    decreases fs.len(),
{
    if fs.len() == 0 {
        Ok(Seq::empty())
    } else {
        match delegate_fields_of(fs.drop_last()) {
            Err(e) => Err(e),
            Ok(ps) => match delegate_field_of(fs.last()) {
                Ok(x) => Ok(ps.push(x)),
                Err(e) => Err(e),
            },
        }
    }
}

/// The last field of type `t` that carries a delegate marker.
pub open spec fn last_marked(fs: Seq<DelegateFieldV>, t: Seq<TokenV>) -> Option<int>
    decreases fs.len(),
{
    if fs.len() == 0 {
        None
    } else if fs.last().marked && fs.last().field.ty == t {
        Some(fs.len() - 1)
    } else {
        last_marked(fs.drop_last(), t)
    }
}

/// The first field of type `t`.
pub open spec fn first_typed(fs: Seq<DelegateFieldV>, t: Seq<TokenV>) -> Option<int>
    decreases fs.len(),
{
    if fs.len() == 0 {
        None
    } else {
        match first_typed(fs.drop_last(), t) {
            Some(i) => Some(i),
            None => if fs.last().field.ty == t {
                Some(fs.len() - 1)
            } else {
                None
            },
        }
    }
}

/// The field that type `t` delegates to: the last marked field of that type,
/// else the first field of that type.
pub open spec fn delegate_index(fs: Seq<DelegateFieldV>, t: Seq<TokenV>) -> Option<int> {
    match last_marked(fs, t) {
        Some(i) => Some(i),
        None => first_typed(fs, t),
    }
}

/// `a::b::c`.
pub open spec fn path3(a: Seq<char>, b: Seq<char>, c: Seq<char>) -> Seq<TokenV> {
    seq![
        TokenV::Ident(a),
        TokenV::Punct(':', true),
        TokenV::Punct(':', false),
        TokenV::Ident(b),
        TokenV::Punct(':', true),
        TokenV::Punct(':', false),
        TokenV::Ident(c),
    ]
}

/// `fn NAME(RECV) -> RET { BODY }`.
pub open spec fn method_tokens(
    name: Seq<char>,
    recv: Seq<TokenV>,
    ret: Seq<TokenV>,
    body: Seq<TokenV>,
) -> Seq<TokenV> {
    seq![TokenV::Ident("fn"@), TokenV::Ident(name), TokenV::Open(Delim::Paren)] + recv + seq![
        TokenV::Close(Delim::Paren),
        TokenV::Punct('-', true),
        TokenV::Punct('>', false),
    ] + ret + seq![TokenV::Open(Delim::Brace)] + body + seq![TokenV::Close(Delim::Brace)]
}

/// `&self`, `&mut self`.
pub open spec fn ref_self(m: bool) -> Seq<TokenV> {
    seq![TokenV::Punct('&', false)] + mut_tokens(m) + seq![TokenV::Ident("self"@)]
}

/// `self.FIELD`.
pub open spec fn self_field(field: Seq<char>) -> Seq<TokenV> {
    seq![TokenV::Ident("self"@), TokenV::Punct('.', false), TokenV::Ident(field)]
}

/// `&T`, `&mut T`.
pub open spec fn ref_to(m: bool, t: Seq<TokenV>) -> Seq<TokenV> {
    seq![TokenV::Punct('&', false)] + mut_tokens(m) + t
}

/// `Self::Target`.
pub open spec fn self_target() -> Seq<TokenV> {
    seq![
        TokenV::Ident("Self"@),
        TokenV::Punct(':', true),
        TokenV::Punct(':', false),
        TokenV::Ident("Target"@),
    ]
}

/// `TRAIT<T>`.
pub open spec fn generic_trait(tr: Seq<TokenV>, t: Seq<TokenV>) -> Seq<TokenV> {
    tr + seq![TokenV::Punct('<', false)] + t + seq![TokenV::Punct('>', false)]
}

/// A trait implementation with one method.
pub open spec fn one_method_impl(d: StructV, tr: Seq<TokenV>, items: Seq<TokenV>) -> Seq<TokenV> {
    trait_impl_head_tokens(d, tr) + seq![TokenV::Open(Delim::Brace)] + items + seq![
        TokenV::Close(Delim::Brace),
    ]
}

/// `AsRef<T>`, giving `&self.FIELD`.
pub open spec fn asref_tokens(d: StructV, field: Seq<char>, t: Seq<TokenV>) -> Seq<TokenV> {
    one_method_impl(
        d,
        generic_trait(path3("core"@, "convert"@, "AsRef"@), t),
        method_tokens("as_ref"@, ref_self(false), ref_to(false, t), ref_to(false, self_field(field))),
    )
}

/// `AsMut<T>`, giving `&mut self.FIELD`.
pub open spec fn asmut_tokens(d: StructV, field: Seq<char>, t: Seq<TokenV>) -> Seq<TokenV> {
    one_method_impl(
        d,
        generic_trait(path3("core"@, "convert"@, "AsMut"@), t),
        method_tokens("as_mut"@, ref_self(true), ref_to(true, t), ref_to(true, self_field(field))),
    )
}

/// `Into<T>`, giving `self.FIELD`.
pub open spec fn into_tokens(d: StructV, field: Seq<char>, t: Seq<TokenV>) -> Seq<TokenV> {
    one_method_impl(
        d,
        generic_trait(path3("core"@, "convert"@, "Into"@), t),
        method_tokens("into"@, seq![TokenV::Ident("self"@)], t, self_field(field)),
    )
}

/// `Deref` with `Target = T`, giving `&self.FIELD`.
pub open spec fn deref_tokens(d: StructV, field: Seq<char>, t: Seq<TokenV>) -> Seq<TokenV> {
    one_method_impl(
        d,
        path3("core"@, "ops"@, "Deref"@),
        seq![TokenV::Ident("type"@), TokenV::Ident("Target"@), TokenV::Punct('=', false)] + t
            + seq![TokenV::Punct(';', false)] + method_tokens(
            "deref"@,
            ref_self(false),
            ref_to(false, self_target()),
            ref_to(false, self_field(field)),
        ),
    )
}

/// `DerefMut`, giving `&mut self.FIELD`.
pub open spec fn derefmut_tokens(d: StructV, field: Seq<char>) -> Seq<TokenV> {
    one_method_impl(
        d,
        path3("core"@, "ops"@, "DerefMut"@),
        method_tokens(
            "deref_mut"@,
            ref_self(true),
            ref_to(true, self_target()),
            ref_to(true, self_field(field)),
        ),
    )
}

/// Every implementation that delegates type `t` to `field`.
pub open spec fn delegation_tokens(d: StructV, field: Seq<char>, t: Seq<TokenV>) -> Seq<TokenV> {
    asref_tokens(d, field, t) + asmut_tokens(d, field, t) + into_tokens(d, field, t) + deref_tokens(
        d,
        field,
        t,
    ) + derefmut_tokens(d, field)
}

/// The implementations for every requested type, in order; a type that no
/// field has fails.
pub open spec fn delegations_of(d: StructV, fs: Seq<DelegateFieldV>, types: Seq<Seq<TokenV>>) -> Result<
    Seq<TokenV>,
    ErrorV,
>
    decreases types.len(),
{
    if types.len() == 0 {
        Ok(Seq::empty())
    } else {
        match delegations_of(d, fs, types.drop_last()) {
            Err(e) => Err(e),
            Ok(t) => match delegate_index(fs, types.last()) {
                None => Err(ErrorV::UnresolvedDelegate { type_text: tokens_text(types.last()) }),
                Some(k) => Ok(t + delegation_tokens(d, fs[k].field.name, types.last())),
            },
        }
    }
}

/// The fields of the read declaration.
pub open spec fn delegate_plain_fields(fs: Seq<DelegateFieldV>) -> Seq<FieldV> {
    fs.map_values(|x: DelegateFieldV| x.field)
}

/// What the delegation directive generates: the declaration without its
/// markers, then the implementations.
pub open spec fn extends_generated(types: Seq<Seq<TokenV>>, item: ItemV) -> Result<Seq<TokenV>, ErrorV> {
    match item {
        ItemV::Other(_) => Err(ErrorV::UnsupportedTarget { family: Family::Extends }),
        ItemV::Struct(d) => match delegate_fields_of(d.fields) {
            Err(e) => Err(e),
            Ok(fs) => match delegations_of(d, fs, types) {
                Ok(t) => Ok(struct_tokens(with_fields_of(d, delegate_plain_fields(fs))) + t),
                Err(e) => Err(e),
            },
        },
    }
}

proof fn lemma_parent_scan_err(attrs: Seq<AttrV>, name: Seq<char>, k: int)
    requires
        0 <= k <= attrs.len(),
        parent_scan(attrs.take(k), name) is Err,
    ensures
        parent_scan(attrs, name) == parent_scan(attrs.take(k), name),
    decreases attrs.len() - k,
{
    if k < attrs.len() {
        assert(attrs.take(k + 1).drop_last() =~= attrs.take(k));
        lemma_parent_scan_err(attrs, name, k + 1);
    } else {
        assert(attrs.take(k) =~= attrs);
    }
}

proof fn lemma_delegate_fields_err(fs: Seq<FieldV>, k: int)
    requires
        0 <= k <= fs.len(),
        delegate_fields_of(fs.take(k)) is Err,
    ensures
        delegate_fields_of(fs) == delegate_fields_of(fs.take(k)),
    decreases fs.len() - k,
{
    if k < fs.len() {
        assert(fs.take(k + 1).drop_last() =~= fs.take(k));
        lemma_delegate_fields_err(fs, k + 1);
    } else {
        assert(fs.take(k) =~= fs);
    }
}

proof fn lemma_delegations_err(d: StructV, fs: Seq<DelegateFieldV>, types: Seq<Seq<TokenV>>, k: int)
    requires
        0 <= k <= types.len(),
        delegations_of(d, fs, types.take(k)) is Err,
    ensures
        delegations_of(d, fs, types) == delegations_of(d, fs, types.take(k)),
    decreases types.len() - k,
{
    if k < types.len() {
        assert(types.take(k + 1).drop_last() =~= types.take(k));
        lemma_delegations_err(d, fs, types, k + 1);
    } else {
        assert(types.take(k) =~= types);
    }
}

proof fn lemma_delegate_index_bounds(fs: Seq<DelegateFieldV>, t: Seq<TokenV>)
    ensures
        last_marked(fs, t) matches Some(i) ==> 0 <= i < fs.len(),
        first_typed(fs, t) matches Some(i) ==> 0 <= i < fs.len(),
        delegate_index(fs, t) matches Some(i) ==> 0 <= i < fs.len(),
    decreases fs.len(),
{
    if fs.len() > 0 {
        lemma_delegate_index_bounds(fs.drop_last(), t);
    }
}

fn parent_mark(a: &Attr, name: &String) -> (r: Result<bool, DirectiveError>)
    ensures
        match r {
            Ok(b) => parent_mark_of(a@, name@) == Ok::<bool, ErrorV>(b),
            Err(e) => parent_mark_of(a@, name@) == Err::<bool, ErrorV>(e@),
        },
{
    if is_parent_attribute(a) {
        match attr_args(a) {
            Some(t) => match ParentAttribute::parse(&t) {
                Ok(_) => Ok(true),
                Err(_) => Err(DirectiveError::MalformedDirective { family: Family::Parent, text: name.clone() }),
            },
            None => Err(DirectiveError::MalformedDirective { family: Family::Parent, text: name.clone() }),
        }
    } else if is_roopert_attribute(a) {
        match attr_args(a) {
            Some(t) => match RoopertAttribute::parse(&t) {
                Ok(r) => Ok(r.attr.is_parent()),
                Err(_) => Err(DirectiveError::MalformedDirective { family: Family::Roopert, text: name.clone() }),
            },
            None => Err(DirectiveError::MalformedDirective { family: Family::Roopert, text: name.clone() }),
        }
    } else {
        Ok(false)
    }
}

/// Reads one field: its markers are consumed.
pub fn delegate_field(f: &Field) -> (r: Result<DelegateField, DirectiveError>)
    ensures
        crate::error::view_result(r) == delegate_field_of(f@),
{
    let ghost va = view_attrs(f.attrs@);
    let mut kept: Vec<Attr> = Vec::new();
    let mut marked = false;
    let mut i: usize = 0;
    assert(va.take(0) =~= Seq::<AttrV>::empty());
    assert(view_attrs(kept@) =~= Seq::<AttrV>::empty());
    while i < f.attrs.len()
        invariant
            i <= f.attrs@.len(),
            va == view_attrs(f.attrs@),
            parent_scan(va.take(i as int), f.name@) == Ok::<ParentScanV, ErrorV>(
                ParentScanV { kept: view_attrs(kept@), marked },
            ),
        decreases f.attrs@.len() - i,
    {
        let ghost k0 = view_attrs(kept@);
        assert(va.take(i + 1).drop_last() =~= va.take(i as int));
        assert(va.take(i + 1).last() == f.attrs@[i as int]@);
        match parent_mark(&f.attrs[i], &f.name) {
            Err(e) => {
                proof {
                    lemma_parent_scan_err(va, f.name@, i + 1);
                }
                return Err(e);
            },
            Ok(true) => {
                marked = true;
            },
            Ok(false) => {
                kept.push(f.attrs[i].duplicate());
                assert(view_attrs(kept@) =~= k0.push(f.attrs@[i as int]@));
            },
        }
        i += 1;
    }
    assert(va.take(f.attrs@.len() as int) =~= va);
    let field = Field { attrs: kept, vis: copy_tokens(f.vis.as_slice()), name: f.name.clone(), ty: copy_tokens(f.ty.as_slice()) };
    Ok(DelegateField { field, marked })
}

/// Reads every field of a declaration.
pub fn delegate_fields(d: &StructDecl) -> (r: Result<Vec<DelegateField>, DirectiveError>)
    ensures
        match r {
            Ok(ps) => delegate_fields_of(d@.fields) == Ok::<Seq<DelegateFieldV>, ErrorV>(
                ps@.map_values(|x: DelegateField| x@),
            ),
            Err(e) => delegate_fields_of(d@.fields) == Err::<Seq<DelegateFieldV>, ErrorV>(e@),
        },
{
    let ghost fs = d@.fields;
    let mut ps: Vec<DelegateField> = Vec::new();
    let mut i: usize = 0;
    assert(fs.take(0) =~= Seq::<FieldV>::empty());
    assert(ps@.map_values(|x: DelegateField| x@) =~= Seq::<DelegateFieldV>::empty());
    while i < d.fields.len()
        invariant
            i <= d.fields@.len(),
            fs == d@.fields,
            fs == view_fields(d.fields@),
            ps@.len() == i,
            delegate_fields_of(fs.take(i as int)) == Ok::<Seq<DelegateFieldV>, ErrorV>(
                ps@.map_values(|x: DelegateField| x@),
            ),
        decreases d.fields@.len() - i,
    {
        let ghost p0 = ps@.map_values(|x: DelegateField| x@);
        assert(fs.take(i + 1).drop_last() =~= fs.take(i as int));
        assert(fs.take(i + 1).last() == d.fields@[i as int]@);
        let x = match delegate_field(&d.fields[i]) {
            Ok(x) => x,
            Err(e) => {
                proof {
                    lemma_delegate_fields_err(fs, i + 1);
                }
                return Err(e);
            },
        };
        ps.push(x);
        assert(ps@.map_values(|x: DelegateField| x@) =~= p0.push(ps@[i as int]@));
        i += 1;
    }
    assert(fs.take(d.fields@.len() as int) =~= fs);
    Ok(ps)
}

/// The index of the field that type `t` delegates to.
pub fn find_delegate(fs: &Vec<DelegateField>, t: &Vec<Token>) -> (r: Option<usize>)
    ensures
        match r {
            Some(k) => delegate_index(fs@.map_values(|x: DelegateField| x@), view_tokens(t@))
                == Some(k as int) && k < fs@.len(),
            None => delegate_index(fs@.map_values(|x: DelegateField| x@), view_tokens(t@)) is None,
        },
{
    let ghost fv = fs@.map_values(|x: DelegateField| x@);
    let ghost tv = view_tokens(t@);
    let mut marked: Option<usize> = None;
    let mut first: Option<usize> = None;
    let mut i: usize = 0;
    assert(fv.take(0) =~= Seq::<DelegateFieldV>::empty());
    while i < fs.len()
        invariant
            i <= fs@.len(),
            fv == fs@.map_values(|x: DelegateField| x@),
            tv == view_tokens(t@),
            match marked {
                Some(k) => last_marked(fv.take(i as int), tv) == Some(k as int),
                None => last_marked(fv.take(i as int), tv) is None,
            },
            match first {
                Some(k) => first_typed(fv.take(i as int), tv) == Some(k as int),
                None => first_typed(fv.take(i as int), tv) is None,
            },
        decreases fs@.len() - i,
    {
        assert(fv.take(i + 1).drop_last() =~= fv.take(i as int));
        assert(fv.take(i + 1).last() == fv[i as int]);
        let same = tokens_eq(&fs[i].field.ty, t);
        if same && fs[i].marked {
            marked = Some(i);
        }
        if same && first.is_none() {
            first = Some(i);
        }
        i += 1;
    }
    assert(fv.take(fs@.len() as int) =~= fv);
    proof {
        lemma_delegate_index_bounds(fv, tv);
    }
    match marked {
        Some(k) => Some(k),
        None => first,
    }
}

/// Appends `a::b::c`.
fn push_path3(out: &mut Vec<Token>, a: &str, b: &str, c: &str)
    ensures
        view_tokens(final(out)@) == view_tokens(old(out)@) + path3(a@, b@, c@),
{
    let ghost before = view_tokens(out@);
    push_one(out, ident(a));
    push_one(out, Token::Punct(':', true));
    push_one(out, Token::Punct(':', false));
    push_one(out, ident(b));
    push_one(out, Token::Punct(':', true));
    push_one(out, Token::Punct(':', false));
    push_one(out, ident(c));
    assert(view_tokens(out@) =~= before + path3(a@, b@, c@));
}

fn ref_self_tokens(m: bool) -> (r: Vec<Token>)
    ensures
        view_tokens(r@) == ref_self(m),
{
    let mut out: Vec<Token> = Vec::new();
    push_one(&mut out, Token::Punct('&', false));
    push_mut(&mut out, m);
    push_one(&mut out, ident("self"));
    assert(view_tokens(out@) =~= ref_self(m));
    out
}

fn ref_to_tokens(m: bool, t: &[Token]) -> (r: Vec<Token>)
    ensures
        view_tokens(r@) == ref_to(m, view_tokens(t@)),
{
    let mut out: Vec<Token> = Vec::new();
    push_one(&mut out, Token::Punct('&', false));
    push_mut(&mut out, m);
    push_all(&mut out, t);
    assert(view_tokens(out@) =~= ref_to(m, view_tokens(t@)));
    out
}

fn self_field_tokens(field: &String) -> (r: Vec<Token>)
    ensures
        view_tokens(r@) == self_field(field@),
{
    let mut out: Vec<Token> = Vec::new();
    push_one(&mut out, ident("self"));
    push_one(&mut out, Token::Punct('.', false));
    push_one(&mut out, Token::Ident(field.clone()));
    assert(view_tokens(out@) =~= self_field(field@));
    out
}

fn self_target_tokens() -> (r: Vec<Token>)
    ensures
        view_tokens(r@) == self_target(),
{
    let mut out: Vec<Token> = Vec::new();
    push_one(&mut out, ident("Self"));
    push_one(&mut out, Token::Punct(':', true));
    push_one(&mut out, Token::Punct(':', false));
    push_one(&mut out, ident("Target"));
    assert(view_tokens(out@) =~= self_target());
    out
}

fn generic_trait_tokens(a: &str, b: &str, c: &str, t: &[Token]) -> (r: Vec<Token>)
    ensures
        view_tokens(r@) == generic_trait(path3(a@, b@, c@), view_tokens(t@)),
{
    let mut out: Vec<Token> = Vec::new();
    push_path3(&mut out, a, b, c);
    push_one(&mut out, Token::Punct('<', false));
    push_all(&mut out, t);
    push_one(&mut out, Token::Punct('>', false));
    assert(view_tokens(out@) =~= generic_trait(path3(a@, b@, c@), view_tokens(t@)));
    out
}

fn path3_tokens(a: &str, b: &str, c: &str) -> (r: Vec<Token>)
    ensures
        view_tokens(r@) == path3(a@, b@, c@),
{
    let mut out: Vec<Token> = Vec::new();
    push_path3(&mut out, a, b, c);
    assert(view_tokens(out@) =~= path3(a@, b@, c@));
    out
}

/// Appends `fn NAME(RECV) -> RET { BODY }`.
fn push_method(out: &mut Vec<Token>, name: &str, recv: &[Token], ret: &[Token], body: &[Token])
    ensures
        view_tokens(final(out)@) == view_tokens(old(out)@) + method_tokens(
            name@,
            view_tokens(recv@),
            view_tokens(ret@),
            view_tokens(body@),
        ),
{
    let ghost before = view_tokens(out@);
    push_one(out, ident("fn"));
    push_one(out, ident(name));
    push_one(out, Token::Open(Delim::Paren));
    push_all(out, recv);
    push_one(out, Token::Close(Delim::Paren));
    push_one(out, Token::Punct('-', true));
    push_one(out, Token::Punct('>', false));
    push_all(out, ret);
    push_one(out, Token::Open(Delim::Brace));
    push_all(out, body);
    push_one(out, Token::Close(Delim::Brace));
    assert(view_tokens(out@) =~= before + method_tokens(
        name@,
        view_tokens(recv@),
        view_tokens(ret@),
        view_tokens(body@),
    ));
}

/// A trait implementation for the structure whose items are `items`.
fn one_method_impl_tokens(d: &StructDecl, tr: &[Token], items: &[Token]) -> (r: Vec<Token>)
    ensures
        view_tokens(r@) == one_method_impl(d@, view_tokens(tr@), view_tokens(items@)),
{
    let mut out: Vec<Token> = Vec::new();
    push_trait_impl_head(&mut out, d, tr);
    push_one(&mut out, Token::Open(Delim::Brace));
    push_all(&mut out, items);
    push_one(&mut out, Token::Close(Delim::Brace));
    assert(view_tokens(out@) =~= one_method_impl(d@, view_tokens(tr@), view_tokens(items@)));
    out
}

impl ExtendsAttribute {
    /// `AsRef<parent_type>` for the structure, through `target_field`.
    pub fn impl_asref(d: &StructDecl, target_field: &String, parent_type: &Vec<Token>) -> (r: Vec<Token>)
        ensures
            view_tokens(r@) == asref_tokens(d@, target_field@, view_tokens(parent_type@)),
    {
        let tr = generic_trait_tokens("core", "convert", "AsRef", parent_type.as_slice());
        let mut m: Vec<Token> = Vec::new();
        let body = ref_to_tokens(false, self_field_tokens(target_field).as_slice());
        push_method(&mut m, "as_ref", ref_self_tokens(false).as_slice(), ref_to_tokens(false, parent_type.as_slice()).as_slice(), body.as_slice());
        one_method_impl_tokens(d, tr.as_slice(), m.as_slice())
    }

    /// `AsMut<parent_type>` for the structure, through `target_field`.
    pub fn impl_asmut(d: &StructDecl, target_field: &String, parent_type: &Vec<Token>) -> (r: Vec<Token>)
        ensures
            view_tokens(r@) == asmut_tokens(d@, target_field@, view_tokens(parent_type@)),
    {
        let tr = generic_trait_tokens("core", "convert", "AsMut", parent_type.as_slice());
        let mut m: Vec<Token> = Vec::new();
        let body = ref_to_tokens(true, self_field_tokens(target_field).as_slice());
        push_method(&mut m, "as_mut", ref_self_tokens(true).as_slice(), ref_to_tokens(true, parent_type.as_slice()).as_slice(), body.as_slice());
        one_method_impl_tokens(d, tr.as_slice(), m.as_slice())
    }

    /// `Into<parent_type>` for the structure, giving up `target_field`.
    pub fn impl_into(d: &StructDecl, target_field: &String, parent_type: &Vec<Token>) -> (r: Vec<Token>)
        ensures
            view_tokens(r@) == into_tokens(d@, target_field@, view_tokens(parent_type@)),
    {
        let tr = generic_trait_tokens("core", "convert", "Into", parent_type.as_slice());
        let mut m: Vec<Token> = Vec::new();
        let mut recv: Vec<Token> = Vec::new();
        push_one(&mut recv, ident("self"));
        assert(view_tokens(recv@) =~= seq![TokenV::Ident("self"@)]);
        push_method(&mut m, "into", recv.as_slice(), parent_type.as_slice(), self_field_tokens(target_field).as_slice());
        one_method_impl_tokens(d, tr.as_slice(), m.as_slice())
    }

    /// `Deref` with `Target = parent_type`, through `target_field`.
    pub fn impl_deref(d: &StructDecl, target_field: &String, parent_type: &Vec<Token>) -> (r: Vec<Token>)
        ensures
            view_tokens(r@) == deref_tokens(d@, target_field@, view_tokens(parent_type@)),
    {
        let tr = path3_tokens("core", "ops", "Deref");
        let mut m: Vec<Token> = Vec::new();
        push_one(&mut m, ident("type"));
        push_one(&mut m, ident("Target"));
        push_one(&mut m, Token::Punct('=', false));
        push_all(&mut m, parent_type.as_slice());
        push_one(&mut m, Token::Punct(';', false));
        let body = ref_to_tokens(false, self_field_tokens(target_field).as_slice());
        push_method(&mut m, "deref", ref_self_tokens(false).as_slice(), ref_to_tokens(false, self_target_tokens().as_slice()).as_slice(), body.as_slice());
        one_method_impl_tokens(d, tr.as_slice(), m.as_slice())
    }

    /// `DerefMut`, through `target_field`.
    pub fn impl_derefmut(d: &StructDecl, target_field: &String) -> (r: Vec<Token>)
        ensures
            view_tokens(r@) == derefmut_tokens(d@, target_field@),
    {
        let tr = path3_tokens("core", "ops", "DerefMut");
        let mut m: Vec<Token> = Vec::new();
        let body = ref_to_tokens(true, self_field_tokens(target_field).as_slice());
        push_method(&mut m, "deref_mut", ref_self_tokens(true).as_slice(), ref_to_tokens(true, self_target_tokens().as_slice()).as_slice(), body.as_slice());
        one_method_impl_tokens(d, tr.as_slice(), m.as_slice())
    }

    /// Every implementation that delegates `parent_type` to `target_field`.
    pub fn impl_delegation(d: &StructDecl, target_field: &String, parent_type: &Vec<Token>) -> (r: Vec<Token>)
        ensures
            view_tokens(r@) == delegation_tokens(d@, target_field@, view_tokens(parent_type@)),
    {
        let mut out: Vec<Token> = Vec::new();
        push_all(&mut out, Self::impl_asref(d, target_field, parent_type).as_slice());
        push_all(&mut out, Self::impl_asmut(d, target_field, parent_type).as_slice());
        push_all(&mut out, Self::impl_into(d, target_field, parent_type).as_slice());
        push_all(&mut out, Self::impl_deref(d, target_field, parent_type).as_slice());
        push_all(&mut out, Self::impl_derefmut(d, target_field).as_slice());
        assert(view_tokens(out@) =~= delegation_tokens(d@, target_field@, view_tokens(parent_type@)));
        out
    }

    /// The implementations for every requested type.
    pub fn delegations(&self, d: &StructDecl, fs: &Vec<DelegateField>) -> (r: Result<Vec<Token>, DirectiveError>)
        ensures
            view_output(r) == delegations_of(d@, fs@.map_values(|x: DelegateField| x@), self@),
    {
        let ghost fv = fs@.map_values(|x: DelegateField| x@);
        let ghost tv = self@;
        let mut out: Vec<Token> = Vec::new();
        let mut i: usize = 0;
        assert(tv.take(0) =~= Seq::<Seq<TokenV>>::empty());
        assert(view_tokens(out@) =~= Seq::<TokenV>::empty());
        while i < self.types.len()
            invariant
                i <= self.types@.len(),
                fv == fs@.map_values(|x: DelegateField| x@),
                tv == self@,
                tv == view_token_lists(self.types@),
                delegations_of(d@, fv, tv.take(i as int)) == Ok::<Seq<TokenV>, ErrorV>(view_tokens(out@)),
            decreases self.types@.len() - i,
        {
            assert(tv.take(i + 1).drop_last() =~= tv.take(i as int));
            assert(tv.take(i + 1).last() == view_tokens(self.types@[i as int]@));
            let t = &self.types[i];
            match find_delegate(fs, t) {
                None => {
                    proof {
                        lemma_delegations_err(d@, fv, tv, i + 1);
                    }
                    return Err(DirectiveError::UnresolvedDelegate { type_text: tokens_string(t.as_slice()) });
                },
                Some(k) => {
                    let imp = Self::impl_delegation(d, &fs[k].field.name, t);
                    push_all(&mut out, imp.as_slice());
                },
            }
            i += 1;
        }
        assert(tv.take(self.types@.len() as int) =~= tv);
        Ok(out)
    }
}

/// Copies of the fields that a delegation directive read.
fn delegate_field_copies(ps: &Vec<DelegateField>) -> (r: Vec<Field>)
    ensures
        view_fields(r@) == delegate_plain_fields(ps@.map_values(|x: DelegateField| x@)),
{
    let ghost pv = ps@.map_values(|x: DelegateField| x@);
    let mut r: Vec<Field> = Vec::new();
    let mut i: usize = 0;
    while i < ps.len()
        invariant
            i <= ps@.len(),
            pv == ps@.map_values(|x: DelegateField| x@),
            view_fields(r@) == delegate_plain_fields(pv).take(i as int),
        decreases ps@.len() - i,
    {
        let ghost r0 = view_fields(r@);
        r.push(ps[i].field.duplicate());
        assert(view_fields(r@) =~= r0.push(pv[i as int].field));
        i += 1;
        assert(view_fields(r@) =~= delegate_plain_fields(pv).take(i as int));
    }
    assert(delegate_plain_fields(pv).take(ps@.len() as int) =~= delegate_plain_fields(pv));
    r
}

impl Generate for ExtendsAttribute {
    open spec fn generated(&self, input: ItemV) -> Result<Seq<TokenV>, ErrorV> {
        extends_generated(self@, input)
    }

    open spec fn appends(&self) -> bool {
        false
    }

    fn generate(&mut self, input: &Item) -> (r: Result<Vec<Token>, DirectiveError>) {
        match input {
            Item::Other(_) => Err(DirectiveError::UnsupportedTarget { family: Family::Extends }),
            Item::Struct(d) => {
                let fs = delegate_fields(d)?;
                let imps = self.delegations(d, &fs)?;
                let stripped = d.with_fields(delegate_field_copies(&fs));
                let mut out: Vec<Token> = Vec::new();
                push_struct(&mut out, &stripped);
                push_all(&mut out, imps.as_slice());
                Ok(out)
            },
        }
    }

    fn auto_append(&self) -> (r: bool) {
        false
    }
}

} // verus!
