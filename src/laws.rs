//! Properties that hold of every input: what the directives keep, what they
//! generate, and how delegation and reflection resolve fields.
use vstd::prelude::*;
use crate::accessors::{
    AccessorAutoRule, AccessorsAttribute, FieldAccessorsV, MarkV, ScanV, accessor_mark_of,
    accessor_scan, accessors_plan_of, field_accessors_of,
};
use crate::decl::{AttrV, FieldV, StructV};
use crate::extends::{DelegateFieldV, delegate_index, delegation_tokens, delegations_of, first_typed, last_marked};
use crate::tokens::tokens_text;
use crate::extends::{ParentScanV, delegate_field_of, delegate_fields_of, parent_mark_of, parent_scan};
use crate::fields::{
    FieldScanV, FieldsV, MetaV, ReflectFieldV, field_mark_of, field_needed, field_scan, get_arm,
    get_arms, list_entries, name_literal, reflect_field_of, reflect_fields_of,
};
use crate::error::ErrorV;
use crate::getter::{GetterV, default_getter, getter_fn_tokens, getter_name, mut_tokens};
use crate::setter::{SetterV, default_setter, setter_fn_tokens, setter_name};
use crate::tokens::{Delim, TokenV};

verus! {

/// The annotations that the accessors directive keeps on a field.
pub open spec fn accessor_kept(name: Seq<char>) -> spec_fn(AttrV) -> bool {
    |a: AttrV| accessor_mark_of(a, name) == Ok::<MarkV, ErrorV>(MarkV::Keep)
}

proof fn lemma_accessor_scan_kept(attrs: Seq<AttrV>, name: Seq<char>)
    requires
        accessor_scan(attrs, name) is Ok,
    ensures
        accessor_scan(attrs, name)->Ok_0.kept == attrs.filter(accessor_kept(name)),
    decreases attrs.len(),
{
    reveal(Seq::filter);
    if attrs.len() > 0 {
        lemma_accessor_scan_kept(attrs.drop_last(), name);
    }
}

proof fn lemma_accessors_plan_aligned(p: AccessorsAttribute, fs: Seq<FieldV>)
    requires
        accessors_plan_of(p, fs) is Ok,
    ensures
        accessors_plan_of(p, fs)->Ok_0.len() == fs.len(),
        forall|k: int|
            0 <= k < fs.len() ==> field_accessors_of(p, fs[k]) == Ok::<FieldAccessorsV, ErrorV>(
                #[trigger] accessors_plan_of(p, fs)->Ok_0[k],
            ),
    decreases fs.len(),
{
    if fs.len() > 0 {
        lemma_accessors_plan_aligned(p, fs.drop_last());
        let ps = accessors_plan_of(p, fs)->Ok_0;
        let pre = accessors_plan_of(p, fs.drop_last())->Ok_0;
        assert forall|k: int| 0 <= k < fs.len() implies field_accessors_of(p, fs[k]) == Ok::<
            FieldAccessorsV,
            ErrorV,
        >(#[trigger] ps[k]) by {
            if k < fs.len() - 1 {
                assert(fs[k] == fs.drop_last()[k]);
                assert(ps[k] == pre[k]);
            }
        }
    }
}

/// Under the accessors directive, the emitted declaration has every field of
/// the input, in order, with its name, visibility and type; each field keeps
/// exactly the annotations that are not getter or setter markers, in order.
pub proof fn law_accessors_keep_fields(p: AccessorsAttribute, fs: Seq<FieldV>)
    requires
        accessors_plan_of(p, fs) is Ok,
    ensures
        accessors_plan_of(p, fs)->Ok_0.len() == fs.len(),
        forall|k: int|
            0 <= k < fs.len() ==> {
                let f = (#[trigger] accessors_plan_of(p, fs)->Ok_0[k]).field;
                &&& f.name == fs[k].name
                &&& f.vis == fs[k].vis
                &&& f.ty == fs[k].ty
                &&& f.attrs == fs[k].attrs.filter(accessor_kept(fs[k].name))
            },
{
    lemma_accessors_plan_aligned(p, fs);
    assert forall|k: int| 0 <= k < fs.len() implies {
        let f = (#[trigger] accessors_plan_of(p, fs)->Ok_0[k]).field;
        &&& f.name == fs[k].name
        &&& f.vis == fs[k].vis
        &&& f.ty == fs[k].ty
        &&& f.attrs == fs[k].attrs.filter(accessor_kept(fs[k].name))
    } by {
        assert(field_accessors_of(p, fs[k]) == Ok::<FieldAccessorsV, ErrorV>(
            accessors_plan_of(p, fs)->Ok_0[k],
        ));
        lemma_accessor_scan_kept(fs[k].attrs, fs[k].name);
    }
}

proof fn lemma_accessor_scan_unmarked(attrs: Seq<AttrV>, name: Seq<char>)
    requires
        forall|j: int| 0 <= j < attrs.len() ==> (#[trigger] accessor_kept(name)(attrs[j])),
    ensures
        accessor_scan(attrs, name) == Ok::<ScanV, ErrorV>(
            ScanV { kept: attrs, gets: Seq::empty(), sets: Seq::empty() },
        ),
    decreases attrs.len(),
{
    if attrs.len() > 0 {
        assert forall|j: int| 0 <= j < attrs.drop_last().len() implies (#[trigger] accessor_kept(
            name,
        )(attrs.drop_last()[j])) by {
            assert(attrs.drop_last()[j] == attrs[j]);
        }
        lemma_accessor_scan_unmarked(attrs.drop_last(), name);
        assert(accessor_kept(name)(attrs[attrs.len() - 1]));
        assert(attrs.drop_last().push(attrs.last()) =~= attrs);
    } else {
        assert(attrs =~= Seq::<AttrV>::empty());
    }
}

/// Under the rule `all` for getters and for setters, a field with no getter
/// or setter marker gets exactly one default getter, `get_<field>`, and one
/// default setter, `set_<field>`; the getter hands out `&self.<field>` and the
/// setter assigns its argument to `self.<field>`.
pub proof fn law_rule_all_gives_accessors(p: AccessorsAttribute, fs: Seq<FieldV>, k: int)
    requires
        p.getter_rule == AccessorAutoRule::All,
        p.setter_rule == AccessorAutoRule::All,
        accessors_plan_of(p, fs) is Ok,
        0 <= k < fs.len(),
        forall|j: int|
            0 <= j < fs[k].attrs.len() ==> (#[trigger] accessor_kept(fs[k].name)(fs[k].attrs[j])),
    ensures
        accessors_plan_of(p, fs)->Ok_0[k].getters == seq![default_getter()],
        accessors_plan_of(p, fs)->Ok_0[k].setters == seq![default_setter()],
        getter_name(default_getter(), fs[k].name) == "get_"@ + fs[k].name,
        setter_name(default_setter(), fs[k].name) == "set_"@ + fs[k].name,
        getter_fn_tokens(default_getter(), fs[k].name, fs[k].ty) == seq![
            TokenV::Ident("pub"@),
            TokenV::Ident("fn"@),
            TokenV::Ident("get_"@ + fs[k].name),
            TokenV::Open(Delim::Paren),
            TokenV::Punct('&', false),
            TokenV::Ident("self"@),
            TokenV::Close(Delim::Paren),
            TokenV::Punct('-', true),
            TokenV::Punct('>', false),
            TokenV::Punct('&', false),
            TokenV::Punct('\'', true),
            TokenV::Ident("_"@),
        ] + fs[k].ty + seq![
            TokenV::Open(Delim::Brace),
            TokenV::Punct('&', false),
            TokenV::Ident("self"@),
            TokenV::Punct('.', false),
            TokenV::Ident(fs[k].name),
            TokenV::Close(Delim::Brace),
        ],
        setter_fn_tokens(default_setter(), fs[k].name, fs[k].ty) == seq![
            TokenV::Ident("pub"@),
            TokenV::Ident("fn"@),
            TokenV::Ident("set_"@ + fs[k].name),
            TokenV::Open(Delim::Paren),
            TokenV::Punct('&', false),
            TokenV::Ident("mut"@),
            TokenV::Ident("self"@),
            TokenV::Punct(',', false),
            TokenV::Ident("x"@),
            TokenV::Punct(':', false),
        ] + fs[k].ty + seq![
            TokenV::Close(Delim::Paren),
            TokenV::Open(Delim::Brace),
            TokenV::Ident("self"@),
            TokenV::Punct('.', false),
            TokenV::Ident(fs[k].name),
            TokenV::Punct('=', false),
            TokenV::Ident("x"@),
            TokenV::Punct(';', false),
            TokenV::Close(Delim::Brace),
        ],
{
    lemma_accessors_plan_aligned(p, fs);
    lemma_accessor_scan_unmarked(fs[k].attrs, fs[k].name);
    assert(getter_fn_tokens(default_getter(), fs[k].name, fs[k].ty) =~= seq![
        TokenV::Ident("pub"@),
        TokenV::Ident("fn"@),
        TokenV::Ident("get_"@ + fs[k].name),
        TokenV::Open(Delim::Paren),
        TokenV::Punct('&', false),
        TokenV::Ident("self"@),
        TokenV::Close(Delim::Paren),
        TokenV::Punct('-', true),
        TokenV::Punct('>', false),
        TokenV::Punct('&', false),
        TokenV::Punct('\'', true),
        TokenV::Ident("_"@),
    ] + fs[k].ty + seq![
        TokenV::Open(Delim::Brace),
        TokenV::Punct('&', false),
        TokenV::Ident("self"@),
        TokenV::Punct('.', false),
        TokenV::Ident(fs[k].name),
        TokenV::Close(Delim::Brace),
    ]);
    assert(setter_fn_tokens(default_setter(), fs[k].name, fs[k].ty) =~= seq![
        TokenV::Ident("pub"@),
        TokenV::Ident("fn"@),
        TokenV::Ident("set_"@ + fs[k].name),
        TokenV::Open(Delim::Paren),
        TokenV::Punct('&', false),
        TokenV::Ident("mut"@),
        TokenV::Ident("self"@),
        TokenV::Punct(',', false),
        TokenV::Ident("x"@),
        TokenV::Punct(':', false),
    ] + fs[k].ty + seq![
        TokenV::Close(Delim::Paren),
        TokenV::Open(Delim::Brace),
        TokenV::Ident("self"@),
        TokenV::Punct('.', false),
        TokenV::Ident(fs[k].name),
        TokenV::Punct('=', false),
        TokenV::Ident("x"@),
        TokenV::Punct(';', false),
        TokenV::Close(Delim::Brace),
    ]);
}

} // verus!

verus! {

/// A mutable getter with a side effect evaluates the effect once, as its only
/// statement, before the mutable borrow that it returns:
/// `pub fn NAME(&mut self) -> &'_ mut TY { PRE; &mut self.FIELD }`.
pub proof fn law_mutable_getter_effect_first(g: GetterV, field: Seq<char>, ty: Seq<TokenV>)
    requires
        g.mutable,
        g.pre is Some,
    ensures
        getter_fn_tokens(g, field, ty) == seq![
            TokenV::Ident("pub"@),
            TokenV::Ident("fn"@),
            TokenV::Ident(getter_name(g, field)),
            TokenV::Open(Delim::Paren),
            TokenV::Punct('&', false),
            TokenV::Ident("mut"@),
            TokenV::Ident("self"@),
            TokenV::Close(Delim::Paren),
            TokenV::Punct('-', true),
            TokenV::Punct('>', false),
            TokenV::Punct('&', false),
            TokenV::Punct('\'', true),
            TokenV::Ident("_"@),
            TokenV::Ident("mut"@),
        ] + ty + seq![TokenV::Open(Delim::Brace)] + g.pre->0 + seq![
            TokenV::Punct(';', false),
            TokenV::Punct('&', false),
            TokenV::Ident("mut"@),
            TokenV::Ident("self"@),
            TokenV::Punct('.', false),
            TokenV::Ident(field),
            TokenV::Close(Delim::Brace),
        ],
{
    assert(mut_tokens(true) == seq![TokenV::Ident("mut"@)]);
    assert(getter_fn_tokens(g, field, ty) =~= seq![
        TokenV::Ident("pub"@),
        TokenV::Ident("fn"@),
        TokenV::Ident(getter_name(g, field)),
        TokenV::Open(Delim::Paren),
        TokenV::Punct('&', false),
        TokenV::Ident("mut"@),
        TokenV::Ident("self"@),
        TokenV::Close(Delim::Paren),
        TokenV::Punct('-', true),
        TokenV::Punct('>', false),
        TokenV::Punct('&', false),
        TokenV::Punct('\'', true),
        TokenV::Ident("_"@),
        TokenV::Ident("mut"@),
    ] + ty + seq![TokenV::Open(Delim::Brace)] + g.pre->0 + seq![
        TokenV::Punct(';', false),
        TokenV::Punct('&', false),
        TokenV::Ident("mut"@),
        TokenV::Ident("self"@),
        TokenV::Punct('.', false),
        TokenV::Ident(field),
        TokenV::Close(Delim::Brace),
    ]);
}

/// A setter's body runs its `pre` expression, then the assignment, then its
/// `post` expression, in that order and each once:
/// `{ PRE; self.FIELD = x; POST; }`.
pub proof fn law_setter_effect_order(g: SetterV, field: Seq<char>, ty: Seq<TokenV>)
    requires
        g.pre is Some,
        g.post is Some,
    ensures
        setter_fn_tokens(g, field, ty) == seq![
            TokenV::Ident("pub"@),
            TokenV::Ident("fn"@),
            TokenV::Ident(setter_name(g, field)),
            TokenV::Open(Delim::Paren),
            TokenV::Punct('&', false),
            TokenV::Ident("mut"@),
            TokenV::Ident("self"@),
            TokenV::Punct(',', false),
            TokenV::Ident("x"@),
            TokenV::Punct(':', false),
        ] + ty + seq![TokenV::Close(Delim::Paren), TokenV::Open(Delim::Brace)] + g.pre->0 + seq![
            TokenV::Punct(';', false),
            TokenV::Ident("self"@),
            TokenV::Punct('.', false),
            TokenV::Ident(field),
            TokenV::Punct('=', false),
            TokenV::Ident("x"@),
            TokenV::Punct(';', false),
        ] + g.post->0 + seq![TokenV::Punct(';', false), TokenV::Close(Delim::Brace)],
{
    assert(setter_fn_tokens(g, field, ty) =~= seq![
        TokenV::Ident("pub"@),
        TokenV::Ident("fn"@),
        TokenV::Ident(setter_name(g, field)),
        TokenV::Open(Delim::Paren),
        TokenV::Punct('&', false),
        TokenV::Ident("mut"@),
        TokenV::Ident("self"@),
        TokenV::Punct(',', false),
        TokenV::Ident("x"@),
        TokenV::Punct(':', false),
    ] + ty + seq![TokenV::Close(Delim::Paren), TokenV::Open(Delim::Brace)] + g.pre->0 + seq![
        TokenV::Punct(';', false),
        TokenV::Ident("self"@),
        TokenV::Punct('.', false),
        TokenV::Ident(field),
        TokenV::Punct('=', false),
        TokenV::Ident("x"@),
        TokenV::Punct(';', false),
    ] + g.post->0 + seq![TokenV::Punct(';', false), TokenV::Close(Delim::Brace)]);
}

/// Every getter marker among `attrs` names its getter `n`.
pub open spec fn getter_marks_named(attrs: Seq<AttrV>, name: Seq<char>, n: Seq<char>) -> bool {
    forall|j: int|
        0 <= j < attrs.len() ==> (#[trigger] accessor_mark_of(attrs[j], name) matches Ok(
            MarkV::Getter(g),
        ) ==> g.name == Some(n))
}

/// Some annotation among `attrs` is a getter marker.
pub open spec fn has_getter_mark(attrs: Seq<AttrV>, name: Seq<char>) -> bool {
    exists|j: int| 0 <= j < attrs.len() && (#[trigger] accessor_mark_of(attrs[j], name) matches Ok(MarkV::Getter(_)))
}

/// Every setter marker among `attrs` names its setter `n`.
pub open spec fn setter_marks_named(attrs: Seq<AttrV>, name: Seq<char>, n: Seq<char>) -> bool {
    forall|j: int|
        0 <= j < attrs.len() ==> (#[trigger] accessor_mark_of(attrs[j], name) matches Ok(
            MarkV::Setter(g),
        ) ==> g.name == Some(n))
}

/// Some annotation among `attrs` is a setter marker.
pub open spec fn has_setter_mark(attrs: Seq<AttrV>, name: Seq<char>) -> bool {
    exists|j: int| 0 <= j < attrs.len() && (#[trigger] accessor_mark_of(attrs[j], name) matches Ok(MarkV::Setter(_)))
}

proof fn lemma_scan_getter_names(attrs: Seq<AttrV>, name: Seq<char>, n: Seq<char>)
    requires
        accessor_scan(attrs, name) is Ok,
        getter_marks_named(attrs, name, n),
    ensures
        forall|i: int|
            0 <= i < accessor_scan(attrs, name)->Ok_0.gets.len() ==> (#[trigger] accessor_scan(
                attrs,
                name,
            )->Ok_0.gets[i]).name == Some(n),
    decreases attrs.len(),
{
    if attrs.len() > 0 {
        let pre = attrs.drop_last();
        let last = attrs.len() - 1;
        assert(attrs[last] == attrs.last());
        assert forall|j: int| 0 <= j < pre.len() implies (#[trigger] accessor_mark_of(pre[j], name) matches Ok(
            MarkV::Getter(g),
        ) ==> g.name == Some(n)) by {
            assert(pre[j] == attrs[j]);
        }
        lemma_scan_getter_names(pre, name, n);
        assert(accessor_mark_of(attrs[last], name) matches Ok(MarkV::Getter(g)) ==> g.name == Some(n));
    }
}

proof fn lemma_scan_has_getter(attrs: Seq<AttrV>, name: Seq<char>)
    requires
        accessor_scan(attrs, name) is Ok,
        has_getter_mark(attrs, name),
    ensures
        accessor_scan(attrs, name)->Ok_0.gets.len() > 0,
    decreases attrs.len(),
{
    let pre = attrs.drop_last();
    let last = attrs.len() - 1;
    assert(attrs[last] == attrs.last());
    let j = choose|j: int| 0 <= j < attrs.len() && (#[trigger] accessor_mark_of(attrs[j], name) matches Ok(MarkV::Getter(_)));
    if j < last {
        assert(pre[j] == attrs[j]);
        assert(has_getter_mark(pre, name));
        lemma_scan_has_getter(pre, name);
    }
}

proof fn lemma_scan_setter_names(attrs: Seq<AttrV>, name: Seq<char>, n: Seq<char>)
    requires
        accessor_scan(attrs, name) is Ok,
        setter_marks_named(attrs, name, n),
    ensures
        forall|i: int|
            0 <= i < accessor_scan(attrs, name)->Ok_0.sets.len() ==> (#[trigger] accessor_scan(
                attrs,
                name,
            )->Ok_0.sets[i]).name == Some(n),
    decreases attrs.len(),
{
    if attrs.len() > 0 {
        let pre = attrs.drop_last();
        let last = attrs.len() - 1;
        assert(attrs[last] == attrs.last());
        assert forall|j: int| 0 <= j < pre.len() implies (#[trigger] accessor_mark_of(pre[j], name) matches Ok(
            MarkV::Setter(g),
        ) ==> g.name == Some(n)) by {
            assert(pre[j] == attrs[j]);
        }
        lemma_scan_setter_names(pre, name, n);
        assert(accessor_mark_of(attrs[last], name) matches Ok(MarkV::Setter(g)) ==> g.name == Some(n));
    }
}

proof fn lemma_scan_has_setter(attrs: Seq<AttrV>, name: Seq<char>)
    requires
        accessor_scan(attrs, name) is Ok,
        has_setter_mark(attrs, name),
    ensures
        accessor_scan(attrs, name)->Ok_0.sets.len() > 0,
    decreases attrs.len(),
{
    let pre = attrs.drop_last();
    let last = attrs.len() - 1;
    assert(attrs[last] == attrs.last());
    let j = choose|j: int| 0 <= j < attrs.len() && (#[trigger] accessor_mark_of(attrs[j], name) matches Ok(MarkV::Setter(_)));
    if j < last {
        assert(pre[j] == attrs[j]);
        assert(has_setter_mark(pre, name));
        lemma_scan_has_setter(pre, name);
    }
}

/// A field whose getter markers all give the name `n` gets getters named
/// `n` only: no getter of the default name `get_<field>`.
pub proof fn law_custom_getter_name(p: AccessorsAttribute, fs: Seq<FieldV>, k: int, n: Seq<char>)
    requires
        accessors_plan_of(p, fs) is Ok,
        0 <= k < fs.len(),
        has_getter_mark(fs[k].attrs, fs[k].name),
        getter_marks_named(fs[k].attrs, fs[k].name, n),
    ensures
        accessors_plan_of(p, fs)->Ok_0[k].getters.len() > 0,
        forall|i: int|
            0 <= i < accessors_plan_of(p, fs)->Ok_0[k].getters.len() ==> getter_name(
                #[trigger] accessors_plan_of(p, fs)->Ok_0[k].getters[i],
                fs[k].name,
            ) == n,
{
    lemma_accessors_plan_aligned(p, fs);
    assert(field_accessors_of(p, fs[k]) == Ok::<FieldAccessorsV, ErrorV>(accessors_plan_of(p, fs)->Ok_0[k]));
    lemma_scan_getter_names(fs[k].attrs, fs[k].name, n);
    lemma_scan_has_getter(fs[k].attrs, fs[k].name);
}

/// A field whose setter markers all give the name `n` gets setters named
/// `n` only: no setter of the default name `set_<field>`.
pub proof fn law_custom_setter_name(p: AccessorsAttribute, fs: Seq<FieldV>, k: int, n: Seq<char>)
    requires
        accessors_plan_of(p, fs) is Ok,
        0 <= k < fs.len(),
        has_setter_mark(fs[k].attrs, fs[k].name),
        setter_marks_named(fs[k].attrs, fs[k].name, n),
    ensures
        accessors_plan_of(p, fs)->Ok_0[k].setters.len() > 0,
        forall|i: int|
            0 <= i < accessors_plan_of(p, fs)->Ok_0[k].setters.len() ==> setter_name(
                #[trigger] accessors_plan_of(p, fs)->Ok_0[k].setters[i],
                fs[k].name,
            ) == n,
{
    lemma_accessors_plan_aligned(p, fs);
    assert(field_accessors_of(p, fs[k]) == Ok::<FieldAccessorsV, ErrorV>(accessors_plan_of(p, fs)->Ok_0[k]));
    lemma_scan_setter_names(fs[k].attrs, fs[k].name, n);
    lemma_scan_has_setter(fs[k].attrs, fs[k].name);
}

} // verus!

verus! {

proof fn lemma_last_marked_none(fs: Seq<DelegateFieldV>, t: Seq<TokenV>)
    requires
        forall|j: int| 0 <= j < fs.len() ==> !((#[trigger] fs[j]).marked && fs[j].field.ty == t),
    ensures
        last_marked(fs, t) is None,
    decreases fs.len(),
{
    if fs.len() > 0 {
        assert(fs[fs.len() - 1] == fs.last());
        assert forall|j: int| 0 <= j < fs.drop_last().len() implies !((#[trigger] fs.drop_last()[j]).marked
            && fs.drop_last()[j].field.ty == t) by {
            assert(fs.drop_last()[j] == fs[j]);
        }
        lemma_last_marked_none(fs.drop_last(), t);
    }
}

proof fn lemma_last_marked_is(fs: Seq<DelegateFieldV>, t: Seq<TokenV>, k: int)
    requires
        0 <= k < fs.len(),
        fs[k].marked,
        fs[k].field.ty == t,
        forall|j: int| k < j < fs.len() ==> !((#[trigger] fs[j]).marked && fs[j].field.ty == t),
    ensures
        last_marked(fs, t) == Some(k),
    decreases fs.len(),
{
    assert(fs[fs.len() - 1] == fs.last());
    if k < fs.len() - 1 {
        assert(fs.drop_last()[k] == fs[k]);
        assert forall|j: int| k < j < fs.drop_last().len() implies !((#[trigger] fs.drop_last()[j]).marked
            && fs.drop_last()[j].field.ty == t) by {
            assert(fs.drop_last()[j] == fs[j]);
        }
        lemma_last_marked_is(fs.drop_last(), t, k);
    }
}

proof fn lemma_first_typed_none(fs: Seq<DelegateFieldV>, t: Seq<TokenV>)
    requires
        forall|j: int| 0 <= j < fs.len() ==> (#[trigger] fs[j]).field.ty != t,
    ensures
        first_typed(fs, t) is None,
    decreases fs.len(),
{
    if fs.len() > 0 {
        assert(fs[fs.len() - 1] == fs.last());
        assert forall|j: int| 0 <= j < fs.drop_last().len() implies (#[trigger] fs.drop_last()[j]).field.ty
            != t by {
            assert(fs.drop_last()[j] == fs[j]);
        }
        lemma_first_typed_none(fs.drop_last(), t);
    }
}

proof fn lemma_first_typed_is(fs: Seq<DelegateFieldV>, t: Seq<TokenV>, k: int)
    requires
        0 <= k < fs.len(),
        fs[k].field.ty == t,
        forall|j: int| 0 <= j < k ==> (#[trigger] fs[j]).field.ty != t,
    ensures
        first_typed(fs, t) == Some(k),
    decreases fs.len(),
{
    assert(fs[fs.len() - 1] == fs.last());
    if k < fs.len() - 1 {
        assert(fs.drop_last()[k] == fs[k]);
        assert forall|j: int| 0 <= j < k implies (#[trigger] fs.drop_last()[j]).field.ty != t by {
            assert(fs.drop_last()[j] == fs[j]);
        }
        lemma_first_typed_is(fs.drop_last(), t, k);
    } else {
        assert forall|j: int| 0 <= j < fs.drop_last().len() implies (#[trigger] fs.drop_last()[j]).field.ty
            != t by {
            assert(fs.drop_last()[j] == fs[j]);
        }
        lemma_first_typed_none(fs.drop_last(), t);
    }
}

/// Where exactly one field has type `t`, delegating `t` resolves to that
/// field, and the reference, consuming and dereference conversions that are
/// generated all go through it.
pub proof fn law_single_field_of_type(d: StructV, fs: Seq<DelegateFieldV>, t: Seq<TokenV>, k: int)
    requires
        0 <= k < fs.len(),
        fs[k].field.ty == t,
        forall|j: int| 0 <= j < fs.len() && j != k ==> (#[trigger] fs[j]).field.ty != t,
    ensures
        delegate_index(fs, t) == Some(k),
        delegations_of(d, fs, seq![t]) == Ok::<Seq<TokenV>, ErrorV>(
            delegation_tokens(d, fs[k].field.name, t),
        ),
{
    if fs[k].marked {
        lemma_last_marked_is(fs, t, k);
    } else {
        lemma_last_marked_none(fs, t);
        lemma_first_typed_is(fs, t, k);
    }
    let ts = seq![t];
    assert(ts.drop_last() =~= Seq::<Seq<TokenV>>::empty());
    assert(ts.last() == t);
    assert(delegations_of(d, fs, ts.drop_last()) == Ok::<Seq<TokenV>, ErrorV>(Seq::empty()));
    assert(Seq::<TokenV>::empty() + delegation_tokens(d, fs[k].field.name, t) =~= delegation_tokens(
        d,
        fs[k].field.name,
        t,
    ));
}

/// A field of type `t` that carries the delegate marker wins over every
/// unmarked field of that type, wherever they stand; among marked fields of
/// one type the last one wins.
pub proof fn law_marker_overrides_position(fs: Seq<DelegateFieldV>, t: Seq<TokenV>, k: int)
    requires
        0 <= k < fs.len(),
        fs[k].marked,
        fs[k].field.ty == t,
        forall|j: int| k < j < fs.len() ==> !((#[trigger] fs[j]).marked && fs[j].field.ty == t),
    ensures
        delegate_index(fs, t) == Some(k),
{
    lemma_last_marked_is(fs, t, k);
}

/// With no marked field of type `t`, the first field of that type wins.
pub proof fn law_first_field_without_marker(fs: Seq<DelegateFieldV>, t: Seq<TokenV>, k: int)
    requires
        0 <= k < fs.len(),
        fs[k].field.ty == t,
        forall|j: int| 0 <= j < k ==> (#[trigger] fs[j]).field.ty != t,
        forall|j: int| 0 <= j < fs.len() ==> !((#[trigger] fs[j]).marked && fs[j].field.ty == t),
    ensures
        delegate_index(fs, t) == Some(k),
{
    lemma_last_marked_none(fs, t);
    lemma_first_typed_is(fs, t, k);
}

/// Delegating a type that no field has fails, naming the type.
pub proof fn law_unresolved_delegate(d: StructV, fs: Seq<DelegateFieldV>, t: Seq<TokenV>)
    requires
        forall|j: int| 0 <= j < fs.len() ==> (#[trigger] fs[j]).field.ty != t,
    ensures
        delegate_index(fs, t) is None,
        delegations_of(d, fs, seq![t]) == Err::<Seq<TokenV>, ErrorV>(
            ErrorV::UnresolvedDelegate { type_text: tokens_text(t) },
        ),
{
    assert forall|j: int| 0 <= j < fs.len() implies !((#[trigger] fs[j]).marked && fs[j].field.ty == t) by {}
    lemma_last_marked_none(fs, t);
    lemma_first_typed_none(fs, t);
    let ts = seq![t];
    assert(ts.drop_last() =~= Seq::<Seq<TokenV>>::empty());
    assert(ts.last() == t);
    assert(delegations_of(d, fs, ts.drop_last()) == Ok::<Seq<TokenV>, ErrorV>(Seq::empty()));
}

} // verus!

verus! {

/// The annotations that the delegation directive keeps on a field.
pub open spec fn parent_kept(name: Seq<char>) -> spec_fn(AttrV) -> bool {
    |a: AttrV| parent_mark_of(a, name) == Ok::<bool, ErrorV>(false)
}

proof fn lemma_parent_scan_kept(attrs: Seq<AttrV>, name: Seq<char>)
    requires
        parent_scan(attrs, name) is Ok,
    ensures
        parent_scan(attrs, name)->Ok_0.kept == attrs.filter(parent_kept(name)),
    decreases attrs.len(),
{
    reveal(Seq::filter);
    if attrs.len() > 0 {
        lemma_parent_scan_kept(attrs.drop_last(), name);
    }
}

proof fn lemma_delegate_fields_aligned(fs: Seq<FieldV>)
    requires
        delegate_fields_of(fs) is Ok,
    ensures
        delegate_fields_of(fs)->Ok_0.len() == fs.len(),
        forall|k: int|
            0 <= k < fs.len() ==> delegate_field_of(fs[k]) == Ok::<DelegateFieldV, ErrorV>(
                #[trigger] delegate_fields_of(fs)->Ok_0[k],
            ),
    decreases fs.len(),
{
    if fs.len() > 0 {
        lemma_delegate_fields_aligned(fs.drop_last());
        let ps = delegate_fields_of(fs)->Ok_0;
        let pre = delegate_fields_of(fs.drop_last())->Ok_0;
        assert forall|k: int| 0 <= k < fs.len() implies delegate_field_of(fs[k]) == Ok::<
            DelegateFieldV,
            ErrorV,
        >(#[trigger] ps[k]) by {
            if k < fs.len() - 1 {
                assert(fs[k] == fs.drop_last()[k]);
                assert(ps[k] == pre[k]);
            }
        }
    }
}

/// Under the delegation directive, the emitted declaration has every field
/// of the input, in order, with its name, visibility and type; each field
/// keeps exactly the annotations that are not delegate markers, in order.
pub proof fn law_extends_keep_fields(fs: Seq<FieldV>)
    requires
        delegate_fields_of(fs) is Ok,
    ensures
        delegate_fields_of(fs)->Ok_0.len() == fs.len(),
        forall|k: int|
            0 <= k < fs.len() ==> {
                let f = (#[trigger] delegate_fields_of(fs)->Ok_0[k]).field;
                &&& f.name == fs[k].name
                &&& f.vis == fs[k].vis
                &&& f.ty == fs[k].ty
                &&& f.attrs == fs[k].attrs.filter(parent_kept(fs[k].name))
            },
{
    lemma_delegate_fields_aligned(fs);
    assert forall|k: int| 0 <= k < fs.len() implies {
        let f = (#[trigger] delegate_fields_of(fs)->Ok_0[k]).field;
        &&& f.name == fs[k].name
        &&& f.vis == fs[k].vis
        &&& f.ty == fs[k].ty
        &&& f.attrs == fs[k].attrs.filter(parent_kept(fs[k].name))
    } by {
        assert(delegate_field_of(fs[k]) == Ok::<DelegateFieldV, ErrorV>(delegate_fields_of(fs)->Ok_0[k]));
        lemma_parent_scan_kept(fs[k].attrs, fs[k].name);
    }
}

/// The annotations that the reflection directive keeps on a field.
pub open spec fn reflect_kept(name: Seq<char>) -> spec_fn(AttrV) -> bool {
    |a: AttrV| field_mark_of(a, name) == Ok::<Option<Option<MetaV>>, ErrorV>(None)
}

proof fn lemma_field_scan_kept(attrs: Seq<AttrV>, name: Seq<char>)
    requires
        field_scan(attrs, name) is Ok,
    ensures
        field_scan(attrs, name)->Ok_0.kept == attrs.filter(reflect_kept(name)),
    decreases attrs.len(),
{
    reveal(Seq::filter);
    if attrs.len() > 0 {
        lemma_field_scan_kept(attrs.drop_last(), name);
    }
}

proof fn lemma_reflect_fields_aligned(p: FieldsV, fs: Seq<FieldV>)
    requires
        reflect_fields_of(p, fs) is Ok,
    ensures
        reflect_fields_of(p, fs)->Ok_0.len() == fs.len(),
        forall|k: int|
            0 <= k < fs.len() ==> reflect_field_of(p, fs[k]) == Ok::<ReflectFieldV, ErrorV>(
                #[trigger] reflect_fields_of(p, fs)->Ok_0[k],
            ),
    decreases fs.len(),
{
    if fs.len() > 0 {
        lemma_reflect_fields_aligned(p, fs.drop_last());
        let ps = reflect_fields_of(p, fs)->Ok_0;
        let pre = reflect_fields_of(p, fs.drop_last())->Ok_0;
        assert forall|k: int| 0 <= k < fs.len() implies reflect_field_of(p, fs[k]) == Ok::<
            ReflectFieldV,
            ErrorV,
        >(#[trigger] ps[k]) by {
            if k < fs.len() - 1 {
                assert(fs[k] == fs.drop_last()[k]);
                assert(ps[k] == pre[k]);
            }
        }
    }
}

/// Under the reflection directive, the emitted declaration has every field
/// of the input, in order, with its name, visibility and type; each field
/// keeps exactly the annotations that are not reflective markers, in order.
pub proof fn law_fields_keep_fields(p: FieldsV, fs: Seq<FieldV>)
    requires
        reflect_fields_of(p, fs) is Ok,
    ensures
        reflect_fields_of(p, fs)->Ok_0.len() == fs.len(),
        forall|k: int|
            0 <= k < fs.len() ==> {
                let f = (#[trigger] reflect_fields_of(p, fs)->Ok_0[k]).field;
                &&& f.name == fs[k].name
                &&& f.vis == fs[k].vis
                &&& f.ty == fs[k].ty
                &&& f.attrs == fs[k].attrs.filter(reflect_kept(fs[k].name))
            },
{
    lemma_reflect_fields_aligned(p, fs);
    assert forall|k: int| 0 <= k < fs.len() implies {
        let f = (#[trigger] reflect_fields_of(p, fs)->Ok_0[k]).field;
        &&& f.name == fs[k].name
        &&& f.vis == fs[k].vis
        &&& f.ty == fs[k].ty
        &&& f.attrs == fs[k].attrs.filter(reflect_kept(fs[k].name))
    } by {
        assert(reflect_field_of(p, fs[k]) == Ok::<ReflectFieldV, ErrorV>(reflect_fields_of(p, fs)->Ok_0[k]));
        lemma_field_scan_kept(fs[k].attrs, fs[k].name);
    }
}

/// The names in a reflection table, in field order.
pub open spec fn table_names(rs: Seq<ReflectFieldV>) -> Seq<Seq<char>>
    decreases rs.len(),
{
    if rs.len() == 0 {
        Seq::empty()
    } else if rs.last().included {
        table_names(rs.drop_last()).push(rs.last().field.name)
    } else {
        table_names(rs.drop_last())
    }
}

/// `"a", "b", ...,` for a list of names.
pub open spec fn names_list(ns: Seq<Seq<char>>) -> Seq<TokenV>
    decreases ns.len(),
{
    if ns.len() == 0 {
        Seq::empty()
    } else {
        names_list(ns.drop_last()) + seq![name_literal(ns.last()), TokenV::Punct(',', false)]
    }
}

/// A field that takes part in reflection.
pub open spec fn is_included() -> spec_fn(ReflectFieldV) -> bool {
    |r: ReflectFieldV| r.included
}

/// The list that `fields()` returns names exactly the fields that take part,
/// in declaration order.
pub proof fn law_listed_names(rs: Seq<ReflectFieldV>)
    ensures
        list_entries(rs) == names_list(table_names(rs)),
        table_names(rs) == rs.filter(is_included()).map_values(|r: ReflectFieldV| r.field.name),
    decreases rs.len(),
{
    reveal(Seq::filter);
    if rs.len() > 0 {
        let pre = rs.drop_last();
        law_listed_names(pre);
        let sub = pre.filter(is_included());
        if rs.last().included {
            assert(sub.push(rs.last()).map_values(|r: ReflectFieldV| r.field.name) =~= sub.map_values(
                |r: ReflectFieldV| r.field.name,
            ).push(rs.last().field.name));
            let ns = table_names(rs);
            assert(ns.drop_last() =~= table_names(pre));
        }
    }
}

proof fn lemma_name_literal_injective(a: Seq<char>, b: Seq<char>)
    requires
        name_literal(a) == name_literal(b),
    ensures
        a == b,
{
    let x = seq!['"'] + a + seq!['"'];
    let y = seq!['"'] + b + seq!['"'];
    assert(x == y);
    assert(x.len() == y.len());
    assert(a =~= x.subrange(1, x.len() - 1));
    assert(b =~= y.subrange(1, y.len() - 1));
}

/// A name that is not in the table appears in no arm of `get` or `get_mut`,
/// so both return `None` for it.
pub proof fn law_unlisted_name_has_no_arm(rs: Seq<ReflectFieldV>, m: bool, n: Seq<char>)
    requires
        !table_names(rs).contains(n),
    ensures
        !get_arms(rs, m).contains(name_literal(n)),
    decreases rs.len(),
{
    if rs.len() > 0 {
        let pre = rs.drop_last();
        if table_names(pre).contains(n) {
            let j = choose|j: int| 0 <= j < table_names(pre).len() && table_names(pre)[j] == n;
            if rs.last().included {
                assert(table_names(rs)[j] == n);
            }
        }
        law_unlisted_name_has_no_arm(pre, m, n);
        let a = get_arms(pre, m);
        let b = get_arm(rs.last(), m);
        if (a + b).contains(name_literal(n)) {
            let i = choose|i: int| 0 <= i < (a + b).len() && (a + b)[i] == name_literal(n);
            if i < a.len() {
                assert(a[i] == (a + b)[i]);
            } else {
                assert(b[i - a.len()] == name_literal(n));
                assert(rs.last().included);
                assert(b[0] == name_literal(rs.last().field.name));
                if i - a.len() == 0 {
                    lemma_name_literal_injective(n, rs.last().field.name);
                    let ns = table_names(rs);
                    assert(ns[ns.len() - 1] == rs.last().field.name);
                }
            }
        }
        assert(get_arms(rs, m) == a + b);
    }
}

} // verus!

verus! {

proof fn lemma_field_scan_unmarked(attrs: Seq<AttrV>, name: Seq<char>)
    requires
        forall|j: int| 0 <= j < attrs.len() ==> (#[trigger] reflect_kept(name)(attrs[j])),
    ensures
        field_scan(attrs, name) == Ok::<FieldScanV, ErrorV>(
            FieldScanV { kept: attrs, marked: false, meta: None },
        ),
    decreases attrs.len(),
{
    if attrs.len() > 0 {
        assert forall|j: int| 0 <= j < attrs.drop_last().len() implies (#[trigger] reflect_kept(
            name,
        )(attrs.drop_last()[j])) by {
            assert(attrs.drop_last()[j] == attrs[j]);
        }
        lemma_field_scan_unmarked(attrs.drop_last(), name);
        assert(reflect_kept(name)(attrs[attrs.len() - 1]));
        assert(attrs.drop_last().push(attrs.last()) =~= attrs);
    } else {
        assert(attrs =~= Seq::<AttrV>::empty());
    }
}

/// Every reflective marker among `attrs` carries the metadata `o`.
pub open spec fn markers_carry(attrs: Seq<AttrV>, name: Seq<char>, o: Option<MetaV>) -> bool {
    forall|j: int|
        0 <= j < attrs.len() ==> (#[trigger] field_mark_of(attrs[j], name) matches Ok(Some(m)) ==> m
            == o)
}

/// Some annotation among `attrs` is a reflective marker.
pub open spec fn has_field_mark(attrs: Seq<AttrV>, name: Seq<char>) -> bool {
    exists|j: int| 0 <= j < attrs.len() && (#[trigger] field_mark_of(attrs[j], name) matches Ok(Some(_)))
}

proof fn lemma_field_scan_carries(attrs: Seq<AttrV>, name: Seq<char>, o: Option<MetaV>)
    requires
        field_scan(attrs, name) is Ok,
        markers_carry(attrs, name, o),
    ensures
        field_scan(attrs, name)->Ok_0.marked ==> field_scan(attrs, name)->Ok_0.meta == o,
        has_field_mark(attrs, name) ==> field_scan(attrs, name)->Ok_0.marked,
    decreases attrs.len(),
{
    if attrs.len() > 0 {
        let pre = attrs.drop_last();
        let last = attrs.len() - 1;
        assert(attrs[last] == attrs.last());
        assert forall|j: int| 0 <= j < pre.len() implies (#[trigger] field_mark_of(pre[j], name) matches Ok(
            Some(m),
        ) ==> m == o) by {
            assert(pre[j] == attrs[j]);
        }
        lemma_field_scan_carries(pre, name, o);
        assert(field_mark_of(attrs[last], name) matches Ok(Some(m)) ==> m == o);
        if has_field_mark(attrs, name) {
            let j = choose|j: int| 0 <= j < attrs.len() && (#[trigger] field_mark_of(attrs[j], name) matches Ok(Some(_)));
            if j < last {
                assert(pre[j] == attrs[j]);
                assert(has_field_mark(pre, name));
            }
        }
    }
}

/// A field with no reflective marker takes part exactly where the rule lets
/// it, and then has the structure's default metadata.
pub proof fn law_unmarked_field_metadata(p: FieldsV, f: FieldV)
    requires
        forall|j: int| 0 <= j < f.attrs.len() ==> (#[trigger] reflect_kept(f.name)(f.attrs[j])),
    ensures
        reflect_field_of(p, f) is Ok,
        reflect_field_of(p, f)->Ok_0.included == field_needed(p.rule, f.vis),
        reflect_field_of(p, f)->Ok_0.included ==> reflect_field_of(p, f)->Ok_0.meta == p.metadata,
{
    lemma_field_scan_unmarked(f.attrs, f.name);
}

/// A field with reflective markers takes part; its metadata is the one its
/// markers carry, or the structure's default where they carry none.
pub proof fn law_marked_field_metadata(p: FieldsV, f: FieldV, o: Option<MetaV>)
    requires
        reflect_field_of(p, f) is Ok,
        has_field_mark(f.attrs, f.name),
        markers_carry(f.attrs, f.name, o),
    ensures
        reflect_field_of(p, f)->Ok_0.included,
        reflect_field_of(p, f)->Ok_0.meta == (if o is Some {
            o
        } else {
            p.metadata
        }),
{
    lemma_field_scan_carries(f.attrs, f.name, o);
}

} // verus!

verus! {

/// Stripping is idempotent: the accessors directive, read again over a field
/// that it has already stripped, keeps every annotation, finds no marker and
/// leaves the field as it is.
pub proof fn law_accessors_strip_idempotent(p: AccessorsAttribute, f: FieldV)
    requires
        field_accessors_of(p, f) is Ok,
    ensures
        field_accessors_of(p, field_accessors_of(p, f)->Ok_0.field) is Ok,
        field_accessors_of(p, field_accessors_of(p, f)->Ok_0.field)->Ok_0.field == field_accessors_of(
            p,
            f,
        )->Ok_0.field,
{
    let g = field_accessors_of(p, f)->Ok_0.field;
    lemma_accessor_scan_kept(f.attrs, f.name);
    assert forall|j: int| 0 <= j < g.attrs.len() implies (#[trigger] accessor_kept(g.name)(g.attrs[j])) by {
        f.attrs.lemma_filter_pred(accessor_kept(f.name), j);
    }
    lemma_accessor_scan_unmarked(g.attrs, g.name);
}

/// Stripping is idempotent: the reflection directive, read again over a
/// field that it has already stripped, keeps every annotation and leaves the
/// field as it is.
pub proof fn law_fields_strip_idempotent(p: FieldsV, f: FieldV)
    requires
        reflect_field_of(p, f) is Ok,
    ensures
        reflect_field_of(p, reflect_field_of(p, f)->Ok_0.field) is Ok,
        reflect_field_of(p, reflect_field_of(p, f)->Ok_0.field)->Ok_0.field == reflect_field_of(
            p,
            f,
        )->Ok_0.field,
{
    let g = reflect_field_of(p, f)->Ok_0.field;
    lemma_field_scan_kept(f.attrs, f.name);
    assert forall|j: int| 0 <= j < g.attrs.len() implies (#[trigger] reflect_kept(g.name)(g.attrs[j])) by {
        f.attrs.lemma_filter_pred(reflect_kept(f.name), j);
    }
    lemma_field_scan_unmarked(g.attrs, g.name);
}

proof fn lemma_parent_scan_unmarked(attrs: Seq<AttrV>, name: Seq<char>)
    requires
        forall|j: int| 0 <= j < attrs.len() ==> (#[trigger] parent_kept(name)(attrs[j])),
    ensures
        parent_scan(attrs, name) == Ok::<ParentScanV, ErrorV>(ParentScanV { kept: attrs, marked: false }),
    decreases attrs.len(),
{
    if attrs.len() > 0 {
        assert forall|j: int| 0 <= j < attrs.drop_last().len() implies (#[trigger] parent_kept(
            name,
        )(attrs.drop_last()[j])) by {
            assert(attrs.drop_last()[j] == attrs[j]);
        }
        lemma_parent_scan_unmarked(attrs.drop_last(), name);
        assert(parent_kept(name)(attrs[attrs.len() - 1]));
        assert(attrs.drop_last().push(attrs.last()) =~= attrs);
    } else {
        assert(attrs =~= Seq::<AttrV>::empty());
    }
}

/// Stripping is idempotent: the delegation directive, read again over a
/// field that it has already stripped, keeps every annotation, finds no
/// marker and leaves the field as it is.
pub proof fn law_extends_strip_idempotent(f: FieldV)
    requires
        delegate_field_of(f) is Ok,
    ensures
        delegate_field_of(delegate_field_of(f)->Ok_0.field) is Ok,
        delegate_field_of(delegate_field_of(f)->Ok_0.field)->Ok_0.field == delegate_field_of(
            f,
        )->Ok_0.field,
        !delegate_field_of(delegate_field_of(f)->Ok_0.field)->Ok_0.marked,
{
    let g = delegate_field_of(f)->Ok_0.field;
    lemma_parent_scan_kept(f.attrs, f.name);
    assert forall|j: int| 0 <= j < g.attrs.len() implies (#[trigger] parent_kept(g.name)(g.attrs[j])) by {
        f.attrs.lemma_filter_pred(parent_kept(f.name), j);
    }
    lemma_parent_scan_unmarked(g.attrs, g.name);
}

} // verus!
