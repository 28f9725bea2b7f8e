//! The struct-level accessors directive: `accessors(get = rule, set = rule)`,
//! and the synthesis of getters and setters.
use vstd::prelude::*;
use crate::args::{Arg, ArgV, arg_key, arg_list_of, key_of, parse_arg_list, rule_word, rule_word_of, text_is};
use crate::decl::{
    Attr, AttrV, Field, FieldV, Item, ItemV, StructDecl, StructV, attr_args, attr_args_of,
    attr_named, impl_head_tokens, is_getter_attribute, is_roopert_attribute,
    is_setter_attribute, push_impl_head, push_one, push_struct, struct_tokens, view_attrs,
    view_fields, with_fields_of,
};
use crate::error::{DirectiveError, ErrorV, Family};
use crate::generate::Generate;
use crate::getter::{GetterAttribute, GetterV, default_getter, getter_fn_tokens, getter_of};
use crate::outside::lower_of;
use crate::root::{RoopertAttribute, RoopertAttributeType, RootV, root_of};
use crate::setter::{SetterAttribute, SetterV, default_setter, setter_fn_tokens, setter_of};
use crate::tokens::{Delim, Token, TokenV, copy_tokens, view_tokens};

verus! {

/// Which fields get an accessor when they have no directive of their own.
#[derive(Clone, Copy, Debug, PartialEq, Eq, Structural)]
pub enum AccessorAutoRule {
    All,
    /// Only fields with the default (private) visibility.
    Private,
    No,
}

/// The rule that a lower-case word names.
pub open spec fn accessor_rule_named(w: Seq<char>) -> Option<AccessorAutoRule> {
    if w == "all"@ {
        Some(AccessorAutoRule::All)
    } else if w == "private"@ {
        Some(AccessorAutoRule::Private)
    } else if w == "no"@ {
        Some(AccessorAutoRule::No)
    } else {
        None
    }
}

/// The rule that a value names (a word or a string literal, in any case).
pub open spec fn accessor_rule_of(v: Seq<TokenV>) -> Option<AccessorAutoRule> {
    match rule_word_of(v) {
        Some(w) => accessor_rule_named(w),
        None => None,
    }
}

/// Whether a rule asks for an accessor on a field of visibility `vis`.
pub open spec fn accessor_needed(rule: AccessorAutoRule, vis: Seq<TokenV>) -> bool {
    match rule {
        AccessorAutoRule::All => true,
        AccessorAutoRule::Private => vis.len() == 0,
        AccessorAutoRule::No => false,
    }
}

impl AccessorAutoRule {
    /// Whether the rule asks for an accessor on a field of visibility `vis`.
    pub fn needs_accessor(&self, vis: &Vec<Token>) -> (r: bool)
        ensures
            r == accessor_needed(*self, view_tokens(vis@)),
    {
        match self {
            AccessorAutoRule::All => true,
            AccessorAutoRule::Private => vis.len() == 0,
            AccessorAutoRule::No => false,
        }
    }

    fn from_value(v: &Vec<Token>) -> (r: Option<AccessorAutoRule>)
        ensures
            r == accessor_rule_of(view_tokens(v@)),
    {
        match rule_word(v) {
            Some(w) => if text_is(&w, "all") {
                Some(AccessorAutoRule::All)
            } else if text_is(&w, "private") {
                Some(AccessorAutoRule::Private)
            } else if text_is(&w, "no") {
                Some(AccessorAutoRule::No)
            } else {
                None
            },
            None => None,
        }
    }
}

/// The struct-level policy for generated accessors.
#[derive(Clone, Copy, Debug, PartialEq, Eq, Structural)]
pub struct AccessorsAttribute {
    pub getter_rule: AccessorAutoRule,
    pub setter_rule: AccessorAutoRule,
}

/// The policy after one more argument.
pub open spec fn accessors_step(a: ArgV, p: AccessorsAttribute) -> Result<AccessorsAttribute, ErrorV> {
    match key_of(Family::Accessors, a) {
        Err(e) => Err(e),
        Ok((k, v)) => {
            let lk = lower_of(k);
            if lk == "get"@ {
                match accessor_rule_of(v) {
                    Some(r) => Ok(AccessorsAttribute { getter_rule: r, setter_rule: p.setter_rule }),
                    None => Err(ErrorV::UnrecognizedValue { family: Family::Accessors, option: k }),
                }
            } else if lk == "set"@ {
                match accessor_rule_of(v) {
                    Some(r) => Ok(AccessorsAttribute { getter_rule: p.getter_rule, setter_rule: r }),
                    None => Err(ErrorV::UnrecognizedValue { family: Family::Accessors, option: k }),
                }
            } else {
                Err(ErrorV::UnknownOption { family: Family::Accessors, keyword: k })
            }
        },
    }
}

/// The policy after the arguments from `i` on.
pub open spec fn accessors_from(args: Seq<ArgV>, i: int, p: AccessorsAttribute) -> Result<
    AccessorsAttribute,
    ErrorV,
>
    decreases args.len() - i,
{
    if i < 0 || i >= args.len() {
        Ok(p)
    } else {
        match accessors_step(args[i], p) {
            Ok(n) => accessors_from(args, i + 1, n),
            Err(e) => Err(e),
        }
    }
}

/// The policy that an argument list describes; both rules are `No` unless given.
pub open spec fn accessors_of(s: Seq<TokenV>) -> Result<AccessorsAttribute, ErrorV> {
    match arg_list_of(Family::Accessors, s) {
        Err(e) => Err(e),
        Ok(args) => accessors_from(
            args,
            0,
            AccessorsAttribute { getter_rule: AccessorAutoRule::No, setter_rule: AccessorAutoRule::No },
        ),
    }
}

/// An accessors result with its error as a view.
pub open spec fn view_accessors_result(r: Result<AccessorsAttribute, DirectiveError>) -> Result<
    AccessorsAttribute,
    ErrorV,
> {
    match r {
        Ok(x) => Ok(x),
        Err(e) => Err(e@),
    }
}

impl AccessorsAttribute {
    fn apply(&mut self, a: &Arg) -> (r: Result<(), DirectiveError>)
        ensures
            match r {
                Ok(_) => accessors_step(a@, *old(self)) == Ok::<AccessorsAttribute, ErrorV>(*final(self)),
                Err(e) => accessors_step(a@, *old(self)) == Err::<AccessorsAttribute, ErrorV>(e@),
            },
    {
        let (k, lk, v) = arg_key(Family::Accessors, a)?;
        if text_is(&lk, "get") {
            match AccessorAutoRule::from_value(v) {
                Some(r) => {
                    self.getter_rule = r;
                    Ok(())
                },
                None => Err(DirectiveError::UnrecognizedValue { family: Family::Accessors, option: k }),
            }
        } else if text_is(&lk, "set") {
            match AccessorAutoRule::from_value(v) {
                Some(r) => {
                    self.setter_rule = r;
                    Ok(())
                },
                None => Err(DirectiveError::UnrecognizedValue { family: Family::Accessors, option: k }),
            }
        } else {
            Err(DirectiveError::UnknownOption { family: Family::Accessors, keyword: k })
        }
    }

    /// Reads the arguments of an accessors directive.
    pub fn parse(toks: &Vec<Token>) -> (r: Result<Self, DirectiveError>)
        ensures
            view_accessors_result(r) == accessors_of(view_tokens(toks@)),
    {
        let args = parse_arg_list(Family::Accessors, toks)?;
        let ghost av = args@.map_values(|x: Arg| x@);
        let mut p = AccessorsAttribute { getter_rule: AccessorAutoRule::No, setter_rule: AccessorAutoRule::No };
        let mut i: usize = 0;
        while i < args.len()
            invariant
                i <= args@.len(),
                av == args@.map_values(|x: Arg| x@),
                arg_list_of(Family::Accessors, view_tokens(toks@)) == Ok::<Seq<ArgV>, ErrorV>(av),
                accessors_of(view_tokens(toks@)) == accessors_from(av, i as int, p),
            decreases args@.len() - i,
        {
            let step = p.apply(&args[i]);
            if let Err(e) = step {
                return Err(e);
            }
            i += 1;
        }
        Ok(p)
    }
}

} // verus!

verus! {

/// The malformed-directive error that names the field whose annotation failed.
pub open spec fn malformed_field(f: Family, name: Seq<char>) -> ErrorV {
    ErrorV::MalformedDirective { family: f, text: name }
}

/// What one field annotation is to the accessors directive.
pub enum AccessorMark {
    Keep,
    Getter(GetterAttribute),
    Setter(SetterAttribute),
}

pub enum MarkV {
    Keep,
    Getter(GetterV),
    Setter(SetterV),
}

impl View for AccessorMark {
    type V = MarkV;

    open spec fn view(&self) -> MarkV {
        match self {
            AccessorMark::Keep => MarkV::Keep,
            AccessorMark::Getter(g) => MarkV::Getter(g@),
            AccessorMark::Setter(s) => MarkV::Setter(s@),
        }
    }
}

/// A field annotation read by the accessors directive: a getter or setter
/// marker, in short (`get(...)`) or umbrella (`roopert(get, ...)`) form, is
/// consumed; every other annotation is kept. A marker that does not parse
/// fails, naming the field.
pub open spec fn accessor_mark_of(a: AttrV, name: Seq<char>) -> Result<MarkV, ErrorV> {
    if attr_named(a, "get"@) {
        match attr_args_of(a.tokens) {
            Some(t) => match getter_of(t) {
                Ok(g) => Ok(MarkV::Getter(g)),
                Err(_) => Err(malformed_field(Family::Getter, name)),
            },
            None => Err(malformed_field(Family::Getter, name)),
        }
    } else if attr_named(a, "set"@) {
        match attr_args_of(a.tokens) {
            Some(t) => match setter_of(t) {
                Ok(g) => Ok(MarkV::Setter(g)),
                Err(_) => Err(malformed_field(Family::Setter, name)),
            },
            None => Err(malformed_field(Family::Setter, name)),
        }
    } else if attr_named(a, "roopert"@) {
        match attr_args_of(a.tokens) {
            Some(t) => match root_of(t) {
                Ok(RootV::Getter(g)) => Ok(MarkV::Getter(g)),
                Ok(RootV::Setter(g)) => Ok(MarkV::Setter(g)),
                Ok(_) => Ok(MarkV::Keep),
                Err(_) => Err(malformed_field(Family::Roopert, name)),
            },
            None => Err(malformed_field(Family::Roopert, name)),
        }
    } else {
        Ok(MarkV::Keep)
    }
}

/// The annotations of a field, sorted: those kept, and the getter and setter
/// markers in order.
pub struct ScanV {
    pub kept: Seq<AttrV>,
    pub gets: Seq<GetterV>,
    pub sets: Seq<SetterV>,
}

/// Reads the annotations of the field `name` in order; the first that fails
/// ends the reading.
pub open spec fn accessor_scan(attrs: Seq<AttrV>, name: Seq<char>) -> Result<ScanV, ErrorV>
    decreases attrs.len(),
{
    if attrs.len() == 0 {
        Ok(ScanV { kept: Seq::empty(), gets: Seq::empty(), sets: Seq::empty() })
    } else {
        match accessor_scan(attrs.drop_last(), name) {
            Err(e) => Err(e),
            Ok(st) => match accessor_mark_of(attrs.last(), name) {
                Err(e) => Err(e),
                Ok(MarkV::Keep) => Ok(ScanV { kept: st.kept.push(attrs.last()), gets: st.gets, sets: st.sets }),
                Ok(MarkV::Getter(g)) => Ok(ScanV { kept: st.kept, gets: st.gets.push(g), sets: st.sets }),
                Ok(MarkV::Setter(g)) => Ok(ScanV { kept: st.kept, gets: st.gets, sets: st.sets.push(g) }),
            },
        }
    }
}

/// One field's part of the synthesis: the field without its markers, and its
/// getters and setters.
pub struct FieldAccessors {
    pub field: Field,
    pub getters: Vec<GetterAttribute>,
    pub setters: Vec<SetterAttribute>,
}

pub struct FieldAccessorsV {
    pub field: FieldV,
    pub getters: Seq<GetterV>,
    pub setters: Seq<SetterV>,
}

impl View for FieldAccessors {
    type V = FieldAccessorsV;

    open spec fn view(&self) -> FieldAccessorsV {
        FieldAccessorsV {
            field: self.field@,
            getters: self.getters@.map_values(|g: GetterAttribute| g@),
            setters: self.setters@.map_values(|g: SetterAttribute| g@),
        }
    }
}

/// A field's getters and setters: those its markers ask for; where it has no
/// getter marker, one default getter if the struct-level rule asks for it;
/// the same for setters.
pub open spec fn field_accessors_of(p: AccessorsAttribute, f: FieldV) -> Result<FieldAccessorsV, ErrorV> {
    match accessor_scan(f.attrs, f.name) {
        Err(e) => Err(e),
        Ok(st) => Ok(
            FieldAccessorsV {
                field: FieldV { attrs: st.kept, vis: f.vis, name: f.name, ty: f.ty },
                getters: if st.gets.len() == 0 && accessor_needed(p.getter_rule, f.vis) {
                    seq![default_getter()]
                } else {
                    st.gets
                },
                setters: if st.sets.len() == 0 && accessor_needed(p.setter_rule, f.vis) {
                    seq![default_setter()]
                } else {
                    st.sets
                },
            },
        ),
    }
}

/// The synthesis plan of every field, in order; the first field that fails
/// ends it.
pub open spec fn accessors_plan_of(p: AccessorsAttribute, fs: Seq<FieldV>) -> Result<
    Seq<FieldAccessorsV>,
    ErrorV,
>
    decreases fs.len(),
{
    if fs.len() == 0 {
        Ok(Seq::empty())
    } else {
        match accessors_plan_of(p, fs.drop_last()) {
            Err(e) => Err(e),
            Ok(ps) => match field_accessors_of(p, fs.last()) {
                Ok(x) => Ok(ps.push(x)),
                Err(e) => Err(e),
            },
        }
    }
}

/// The getters of one field.
pub open spec fn getters_tokens(f: FieldV, gs: Seq<GetterV>) -> Seq<TokenV>
    decreases gs.len(),
{
    if gs.len() == 0 {
        Seq::empty()
    } else {
        getters_tokens(f, gs.drop_last()) + getter_fn_tokens(gs.last(), f.name, f.ty)
    }
}

/// The setters of one field.
pub open spec fn setters_tokens(f: FieldV, gs: Seq<SetterV>) -> Seq<TokenV>
    decreases gs.len(),
{
    if gs.len() == 0 {
        Seq::empty()
    } else {
        setters_tokens(f, gs.drop_last()) + setter_fn_tokens(gs.last(), f.name, f.ty)
    }
}

/// The getters of every field, in field order.
pub open spec fn all_getters_tokens(ps: Seq<FieldAccessorsV>) -> Seq<TokenV>
    decreases ps.len(),
{
    if ps.len() == 0 {
        Seq::empty()
    } else {
        all_getters_tokens(ps.drop_last()) + getters_tokens(ps.last().field, ps.last().getters)
    }
}

/// The setters of every field, in field order.
pub open spec fn all_setters_tokens(ps: Seq<FieldAccessorsV>) -> Seq<TokenV>
    decreases ps.len(),
{
    if ps.len() == 0 {
        Seq::empty()
    } else {
        all_setters_tokens(ps.drop_last()) + setters_tokens(ps.last().field, ps.last().setters)
    }
}

/// The fields of a plan.
pub open spec fn plan_fields(ps: Seq<FieldAccessorsV>) -> Seq<FieldV> {
    ps.map_values(|x: FieldAccessorsV| x.field)
}

/// The declaration without markers, then one implementation block with every
/// getter, then every setter.
pub open spec fn accessors_output(d: StructV, ps: Seq<FieldAccessorsV>) -> Seq<TokenV> {
    struct_tokens(with_fields_of(d, plan_fields(ps))) + impl_head_tokens(d) + seq![
        TokenV::Open(Delim::Brace),
    ] + all_getters_tokens(ps) + all_setters_tokens(ps) + seq![TokenV::Close(Delim::Brace)]
}

/// What the accessors directive generates from an item.
pub open spec fn accessors_generated(p: AccessorsAttribute, item: ItemV) -> Result<Seq<TokenV>, ErrorV> {
    match item {
        ItemV::Other(_) => Err(ErrorV::UnsupportedTarget { family: Family::Accessors }),
        ItemV::Struct(d) => match accessors_plan_of(p, d.fields) {
            Ok(ps) => Ok(accessors_output(d, ps)),
            Err(e) => Err(e),
        },
    }
}

proof fn lemma_scan_err(attrs: Seq<AttrV>, name: Seq<char>, k: int)
    requires
        0 <= k <= attrs.len(),
        accessor_scan(attrs.take(k), name) is Err,
    ensures
        accessor_scan(attrs, name) == accessor_scan(attrs.take(k), name),
    decreases attrs.len() - k,
{
    if k < attrs.len() {
        assert(attrs.take(k + 1).drop_last() =~= attrs.take(k));
        lemma_scan_err(attrs, name, k + 1);
    } else {
        assert(attrs.take(k) =~= attrs);
    }
}

proof fn lemma_plan_err(p: AccessorsAttribute, fs: Seq<FieldV>, k: int)
    requires
        0 <= k <= fs.len(),
        accessors_plan_of(p, fs.take(k)) is Err,
    ensures
        accessors_plan_of(p, fs) == accessors_plan_of(p, fs.take(k)),
    decreases fs.len() - k,
{
    if k < fs.len() {
        assert(fs.take(k + 1).drop_last() =~= fs.take(k));
        lemma_plan_err(p, fs, k + 1);
    } else {
        assert(fs.take(k) =~= fs);
    }
}

fn accessor_mark(a: &Attr, name: &String) -> (r: Result<AccessorMark, DirectiveError>)
    ensures
        crate::error::view_result(r) == accessor_mark_of(a@, name@),
{
    if is_getter_attribute(a) {
        match attr_args(a) {
            Some(t) => match GetterAttribute::parse(&t) {
                Ok(g) => Ok(AccessorMark::Getter(g)),
                Err(_) => Err(DirectiveError::MalformedDirective { family: Family::Getter, text: name.clone() }),
            },
            None => Err(DirectiveError::MalformedDirective { family: Family::Getter, text: name.clone() }),
        }
    } else if is_setter_attribute(a) {
        match attr_args(a) {
            Some(t) => match SetterAttribute::parse(&t) {
                Ok(g) => Ok(AccessorMark::Setter(g)),
                Err(_) => Err(DirectiveError::MalformedDirective { family: Family::Setter, text: name.clone() }),
            },
            None => Err(DirectiveError::MalformedDirective { family: Family::Setter, text: name.clone() }),
        }
    } else if is_roopert_attribute(a) {
        match attr_args(a) {
            Some(t) => match RoopertAttribute::parse(&t) {
                Ok(r) => match r.attr {
                    RoopertAttributeType::Getter(g) => Ok(AccessorMark::Getter(g)),
                    RoopertAttributeType::Setter(g) => Ok(AccessorMark::Setter(g)),
                    _ => Ok(AccessorMark::Keep),
                },
                Err(_) => Err(DirectiveError::MalformedDirective { family: Family::Roopert, text: name.clone() }),
            },
            None => Err(DirectiveError::MalformedDirective { family: Family::Roopert, text: name.clone() }),
        }
    } else {
        Ok(AccessorMark::Keep)
    }
}

impl AccessorsAttribute {
    /// One field's getters and setters, and the field without its markers.
    pub fn field_accessors(&self, f: &Field) -> (r: Result<FieldAccessors, DirectiveError>)
        ensures
            crate::error::view_result(r) == field_accessors_of(*self, f@),
    {
        let ghost va = view_attrs(f.attrs@);
        let mut kept: Vec<Attr> = Vec::new();
        let mut gets: Vec<GetterAttribute> = Vec::new();
        let mut sets: Vec<SetterAttribute> = Vec::new();
        let mut i: usize = 0;
        assert(va.take(0) =~= Seq::<AttrV>::empty());
        assert(view_attrs(kept@) =~= Seq::<AttrV>::empty());
        assert(gets@.map_values(|g: GetterAttribute| g@) =~= Seq::<GetterV>::empty());
        assert(sets@.map_values(|g: SetterAttribute| g@) =~= Seq::<SetterV>::empty());
        while i < f.attrs.len()
            invariant
                i <= f.attrs@.len(),
                va == view_attrs(f.attrs@),
                accessor_scan(va.take(i as int), f.name@) == Ok::<ScanV, ErrorV>(
                    ScanV {
                        kept: view_attrs(kept@),
                        gets: gets@.map_values(|g: GetterAttribute| g@),
                        sets: sets@.map_values(|g: SetterAttribute| g@),
                    },
                ),
            decreases f.attrs@.len() - i,
        {
            let ghost k0 = view_attrs(kept@);
            let ghost g0 = gets@.map_values(|g: GetterAttribute| g@);
            let ghost s0 = sets@.map_values(|g: SetterAttribute| g@);
            assert(va.take(i + 1).drop_last() =~= va.take(i as int));
            assert(va.take(i + 1).last() == f.attrs@[i as int]@);
            let m = accessor_mark(&f.attrs[i], &f.name);
            match m {
                Err(e) => {
                    proof {
                        lemma_scan_err(va, f.name@, i + 1);
                    }
                    return Err(e);
                },
                Ok(AccessorMark::Keep) => {
                    kept.push(f.attrs[i].duplicate());
                    assert(view_attrs(kept@) =~= k0.push(f.attrs@[i as int]@));
                },
                Ok(AccessorMark::Getter(g)) => {
                    gets.push(g);
                    assert(gets@.map_values(|g: GetterAttribute| g@) =~= g0.push(g@));
                },
                Ok(AccessorMark::Setter(g)) => {
                    sets.push(g);
                    assert(sets@.map_values(|g: SetterAttribute| g@) =~= s0.push(g@));
                },
            }
            i += 1;
        }
        assert(va.take(f.attrs@.len() as int) =~= va);
        if gets.len() == 0 && self.getter_rule.needs_accessor(&f.vis) {
            gets.push(GetterAttribute::with_accessor_defaults());
            assert(gets@.map_values(|g: GetterAttribute| g@) =~= seq![default_getter()]);
        }
        if sets.len() == 0 && self.setter_rule.needs_accessor(&f.vis) {
            sets.push(SetterAttribute::with_accessor_defaults());
            assert(sets@.map_values(|g: SetterAttribute| g@) =~= seq![default_setter()]);
        }
        let field = Field { attrs: kept, vis: copy_tokens(f.vis.as_slice()), name: f.name.clone(), ty: copy_tokens(f.ty.as_slice()) };
        Ok(FieldAccessors { field, getters: gets, setters: sets })
    }

    /// The synthesis plan of every field of `d`.
    pub fn plan(&self, d: &StructDecl) -> (r: Result<Vec<FieldAccessors>, DirectiveError>)
        ensures
            match r {
                Ok(ps) => accessors_plan_of(*self, d@.fields) == Ok::<Seq<FieldAccessorsV>, ErrorV>(
                    ps@.map_values(|x: FieldAccessors| x@),
                ),
                Err(e) => accessors_plan_of(*self, d@.fields) == Err::<Seq<FieldAccessorsV>, ErrorV>(e@),
            },
    {
        let ghost fs = d@.fields;
        let mut ps: Vec<FieldAccessors> = Vec::new();
        let mut i: usize = 0;
        assert(fs.take(0) =~= Seq::<FieldV>::empty());
        assert(ps@.map_values(|x: FieldAccessors| x@) =~= Seq::<FieldAccessorsV>::empty());
        while i < d.fields.len()
            invariant
                i <= d.fields@.len(),
                fs == d@.fields,
                fs == view_fields(d.fields@),
                ps@.len() == i,
                accessors_plan_of(*self, fs.take(i as int)) == Ok::<Seq<FieldAccessorsV>, ErrorV>(
                    ps@.map_values(|x: FieldAccessors| x@),
                ),
            decreases d.fields@.len() - i,
        {
            let ghost p0 = ps@.map_values(|x: FieldAccessors| x@);
            assert(fs.take(i + 1).drop_last() =~= fs.take(i as int));
            assert(fs.take(i + 1).last() == d.fields@[i as int]@);
            let x = match self.field_accessors(&d.fields[i]) {
                Ok(x) => x,
                Err(e) => {
                    proof {
                        lemma_plan_err(*self, fs, i + 1);
                    }
                    return Err(e);
                },
            };
            ps.push(x);
            assert(ps@.map_values(|x: FieldAccessors| x@) =~= p0.push(ps@[i as int]@));
            i += 1;
        }
        assert(fs.take(d.fields@.len() as int) =~= fs);
        Ok(ps)
    }
}

/// Appends the getters of one field.
fn push_getters(out: &mut Vec<Token>, x: &FieldAccessors)
    ensures
        view_tokens(final(out)@) == view_tokens(old(out)@) + getters_tokens(x@.field, x@.getters),
{
    let ghost before = view_tokens(out@);
    let ghost gs = x@.getters;
    let mut i: usize = 0;
    assert(gs.take(0) =~= Seq::<GetterV>::empty());
    assert(view_tokens(out@) =~= before + getters_tokens(x@.field, gs.take(0)));
    while i < x.getters.len()
        invariant
            i <= x.getters@.len(),
            gs == x@.getters,
            view_tokens(out@) == before + getters_tokens(x@.field, gs.take(i as int)),
        decreases x.getters@.len() - i,
    {
        let t = x.getters[i].impl_get_fn(&x.field.name, &x.field.ty);
        crate::decl::push_all(out, t.as_slice());
        assert(gs.take(i + 1).drop_last() =~= gs.take(i as int));
        i += 1;
        assert(view_tokens(out@) =~= before + getters_tokens(x@.field, gs.take(i as int)));
    }
    assert(gs.take(x.getters@.len() as int) =~= gs);
}

/// Appends the setters of one field.
fn push_setters(out: &mut Vec<Token>, x: &FieldAccessors)
    ensures
        view_tokens(final(out)@) == view_tokens(old(out)@) + setters_tokens(x@.field, x@.setters),
{
    let ghost before = view_tokens(out@);
    let ghost gs = x@.setters;
    let mut i: usize = 0;
    assert(gs.take(0) =~= Seq::<SetterV>::empty());
    assert(view_tokens(out@) =~= before + setters_tokens(x@.field, gs.take(0)));
    while i < x.setters.len()
        invariant
            i <= x.setters@.len(),
            gs == x@.setters,
            view_tokens(out@) == before + setters_tokens(x@.field, gs.take(i as int)),
        decreases x.setters@.len() - i,
    {
        let t = x.setters[i].impl_set_fn(&x.field.name, &x.field.ty);
        crate::decl::push_all(out, t.as_slice());
        assert(gs.take(i + 1).drop_last() =~= gs.take(i as int));
        i += 1;
        assert(view_tokens(out@) =~= before + setters_tokens(x@.field, gs.take(i as int)));
    }
    assert(gs.take(x.setters@.len() as int) =~= gs);
}

/// Appends the accessors of every field: all getters, then all setters.
fn push_accessors(out: &mut Vec<Token>, ps: &Vec<FieldAccessors>)
    ensures
        view_tokens(final(out)@) == view_tokens(old(out)@) + all_getters_tokens(
            ps@.map_values(|x: FieldAccessors| x@),
        ) + all_setters_tokens(ps@.map_values(|x: FieldAccessors| x@)),
{
    let ghost before = view_tokens(out@);
    let ghost pv = ps@.map_values(|x: FieldAccessors| x@);
    let mut i: usize = 0;
    assert(pv.take(0) =~= Seq::<FieldAccessorsV>::empty());
    assert(view_tokens(out@) =~= before + all_getters_tokens(pv.take(0)));
    while i < ps.len()
        invariant
            i <= ps@.len(),
            pv == ps@.map_values(|x: FieldAccessors| x@),
            view_tokens(out@) == before + all_getters_tokens(pv.take(i as int)),
        decreases ps@.len() - i,
    {
        push_getters(out, &ps[i]);
        assert(pv.take(i + 1).drop_last() =~= pv.take(i as int));
        i += 1;
        assert(view_tokens(out@) =~= before + all_getters_tokens(pv.take(i as int)));
    }
    assert(pv.take(ps@.len() as int) =~= pv);
    let ghost mid = view_tokens(out@);
    let mut j: usize = 0;
    assert(view_tokens(out@) =~= mid + all_setters_tokens(pv.take(0)));
    while j < ps.len()
        invariant
            j <= ps@.len(),
            pv == ps@.map_values(|x: FieldAccessors| x@),
            view_tokens(out@) == mid + all_setters_tokens(pv.take(j as int)),
        decreases ps@.len() - j,
    {
        push_setters(out, &ps[j]);
        assert(pv.take(j + 1).drop_last() =~= pv.take(j as int));
        j += 1;
        assert(view_tokens(out@) =~= mid + all_setters_tokens(pv.take(j as int)));
    }
    assert(pv.take(ps@.len() as int) =~= pv);
    assert(view_tokens(out@) =~= before + all_getters_tokens(pv) + all_setters_tokens(pv));
}

/// Copies of the fields of a plan.
fn plan_field_copies(ps: &Vec<FieldAccessors>) -> (r: Vec<Field>)
    ensures
        view_fields(r@) == plan_fields(ps@.map_values(|x: FieldAccessors| x@)),
{
    let ghost pv = ps@.map_values(|x: FieldAccessors| x@);
    let mut r: Vec<Field> = Vec::new();
    let mut i: usize = 0;
    while i < ps.len()
        invariant
            i <= ps@.len(),
            pv == ps@.map_values(|x: FieldAccessors| x@),
            view_fields(r@) == plan_fields(pv).take(i as int),
        decreases ps@.len() - i,
    {
        let ghost r0 = view_fields(r@);
        r.push(ps[i].field.duplicate());
        assert(view_fields(r@) =~= r0.push(pv[i as int].field));
        i += 1;
        assert(view_fields(r@) =~= plan_fields(pv).take(i as int));
    }
    assert(plan_fields(pv).take(ps@.len() as int) =~= plan_fields(pv));
    r
}

impl Generate for AccessorsAttribute {
    open spec fn generated(&self, input: ItemV) -> Result<Seq<TokenV>, ErrorV> {
        accessors_generated(*self, input)
    }

    open spec fn appends(&self) -> bool {
        false
    }

    fn generate(&mut self, input: &Item) -> (r: Result<Vec<Token>, DirectiveError>) {
        match input {
            Item::Other(_) => Err(DirectiveError::UnsupportedTarget { family: Family::Accessors }),
            Item::Struct(d) => {
                let ps = self.plan(d)?;
                let ghost pv = ps@.map_values(|x: FieldAccessors| x@);
                let stripped = d.with_fields(plan_field_copies(&ps));
                let mut out: Vec<Token> = Vec::new();
                push_struct(&mut out, &stripped);
                push_impl_head(&mut out, d);
                push_one(&mut out, Token::Open(Delim::Brace));
                push_accessors(&mut out, &ps);
                push_one(&mut out, Token::Close(Delim::Brace));
                assert(view_tokens(out@) =~= accessors_output(d@, pv));
                Ok(out)
            },
        }
    }

    fn auto_append(&self) -> (r: bool) {
        false
    }
}

} // verus!
