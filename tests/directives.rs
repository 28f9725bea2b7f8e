//! The directive grammar, its errors, and what each directive keeps and
//! generates.
use proc_macro2::{Delimiter, Spacing, TokenStream, TokenTree};
use quote::ToTokens;
use roopert::decl::{
    is_field_attribute, is_fields_attribute, is_getter_attribute, is_metadata_attribute,
    is_parent_attribute, is_roopert_attribute, is_setter_attribute, Attr, Field, Item, StructDecl,
};
use roopert::error::{DirectiveError, Family};
use roopert::accessors::{AccessorAutoRule, AccessorsAttribute};
use roopert::extends::ExtendsAttribute;
use roopert::fields::{FieldsAttribute, FieldsAutoRule};
use roopert::getter::GetterAttribute;
use roopert::setter::SetterAttribute;
use roopert::root::{RoopertAttribute, RoopertAttributeType};
use roopert::tokens::{Delim, Token};

fn flatten(ts: TokenStream, out: &mut Vec<Token>) {
    for tt in ts {
        match tt {
            TokenTree::Ident(i) => out.push(Token::Ident(i.to_string())),
            TokenTree::Punct(p) => out.push(Token::Punct(p.as_char(), p.spacing() == Spacing::Joint)),
            TokenTree::Literal(l) => out.push(Token::Literal(l.to_string())),
            TokenTree::Group(g) => {
                let d = match g.delimiter() {
                    Delimiter::Parenthesis => Delim::Paren,
                    Delimiter::Bracket => Delim::Bracket,
                    Delimiter::Brace => Delim::Brace,
                    Delimiter::None => Delim::Invisible,
                };
                out.push(Token::Open(d));
                flatten(g.stream(), out);
                out.push(Token::Close(d));
            }
        }
    }
}

fn toks<T: ToTokens>(t: &T) -> Vec<Token> {
    let mut out = Vec::new();
    flatten(t.to_token_stream(), &mut out);
    out
}

fn text_toks(s: &str) -> Vec<Token> {
    let mut out = Vec::new();
    flatten(s.parse::<TokenStream>().unwrap(), &mut out);
    out
}

fn attr_of(a: &syn::Attribute) -> Attr {
    let mut tokens = Vec::new();
    flatten(a.tokens.clone(), &mut tokens);
    Attr { path: toks(&a.path), tokens }
}

fn item_of(s: &syn::ItemStruct) -> Item {
    let named = match &s.fields {
        syn::Fields::Named(n) => n,
        _ => return Item::Other(toks(s)),
    };
    let (ig, tg, wc) = s.generics.split_for_impl();
    let fields = named
        .named
        .iter()
        .map(|f| Field {
            attrs: f.attrs.iter().map(attr_of).collect(),
            vis: toks(&f.vis),
            name: f.ident.as_ref().unwrap().to_string(),
            ty: toks(&f.ty),
        })
        .collect();
    Item::Struct(StructDecl {
        attrs: s.attrs.iter().map(attr_of).collect(),
        vis: toks(&s.vis),
        name: s.ident.to_string(),
        generics: toks(&s.generics),
        impl_generics: toks(&ig),
        type_generics: toks(&tg),
        where_clause: match wc {
            Some(w) => toks(w),
            None => Vec::new(),
        },
        fields,
    })
}

/// The tokens of `s`, one space apart, whatever their spacing in `s`.
fn normalize(s: &str) -> String {
    text_toks(s)
        .iter()
        .map(|t| match t {
            Token::Ident(x) | Token::Literal(x) => x.clone(),
            Token::Punct(c, _) => c.to_string(),
            Token::Open(Delim::Paren) => "(".to_string(),
            Token::Open(Delim::Bracket) => "[".to_string(),
            Token::Open(Delim::Brace) => "{".to_string(),
            Token::Close(Delim::Paren) => ")".to_string(),
            Token::Close(Delim::Bracket) => "]".to_string(),
            Token::Close(Delim::Brace) => "}".to_string(),
            Token::Open(Delim::Invisible) | Token::Close(Delim::Invisible) => String::new(),
        })
        .collect::<Vec<_>>()
        .join(" ")
}

fn is_roopert(a: &syn::Attribute) -> bool {
    a.path.segments.last().map(|s| s.ident == "roopert").unwrap_or(false)
}

fn directive_args(a: &syn::Attribute) -> Vec<Token> {
    let all = text_toks(&a.tokens.to_string());
    all[1..all.len() - 1].iter().cloned().collect()
}

/// Expands every umbrella directive on a structure, outermost first, as the
/// compiler would.
fn expand_all(src: &str) -> String {
    let mut text = src.to_string();
    loop {
        let file: syn::File = syn::parse_str(&text).unwrap();
        let mut out = String::new();
        let mut changed = false;
        for item in file.items {
            if !changed {
                if let syn::Item::Struct(s) = &item {
                    if let Some(pos) = s.attrs.iter().position(is_roopert) {
                        let mut s = s.clone();
                        let a = s.attrs.remove(pos);
                        let r = roopert::roopert(&directive_args(&a), &item_of(&s)).unwrap();
                        out.push_str(&r);
                        out.push(' ');
                        changed = true;
                        continue;
                    }
                }
            }
            out.push_str(&item.to_token_stream().to_string());
            out.push(' ');
        }
        if !changed {
            return normalize(&out);
        }
        text = out;
    }
}

fn item(src: &str) -> Item {
    item_of(&syn::parse_str::<syn::ItemStruct>(src).unwrap())
}

fn expand(args: &str, src: &str) -> Result<String, DirectiveError> {
    roopert::roopert(&text_toks(args), &item(src)).map(|s| normalize(&s))
}

#[test]
fn getter_options_are_read() {
    let g = GetterAttribute::parse(&text_toks(r#"pre = self.a(1, 2), MUTABLE = "TRUE", name = "g","#)).unwrap();
    assert_eq!(normalize(&roopert::tokens::tokens_string(&g.pre.unwrap())), normalize("self.a(1, 2)"));
    assert!(g.mutable);
    assert_eq!(g.name.unwrap(), "g");
    let g = GetterAttribute::parse(&text_toks("mut = false")).unwrap();
    assert!(!g.mutable);
    assert!(g.pre.is_none() && g.name.is_none());
}

#[test]
fn later_option_overrides_earlier() {
    let g = GetterAttribute::parse(&text_toks("mutable = true, mutable = false")).unwrap();
    assert!(!g.mutable);
}

#[test]
fn setter_options_are_read() {
    let s = SetterAttribute::parse(&text_toks(r#"post = self.b(), pre = a == b, name = "put""#)).unwrap();
    assert_eq!(normalize(&roopert::tokens::tokens_string(&s.pre.unwrap())), normalize("a == b"));
    assert_eq!(normalize(&roopert::tokens::tokens_string(&s.post.unwrap())), normalize("self.b()"));
    assert_eq!(s.name.unwrap(), "put");
}

#[test]
fn rules_are_case_insensitive_words_or_strings() {
    let a = AccessorsAttribute::parse(&text_toks(r#"get = ALL, set = "Private""#)).unwrap();
    assert_eq!(a.getter_rule, AccessorAutoRule::All);
    assert_eq!(a.setter_rule, AccessorAutoRule::Private);
    let a = AccessorsAttribute::parse(&text_toks("")).unwrap();
    assert_eq!(a.getter_rule, AccessorAutoRule::No);
    assert_eq!(a.setter_rule, AccessorAutoRule::No);
    let f = FieldsAttribute::parse(&text_toks(r#"rule = Public, meta = "a\"b""#)).unwrap();
    assert_eq!(f.rule, FieldsAutoRule::Public);
    let m = f.metadata.unwrap();
    assert_eq!(m.value, "a\"b");
    assert_eq!(m.literal, r#""a\"b""#);
}

#[test]
fn unknown_option_is_named() {
    let e = AccessorsAttribute::parse(&text_toks("get = all, Bogus = all")).unwrap_err();
    assert!(matches!(e, DirectiveError::UnknownOption { family: Family::Accessors, ref keyword } if keyword == "Bogus"));
    assert!(e.message().contains("Bogus"));
}

#[test]
fn unrecognized_values() {
    let e = AccessorsAttribute::parse(&text_toks("get = sometimes")).unwrap_err();
    assert!(matches!(e, DirectiveError::UnrecognizedValue { family: Family::Accessors, ref option } if option == "get"));
    let e = GetterAttribute::parse(&text_toks("mutable = 1")).unwrap_err();
    assert!(matches!(e, DirectiveError::UnrecognizedValue { family: Family::Getter, .. }));
    let e = GetterAttribute::parse(&text_toks("name = get_it")).unwrap_err();
    assert!(matches!(e, DirectiveError::UnrecognizedValue { family: Family::Getter, .. }));
    let e = FieldsAttribute::parse(&text_toks("rule = private")).unwrap_err();
    assert!(matches!(e, DirectiveError::UnrecognizedValue { family: Family::Fields, .. }));
}

#[test]
fn malformed_arguments() {
    for text in ["get", "get = all,, set = all", "get =", "a::b = all", "self.x = 1"] {
        let e = AccessorsAttribute::parse(&text_toks(text)).unwrap_err();
        assert!(matches!(e, DirectiveError::MalformedDirective { family: Family::Accessors, .. }), "{}", text);
    }
    let e = roopert::parent::ParentAttribute::parse(&text_toks("x")).unwrap_err();
    assert!(matches!(e, DirectiveError::MalformedDirective { family: Family::Parent, .. }));
}

#[test]
fn umbrella_dispatches_on_its_keyword() {
    let r = RoopertAttribute::parse(&text_toks("extends, std::collections::HashMap<K, V>, String")).unwrap();
    match r.attr {
        RoopertAttributeType::Extends(ExtendsAttribute { types }) => {
            assert_eq!(types.len(), 2);
            assert_eq!(normalize(&roopert::tokens::tokens_string(&types[0])), normalize("std::collections::HashMap<K, V>"));
        }
        _ => panic!("not a delegation directive"),
    }
    assert!(RoopertAttribute::parse(&text_toks("parent")).unwrap().attr.is_parent());
    assert!(RoopertAttribute::parse(&text_toks("get mutable = true")).unwrap().attr.is_getter());
    assert!(RoopertAttribute::parse(&text_toks("set")).unwrap().attr.is_setter());
    assert!(RoopertAttribute::parse(&text_toks("extend, u8")).unwrap().attr.is_extends());
    let e = RoopertAttribute::parse(&text_toks("bogus, x = 1")).unwrap_err();
    assert!(matches!(e, DirectiveError::UnknownDirective { ref keyword } if keyword == "bogus"));
    let e = RoopertAttribute::parse(&text_toks("extends, String,")).unwrap_err();
    assert!(matches!(e, DirectiveError::MalformedDirective { family: Family::Extends, .. }));
    let e = RoopertAttribute::parse(&text_toks("")).unwrap_err();
    assert!(matches!(e, DirectiveError::MalformedDirective { family: Family::Roopert, .. }));
}

#[test]
fn unsupported_targets() {
    let tuple = item_of(&syn::parse_str::<syn::ItemStruct>("struct T(u8);").unwrap());
    for args in ["accessors, get = all", "extends, u8", "fields, rule = all"] {
        let e = roopert::roopert(&text_toks(args), &tuple).unwrap_err();
        assert!(matches!(e, DirectiveError::UnsupportedTarget { .. }), "{}", args);
    }
}

#[test]
fn delegate_type_without_field() {
    let e = expand("extends, u8", "struct S { a: String }").unwrap_err();
    assert!(matches!(e, DirectiveError::UnresolvedDelegate { ref type_text } if type_text == "u8"));
}

#[test]
fn malformed_field_marker_names_the_field() {
    let e = expand("accessors", "struct S { #[get(bogus = 1)] x: u8 }").unwrap_err();
    assert!(matches!(e, DirectiveError::MalformedDirective { family: Family::Getter, ref text } if text == "x"));
    let e = expand("extends, u8", "struct S { #[roopert(nothing)] y: u8 }").unwrap_err();
    assert!(matches!(e, DirectiveError::MalformedDirective { family: Family::Roopert, ref text } if text == "y"));
    let e = expand("fields", "struct S { #[field = 1] z: u8 }").unwrap_err();
    assert!(matches!(e, DirectiveError::MalformedDirective { family: Family::Fields, ref text } if text == "z"));
}

#[test]
fn markers_are_stripped_and_other_annotations_kept() {
    let out = expand(
        "accessors",
        r#"#[derive(Clone)] pub struct S {
            /// docs
            #[get] #[serde(rename = "b")] #[roopert(parent)] #[set(name = "put")] pub a: u8,
        }"#,
    )
    .unwrap();
    let expected = normalize(r#"
        #[derive(Clone)] pub struct S {
            #[doc = " docs"] #[serde(rename = "b")] #[roopert(parent)] pub a: u8,
        }
        impl S {
            pub fn get_a(&self) -> &'_ u8 { &self.a }
            pub fn put(&mut self, x: u8) { self.a = x; }
        }
    "#);
    assert_eq!(out, expected);
}

#[test]
fn private_rule_skips_public_fields() {
    let out = expand("accessors, get = private", "struct S { a: u8, pub b: u8, pub(crate) c: u8 }").unwrap();
    let expected = normalize(r#"
        struct S { a: u8, pub b: u8, pub(crate) c: u8, }
        impl S { pub fn get_a(&self) -> &'_ u8 { &self.a } }
    "#);
    assert_eq!(out, expected);
}

#[test]
fn delegation_scenario_parent_marker() {
    let out = expand(
        "extends, String",
        "struct S { other: String, #[roopert(parent)] data: String }",
    )
    .unwrap();
    let expected = normalize(r#"
        struct S { other: String, data: String, }
        impl core::convert::AsRef<String> for S { fn as_ref(&self) -> &String { &self.data } }
        impl core::convert::AsMut<String> for S { fn as_mut(&mut self) -> &mut String { &mut self.data } }
        impl core::convert::Into<String> for S { fn into(self) -> String { self.data } }
        impl core::ops::Deref for S { type Target = String; fn deref(&self) -> &Self::Target { &self.data } }
        impl core::ops::DerefMut for S { fn deref_mut(&mut self) -> &mut Self::Target { &mut self.data } }
    "#);
    assert_eq!(out, expected);
}

// The delegation scenario's expansion, as the compiler receives it.
struct Wrapped {
    other: String,
    data: String,
}
impl core::convert::AsRef<String> for Wrapped { fn as_ref(&self) -> &String { &self.data } }
#[allow(clippy::from_over_into)]
impl core::convert::Into<String> for Wrapped { fn into(self) -> String { self.data } }

#[test]
fn delegation_scenario_behaviour() {
    let w = Wrapped { other: "o".to_string(), data: "d".to_string() };
    assert_eq!(w.other, "o");
    let r: &String = w.as_ref();
    assert_eq!(r, "d");
    let s: String = w.into();
    assert_eq!(s, "d");
}

#[test]
fn first_field_of_type_wins_without_marker() {
    let out = expand("extends, u8", "struct S { a: u8, b: u8 }").unwrap();
    assert!(out.contains(&normalize("fn as_ref(&self) -> &u8 { &self.a }")));
    let out = expand("extends, u8", "struct S { a: u8, #[parent] b: u8, #[parent()] c: u8 }").unwrap();
    assert!(out.contains(&normalize("fn as_ref(&self) -> &u8 { &self.c }")));
    assert!(out.starts_with(&normalize("struct S { a: u8, b: u8, c: u8, }")));
}

#[test]
fn several_delegate_types() {
    let out = expand("extends, u8, Vec<u8>", "struct S { v: Vec<u8>, n: u8 }").unwrap();
    assert!(out.contains(&normalize("impl core::ops::Deref for S { type Target = u8; fn deref(&self) -> &Self::Target { &self.n } }")));
    assert!(out.contains(&normalize("impl core::ops::Deref for S { type Target = Vec<u8>; fn deref(&self) -> &Self::Target { &self.v } }")));
}

#[test]
fn field_markers_generate_nothing_alone() {
    let src = "struct S { a: u8 }";
    for args in ["parent", "get", "set, name = \"x\""] {
        assert_eq!(expand(args, src).unwrap(), normalize("struct S { a: u8, }"), "{}", args);
    }
    let out = roopert::parent(&Vec::new(), &item(src)).unwrap();
    assert_eq!(normalize(&out), normalize("struct S { a: u8, }"));
    assert!(roopert::parent(&text_toks("x"), &item(src)).is_err());
}

#[test]
fn empty_reflection_table() {
    let out = expand("fields", "struct S { a: u8 }").unwrap();
    assert!(out.contains(&normalize("fn fields(&self) -> &[&str] { &[] }")));
    assert!(out.contains(&normalize("match field_name { _ => None }")));
}

#[test]
fn annotations_are_classified_by_their_last_segment() {
    let a = |path: &str| Attr { path: text_toks(path), tokens: Vec::new() };
    assert!(is_parent_attribute(&a("parent")));
    assert!(is_roopert_attribute(&a("roopert::roopert")));
    assert!(is_getter_attribute(&a("get")));
    assert!(is_setter_attribute(&a("::x::set")));
    assert!(is_metadata_attribute(&a("metadata")));
    assert!(is_field_attribute(&a("field")));
    assert!(is_fields_attribute(&a("fields")));
    assert!(!is_getter_attribute(&a("get::other")));
    assert!(!is_fields_attribute(&a("field")));
    assert!(!is_parent_attribute(&a("")));
}

#[test]
fn directive_error_messages_name_their_subject() {
    let e = RoopertAttribute::parse(&text_toks("nonsense")).unwrap_err();
    assert!(e.message().contains("nonsense"));
    assert_eq!(Family::Getter.keyword(), "get");
    let e = expand("extends, Vec<u8>", "struct S { a: u8 }").unwrap_err();
    assert!(e.message().contains("Vec"));
}

#[test]
fn rule_all_gives_getter_and_setter() {
    let out = expand("accessors, get = all, set = all", "struct S { pub a: u8, b: Vec<u8> }").unwrap();
    let expected = normalize(r#"
        struct S { pub a: u8, b: Vec<u8>, }
        impl S {
            pub fn get_a(&self) -> &'_ u8 { &self.a }
            pub fn get_b(&self) -> &'_ Vec<u8> { &self.b }
            pub fn set_a(&mut self, x: u8) { self.a = x; }
            pub fn set_b(&mut self, x: Vec<u8>) { self.b = x; }
        }
    "#);
    assert_eq!(out, expected);
}

// The expansion of `rule_all_gives_getter_and_setter`, as the compiler receives it.
struct Pair {
    b: Vec<u8>,
}
impl Pair {
    pub fn get_b(&self) -> &'_ Vec<u8> { &self.b }
    pub fn set_b(&mut self, x: Vec<u8>) { self.b = x; }
}

#[test]
fn generated_accessors_round_trip() {
    let mut p = Pair { b: Vec::new() };
    let v = vec![1u8, 2, 3];
    p.set_b(v.clone());
    assert_eq!(p.get_b(), &v);
}
