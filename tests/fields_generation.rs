//! Reflection tables.
use proc_macro2::{Delimiter, Spacing, TokenStream, TokenTree};
use quote::ToTokens;
use roopert::decl::{Attr, Field, Item, StructDecl};
use roopert::tokens::{Delim, Token};

fn flatten(ts: TokenStream, out: &mut Vec<Token>) {
    for tt in ts {
        match tt {
            TokenTree::Ident(i) => out.push(Token::Ident(i.to_string())),
            TokenTree::Punct(p) => out.push(Token::Punct(p.as_char(), p.spacing() == Spacing::Joint)),
            TokenTree::Literal(l) => out.push(Token::Literal(l.to_string())),
            TokenTree::Group(g) => {
                let d = match g.delimiter() {
                    Delimiter::Parenthesis => Delim::Paren,
                    Delimiter::Bracket => Delim::Bracket,
                    Delimiter::Brace => Delim::Brace,
                    Delimiter::None => Delim::Invisible,
                };
                out.push(Token::Open(d));
                flatten(g.stream(), out);
                out.push(Token::Close(d));
            }
        }
    }
}

fn toks<T: ToTokens>(t: &T) -> Vec<Token> {
    let mut out = Vec::new();
    flatten(t.to_token_stream(), &mut out);
    out
}

fn text_toks(s: &str) -> Vec<Token> {
    let mut out = Vec::new();
    flatten(s.parse::<TokenStream>().unwrap(), &mut out);
    out
}

fn attr_of(a: &syn::Attribute) -> Attr {
    let mut tokens = Vec::new();
    flatten(a.tokens.clone(), &mut tokens);
    Attr { path: toks(&a.path), tokens }
}

fn item_of(s: &syn::ItemStruct) -> Item {
    let named = match &s.fields {
        syn::Fields::Named(n) => n,
        _ => return Item::Other(toks(s)),
    };
    let (ig, tg, wc) = s.generics.split_for_impl();
    let fields = named
        .named
        .iter()
        .map(|f| Field {
            attrs: f.attrs.iter().map(attr_of).collect(),
            vis: toks(&f.vis),
            name: f.ident.as_ref().unwrap().to_string(),
            ty: toks(&f.ty),
        })
        .collect();
    Item::Struct(StructDecl {
        attrs: s.attrs.iter().map(attr_of).collect(),
        vis: toks(&s.vis),
        name: s.ident.to_string(),
        generics: toks(&s.generics),
        impl_generics: toks(&ig),
        type_generics: toks(&tg),
        where_clause: match wc {
            Some(w) => toks(w),
            None => Vec::new(),
        },
        fields,
    })
}

/// The tokens of `s`, one space apart, whatever their spacing in `s`.
fn normalize(s: &str) -> String {
    text_toks(s)
        .iter()
        .map(|t| match t {
            Token::Ident(x) | Token::Literal(x) => x.clone(),
            Token::Punct(c, _) => c.to_string(),
            Token::Open(Delim::Paren) => "(".to_string(),
            Token::Open(Delim::Bracket) => "[".to_string(),
            Token::Open(Delim::Brace) => "{".to_string(),
            Token::Close(Delim::Paren) => ")".to_string(),
            Token::Close(Delim::Bracket) => "]".to_string(),
            Token::Close(Delim::Brace) => "}".to_string(),
            Token::Open(Delim::Invisible) | Token::Close(Delim::Invisible) => String::new(),
        })
        .collect::<Vec<_>>()
        .join(" ")
}

fn is_roopert(a: &syn::Attribute) -> bool {
    a.path.segments.last().map(|s| s.ident == "roopert").unwrap_or(false)
}

fn directive_args(a: &syn::Attribute) -> Vec<Token> {
    let all = text_toks(&a.tokens.to_string());
    all[1..all.len() - 1].iter().cloned().collect()
}

/// Expands every umbrella directive on a structure, outermost first, as the
/// compiler would.
fn expand_all(src: &str) -> String {
    let mut text = src.to_string();
    loop {
        let file: syn::File = syn::parse_str(&text).unwrap();
        let mut out = String::new();
        let mut changed = false;
        for item in file.items {
            if !changed {
                if let syn::Item::Struct(s) = &item {
                    if let Some(pos) = s.attrs.iter().position(is_roopert) {
                        let mut s = s.clone();
                        let a = s.attrs.remove(pos);
                        let r = roopert::roopert(&directive_args(&a), &item_of(&s)).unwrap();
                        out.push_str(&r);
                        out.push(' ');
                        changed = true;
                        continue;
                    }
                }
            }
            out.push_str(&item.to_token_stream().to_string());
            out.push(' ');
        }
        if !changed {
            return normalize(&out);
        }
        text = out;
    }
}

const SOURCE: &str = r#"
#[roopert(fields, rule = all)]
#[derive(Default)]
struct RoopertFieldsTest {
    field1: String,
    #[field(meta = "42")]
    field2: u32,
}
"#;

const EXPANDED: &str = r#"
#[derive(Default)]
struct RoopertFieldsTest {
    field1: String,
    field2: u32,
}
impl roopert::Fields for RoopertFieldsTest {
    fn fields(&self) -> &[&str] { &["field1", "field2",] }
    fn get(&self, field_name: &str) -> Option<&dyn std::any::Any> {
        match field_name { "field1" => Some(&self.field1), "field2" => Some(&self.field2), _ => None }
    }
    fn get_mut(&mut self, field_name: &str) -> Option<&mut dyn std::any::Any> {
        match field_name { "field1" => Some(&mut self.field1), "field2" => Some(&mut self.field2), _ => None }
    }
    fn metadata(&self, field_name: &str) -> Option<&str> {
        match field_name { "field1" => None, "field2" => Some("42"), _ => None }
    }
}
"#;

// The run-time trait that the generated implementation names; it lives with
// the toolkit's front end, so this file declares the same trait.
trait Fields {
    fn fields(&self) -> &[&str];
    fn get(&self, field_name: &str) -> Option<&dyn std::any::Any>;
    fn get_mut(&mut self, field_name: &str) -> Option<&mut dyn std::any::Any>;
    fn metadata(&self, field_name: &str) -> Option<&str>;
}

// The expansion above, as the compiler receives it.
#[derive(Default)]
struct RoopertFieldsTest {
    field1: String,
    field2: u32,
}
impl Fields for RoopertFieldsTest {
    fn fields(&self) -> &[&str] { &["field1", "field2",] }
    fn get(&self, field_name: &str) -> Option<&dyn std::any::Any> {
        match field_name { "field1" => Some(&self.field1), "field2" => Some(&self.field2), _ => None }
    }
    fn get_mut(&mut self, field_name: &str) -> Option<&mut dyn std::any::Any> {
        match field_name { "field1" => Some(&mut self.field1), "field2" => Some(&mut self.field2), _ => None }
    }
    fn metadata(&self, field_name: &str) -> Option<&str> {
        match field_name { "field1" => None, "field2" => Some("42"), _ => None }
    }
}

#[test]
fn fields_test() {
    assert_eq!(expand_all(SOURCE), normalize(EXPANDED));
    let mut var = RoopertFieldsTest::default();
    // field1
    assert!(var.get("field1").unwrap().is::<String>());
    assert_eq!(var.get("field1").unwrap().downcast_ref::<String>().unwrap(), &String::default());
    assert_eq!(var.get("field1").unwrap().downcast_ref::<String>().unwrap(), &var.field1);
    // field2
    assert_eq!(var.get("field2").unwrap().downcast_ref::<u32>().unwrap(), &u32::default());
    assert_eq!(var.get("field2").unwrap().downcast_ref::<u32>().unwrap(), &var.field2);
    *(var.get_mut("field2").unwrap().downcast_mut::<u32>().unwrap()) = 42;
    assert_eq!(var.get("field2").unwrap().downcast_ref::<u32>().unwrap(), &42_u32);
    assert_eq!(var.metadata("field2").unwrap(), "42");
    assert_eq!(var.fields(), &["field1", "field2"]);
    assert!(var.get("field3").is_none());
    assert!(var.metadata("field1").is_none());
}

const SCENARIO: &str = r#"
#[roopert(fields, rule = all)]
#[derive(Default)]
struct Scenario {
    #[field(meta = "42")]
    foo: String,
    bar: u32,
}
"#;

const SCENARIO_EXPANDED: &str = r#"
#[derive(Default)]
struct Scenario {
    foo: String,
    bar: u32,
}
impl roopert::Fields for Scenario {
    fn fields(&self) -> &[&str] { &["foo", "bar",] }
    fn get(&self, field_name: &str) -> Option<&dyn std::any::Any> {
        match field_name { "foo" => Some(&self.foo), "bar" => Some(&self.bar), _ => None }
    }
    fn get_mut(&mut self, field_name: &str) -> Option<&mut dyn std::any::Any> {
        match field_name { "foo" => Some(&mut self.foo), "bar" => Some(&mut self.bar), _ => None }
    }
    fn metadata(&self, field_name: &str) -> Option<&str> {
        match field_name { "foo" => Some("42"), "bar" => None, _ => None }
    }
}
"#;

#[derive(Default)]
struct Scenario {
    foo: String,
    bar: u32,
}
impl Fields for Scenario {
    fn fields(&self) -> &[&str] { &["foo", "bar",] }
    fn get(&self, field_name: &str) -> Option<&dyn std::any::Any> {
        match field_name { "foo" => Some(&self.foo), "bar" => Some(&self.bar), _ => None }
    }
    fn get_mut(&mut self, field_name: &str) -> Option<&mut dyn std::any::Any> {
        match field_name { "foo" => Some(&mut self.foo), "bar" => Some(&mut self.bar), _ => None }
    }
    fn metadata(&self, field_name: &str) -> Option<&str> {
        match field_name { "foo" => Some("42"), "bar" => None, _ => None }
    }
}

#[test]
fn reflection_scenario_foo_bar() {
    assert_eq!(expand_all(SCENARIO), normalize(SCENARIO_EXPANDED));
    let mut var = Scenario::default();
    assert_eq!(var.fields(), &["foo", "bar"]);
    assert_eq!(var.get("bar").unwrap().downcast_ref::<u32>().unwrap(), &u32::default());
    assert_eq!(var.metadata("foo"), Some("42"));
    assert_eq!(var.metadata("bar"), None);
    assert!(var.get_mut("baz").is_none());
    assert!(var.get("foo").unwrap().is::<String>());
}

#[test]
fn reflection_default_metadata_and_public_rule() {
    let out = expand_all(r#"
        #[roopert(fields, rule = "Public", meta = "dflt")]
        struct S {
            pub a: u8,
            b: u8,
            #[roopert(fields)]
            c: u8,
            #[field(metadata = "own")]
            d: u8,
            pub(crate) e: u8,
        }
    "#);
    let expected = normalize(r#"
        struct S { pub a: u8, b: u8, c: u8, d: u8, pub(crate) e: u8, }
        impl roopert::Fields for S {
            fn fields(&self) -> &[&str] { &["a", "c", "d",] }
            fn get(&self, field_name: &str) -> Option<&dyn std::any::Any> {
                match field_name { "a" => Some(&self.a), "c" => Some(&self.c), "d" => Some(&self.d), _ => None }
            }
            fn get_mut(&mut self, field_name: &str) -> Option<&mut dyn std::any::Any> {
                match field_name { "a" => Some(&mut self.a), "c" => Some(&mut self.c), "d" => Some(&mut self.d), _ => None }
            }
            fn metadata(&self, field_name: &str) -> Option<&str> {
                match field_name { "a" => Some("dflt"), "c" => Some("dflt"), "d" => Some("own"), _ => None }
            }
        }
    "#);
    assert_eq!(out, expected);
}
