//! Accessor pre- and post-operation behaviour.
use proc_macro2::{Delimiter, Spacing, TokenStream, TokenTree};
use quote::ToTokens;
use roopert::decl::{Attr, Field, Item, StructDecl};
use roopert::tokens::{Delim, Token};

fn flatten(ts: TokenStream, out: &mut Vec<Token>) {
    for tt in ts {
        match tt {
            TokenTree::Ident(i) => out.push(Token::Ident(i.to_string())),
            TokenTree::Punct(p) => out.push(Token::Punct(p.as_char(), p.spacing() == Spacing::Joint)),
            TokenTree::Literal(l) => out.push(Token::Literal(l.to_string())),
            TokenTree::Group(g) => {
                let d = match g.delimiter() {
                    Delimiter::Parenthesis => Delim::Paren,
                    Delimiter::Bracket => Delim::Bracket,
                    Delimiter::Brace => Delim::Brace,
                    Delimiter::None => Delim::Invisible,
                };
                out.push(Token::Open(d));
                flatten(g.stream(), out);
                out.push(Token::Close(d));
            }
        }
    }
}

fn toks<T: ToTokens>(t: &T) -> Vec<Token> {
    let mut out = Vec::new();
    flatten(t.to_token_stream(), &mut out);
    out
}

fn text_toks(s: &str) -> Vec<Token> {
    let mut out = Vec::new();
    flatten(s.parse::<TokenStream>().unwrap(), &mut out);
    out
}

fn attr_of(a: &syn::Attribute) -> Attr {
    let mut tokens = Vec::new();
    flatten(a.tokens.clone(), &mut tokens);
    Attr { path: toks(&a.path), tokens }
}

fn item_of(s: &syn::ItemStruct) -> Item {
    let named = match &s.fields {
        syn::Fields::Named(n) => n,
        _ => return Item::Other(toks(s)),
    };
    let (ig, tg, wc) = s.generics.split_for_impl();
    let fields = named
        .named
        .iter()
        .map(|f| Field {
            attrs: f.attrs.iter().map(attr_of).collect(),
            vis: toks(&f.vis),
            name: f.ident.as_ref().unwrap().to_string(),
            ty: toks(&f.ty),
        })
        .collect();
    Item::Struct(StructDecl {
        attrs: s.attrs.iter().map(attr_of).collect(),
        vis: toks(&s.vis),
        name: s.ident.to_string(),
        generics: toks(&s.generics),
        impl_generics: toks(&ig),
        type_generics: toks(&tg),
        where_clause: match wc {
            Some(w) => toks(w),
            None => Vec::new(),
        },
        fields,
    })
}

/// The tokens of `s`, one space apart, whatever their spacing in `s`.
fn normalize(s: &str) -> String {
    text_toks(s)
        .iter()
        .map(|t| match t {
            Token::Ident(x) | Token::Literal(x) => x.clone(),
            Token::Punct(c, _) => c.to_string(),
            Token::Open(Delim::Paren) => "(".to_string(),
            Token::Open(Delim::Bracket) => "[".to_string(),
            Token::Open(Delim::Brace) => "{".to_string(),
            Token::Close(Delim::Paren) => ")".to_string(),
            Token::Close(Delim::Bracket) => "]".to_string(),
            Token::Close(Delim::Brace) => "}".to_string(),
            Token::Open(Delim::Invisible) | Token::Close(Delim::Invisible) => String::new(),
        })
        .collect::<Vec<_>>()
        .join(" ")
}

fn is_roopert(a: &syn::Attribute) -> bool {
    a.path.segments.last().map(|s| s.ident == "roopert").unwrap_or(false)
}

fn directive_args(a: &syn::Attribute) -> Vec<Token> {
    let all = text_toks(&a.tokens.to_string());
    all[1..all.len() - 1].iter().cloned().collect()
}

/// Expands every umbrella directive on a structure, outermost first, as the
/// compiler would.
fn expand_all(src: &str) -> String {
    let mut text = src.to_string();
    loop {
        let file: syn::File = syn::parse_str(&text).unwrap();
        let mut out = String::new();
        let mut changed = false;
        for item in file.items {
            if !changed {
                if let syn::Item::Struct(s) = &item {
                    if let Some(pos) = s.attrs.iter().position(is_roopert) {
                        let mut s = s.clone();
                        let a = s.attrs.remove(pos);
                        let r = roopert::roopert(&directive_args(&a), &item_of(&s)).unwrap();
                        out.push_str(&r);
                        out.push(' ');
                        changed = true;
                        continue;
                    }
                }
            }
            out.push_str(&item.to_token_stream().to_string());
            out.push(' ');
        }
        if !changed {
            return normalize(&out);
        }
        text = out;
    }
}

const SOURCE: &str = r#"
#[roopert(accessors)]
#[derive(Default)]
struct RoopertAccessorTest {
    #[roopert(get, pre = self.pre_foo_get(), mutable = true, name = "test_getter",)]
    #[set(pre = self.pre_foo_set(), post = self.post_foo_set(), name = "foo_set")]
    foo: String,
    is_foo_gotten: bool,
    is_foo_preset: bool,
    is_foo_postset: bool,
}
"#;

const EXPANDED: &str = r#"
#[derive(Default)]
struct RoopertAccessorTest {
    foo: String,
    is_foo_gotten: bool,
    is_foo_preset: bool,
    is_foo_postset: bool,
}
impl RoopertAccessorTest {
    pub fn test_getter(&mut self) -> &'_ mut String {
        self.pre_foo_get();
        &mut self.foo
    }
    pub fn foo_set(&mut self, x: String) {
        self.pre_foo_set();
        self.foo = x;
        self.post_foo_set();
    }
}
"#;

// The expansion above, as the compiler receives it.
#[derive(Default)]
struct RoopertAccessorTest {
    foo: String,
    is_foo_gotten: bool,
    is_foo_preset: bool,
    is_foo_postset: bool,
}
impl RoopertAccessorTest {
    pub fn test_getter(&mut self) -> &'_ mut String {
        self.pre_foo_get();
        &mut self.foo
    }
    pub fn foo_set(&mut self, x: String) {
        self.pre_foo_set();
        self.foo = x;
        self.post_foo_set();
    }
}

impl RoopertAccessorTest {
    fn pre_foo_get(&mut self) {
        self.is_foo_gotten = true;
    }

    fn pre_foo_set(&mut self) {
        assert!(!self.is_foo_postset);
        self.is_foo_preset = true;
    }

    fn post_foo_set(&mut self) {
        assert!(self.is_foo_preset);
        self.is_foo_postset = true;
    }
}

#[test]
fn get_test() {
    assert_eq!(expand_all(SOURCE), normalize(EXPANDED));
    let mut var = RoopertAccessorTest::default();
    assert_eq!(var.is_foo_gotten, false);
    let _ = var.test_getter();
    assert_eq!(var.is_foo_gotten, true);
}

#[test]
fn set_test() {
    assert_eq!(expand_all(SOURCE), normalize(EXPANDED));
    let mut var = RoopertAccessorTest::default();
    assert_eq!(var.is_foo_preset, false);
    assert_eq!(var.is_foo_postset, false);
    var.foo_set("something".to_string());
    assert_eq!(var.is_foo_preset, true);
    assert_eq!(var.is_foo_postset, true);
    assert_eq!(var.foo, "something");
}

#[test]
fn getter_pre_runs_once_per_call() {
    let mut var = RoopertAccessorTest::default();
    var.is_foo_gotten = false;
    let _ = var.test_getter();
    assert!(var.is_foo_gotten);
    var.is_foo_gotten = false;
    var.test_getter().push('x');
    assert!(var.is_foo_gotten);
    assert_eq!(var.foo, "x");
}

#[test]
fn custom_names_replace_default_names() {
    let out = expand_all(SOURCE);
    assert!(out.contains("test_getter"));
    assert!(out.contains("foo_set"));
    assert!(!out.contains("get_foo"));
    assert!(!out.contains("set_foo"));
}
