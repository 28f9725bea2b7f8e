//! The umbrella directive with delegation and accessors on one structure.
use proc_macro2::{Delimiter, Spacing, TokenStream, TokenTree};
use quote::ToTokens;
use roopert::decl::{Attr, Field, Item, StructDecl};
use roopert::tokens::{Delim, Token};

fn flatten(ts: TokenStream, out: &mut Vec<Token>) {
    for tt in ts {
        match tt {
            TokenTree::Ident(i) => out.push(Token::Ident(i.to_string())),
            TokenTree::Punct(p) => out.push(Token::Punct(p.as_char(), p.spacing() == Spacing::Joint)),
            TokenTree::Literal(l) => out.push(Token::Literal(l.to_string())),
            TokenTree::Group(g) => {
                let d = match g.delimiter() {
                    Delimiter::Parenthesis => Delim::Paren,
                    Delimiter::Bracket => Delim::Bracket,
                    Delimiter::Brace => Delim::Brace,
                    Delimiter::None => Delim::Invisible,
                };
                out.push(Token::Open(d));
                flatten(g.stream(), out);
                out.push(Token::Close(d));
            }
        }
    }
}

fn toks<T: ToTokens>(t: &T) -> Vec<Token> {
    let mut out = Vec::new();
    flatten(t.to_token_stream(), &mut out);
    out
}

fn text_toks(s: &str) -> Vec<Token> {
    let mut out = Vec::new();
    flatten(s.parse::<TokenStream>().unwrap(), &mut out);
    out
}

fn attr_of(a: &syn::Attribute) -> Attr {
    let mut tokens = Vec::new();
    flatten(a.tokens.clone(), &mut tokens);
    Attr { path: toks(&a.path), tokens }
}

fn item_of(s: &syn::ItemStruct) -> Item {
    let named = match &s.fields {
        syn::Fields::Named(n) => n,
        _ => return Item::Other(toks(s)),
    };
    let (ig, tg, wc) = s.generics.split_for_impl();
    let fields = named
        .named
        .iter()
        .map(|f| Field {
            attrs: f.attrs.iter().map(attr_of).collect(),
            vis: toks(&f.vis),
            name: f.ident.as_ref().unwrap().to_string(),
            ty: toks(&f.ty),
        })
        .collect();
    Item::Struct(StructDecl {
        attrs: s.attrs.iter().map(attr_of).collect(),
        vis: toks(&s.vis),
        name: s.ident.to_string(),
        generics: toks(&s.generics),
        impl_generics: toks(&ig),
        type_generics: toks(&tg),
        where_clause: match wc {
            Some(w) => toks(w),
            None => Vec::new(),
        },
        fields,
    })
}

/// The tokens of `s`, one space apart, whatever their spacing in `s`.
fn normalize(s: &str) -> String {
    text_toks(s)
        .iter()
        .map(|t| match t {
            Token::Ident(x) | Token::Literal(x) => x.clone(),
            Token::Punct(c, _) => c.to_string(),
            Token::Open(Delim::Paren) => "(".to_string(),
            Token::Open(Delim::Bracket) => "[".to_string(),
            Token::Open(Delim::Brace) => "{".to_string(),
            Token::Close(Delim::Paren) => ")".to_string(),
            Token::Close(Delim::Bracket) => "]".to_string(),
            Token::Close(Delim::Brace) => "}".to_string(),
            Token::Open(Delim::Invisible) | Token::Close(Delim::Invisible) => String::new(),
        })
        .collect::<Vec<_>>()
        .join(" ")
}

fn is_roopert(a: &syn::Attribute) -> bool {
    a.path.segments.last().map(|s| s.ident == "roopert").unwrap_or(false)
}

fn directive_args(a: &syn::Attribute) -> Vec<Token> {
    let all = text_toks(&a.tokens.to_string());
    all[1..all.len() - 1].iter().cloned().collect()
}

/// Expands every umbrella directive on a structure, outermost first, as the
/// compiler would.
fn expand_all(src: &str) -> String {
    let mut text = src.to_string();
    loop {
        let file: syn::File = syn::parse_str(&text).unwrap();
        let mut out = String::new();
        let mut changed = false;
        for item in file.items {
            if !changed {
                if let syn::Item::Struct(s) = &item {
                    if let Some(pos) = s.attrs.iter().position(is_roopert) {
                        let mut s = s.clone();
                        let a = s.attrs.remove(pos);
                        let r = roopert::roopert(&directive_args(&a), &item_of(&s)).unwrap();
                        out.push_str(&r);
                        out.push(' ');
                        changed = true;
                        continue;
                    }
                }
            }
            out.push_str(&item.to_token_stream().to_string());
            out.push(' ');
        }
        if !changed {
            return normalize(&out);
        }
        text = out;
    }
}

const SOURCE: &str = r#"
#[roopert(extend, String)]
#[roopert(accessors, get = Private, set = All)]
#[derive(Default)]
struct MacroRootTest {
    #[roopert(parent)]
    #[roopert(get)]
    foo: String,
}
"#;

const EXPANDED: &str = r#"
#[derive(Default)]
struct MacroRootTest {
    foo: String,
}
impl MacroRootTest {
    pub fn get_foo(&self) -> &'_ String { &self.foo }
    pub fn set_foo(&mut self, x: String) { self.foo = x; }
}
impl core::convert::AsRef<String> for MacroRootTest {
    fn as_ref(&self) -> &String { &self.foo }
}
impl core::convert::AsMut<String> for MacroRootTest {
    fn as_mut(&mut self) -> &mut String { &mut self.foo }
}
impl core::convert::Into<String> for MacroRootTest {
    fn into(self) -> String { self.foo }
}
impl core::ops::Deref for MacroRootTest {
    type Target = String;
    fn deref(&self) -> &Self::Target { &self.foo }
}
impl core::ops::DerefMut for MacroRootTest {
    fn deref_mut(&mut self) -> &mut Self::Target { &mut self.foo }
}
"#;

// The expansion above, as the compiler receives it.
#[derive(Default)]
struct MacroRootTest {
    foo: String,
}
impl MacroRootTest {
    pub fn get_foo(&self) -> &'_ String { &self.foo }
    pub fn set_foo(&mut self, x: String) { self.foo = x; }
}
impl core::convert::AsRef<String> for MacroRootTest {
    fn as_ref(&self) -> &String { &self.foo }
}
impl core::convert::AsMut<String> for MacroRootTest {
    fn as_mut(&mut self) -> &mut String { &mut self.foo }
}
#[allow(clippy::from_over_into)]
impl core::convert::Into<String> for MacroRootTest {
    fn into(self) -> String { self.foo }
}
impl core::ops::Deref for MacroRootTest {
    type Target = String;
    fn deref(&self) -> &Self::Target { &self.foo }
}
impl core::ops::DerefMut for MacroRootTest {
    fn deref_mut(&mut self) -> &mut Self::Target { &mut self.foo }
}

#[allow(dead_code)]
impl MacroRootTest {
    fn new() -> Self {
        Self {
            foo: "".into(),
        }
    }
}

#[test]
fn attribute_parsing_extend_test() {
    assert_eq!(expand_all(SOURCE), normalize(EXPANDED));
    let mut var = MacroRootTest::default();
    {let _: &mut String = var.as_mut();}
    {let _: &String = var.as_ref();}
    {let _: &mut String = &mut var;}
    {let _: &String = &var;}
    {let _: String = var.into();}
}

#[test]
fn attribute_parsing_accessor_test() {
    assert_eq!(expand_all(SOURCE), normalize(EXPANDED));
    let mut var = MacroRootTest::default();
    {let _: &str = var.get_foo();}
    var.set_foo("bar".into());
    assert_eq!(var.get_foo(), "bar");
}

#[test]
fn accessors_round_trip() {
    let mut var = MacroRootTest::new();
    let v = String::from("value");
    var.set_foo(v.clone());
    assert_eq!(var.get_foo(), &v);
}
