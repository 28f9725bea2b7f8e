//! The calls that the library makes into std and syn, with what it relies on.
use vstd::prelude::*;

verus! {

/// What `str::to_lowercase` makes of a text: depends on the characters alone.
pub uninterp spec fn lower_of(s: Seq<char>) -> Seq<char>;

/// What syn reads as the value of a string literal written as `text`, if
/// `text` is one string literal.
pub uninterp spec fn str_literal_of(text: Seq<char>) -> Option<Seq<char>>;

/// Relies on `str::to_lowercase`: the lower-case form of each character.
#[verifier::external_body]
pub(crate) fn lowercase(s: &str) -> (r: String)
    ensures
        r@ == lower_of(s@),
{
    s.to_lowercase()
}

/// Relies on `syn::parse_str::<syn::LitStr>` and `syn::LitStr::value`: reads
/// `text` as one string literal and gives its value, escapes resolved.
#[verifier::external_body]
pub(crate) fn str_literal_value(text: &str) -> (r: Option<String>)
    ensures
        r is Some <==> str_literal_of(text@) is Some,
        r is Some ==> r->0@ == str_literal_of(text@)->0,
{
    match syn::parse_str::<syn::LitStr>(text) {
        Ok(lit) => Some(lit.value()),
        Err(_) => None,
    }
}

/// Relies on `String::push`: appends one character.
#[verifier::external_body]
pub(crate) fn push_char(s: &mut String, c: char)
    ensures
        final(s)@ == old(s)@.push(c),
{
    s.push(c)
}

} // verus!
