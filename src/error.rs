//! Why a directive could not be processed.
use vstd::prelude::*;

verus! {

/// The directive family that an error concerns.
#[derive(Clone, Copy, Debug, PartialEq, Eq, Structural)]
pub enum Family {
    /// The umbrella directive that names a family by its first keyword.
    Roopert,
    Parent,
    Extends,
    Accessors,
    Getter,
    Setter,
    Fields,
}

/// A failure to process one directive; each ends the invocation at once.
#[derive(Debug)]
pub enum DirectiveError {
    /// The text does not follow the directive's grammar.
    MalformedDirective { family: Family, text: String },
    /// The umbrella directive begins with a keyword that names no family.
    UnknownDirective { keyword: String },
    /// An option key that the family does not have.
    UnknownOption { family: Family, keyword: String },
    /// A known option with a value of the wrong kind or an unknown word.
    UnrecognizedValue { family: Family, option: String },
    /// The directive stands on something other than a structure with named fields.
    UnsupportedTarget { family: Family },
    /// A delegation target type that no field has.
    UnresolvedDelegate { type_text: String },
}

/// An error, with its texts as characters.
pub enum ErrorV {
    MalformedDirective { family: Family, text: Seq<char> },
    UnknownDirective { keyword: Seq<char> },
    UnknownOption { family: Family, keyword: Seq<char> },
    UnrecognizedValue { family: Family, option: Seq<char> },
    UnsupportedTarget { family: Family },
    UnresolvedDelegate { type_text: Seq<char> },
}

impl View for DirectiveError {
    type V = ErrorV;

    open spec fn view(&self) -> ErrorV {
        match self {
            DirectiveError::MalformedDirective { family, text } => ErrorV::MalformedDirective {
                family: *family,
                text: text@,
            },
            DirectiveError::UnknownDirective { keyword } => ErrorV::UnknownDirective {
                keyword: keyword@,
            },
            DirectiveError::UnknownOption { family, keyword } => ErrorV::UnknownOption {
                family: *family,
                keyword: keyword@,
            },
            DirectiveError::UnrecognizedValue { family, option } => ErrorV::UnrecognizedValue {
                family: *family,
                option: option@,
            },
            DirectiveError::UnsupportedTarget { family } => ErrorV::UnsupportedTarget {
                family: *family,
            },
            DirectiveError::UnresolvedDelegate { type_text } => ErrorV::UnresolvedDelegate {
                type_text: type_text@,
            },
        }
    }
}

/// A result with both sides as views.
pub open spec fn view_result<T: View>(r: Result<T, DirectiveError>) -> Result<T::V, ErrorV> {
    match r {
        Ok(x) => Ok(x@),
        Err(e) => Err(e@),
    }
}

/// The keyword that names a family in source.
pub open spec fn family_keyword(f: Family) -> Seq<char> {
    match f {
        Family::Roopert => "roopert"@,
        Family::Parent => "parent"@,
        Family::Extends => "extends"@,
        Family::Accessors => "accessors"@,
        Family::Getter => "get"@,
        Family::Setter => "set"@,
        Family::Fields => "fields"@,
    }
}

impl Family {
    /// The keyword that names the family in source.
    pub fn keyword(&self) -> (r: &'static str)
        ensures
            r@ == family_keyword(*self),
    {
        match self {
            Family::Roopert => "roopert",
            Family::Parent => "parent",
            Family::Extends => "extends",
            Family::Accessors => "accessors",
            Family::Getter => "get",
            Family::Setter => "set",
            Family::Fields => "fields",
        }
    }
}

impl DirectiveError {
    /// A message for a person reading the build's diagnostics.
    pub fn message(&self) -> String {
        let mut m = String::new();
        match self {
            DirectiveError::MalformedDirective { family, text } => {
                m.append("malformed #[");
                m.append(family.keyword());
                m.append("] directive: ");
                m.append(text.as_str());
            },
            DirectiveError::UnknownDirective { keyword } => {
                m.append("unknown directive ");
                m.append(keyword.as_str());
                m.append(" in #[roopert(...)]");
            },
            DirectiveError::UnknownOption { family, keyword } => {
                m.append("unknown option ");
                m.append(keyword.as_str());
                m.append(" in #[roopert(");
                m.append(family.keyword());
                m.append(", ...)]");
            },
            DirectiveError::UnrecognizedValue { family, option } => {
                m.append("unrecognised value of ");
                m.append(option.as_str());
                m.append(" in #[roopert(");
                m.append(family.keyword());
                m.append(", ...)]");
            },
            DirectiveError::UnsupportedTarget { family } => {
                m.append("only structures with named fields can have #[roopert(");
                m.append(family.keyword());
                m.append(")]");
            },
            DirectiveError::UnresolvedDelegate { type_text } => {
                m.append("cannot extend ");
                m.append(type_text.as_str());
                m.append(": no field has this type");
            },
        }
        m
    }
}

} // verus!
