//! The declarations that the generator reads: a struct or an enum, described
//! as far as the bridges look into one.

use vstd::prelude::*;

verus! {

/// One attribute of a declaration, as written between `#[` and `]`: the
/// segments of its path, and the text that follows the path.
#[derive(Clone, Debug, PartialEq, Eq)]
pub struct Attribute {
    pub path: Vec<String>,
    pub tokens: String,
}

/// What an [`Attribute`] holds, as sequences of characters.
pub struct AttributeView {
    pub path: Seq<Seq<char>>,
    pub tokens: Seq<char>,
}

impl View for Attribute {
    type V = AttributeView;

    open spec fn view(&self) -> AttributeView {
        AttributeView { path: self.path@.map_values(|s: String| s@), tokens: self.tokens@ }
    }
}

/// The views of a sequence of attributes, in the same order.
pub open spec fn attrs_view(attrs: Seq<Attribute>) -> Seq<AttributeView> {
    attrs.map_values(|a: Attribute| a@)
}

/// A type, as far as the generator looks into one.
#[derive(Debug, PartialEq, Eq)]
pub enum Type {
    /// A type given by a path, such as `std::vec::IntoIter<Item>`.
    Path(TypePath),
    /// Any other type: a reference, a tuple, an array and so on.
    Other,
}

/// The path of a path type.
#[derive(Debug, PartialEq, Eq)]
pub struct TypePath {
    /// Whether the path starts from a qualified self type, as in
    /// `<T as Trait>::Item`.
    pub qualified: bool,
    /// Whether the path starts with `::`.
    pub leading_colon: bool,
    pub segments: Vec<PathSegment>,
}

/// One segment of a path, with the generic arguments written after it.
#[derive(Debug, PartialEq, Eq)]
pub struct PathSegment {
    pub ident: String,
    pub arguments: PathArguments,
}

/// The arguments of a path segment.
#[derive(Debug, PartialEq, Eq)]
pub enum PathArguments {
    /// No arguments: `Item`.
    Bare,
    /// Arguments between angle brackets: `IntoIter<Item>`.
    AngleBracketed(Vec<GenericArgument>),
    /// Arguments between round brackets: `Fn(A) -> B`.
    Parenthesized,
}

/// One generic argument.
#[derive(Debug, PartialEq, Eq)]
pub enum GenericArgument {
    /// A type.
    Type(Type),
    /// A lifetime, a constant, a binding or a constraint.
    Other,
}

/// A named field of a struct.
#[derive(Debug, PartialEq, Eq)]
pub struct Field {
    pub ident: String,
    pub ty: Type,
}

/// The fields of a struct.
#[derive(Debug, PartialEq, Eq)]
pub enum Fields {
    /// `struct S { a: A, b: B }`
    Named(Vec<Field>),
    /// `struct S(A, B);`
    Unnamed(Vec<Type>),
    /// `struct S;`
    Unit,
}

/// The body of a declaration.
#[derive(Debug, PartialEq, Eq)]
pub enum Data {
    /// A struct, with its fields.
    Struct(Fields),
    /// An enum, with the text of each of its variants.
    Enum(Vec<String>),
    /// A union, which no bridge takes.
    Union,
}

/// The generics of a declaration, as they were written.
#[derive(Clone, Debug, PartialEq, Eq)]
pub struct Generics {
    /// The parameters with their angle brackets, such as `<T: Clone>`, or
    /// nothing.
    pub params: String,
    /// The `where` clause with its keyword, or nothing.
    pub where_clause: String,
}

/// A type declaration handed to one of the bridges.
#[derive(Debug, PartialEq, Eq)]
pub struct Declaration {
    pub attrs: Vec<Attribute>,
    /// The visibility as it was written, such as `pub` or `pub(crate)`, or
    /// nothing.
    pub vis: String,
    pub ident: String,
    pub generics: Generics,
    pub data: Data,
}

/// The views of a sequence of strings, in the same order.
pub open spec fn texts_view(texts: Seq<String>) -> Seq<Seq<char>> {
    texts.map_values(|s: String| s@)
}

impl Fields {
    /// How many fields are declared, named or not.
    pub open spec fn count(self) -> nat {
        match self {
            Fields::Named(fields) => fields@.len(),
            Fields::Unnamed(types) => types@.len(),
            Fields::Unit => 0,
        }
    }

    /// How many fields are declared, named or not.
    pub fn len(&self) -> (n: usize)
        ensures
            n == self.count(),
    {
        match self {
            Fields::Named(fields) => fields.len(),
            Fields::Unnamed(types) => types.len(),
            Fields::Unit => 0,
        }
    }
}

impl Type {
    /// The last segment of a path type, if the type is a path with a segment.
    pub open spec fn last_segment(self) -> Option<PathSegment> {
        match self {
            Type::Path(path) => if path.segments@.len() > 0 {
                Some(path.segments@.last())
            } else {
                None
            },
            Type::Other => None,
        }
    }

    /// The last segment of a path type, if the type is a path with a segment.
    pub fn last(&self) -> (segment: Option<&PathSegment>)
        ensures
            match self.last_segment() {
                Some(last) => segment == Some(&last),
                None => segment is None,
            },
    {
        match self {
            Type::Path(path) => {
                if path.segments.len() > 0 {
                    Some(&path.segments[path.segments.len() - 1])
                } else {
                    None
                }
            },
            Type::Other => None,
        }
    }
}

/// Whether `text` is exactly `other`.
pub fn text_equals(text: &String, other: &str) -> (same: bool)
    ensures
        same == (text@ == other@),
{
    let other = String::from_str(other);
    *text == other
}

} // verus!
