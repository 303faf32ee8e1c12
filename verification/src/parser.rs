//! The structural parser: what a bridge needs from a declaration, or why the
//! declaration does not have the shape that the bridge asks for.

use crate::error::BridgeError;
use crate::syntax::{
    text_equals, texts_view, Data, Declaration, Field, Fields, GenericArgument, Generics,
    PathArguments, Type,
};
use vstd::prelude::*;

verus! {

/// What the list-like transform needs from a struct: the struct's name, the
/// name of its one field, and the item type that the field's draining
/// iterator hands out. The item type is the iterator's one generic argument
/// as it was written: a single name.
#[derive(Clone, Debug, PartialEq, Eq)]
pub struct ListLikeSpec {
    pub list_name: String,
    pub field_name: String,
    pub item_type: String,
}

/// What a [`ListLikeSpec`] holds, as sequences of characters.
pub struct ListLikeSpecView {
    pub list_name: Seq<char>,
    pub field_name: Seq<char>,
    pub item_type: Seq<char>,
}

impl View for ListLikeSpec {
    type V = ListLikeSpecView;

    open spec fn view(&self) -> ListLikeSpecView {
        ListLikeSpecView {
            list_name: self.list_name@,
            field_name: self.field_name@,
            item_type: self.item_type@,
        }
    }
}

/// What the enum bridge needs from an enum: its name and its variants, and
/// its visibility and generics, with which the enum is emitted again as it
/// was declared.
#[derive(Clone, Debug, PartialEq, Eq)]
pub struct EnumSpec {
    pub vis: String,
    pub enum_name: String,
    pub generics: Generics,
    pub variants: Vec<String>,
}

/// What an [`EnumSpec`] holds, as sequences of characters.
pub struct EnumSpecView {
    pub vis: Seq<char>,
    pub enum_name: Seq<char>,
    pub params: Seq<char>,
    pub where_clause: Seq<char>,
    pub variants: Seq<Seq<char>>,
}

impl View for EnumSpec {
    type V = EnumSpecView;

    open spec fn view(&self) -> EnumSpecView {
        EnumSpecView {
            vis: self.vis@,
            enum_name: self.enum_name@,
            params: self.generics.params@,
            where_clause: self.generics.where_clause@,
            variants: texts_view(self.variants@),
        }
    }
}

/// The name of the owned draining iterator that the one field must hold.
pub open spec fn iterator_name() -> Seq<char> {
    "IntoIter"@
}

impl Type {
    /// The name of a simple named type: a path that is one segment without
    /// arguments, with nothing before it. `Item` is one; `shapes::Item`,
    /// `::Item`, `Vec<u8>` and `Fn(u8) -> u8` are none.
    pub open spec fn simple_name(self) -> Option<Seq<char>> {
        match self {
            Type::Path(path) => if !path.qualified && !path.leading_colon && path.segments@.len()
                == 1 && path.segments@[0].arguments is Bare {
                Some(path.segments@[0].ident@)
            } else {
                None
            },
            Type::Other => None,
        }
    }

    /// The item type of a draining iterator: the one generic argument of a
    /// path whose last segment is `IntoIter`, where that argument is a
    /// simple named type.
    pub open spec fn item_type(self) -> Option<Seq<char>> {
        match self.last_segment() {
            Some(segment) => if segment.ident@ == iterator_name() {
                match segment.arguments {
                    PathArguments::AngleBracketed(arguments) => if arguments@.len() == 1 {
                        match arguments@[0] {
                            GenericArgument::Type(item) => item.simple_name(),
                            GenericArgument::Other => None,
                        }
                    } else {
                        None
                    },
                    _ => None,
                }
            } else {
                None
            },
            None => None,
        }
    }
}

impl Data {
    /// How many fields of a struct are declared, named or not; an enum and
    /// a union have none.
    pub open spec fn field_count(self) -> nat {
        match self {
            Data::Struct(fields) => fields.count(),
            _ => 0,
        }
    }

    /// The one named field of a struct that has exactly one.
    pub open spec fn sole_named_field(self) -> Option<Field> {
        match self {
            Data::Struct(Fields::Named(fields)) => if fields@.len() == 1 {
                Some(fields@[0])
            } else {
                None
            },
            _ => None,
        }
    }
}

/// What the list-like transform reads from a declaration. A struct with
/// two fields or more has too many; a declaration without exactly one named
/// field of a struct misses its field, which holds of a unit struct, of a
/// tuple struct with one field, of an enum and of a union; one whose field
/// is not `IntoIter` over one simple named item type has a field of the
/// wrong type.
pub open spec fn listlike_spec(input: Declaration) -> Result<ListLikeSpecView, BridgeError> {
    if input.data.field_count() >= 2 {
        Err(BridgeError::TooManyFields)
    } else {
        match input.data.sole_named_field() {
            None => Err(BridgeError::MissingField),
            Some(field) => match field.ty.item_type() {
                None => Err(BridgeError::TypeMismatch),
                Some(item_type) => Ok(
                    ListLikeSpecView {
                        list_name: input.ident@,
                        field_name: field.ident@,
                        item_type,
                    },
                ),
            },
        }
    }
}

/// What the enum bridge reads from a declaration: any enum is taken as it
/// is, with no variants too; a struct and a union are refused.
pub open spec fn enum_spec(input: Declaration) -> Result<EnumSpecView, BridgeError> {
    match input.data {
        Data::Enum(variants) => Ok(
            EnumSpecView {
                vis: input.vis@,
                enum_name: input.ident@,
                params: input.generics.params@,
                where_clause: input.generics.where_clause@,
                variants: texts_view(variants@),
            },
        ),
        _ => Err(BridgeError::InvalidEnumInput),
    }
}

/// The name of a simple named type.
fn simple_name_of(ty: &Type) -> (name: Option<String>)
    ensures
        match ty.simple_name() {
            Some(text) => name is Some && name->Some_0@ == text,
            None => name is None,
        },
{
    match ty {
        Type::Path(path) => {
            if path.qualified || path.leading_colon || path.segments.len() != 1 {
                return None;
            }
            match &path.segments[0].arguments {
                PathArguments::Bare => Some(path.segments[0].ident.clone()),
                _ => None,
            }
        },
        Type::Other => None,
    }
}

/// The name of the item type of a draining iterator.
fn item_type_of(ty: &Type) -> (item: Option<String>)
    ensures
        match ty.item_type() {
            Some(name) => item is Some && item->Some_0@ == name,
            None => item is None,
        },
{
    match ty.last() {
        Some(segment) => {
            if !text_equals(&segment.ident, "IntoIter") {
                return None;
            }
            match &segment.arguments {
                PathArguments::AngleBracketed(arguments) => {
                    if arguments.len() != 1 {
                        return None;
                    }
                    match &arguments[0] {
                        GenericArgument::Type(item) => simple_name_of(item),
                        GenericArgument::Other => None,
                    }
                },
                _ => None,
            }
        },
        None => None,
    }
}

/// Reads from a declaration what the list-like transform needs.
pub fn parse_listlike(input: &Declaration) -> (parsed: Result<ListLikeSpec, BridgeError>)
    ensures
        match listlike_spec(*input) {
            Ok(spec) => parsed is Ok && parsed->Ok_0@ == spec,
            Err(error) => parsed == Err::<ListLikeSpec, BridgeError>(error),
        },
{
    match &input.data {
        Data::Struct(fields) => {
            if fields.len() >= 2 {
                return Err(BridgeError::TooManyFields);
            }
            match fields {
                Fields::Named(named) => {
                    if named.len() == 0 {
                        return Err(BridgeError::MissingField);
                    }
                    let field = &named[0];
                    match item_type_of(&field.ty) {
                        Some(item_type) => Ok(
                            ListLikeSpec {
                                list_name: input.ident.clone(),
                                field_name: field.ident.clone(),
                                item_type,
                            },
                        ),
                        None => Err(BridgeError::TypeMismatch),
                    }
                },
                _ => Err(BridgeError::MissingField),
            }
        },
        _ => Err(BridgeError::MissingField),
    }
}

/// A copy of the texts, in the same order.
fn copy_texts(texts: &Vec<String>) -> (copy: Vec<String>)
    ensures
        texts_view(copy@) == texts_view(texts@),
{
    let mut copy: Vec<String> = Vec::new();
    let mut i: usize = 0;
    while i < texts.len()
        invariant
            i <= texts.len(),
            copy.len() == i,
            forall|j: int| 0 <= j < i ==> copy[j]@ == texts[j]@,
        decreases texts.len() - i,
    {
        copy.push(texts[i].clone());
        i += 1;
    }
    assert(texts_view(copy@) =~= texts_view(texts@));
    copy
}

/// Reads from a declaration what the enum bridge needs.
pub fn parse_enum(input: &Declaration) -> (parsed: Result<EnumSpec, BridgeError>)
    ensures
        match enum_spec(*input) {
            Ok(spec) => parsed is Ok && parsed->Ok_0@ == spec,
            Err(error) => parsed == Err::<EnumSpec, BridgeError>(error),
        },
{
    match &input.data {
        Data::Enum(variants) => Ok(
            EnumSpec {
                vis: input.vis.clone(),
                enum_name: input.ident.clone(),
                generics: Generics {
                    params: input.generics.params.clone(),
                    where_clause: input.generics.where_clause.clone(),
                },
                variants: copy_texts(variants),
            },
        ),
        _ => Err(BridgeError::InvalidEnumInput),
    }
}

} // verus!
