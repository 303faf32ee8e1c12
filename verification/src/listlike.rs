//! The list-like transform, which the array bridge and the object bridge
//! share: a struct that wraps a draining iterator over the items, the
//! conversion from a vector into it, and the operation that hands out the
//! next item.

use crate::artifact::{decls_view, DeclKind, OutputDecl, OutputDeclView};
use crate::error::BridgeError;
use crate::parser::{listlike_spec, parse_listlike, ListLikeSpec, ListLikeSpecView};
use crate::syntax::{attrs_view, Attribute, AttributeView, Declaration};
use crate::text::{attributes_text, push_attributes};
use crate::util::{merged_attrs, parse_attrs};
use vstd::prelude::*;

verus! {

/// The wrapper struct: the attributes, then a public struct whose one field
/// is a draining iterator over the item type. The wrapper is a new struct,
/// not the declared one again: it takes the attributes, the name, the
/// field's name and the item type from the declaration, and is public
/// whatever the declaration says.
pub open spec fn wrapper_struct_text(attrs: Seq<AttributeView>, spec: ListLikeSpecView) -> Seq<
    char,
> {
    attributes_text(attrs) + "pub struct "@ + spec.list_name + " { "@ + spec.field_name
        + ": ::std::vec::IntoIter<"@ + spec.item_type + ">, }"@
}

/// The conversion from a vector of items: the wrapper takes over the
/// vector's own iterator, so the items keep their order and their number.
pub open spec fn from_sequence_text(spec: ListLikeSpecView) -> Seq<char> {
    "impl ::std::convert::From<::std::vec::Vec<"@ + spec.item_type + ">> for "@ + spec.list_name
        + " { fn from(vec: ::std::vec::Vec<"@ + spec.item_type + ">) -> "@ + spec.list_name
        + " { "@ + spec.list_name + " { "@ + spec.field_name + ": vec.into_iter() } } }"@
}

/// The stepping operation: `next` hands out the next item of the iterator,
/// or nothing once the items are used up.
pub open spec fn stepping_text(spec: ListLikeSpecView) -> Seq<char> {
    "#[wasm_bindgen] impl "@ + spec.list_name
        + " { #[allow(clippy::should_implement_trait)] pub fn next(&mut self) -> ::std::option::Option<"@
        + spec.item_type + "> { self."@ + spec.field_name + ".next() } }"@
}

/// The three declarations of the list-like transform, in their order.
pub open spec fn listlike_decls(attrs: Seq<AttributeView>, spec: ListLikeSpecView) -> Seq<
    OutputDeclView,
> {
    seq![
        (OutputDeclView { kind: DeclKind::WrapperStruct, text: wrapper_struct_text(attrs, spec) }),
        (OutputDeclView { kind: DeclKind::FromSequence, text: from_sequence_text(spec) }),
        (OutputDeclView { kind: DeclKind::SteppingOperation, text: stepping_text(spec) }),
    ]
}

/// What the list-like transform hands to a bridge: the declarations, the
/// name of the wrapper and the name of the item type.
#[derive(Clone, Debug, PartialEq, Eq)]
pub struct ListLike {
    pub tokens: Vec<OutputDecl>,
    pub list_ident: String,
    pub item_ident: String,
}

fn wrapper_struct(attrs: &Vec<Attribute>, spec: &ListLikeSpec) -> (decl: OutputDecl)
    ensures
        decl@ == (OutputDeclView {
            kind: DeclKind::WrapperStruct,
            text: wrapper_struct_text(attrs_view(attrs@), spec@),
        }),
{
    let mut text = String::new();
    push_attributes(&mut text, attrs);
    text.append("pub struct ");
    text.append(spec.list_name.as_str());
    text.append(" { ");
    text.append(spec.field_name.as_str());
    text.append(": ::std::vec::IntoIter<");
    text.append(spec.item_type.as_str());
    text.append(">, }");
    OutputDecl { kind: DeclKind::WrapperStruct, text }
}

fn from_sequence(spec: &ListLikeSpec) -> (decl: OutputDecl)
    ensures
        decl@ == (OutputDeclView {
            kind: DeclKind::FromSequence,
            text: from_sequence_text(spec@),
        }),
{
    let mut text = String::from_str("impl ::std::convert::From<::std::vec::Vec<");
    text.append(spec.item_type.as_str());
    text.append(">> for ");
    text.append(spec.list_name.as_str());
    text.append(" { fn from(vec: ::std::vec::Vec<");
    text.append(spec.item_type.as_str());
    text.append(">) -> ");
    text.append(spec.list_name.as_str());
    text.append(" { ");
    text.append(spec.list_name.as_str());
    text.append(" { ");
    text.append(spec.field_name.as_str());
    text.append(": vec.into_iter() } } }");
    OutputDecl { kind: DeclKind::FromSequence, text }
}

fn stepping(spec: &ListLikeSpec) -> (decl: OutputDecl)
    ensures
        decl@ == (OutputDeclView {
            kind: DeclKind::SteppingOperation,
            text: stepping_text(spec@),
        }),
{
    let mut text = String::from_str("#[wasm_bindgen] impl ");
    text.append(spec.list_name.as_str());
    text.append(
        " { #[allow(clippy::should_implement_trait)] pub fn next(&mut self) -> ::std::option::Option<",
    );
    text.append(spec.item_type.as_str());
    text.append("> { self.");
    text.append(spec.field_name.as_str());
    text.append(".next() } }");
    OutputDecl { kind: DeclKind::SteppingOperation, text }
}

/// Emits the list-like transform of a struct that the parser has accepted,
/// with the attributes that the wrapper struct is to carry.
pub fn build_listlike(spec: &ListLikeSpec, attrs: &Vec<Attribute>) -> (decls: Vec<OutputDecl>)
    ensures
        decls_view(decls@) == listlike_decls(attrs_view(attrs@), spec@),
{
    let mut decls: Vec<OutputDecl> = Vec::new();
    decls.push(wrapper_struct(attrs, spec));
    decls.push(from_sequence(spec));
    decls.push(stepping(spec));
    proof {
        assert(decls_view(decls@) =~= listlike_decls(attrs_view(attrs@), spec@));
    }
    decls
}

/// The list-like transform of a declaration: the declaration is parsed, the
/// marker is merged into its attributes, and the three declarations are
/// emitted. A declaration that the parser refuses yields the parser's error
/// and nothing else.
pub fn listlike_impl(input: Declaration) -> (output: Result<ListLike, BridgeError>)
    ensures
        match listlike_spec(input) {
            Ok(spec) => {
                &&& output is Ok
                &&& decls_view(output->Ok_0.tokens@) == listlike_decls(
                    merged_attrs(attrs_view(input.attrs@)),
                    spec,
                )
                &&& output->Ok_0.list_ident@ == spec.list_name
                &&& output->Ok_0.item_ident@ == spec.item_type
            },
            Err(error) => output == Err::<ListLike, BridgeError>(error),
        },
{
    match parse_listlike(&input) {
        Ok(spec) => {
            let attrs = parse_attrs(input.attrs);
            let tokens = build_listlike(&spec, &attrs);
            Ok(ListLike { tokens, list_ident: spec.list_name, item_ident: spec.item_type })
        },
        Err(error) => Err(error),
    }
}

} // verus!
