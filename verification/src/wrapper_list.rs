//! The array bridge: the list-like transform, a shim that drains the wrapper
//! into a foreign array, and the method that hands the wrapper to the shim.

use crate::artifact::{decls_view, DeclKind, GeneratedArtifact, OutputDecl, OutputDeclView};
use crate::error::BridgeError;
use crate::listlike::{listlike_decls, listlike_impl};
use crate::parser::{listlike_spec, ListLikeSpecView};
use crate::shim::{
    declared_view, joined, shim_binding, shim_binding_text, shim_js, write_shim_js,
};
use crate::syntax::{attrs_view, AttributeView, Declaration};
use crate::util::merged_attrs;
use vstd::prelude::*;

verus! {

/// The parameter and the body of the shim that drains a wrapper into an
/// array: it calls `next` until nothing comes back, collects what came, in
/// the order in which it came, and returns the collection.
pub const ARRAY_DRAIN: &'static str =
    "(wasmList) { const items = []; while (true) { const item = wasmList.next(); if (item === undefined) { return items; } items.push(item); } }";

/// The name of the shim that drains the wrapper of the given name.
pub open spec fn array_shim_name(list_name: Seq<char>) -> Seq<char> {
    "__toArray"@ + list_name
}

/// The name of the foreign view type for arrays of the given item type.
pub open spec fn array_view_name(item_type: Seq<char>) -> Seq<char> {
    item_type + "Array"@
}

/// The foreign type name of an array of the given item type, which stands
/// where the caller declares none.
pub open spec fn array_type_name(item_type: Seq<char>) -> Seq<char> {
    item_type + "[]"@
}

/// The foreign type name that the view type is bound to: the one that the
/// caller declared, or else the one derived from the item type.
pub open spec fn array_type_choice(declared: Option<Seq<char>>, item_type: Seq<char>) -> Seq<
    char,
> {
    match declared {
        Some(name) => name,
        None => array_type_name(item_type),
    }
}

/// The method that hands the wrapper to the shim, by value.
pub open spec fn into_js_array_text(spec: ListLikeSpecView) -> Seq<char> {
    "#[wasm_bindgen] impl "@ + spec.list_name + " { pub(crate) fn into_js_array(self) -> "@
        + array_view_name(spec.item_type) + " { "@ + array_shim_name(spec.list_name)
        + "(self) } }"@
}

/// What the array bridge emits behind the list-like transform: the binding
/// of the shim, and the bridging method.
pub open spec fn array_bridge_decls(spec: ListLikeSpecView, typescript_type: Seq<char>) -> Seq<
    OutputDeclView,
> {
    seq![
        (OutputDeclView {
            kind: DeclKind::ShimBinding,
            text: shim_binding_text(
                shim_js(array_shim_name(spec.list_name), ARRAY_DRAIN@),
                typescript_type,
                array_view_name(spec.item_type),
                array_shim_name(spec.list_name),
                "list: "@ + spec.list_name,
            ),
        }),
        (OutputDeclView { kind: DeclKind::BridgingMethod, text: into_js_array_text(spec) }),
    ]
}

/// Everything that the array bridge emits for a struct, in order.
pub open spec fn array_bridge(
    attrs: Seq<AttributeView>,
    spec: ListLikeSpecView,
    declared: Option<Seq<char>>,
) -> Seq<OutputDeclView> {
    listlike_decls(merged_attrs(attrs), spec) + array_bridge_decls(
        spec,
        array_type_choice(declared, spec.item_type),
    )
}

fn into_js_array(list_name: &str, view_type: &str, shim_name: &str) -> (decl: OutputDecl)
    ensures
        decl@.kind == DeclKind::BridgingMethod,
        decl@.text == "#[wasm_bindgen] impl "@ + list_name@
            + " { pub(crate) fn into_js_array(self) -> "@ + view_type@ + " { "@ + shim_name@
            + "(self) } }"@,
{
    let mut text = String::from_str("#[wasm_bindgen] impl ");
    text.append(list_name);
    text.append(" { pub(crate) fn into_js_array(self) -> ");
    text.append(view_type);
    text.append(" { ");
    text.append(shim_name);
    text.append("(self) } }");
    OutputDecl { kind: DeclKind::BridgingMethod, text }
}

/// The array bridge of a declaration. A struct with one named field that
/// holds `IntoIter` over a named item type yields the list-like transform,
/// the binding of the draining shim and the bridging method, in this order;
/// the view type is bound to `typescript_type`, or to the item type's name
/// followed by `[]` where none is declared. Any other declaration yields the
/// parser's error.
pub fn wrapper_list_impl(input: Declaration, typescript_type: Option<String>) -> (output: Result<
    GeneratedArtifact,
    BridgeError,
>)
    ensures
        match listlike_spec(input) {
            Ok(spec) => output is Ok && output->Ok_0@ == array_bridge(
                attrs_view(input.attrs@),
                spec,
                declared_view(typescript_type),
            ),
            Err(error) => output == Err::<GeneratedArtifact, BridgeError>(error),
        },
{
    let ghost attrs = attrs_view(input.attrs@);
    let ghost shape = listlike_spec(input);
    match listlike_impl(input) {
        Ok(list) => {
            let ghost spec = shape->Ok_0;
            let ghost front = decls_view(list.tokens@);
            let shim_name = joined("__toArray", list.list_ident.as_str());
            let view_type = joined(list.item_ident.as_str(), "Array");
            let foreign = match typescript_type {
                Some(name) => name,
                None => joined(list.item_ident.as_str(), "[]"),
            };
            let js = write_shim_js(shim_name.as_str(), ARRAY_DRAIN);
            let parameters = joined("list: ", list.list_ident.as_str());
            let binding = shim_binding(
                js.as_str(),
                foreign.as_str(),
                view_type.as_str(),
                shim_name.as_str(),
                parameters.as_str(),
            );
            let method = into_js_array(
                list.list_ident.as_str(),
                view_type.as_str(),
                shim_name.as_str(),
            );
            let mut declarations = list.tokens;
            declarations.push(binding);
            declarations.push(method);
            proof {
                assert(decls_view(declarations@) =~= front + array_bridge_decls(
                    spec,
                    array_type_choice(declared_view(typescript_type), spec.item_type),
                ));
            }
            Ok(GeneratedArtifact { declarations })
        },
        Err(error) => Err(error),
    }
}

} // verus!
