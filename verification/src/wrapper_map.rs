//! The object bridge: the list-like transform, a shim that drains the
//! wrapper into a foreign record keyed by one property of the items, and the
//! method that hands the wrapper and the property's name to the shim.

use crate::artifact::{decls_view, DeclKind, GeneratedArtifact, OutputDecl, OutputDeclView};
use crate::error::BridgeError;
use crate::listlike::{listlike_decls, listlike_impl};
use crate::parser::{listlike_spec, ListLikeSpecView};
use crate::shim::{joined, shim_binding, shim_binding_text, shim_js, write_shim_js};
use crate::syntax::{attrs_view, AttributeView, Declaration};
use crate::util::merged_attrs;
use vstd::prelude::*;

verus! {

/// The parameters and the body of the shim that drains a wrapper into a
/// record: it calls `next` until nothing comes back, reads the key property
/// of each item and files the item under what it read, so that of two items
/// with one key the later one stays.
pub const OBJECT_DRAIN: &'static str =
    "(wasmMap, keyProperty) { const object = {}; while (true) { const value = wasmMap.next(); if (value === undefined) { return object; } const key = value[keyProperty]; object[key] = value; } }";

/// The name of the shim that drains the wrapper of the given name.
pub open spec fn object_shim_name(list_name: Seq<char>) -> Seq<char> {
    "__toObject"@ + list_name
}

/// The name of the foreign view type for records of the given item type.
pub open spec fn object_view_name(item_type: Seq<char>) -> Seq<char> {
    item_type + "Object"@
}

/// The method that hands the wrapper, by value, and the name of the key
/// property to the shim. The property is named where the method is called,
/// not where the bridge is generated.
pub open spec fn into_js_object_text(spec: ListLikeSpecView) -> Seq<char> {
    "#[wasm_bindgen] impl "@ + spec.list_name
        + " { pub(crate) fn into_js_object(self, key_property: &str) -> "@ + object_view_name(
        spec.item_type,
    ) + " { "@ + object_shim_name(spec.list_name) + "(self, key_property) } }"@
}

/// What the object bridge emits behind the list-like transform: the binding
/// of the shim, and the bridging method.
pub open spec fn object_bridge_decls(spec: ListLikeSpecView, typescript_type: Seq<char>) -> Seq<
    OutputDeclView,
> {
    seq![
        (OutputDeclView {
            kind: DeclKind::ShimBinding,
            text: shim_binding_text(
                shim_js(object_shim_name(spec.list_name), OBJECT_DRAIN@),
                typescript_type,
                object_view_name(spec.item_type),
                object_shim_name(spec.list_name),
                "list: "@ + spec.list_name + ", key_property: &str"@,
            ),
        }),
        (OutputDeclView { kind: DeclKind::BridgingMethod, text: into_js_object_text(spec) }),
    ]
}

/// Everything that the object bridge emits for a struct, in order.
pub open spec fn object_bridge(
    attrs: Seq<AttributeView>,
    spec: ListLikeSpecView,
    typescript_type: Seq<char>,
) -> Seq<OutputDeclView> {
    listlike_decls(merged_attrs(attrs), spec) + object_bridge_decls(spec, typescript_type)
}

fn into_js_object(list_name: &str, view_type: &str, shim_name: &str) -> (decl: OutputDecl)
    ensures
        decl@.kind == DeclKind::BridgingMethod,
        decl@.text == "#[wasm_bindgen] impl "@ + list_name@
            + " { pub(crate) fn into_js_object(self, key_property: &str) -> "@ + view_type@
            + " { "@ + shim_name@ + "(self, key_property) } }"@,
{
    let mut text = String::from_str("#[wasm_bindgen] impl ");
    text.append(list_name);
    text.append(" { pub(crate) fn into_js_object(self, key_property: &str) -> ");
    text.append(view_type);
    text.append(" { ");
    text.append(shim_name);
    text.append("(self, key_property) } }");
    OutputDecl { kind: DeclKind::BridgingMethod, text }
}

/// The object bridge of a declaration. A struct with one named field that
/// holds `IntoIter` over a named item type yields the list-like transform,
/// the binding of the draining shim and the bridging method, in this order;
/// the view type is bound to `typescript_type`, the foreign record type that
/// the caller declares. Any other declaration yields the parser's error.
pub fn wrapper_map_impl(input: Declaration, typescript_type: String) -> (output: Result<
    GeneratedArtifact,
    BridgeError,
>)
    ensures
        match listlike_spec(input) {
            Ok(spec) => output is Ok && output->Ok_0@ == object_bridge(
                attrs_view(input.attrs@),
                spec,
                typescript_type@,
            ),
            Err(error) => output == Err::<GeneratedArtifact, BridgeError>(error),
        },
{
    let ghost shape = listlike_spec(input);
    match listlike_impl(input) {
        Ok(list) => {
            let ghost spec = shape->Ok_0;
            let ghost front = decls_view(list.tokens@);
            let shim_name = joined("__toObject", list.list_ident.as_str());
            let view_type = joined(list.item_ident.as_str(), "Object");
            let js = write_shim_js(shim_name.as_str(), OBJECT_DRAIN);
            let mut parameters = joined("list: ", list.list_ident.as_str());
            parameters.append(", key_property: &str");
            let binding = shim_binding(
                js.as_str(),
                typescript_type.as_str(),
                view_type.as_str(),
                shim_name.as_str(),
                parameters.as_str(),
            );
            let method = into_js_object(
                list.list_ident.as_str(),
                view_type.as_str(),
                shim_name.as_str(),
            );
            let mut declarations = list.tokens;
            declarations.push(binding);
            declarations.push(method);
            proof {
                assert(decls_view(declarations@) =~= front + object_bridge_decls(
                    spec,
                    typescript_type@,
                ));
            }
            Ok(GeneratedArtifact { declarations })
        },
        Err(error) => Err(error),
    }
}

} // verus!
