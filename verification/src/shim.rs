//! The binding of a foreign shim: the text of the shim, the foreign view
//! type with the foreign type name that it stands for, and the shim's
//! signature on the native side.

use crate::artifact::{DeclKind, OutputDecl, OutputDeclView};
use crate::text::{push_string_literal, string_literal};
use vstd::prelude::*;

verus! {

/// The end of every shim's text: the export of the shim under its name.
pub const EXPORT_HEAD: &'static str = " module.exports = { ";

/// The text of a shim: a function of the given name with the given
/// parameters and body, and its export.
pub open spec fn shim_js(name: Seq<char>, body: Seq<char>) -> Seq<char> {
    "function "@ + name + body + EXPORT_HEAD@ + name + " }"@
}

/// The binding of a shim: the shim's text and the foreign type name as
/// string literals, the view type, and the shim's native signature.
pub open spec fn shim_binding_text(
    js: Seq<char>,
    typescript_type: Seq<char>,
    view_type: Seq<char>,
    shim_name: Seq<char>,
    parameters: Seq<char>,
) -> Seq<char> {
    "#[wasm_bindgen(inline_js = "@ + string_literal(js) + ")] extern \"C\" { "@
        + "#[wasm_bindgen(typescript_type = "@ + string_literal(typescript_type)
        + ")] pub type "@ + view_type + "; pub(crate) fn "@ + shim_name + "("@ + parameters
        + ") -> "@ + view_type + "; }"@
}

/// The view of a foreign type name that the caller may have declared.
pub open spec fn declared_view(declared: Option<String>) -> Option<Seq<char>> {
    match declared {
        Some(name) => Some(name@),
        None => None,
    }
}

/// One text followed by another: every derived name is a fixed text before
/// or behind the name that it is derived from.
pub fn joined(first: &str, second: &str) -> (both: String)
    ensures
        both@ == first@ + second@,
{
    let mut both = String::from_str(first);
    both.append(second);
    both
}

/// Names derived in one way from two names are the same only where the two
/// names are: the fixed text before or behind a name hides nothing of it.
pub proof fn derived_names_differ(fixed: Seq<char>, first: Seq<char>, second: Seq<char>)
    ensures
        fixed + first == fixed + second ==> first == second,
        first + fixed == second + fixed ==> first == second,
{
    if fixed + first == fixed + second {
        assert((fixed + first).len() == (fixed + second).len());
        assert forall|i: int| 0 <= i < first.len() implies first[i] == second[i] by {
            assert((fixed + first)[fixed.len() + i] == first[i]);
            assert((fixed + second)[fixed.len() + i] == second[i]);
        }
        assert(first =~= second);
    }
    if first + fixed == second + fixed {
        assert((first + fixed).len() == (second + fixed).len());
        assert forall|i: int| 0 <= i < first.len() implies first[i] == second[i] by {
            assert((first + fixed)[i] == first[i]);
            assert((second + fixed)[i] == second[i]);
        }
        assert(first =~= second);
    }
}

/// Writes the text of a shim.
pub fn write_shim_js(name: &str, body: &str) -> (js: String)
    ensures
        js@ == shim_js(name@, body@),
{
    let mut js = String::from_str("function ");
    js.append(name);
    js.append(body);
    js.append(EXPORT_HEAD);
    js.append(name);
    js.append(" }");
    js
}

/// Emits the binding of a shim.
pub fn shim_binding(
    js: &str,
    typescript_type: &str,
    view_type: &str,
    shim_name: &str,
    parameters: &str,
) -> (decl: OutputDecl)
    ensures
        decl@ == (OutputDeclView {
            kind: DeclKind::ShimBinding,
            text: shim_binding_text(
                js@,
                typescript_type@,
                view_type@,
                shim_name@,
                parameters@,
            ),
        }),
{
    let mut text = String::from_str("#[wasm_bindgen(inline_js = ");
    push_string_literal(&mut text, js);
    text.append(")] extern \"C\" { ");
    text.append("#[wasm_bindgen(typescript_type = ");
    push_string_literal(&mut text, typescript_type);
    text.append(")] pub type ");
    text.append(view_type);
    text.append("; pub(crate) fn ");
    text.append(shim_name);
    text.append("(");
    text.append(parameters);
    text.append(") -> ");
    text.append(view_type);
    text.append("; }");
    OutputDecl { kind: DeclKind::ShimBinding, text }
}

} // verus!
