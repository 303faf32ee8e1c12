//! The enum bridge: the enum as it was declared, a shim that hands a
//! discriminant back as the foreign view type, and the method that hands a
//! value's discriminant to the shim.

use crate::artifact::{decls_view, DeclKind, GeneratedArtifact, OutputDecl, OutputDeclView};
use crate::error::BridgeError;
use crate::parser::{enum_spec, parse_enum, EnumSpec, EnumSpecView};
use crate::shim::{
    declared_view, joined, shim_binding, shim_binding_text, shim_js, write_shim_js,
};
use crate::syntax::{attrs_view, texts_view, Attribute, AttributeView, Declaration};
use crate::text::{
    attributes_text, blank_before, blank_behind, push_attributes, push_blank_before,
    push_blank_behind,
};
use crate::util::{merged_attrs, parse_attrs};
use vstd::prelude::*;

verus! {

/// The parameter and the body of the shim that reinterprets a discriminant:
/// it returns what it was given. The shim changes no value; it only lets the
/// foreign side see the value under the declared type name.
pub const REINTERPRET: &'static str = "(thing) { return thing; }";

/// The name of the shim for the enum of the given name.
pub open spec fn reinterpret_shim_name(enum_name: Seq<char>) -> Seq<char> {
    "__reinterpret"@ + enum_name
}

/// The name of the foreign view type of the enum of the given name.
pub open spec fn enum_view_name(enum_name: Seq<char>) -> Seq<char> {
    enum_name + "Enum"@
}

/// The foreign type name that the view type is bound to: the one that the
/// caller declared, or else the enum's own name.
pub open spec fn enum_type_choice(declared: Option<Seq<char>>, enum_name: Seq<char>) -> Seq<
    char,
> {
    match declared {
        Some(name) => name,
        None => enum_name,
    }
}

/// The variants as they were written, with `, ` between them.
pub open spec fn variants_text(variants: Seq<Seq<char>>) -> Seq<char>
    decreases variants.len(),
{
    if variants.len() == 0 {
        Seq::empty()
    } else if variants.len() == 1 {
        variants[0]
    } else {
        variants_text(variants.drop_last()) + ", "@ + variants.last()
    }
}

/// The enum as it was declared, but for the attributes: the attributes that
/// are handed in, then the visibility, the name, the generics and the
/// variants as they were written.
pub open spec fn enum_definition_text(attrs: Seq<AttributeView>, spec: EnumSpecView) -> Seq<
    char,
> {
    attributes_text(attrs) + blank_behind(spec.vis) + "enum "@ + spec.enum_name + spec.params
        + blank_before(spec.where_clause) + " { "@ + variants_text(spec.variants) + " }"@
}

/// The method that casts a value to its discriminant and hands that to the
/// shim. It is written for the enum's bare name: a value of an enum with
/// generics cannot be cast to a number.
pub open spec fn into_js_enum_text(spec: EnumSpecView) -> Seq<char> {
    "impl "@ + spec.enum_name + " { pub(crate) fn into_js_enum(self) -> "@ + enum_view_name(
        spec.enum_name,
    ) + " { "@ + reinterpret_shim_name(spec.enum_name) + "(self as u32) } }"@
}

/// Everything that the enum bridge emits for an enum, in order: the enum,
/// the binding of the shim, and the bridging method.
pub open spec fn enum_bridge(
    attrs: Seq<AttributeView>,
    spec: EnumSpecView,
    declared: Option<Seq<char>>,
) -> Seq<OutputDeclView> {
    seq![
        (OutputDeclView {
            kind: DeclKind::EnumDefinition,
            text: enum_definition_text(merged_attrs(attrs), spec),
        }),
        (OutputDeclView {
            kind: DeclKind::ShimBinding,
            text: shim_binding_text(
                shim_js(reinterpret_shim_name(spec.enum_name), REINTERPRET@),
                enum_type_choice(declared, spec.enum_name),
                enum_view_name(spec.enum_name),
                reinterpret_shim_name(spec.enum_name),
                "thing: u32"@,
            ),
        }),
        (OutputDeclView { kind: DeclKind::BridgingMethod, text: into_js_enum_text(spec) }),
    ]
}

fn push_variants(out: &mut String, variants: &Vec<String>)
    ensures
        final(out)@ == old(out)@ + variants_text(texts_view(variants@)),
{
    let ghost before = out@;
    let ghost texts = texts_view(variants@);
    let mut i: usize = 0;
    while i < variants.len()
        invariant
            i <= variants.len(),
            texts == texts_view(variants@),
            out@ == before + variants_text(texts.take(i as int)),
        decreases variants.len() - i,
    {
        proof {
            let next = texts.take(i + 1);
            assert(next.drop_last() == texts.take(i as int));
            assert(next.last() == variants[i as int]@);
        }
        if i > 0 {
            out.append(", ");
        }
        out.append(variants[i].as_str());
        i += 1;
    }
    proof {
        assert(texts.take(variants.len() as int) == texts);
    }
}

fn enum_definition(attrs: &Vec<Attribute>, spec: &EnumSpec) -> (decl: OutputDecl)
    ensures
        decl@ == (OutputDeclView {
            kind: DeclKind::EnumDefinition,
            text: enum_definition_text(attrs_view(attrs@), spec@),
        }),
{
    let mut text = String::new();
    push_attributes(&mut text, attrs);
    push_blank_behind(&mut text, spec.vis.as_str());
    text.append("enum ");
    text.append(spec.enum_name.as_str());
    text.append(spec.generics.params.as_str());
    push_blank_before(&mut text, spec.generics.where_clause.as_str());
    text.append(" { ");
    push_variants(&mut text, &spec.variants);
    text.append(" }");
    OutputDecl { kind: DeclKind::EnumDefinition, text }
}

fn into_js_enum(enum_name: &str, view_type: &str, shim_name: &str) -> (decl: OutputDecl)
    ensures
        decl@.kind == DeclKind::BridgingMethod,
        decl@.text == "impl "@ + enum_name@ + " { pub(crate) fn into_js_enum(self) -> "@
            + view_type@ + " { "@ + shim_name@ + "(self as u32) } }"@,
{
    let mut text = String::from_str("impl ");
    text.append(enum_name);
    text.append(" { pub(crate) fn into_js_enum(self) -> ");
    text.append(view_type);
    text.append(" { ");
    text.append(shim_name);
    text.append("(self as u32) } }");
    OutputDecl { kind: DeclKind::BridgingMethod, text }
}

/// The enum bridge of a declaration. An enum, with or without variants,
/// yields the enum as it was declared, with the marker merged into its
/// attributes and nothing else changed, the binding
/// of the reinterpreting shim and the bridging method, in this order; the
/// view type is bound to `typescript_type`, or to the enum's own name where
/// none is declared. A declaration that is no enum is refused.
pub fn ts_enum_impl(input: Declaration, typescript_type: Option<String>) -> (output: Result<
    GeneratedArtifact,
    BridgeError,
>)
    ensures
        match enum_spec(input) {
            Ok(spec) => output is Ok && output->Ok_0@ == enum_bridge(
                attrs_view(input.attrs@),
                spec,
                declared_view(typescript_type),
            ),
            Err(error) => output == Err::<GeneratedArtifact, BridgeError>(error),
        },
{
    match parse_enum(&input) {
        Ok(spec) => {
            let attrs = parse_attrs(input.attrs);
            let shim_name = joined("__reinterpret", spec.enum_name.as_str());
            let view_type = joined(spec.enum_name.as_str(), "Enum");
            let foreign = match typescript_type {
                Some(name) => name,
                None => spec.enum_name.clone(),
            };
            let js = write_shim_js(shim_name.as_str(), REINTERPRET);
            let mut declarations: Vec<OutputDecl> = Vec::new();
            declarations.push(enum_definition(&attrs, &spec));
            declarations.push(
                shim_binding(
                    js.as_str(),
                    foreign.as_str(),
                    view_type.as_str(),
                    shim_name.as_str(),
                    "thing: u32",
                ),
            );
            declarations.push(
                into_js_enum(spec.enum_name.as_str(), view_type.as_str(), shim_name.as_str()),
            );
            proof {
                assert(decls_view(declarations@) =~= enum_bridge(
                    attrs_view(input.attrs@),
                    spec@,
                    declared_view(typescript_type),
                ));
            }
            Ok(GeneratedArtifact { declarations })
        },
        Err(error) => Err(error),
    }
}

} // verus!
