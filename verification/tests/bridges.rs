use wasm_bindgen_helper_macros::artifact::{DeclKind, GeneratedArtifact, OutputDecl};
use wasm_bindgen_helper_macros::error::BridgeError;
use wasm_bindgen_helper_macros::listlike::{build_listlike, listlike_impl};
use wasm_bindgen_helper_macros::parser::ListLikeSpec;
use wasm_bindgen_helper_macros::syntax::{
    Attribute, Data, Declaration, Field, Fields, GenericArgument, Generics, PathArguments,
    PathSegment, Type, TypePath,
};
use wasm_bindgen_helper_macros::ts_enum::ts_enum_impl;
use wasm_bindgen_helper_macros::wrapper_list::wrapper_list_impl;
use wasm_bindgen_helper_macros::wrapper_map::wrapper_map_impl;
use wasm_bindgen_helper_macros::{ts_enum, wrapper_list, wrapper_map};

const STRUCT_OF_PAIRS: &str =
    "pub struct ListOfPairs { inner: ::std::vec::IntoIter<PairOfNumbers>, }";
const FROM_PAIRS: &str = "impl ::std::convert::From<::std::vec::Vec<PairOfNumbers>> for ListOfPairs { fn from(vec: ::std::vec::Vec<PairOfNumbers>) -> ListOfPairs { ListOfPairs { inner: vec.into_iter() } } }";
const NEXT_PAIR: &str = "#[wasm_bindgen] impl ListOfPairs { #[allow(clippy::should_implement_trait)] pub fn next(&mut self) -> ::std::option::Option<PairOfNumbers> { self.inner.next() } }";
const ARRAY_BINDING: &str = "#[wasm_bindgen(inline_js = \"function __toArrayListOfPairs(wasmList) { const items = []; while (true) { const item = wasmList.next(); if (item === undefined) { return items; } items.push(item); } } module.exports = { __toArrayListOfPairs }\")] extern \"C\" { #[wasm_bindgen(typescript_type = \"PairOfNumbers[]\")] pub type PairOfNumbersArray; pub(crate) fn __toArrayListOfPairs(list: ListOfPairs) -> PairOfNumbersArray; }";
const ARRAY_METHOD: &str = "#[wasm_bindgen] impl ListOfPairs { pub(crate) fn into_js_array(self) -> PairOfNumbersArray { __toArrayListOfPairs(self) } }";
const OBJECT_BINDING: &str = "#[wasm_bindgen(inline_js = \"function __toObjectListOfPairs(wasmMap, keyProperty) { const object = {}; while (true) { const value = wasmMap.next(); if (value === undefined) { return object; } const key = value[keyProperty]; object[key] = value; } } module.exports = { __toObjectListOfPairs }\")] extern \"C\" { #[wasm_bindgen(typescript_type = \"{[left: number]: PairOfNumbers}\")] pub type PairOfNumbersObject; pub(crate) fn __toObjectListOfPairs(list: ListOfPairs, key_property: &str) -> PairOfNumbersObject; }";
const OBJECT_METHOD: &str = "#[wasm_bindgen] impl ListOfPairs { pub(crate) fn into_js_object(self, key_property: &str) -> PairOfNumbersObject { __toObjectListOfPairs(self, key_property) } }";
const ENUM_BINDING: &str = "#[wasm_bindgen(inline_js = \"function __reinterpretColour(thing) { return thing; } module.exports = { __reinterpretColour }\")] extern \"C\" { #[wasm_bindgen(typescript_type = \"Colour\")] pub type ColourEnum; pub(crate) fn __reinterpretColour(thing: u32) -> ColourEnum; }";
const ENUM_METHOD: &str =
    "impl Colour { pub(crate) fn into_js_enum(self) -> ColourEnum { __reinterpretColour(self as u32) } }";

fn attribute(path: &[&str], tokens: &str) -> Attribute {
    Attribute { path: path.iter().map(|s| s.to_string()).collect(), tokens: tokens.to_string() }
}

fn list_of_pairs(attrs: Vec<Attribute>) -> Declaration {
    let bare = |ident: &str| PathSegment { ident: ident.to_string(), arguments: PathArguments::Bare };
    let path = |segments| Type::Path(TypePath { qualified: false, leading_colon: false, segments });
    let item = path(vec![bare("PairOfNumbers")]);
    let ty = path(vec![
        bare("std"),
        bare("vec"),
        PathSegment {
            ident: "IntoIter".to_string(),
            arguments: PathArguments::AngleBracketed(vec![GenericArgument::Type(item)]),
        },
    ]);
    declared(
        attrs,
        "",
        "ListOfPairs",
        Data::Struct(Fields::Named(vec![Field { ident: "inner".to_string(), ty }])),
    )
}

fn declared(attrs: Vec<Attribute>, vis: &str, ident: &str, data: Data) -> Declaration {
    Declaration {
        attrs,
        vis: vis.to_string(),
        ident: ident.to_string(),
        generics: Generics { params: String::new(), where_clause: String::new() },
        data,
    }
}

fn colour(attrs: Vec<Attribute>, variants: &[&str]) -> Declaration {
    declared(attrs, "pub", "Colour", Data::Enum(variants.iter().map(|v| v.to_string()).collect()))
}

fn two_fields() -> Declaration {
    declared(
        Vec::new(),
        "pub",
        "Pair",
        Data::Struct(Fields::Named(vec![
            Field { ident: "a".to_string(), ty: Type::Other },
            Field { ident: "b".to_string(), ty: Type::Other },
        ])),
    )
}

fn decl(kind: DeclKind, text: &str) -> OutputDecl {
    OutputDecl { kind, text: text.to_string() }
}

fn with_marker(text: &str) -> String {
    format!("#[wasm_bindgen]\n{}", text)
}

#[test]
fn list_like_transform_emits_three_declarations() {
    let output = listlike_impl(list_of_pairs(vec![attribute(&["wasm_bindgen"], "")])).unwrap();
    assert_eq!(output.list_ident, "ListOfPairs");
    assert_eq!(output.item_ident, "PairOfNumbers");
    assert_eq!(
        output.tokens,
        vec![
            decl(DeclKind::WrapperStruct, &with_marker(STRUCT_OF_PAIRS)),
            decl(DeclKind::FromSequence, FROM_PAIRS),
            decl(DeclKind::SteppingOperation, NEXT_PAIR),
        ]
    );
}

#[test]
fn list_like_transform_adds_the_marker_where_it_is_absent() {
    let output = listlike_impl(list_of_pairs(Vec::new())).unwrap();
    assert_eq!(output.tokens[0], decl(DeclKind::WrapperStruct, &with_marker(STRUCT_OF_PAIRS)));
}

#[test]
fn list_like_transform_keeps_the_attributes_in_their_order() {
    let output = listlike_impl(list_of_pairs(vec![
        attribute(&["doc"], " = \" A list.\""),
        attribute(&["derive"], "(Debug)"),
    ]))
    .unwrap();
    assert_eq!(
        output.tokens[0].text,
        format!(
            "#[wasm_bindgen]\n#[doc = \" A list.\"]\n#[derive(Debug)]\n{}",
            STRUCT_OF_PAIRS
        )
    );
}

#[test]
fn list_like_build_uses_the_names_of_the_spec() {
    let spec = ListLikeSpec {
        list_name: "Names".to_string(),
        field_name: "rest".to_string(),
        item_type: "Name".to_string(),
    };
    let decls = build_listlike(&spec, &Vec::new());
    assert_eq!(
        decls,
        vec![
            decl(
                DeclKind::WrapperStruct,
                "pub struct Names { rest: ::std::vec::IntoIter<Name>, }"
            ),
            decl(
                DeclKind::FromSequence,
                "impl ::std::convert::From<::std::vec::Vec<Name>> for Names { fn from(vec: ::std::vec::Vec<Name>) -> Names { Names { rest: vec.into_iter() } } }"
            ),
            decl(
                DeclKind::SteppingOperation,
                "#[wasm_bindgen] impl Names { #[allow(clippy::should_implement_trait)] pub fn next(&mut self) -> ::std::option::Option<Name> { self.rest.next() } }"
            ),
        ]
    );
}

#[test]
fn list_like_transform_refuses_two_fields() {
    assert_eq!(listlike_impl(two_fields()), Err(BridgeError::TooManyFields));
}

#[test]
fn array_bridge_emits_five_declarations() {
    let artifact =
        wrapper_list_impl(list_of_pairs(vec![attribute(&["wasm_bindgen"], "")]), None).unwrap();
    assert_eq!(
        artifact,
        GeneratedArtifact {
            declarations: vec![
                decl(DeclKind::WrapperStruct, &with_marker(STRUCT_OF_PAIRS)),
                decl(DeclKind::FromSequence, FROM_PAIRS),
                decl(DeclKind::SteppingOperation, NEXT_PAIR),
                decl(DeclKind::ShimBinding, ARRAY_BINDING),
                decl(DeclKind::BridgingMethod, ARRAY_METHOD),
            ]
        }
    );
}

#[test]
fn array_bridge_binds_the_declared_type_name() {
    let artifact = wrapper_list_impl(
        list_of_pairs(Vec::new()),
        Some("Array<PairOfNumbers>".to_string()),
    )
    .unwrap();
    assert_eq!(
        artifact.declarations[3].text,
        ARRAY_BINDING.replace("\"PairOfNumbers[]\"", "\"Array<PairOfNumbers>\"")
    );
}

#[test]
fn array_bridge_refuses_what_the_parser_refuses() {
    assert_eq!(wrapper_list_impl(two_fields(), None), Err(BridgeError::TooManyFields));
    assert_eq!(
        wrapper_list_impl(colour(Vec::new(), &["Green"]), None),
        Err(BridgeError::MissingField)
    );
}

#[test]
fn object_bridge_emits_five_declarations() {
    let artifact = wrapper_map_impl(
        list_of_pairs(Vec::new()),
        "{[left: number]: PairOfNumbers}".to_string(),
    )
    .unwrap();
    assert_eq!(
        artifact,
        GeneratedArtifact {
            declarations: vec![
                decl(DeclKind::WrapperStruct, &with_marker(STRUCT_OF_PAIRS)),
                decl(DeclKind::FromSequence, FROM_PAIRS),
                decl(DeclKind::SteppingOperation, NEXT_PAIR),
                decl(DeclKind::ShimBinding, OBJECT_BINDING),
                decl(DeclKind::BridgingMethod, OBJECT_METHOD),
            ]
        }
    );
}

#[test]
fn object_bridge_refuses_what_the_parser_refuses() {
    assert_eq!(
        wrapper_map_impl(two_fields(), "Pairs".to_string()),
        Err(BridgeError::TooManyFields)
    );
}

#[test]
fn foreign_type_name_is_written_as_a_string_literal() {
    let artifact = wrapper_map_impl(
        list_of_pairs(Vec::new()),
        "{[key in \"a\" | \"b\\c\"]:\tPairOfNumbers}\r\n".to_string(),
    )
    .unwrap();
    assert!(artifact.declarations[3].text.contains(
        "#[wasm_bindgen(typescript_type = \"{[key in \\\"a\\\" | \\\"b\\\\c\\\"]:\\tPairOfNumbers}\\r\\n\")]"
    ));
}

#[test]
fn enum_bridge_emits_three_declarations() {
    let artifact = ts_enum_impl(
        colour(
            vec![attribute(&["wasm_bindgen"], ""), attribute(&["derive"], "(Clone, Copy)")],
            &["Green", "Blue"],
        ),
        None,
    )
    .unwrap();
    assert_eq!(
        artifact,
        GeneratedArtifact {
            declarations: vec![
                decl(
                    DeclKind::EnumDefinition,
                    "#[wasm_bindgen]\n#[derive(Clone, Copy)]\npub enum Colour { Green, Blue }"
                ),
                decl(DeclKind::ShimBinding, ENUM_BINDING),
                decl(DeclKind::BridgingMethod, ENUM_METHOD),
            ]
        }
    );
}

#[test]
fn enum_bridge_binds_the_declared_type_name() {
    let artifact = ts_enum_impl(colour(Vec::new(), &["Green"]), Some("Paint".to_string())).unwrap();
    assert_eq!(
        artifact.declarations[1].text,
        ENUM_BINDING.replace("typescript_type = \"Colour\"", "typescript_type = \"Paint\"")
    );
}

#[test]
fn enum_bridge_takes_an_enum_without_variants() {
    let artifact = ts_enum_impl(colour(Vec::new(), &[]), None).unwrap();
    assert_eq!(artifact.declarations.len(), 3);
    assert_eq!(artifact.declarations[0].text, "#[wasm_bindgen]\npub enum Colour {  }");
}

#[test]
fn enum_bridge_emits_the_enum_as_it_was_declared() {
    let private = ts_enum_impl(
        declared(Vec::new(), "", "Colour", Data::Enum(vec!["Green".to_string()])),
        None,
    )
    .unwrap();
    assert_eq!(private.declarations[0].text, "#[wasm_bindgen]\nenum Colour { Green }");
    let generic = ts_enum_impl(
        Declaration {
            attrs: Vec::new(),
            vis: "pub(crate)".to_string(),
            ident: "Tagged".to_string(),
            generics: Generics {
                params: "<T: Copy>".to_string(),
                where_clause: "where T: Default".to_string(),
            },
            data: Data::Enum(vec!["Plain".to_string(), "With(T)".to_string()]),
        },
        None,
    )
    .unwrap();
    assert_eq!(
        generic.declarations[0].text,
        "#[wasm_bindgen]\npub(crate) enum Tagged<T: Copy> where T: Default { Plain, With(T) }"
    );
}

#[test]
fn bridges_refuse_a_union() {
    let union = || declared(Vec::new(), "pub", "Either", Data::Union);
    assert_eq!(wrapper_list_impl(union(), None), Err(BridgeError::MissingField));
    assert_eq!(wrapper_map_impl(union(), "Either".to_string()), Err(BridgeError::MissingField));
    assert_eq!(ts_enum_impl(union(), None), Err(BridgeError::InvalidEnumInput));
}

#[test]
fn enum_bridge_refuses_a_struct() {
    assert_eq!(ts_enum_impl(list_of_pairs(Vec::new()), None), Err(BridgeError::InvalidEnumInput));
    assert_eq!(ts_enum(two_fields(), None), Err(BridgeError::InvalidEnumInput));
}

#[test]
fn rendering_puts_each_declaration_on_a_line() {
    let artifact = GeneratedArtifact {
        declarations: vec![
            decl(DeclKind::EnumDefinition, "pub enum A { }"),
            decl(DeclKind::BridgingMethod, "impl A { }"),
        ],
    };
    assert_eq!(artifact.render(), "pub enum A { }\nimpl A { }\n");
    assert_eq!(GeneratedArtifact { declarations: Vec::new() }.render(), "");
}

#[test]
fn array_entry_point_renders_the_bridge() {
    let text = wrapper_list(list_of_pairs(Vec::new()), None).unwrap();
    assert_eq!(
        text,
        format!(
            "#[wasm_bindgen]\n{}\n{}\n{}\n{}\n{}\n",
            STRUCT_OF_PAIRS, FROM_PAIRS, NEXT_PAIR, ARRAY_BINDING, ARRAY_METHOD
        )
    );
    assert_eq!(wrapper_list(two_fields(), None), Err(BridgeError::TooManyFields));
}

#[test]
fn object_entry_point_renders_the_bridge() {
    let text =
        wrapper_map(list_of_pairs(Vec::new()), "{[left: number]: PairOfNumbers}".to_string())
            .unwrap();
    assert_eq!(
        text,
        format!(
            "#[wasm_bindgen]\n{}\n{}\n{}\n{}\n{}\n",
            STRUCT_OF_PAIRS, FROM_PAIRS, NEXT_PAIR, OBJECT_BINDING, OBJECT_METHOD
        )
    );
    assert_eq!(
        wrapper_map(colour(Vec::new(), &[]), "Colours".to_string()),
        Err(BridgeError::MissingField)
    );
}

#[test]
fn enum_entry_point_renders_the_bridge() {
    let text = ts_enum(colour(Vec::new(), &["Green", "Blue"]), None).unwrap();
    assert_eq!(
        text,
        format!(
            "#[wasm_bindgen]\npub enum Colour {{ Green, Blue }}\n{}\n{}\n",
            ENUM_BINDING, ENUM_METHOD
        )
    );
}

#[test]
fn same_input_gives_the_same_output() {
    let first = wrapper_list(list_of_pairs(Vec::new()), None);
    let second = wrapper_list(list_of_pairs(Vec::new()), None);
    assert_eq!(first, second);
}
