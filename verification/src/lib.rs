//! Bridges from type declarations to a foreign runtime that knows values
//! only as opaque handles under declared type names. A bridge reads a
//! declaration and emits what presents an enum, a sequence or a keyed
//! collection to the foreign side under a precise type: new declarations,
//! the binding of a foreign shim, and a bridging method.

use vstd::prelude::*;

pub mod artifact;
pub mod error;
pub mod listlike;
pub mod parser;
pub mod runtime;
pub mod shim;
pub mod syntax;
pub mod text;
pub mod ts_enum;
pub mod util;
pub mod wrapper_list;
pub mod wrapper_map;

use crate::artifact::rendered;
use crate::error::BridgeError;
use crate::parser::{enum_spec, listlike_spec};
use crate::syntax::{attrs_view, Declaration};
use crate::ts_enum::{enum_bridge, ts_enum_impl};
use crate::shim::declared_view;
use crate::wrapper_list::{array_bridge, wrapper_list_impl};
use crate::wrapper_map::{object_bridge, wrapper_map_impl};

verus! {

/// Wraps a vector of items into a new type and bridges it to a foreign
/// array: the text that stands for the invocation, which is the rendering of
/// what the array bridge emits, or the reason why the declaration is
/// refused.
pub fn wrapper_list(input: Declaration, typescript_type: Option<String>) -> (output: Result<
    String,
    BridgeError,
>)
    ensures
        match listlike_spec(input) {
            Ok(spec) => output is Ok && output->Ok_0@ == rendered(
                array_bridge(attrs_view(input.attrs@), spec, declared_view(typescript_type)),
            ),
            Err(error) => output == Err::<String, BridgeError>(error),
        },
{
    match wrapper_list_impl(input, typescript_type) {
        Ok(artifact) => Ok(artifact.render()),
        Err(error) => Err(error),
    }
}

/// Wraps a vector of items into a new type and bridges it to a foreign
/// record keyed by a property of the items: the text that stands for the
/// invocation, which is the rendering of what the object bridge emits, or
/// the reason why the declaration is refused.
pub fn wrapper_map(input: Declaration, typescript_type: String) -> (output: Result<
    String,
    BridgeError,
>)
    ensures
        match listlike_spec(input) {
            Ok(spec) => output is Ok && output->Ok_0@ == rendered(
                object_bridge(attrs_view(input.attrs@), spec, typescript_type@),
            ),
            Err(error) => output == Err::<String, BridgeError>(error),
        },
{
    match wrapper_map_impl(input, typescript_type) {
        Ok(artifact) => Ok(artifact.render()),
        Err(error) => Err(error),
    }
}

/// Bridges an enum to a named foreign type: the text that stands for the
/// invocation, which is the rendering of what the enum bridge emits, or the
/// reason why the declaration is refused.
pub fn ts_enum(input: Declaration, typescript_type: Option<String>) -> (output: Result<
    String,
    BridgeError,
>)
    ensures
        match enum_spec(input) {
            Ok(spec) => output is Ok && output->Ok_0@ == rendered(
                enum_bridge(attrs_view(input.attrs@), spec, declared_view(typescript_type)),
            ),
            Err(error) => output == Err::<String, BridgeError>(error),
        },
{
    match ts_enum_impl(input, typescript_type) {
        Ok(artifact) => Ok(artifact.render()),
        Err(error) => Err(error),
    }
}

} // verus!
