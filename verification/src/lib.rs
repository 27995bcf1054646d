//! User-defined SQL functions and collations: the values functions exchange with the engine, the
//! table they are registered in, and the rules of every layer that lets a host language supply one.

use vstd::prelude::*;

pub mod application_laws;
pub mod auxdata;
pub mod capi_context;
pub mod capi_context_laws;
pub mod capi_function;
pub mod capi_function_laws;
pub mod capi_handle;
pub mod capi_handle_laws;
pub mod capi_value;
pub mod capi_value_laws;
pub mod closures;
pub mod collation;
pub mod collation_laws;
pub mod context;
pub mod context_laws;
pub mod dynamic;
pub mod dynamic_laws;
pub mod error;
pub mod ext_adapter;
pub mod extension;
pub mod extension_laws;
pub mod flags;
pub mod function;
pub mod java;
pub mod java_laws;
pub mod javascript;
pub mod javascript_laws;
pub mod numeric;
pub mod numeric_laws;
pub mod python;
pub mod python_laws;
pub mod registration_laws;
pub mod registry;
pub mod registry_laws;
pub mod rust_api;
pub mod script_laws;
pub mod table;
pub mod table_laws;
pub mod tag;
pub mod text;
pub mod turns;
pub mod utf16;
pub mod utf16_laws;
pub mod value;
pub mod value_laws;

verus! {

}
