//! Binding generator core: the model of native types and of their
//! foreign-call form, the database of generated items, and the synthesis of
//! wrapper code from it.

pub mod cpp_code;
pub mod cpp_data;
pub mod cpp_ffi_data;
pub mod cpp_type;
pub mod database;
pub mod errors;
pub mod processor;
pub mod rust_code_generator;
pub mod rust_info;
pub mod rust_name_resolver;
pub mod rust_type;
pub mod text;
pub mod type_allocation_places;
