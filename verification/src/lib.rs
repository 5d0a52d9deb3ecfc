//! A cross-language type bridge and reflection-metadata generator.
//!
//! The crate lowers a language-neutral type representation to concrete
//! target-language syntax through a pluggable per-language registry, emits
//! field declarations and reflection-metadata tables for struct definitions,
//! and models runtime values as traversable reflection trees.

mod casing;
mod emit;
mod ir;
mod json;
mod models;
mod reflect;
mod registry;
mod resolve;
mod samples;
mod text;

pub use casing::to_camel_case;
pub use casing::to_pascal_case;
pub use casing::to_snake_case;
pub use emit::Emitted;
pub use emit::FieldMeta;
pub use emit::emit;
pub use emit::generate_cpp_fields;
pub use emit::generate_cpp_header;
pub use emit::generate_cpp_struct;
pub use emit::generate_cpp_struct_and_tuple;
pub use ir::FieldAttr;
pub use ir::FieldDef;
pub use ir::MetaError;
pub use ir::RegistryValidationFailure;
pub use ir::ResolveError;
pub use ir::StructDef;
pub use ir::TypeIR;
pub use json::generate_prag_json_struct;
pub use json::module_json;
pub use json::module_json_pretty;
pub use json::rust_type_to_prag_json;
pub use models::Address;
pub use models::Company;
pub use models::Contactinfo;
pub use models::Person;
pub use models::Project;
pub use models::User;
pub use reflect::FieldTuple;
pub use reflect::FieldValue;
pub use reflect::PrimValue;
pub use reflect::ReflectionArena;
pub use reflect::eq_meta;
pub use reflect::hash_meta;
pub use reflect::render_meta;
pub use registry::CaseStyle;
pub use registry::ComplexMapping;
pub use registry::Language;
pub use registry::LanguageInfo;
pub use registry::LanguageTypeRegistry;
pub use registry::NamingConventions;
pub use registry::StandardMapping;
pub use registry::TypeMapping;
pub use registry::cpp_type_registry;
pub use registry::language_registry;
pub use registry::lookup;
pub use registry::register_cpp_language;
pub use resolve::cpp_type;
pub use resolve::rust_type_to_cpp;
pub use resolve::validate_struct;
pub use samples::Athlete;
pub use samples::Meet;
pub use samples::Team;
pub use samples::athlete_struct_def;
