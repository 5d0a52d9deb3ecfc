//! Per-target-language registries: primitive-name and generic-constructor
//! tables, identifier-casing conventions, and the built-in language set.
//!
//! A registry is built once and read-only thereafter; adding a target
//! language means supplying a new registry, not changing the resolver.

use vstd::prelude::*;
use vstd::string::StringExecFns;

use crate::casing::spec_camel;
use crate::casing::spec_pascal;
use crate::casing::spec_snake;
use crate::casing::to_camel_case;
use crate::casing::to_pascal_case;
use crate::casing::to_snake_case;
use crate::text::str_eq;

verus! {

/// How one primitive name or generic constructor is rendered: the target
/// syntax (a template with `{0}`…`{n}` or `{...}` slots for generics) and
/// the literal used to default-initialize a value of the type.
#[derive(Clone, Debug)]
pub struct TypeMapping {
    pub target: String,
    pub default_value: String,
}

/// The templates of the built-in generic constructors, used to assemble a
/// registry's generic table.
#[derive(Clone, Debug)]
pub struct ComplexMapping {
    pub vector: String,
    pub optional: String,
    pub map: String,
    pub tuple: String,
    pub set: String,
}

/// The rendering of standard library types outside the primitive vocabulary.
#[derive(Clone, Debug)]
pub struct StandardMapping {
    pub datetime: String,
}

/// An identifier-casing rule.
#[derive(Clone, Copy, Debug, PartialEq, Eq, Structural)]
pub enum CaseStyle {
    Pascal,
    Camel,
    Snake,
    Preserve,
}

/// The casing rules of one target language.
#[derive(Clone, Copy, Debug, PartialEq, Eq, Structural)]
pub struct NamingConventions {
    pub class_name: CaseStyle,
    pub private_member: CaseStyle,
    pub public_member: CaseStyle,
    pub getter_name: CaseStyle,
}

/// The type tables of one target language: primitive name to rendering, and
/// generic constructor name to template. Lookup takes the first entry whose
/// key matches.
#[derive(Clone, Debug)]
pub struct LanguageTypeRegistry {
    pub primitives: Vec<(String, TypeMapping)>,
    pub generics: Vec<(String, TypeMapping)>,
}

/// Everything the emitter needs to know about one target language.
#[derive(Clone, Debug)]
pub struct LanguageInfo {
    pub name: String,
    pub file_ext: String,
    pub comment_style: String,
    pub types: LanguageTypeRegistry,
    pub naming: NamingConventions,
}

/// A built-in target language.
#[derive(Clone, Copy, Debug, PartialEq, Eq, Hash, Structural)]
pub enum Language {
    Cpp26,
    Python,
    Rust,
    Typescript,
    Go,
}

/// The first mapping stored under `name`, if any.
pub open spec fn spec_lookup(entries: Seq<(String, TypeMapping)>, name: Seq<char>) -> Option<
    TypeMapping,
>
    decreases entries.len(),
{
    if entries.len() == 0 {
        None
    } else if entries[0].0@ == name {
        Some(entries[0].1)
    } else {
        spec_lookup(entries.skip(1), name)
    }
}

/// Looks `name` up in a registry table.
pub fn lookup<'a>(entries: &'a Vec<(String, TypeMapping)>, name: &str) -> (r: Option<
    &'a TypeMapping,
>)
    ensures
        match r {
            Some(m) => spec_lookup(entries@, name@) == Some(*m),
            None => spec_lookup(entries@, name@) is None,
        },
{
    let n = entries.len();
    let mut i: usize = 0;
    proof {
        assert(entries@.skip(0) =~= entries@);
    }
    while i < n
        invariant
            i <= n,
            n == entries@.len(),
            spec_lookup(entries@.skip(i as int), name@) == spec_lookup(entries@, name@),
        decreases n - i,
    {
        proof {
            assert(entries@.skip(i as int)[0] == entries@[i as int]);
            assert(entries@.skip(i as int).skip(1) =~= entries@.skip(i as int + 1));
        }
        if str_eq(entries[i].0.as_str(), name) {
            return Some(&entries[i].1);
        }
        i = i + 1;
    }
    proof {
        assert(entries@.skip(n as int) =~= Seq::<(String, TypeMapping)>::empty());
    }
    None
}

/// The casing function a `CaseStyle` stands for.
pub open spec fn spec_apply_case(style: CaseStyle, s: Seq<char>) -> Seq<char> {
    match style {
        CaseStyle::Pascal => spec_pascal(s),
        CaseStyle::Camel => spec_camel(s),
        CaseStyle::Snake => spec_snake(s),
        CaseStyle::Preserve => s,
    }
}

/// Applies a casing rule to an identifier.
pub fn apply_case(style: CaseStyle, s: &str) -> (r: String)
    ensures
        r@ == spec_apply_case(style, s@),
{
    match style {
        CaseStyle::Pascal => to_pascal_case(s),
        CaseStyle::Camel => to_camel_case(s),
        CaseStyle::Snake => to_snake_case(s),
        CaseStyle::Preserve => String::from_str(s),
    }
}

/// One table entry has the given key, target syntax and default literal.
pub open spec fn entry_is(
    e: (String, TypeMapping),
    key: Seq<char>,
    target: Seq<char>,
    default_value: Seq<char>,
) -> bool {
    &&& e.0@ == key
    &&& e.1.target@ == target
    &&& e.1.default_value@ == default_value
}

fn entry(key: &str, target: &str, default_value: &str) -> (r: (String, TypeMapping))
    ensures
        entry_is(r, key@, target@, default_value@),
{
    (
        String::from_str(key),
        TypeMapping { target: String::from_str(target), default_value: String::from_str(
            default_value,
        ) },
    )
}

/// The exact content of the C++ type registry.
pub open spec fn is_cpp_type_registry(r: LanguageTypeRegistry) -> bool {
    &&& r.primitives@.len() == 13
    &&& entry_is(r.primitives@[0], "bool"@, "bool"@, "{}"@)
    &&& entry_is(r.primitives@[1], "String"@, "std::string"@, "{}"@)
    &&& entry_is(r.primitives@[2], "f32"@, "float"@, "{}"@)
    &&& entry_is(r.primitives@[3], "f64"@, "double"@, "{}"@)
    &&& entry_is(r.primitives@[4], "i8"@, "int8_t"@, "{}"@)
    &&& entry_is(r.primitives@[5], "u8"@, "uint8_t"@, "{}"@)
    &&& entry_is(r.primitives@[6], "i16"@, "int16_t"@, "{}"@)
    &&& entry_is(r.primitives@[7], "u16"@, "uint16_t"@, "{}"@)
    &&& entry_is(r.primitives@[8], "i32"@, "int32_t"@, "{}"@)
    &&& entry_is(r.primitives@[9], "u32"@, "uint32_t"@, "{}"@)
    &&& entry_is(r.primitives@[10], "i64"@, "int64_t"@, "{}"@)
    &&& entry_is(r.primitives@[11], "u64"@, "uint64_t"@, "{}"@)
    &&& entry_is(r.primitives@[12], "datetime"@, "std::chrono::system_clock::time_point"@, "{}"@)
    &&& r.generics@.len() == 5
    &&& entry_is(r.generics@[0], "Vec"@, "std::vector<{0}>"@, "{}"@)
    &&& entry_is(r.generics@[1], "Option"@, "std::optional<{0}>"@, "{}"@)
    &&& entry_is(r.generics@[2], "HashMap"@, "std::map<{0}, {1}>"@, "{}"@)
    &&& entry_is(r.generics@[3], "HashSet"@, "std::set<{0}>"@, "{}"@)
    &&& entry_is(r.generics@[4], "tuple"@, "std::tuple<{...}>"@, "{}"@)
}

/// The C++ type registry: Rust-named primitives to C++ syntax, plus the
/// generic containers.
pub fn cpp_type_registry() -> (r: LanguageTypeRegistry)
    ensures
        is_cpp_type_registry(r),
{
    let standard = StandardMapping {
        datetime: String::from_str("std::chrono::system_clock::time_point"),
    };
    let complex = ComplexMapping {
        vector: String::from_str("std::vector<{0}>"),
        optional: String::from_str("std::optional<{0}>"),
        map: String::from_str("std::map<{0}, {1}>"),
        tuple: String::from_str("std::tuple<{...}>"),
        set: String::from_str("std::set<{0}>"),
    };
    let mut primitives: Vec<(String, TypeMapping)> = Vec::new();
    primitives.push(entry("bool", "bool", "{}"));
    primitives.push(entry("String", "std::string", "{}"));
    primitives.push(entry("f32", "float", "{}"));
    primitives.push(entry("f64", "double", "{}"));
    primitives.push(entry("i8", "int8_t", "{}"));
    primitives.push(entry("u8", "uint8_t", "{}"));
    primitives.push(entry("i16", "int16_t", "{}"));
    primitives.push(entry("u16", "uint16_t", "{}"));
    primitives.push(entry("i32", "int32_t", "{}"));
    primitives.push(entry("u32", "uint32_t", "{}"));
    primitives.push(entry("i64", "int64_t", "{}"));
    primitives.push(entry("u64", "uint64_t", "{}"));
    primitives.push(
        (
            String::from_str("datetime"),
            TypeMapping { target: standard.datetime, default_value: String::from_str("{}") },
        ),
    );
    let mut generics: Vec<(String, TypeMapping)> = Vec::new();
    generics.push(
        (
            String::from_str("Vec"),
            TypeMapping { target: complex.vector, default_value: String::from_str("{}") },
        ),
    );
    generics.push(
        (
            String::from_str("Option"),
            TypeMapping { target: complex.optional, default_value: String::from_str("{}") },
        ),
    );
    generics.push(
        (
            String::from_str("HashMap"),
            TypeMapping { target: complex.map, default_value: String::from_str("{}") },
        ),
    );
    generics.push(
        (
            String::from_str("HashSet"),
            TypeMapping { target: complex.set, default_value: String::from_str("{}") },
        ),
    );
    generics.push(
        (
            String::from_str("tuple"),
            TypeMapping { target: complex.tuple, default_value: String::from_str("{}") },
        ),
    );
    LanguageTypeRegistry { primitives, generics }
}

/// The naming conventions of the C++ target.
pub open spec fn cpp_naming() -> NamingConventions {
    NamingConventions {
        class_name: CaseStyle::Pascal,
        private_member: CaseStyle::Snake,
        public_member: CaseStyle::Camel,
        getter_name: CaseStyle::Pascal,
    }
}

/// Registers the C++ target language: its type registry together with its
/// name and naming conventions.
pub fn register_cpp_language() -> (r: LanguageInfo)
    ensures
        r.name@ == "CPP26"@,
        r.file_ext@ == "hpp"@,
        r.comment_style@ == "//"@,
        is_cpp_type_registry(r.types),
        r.naming == cpp_naming(),
{
    LanguageInfo {
        name: String::from_str("CPP26"),
        file_ext: String::from_str("hpp"),
        comment_style: String::from_str("//"),
        types: cpp_type_registry(),
        naming: NamingConventions {
            class_name: CaseStyle::Pascal,
            private_member: CaseStyle::Snake,
            public_member: CaseStyle::Camel,
            getter_name: CaseStyle::Pascal,
        },
    }
}

/// The naming conventions that keep identifiers as they stand.
pub open spec fn preserve_naming() -> NamingConventions {
    NamingConventions {
        class_name: CaseStyle::Preserve,
        private_member: CaseStyle::Preserve,
        public_member: CaseStyle::Preserve,
        getter_name: CaseStyle::Preserve,
    }
}

fn preserve_naming_exec() -> (r: NamingConventions)
    ensures
        r == preserve_naming(),
{
    NamingConventions {
        class_name: CaseStyle::Preserve,
        private_member: CaseStyle::Preserve,
        public_member: CaseStyle::Preserve,
        getter_name: CaseStyle::Preserve,
    }
}

/// The exact content of the C++ language entry of the built-in registry,
/// keyed by the neutral vocabulary.
pub open spec fn is_cpp26_info(r: LanguageInfo) -> bool {
    &&& r.name@ == "Cpp26"@
    &&& r.file_ext@ == "hpp"@
    &&& r.comment_style@ == "//"@
    &&& r.naming == preserve_naming()
    &&& r.types.primitives@.len() == 13
    &&& entry_is(r.types.primitives@[0], "bool"@, "bool"@, "{}"@)
    &&& entry_is(r.types.primitives@[1], "int8"@, "int8_t"@, "{}"@)
    &&& entry_is(r.types.primitives@[2], "uint8"@, "uint8_t"@, "{}"@)
    &&& entry_is(r.types.primitives@[3], "int16"@, "int16_t"@, "{}"@)
    &&& entry_is(r.types.primitives@[4], "uint16"@, "uint16_t"@, "{}"@)
    &&& entry_is(r.types.primitives@[5], "int32"@, "int32_t"@, "{}"@)
    &&& entry_is(r.types.primitives@[6], "uint32"@, "uint32_t"@, "{}"@)
    &&& entry_is(r.types.primitives@[7], "int64"@, "int64_t"@, "{}"@)
    &&& entry_is(r.types.primitives@[8], "uint64"@, "uint64_t"@, "{}"@)
    &&& entry_is(r.types.primitives@[9], "float32"@, "float"@, "{}"@)
    &&& entry_is(r.types.primitives@[10], "float64"@, "double"@, "{}"@)
    &&& entry_is(r.types.primitives@[11], "string"@, "std::string"@, "{}"@)
    &&& entry_is(r.types.primitives@[12], "bytes"@, "std::vector<uint8_t>"@, "{}"@)
    &&& r.types.generics@.len() == 8
    &&& entry_is(r.types.generics@[0], "list"@, "std::vector<{0}>"@, "{}"@)
    &&& entry_is(r.types.generics@[1], "map"@, "std::map<{0}, {1}>"@, "{}"@)
    &&& entry_is(r.types.generics@[2], "set"@, "std::set<{0}>"@, "{}"@)
    &&& entry_is(r.types.generics@[3], "optional"@, "std::optional<{0}>"@, "std::nullopt"@)
    &&& entry_is(r.types.generics@[4], "tuple"@, "std::tuple<{...}>"@, "{}"@)
    &&& entry_is(r.types.generics@[5], "variant"@, "std::variant<{...}>"@, "{}"@)
    &&& entry_is(r.types.generics@[6], "unique_ptr"@, "std::unique_ptr<{0}>"@, "nullptr"@)
    &&& entry_is(r.types.generics@[7], "shared_ptr"@, "std::shared_ptr<{0}>"@, "nullptr"@)
}

fn cpp26_language_info() -> (r: LanguageInfo)
    ensures
        is_cpp26_info(r),
{
    let mut primitives: Vec<(String, TypeMapping)> = Vec::new();
    primitives.push(entry("bool", "bool", "{}"));
    primitives.push(entry("int8", "int8_t", "{}"));
    primitives.push(entry("uint8", "uint8_t", "{}"));
    primitives.push(entry("int16", "int16_t", "{}"));
    primitives.push(entry("uint16", "uint16_t", "{}"));
    primitives.push(entry("int32", "int32_t", "{}"));
    primitives.push(entry("uint32", "uint32_t", "{}"));
    primitives.push(entry("int64", "int64_t", "{}"));
    primitives.push(entry("uint64", "uint64_t", "{}"));
    primitives.push(entry("float32", "float", "{}"));
    primitives.push(entry("float64", "double", "{}"));
    primitives.push(entry("string", "std::string", "{}"));
    primitives.push(entry("bytes", "std::vector<uint8_t>", "{}"));
    let mut generics: Vec<(String, TypeMapping)> = Vec::new();
    generics.push(entry("list", "std::vector<{0}>", "{}"));
    generics.push(entry("map", "std::map<{0}, {1}>", "{}"));
    generics.push(entry("set", "std::set<{0}>", "{}"));
    generics.push(entry("optional", "std::optional<{0}>", "std::nullopt"));
    generics.push(entry("tuple", "std::tuple<{...}>", "{}"));
    generics.push(entry("variant", "std::variant<{...}>", "{}"));
    generics.push(entry("unique_ptr", "std::unique_ptr<{0}>", "nullptr"));
    generics.push(entry("shared_ptr", "std::shared_ptr<{0}>", "nullptr"));
    LanguageInfo {
        name: String::from_str("Cpp26"),
        file_ext: String::from_str("hpp"),
        comment_style: String::from_str("//"),
        types: LanguageTypeRegistry { primitives, generics },
        naming: preserve_naming_exec(),
    }
}

/// The exact content of the Python entry of the built-in registry.
pub open spec fn is_python_info(r: LanguageInfo) -> bool {
    &&& r.name@ == "Python"@
    &&& r.file_ext@ == "py"@
    &&& r.comment_style@ == "#"@
    &&& r.naming == preserve_naming()
    &&& r.types.primitives@.len() == 13
    &&& entry_is(r.types.primitives@[0], "bool"@, "bool"@, "False"@)
    &&& entry_is(r.types.primitives@[1], "int8"@, "int"@, "0"@)
    &&& entry_is(r.types.primitives@[2], "uint8"@, "int"@, "0"@)
    &&& entry_is(r.types.primitives@[3], "int16"@, "int"@, "0"@)
    &&& entry_is(r.types.primitives@[4], "uint16"@, "int"@, "0"@)
    &&& entry_is(r.types.primitives@[5], "int32"@, "int"@, "0"@)
    &&& entry_is(r.types.primitives@[6], "uint32"@, "int"@, "0"@)
    &&& entry_is(r.types.primitives@[7], "int64"@, "int"@, "0"@)
    &&& entry_is(r.types.primitives@[8], "uint64"@, "int"@, "0"@)
    &&& entry_is(r.types.primitives@[9], "float32"@, "float"@, "0.0"@)
    &&& entry_is(r.types.primitives@[10], "float64"@, "float"@, "0.0"@)
    &&& entry_is(r.types.primitives@[11], "string"@, "str"@, "\"\""@)
    &&& entry_is(r.types.primitives@[12], "bytes"@, "bytes"@, "b''"@)
    &&& r.types.generics@.len() == 6
    &&& entry_is(r.types.generics@[0], "list"@, "list[{0}]"@, "[]"@)
    &&& entry_is(r.types.generics@[1], "map"@, "dict[{0}, {1}]"@, "{}"@)
    &&& entry_is(r.types.generics@[2], "set"@, "set[{0}]"@, "set()"@)
    &&& entry_is(r.types.generics@[3], "optional"@, "Optional[{0}]"@, "None"@)
    &&& entry_is(r.types.generics@[4], "tuple"@, "tuple[{...}]"@, "()"@)
    &&& entry_is(r.types.generics@[5], "variant"@, "Union[{...}]"@, "None"@)
}

fn python_language_info() -> (r: LanguageInfo)
    ensures
        is_python_info(r),
{
    let mut primitives: Vec<(String, TypeMapping)> = Vec::new();
    primitives.push(entry("bool", "bool", "False"));
    primitives.push(entry("int8", "int", "0"));
    primitives.push(entry("uint8", "int", "0"));
    primitives.push(entry("int16", "int", "0"));
    primitives.push(entry("uint16", "int", "0"));
    primitives.push(entry("int32", "int", "0"));
    primitives.push(entry("uint32", "int", "0"));
    primitives.push(entry("int64", "int", "0"));
    primitives.push(entry("uint64", "int", "0"));
    primitives.push(entry("float32", "float", "0.0"));
    primitives.push(entry("float64", "float", "0.0"));
    primitives.push(entry("string", "str", "\"\""));
    primitives.push(entry("bytes", "bytes", "b''"));
    let mut generics: Vec<(String, TypeMapping)> = Vec::new();
    generics.push(entry("list", "list[{0}]", "[]"));
    generics.push(entry("map", "dict[{0}, {1}]", "{}"));
    generics.push(entry("set", "set[{0}]", "set()"));
    generics.push(entry("optional", "Optional[{0}]", "None"));
    generics.push(entry("tuple", "tuple[{...}]", "()"));
    generics.push(entry("variant", "Union[{...}]", "None"));
    LanguageInfo {
        name: String::from_str("Python"),
        file_ext: String::from_str("py"),
        comment_style: String::from_str("#"),
        types: LanguageTypeRegistry { primitives, generics },
        naming: preserve_naming_exec(),
    }
}

/// The exact content of the Rust entry of the built-in registry.
pub open spec fn is_rust_info(r: LanguageInfo) -> bool {
    &&& r.name@ == "Rust"@
    &&& r.file_ext@ == "rs"@
    &&& r.comment_style@ == "//"@
    &&& r.naming == preserve_naming()
    &&& r.types.primitives@.len() == 13
    &&& entry_is(r.types.primitives@[0], "bool"@, "bool"@, "false"@)
    &&& entry_is(r.types.primitives@[1], "int8"@, "i8"@, "0"@)
    &&& entry_is(r.types.primitives@[2], "uint8"@, "u8"@, "0"@)
    &&& entry_is(r.types.primitives@[3], "int16"@, "i16"@, "0"@)
    &&& entry_is(r.types.primitives@[4], "uint16"@, "u16"@, "0"@)
    &&& entry_is(r.types.primitives@[5], "int32"@, "i32"@, "0"@)
    &&& entry_is(r.types.primitives@[6], "uint32"@, "u32"@, "0"@)
    &&& entry_is(r.types.primitives@[7], "int64"@, "i64"@, "0"@)
    &&& entry_is(r.types.primitives@[8], "uint64"@, "u64"@, "0"@)
    &&& entry_is(r.types.primitives@[9], "float32"@, "f32"@, "0.0"@)
    &&& entry_is(r.types.primitives@[10], "float64"@, "f64"@, "0.0"@)
    &&& entry_is(r.types.primitives@[11], "string"@, "String"@, "String::new()"@)
    &&& entry_is(r.types.primitives@[12], "bytes"@, "Vec<u8>"@, "Vec::new()"@)
    &&& r.types.generics@.len() == 9
    &&& entry_is(r.types.generics@[0], "list"@, "Vec<{0}>"@, "Vec::new()"@)
    &&& entry_is(r.types.generics@[1], "map"@, "HashMap<{0}, {1}>"@, "HashMap::new()"@)
    &&& entry_is(r.types.generics@[2], "set"@, "HashSet<{0}>"@, "HashSet::new()"@)
    &&& entry_is(r.types.generics@[3], "optional"@, "Option<{0}>"@, "None"@)
    &&& entry_is(r.types.generics@[4], "tuple"@, "({...},)"@, "Default::default()"@)
    &&& entry_is(r.types.generics@[5], "result"@, "Result<{0}, {1}>"@, "Err(Default::default())"@)
    &&& entry_is(r.types.generics@[6], "box"@, "Box<{0}>"@, "Box::new(Default::default())"@)
    &&& entry_is(r.types.generics@[7], "rc"@, "Rc<{0}>"@, "Rc::new(Default::default())"@)
    &&& entry_is(r.types.generics@[8], "arc"@, "Arc<{0}>"@, "Arc::new(Default::default())"@)
}

fn rust_language_info() -> (r: LanguageInfo)
    ensures
        is_rust_info(r),
{
    let mut primitives: Vec<(String, TypeMapping)> = Vec::new();
    primitives.push(entry("bool", "bool", "false"));
    primitives.push(entry("int8", "i8", "0"));
    primitives.push(entry("uint8", "u8", "0"));
    primitives.push(entry("int16", "i16", "0"));
    primitives.push(entry("uint16", "u16", "0"));
    primitives.push(entry("int32", "i32", "0"));
    primitives.push(entry("uint32", "u32", "0"));
    primitives.push(entry("int64", "i64", "0"));
    primitives.push(entry("uint64", "u64", "0"));
    primitives.push(entry("float32", "f32", "0.0"));
    primitives.push(entry("float64", "f64", "0.0"));
    primitives.push(entry("string", "String", "String::new()"));
    primitives.push(entry("bytes", "Vec<u8>", "Vec::new()"));
    let mut generics: Vec<(String, TypeMapping)> = Vec::new();
    generics.push(entry("list", "Vec<{0}>", "Vec::new()"));
    generics.push(entry("map", "HashMap<{0}, {1}>", "HashMap::new()"));
    generics.push(entry("set", "HashSet<{0}>", "HashSet::new()"));
    generics.push(entry("optional", "Option<{0}>", "None"));
    generics.push(entry("tuple", "({...},)", "Default::default()"));
    generics.push(entry("result", "Result<{0}, {1}>", "Err(Default::default())"));
    generics.push(entry("box", "Box<{0}>", "Box::new(Default::default())"));
    generics.push(entry("rc", "Rc<{0}>", "Rc::new(Default::default())"));
    generics.push(entry("arc", "Arc<{0}>", "Arc::new(Default::default())"));
    LanguageInfo {
        name: String::from_str("Rust"),
        file_ext: String::from_str("rs"),
        comment_style: String::from_str("//"),
        types: LanguageTypeRegistry { primitives, generics },
        naming: preserve_naming_exec(),
    }
}

/// The exact content of the TypeScript entry of the built-in registry.
pub open spec fn is_typescript_info(r: LanguageInfo) -> bool {
    &&& r.name@ == "Typescript"@
    &&& r.file_ext@ == "ts"@
    &&& r.comment_style@ == "//"@
    &&& r.naming == preserve_naming()
    &&& r.types.primitives@.len() == 13
    &&& entry_is(r.types.primitives@[0], "bool"@, "boolean"@, "false"@)
    &&& entry_is(r.types.primitives@[1], "int8"@, "number"@, "0"@)
    &&& entry_is(r.types.primitives@[2], "uint8"@, "number"@, "0"@)
    &&& entry_is(r.types.primitives@[3], "int16"@, "number"@, "0"@)
    &&& entry_is(r.types.primitives@[4], "uint16"@, "number"@, "0"@)
    &&& entry_is(r.types.primitives@[5], "int32"@, "number"@, "0"@)
    &&& entry_is(r.types.primitives@[6], "uint32"@, "number"@, "0"@)
    &&& entry_is(r.types.primitives@[7], "int64"@, "bigint"@, "0n"@)
    &&& entry_is(r.types.primitives@[8], "uint64"@, "bigint"@, "0n"@)
    &&& entry_is(r.types.primitives@[9], "float32"@, "number"@, "0"@)
    &&& entry_is(r.types.primitives@[10], "float64"@, "number"@, "0"@)
    &&& entry_is(r.types.primitives@[11], "string"@, "string"@, "\"\""@)
    &&& entry_is(r.types.primitives@[12], "bytes"@, "Uint8Array"@, "new Uint8Array()"@)
    &&& r.types.generics@.len() == 7
    &&& entry_is(r.types.generics@[0], "list"@, "Array<{0}>"@, "[]"@)
    &&& entry_is(r.types.generics@[1], "map"@, "Map<{0}, {1}>"@, "new Map()"@)
    &&& entry_is(r.types.generics@[2], "set"@, "Set<{0}>"@, "new Set()"@)
    &&& entry_is(r.types.generics@[3], "optional"@, "{0} | null"@, "null"@)
    &&& entry_is(r.types.generics@[4], "tuple"@, "[{...}]"@, "[]"@)
    &&& entry_is(r.types.generics@[5], "union"@, "{...}"@, "null"@)
    &&& entry_is(r.types.generics@[6], "promise"@, "Promise<{0}>"@, "Promise.resolve()"@)
}

fn typescript_language_info() -> (r: LanguageInfo)
    ensures
        is_typescript_info(r),
{
    let mut primitives: Vec<(String, TypeMapping)> = Vec::new();
    primitives.push(entry("bool", "boolean", "false"));
    primitives.push(entry("int8", "number", "0"));
    primitives.push(entry("uint8", "number", "0"));
    primitives.push(entry("int16", "number", "0"));
    primitives.push(entry("uint16", "number", "0"));
    primitives.push(entry("int32", "number", "0"));
    primitives.push(entry("uint32", "number", "0"));
    primitives.push(entry("int64", "bigint", "0n"));
    primitives.push(entry("uint64", "bigint", "0n"));
    primitives.push(entry("float32", "number", "0"));
    primitives.push(entry("float64", "number", "0"));
    primitives.push(entry("string", "string", "\"\""));
    primitives.push(entry("bytes", "Uint8Array", "new Uint8Array()"));
    let mut generics: Vec<(String, TypeMapping)> = Vec::new();
    generics.push(entry("list", "Array<{0}>", "[]"));
    generics.push(entry("map", "Map<{0}, {1}>", "new Map()"));
    generics.push(entry("set", "Set<{0}>", "new Set()"));
    generics.push(entry("optional", "{0} | null", "null"));
    generics.push(entry("tuple", "[{...}]", "[]"));
    generics.push(entry("union", "{...}", "null"));
    generics.push(entry("promise", "Promise<{0}>", "Promise.resolve()"));
    LanguageInfo {
        name: String::from_str("Typescript"),
        file_ext: String::from_str("ts"),
        comment_style: String::from_str("//"),
        types: LanguageTypeRegistry { primitives, generics },
        naming: preserve_naming_exec(),
    }
}

/// The exact content of the Go entry of the built-in registry.
pub open spec fn is_go_info(r: LanguageInfo) -> bool {
    &&& r.name@ == "Go"@
    &&& r.file_ext@ == "go"@
    &&& r.comment_style@ == "//"@
    &&& r.naming == preserve_naming()
    &&& r.types.primitives@.len() == 13
    &&& entry_is(r.types.primitives@[0], "bool"@, "bool"@, "false"@)
    &&& entry_is(r.types.primitives@[1], "int8"@, "int8"@, "0"@)
    &&& entry_is(r.types.primitives@[2], "uint8"@, "uint8"@, "0"@)
    &&& entry_is(r.types.primitives@[3], "int16"@, "int16"@, "0"@)
    &&& entry_is(r.types.primitives@[4], "uint16"@, "uint16"@, "0"@)
    &&& entry_is(r.types.primitives@[5], "int32"@, "int32"@, "0"@)
    &&& entry_is(r.types.primitives@[6], "uint32"@, "uint32"@, "0"@)
    &&& entry_is(r.types.primitives@[7], "int64"@, "int64"@, "0"@)
    &&& entry_is(r.types.primitives@[8], "uint64"@, "uint64"@, "0"@)
    &&& entry_is(r.types.primitives@[9], "float32"@, "float32"@, "0.0"@)
    &&& entry_is(r.types.primitives@[10], "float64"@, "float64"@, "0.0"@)
    &&& entry_is(r.types.primitives@[11], "string"@, "string"@, "\"\""@)
    &&& entry_is(r.types.primitives@[12], "bytes"@, "[]byte"@, "nil"@)
    &&& r.types.generics@.len() == 5
    &&& entry_is(r.types.generics@[0], "list"@, "[]{0}"@, "nil"@)
    &&& entry_is(r.types.generics@[1], "map"@, "map[{0}]{1}"@, "make(map[{0}]{1})"@)
    &&& entry_is(r.types.generics@[2], "set"@, "map[{0}]struct{}"@, "make(map[{0}]struct{})"@)
    &&& entry_is(r.types.generics@[3], "optional"@, "*{0}"@, "nil"@)
    &&& entry_is(r.types.generics@[4], "channel"@, "chan {0}"@, "make(chan {0})"@)
}

fn go_language_info() -> (r: LanguageInfo)
    ensures
        is_go_info(r),
{
    let mut primitives: Vec<(String, TypeMapping)> = Vec::new();
    primitives.push(entry("bool", "bool", "false"));
    primitives.push(entry("int8", "int8", "0"));
    primitives.push(entry("uint8", "uint8", "0"));
    primitives.push(entry("int16", "int16", "0"));
    primitives.push(entry("uint16", "uint16", "0"));
    primitives.push(entry("int32", "int32", "0"));
    primitives.push(entry("uint32", "uint32", "0"));
    primitives.push(entry("int64", "int64", "0"));
    primitives.push(entry("uint64", "uint64", "0"));
    primitives.push(entry("float32", "float32", "0.0"));
    primitives.push(entry("float64", "float64", "0.0"));
    primitives.push(entry("string", "string", "\"\""));
    primitives.push(entry("bytes", "[]byte", "nil"));
    let mut generics: Vec<(String, TypeMapping)> = Vec::new();
    generics.push(entry("list", "[]{0}", "nil"));
    generics.push(entry("map", "map[{0}]{1}", "make(map[{0}]{1})"));
    generics.push(entry("set", "map[{0}]struct{}", "make(map[{0}]struct{})"));
    generics.push(entry("optional", "*{0}", "nil"));
    generics.push(entry("channel", "chan {0}", "make(chan {0})"));
    LanguageInfo {
        name: String::from_str("Go"),
        file_ext: String::from_str("go"),
        comment_style: String::from_str("//"),
        types: LanguageTypeRegistry { primitives, generics },
        naming: preserve_naming_exec(),
    }
}

/// The built-in language registry: one entry per supported target language,
/// built once and read-only thereafter.
pub fn language_registry() -> (r: Vec<(Language, LanguageInfo)>)
    ensures
        r@.len() == 5,
        r@[0].0 == Language::Cpp26 && is_cpp26_info(r@[0].1),
        r@[1].0 == Language::Python && is_python_info(r@[1].1),
        r@[2].0 == Language::Rust && is_rust_info(r@[2].1),
        r@[3].0 == Language::Typescript && is_typescript_info(r@[3].1),
        r@[4].0 == Language::Go && is_go_info(r@[4].1),
{
    let mut r: Vec<(Language, LanguageInfo)> = Vec::new();
    r.push((Language::Cpp26, cpp26_language_info()));
    r.push((Language::Python, python_language_info()));
    r.push((Language::Rust, rust_language_info()));
    r.push((Language::Typescript, typescript_language_info()));
    r.push((Language::Go, go_language_info()));
    r
}

} // verus!
