//! The JSON module description: structs and their field types as a compact
//! JSON document, object keys in sorted order, exactly as the canonical wire
//! shape `{"items":[{"fields":[...],"name":...,"type":"Struct"}],"type":"Module"}`.

use vstd::prelude::*;

use crate::ir::StructDef;
use crate::ir::TypeIR;
use crate::reflect::dec_digit;
use crate::text::chars_to_string;
use crate::text::push_str_chars;
use crate::text::str_chars;
use crate::text::str_eq;

verus! {

/// The lowercase hex digit character for a value below sixteen.
pub open spec fn hex_digit(d: int) -> char {
    if d < 10 {
        dec_digit(d)
    } else {
        ((87 + d) as u8) as char
    }
}

fn hex_digit_exec(d: u32) -> (c: char)
    requires
        d < 16,
    ensures
        c == hex_digit(d as int),
{
    match d {
        0 => '0',
        1 => '1',
        2 => '2',
        3 => '3',
        4 => '4',
        5 => '5',
        6 => '6',
        7 => '7',
        8 => '8',
        9 => '9',
        10 => 'a',
        11 => 'b',
        12 => 'c',
        13 => 'd',
        14 => 'e',
        _ => 'f',
    }
}

/// The JSON escape of one character: quote and backslash escaped, the short
/// control escapes, and `\u00XX` for the remaining control characters.
pub open spec fn spec_escape_char(c: char) -> Seq<char> {
    if c == '"' {
        seq!['\\', '"']
    } else if c == '\\' {
        seq!['\\', '\\']
    } else if c == '\u{8}' {
        seq!['\\', 'b']
    } else if c == '\u{c}' {
        seq!['\\', 'f']
    } else if c == '\n' {
        seq!['\\', 'n']
    } else if c == '\r' {
        seq!['\\', 'r']
    } else if c == '\t' {
        seq!['\\', 't']
    } else if (c as u32) < 32 {
        seq!['\\', 'u', '0', '0', hex_digit(((c as u32) / 16) as int), hex_digit(
            ((c as u32) % 16) as int,
        )]
    } else {
        seq![c]
    }
}

/// The JSON escape of a text.
pub open spec fn spec_escape(s: Seq<char>) -> Seq<char>
    decreases s.len(),
{
    if s.len() == 0 {
        Seq::empty()
    } else {
        spec_escape_char(s[0]) + spec_escape(s.skip(1))
    }
}

/// A JSON string literal: the escaped text in double quotes.
pub open spec fn spec_json_string(s: Seq<char>) -> Seq<char> {
    seq!['"'] + spec_escape(s) + seq!['"']
}

fn push_escape_char(out: &mut Vec<char>, c: char)
    ensures
        final(out)@ == old(out)@ + spec_escape_char(c),
{
    if c == '"' {
        out.push('\\');
        out.push('"');
    } else if c == '\\' {
        out.push('\\');
        out.push('\\');
    } else if c == '\u{8}' {
        out.push('\\');
        out.push('b');
    } else if c == '\u{c}' {
        out.push('\\');
        out.push('f');
    } else if c == '\n' {
        out.push('\\');
        out.push('n');
    } else if c == '\r' {
        out.push('\\');
        out.push('r');
    } else if c == '\t' {
        out.push('\\');
        out.push('t');
    } else if (c as u32) < 32 {
        out.push('\\');
        out.push('u');
        out.push('0');
        out.push('0');
        out.push(hex_digit_exec((c as u32) / 16));
        out.push(hex_digit_exec((c as u32) % 16));
    } else {
        out.push(c);
    }
    proof {
        assert(out@ =~= old(out)@ + spec_escape_char(c));
    }
}

fn push_json_string(out: &mut Vec<char>, s: &str)
    ensures
        final(out)@ == old(out)@ + spec_json_string(s@),
{
    let cs = str_chars(s);
    let n = cs.len();
    out.push('"');
    let mut i: usize = 0;
    proof {
        assert(s@.skip(0) =~= s@);
    }
    while i < n
        invariant
            i <= n,
            n == cs@.len(),
            cs@ == s@,
            out@ + spec_escape(s@.skip(i as int)) == old(out)@ + seq!['"'] + spec_escape(s@),
        decreases n - i,
    {
        proof {
            assert(s@.skip(i as int)[0] == s@[i as int]);
            assert(s@.skip(i as int).skip(1) =~= s@.skip(i as int + 1));
        }
        push_escape_char(out, cs[i]);
        i = i + 1;
    }
    proof {
        assert(s@.skip(n as int) =~= Seq::<char>::empty());
    }
    out.push('"');
    proof {
        assert(out@ =~= old(out)@ + spec_json_string(s@));
    }
}

/// The constructor name on the wire: the standard map and set containers
/// under their canonical names, anything else unchanged.
pub open spec fn spec_ctor_json_name(c: Seq<char>) -> Seq<char> {
    if c == "HashMap"@ {
        "Map"@
    } else if c == "HashSet"@ {
        "Set"@
    } else {
        c
    }
}

/// The JSON description of one type: primitives and named types as
/// `{"kind":"primitive","name":...}`, generics as
/// `{"args":[...],"kind":"generic","name":...}` with the arguments in order.
pub open spec fn spec_type_json(ty: TypeIR) -> Seq<char>
    decreases ty, 0int,
{
    match ty {
        TypeIR::Primitive(name) => "{\"kind\":\"primitive\",\"name\":"@ + spec_json_string(name@)
            + "}"@,
        TypeIR::Named(id) => "{\"kind\":\"primitive\",\"name\":"@ + spec_json_string(id@) + "}"@,
        TypeIR::Generic(ctor, args) => "{\"args\":["@ + spec_args_json(args, 0) + "],\"kind\":\"generic\",\"name\":"@
            + spec_json_string(spec_ctor_json_name(ctor@)) + "}"@,
    }
}

/// The comma-separated JSON descriptions of the arguments from index `i` on.
pub open spec fn spec_args_json(args: Vec<TypeIR>, i: int) -> Seq<char>
    decreases args, args.len() - i,
{
    if i < 0 || i >= args.len() {
        Seq::empty()
    } else if i == args.len() - 1 {
        spec_type_json(args[i])
    } else {
        spec_type_json(args[i]) + ","@ + spec_args_json(args, i + 1)
    }
}

/// Writes the JSON description of a type.
pub fn rust_type_to_prag_json(ty: &TypeIR) -> (r: String)
    ensures
        r@ == spec_type_json(*ty),
    decreases *ty, 1int,
{
    let mut out: Vec<char> = Vec::new();
    match ty {
        TypeIR::Primitive(name) => {
            push_str_chars(&mut out, "{\"kind\":\"primitive\",\"name\":");
            push_json_string(&mut out, name.as_str());
            push_str_chars(&mut out, "}");
        },
        TypeIR::Named(id) => {
            push_str_chars(&mut out, "{\"kind\":\"primitive\",\"name\":");
            push_json_string(&mut out, id.as_str());
            push_str_chars(&mut out, "}");
        },
        TypeIR::Generic(ctor, args) => {
            proof {
                assert(*args == ty->Generic_1);
                assert(decreases_to!(*ty => ty->Generic_1));
            }
            push_str_chars(&mut out, "{\"args\":[");
            push_args_json(&mut out, args, 0);
            push_str_chars(&mut out, "],\"kind\":\"generic\",\"name\":");
            let mapped = if str_eq(ctor.as_str(), "HashMap") {
                "Map"
            } else if str_eq(ctor.as_str(), "HashSet") {
                "Set"
            } else {
                ctor.as_str()
            };
            push_json_string(&mut out, mapped);
            push_str_chars(&mut out, "}");
        },
    }
    chars_to_string(&out)
}

fn push_args_json(out: &mut Vec<char>, args: &Vec<TypeIR>, i: usize)
    requires
        i <= args@.len(),
    ensures
        final(out)@ == old(out)@ + spec_args_json(*args, i as int),
    decreases *args, args@.len() - i, 0int,
{
    if i == args.len() {
        return ;
    }
    proof {
        assert(decreases_to!(*args => args[i as int]));
    }
    let t = rust_type_to_prag_json(&args[i]);
    push_str_chars(out, t.as_str());
    if i + 1 < args.len() {
        push_str_chars(out, ",");
        push_args_json(out, args, i + 1);
    }
    proof {
        assert(out@ =~= old(out)@ + spec_args_json(*args, i as int));
    }
}

/// The JSON description of one field: its name and its type.
pub open spec fn spec_field_json(f: crate::ir::FieldDef) -> Seq<char> {
    "{\"name\":"@ + spec_json_string(f.field_name@) + ",\"type\":"@ + spec_type_json(f.ty) + "}"@
}

/// The comma-separated JSON descriptions of the fields from index `i` on.
pub open spec fn spec_fields_json(fields: Vec<crate::ir::FieldDef>, i: int) -> Seq<char>
    decreases fields.len() - i,
{
    if i < 0 || i >= fields.len() {
        Seq::empty()
    } else if i == fields.len() - 1 {
        spec_field_json(fields[i])
    } else {
        spec_field_json(fields[i]) + ","@ + spec_fields_json(fields, i + 1)
    }
}

/// The JSON description of one struct: its fields in declaration order, its
/// name, and the `Struct` marker.
pub open spec fn spec_struct_json(def: StructDef) -> Seq<char> {
    "{\"fields\":["@ + spec_fields_json(def.fields, 0) + "],\"name\":"@ + spec_json_string(
        def.name@,
    ) + ",\"type\":\"Struct\"}"@
}

fn push_fields_json(out: &mut Vec<char>, fields: &Vec<crate::ir::FieldDef>, i: usize)
    requires
        i <= fields@.len(),
    ensures
        final(out)@ == old(out)@ + spec_fields_json(*fields, i as int),
    decreases fields@.len() - i,
{
    if i == fields.len() {
        return ;
    }
    push_str_chars(out, "{\"name\":");
    push_json_string(out, fields[i].field_name.as_str());
    push_str_chars(out, ",\"type\":");
    let t = rust_type_to_prag_json(&fields[i].ty);
    push_str_chars(out, t.as_str());
    push_str_chars(out, "}");
    if i + 1 < fields.len() {
        push_str_chars(out, ",");
        push_fields_json(out, fields, i + 1);
    }
    proof {
        assert(out@ =~= old(out)@ + spec_fields_json(*fields, i as int));
    }
}

/// Writes the JSON description of a struct.
pub fn generate_prag_json_struct(def: &StructDef) -> (r: String)
    ensures
        r@ == spec_struct_json(*def),
{
    let mut out: Vec<char> = Vec::new();
    push_str_chars(&mut out, "{\"fields\":[");
    push_fields_json(&mut out, &def.fields, 0);
    push_str_chars(&mut out, "],\"name\":");
    push_json_string(&mut out, def.name.as_str());
    push_str_chars(&mut out, ",\"type\":\"Struct\"}");
    proof {
        assert(out@ =~= spec_struct_json(*def));
    }
    chars_to_string(&out)
}

/// The comma-separated JSON descriptions of the structs from index `i` on.
pub open spec fn spec_structs_json(items: Vec<StructDef>, i: int) -> Seq<char>
    decreases items.len() - i,
{
    if i < 0 || i >= items.len() {
        Seq::empty()
    } else if i == items.len() - 1 {
        spec_struct_json(items[i])
    } else {
        spec_struct_json(items[i]) + ","@ + spec_structs_json(items, i + 1)
    }
}

/// The JSON module description: every struct, in order, under the `Module`
/// marker.
pub open spec fn spec_module_json(items: Vec<StructDef>) -> Seq<char> {
    "{\"items\":["@ + spec_structs_json(items, 0) + "],\"type\":\"Module\"}"@
}

fn push_structs_json(out: &mut Vec<char>, items: &Vec<StructDef>, i: usize)
    requires
        i <= items@.len(),
    ensures
        final(out)@ == old(out)@ + spec_structs_json(*items, i as int),
    decreases items@.len() - i,
{
    if i == items.len() {
        return ;
    }
    let s = generate_prag_json_struct(&items[i]);
    push_str_chars(out, s.as_str());
    if i + 1 < items.len() {
        push_str_chars(out, ",");
        push_structs_json(out, items, i + 1);
    }
    proof {
        assert(out@ =~= old(out)@ + spec_structs_json(*items, i as int));
    }
}

/// Writes the JSON module description of the structs, in order.
pub fn module_json(items: &Vec<StructDef>) -> (r: String)
    ensures
        r@ == spec_module_json(*items),
{
    let mut out: Vec<char> = Vec::new();
    push_str_chars(&mut out, "{\"items\":[");
    push_structs_json(&mut out, items, 0);
    push_str_chars(&mut out, "],\"type\":\"Module\"}");
    proof {
        assert(out@ =~= spec_module_json(*items));
    }
    chars_to_string(&out)
}

/// What reformatting a JSON document pretty-prints to: a function of the
/// text alone, `None` where the text is not a JSON document.
pub uninterp spec fn pretty_of(s: Seq<char>) -> Option<Seq<char>>;

/// Relies on serde_json's `from_str` and `to_string_pretty`: parsing a
/// document and printing the parsed value back depends on the text alone.
#[verifier::external_body]
fn reformat_json_pretty(s: &str) -> (r: Option<String>)
    ensures
        r is Some <==> pretty_of(s@) is Some,
        r is Some ==> r->0@ == pretty_of(s@)->0,
{
    match serde_json::from_str::<serde_json::Value>(s) {
        Ok(v) => serde_json::to_string_pretty(&v).ok(),
        Err(_) => None,
    }
}

/// The JSON module description, pretty-printed.
pub fn module_json_pretty(items: &Vec<StructDef>) -> (r: Option<String>)
    ensures
        r is Some <==> pretty_of(spec_module_json(*items)) is Some,
        r is Some ==> r->0@ == pretty_of(spec_module_json(*items))->0,
{
    let compact = module_json(items);
    reformat_json_pretty(compact.as_str())
}

} // verus!
