//! The declaration emitter: turns a struct definition into a target-language
//! field declaration list, a positional tuple alias, and a reflection
//! metadata table, one row per field, in field order.

use vstd::prelude::*;

use crate::ir::FieldAttr;
use crate::ir::FieldDef;
use crate::ir::RegistryValidationFailure;
use crate::ir::ResolveError;
use crate::ir::StructDef;
use crate::ir::TypeIR;
use crate::registry::LanguageInfo;
use crate::registry::LanguageTypeRegistry;
use crate::registry::apply_case;
use crate::registry::spec_apply_case;
use crate::resolve::SpecResolveError;
use crate::resolve::err_matches;
use crate::resolve::push_joined;
use crate::resolve::rust_type_to_cpp;
use crate::resolve::spec_join;
use crate::resolve::spec_resolve;
use crate::text::chars_to_string;
use crate::text::push_str_chars;

verus! {

/// One emitted metadata row: the only channel through which storage-column
/// names and attributes reach generated output.
#[derive(Debug)]
pub struct FieldMeta {
    pub field_name: String,
    pub table_col: String,
    pub csv_col: String,
    pub resolved_type: String,
    pub attrs: Vec<FieldAttr>,
}

/// The view of one metadata row.
pub struct FieldMetaV {
    pub field_name: Seq<char>,
    pub table_col: Seq<char>,
    pub csv_col: Seq<char>,
    pub resolved_type: Seq<char>,
    pub attrs: Seq<FieldAttr>,
}

impl View for FieldMeta {
    type V = FieldMetaV;

    open spec fn view(&self) -> FieldMetaV {
        FieldMetaV {
            field_name: self.field_name@,
            table_col: self.table_col@,
            csv_col: self.csv_col@,
            resolved_type: self.resolved_type@,
            attrs: self.attrs@,
        }
    }
}

impl DeepView for FieldMeta {
    type V = FieldMetaV;

    open spec fn deep_view(&self) -> FieldMetaV {
        self.view()
    }
}

/// Everything `emit` produces for one struct.
#[derive(Debug)]
pub struct Emitted {
    pub declaration: String,
    pub tuple_alias: String,
    pub metadata: Vec<FieldMeta>,
}

/// The view of an emitted bundle.
pub struct EmittedV {
    pub declaration: Seq<char>,
    pub tuple_alias: Seq<char>,
    pub metadata: Seq<FieldMetaV>,
}

impl View for Emitted {
    type V = EmittedV;

    open spec fn view(&self) -> EmittedV {
        EmittedV {
            declaration: self.declaration@,
            tuple_alias: self.tuple_alias@,
            metadata: self.metadata.deep_view(),
        }
    }
}

/// The declaration line of one field: four spaces, the resolved type, the
/// member name, a semicolon.
pub open spec fn spec_decl_line(resolved: Seq<char>, member: Seq<char>) -> Seq<char> {
    "    "@ + resolved + " "@ + member + ";"@
}

/// The per-field outputs from index `i` on: declaration lines, resolved
/// types, and metadata rows, in field order; or the first field whose type
/// does not resolve, with the failure.
pub open spec fn spec_emit_fields(fields: Vec<FieldDef>, i: int, info: LanguageInfo) -> Result<
    (Seq<Seq<char>>, Seq<Seq<char>>, Seq<FieldMetaV>),
    (Seq<char>, SpecResolveError),
>
    decreases fields.len() - i,
{
    if i < 0 || i >= fields.len() {
        Ok((Seq::empty(), Seq::empty(), Seq::empty()))
    } else {
        let f = fields[i];
        match spec_resolve(f.ty, info.types) {
            Err(e) => Err((f.field_name@, e)),
            Ok(r) => match spec_emit_fields(fields, i + 1, info) {
                Err(e) => Err(e),
                Ok((lines, tys, rows)) => {
                    let member = spec_apply_case(info.naming.private_member, f.field_name@);
                    let row = FieldMetaV {
                        field_name: f.field_name@,
                        table_col: f.table_col@,
                        csv_col: f.csv_col@,
                        resolved_type: r,
                        attrs: f.attrs@,
                    };
                    Ok(
                        (
                            seq![spec_decl_line(r, member)] + lines,
                            seq![r] + tys,
                            seq![row] + rows,
                        ),
                    )
                },
            },
        }
    }
}

/// The full emitted bundle of a struct against a language: the declaration
/// text, the tuple alias, and the metadata rows; or the name of the first
/// field that does not resolve, with the failure.
pub open spec fn spec_emit(def: StructDef, info: LanguageInfo) -> Result<
    EmittedV,
    (Seq<char>, SpecResolveError),
> {
    match spec_emit_fields(def.fields, 0, info) {
        Err(e) => Err(e),
        Ok((lines, tys, rows)) => {
            let class = spec_apply_case(info.naming.class_name, def.name@);
            Ok(
                EmittedV {
                    declaration: "struct "@ + class + " {\n"@ + spec_join(lines, "\n"@) + "\n};"@,
                    tuple_alias: "using "@ + class + "Tuple = std::tuple<"@ + spec_join(tys, ", "@)
                        + ">;"@,
                    metadata: rows,
                },
            )
        },
    }
}

fn emit_fields_exec(fields: &Vec<FieldDef>, i: usize, info: &LanguageInfo) -> (r: Result<
    (Vec<String>, Vec<String>, Vec<FieldMeta>),
    (String, ResolveError),
>)
    requires
        i <= fields@.len(),
    ensures
        match (r, spec_emit_fields(*fields, i as int, *info)) {
            (Ok(v), Ok(s)) => v.0.deep_view() == s.0 && v.1.deep_view() == s.1 && v.2.deep_view()
                == s.2,
            (Err(e), Err(se)) => e.0@ == se.0 && err_matches(e.1, se.1),
            _ => false,
        },
    decreases fields@.len() - i,
{
    if i == fields.len() {
        let lines: Vec<String> = Vec::new();
        let tys: Vec<String> = Vec::new();
        let rows: Vec<FieldMeta> = Vec::new();
        proof {
            assert(lines.deep_view() =~= Seq::<Seq<char>>::empty());
            assert(tys.deep_view() =~= Seq::<Seq<char>>::empty());
            assert(rows.deep_view() =~= Seq::<FieldMetaV>::empty());
        }
        Ok((lines, tys, rows))
    } else {
        let f = &fields[i];
        match rust_type_to_cpp(&f.ty, &info.types) {
            Err(e) => Err((f.field_name.clone(), e)),
            Ok(resolved) => match emit_fields_exec(fields, i + 1, info) {
                Err(e) => Err(e),
                Ok((rest_lines, rest_tys, rest_rows)) => {
                    let member = apply_case(info.naming.private_member, f.field_name.as_str());
                    let mut line_chars: Vec<char> = Vec::new();
                    push_str_chars(&mut line_chars, "    ");
                    push_str_chars(&mut line_chars, resolved.as_str());
                    push_str_chars(&mut line_chars, " ");
                    push_str_chars(&mut line_chars, member.as_str());
                    push_str_chars(&mut line_chars, ";");
                    let line = chars_to_string(&line_chars);
                    let row = FieldMeta {
                        field_name: f.field_name.clone(),
                        table_col: f.table_col.clone(),
                        csv_col: f.csv_col.clone(),
                        resolved_type: resolved.clone(),
                        attrs: clone_attrs(&f.attrs),
                    };
                    let ghost line_v = line@;
                    let ghost ty_v = resolved@;
                    let ghost row_v = row@;
                    let ghost rest_lines_dv = rest_lines.deep_view();
                    let ghost rest_tys_dv = rest_tys.deep_view();
                    let ghost rest_rows_dv = rest_rows.deep_view();
                    let mut lines = rest_lines;
                    let mut tys = rest_tys;
                    let mut rows = rest_rows;
                    lines.insert(0, line);
                    tys.insert(0, resolved);
                    rows.insert(0, row);
                    proof {
                        lemma_insert_front_deep_view_str(lines, line_v, rest_lines_dv);
                        lemma_insert_front_deep_view_str(tys, ty_v, rest_tys_dv);
                        lemma_insert_front_deep_view_row(rows, row_v, rest_rows_dv);
                    }
                    Ok((lines, tys, rows))
                },
            },
        }
    }
}

/// A copy of an attribute list.
fn clone_attrs(attrs: &Vec<FieldAttr>) -> (r: Vec<FieldAttr>)
    ensures
        r@ == attrs@,
{
    let n = attrs.len();
    let mut out: Vec<FieldAttr> = Vec::new();
    let mut i: usize = 0;
    while i < n
        invariant
            i <= n,
            n == attrs@.len(),
            out@ =~= attrs@.subrange(0, i as int),
        decreases n - i,
    {
        out.push(attrs[i]);
        i = i + 1;
    }
    proof {
        assert(out@ =~= attrs@);
    }
    out
}

proof fn lemma_insert_front_deep_view_str(v: Vec<String>, head: Seq<char>, rest: Seq<Seq<char>>)
    requires
        v@.len() == rest.len() + 1,
        v@[0]@ == head,
        forall|k: int| 0 <= k < rest.len() ==> v@[k + 1]@ == #[trigger] rest[k],
    ensures
        v.deep_view() == seq![head] + rest,
{
    assert forall|k: int| 0 <= k < v.deep_view().len() implies v.deep_view()[k] == (seq![head]
        + rest)[k] by {
        if k > 0 {
            assert(v@[k]@ == rest[k - 1]);
        }
    }
    assert(v.deep_view() =~= seq![head] + rest);
}

proof fn lemma_insert_front_deep_view_row(v: Vec<FieldMeta>, head: FieldMetaV, rest: Seq<FieldMetaV>)
    requires
        v@.len() == rest.len() + 1,
        v@[0]@ == head,
        forall|k: int| 0 <= k < rest.len() ==> v@[k + 1]@ == #[trigger] rest[k],
    ensures
        v.deep_view() == seq![head] + rest,
{
    assert forall|k: int| 0 <= k < v.deep_view().len() implies v.deep_view()[k] == (seq![head]
        + rest)[k] by {
        if k > 0 {
            assert(v@[k]@ == rest[k - 1]);
        }
    }
    assert(v.deep_view() =~= seq![head] + rest);
}

/// Emits the declaration, the tuple alias and the metadata table of one
/// struct against one target language. Pure and deterministic: the output is
/// a function of the two arguments alone. Fails on the first field, in
/// declaration order, whose type does not resolve.
pub fn emit(def: &StructDef, info: &LanguageInfo) -> (r: Result<
    Emitted,
    RegistryValidationFailure,
>)
    ensures
        match (r, spec_emit(*def, *info)) {
            (Ok(em), Ok(ev)) => em@ == ev,
            (Err(f), Err(fe)) => f.struct_name@ == def.name@ && f.field_name@ == fe.0
                && err_matches(f.cause, fe.1),
            _ => false,
        },
{
    match emit_fields_exec(&def.fields, 0, info) {
        Err((field_name, cause)) => Err(
            RegistryValidationFailure { struct_name: def.name.clone(), field_name, cause },
        ),
        Ok((lines, tys, rows)) => {
            let class = apply_case(info.naming.class_name, def.name.as_str());
            let mut decl: Vec<char> = Vec::new();
            push_str_chars(&mut decl, "struct ");
            push_str_chars(&mut decl, class.as_str());
            push_str_chars(&mut decl, " {\n");
            push_joined(&mut decl, &lines, "\n");
            push_str_chars(&mut decl, "\n};");
            let mut alias: Vec<char> = Vec::new();
            push_str_chars(&mut alias, "using ");
            push_str_chars(&mut alias, class.as_str());
            push_str_chars(&mut alias, "Tuple = std::tuple<");
            push_joined(&mut alias, &tys, ", ");
            push_str_chars(&mut alias, ">;");
            Ok(
                Emitted {
                    declaration: chars_to_string(&decl),
                    tuple_alias: chars_to_string(&alias),
                    metadata: rows,
                },
            )
        },
    }
}

/// The per-field outputs of a plain (name, type) field list from index `i`
/// on: declaration lines and resolved types, in field order; or the first
/// failure.
pub open spec fn spec_plain_fields(
    fields: Vec<(String, TypeIR)>,
    i: int,
    reg: LanguageTypeRegistry,
) -> Result<(Seq<Seq<char>>, Seq<Seq<char>>), SpecResolveError>
    decreases fields.len() - i,
{
    if i < 0 || i >= fields.len() {
        Ok((Seq::empty(), Seq::empty()))
    } else {
        match spec_resolve(fields[i].1, reg) {
            Err(e) => Err(e),
            Ok(r) => match spec_plain_fields(fields, i + 1, reg) {
                Err(e) => Err(e),
                Ok((lines, tys)) => Ok(
                    (seq!["    "@ + r + " "@ + fields[i].0@ + ";"@] + lines, seq![r] + tys),
                ),
            },
        }
    }
}

/// The declaration text of a struct over plain (name, type) fields, member
/// names unconverted.
pub open spec fn spec_generate_cpp_struct(
    name: Seq<char>,
    fields: Vec<(String, TypeIR)>,
    reg: LanguageTypeRegistry,
) -> Result<Seq<char>, SpecResolveError> {
    match spec_plain_fields(fields, 0, reg) {
        Err(e) => Err(e),
        Ok((lines, _)) => Ok("struct "@ + name + " {\n"@ + spec_join(lines, "\n"@) + "\n};"@),
    }
}

/// The tuple alias of a struct over plain (name, type) fields.
pub open spec fn spec_generate_cpp_tuple(
    name: Seq<char>,
    fields: Vec<(String, TypeIR)>,
    reg: LanguageTypeRegistry,
) -> Result<Seq<char>, SpecResolveError> {
    match spec_plain_fields(fields, 0, reg) {
        Err(e) => Err(e),
        Ok((_, tys)) => Ok(
            "using "@ + name + "Tuple = std::tuple<"@ + spec_join(tys, ", "@) + ">;"@,
        ),
    }
}

fn plain_fields_exec(fields: &Vec<(String, TypeIR)>, i: usize, registry: &LanguageTypeRegistry) -> (r:
    Result<(Vec<String>, Vec<String>), ResolveError>)
    requires
        i <= fields@.len(),
    ensures
        match (r, spec_plain_fields(*fields, i as int, *registry)) {
            (Ok(v), Ok(s)) => v.0.deep_view() == s.0 && v.1.deep_view() == s.1,
            (Err(e), Err(se)) => err_matches(e, se),
            _ => false,
        },
    decreases fields@.len() - i,
{
    if i == fields.len() {
        let lines: Vec<String> = Vec::new();
        let tys: Vec<String> = Vec::new();
        proof {
            assert(lines.deep_view() =~= Seq::<Seq<char>>::empty());
            assert(tys.deep_view() =~= Seq::<Seq<char>>::empty());
        }
        Ok((lines, tys))
    } else {
        let f = &fields[i];
        match rust_type_to_cpp(&f.1, registry) {
            Err(e) => Err(e),
            Ok(resolved) => match plain_fields_exec(fields, i + 1, registry) {
                Err(e) => Err(e),
                Ok((rest_lines, rest_tys)) => {
                    let mut line_chars: Vec<char> = Vec::new();
                    push_str_chars(&mut line_chars, "    ");
                    push_str_chars(&mut line_chars, resolved.as_str());
                    push_str_chars(&mut line_chars, " ");
                    push_str_chars(&mut line_chars, f.0.as_str());
                    push_str_chars(&mut line_chars, ";");
                    let line = chars_to_string(&line_chars);
                    let ghost line_v = line@;
                    let ghost ty_v = resolved@;
                    let ghost rest_lines_dv = rest_lines.deep_view();
                    let ghost rest_tys_dv = rest_tys.deep_view();
                    let mut lines = rest_lines;
                    let mut tys = rest_tys;
                    lines.insert(0, line);
                    tys.insert(0, resolved);
                    proof {
                        lemma_insert_front_deep_view_str(lines, line_v, rest_lines_dv);
                        lemma_insert_front_deep_view_str(tys, ty_v, rest_tys_dv);
                    }
                    Ok((lines, tys))
                },
            },
        }
    }
}

/// Generates a struct declaration from a name and plain (name, type) fields,
/// member names kept as they stand.
pub fn generate_cpp_struct(
    struct_name: &str,
    fields: &Vec<(String, TypeIR)>,
    registry: &LanguageTypeRegistry,
) -> (r: Result<String, ResolveError>)
    ensures
        match (r, spec_generate_cpp_struct(struct_name@, *fields, *registry)) {
            (Ok(s), Ok(v)) => s@ == v,
            (Err(e), Err(se)) => err_matches(e, se),
            _ => false,
        },
{
    match plain_fields_exec(fields, 0, registry) {
        Err(e) => Err(e),
        Ok((lines, _)) => {
            let mut decl: Vec<char> = Vec::new();
            push_str_chars(&mut decl, "struct ");
            push_str_chars(&mut decl, struct_name);
            push_str_chars(&mut decl, " {\n");
            push_joined(&mut decl, &lines, "\n");
            push_str_chars(&mut decl, "\n};");
            Ok(chars_to_string(&decl))
        },
    }
}

/// Generates a struct declaration and its positional tuple alias.
pub fn generate_cpp_struct_and_tuple(
    struct_name: &str,
    fields: &Vec<(String, TypeIR)>,
    registry: &LanguageTypeRegistry,
) -> (r: Result<(String, String), ResolveError>)
    ensures
        match (r, spec_generate_cpp_struct(struct_name@, *fields, *registry), spec_generate_cpp_tuple(
            struct_name@,
            *fields,
            *registry,
        )) {
            (Ok(p), Ok(d), Ok(t)) => p.0@ == d && p.1@ == t,
            (Err(e), Err(se), _) => err_matches(e, se),
            _ => false,
        },
{
    match plain_fields_exec(fields, 0, registry) {
        Err(e) => Err(e),
        Ok((lines, tys)) => {
            let mut decl: Vec<char> = Vec::new();
            push_str_chars(&mut decl, "struct ");
            push_str_chars(&mut decl, struct_name);
            push_str_chars(&mut decl, " {\n");
            push_joined(&mut decl, &lines, "\n");
            push_str_chars(&mut decl, "\n};");
            let mut alias: Vec<char> = Vec::new();
            push_str_chars(&mut alias, "using ");
            push_str_chars(&mut alias, struct_name);
            push_str_chars(&mut alias, "Tuple = std::tuple<");
            push_joined(&mut alias, &tys, ", ");
            push_str_chars(&mut alias, ">;");
            Ok((chars_to_string(&decl), chars_to_string(&alias)))
        },
    }
}

/// The display name of an attribute.
pub open spec fn spec_attr_name(a: FieldAttr) -> Seq<char> {
    match a {
        FieldAttr::PrimaryKey => "PrimaryKey"@,
        FieldAttr::Serializable => "Serializable"@,
        FieldAttr::ExcludeCompare => "ExcludeCompare"@,
        FieldAttr::ExcludeString => "ExcludeString"@,
        FieldAttr::ExcludeHash => "ExcludeHash"@,
    }
}

/// The attribute names joined by `" | "`: the tail part.
pub open spec fn spec_attrs_join_tail(attrs: Seq<FieldAttr>) -> Seq<char>
    decreases attrs.len(),
{
    if attrs.len() == 0 {
        Seq::empty()
    } else {
        " | "@ + spec_attr_name(attrs[0]) + spec_attrs_join_tail(attrs.skip(1))
    }
}

/// The attribute names joined by `" | "`.
pub open spec fn spec_attrs_join(attrs: Seq<FieldAttr>) -> Seq<char> {
    if attrs.len() == 0 {
        Seq::empty()
    } else {
        spec_attr_name(attrs[0]) + spec_attrs_join_tail(attrs.skip(1))
    }
}

fn attr_name(a: FieldAttr) -> (r: &'static str)
    ensures
        r@ == spec_attr_name(a),
{
    match a {
        FieldAttr::PrimaryKey => "PrimaryKey",
        FieldAttr::Serializable => "Serializable",
        FieldAttr::ExcludeCompare => "ExcludeCompare",
        FieldAttr::ExcludeString => "ExcludeString",
        FieldAttr::ExcludeHash => "ExcludeHash",
    }
}

fn push_attrs_joined(out: &mut Vec<char>, attrs: &Vec<FieldAttr>)
    ensures
        final(out)@ == old(out)@ + spec_attrs_join(attrs@),
{
    let n = attrs.len();
    if n == 0 {
        return ;
    }
    push_str_chars(out, attr_name(attrs[0]));
    let mut k: usize = 1;
    while k < n
        invariant
            1 <= k <= n,
            n == attrs@.len(),
            out@ + spec_attrs_join_tail(attrs@.skip(k as int)) == old(out)@ + spec_attrs_join(
                attrs@,
            ),
        decreases n - k,
    {
        proof {
            assert(attrs@.skip(k as int)[0] == attrs@[k as int]);
            assert(attrs@.skip(k as int).skip(1) =~= attrs@.skip(k as int + 1));
        }
        push_str_chars(out, " | ");
        push_str_chars(out, attr_name(attrs[k]));
        k = k + 1;
    }
    proof {
        assert(attrs@.skip(n as int) =~= Seq::<FieldAttr>::empty());
        assert(out@ =~= old(out)@ + spec_attrs_join(attrs@));
    }
}

/// The reflection line of one metadata row.
pub open spec fn spec_meta_field_line(class: Seq<char>, row: FieldMetaV) -> Seq<char> {
    "meta::Field<"@ + class + ", "@ + row.resolved_type + ", &"@ + class + "::"@ + row.field_name
        + ", nullptr, nullptr, "@ + spec_attrs_join(row.attrs) + ">,"@
}

/// The reflection lines of the metadata rows from index `i` on, each ended
/// by a newline.
pub open spec fn spec_meta_field_lines(class: Seq<char>, rows: Seq<FieldMetaV>, i: int) -> Seq<
    char,
>
    decreases rows.len() - i,
{
    if i < 0 || i >= rows.len() {
        Seq::empty()
    } else {
        spec_meta_field_line(class, rows[i]) + "\n"@ + spec_meta_field_lines(class, rows, i + 1)
    }
}

/// Generates one `meta::Field` reflection line per metadata row, in row
/// order, each on its own line.
pub fn generate_cpp_fields(class_name: &str, rows: &Vec<FieldMeta>) -> (r: String)
    ensures
        r@ == spec_meta_field_lines(class_name@, rows.deep_view(), 0),
{
    let n = rows.len();
    let mut out: Vec<char> = Vec::new();
    let mut i: usize = 0;
    proof {
        assert(rows.deep_view().len() == n);
    }
    while i < n
        invariant
            i <= n,
            n == rows@.len(),
            out@ + spec_meta_field_lines(class_name@, rows.deep_view(), i as int)
                =~= spec_meta_field_lines(class_name@, rows.deep_view(), 0),
        decreases n - i,
    {
        let row = &rows[i];
        push_str_chars(&mut out, "meta::Field<");
        push_str_chars(&mut out, class_name);
        push_str_chars(&mut out, ", ");
        push_str_chars(&mut out, row.resolved_type.as_str());
        push_str_chars(&mut out, ", &");
        push_str_chars(&mut out, class_name);
        push_str_chars(&mut out, "::");
        push_str_chars(&mut out, row.field_name.as_str());
        push_str_chars(&mut out, ", nullptr, nullptr, ");
        push_attrs_joined(&mut out, &row.attrs);
        push_str_chars(&mut out, ">,");
        push_str_chars(&mut out, "\n");
        i = i + 1;
    }
    chars_to_string(&out)
}

/// The member declarations of a header, one per field from index `i` on:
/// the already-lowered type, the member name under the given casing rule,
/// and a default initializer.
pub open spec fn spec_header_members(
    fields: Seq<(String, String)>,
    i: int,
    style: crate::registry::CaseStyle,
) -> Seq<char>
    decreases fields.len() - i,
{
    if i < 0 || i >= fields.len() {
        Seq::empty()
    } else {
        "    "@ + fields[i].1@ + " "@ + spec_apply_case(style, fields[i].0@) + "{};\n"@
            + spec_header_members(fields, i + 1, style)
    }
}

/// The reflection tuple lines of a header, one per field from index `i` on,
/// every line but the last ended by a comma.
pub open spec fn spec_header_meta_lines(
    fields: Seq<(String, String)>,
    i: int,
    name: Seq<char>,
    style: crate::registry::CaseStyle,
) -> Seq<char>
    decreases fields.len() - i,
{
    if i < 0 || i >= fields.len() {
        Seq::empty()
    } else {
        "        meta::Field<"@ + name + ", "@ + fields[i].1@ + ", &"@ + name + "::"@
            + spec_apply_case(style, fields[i].0@) + ", nullptr, nullptr, meta::Prop::Serializable>"@
            + (if i == fields.len() - 1 {
            Seq::<char>::empty()
        } else {
            ","@
        }) + "\n"@ + spec_header_meta_lines(fields, i + 1, name, style)
    }
}

/// The field names, in order.
pub open spec fn spec_col_list(fields: Seq<(String, String)>) -> Seq<Seq<char>> {
    Seq::new(fields.len(), |i: int| fields[i].0@)
}

/// The full header text of one struct: includes, the namespaced struct with
/// its members, its reflection tuple, its table name and query, and the
/// `MetaTuple` specialization.
pub open spec fn spec_generate_cpp_header(
    name: Seq<char>,
    table: Seq<char>,
    style: crate::registry::CaseStyle,
    fields: Seq<(String, String)>,
) -> Seq<char> {
    "#include <cstdint>\n#include <string>\n#include <optional>\n#include <vector>\n#include <tuple>\n#include <chrono>\n\nnamespace hytek {\nnamespace tm {\nstruct "@
        + name + " {\n"@ + spec_header_members(fields, 0, style)
        + "\n    // clang-format off\n    static constexpr auto fields = std::tuple<\n"@
        + spec_header_meta_lines(fields, 0, name, style)
        + "    >{};\n    static constexpr auto tableName = \""@ + table
        + "\";\n    static constexpr auto query = \"SELECT "@ + spec_join(
        spec_col_list(fields),
        ", "@,
    ) + " FROM "@ + table
        + "\";\n    // clang-format on\n};\n} // namespace tm\n} // namespace hytek\nnamespace meta {\ntemplate<>\nstruct MetaTuple<::hytek::tm::"@
        + name + "> {\n    static constexpr auto& fields = ::hytek::tm::"@ + name
        + "::fields;\n    static constexpr auto tableName = ::hytek::tm::"@ + name
        + "::tableName;\n    static constexpr auto query = ::hytek::tm::"@ + name
        + "::query;\n};\n} // namespace meta\n"@
}

/// Generates the full header of one struct from its name, its table, the
/// language's member-naming rule, and its (name, lowered type) fields.
#[verifier::rlimit(60)]
pub fn generate_cpp_header(
    struct_name: &str,
    table_name: &str,
    lang: &LanguageInfo,
    fields: &Vec<(String, String)>,
) -> (r: String)
    ensures
        r@ == spec_generate_cpp_header(
            struct_name@,
            table_name@,
            lang.naming.private_member,
            fields@,
        ),
{
    let style = lang.naming.private_member;
    let n = fields.len();
    let mut out: Vec<char> = Vec::new();
    push_str_chars(
        &mut out,
        "#include <cstdint>\n#include <string>\n#include <optional>\n#include <vector>\n#include <tuple>\n#include <chrono>\n\nnamespace hytek {\nnamespace tm {\nstruct ",
    );
    push_str_chars(&mut out, struct_name);
    push_str_chars(&mut out, " {\n");
    let ghost mark1 = out@;
    let mut i: usize = 0;
    while i < n
        invariant
            i <= n,
            n == fields@.len(),
            out@ + spec_header_members(fields@, i as int, style) == mark1 + spec_header_members(
                fields@,
                0,
                style,
            ),
        decreases n - i,
    {
        push_str_chars(&mut out, "    ");
        push_str_chars(&mut out, fields[i].1.as_str());
        push_str_chars(&mut out, " ");
        let member = apply_case(style, fields[i].0.as_str());
        push_str_chars(&mut out, member.as_str());
        push_str_chars(&mut out, "{};\n");
        i = i + 1;
    }
    push_str_chars(
        &mut out,
        "\n    // clang-format off\n    static constexpr auto fields = std::tuple<\n",
    );
    let ghost mark2 = out@;
    let mut j: usize = 0;
    while j < n
        invariant
            j <= n,
            n == fields@.len(),
            out@ + spec_header_meta_lines(fields@, j as int, struct_name@, style) == mark2
                + spec_header_meta_lines(fields@, 0, struct_name@, style),
        decreases n - j,
    {
        push_str_chars(&mut out, "        meta::Field<");
        push_str_chars(&mut out, struct_name);
        push_str_chars(&mut out, ", ");
        push_str_chars(&mut out, fields[j].1.as_str());
        push_str_chars(&mut out, ", &");
        push_str_chars(&mut out, struct_name);
        push_str_chars(&mut out, "::");
        let member = apply_case(style, fields[j].0.as_str());
        push_str_chars(&mut out, member.as_str());
        push_str_chars(&mut out, ", nullptr, nullptr, meta::Prop::Serializable>");
        if j + 1 < n {
            push_str_chars(&mut out, ",");
        } else {
            proof {
                assert(out@ + Seq::<char>::empty() =~= out@);
            }
        }
        push_str_chars(&mut out, "\n");
        j = j + 1;
    }
    push_str_chars(&mut out, "    >{};\n    static constexpr auto tableName = \"");
    push_str_chars(&mut out, table_name);
    push_str_chars(&mut out, "\";\n    static constexpr auto query = \"SELECT ");
    let mut names: Vec<String> = Vec::new();
    let mut k: usize = 0;
    while k < n
        invariant
            k <= n,
            n == fields@.len(),
            names@.len() == k,
            forall|t: int| 0 <= t < k ==> (#[trigger] names@[t])@ == fields@[t].0@,
        decreases n - k,
    {
        names.push(fields[k].0.clone());
        k = k + 1;
    }
    proof {
        assert forall|t: int| 0 <= t < n implies names.deep_view()[t] == spec_col_list(fields@)[t] by {
            assert(names.deep_view()[t] == names@[t]@);
        }
        assert(names.deep_view() =~= spec_col_list(fields@));
    }
    push_joined(&mut out, &names, ", ");
    push_str_chars(&mut out, " FROM ");
    push_str_chars(&mut out, table_name);
    push_str_chars(
        &mut out,
        "\";\n    // clang-format on\n};\n} // namespace tm\n} // namespace hytek\nnamespace meta {\ntemplate<>\nstruct MetaTuple<::hytek::tm::",
    );
    push_str_chars(&mut out, struct_name);
    push_str_chars(&mut out, "> {\n    static constexpr auto& fields = ::hytek::tm::");
    push_str_chars(&mut out, struct_name);
    push_str_chars(&mut out, "::fields;\n    static constexpr auto tableName = ::hytek::tm::");
    push_str_chars(&mut out, struct_name);
    push_str_chars(&mut out, "::tableName;\n    static constexpr auto query = ::hytek::tm::");
    push_str_chars(&mut out, struct_name);
    push_str_chars(&mut out, "::query;\n};\n} // namespace meta\n");
    proof {
        assert(out@ =~= spec_generate_cpp_header(
            struct_name@,
            table_name@,
            lang.naming.private_member,
            fields@,
        ));
    }
    chars_to_string(&out)
}

/// Emission is deterministic: identical inputs give identical output.
pub proof fn lemma_emit_deterministic(
    def1: StructDef,
    def2: StructDef,
    info1: LanguageInfo,
    info2: LanguageInfo,
)
    requires
        def1 == def2,
        info1 == info2,
    ensures
        spec_emit(def1, info1) == spec_emit(def2, info2),
{
}

proof fn lemma_emit_fields_order(fields: Vec<FieldDef>, i: int, info: LanguageInfo)
    requires
        0 <= i <= fields.len(),
        spec_emit_fields(fields, i, info) is Ok,
    ensures
        ({
            let (lines, tys, rows) = spec_emit_fields(fields, i, info)->Ok_0;
            &&& lines.len() == fields.len() - i
            &&& tys.len() == fields.len() - i
            &&& rows.len() == fields.len() - i
            &&& forall|k: int|
                0 <= k < rows.len() ==> {
                    let f = fields[i + k];
                    &&& (#[trigger] rows[k]).field_name == f.field_name@
                    &&& rows[k].table_col == f.table_col@
                    &&& rows[k].csv_col == f.csv_col@
                    &&& rows[k].attrs == f.attrs@
                    &&& spec_resolve(f.ty, info.types) == Ok::<Seq<char>, SpecResolveError>(
                        rows[k].resolved_type,
                    )
                    &&& tys[k] == rows[k].resolved_type
                    &&& lines[k] == spec_decl_line(
                        rows[k].resolved_type,
                        spec_apply_case(info.naming.private_member, f.field_name@),
                    )
                }
        }),
    decreases fields.len() - i,
{
    if i < fields.len() {
        lemma_emit_fields_order(fields, i + 1, info);
    }
}

/// Field order is preserved: the metadata rows, the tuple alias entries and
/// the declaration lines stand in exactly the order of the definition's
/// fields, one per field.
pub proof fn lemma_emit_preserves_field_order(def: StructDef, info: LanguageInfo)
    requires
        spec_emit(def, info) is Ok,
    ensures
        ({
            let ev = spec_emit(def, info)->Ok_0;
            let (lines, tys, rows) = spec_emit_fields(def.fields, 0, info)->Ok_0;
            &&& ev.metadata == rows
            &&& rows.len() == def.fields@.len()
            &&& tys.len() == def.fields@.len()
            &&& lines.len() == def.fields@.len()
            &&& forall|k: int|
                0 <= k < rows.len() ==> {
                    let f = def.fields@[k];
                    &&& (#[trigger] rows[k]).field_name == f.field_name@
                    &&& rows[k].table_col == f.table_col@
                    &&& rows[k].csv_col == f.csv_col@
                    &&& rows[k].attrs == f.attrs@
                    &&& spec_resolve(f.ty, info.types) == Ok::<Seq<char>, SpecResolveError>(
                        rows[k].resolved_type,
                    )
                    &&& tys[k] == rows[k].resolved_type
                }
            &&& ev.declaration == "struct "@ + spec_apply_case(info.naming.class_name, def.name@)
                + " {\n"@ + spec_join(lines, "\n"@) + "\n};"@
            &&& ev.tuple_alias == "using "@ + spec_apply_case(info.naming.class_name, def.name@)
                + "Tuple = std::tuple<"@ + spec_join(tys, ", "@) + ">;"@
        }),
{
    lemma_emit_fields_order(def.fields, 0, info);
}

} // verus!
