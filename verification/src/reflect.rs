//! The reflection tree model: a runtime, closed tagged-variant view of a
//! value as a sequence of (field name, value) rows, where nested values are
//! handles into a `ReflectionArena` recorded before the referring row.
//!
//! Traversals (rendering, equality, hashing) walk the tree depth-first. A
//! handle that does not point at an earlier arena entry is reported as a
//! `DanglingReflectionReference`, never followed.

use vstd::prelude::*;

use crate::ir::FieldAttr;
use crate::ir::MetaError;
use crate::text::chars_to_string;
use crate::text::push_str_chars;
use crate::text::str_eq;
use vstd::string::StrSliceExecFns;

verus! {

/// A primitive leaf value, held by display-relevant variant.
#[derive(Debug)]
pub enum PrimValue {
    Bool(bool),
    I32(i32),
    I64(i64),
    U32(u32),
    U64(u64),
    Str(String),
}

/// The view of a primitive leaf value.
pub enum PrimV {
    Bool(bool),
    I32(i32),
    I64(i64),
    U32(u32),
    U64(u64),
    Str(Seq<char>),
}

impl View for PrimValue {
    type V = PrimV;

    open spec fn view(&self) -> PrimV {
        match self {
            PrimValue::Bool(b) => PrimV::Bool(*b),
            PrimValue::I32(n) => PrimV::I32(*n),
            PrimValue::I64(n) => PrimV::I64(*n),
            PrimValue::U32(n) => PrimV::U32(*n),
            PrimValue::U64(n) => PrimV::U64(*n),
            PrimValue::Str(s) => PrimV::Str(s@),
        }
    }
}

impl DeepView for PrimValue {
    type V = PrimV;

    open spec fn deep_view(&self) -> PrimV {
        self.view()
    }
}

/// One field's value shape: a terminal primitive, a handle to a nested
/// entry, a sequence of either, or an optional of either. Absence is
/// explicit, never conflated with a zero value.
#[derive(Debug)]
pub enum FieldValue {
    Primitive(PrimValue),
    Nested(usize),
    VecOfPrimitive(Vec<PrimValue>),
    VecOfNested(Vec<usize>),
    OptionalPrimitive(Option<PrimValue>),
    OptionalNested(Option<usize>),
}

/// The view of a field value; handles are mathematical naturals.
pub enum FieldValueV {
    Primitive(PrimV),
    Nested(nat),
    VecOfPrimitive(Seq<PrimV>),
    VecOfNested(Seq<nat>),
    OptionalPrimitive(Option<PrimV>),
    OptionalNested(Option<nat>),
}

/// The handles of a vector, as mathematical naturals.
pub open spec fn handles_view(hs: Seq<usize>) -> Seq<nat> {
    Seq::new(hs.len(), |i: int| hs[i] as nat)
}

impl View for FieldValue {
    type V = FieldValueV;

    open spec fn view(&self) -> FieldValueV {
        match self {
            FieldValue::Primitive(p) => FieldValueV::Primitive(p@),
            FieldValue::Nested(h) => FieldValueV::Nested(*h as nat),
            FieldValue::VecOfPrimitive(ps) => FieldValueV::VecOfPrimitive(ps.deep_view()),
            FieldValue::VecOfNested(hs) => FieldValueV::VecOfNested(handles_view(hs@)),
            FieldValue::OptionalPrimitive(o) => FieldValueV::OptionalPrimitive(
                match o {
                    Some(p) => Some(p@),
                    None => None,
                },
            ),
            FieldValue::OptionalNested(o) => FieldValueV::OptionalNested(
                match o {
                    Some(h) => Some(*h as nat),
                    None => None,
                },
            ),
        }
    }
}

impl DeepView for FieldValue {
    type V = FieldValueV;

    open spec fn deep_view(&self) -> FieldValueV {
        self.view()
    }
}

/// One reflection row: a field's name, its storage column, the name of its
/// declared type, its attribute set, and its value.
#[derive(Debug)]
pub struct FieldTuple {
    pub field_name: String,
    pub column_name: String,
    pub ty_name: String,
    pub attrs: Vec<FieldAttr>,
    pub value: FieldValue,
}

/// The view of one reflection row.
pub struct FieldTupleV {
    pub field_name: Seq<char>,
    pub column_name: Seq<char>,
    pub ty_name: Seq<char>,
    pub attrs: Seq<FieldAttr>,
    pub value: FieldValueV,
}

impl View for FieldTuple {
    type V = FieldTupleV;

    open spec fn view(&self) -> FieldTupleV {
        FieldTupleV {
            field_name: self.field_name@,
            column_name: self.column_name@,
            ty_name: self.ty_name@,
            attrs: self.attrs@,
            value: self.value@,
        }
    }
}

impl DeepView for FieldTuple {
    type V = FieldTupleV;

    open spec fn deep_view(&self) -> FieldTupleV {
        self.view()
    }
}

/// The arena that holds the reflected entries a traversal may descend into.
/// A handle is an index into `entries`; a sound handle always points at an
/// entry recorded before the row that holds it.
#[derive(Debug)]
pub struct ReflectionArena {
    pub entries: Vec<Vec<FieldTuple>>,
}

impl View for ReflectionArena {
    type V = Seq<Seq<FieldTupleV>>;

    open spec fn view(&self) -> Seq<Seq<FieldTupleV>> {
        self.entries.deep_view()
    }
}

impl ReflectionArena {
    /// An arena with no entries.
    pub fn new() -> (r: ReflectionArena)
        ensures
            r@ == Seq::<Seq<FieldTupleV>>::empty(),
    {
        let r = ReflectionArena { entries: Vec::new() };
        proof {
            assert(r@ =~= Seq::<Seq<FieldTupleV>>::empty());
        }
        r
    }

    /// Records one reflected entry and hands back its handle.
    pub fn push_entry(&mut self, rows: Vec<FieldTuple>) -> (h: usize)
        ensures
            h as nat == old(self)@.len(),
            final(self)@ == old(self)@.push(rows.deep_view()),
    {
        let ghost rows_dv = rows.deep_view();
        let h = self.entries.len();
        self.entries.push(rows);
        proof {
            assert(self@ =~= old(self)@.push(rows_dv));
        }
        h
    }

    /// The number of entries recorded so far.
    pub fn len(&self) -> (n: usize)
        ensures
            n as nat == self@.len(),
    {
        self.entries.len()
    }
}

/// The decimal digit character for a value below ten.
pub open spec fn dec_digit(d: int) -> char {
    ((48 + d) as u8) as char
}

/// The decimal form of an unsigned number.
pub open spec fn spec_u64_string(n: nat) -> Seq<char>
    decreases n,
{
    if n < 10 {
        seq![dec_digit(n as int)]
    } else {
        spec_u64_string(n / 10) + seq![dec_digit((n % 10) as int)]
    }
}

/// The decimal form of a signed number.
pub open spec fn spec_i64_string(n: int) -> Seq<char> {
    if n >= 0 {
        spec_u64_string(n as nat)
    } else {
        seq!['-'] + spec_u64_string((-n) as nat)
    }
}

fn dec_digit_exec(d: u64) -> (c: char)
    requires
        d < 10,
    ensures
        c == dec_digit(d as int),
{
    match d {
        0 => '0',
        1 => '1',
        2 => '2',
        3 => '3',
        4 => '4',
        5 => '5',
        6 => '6',
        7 => '7',
        8 => '8',
        _ => '9',
    }
}

/// The decimal digits of `n`.
fn u64_dec_chars(n: u64) -> (r: Vec<char>)
    ensures
        r@ == spec_u64_string(n as nat),
    decreases n,
{
    if n < 10 {
        let mut out: Vec<char> = Vec::new();
        out.push(dec_digit_exec(n));
        proof {
            assert(out@ =~= spec_u64_string(n as nat));
        }
        out
    } else {
        let mut out = u64_dec_chars(n / 10);
        out.push(dec_digit_exec(n % 10));
        proof {
            assert(out@ =~= spec_u64_string(n as nat));
        }
        out
    }
}

/// The decimal digits of `n`, with a leading minus sign when negative.
fn i64_dec_chars(n: i64) -> (r: Vec<char>)
    ensures
        r@ == spec_i64_string(n as int),
{
    if n >= 0 {
        u64_dec_chars(n as u64)
    } else {
        let mag: u64 = ((-(n + 1)) as u64) + 1;
        proof {
            assert(mag as nat == (-(n as int)) as nat);
        }
        let mut out: Vec<char> = Vec::new();
        out.push('-');
        let digits = u64_dec_chars(mag);
        crate::text::push_chars(&mut out, &digits);
        proof {
            assert(out@ =~= spec_i64_string(n as int));
        }
        out
    }
}

/// The display form of a primitive value: `true`/`false`, decimal digits, or
/// the text in double quotes.
pub open spec fn spec_prim_string(p: PrimV) -> Seq<char> {
    match p {
        PrimV::Bool(b) => if b {
            "true"@
        } else {
            "false"@
        },
        PrimV::I32(n) => spec_i64_string(n as int),
        PrimV::I64(n) => spec_i64_string(n as int),
        PrimV::U32(n) => spec_u64_string(n as nat),
        PrimV::U64(n) => spec_u64_string(n as nat),
        PrimV::Str(s) => "\""@ + s + "\""@,
    }
}

/// The display form of a primitive value.
pub fn prim_string_chars(p: &PrimValue) -> (r: Vec<char>)
    ensures
        r@ == spec_prim_string(p@),
{
    match p {
        PrimValue::Bool(b) => {
            let mut out: Vec<char> = Vec::new();
            if *b {
                push_str_chars(&mut out, "true");
            } else {
                push_str_chars(&mut out, "false");
            }
            out
        },
        PrimValue::I32(n) => i64_dec_chars(*n as i64),
        PrimValue::I64(n) => i64_dec_chars(*n),
        PrimValue::U32(n) => u64_dec_chars(*n as u64),
        PrimValue::U64(n) => u64_dec_chars(*n),
        PrimValue::Str(s) => {
            let mut out: Vec<char> = Vec::new();
            push_str_chars(&mut out, "\"");
            push_str_chars(&mut out, s.as_str());
            push_str_chars(&mut out, "\"");
            out
        },
    }
}

/// The one-line summary of a field value: primitives shown in full, nested
/// values only by shape.
pub open spec fn spec_value_summary(v: FieldValueV) -> Seq<char> {
    match v {
        FieldValueV::Primitive(p) => "Primitive("@ + spec_prim_string(p) + ")"@,
        FieldValueV::Nested(_) => "Nested(<MetaTuple>)"@,
        FieldValueV::VecOfPrimitive(ps) => "VecOfPrimitive(["@ + spec_prim_list(ps) + "])"@,
        FieldValueV::VecOfNested(_) => "VecOfNested(<MetaTuple>...)"@,
        FieldValueV::OptionalPrimitive(Some(p)) => "OptionalPrimitive(Some("@ + spec_prim_string(p)
            + "))"@,
        FieldValueV::OptionalPrimitive(None) => "OptionalPrimitive(None)"@,
        FieldValueV::OptionalNested(Some(_)) => "OptionalNested(<MetaTuple>)"@,
        FieldValueV::OptionalNested(None) => "OptionalNested(None)"@,
    }
}

impl FieldValue {
    /// The one-line summary of this value.
    pub fn fmt(&self) -> (r: String)
        ensures
            r@ == spec_value_summary(self@),
    {
        let mut out: Vec<char> = Vec::new();
        match self {
            FieldValue::Primitive(p) => {
                push_str_chars(&mut out, "Primitive(");
                let t = prim_string_chars(p);
                crate::text::push_chars(&mut out, &t);
                push_str_chars(&mut out, ")");
            },
            FieldValue::Nested(_) => {
                push_str_chars(&mut out, "Nested(<MetaTuple>)");
            },
            FieldValue::VecOfPrimitive(ps) => {
                push_str_chars(&mut out, "VecOfPrimitive([");
                push_prim_list(&mut out, ps);
                push_str_chars(&mut out, "])");
            },
            FieldValue::VecOfNested(_) => {
                push_str_chars(&mut out, "VecOfNested(<MetaTuple>...)");
            },
            FieldValue::OptionalPrimitive(opt) => {
                match opt {
                    Some(p) => {
                        push_str_chars(&mut out, "OptionalPrimitive(Some(");
                        let t = prim_string_chars(p);
                        crate::text::push_chars(&mut out, &t);
                        push_str_chars(&mut out, "))");
                    },
                    None => {
                        push_str_chars(&mut out, "OptionalPrimitive(None)");
                    },
                }
            },
            FieldValue::OptionalNested(opt) => {
                match opt {
                    Some(_) => {
                        push_str_chars(&mut out, "OptionalNested(<MetaTuple>)");
                    },
                    None => {
                        push_str_chars(&mut out, "OptionalNested(None)");
                    },
                }
            },
        }
        chars_to_string(&out)
    }
}

impl FieldTuple {
    /// The one-line summary of this row: its field name and its value.
    pub fn fmt(&self) -> (r: String)
        ensures
            r@ == self.field_name@ + " = "@ + spec_value_summary(self.value@),
    {
        let mut out: Vec<char> = Vec::new();
        push_str_chars(&mut out, self.field_name.as_str());
        push_str_chars(&mut out, " = ");
        let v = self.value.fmt();
        push_str_chars(&mut out, v.as_str());
        chars_to_string(&out)
    }
}

/// Two spaces per nesting level.
pub open spec fn spec_indent(n: nat) -> Seq<char>
    decreases n,
{
    if n == 0 {
        Seq::empty()
    } else {
        "  "@ + spec_indent((n - 1) as nat)
    }
}

proof fn lemma_indent_snoc(n: nat)
    ensures
        spec_indent(n + 1) == spec_indent(n) + "  "@,
    decreases n,
{
    if n == 0 {
        assert(spec_indent(1) =~= spec_indent(0) + "  "@);
    } else {
        lemma_indent_snoc((n - 1) as nat);
        assert(spec_indent(n + 1) =~= spec_indent(n) + "  "@);
    }
}

fn push_indent(out: &mut Vec<char>, indent: usize)
    ensures
        final(out)@ == old(out)@ + spec_indent(indent as nat),
{
    let mut j: usize = 0;
    proof {
        assert(out@ =~= old(out)@ + spec_indent(0));
    }
    while j < indent
        invariant
            j <= indent,
            out@ == old(out)@ + spec_indent(j as nat),
        decreases indent - j,
    {
        push_str_chars(out, "  ");
        proof {
            lemma_indent_snoc(j as nat);
            assert(out@ =~= old(out)@ + spec_indent(j as nat + 1));
        }
        j = j + 1;
    }
}

/// The display of primitive list elements, joined by `", "`: the tail part.
pub open spec fn spec_prim_list_tail(ps: Seq<PrimV>) -> Seq<char>
    decreases ps.len(),
{
    if ps.len() == 0 {
        Seq::empty()
    } else {
        ", "@ + spec_prim_string(ps[0]) + spec_prim_list_tail(ps.skip(1))
    }
}

/// The display of primitive list elements, joined by `", "`.
pub open spec fn spec_prim_list(ps: Seq<PrimV>) -> Seq<char> {
    if ps.len() == 0 {
        Seq::empty()
    } else {
        spec_prim_string(ps[0]) + spec_prim_list_tail(ps.skip(1))
    }
}

fn push_prim_list(out: &mut Vec<char>, ps: &Vec<PrimValue>)
    ensures
        final(out)@ == old(out)@ + spec_prim_list(ps.deep_view()),
{
    let n = ps.len();
    if n == 0 {
        return ;
    }
    let head = prim_string_chars(&ps[0]);
    crate::text::push_chars(out, &head);
    let mut k: usize = 1;
    while k < n
        invariant
            1 <= k <= n,
            n == ps@.len(),
            out@ + spec_prim_list_tail(ps.deep_view().skip(k as int)) == old(out)@
                + spec_prim_list(ps.deep_view()),
        decreases n - k,
    {
        proof {
            assert(ps.deep_view().skip(k as int)[0] == ps.deep_view()[k as int]);
            assert(ps.deep_view().skip(k as int).skip(1) =~= ps.deep_view().skip(k as int + 1));
        }
        push_str_chars(out, ", ");
        let e = prim_string_chars(&ps[k]);
        crate::text::push_chars(out, &e);
        k = k + 1;
    }
    proof {
        assert(ps.deep_view().skip(n as int) =~= Seq::<PrimV>::empty());
        assert(out@ =~= old(out)@ + spec_prim_list(ps.deep_view()));
    }
}

/// The rendered text of the rows, depth-first, two spaces deeper per level;
/// rows flagged `ExcludeString` contribute nothing. `Err` carries the first
/// handle that does not point below `bound`.
pub open spec fn spec_render_rows(
    arena: Seq<Seq<FieldTupleV>>,
    rows: Seq<FieldTupleV>,
    bound: nat,
    indent: nat,
) -> Result<Seq<char>, nat>
    decreases bound, 1nat, rows.len(),
{
    if rows.len() == 0 {
        Ok(Seq::empty())
    } else {
        let row = rows[0];
        let head: Result<Seq<char>, nat> = if row.attrs.contains(FieldAttr::ExcludeString) {
            Ok(Seq::empty())
        } else {
            let prefix = spec_indent(indent) + row.field_name + ": "@;
            match row.value {
                FieldValueV::Primitive(p) => Ok(prefix + spec_prim_string(p) + "\n"@),
                FieldValueV::Nested(h) => if h < bound {
                    match spec_render_rows(arena, arena[h as int], h, indent + 1) {
                        Ok(body) => Ok(prefix + "<Nested>\n"@ + body),
                        Err(x) => Err(x),
                    }
                } else {
                    Err(h)
                },
                FieldValueV::VecOfPrimitive(ps) => Ok(
                    prefix + "["@ + spec_prim_list(ps) + "]\n"@,
                ),
                FieldValueV::VecOfNested(hs) => match spec_render_handles(
                    arena,
                    hs,
                    bound,
                    indent + 1,
                ) {
                    Ok(body) => Ok(prefix + "<Vec<Nested>>\n"@ + body),
                    Err(x) => Err(x),
                },
                FieldValueV::OptionalPrimitive(Some(p)) => Ok(
                    prefix + "Optional("@ + spec_prim_string(p) + ")\n"@,
                ),
                FieldValueV::OptionalPrimitive(None) => Ok(prefix + "None\n"@),
                FieldValueV::OptionalNested(Some(h)) => if h < bound {
                    match spec_render_rows(arena, arena[h as int], h, indent + 1) {
                        Ok(body) => Ok(prefix + "<Optional Nested>\n"@ + body),
                        Err(x) => Err(x),
                    }
                } else {
                    Err(h)
                },
                FieldValueV::OptionalNested(None) => Ok(prefix + "None\n"@),
            }
        };
        match head {
            Err(x) => Err(x),
            Ok(text) => match spec_render_rows(arena, rows.skip(1), bound, indent) {
                Err(x) => Err(x),
                Ok(rest) => Ok(text + rest),
            },
        }
    }
}

/// The rendered entries behind a list of handles, in order.
pub open spec fn spec_render_handles(
    arena: Seq<Seq<FieldTupleV>>,
    hs: Seq<nat>,
    bound: nat,
    indent: nat,
) -> Result<Seq<char>, nat>
    decreases bound, 0nat, hs.len(),
{
    if hs.len() == 0 {
        Ok(Seq::empty())
    } else if hs[0] < bound {
        match spec_render_rows(arena, arena[hs[0] as int], hs[0], indent) {
            Err(x) => Err(x),
            Ok(head) => match spec_render_handles(arena, hs.skip(1), bound, indent) {
                Err(x) => Err(x),
                Ok(rest) => Ok(head + rest),
            },
        }
    } else {
        Err(hs[0])
    }
}

fn render_rows_exec(
    arena: &ReflectionArena,
    rows: &Vec<FieldTuple>,
    i: usize,
    bound: usize,
    indent: usize,
) -> (r: Result<Vec<char>, MetaError>)
    requires
        bound as nat <= arena@.len(),
        indent as nat + bound as nat <= usize::MAX as nat,
        i <= rows@.len(),
    ensures
        match (r, spec_render_rows(
            arena@,
            rows.deep_view().skip(i as int),
            bound as nat,
            indent as nat,
        )) {
            (Ok(v), Ok(s)) => v@ == s,
            (Err(MetaError::DanglingReflectionReference { handle }), Err(h)) => handle as nat == h,
            _ => false,
        },
    decreases bound, 1int, rows@.len() - i,
{
    let n = rows.len();
    if i == n {
        proof {
            assert(rows.deep_view().skip(n as int) =~= Seq::<FieldTupleV>::empty());
        }
        return Ok(Vec::new());
    }
    let ghost rows_dv = rows.deep_view();
    proof {
        assert(rows_dv.skip(i as int)[0] == rows_dv[i as int]);
        assert(rows_dv.skip(i as int).skip(1) =~= rows_dv.skip(i as int + 1));
        assert(rows_dv[i as int] == rows@[i as int]@);
    }
    let row = &rows[i];
    let mut head: Vec<char> = Vec::new();
    if !crate::ir::attrs_contain(&row.attrs, FieldAttr::ExcludeString) {
        push_indent(&mut head, indent);
        push_str_chars(&mut head, row.field_name.as_str());
        push_str_chars(&mut head, ": ");
        match &row.value {
            FieldValue::Primitive(p) => {
                let t = prim_string_chars(p);
                crate::text::push_chars(&mut head, &t);
                push_str_chars(&mut head, "\n");
            },
            FieldValue::Nested(h) => {
                if *h < bound {
                    let entry = &arena.entries[*h];
                    proof {
                        assert(entry.deep_view() == arena@[*h as int]);
                        assert(entry.deep_view().skip(0) =~= entry.deep_view());
                    }
                    match render_rows_exec(arena, entry, 0, *h, indent + 1) {
                        Ok(body) => {
                            push_str_chars(&mut head, "<Nested>\n");
                            crate::text::push_chars(&mut head, &body);
                        },
                        Err(e) => {
                            return Err(e);
                        },
                    }
                } else {
                    return Err(MetaError::DanglingReflectionReference { handle: *h });
                }
            },
            FieldValue::VecOfPrimitive(ps) => {
                push_str_chars(&mut head, "[");
                push_prim_list(&mut head, ps);
                push_str_chars(&mut head, "]\n");
            },
            FieldValue::VecOfNested(hs) => {
                proof {
                    assert(handles_view(hs@).skip(0) =~= handles_view(hs@));
                }
                if hs.len() == 0 {
                    push_str_chars(&mut head, "<Vec<Nested>>\n");
                    proof {
                        assert(head@ + Seq::<char>::empty() =~= head@);
                    }
                } else if bound == 0 {
                    proof {
                        assert(handles_view(hs@)[0] == hs@[0] as nat);
                        assert(rows_dv.skip(i as int)[0].value == FieldValueV::VecOfNested(
                            handles_view(hs@),
                        ));
                        assert(!rows_dv.skip(i as int)[0].attrs.contains(FieldAttr::ExcludeString));
                        assert(spec_render_handles(
                            arena@,
                            handles_view(hs@),
                            bound as nat,
                            indent as nat + 1,
                        ) == Err::<Seq<char>, nat>(hs@[0] as nat));
                        assert(spec_render_rows(
                            arena@,
                            rows_dv.skip(i as int),
                            bound as nat,
                            indent as nat,
                        ) == Err::<Seq<char>, nat>(hs@[0] as nat));
                    }
                    return Err(MetaError::DanglingReflectionReference { handle: hs[0] });
                } else {
                    match render_handles_exec(arena, hs, 0, bound, indent + 1) {
                        Ok(body) => {
                            push_str_chars(&mut head, "<Vec<Nested>>\n");
                            crate::text::push_chars(&mut head, &body);
                        },
                        Err(e) => {
                            return Err(e);
                        },
                    }
                }
            },
            FieldValue::OptionalPrimitive(opt) => {
                match opt {
                    Some(p) => {
                        push_str_chars(&mut head, "Optional(");
                        let t = prim_string_chars(p);
                        crate::text::push_chars(&mut head, &t);
                        push_str_chars(&mut head, ")\n");
                    },
                    None => {
                        push_str_chars(&mut head, "None\n");
                    },
                }
            },
            FieldValue::OptionalNested(opt) => {
                match opt {
                    Some(h) => {
                        if *h < bound {
                            let entry = &arena.entries[*h];
                            proof {
                                assert(entry.deep_view() == arena@[*h as int]);
                                assert(entry.deep_view().skip(0) =~= entry.deep_view());
                            }
                            match render_rows_exec(arena, entry, 0, *h, indent + 1) {
                                Ok(body) => {
                                    push_str_chars(&mut head, "<Optional Nested>\n");
                                    crate::text::push_chars(&mut head, &body);
                                },
                                Err(e) => {
                                    return Err(e);
                                },
                            }
                        } else {
                            return Err(MetaError::DanglingReflectionReference { handle: *h });
                        }
                    },
                    None => {
                        push_str_chars(&mut head, "None\n");
                    },
                }
            },
        }
    }
    match render_rows_exec(arena, rows, i + 1, bound, indent) {
        Err(e) => Err(e),
        Ok(rest) => {
            let mut out = head;
            crate::text::push_chars(&mut out, &rest);
            Ok(out)
        },
    }
}

fn render_handles_exec(
    arena: &ReflectionArena,
    hs: &Vec<usize>,
    j: usize,
    bound: usize,
    indent: usize,
) -> (r: Result<Vec<char>, MetaError>)
    requires
        bound as nat <= arena@.len(),
        indent as nat + bound as nat <= usize::MAX as nat + 1,
        j <= hs@.len(),
    ensures
        match (r, spec_render_handles(
            arena@,
            handles_view(hs@).skip(j as int),
            bound as nat,
            indent as nat,
        )) {
            (Ok(v), Ok(s)) => v@ == s,
            (Err(MetaError::DanglingReflectionReference { handle }), Err(h)) => handle as nat == h,
            _ => false,
        },
    decreases bound, 0int, hs@.len() - j,
{
    let n = hs.len();
    if j == n {
        proof {
            assert(handles_view(hs@).skip(n as int) =~= Seq::<nat>::empty());
        }
        return Ok(Vec::new());
    }
    proof {
        assert(handles_view(hs@).skip(j as int)[0] == handles_view(hs@)[j as int]);
        assert(handles_view(hs@).skip(j as int).skip(1) =~= handles_view(hs@).skip(j as int + 1));
    }
    let h = hs[j];
    if h < bound {
        let entry = &arena.entries[h];
        proof {
            assert(entry.deep_view() == arena@[h as int]);
            assert(entry.deep_view().skip(0) =~= entry.deep_view());
        }
        match render_rows_exec(arena, entry, 0, h, indent) {
            Err(e) => Err(e),
            Ok(head) => match render_handles_exec(arena, hs, j + 1, bound, indent) {
                Err(e) => Err(e),
                Ok(rest) => {
                    let mut out = head;
                    crate::text::push_chars(&mut out, &rest);
                    Ok(out)
                },
            },
        }
    } else {
        Err(MetaError::DanglingReflectionReference { handle: h })
    }
}

/// Renders the rows of a reflected value as indented text, depth-first,
/// descending into nested entries; fields flagged `ExcludeString` are
/// skipped. Fails closed on a handle that does not point at an earlier
/// entry.
pub fn render_meta(arena: &ReflectionArena, rows: &Vec<FieldTuple>) -> (r: Result<
    String,
    MetaError,
>)
    ensures
        match (r, spec_render_rows(arena@, rows.deep_view(), arena@.len(), 0)) {
            (Ok(v), Ok(s)) => v@ == s,
            (Err(MetaError::DanglingReflectionReference { handle }), Err(h)) => handle as nat == h,
            _ => false,
        },
{
    let bound = arena.entries.len();
    proof {
        assert(rows.deep_view().skip(0) =~= rows.deep_view());
    }
    match render_rows_exec(arena, rows, 0, bound, 0) {
        Ok(v) => Ok(chars_to_string(&v)),
        Err(e) => Err(e),
    }
}

/// Whether two primitive values are equal.
pub fn prim_eq(p: &PrimValue, q: &PrimValue) -> (r: bool)
    ensures
        r == (p@ == q@),
{
    match (p, q) {
        (PrimValue::Bool(a), PrimValue::Bool(b)) => a == b,
        (PrimValue::I32(a), PrimValue::I32(b)) => a == b,
        (PrimValue::I64(a), PrimValue::I64(b)) => a == b,
        (PrimValue::U32(a), PrimValue::U32(b)) => a == b,
        (PrimValue::U64(a), PrimValue::U64(b)) => a == b,
        (PrimValue::Str(a), PrimValue::Str(b)) => str_eq(a.as_str(), b.as_str()),
        _ => false,
    }
}

/// Whether two row sequences describe equal values: same length, same field
/// names, and equal values position by position, descending into nested
/// entries; a field flagged `ExcludeCompare` on either side is skipped.
/// `Err` carries the first handle that does not point below its bound.
pub open spec fn spec_eq_rows(
    a: Seq<Seq<FieldTupleV>>,
    x: Seq<FieldTupleV>,
    ba: nat,
    b: Seq<Seq<FieldTupleV>>,
    y: Seq<FieldTupleV>,
    bb: nat,
) -> Result<bool, nat>
    decreases ba + bb, 2nat, x.len(),
{
    if x.len() != y.len() {
        Ok(false)
    } else if x.len() == 0 {
        Ok(true)
    } else {
        let rx = x[0];
        let ry = y[0];
        let skip = rx.attrs.contains(FieldAttr::ExcludeCompare) || ry.attrs.contains(
            FieldAttr::ExcludeCompare,
        );
        let head: Result<bool, nat> = if skip {
            Ok(true)
        } else if rx.field_name != ry.field_name {
            Ok(false)
        } else {
            spec_eq_value(a, rx.value, ba, b, ry.value, bb)
        };
        match head {
            Err(h) => Err(h),
            Ok(false) => Ok(false),
            Ok(true) => spec_eq_rows(a, x.skip(1), ba, b, y.skip(1), bb),
        }
    }
}

/// Whether two field values are equal; values of different shapes never are.
pub open spec fn spec_eq_value(
    a: Seq<Seq<FieldTupleV>>,
    v1: FieldValueV,
    ba: nat,
    b: Seq<Seq<FieldTupleV>>,
    v2: FieldValueV,
    bb: nat,
) -> Result<bool, nat>
    decreases ba + bb, 1nat, 0nat,
{
    match (v1, v2) {
        (FieldValueV::Primitive(p), FieldValueV::Primitive(q)) => Ok(p == q),
        (FieldValueV::Nested(h1), FieldValueV::Nested(h2)) => if h1 >= ba {
            Err(h1)
        } else if h2 >= bb {
            Err(h2)
        } else {
            spec_eq_rows(a, a[h1 as int], h1, b, b[h2 as int], h2)
        },
        (FieldValueV::VecOfPrimitive(ps), FieldValueV::VecOfPrimitive(qs)) => Ok(ps == qs),
        (FieldValueV::VecOfNested(hs1), FieldValueV::VecOfNested(hs2)) => if hs1.len()
            != hs2.len() {
            Ok(false)
        } else {
            spec_eq_handles(a, hs1, ba, b, hs2, bb)
        },
        (FieldValueV::OptionalPrimitive(o1), FieldValueV::OptionalPrimitive(o2)) => Ok(o1 == o2),
        (FieldValueV::OptionalNested(None), FieldValueV::OptionalNested(None)) => Ok(true),
        (FieldValueV::OptionalNested(Some(h1)), FieldValueV::OptionalNested(Some(h2))) => if h1
            >= ba {
            Err(h1)
        } else if h2 >= bb {
            Err(h2)
        } else {
            spec_eq_rows(a, a[h1 as int], h1, b, b[h2 as int], h2)
        },
        (FieldValueV::OptionalNested(_), FieldValueV::OptionalNested(_)) => Ok(false),
        _ => Ok(false),
    }
}

/// Whether two equally long handle lists point at pairwise equal entries.
pub open spec fn spec_eq_handles(
    a: Seq<Seq<FieldTupleV>>,
    hs1: Seq<nat>,
    ba: nat,
    b: Seq<Seq<FieldTupleV>>,
    hs2: Seq<nat>,
    bb: nat,
) -> Result<bool, nat>
    decreases ba + bb, 0nat, hs1.len(),
{
    if hs1.len() == 0 || hs2.len() == 0 {
        Ok(hs1.len() == hs2.len())
    } else if hs1[0] >= ba {
        Err(hs1[0])
    } else if hs2[0] >= bb {
        Err(hs2[0])
    } else {
        match spec_eq_rows(a, a[hs1[0] as int], hs1[0], b, b[hs2[0] as int], hs2[0]) {
            Err(h) => Err(h),
            Ok(false) => Ok(false),
            Ok(true) => spec_eq_handles(a, hs1.skip(1), ba, b, hs2.skip(1), bb),
        }
    }
}

fn eq_rows_exec(
    arena_a: &ReflectionArena,
    x: &Vec<FieldTuple>,
    i: usize,
    ba: usize,
    arena_b: &ReflectionArena,
    y: &Vec<FieldTuple>,
    j: usize,
    bb: usize,
) -> (r: Result<bool, MetaError>)
    requires
        ba as nat <= arena_a@.len(),
        bb as nat <= arena_b@.len(),
        i <= x@.len(),
        j <= y@.len(),
    ensures
        match (r, spec_eq_rows(
            arena_a@,
            x.deep_view().skip(i as int),
            ba as nat,
            arena_b@,
            y.deep_view().skip(j as int),
            bb as nat,
        )) {
            (Ok(v), Ok(s)) => v == s,
            (Err(MetaError::DanglingReflectionReference { handle }), Err(h)) => handle as nat == h,
            _ => false,
        },
    decreases ba + bb, 2int, x@.len() - i,
{
    let nx = x.len();
    let ny = y.len();
    proof {
        assert(x.deep_view().skip(i as int).len() == nx - i);
        assert(y.deep_view().skip(j as int).len() == ny - j);
    }
    if nx - i != ny - j {
        return Ok(false);
    }
    if i == nx {
        return Ok(true);
    }
    proof {
        assert(x.deep_view().skip(i as int)[0] == x.deep_view()[i as int]);
        assert(x.deep_view().skip(i as int).skip(1) =~= x.deep_view().skip(i as int + 1));
        assert(y.deep_view().skip(j as int)[0] == y.deep_view()[j as int]);
        assert(y.deep_view().skip(j as int).skip(1) =~= y.deep_view().skip(j as int + 1));
    }
    let rx = &x[i];
    let ry = &y[j];
    let skip = crate::ir::attrs_contain(&rx.attrs, FieldAttr::ExcludeCompare)
        || crate::ir::attrs_contain(&ry.attrs, FieldAttr::ExcludeCompare);
    if !skip {
        if !str_eq(rx.field_name.as_str(), ry.field_name.as_str()) {
            return Ok(false);
        }
        match eq_value_exec(arena_a, &rx.value, ba, arena_b, &ry.value, bb) {
            Err(e) => {
                return Err(e);
            },
            Ok(false) => {
                return Ok(false);
            },
            Ok(true) => {},
        }
    }
    eq_rows_exec(arena_a, x, i + 1, ba, arena_b, y, j + 1, bb)
}

fn eq_value_exec(
    arena_a: &ReflectionArena,
    v1: &FieldValue,
    ba: usize,
    arena_b: &ReflectionArena,
    v2: &FieldValue,
    bb: usize,
) -> (r: Result<bool, MetaError>)
    requires
        ba as nat <= arena_a@.len(),
        bb as nat <= arena_b@.len(),
    ensures
        match (r, spec_eq_value(arena_a@, v1@, ba as nat, arena_b@, v2@, bb as nat)) {
            (Ok(v), Ok(s)) => v == s,
            (Err(MetaError::DanglingReflectionReference { handle }), Err(h)) => handle as nat == h,
            _ => false,
        },
    decreases ba + bb, 1int, 0int,
{
    match (v1, v2) {
        (FieldValue::Primitive(p), FieldValue::Primitive(q)) => Ok(prim_eq(p, q)),
        (FieldValue::Nested(h1), FieldValue::Nested(h2)) => {
            if *h1 >= ba {
                Err(MetaError::DanglingReflectionReference { handle: *h1 })
            } else if *h2 >= bb {
                Err(MetaError::DanglingReflectionReference { handle: *h2 })
            } else {
                let ea = &arena_a.entries[*h1];
                let eb = &arena_b.entries[*h2];
                proof {
                    assert(ea.deep_view() == arena_a@[*h1 as int]);
                    assert(eb.deep_view() == arena_b@[*h2 as int]);
                    assert(ea.deep_view().skip(0) =~= ea.deep_view());
                    assert(eb.deep_view().skip(0) =~= eb.deep_view());
                }
                eq_rows_exec(arena_a, ea, 0, *h1, arena_b, eb, 0, *h2)
            }
        },
        (FieldValue::VecOfPrimitive(ps), FieldValue::VecOfPrimitive(qs)) => Ok(prim_vec_eq(ps, qs)),
        (FieldValue::VecOfNested(hs1), FieldValue::VecOfNested(hs2)) => {
            if hs1.len() != hs2.len() {
                Ok(false)
            } else {
                proof {
                    assert(handles_view(hs1@).skip(0) =~= handles_view(hs1@));
                    assert(handles_view(hs2@).skip(0) =~= handles_view(hs2@));
                }
                eq_handles_exec(arena_a, hs1, ba, arena_b, hs2, bb, 0)
            }
        },
        (FieldValue::OptionalPrimitive(o1), FieldValue::OptionalPrimitive(o2)) => match (o1, o2) {
            (Some(p), Some(q)) => Ok(prim_eq(p, q)),
            (None, None) => Ok(true),
            _ => Ok(false),
        },
        (FieldValue::OptionalNested(o1), FieldValue::OptionalNested(o2)) => match (o1, o2) {
            (Some(h1), Some(h2)) => {
                if *h1 >= ba {
                    Err(MetaError::DanglingReflectionReference { handle: *h1 })
                } else if *h2 >= bb {
                    Err(MetaError::DanglingReflectionReference { handle: *h2 })
                } else {
                    let ea = &arena_a.entries[*h1];
                    let eb = &arena_b.entries[*h2];
                    proof {
                        assert(ea.deep_view() == arena_a@[*h1 as int]);
                        assert(eb.deep_view() == arena_b@[*h2 as int]);
                        assert(ea.deep_view().skip(0) =~= ea.deep_view());
                        assert(eb.deep_view().skip(0) =~= eb.deep_view());
                    }
                    eq_rows_exec(arena_a, ea, 0, *h1, arena_b, eb, 0, *h2)
                }
            },
            (None, None) => Ok(true),
            _ => Ok(false),
        },
        _ => Ok(false),
    }
}

/// Whether two primitive vectors hold equal values in the same order.
fn prim_vec_eq(ps: &Vec<PrimValue>, qs: &Vec<PrimValue>) -> (r: bool)
    ensures
        r == (ps.deep_view() == qs.deep_view()),
{
    let n = ps.len();
    if n != qs.len() {
        proof {
            assert(ps.deep_view().len() != qs.deep_view().len());
        }
        return false;
    }
    let mut k: usize = 0;
    while k < n
        invariant
            k <= n,
            n == ps@.len(),
            n == qs@.len(),
            forall|t: int| 0 <= t < k ==> ps.deep_view()[t] == qs.deep_view()[t],
        decreases n - k,
    {
        if !prim_eq(&ps[k], &qs[k]) {
            proof {
                assert(ps.deep_view()[k as int] != qs.deep_view()[k as int]);
            }
            return false;
        }
        k = k + 1;
    }
    proof {
        assert(ps.deep_view() =~= qs.deep_view());
    }
    true
}

fn eq_handles_exec(
    arena_a: &ReflectionArena,
    hs1: &Vec<usize>,
    ba: usize,
    arena_b: &ReflectionArena,
    hs2: &Vec<usize>,
    bb: usize,
    k: usize,
) -> (r: Result<bool, MetaError>)
    requires
        ba as nat <= arena_a@.len(),
        bb as nat <= arena_b@.len(),
        k <= hs1@.len(),
        k <= hs2@.len(),
        hs1@.len() == hs2@.len(),
    ensures
        match (r, spec_eq_handles(
            arena_a@,
            handles_view(hs1@).skip(k as int),
            ba as nat,
            arena_b@,
            handles_view(hs2@).skip(k as int),
            bb as nat,
        )) {
            (Ok(v), Ok(s)) => v == s,
            (Err(MetaError::DanglingReflectionReference { handle }), Err(h)) => handle as nat == h,
            _ => false,
        },
    decreases ba + bb, 0int, hs1@.len() - k,
{
    let n = hs1.len();
    if k == n {
        proof {
            assert(handles_view(hs1@).skip(n as int) =~= Seq::<nat>::empty());
            assert(handles_view(hs2@).skip(n as int) =~= Seq::<nat>::empty());
        }
        return Ok(true);
    }
    proof {
        assert(handles_view(hs1@).skip(k as int)[0] == hs1@[k as int] as nat);
        assert(handles_view(hs2@).skip(k as int)[0] == hs2@[k as int] as nat);
        assert(handles_view(hs1@).skip(k as int).skip(1) =~= handles_view(hs1@).skip(k as int + 1));
        assert(handles_view(hs2@).skip(k as int).skip(1) =~= handles_view(hs2@).skip(k as int + 1));
        assert(handles_view(hs1@).skip(k as int).len() == n - k);
    }
    let h1 = hs1[k];
    let h2 = hs2[k];
    if h1 >= ba {
        return Err(MetaError::DanglingReflectionReference { handle: h1 });
    }
    if h2 >= bb {
        return Err(MetaError::DanglingReflectionReference { handle: h2 });
    }
    let ea = &arena_a.entries[h1];
    let eb = &arena_b.entries[h2];
    proof {
        assert(ea.deep_view() == arena_a@[h1 as int]);
        assert(eb.deep_view() == arena_b@[h2 as int]);
        assert(ea.deep_view().skip(0) =~= ea.deep_view());
        assert(eb.deep_view().skip(0) =~= eb.deep_view());
    }
    match eq_rows_exec(arena_a, ea, 0, h1, arena_b, eb, 0, h2) {
        Err(e) => Err(e),
        Ok(false) => Ok(false),
        Ok(true) => eq_handles_exec(arena_a, hs1, ba, arena_b, hs2, bb, k + 1),
    }
}

/// Whether two reflected values are equal: rows compared position by
/// position, nested entries followed depth-first, fields flagged
/// `ExcludeCompare` skipped. Fails closed on a handle that does not point at
/// an earlier entry.
pub fn eq_meta(
    arena_a: &ReflectionArena,
    x: &Vec<FieldTuple>,
    arena_b: &ReflectionArena,
    y: &Vec<FieldTuple>,
) -> (r: Result<bool, MetaError>)
    ensures
        match (r, spec_eq_rows(
            arena_a@,
            x.deep_view(),
            arena_a@.len(),
            arena_b@,
            y.deep_view(),
            arena_b@.len(),
        )) {
            (Ok(v), Ok(s)) => v == s,
            (Err(MetaError::DanglingReflectionReference { handle }), Err(h)) => handle as nat == h,
            _ => false,
        },
{
    proof {
        assert(x.deep_view().skip(0) =~= x.deep_view());
        assert(y.deep_view().skip(0) =~= y.deep_view());
    }
    eq_rows_exec(arena_a, x, 0, arena_a.entries.len(), arena_b, y, 0, arena_b.entries.len())
}

/// The FNV-1a offset basis.
pub const FNV_OFFSET: u64 = 0xcbf29ce484222325;

/// The FNV-1a prime.
pub const FNV_PRIME: u64 = 0x100000001b3;

/// One FNV-1a step: xor the datum in, multiply by the prime, wrapping.
pub open spec fn fnv_step(h: u64, b: u64) -> u64 {
    vstd::wrapping::u64_specs::wrapping_mul(h ^ b, FNV_PRIME)
}

fn fnv_step_exec(h: u64, b: u64) -> (r: u64)
    ensures
        r == fnv_step(h, b),
{
    (h ^ b).wrapping_mul(FNV_PRIME)
}

/// The hash state after feeding each character of `s`.
pub open spec fn spec_hash_chars(h: u64, s: Seq<char>) -> u64
    decreases s.len(),
{
    if s.len() == 0 {
        h
    } else {
        spec_hash_chars(fnv_step(h, (s[0] as u32) as u64), s.skip(1))
    }
}

fn hash_chars_exec(h: u64, s: &str) -> (r: u64)
    ensures
        r == spec_hash_chars(h, s@),
{
    let n = s.unicode_len();
    let mut acc = h;
    let mut i: usize = 0;
    proof {
        assert(s@.skip(0) =~= s@);
    }
    while i < n
        invariant
            i <= n,
            n == s@.len(),
            spec_hash_chars(acc, s@.skip(i as int)) == spec_hash_chars(h, s@),
        decreases n - i,
    {
        proof {
            assert(s@.skip(i as int)[0] == s@[i as int]);
            assert(s@.skip(i as int).skip(1) =~= s@.skip(i as int + 1));
        }
        let c = s.get_char(i);
        acc = fnv_step_exec(acc, (c as u32) as u64);
        i = i + 1;
    }
    proof {
        assert(s@.skip(n as int) =~= Seq::<char>::empty());
    }
    acc
}

/// The tag fed before a primitive value's display form.
pub open spec fn prim_tag(p: PrimV) -> u64 {
    match p {
        PrimV::Bool(_) => 1,
        PrimV::I32(_) => 2,
        PrimV::I64(_) => 3,
        PrimV::U32(_) => 4,
        PrimV::U64(_) => 5,
        PrimV::Str(_) => 6,
    }
}

/// The hash state after feeding one primitive value: its tag, then its
/// display form.
pub open spec fn spec_hash_prim(h: u64, p: PrimV) -> u64 {
    spec_hash_chars(fnv_step(h, prim_tag(p)), spec_prim_string(p))
}

fn hash_prim_exec(h: u64, p: &PrimValue) -> (r: u64)
    ensures
        r == spec_hash_prim(h, p@),
{
    let tag: u64 = match p {
        PrimValue::Bool(_) => 1,
        PrimValue::I32(_) => 2,
        PrimValue::I64(_) => 3,
        PrimValue::U32(_) => 4,
        PrimValue::U64(_) => 5,
        PrimValue::Str(_) => 6,
    };
    let h1 = fnv_step_exec(h, tag);
    let text = prim_string_chars(p);
    let s = chars_to_string(&text);
    hash_chars_exec(h1, s.as_str())
}

/// The hash state after feeding each primitive of a list.
pub open spec fn spec_hash_prims(h: u64, ps: Seq<PrimV>) -> u64
    decreases ps.len(),
{
    if ps.len() == 0 {
        h
    } else {
        spec_hash_prims(spec_hash_prim(h, ps[0]), ps.skip(1))
    }
}

fn hash_prims_exec(h: u64, ps: &Vec<PrimValue>) -> (r: u64)
    ensures
        r == spec_hash_prims(h, ps.deep_view()),
{
    let n = ps.len();
    let mut acc = h;
    let mut k: usize = 0;
    proof {
        assert(ps.deep_view().skip(0) =~= ps.deep_view());
    }
    while k < n
        invariant
            k <= n,
            n == ps@.len(),
            spec_hash_prims(acc, ps.deep_view().skip(k as int)) == spec_hash_prims(
                h,
                ps.deep_view(),
            ),
        decreases n - k,
    {
        proof {
            assert(ps.deep_view().skip(k as int)[0] == ps.deep_view()[k as int]);
            assert(ps.deep_view().skip(k as int).skip(1) =~= ps.deep_view().skip(k as int + 1));
        }
        acc = hash_prim_exec(acc, &ps[k]);
        k = k + 1;
    }
    proof {
        assert(ps.deep_view().skip(n as int) =~= Seq::<PrimV>::empty());
    }
    acc
}

/// The hash state after feeding the rows: for each row not flagged
/// `ExcludeHash`, its field name and then its value, nested entries
/// depth-first. `Err` carries the first handle that does not point below
/// `bound`.
pub open spec fn spec_hash_rows(
    arena: Seq<Seq<FieldTupleV>>,
    rows: Seq<FieldTupleV>,
    bound: nat,
    h: u64,
) -> Result<u64, nat>
    decreases bound, 2nat, rows.len(),
{
    if rows.len() == 0 {
        Ok(h)
    } else {
        let row = rows[0];
        if row.attrs.contains(FieldAttr::ExcludeHash) {
            spec_hash_rows(arena, rows.skip(1), bound, h)
        } else {
            let h1 = spec_hash_chars(h, row.field_name);
            match spec_hash_value(arena, row.value, bound, h1) {
                Err(x) => Err(x),
                Ok(h2) => spec_hash_rows(arena, rows.skip(1), bound, h2),
            }
        }
    }
}

/// The hash state after feeding one field value: a shape tag, then the
/// content.
pub open spec fn spec_hash_value(
    arena: Seq<Seq<FieldTupleV>>,
    v: FieldValueV,
    bound: nat,
    h: u64,
) -> Result<u64, nat>
    decreases bound, 1nat, 0nat,
{
    match v {
        FieldValueV::Primitive(p) => Ok(spec_hash_prim(fnv_step(h, 10), p)),
        FieldValueV::Nested(hd) => if hd < bound {
            spec_hash_rows(arena, arena[hd as int], hd, fnv_step(h, 11))
        } else {
            Err(hd)
        },
        FieldValueV::VecOfPrimitive(ps) => Ok(
            spec_hash_prims(fnv_step(fnv_step(h, 12), ps.len() as u64), ps),
        ),
        FieldValueV::VecOfNested(hs) => spec_hash_handles(
            arena,
            hs,
            bound,
            fnv_step(fnv_step(h, 13), hs.len() as u64),
        ),
        FieldValueV::OptionalPrimitive(None) => Ok(fnv_step(fnv_step(h, 14), 0)),
        FieldValueV::OptionalPrimitive(Some(p)) => Ok(
            spec_hash_prim(fnv_step(fnv_step(h, 14), 1), p),
        ),
        FieldValueV::OptionalNested(None) => Ok(fnv_step(fnv_step(h, 15), 0)),
        FieldValueV::OptionalNested(Some(hd)) => if hd < bound {
            spec_hash_rows(arena, arena[hd as int], hd, fnv_step(fnv_step(h, 15), 1))
        } else {
            Err(hd)
        },
    }
}

/// The hash state after feeding each entry behind a list of handles.
pub open spec fn spec_hash_handles(
    arena: Seq<Seq<FieldTupleV>>,
    hs: Seq<nat>,
    bound: nat,
    h: u64,
) -> Result<u64, nat>
    decreases bound, 0nat, hs.len(),
{
    if hs.len() == 0 {
        Ok(h)
    } else if hs[0] < bound {
        match spec_hash_rows(arena, arena[hs[0] as int], hs[0], h) {
            Err(x) => Err(x),
            Ok(h1) => spec_hash_handles(arena, hs.skip(1), bound, h1),
        }
    } else {
        Err(hs[0])
    }
}

fn hash_rows_exec(arena: &ReflectionArena, rows: &Vec<FieldTuple>, i: usize, bound: usize, h: u64) -> (r:
    Result<u64, MetaError>)
    requires
        bound as nat <= arena@.len(),
        i <= rows@.len(),
    ensures
        match (r, spec_hash_rows(arena@, rows.deep_view().skip(i as int), bound as nat, h)) {
            (Ok(v), Ok(s)) => v == s,
            (Err(MetaError::DanglingReflectionReference { handle }), Err(x)) => handle as nat == x,
            _ => false,
        },
    decreases bound, 2int, rows@.len() - i,
{
    let n = rows.len();
    if i == n {
        proof {
            assert(rows.deep_view().skip(n as int) =~= Seq::<FieldTupleV>::empty());
        }
        return Ok(h);
    }
    proof {
        assert(rows.deep_view().skip(i as int)[0] == rows.deep_view()[i as int]);
        assert(rows.deep_view().skip(i as int).skip(1) =~= rows.deep_view().skip(i as int + 1));
    }
    let row = &rows[i];
    if crate::ir::attrs_contain(&row.attrs, FieldAttr::ExcludeHash) {
        hash_rows_exec(arena, rows, i + 1, bound, h)
    } else {
        let h1 = hash_chars_exec(h, row.field_name.as_str());
        match hash_value_exec(arena, &row.value, bound, h1) {
            Err(e) => Err(e),
            Ok(h2) => hash_rows_exec(arena, rows, i + 1, bound, h2),
        }
    }
}

fn hash_value_exec(arena: &ReflectionArena, v: &FieldValue, bound: usize, h: u64) -> (r: Result<
    u64,
    MetaError,
>)
    requires
        bound as nat <= arena@.len(),
    ensures
        match (r, spec_hash_value(arena@, v@, bound as nat, h)) {
            (Ok(x), Ok(s)) => x == s,
            (Err(MetaError::DanglingReflectionReference { handle }), Err(x)) => handle as nat == x,
            _ => false,
        },
    decreases bound, 1int, 0int,
{
    match v {
        FieldValue::Primitive(p) => Ok(hash_prim_exec(fnv_step_exec(h, 10), p)),
        FieldValue::Nested(hd) => {
            if *hd < bound {
                let entry = &arena.entries[*hd];
                proof {
                    assert(entry.deep_view() == arena@[*hd as int]);
                    assert(entry.deep_view().skip(0) =~= entry.deep_view());
                }
                hash_rows_exec(arena, entry, 0, *hd, fnv_step_exec(h, 11))
            } else {
                Err(MetaError::DanglingReflectionReference { handle: *hd })
            }
        },
        FieldValue::VecOfPrimitive(ps) => {
            proof {
                assert(ps.deep_view().len() == ps@.len());
            }
            Ok(hash_prims_exec(fnv_step_exec(fnv_step_exec(h, 12), ps.len() as u64), ps))
        },
        FieldValue::VecOfNested(hs) => {
            proof {
                assert(handles_view(hs@).skip(0) =~= handles_view(hs@));
                assert(handles_view(hs@).len() == hs@.len());
            }
            hash_handles_exec(arena, hs, 0, bound, fnv_step_exec(fnv_step_exec(h, 13), hs.len() as u64))
        },
        FieldValue::OptionalPrimitive(opt) => match opt {
            None => Ok(fnv_step_exec(fnv_step_exec(h, 14), 0)),
            Some(p) => Ok(hash_prim_exec(fnv_step_exec(fnv_step_exec(h, 14), 1), p)),
        },
        FieldValue::OptionalNested(opt) => match opt {
            None => Ok(fnv_step_exec(fnv_step_exec(h, 15), 0)),
            Some(hd) => {
                if *hd < bound {
                    let entry = &arena.entries[*hd];
                    proof {
                        assert(entry.deep_view() == arena@[*hd as int]);
                        assert(entry.deep_view().skip(0) =~= entry.deep_view());
                    }
                    hash_rows_exec(arena, entry, 0, *hd, fnv_step_exec(fnv_step_exec(h, 15), 1))
                } else {
                    Err(MetaError::DanglingReflectionReference { handle: *hd })
                }
            },
        },
    }
}

fn hash_handles_exec(arena: &ReflectionArena, hs: &Vec<usize>, j: usize, bound: usize, h: u64) -> (r:
    Result<u64, MetaError>)
    requires
        bound as nat <= arena@.len(),
        j <= hs@.len(),
    ensures
        match (r, spec_hash_handles(arena@, handles_view(hs@).skip(j as int), bound as nat, h)) {
            (Ok(x), Ok(s)) => x == s,
            (Err(MetaError::DanglingReflectionReference { handle }), Err(x)) => handle as nat == x,
            _ => false,
        },
    decreases bound, 0int, hs@.len() - j,
{
    let n = hs.len();
    if j == n {
        proof {
            assert(handles_view(hs@).skip(n as int) =~= Seq::<nat>::empty());
        }
        return Ok(h);
    }
    proof {
        assert(handles_view(hs@).skip(j as int)[0] == hs@[j as int] as nat);
        assert(handles_view(hs@).skip(j as int).skip(1) =~= handles_view(hs@).skip(j as int + 1));
    }
    let hd = hs[j];
    if hd < bound {
        let entry = &arena.entries[hd];
        proof {
            assert(entry.deep_view() == arena@[hd as int]);
            assert(entry.deep_view().skip(0) =~= entry.deep_view());
        }
        match hash_rows_exec(arena, entry, 0, hd, h) {
            Err(e) => Err(e),
            Ok(h1) => hash_handles_exec(arena, hs, j + 1, bound, h1),
        }
    } else {
        Err(MetaError::DanglingReflectionReference { handle: hd })
    }
}

/// Hashes a reflected value with FNV-1a, feeding field names and values
/// depth-first; fields flagged `ExcludeHash` contribute nothing. Fails
/// closed on a handle that does not point at an earlier entry.
pub fn hash_meta(arena: &ReflectionArena, rows: &Vec<FieldTuple>) -> (r: Result<u64, MetaError>)
    ensures
        match (r, spec_hash_rows(arena@, rows.deep_view(), arena@.len(), FNV_OFFSET)) {
            (Ok(v), Ok(s)) => v == s,
            (Err(MetaError::DanglingReflectionReference { handle }), Err(x)) => handle as nat == x,
            _ => false,
        },
{
    proof {
        assert(rows.deep_view().skip(0) =~= rows.deep_view());
    }
    hash_rows_exec(arena, rows, 0, arena.entries.len(), FNV_OFFSET)
}

/// Whether every handle of a value points below `bound`.
pub open spec fn value_handles_below(v: FieldValueV, bound: nat) -> bool {
    match v {
        FieldValueV::Nested(h) => h < bound,
        FieldValueV::VecOfNested(hs) => forall|i: int| 0 <= i < hs.len() ==> #[trigger] hs[i]
            < bound,
        FieldValueV::OptionalNested(Some(h)) => h < bound,
        _ => true,
    }
}

/// Whether every handle of the rows points below `bound`.
pub open spec fn rows_wf(rows: Seq<FieldTupleV>, bound: nat) -> bool {
    forall|i: int| 0 <= i < rows.len() ==> value_handles_below((#[trigger] rows[i]).value, bound)
}

/// Whether every entry's handles point strictly below the entry itself: the
/// soundness invariant of an arena, kept by recording every value before the
/// value that refers to it.
pub open spec fn arena_wf(arena: Seq<Seq<FieldTupleV>>) -> bool {
    forall|h: int| 0 <= h < arena.len() ==> rows_wf(#[trigger] arena[h], h as nat)
}

/// Rendering a well-formed tree never reports a dangling reference.
pub proof fn lemma_render_total(
    arena: Seq<Seq<FieldTupleV>>,
    rows: Seq<FieldTupleV>,
    bound: nat,
    indent: nat,
)
    requires
        arena_wf(arena),
        bound <= arena.len(),
        rows_wf(rows, bound),
    ensures
        spec_render_rows(arena, rows, bound, indent) is Ok,
    decreases bound, 1nat, rows.len(),
{
    if rows.len() > 0 {
        let row = rows[0];
        assert(value_handles_below(row.value, bound));
        if !row.attrs.contains(FieldAttr::ExcludeString) {
            match row.value {
                FieldValueV::Nested(h) => {
                    lemma_render_total(arena, arena[h as int], h, indent + 1);
                },
                FieldValueV::VecOfNested(hs) => {
                    lemma_render_handles_total(arena, hs, bound, indent + 1);
                },
                FieldValueV::OptionalNested(Some(h)) => {
                    lemma_render_total(arena, arena[h as int], h, indent + 1);
                },
                _ => {
                },
            }
        }
        assert forall|i: int| 0 <= i < rows.skip(1).len() implies value_handles_below(
            (#[trigger] rows.skip(1)[i]).value,
            bound,
        ) by {
            assert(rows.skip(1)[i] == rows[i + 1]);
        }
        lemma_render_total(arena, rows.skip(1), bound, indent);
    }
}

proof fn lemma_render_handles_total(
    arena: Seq<Seq<FieldTupleV>>,
    hs: Seq<nat>,
    bound: nat,
    indent: nat,
)
    requires
        arena_wf(arena),
        bound <= arena.len(),
        forall|i: int| 0 <= i < hs.len() ==> #[trigger] hs[i] < bound,
    ensures
        spec_render_handles(arena, hs, bound, indent) is Ok,
    decreases bound, 0nat, hs.len(),
{
    if hs.len() > 0 {
        lemma_render_total(arena, arena[hs[0] as int], hs[0], indent);
        lemma_render_handles_total(arena, hs.skip(1), bound, indent);
    }
}

/// Hashing a well-formed tree never reports a dangling reference, from any
/// state.
pub proof fn lemma_hash_total(
    arena: Seq<Seq<FieldTupleV>>,
    rows: Seq<FieldTupleV>,
    bound: nat,
    h: u64,
)
    requires
        arena_wf(arena),
        bound <= arena.len(),
        rows_wf(rows, bound),
    ensures
        spec_hash_rows(arena, rows, bound, h) is Ok,
    decreases bound, 2nat, rows.len(),
{
    if rows.len() > 0 {
        let row = rows[0];
        assert(value_handles_below(row.value, bound));
        if row.attrs.contains(FieldAttr::ExcludeHash) {
            assert forall|i: int| 0 <= i < rows.skip(1).len() implies value_handles_below(
                (#[trigger] rows.skip(1)[i]).value,
                bound,
            ) by {
                assert(rows.skip(1)[i] == rows[i + 1]);
            }
            lemma_hash_total(arena, rows.skip(1), bound, h);
        } else {
            let h1 = spec_hash_chars(h, row.field_name);
            lemma_hash_value_total(arena, row.value, bound, h1);
            match spec_hash_value(arena, row.value, bound, h1) {
                Err(_) => {
                },
                Ok(h2) => {
                    assert forall|i: int| 0 <= i < rows.skip(1).len() implies value_handles_below(
                        (#[trigger] rows.skip(1)[i]).value,
                        bound,
                    ) by {
                        assert(rows.skip(1)[i] == rows[i + 1]);
                    }
                    lemma_hash_total(arena, rows.skip(1), bound, h2);
                },
            }
        }
    }
}

proof fn lemma_hash_value_total(
    arena: Seq<Seq<FieldTupleV>>,
    v: FieldValueV,
    bound: nat,
    h: u64,
)
    requires
        arena_wf(arena),
        bound <= arena.len(),
        value_handles_below(v, bound),
    ensures
        spec_hash_value(arena, v, bound, h) is Ok,
    decreases bound, 1nat, 0nat,
{
    match v {
        FieldValueV::Nested(hd) => {
            lemma_hash_total(arena, arena[hd as int], hd, fnv_step(h, 11));
        },
        FieldValueV::VecOfNested(hs) => {
            lemma_hash_handles_total(
                arena,
                hs,
                bound,
                fnv_step(fnv_step(h, 13), hs.len() as u64),
            );
        },
        FieldValueV::OptionalNested(Some(hd)) => {
            lemma_hash_total(arena, arena[hd as int], hd, fnv_step(fnv_step(h, 15), 1));
        },
        _ => {
        },
    }
}

proof fn lemma_hash_handles_total(
    arena: Seq<Seq<FieldTupleV>>,
    hs: Seq<nat>,
    bound: nat,
    h: u64,
)
    requires
        arena_wf(arena),
        bound <= arena.len(),
        forall|i: int| 0 <= i < hs.len() ==> #[trigger] hs[i] < bound,
    ensures
        spec_hash_handles(arena, hs, bound, h) is Ok,
    decreases bound, 0nat, hs.len(),
{
    if hs.len() > 0 {
        lemma_hash_total(arena, arena[hs[0] as int], hs[0], h);
        match spec_hash_rows(arena, arena[hs[0] as int], hs[0], h) {
            Err(_) => {
            },
            Ok(h1) => {
                lemma_hash_handles_total(arena, hs.skip(1), bound, h1);
            },
        }
    }
}

/// On a well-formed tree, comparing a value with itself yields true, never
/// an error.
pub proof fn lemma_eq_reflexive(arena: Seq<Seq<FieldTupleV>>, x: Seq<FieldTupleV>, bound: nat)
    requires
        arena_wf(arena),
        bound <= arena.len(),
        rows_wf(x, bound),
    ensures
        spec_eq_rows(arena, x, bound, arena, x, bound) == Ok::<bool, nat>(true),
    decreases bound + bound, 2nat, x.len(),
{
    if x.len() > 0 {
        let row = x[0];
        assert(value_handles_below(row.value, bound));
        let skip = row.attrs.contains(FieldAttr::ExcludeCompare);
        if !skip {
            lemma_eq_value_reflexive(arena, row.value, bound);
        }
        assert forall|i: int| 0 <= i < x.skip(1).len() implies value_handles_below(
            (#[trigger] x.skip(1)[i]).value,
            bound,
        ) by {
            assert(x.skip(1)[i] == x[i + 1]);
        }
        lemma_eq_reflexive(arena, x.skip(1), bound);
    }
}

proof fn lemma_eq_value_reflexive(arena: Seq<Seq<FieldTupleV>>, v: FieldValueV, bound: nat)
    requires
        arena_wf(arena),
        bound <= arena.len(),
        value_handles_below(v, bound),
    ensures
        spec_eq_value(arena, v, bound, arena, v, bound) == Ok::<bool, nat>(true),
    decreases bound + bound, 1nat, 0nat,
{
    match v {
        FieldValueV::Nested(h) => {
            lemma_eq_reflexive(arena, arena[h as int], h);
        },
        FieldValueV::VecOfNested(hs) => {
            lemma_eq_handles_reflexive(arena, hs, bound);
        },
        FieldValueV::OptionalNested(Some(h)) => {
            lemma_eq_reflexive(arena, arena[h as int], h);
        },
        _ => {
        },
    }
}

proof fn lemma_eq_handles_reflexive(arena: Seq<Seq<FieldTupleV>>, hs: Seq<nat>, bound: nat)
    requires
        arena_wf(arena),
        bound <= arena.len(),
        forall|i: int| 0 <= i < hs.len() ==> #[trigger] hs[i] < bound,
    ensures
        spec_eq_handles(arena, hs, bound, arena, hs, bound) == Ok::<bool, nat>(true),
    decreases bound + bound, 0nat, hs.len(),
{
    if hs.len() > 0 {
        lemma_eq_reflexive(arena, arena[hs[0] as int], hs[0]);
        lemma_eq_handles_reflexive(arena, hs.skip(1), bound);
    }
}

/// Whether two row sequences agree except possibly in the values of rows
/// carrying the given attribute: same length, and position by position the
/// same names, columns, type names and attributes, with equal values
/// wherever the attribute is absent.
pub open spec fn rows_differ_only_in(
    x: Seq<FieldTupleV>,
    y: Seq<FieldTupleV>,
    a: FieldAttr,
) -> bool {
    &&& x.len() == y.len()
    &&& forall|k: int|
        0 <= k < x.len() ==> {
            let rx = #[trigger] x[k];
            let ry = #[trigger] y[k];
            &&& rx.field_name == ry.field_name
            &&& rx.column_name == ry.column_name
            &&& rx.ty_name == ry.ty_name
            &&& rx.attrs == ry.attrs
            &&& (rx.attrs.contains(a) || rx == ry)
        }
}

/// The hash ignores excluded fields: two row sequences that differ only in
/// the values of rows flagged `ExcludeHash` hash alike, from any state.
pub proof fn lemma_hash_ignores_excluded_field(
    arena: Seq<Seq<FieldTupleV>>,
    x: Seq<FieldTupleV>,
    y: Seq<FieldTupleV>,
    bound: nat,
    h: u64,
)
    requires
        rows_differ_only_in(x, y, FieldAttr::ExcludeHash),
    ensures
        spec_hash_rows(arena, x, bound, h) == spec_hash_rows(arena, y, bound, h),
    decreases x.len(),
{
    if x.len() > 0 {
        assert(x[0].attrs == y[0].attrs);
        assert(x.skip(1).len() == y.skip(1).len());
        assert forall|k: int| 0 <= k < x.skip(1).len() implies {
            let rx = #[trigger] x.skip(1)[k];
            let ry = #[trigger] y.skip(1)[k];
            &&& rx.field_name == ry.field_name
            &&& rx.column_name == ry.column_name
            &&& rx.ty_name == ry.ty_name
            &&& rx.attrs == ry.attrs
            &&& (rx.attrs.contains(FieldAttr::ExcludeHash) || rx == ry)
        } by {
            assert(x.skip(1)[k] == x[k + 1]);
            assert(y.skip(1)[k] == y[k + 1]);
        }
        if x[0].attrs.contains(FieldAttr::ExcludeHash) {
            lemma_hash_ignores_excluded_field(arena, x.skip(1), y.skip(1), bound, h);
        } else {
            assert(x[0] == y[0]);
            let h1 = spec_hash_chars(h, x[0].field_name);
            match spec_hash_value(arena, x[0].value, bound, h1) {
                Err(_) => {
                },
                Ok(h2) => {
                    lemma_hash_ignores_excluded_field(arena, x.skip(1), y.skip(1), bound, h2);
                },
            }
        }
    }
}

/// Equality ignores excluded fields: replacing the values of rows flagged
/// `ExcludeCompare` on one side leaves the comparison's outcome unchanged.
pub proof fn lemma_eq_ignores_excluded_field(
    a: Seq<Seq<FieldTupleV>>,
    x: Seq<FieldTupleV>,
    x2: Seq<FieldTupleV>,
    ba: nat,
    b: Seq<Seq<FieldTupleV>>,
    y: Seq<FieldTupleV>,
    bb: nat,
)
    requires
        rows_differ_only_in(x, x2, FieldAttr::ExcludeCompare),
    ensures
        spec_eq_rows(a, x, ba, b, y, bb) == spec_eq_rows(a, x2, ba, b, y, bb),
    decreases x.len(),
{
    if x.len() == y.len() && x.len() > 0 {
        assert(x[0].attrs == x2[0].attrs);
        assert(x[0].field_name == x2[0].field_name);
        assert forall|k: int| 0 <= k < x.skip(1).len() implies {
            let rx = #[trigger] x.skip(1)[k];
            let ry = #[trigger] x2.skip(1)[k];
            &&& rx.field_name == ry.field_name
            &&& rx.column_name == ry.column_name
            &&& rx.ty_name == ry.ty_name
            &&& rx.attrs == ry.attrs
            &&& (rx.attrs.contains(FieldAttr::ExcludeCompare) || rx == ry)
        } by {
            assert(x.skip(1)[k] == x[k + 1]);
            assert(x2.skip(1)[k] == x2[k + 1]);
        }
        let skip = x[0].attrs.contains(FieldAttr::ExcludeCompare) || y[0].attrs.contains(
            FieldAttr::ExcludeCompare,
        );
        if skip {
            lemma_eq_ignores_excluded_field(a, x.skip(1), x2.skip(1), ba, b, y.skip(1), bb);
        } else {
            assert(x[0] == x2[0]);
            lemma_eq_ignores_excluded_field(a, x.skip(1), x2.skip(1), ba, b, y.skip(1), bb);
        }
    }
}

} // verus!
