//! The type resolver: recursively lowers a `TypeIR` node to concrete
//! target-language syntax against a `LanguageTypeRegistry`.
//!
//! Templates use positional slots `{0}`…`{9}` and the variadic slot `{...}`,
//! which takes all arguments joined by `", "`. Unknown primitives, unknown
//! generic constructors and wrong argument counts are structured errors,
//! never a silently emitted placeholder.

use vstd::prelude::*;

use crate::ir::FieldDef;
use crate::ir::RegistryValidationFailure;
use crate::ir::ResolveError;
use crate::ir::StructDef;
use crate::ir::TypeIR;
use crate::registry::LanguageInfo;
use crate::registry::LanguageTypeRegistry;
use crate::registry::lookup;
use crate::registry::spec_lookup;
use crate::text::char_subrange;
use crate::text::chars_to_string;
use crate::text::push_str_chars;
use crate::text::str_chars;
use vstd::string::StringExecFns;

verus! {

pub open spec fn is_digit_char(c: char) -> bool {
    '0' <= c && c <= '9'
}

/// The numeric value of an ASCII digit.
pub open spec fn digit_val(c: char) -> int {
    c as u32 - '0' as u32
}

/// Whether the template starts with a positional slot `{d}`.
pub open spec fn starts_positional(t: Seq<char>) -> bool {
    t.len() >= 3 && t[0] == '{' && is_digit_char(t[1]) && t[2] == '}'
}

/// Whether the template starts with the variadic slot `{...}`.
pub open spec fn starts_variadic(t: Seq<char>) -> bool {
    t.len() >= 5 && t[0] == '{' && t[1] == '.' && t[2] == '.' && t[3] == '.' && t[4] == '}'
}

/// The number of positional slots in a template.
pub open spec fn slot_count(t: Seq<char>) -> nat
    decreases t.len(),
{
    if t.len() == 0 {
        0
    } else if starts_variadic(t) {
        slot_count(t.skip(5))
    } else if starts_positional(t) {
        1 + slot_count(t.skip(3))
    } else {
        slot_count(t.skip(1))
    }
}

/// Whether a template contains the variadic slot.
pub open spec fn has_variadic(t: Seq<char>) -> bool
    decreases t.len(),
{
    if t.len() == 0 {
        false
    } else if starts_variadic(t) {
        true
    } else if starts_positional(t) {
        has_variadic(t.skip(3))
    } else {
        has_variadic(t.skip(1))
    }
}

/// `sep` followed by each value, `sep`-separated: the tail of a join.
pub open spec fn spec_join_tail(vals: Seq<Seq<char>>, sep: Seq<char>) -> Seq<char>
    decreases vals.len(),
{
    if vals.len() == 0 {
        Seq::empty()
    } else {
        sep + vals[0] + spec_join_tail(vals.skip(1), sep)
    }
}

/// The values joined by `sep`.
pub open spec fn spec_join(vals: Seq<Seq<char>>, sep: Seq<char>) -> Seq<char> {
    if vals.len() == 0 {
        Seq::empty()
    } else {
        vals[0] + spec_join_tail(vals.skip(1), sep)
    }
}

/// The template with every positional slot replaced by the value of its
/// index and every variadic slot replaced by all values joined by `", "`.
/// A positional slot whose index is out of range is left as it stands; the
/// resolver's arity check keeps that from being reached.
pub open spec fn spec_subst(t: Seq<char>, vals: Seq<Seq<char>>) -> Seq<char>
    decreases t.len(),
{
    if t.len() == 0 {
        Seq::empty()
    } else if starts_variadic(t) {
        spec_join(vals, ", "@) + spec_subst(t.skip(5), vals)
    } else if starts_positional(t) && digit_val(t[1]) < vals.len() {
        vals[digit_val(t[1])] + spec_subst(t.skip(3), vals)
    } else {
        seq![t[0]] + spec_subst(t.skip(1), vals)
    }
}

fn is_digit_exec(c: char) -> (r: bool)
    ensures
        r == is_digit_char(c),
{
    '0' <= c && c <= '9'
}

fn digit_val_exec(c: char) -> (r: usize)
    requires
        is_digit_char(c),
    ensures
        r as int == digit_val(c),
{
    ((c as u32) - ('0' as u32)) as usize
}

/// Whether position `i` of `t` starts a variadic slot.
fn at_variadic(t: &Vec<char>, i: usize) -> (r: bool)
    requires
        i <= t@.len(),
    ensures
        r == starts_variadic(t@.skip(i as int)),
{
    let n = t.len();
    proof {
        if n - i >= 5 {
            assert forall|k: int| 0 <= k < 5 implies t@.skip(i as int)[k] == t@[i as int + k] by {}
        }
        assert(t@.skip(i as int).len() == n - i);
    }
    n - i >= 5 && t[i] == '{' && t[i + 1] == '.' && t[i + 2] == '.' && t[i + 3] == '.' && t[i + 4]
        == '}'
}

/// Whether position `i` of `t` starts a positional slot.
fn at_positional(t: &Vec<char>, i: usize) -> (r: bool)
    requires
        i <= t@.len(),
    ensures
        r == starts_positional(t@.skip(i as int)),
{
    let n = t.len();
    proof {
        if n - i >= 3 {
            assert forall|k: int| 0 <= k < 3 implies t@.skip(i as int)[k] == t@[i as int + k] by {}
        }
        assert(t@.skip(i as int).len() == n - i);
    }
    n - i >= 3 && t[i] == '{' && is_digit_exec(t[i + 1]) && t[i + 2] == '}'
}

/// The number of positional slots in a template.
fn slot_count_exec(t: &Vec<char>) -> (r: usize)
    ensures
        r as nat == slot_count(t@),
{
    let n = t.len();
    let mut count: usize = 0;
    let mut i: usize = 0;
    proof {
        assert(t@.skip(0) =~= t@);
    }
    while i < n
        invariant
            i <= n,
            count <= i,
            n == t@.len(),
            count + slot_count(t@.skip(i as int)) == slot_count(t@),
        decreases n - i,
    {
        if at_variadic(t, i) {
            proof {
                assert(t@.skip(i as int).skip(5) =~= t@.skip(i as int + 5));
            }
            i = i + 5;
        } else if at_positional(t, i) {
            proof {
                assert(t@.skip(i as int).skip(3) =~= t@.skip(i as int + 3));
            }
            count = count + 1;
            i = i + 3;
        } else {
            proof {
                assert(t@.skip(i as int).skip(1) =~= t@.skip(i as int + 1));
            }
            i = i + 1;
        }
    }
    proof {
        assert(t@.skip(n as int) =~= Seq::<char>::empty());
    }
    count
}

/// Whether a template contains the variadic slot.
fn has_variadic_exec(t: &Vec<char>) -> (r: bool)
    ensures
        r == has_variadic(t@),
{
    let n = t.len();
    let mut i: usize = 0;
    proof {
        assert(t@.skip(0) =~= t@);
    }
    while i < n
        invariant
            i <= n,
            n == t@.len(),
            has_variadic(t@.skip(i as int)) == has_variadic(t@),
        decreases n - i,
    {
        if at_variadic(t, i) {
            return true;
        } else if at_positional(t, i) {
            proof {
                assert(t@.skip(i as int).skip(3) =~= t@.skip(i as int + 3));
            }
            i = i + 3;
        } else {
            proof {
                assert(t@.skip(i as int).skip(1) =~= t@.skip(i as int + 1));
            }
            i = i + 1;
        }
    }
    proof {
        assert(t@.skip(n as int) =~= Seq::<char>::empty());
    }
    false
}

/// Appends the values joined by `sep` to `out`.
pub(crate) fn push_joined(out: &mut Vec<char>, vals: &Vec<String>, sep: &str)
    ensures
        final(out)@ == old(out)@ + spec_join(vals.deep_view(), sep@),
{
    let n = vals.len();
    if n == 0 {
        return ;
    }
    push_str_chars(out, vals[0].as_str());
    let mut k: usize = 1;
    while k < n
        invariant
            1 <= k <= n,
            n == vals@.len(),
            out@ + spec_join_tail(vals.deep_view().skip(k as int), sep@) == old(out)@ + spec_join(
                vals.deep_view(),
                sep@,
            ),
        decreases n - k,
    {
        proof {
            assert(vals.deep_view().skip(k as int)[0] == vals.deep_view()[k as int]);
            assert(vals.deep_view().skip(k as int).skip(1) =~= vals.deep_view().skip(k as int + 1));
        }
        push_str_chars(out, sep);
        push_str_chars(out, vals[k].as_str());
        k = k + 1;
    }
    proof {
        assert(vals.deep_view().skip(n as int) =~= Seq::<Seq<char>>::empty());
        assert(out@ =~= old(out)@ + spec_join(vals.deep_view(), sep@));
    }
}

/// Substitutes the values into the template's slots.
fn subst_chars(t: &Vec<char>, vals: &Vec<String>) -> (r: Vec<char>)
    ensures
        r@ == spec_subst(t@, vals.deep_view()),
{
    let n = t.len();
    let mut out: Vec<char> = Vec::new();
    let mut i: usize = 0;
    proof {
        assert(t@.skip(0) =~= t@);
    }
    while i < n
        invariant
            i <= n,
            n == t@.len(),
            out@ + spec_subst(t@.skip(i as int), vals.deep_view()) == spec_subst(
                t@,
                vals.deep_view(),
            ),
        decreases n - i,
    {
        if at_variadic(t, i) {
            proof {
                assert(t@.skip(i as int).skip(5) =~= t@.skip(i as int + 5));
            }
            push_joined(&mut out, vals, ", ");
            i = i + 5;
        } else {
            let positional = at_positional(t, i);
            let mut done = false;
            if positional {
                let dv = digit_val_exec(t[i + 1]);
                proof {
                    assert(t@.skip(i as int)[1] == t@[i as int + 1]);
                }
                if dv < vals.len() {
                    proof {
                        assert(t@.skip(i as int).skip(3) =~= t@.skip(i as int + 3));
                        assert(vals.deep_view()[dv as int] == vals@[dv as int]@);
                    }
                    push_str_chars(&mut out, vals[dv].as_str());
                    i = i + 3;
                    done = true;
                }
            }
            if !done {
                proof {
                    assert(t@.skip(i as int)[0] == t@[i as int]);
                    assert(t@.skip(i as int).skip(1) =~= t@.skip(i as int + 1));
                }
                out.push(t[i]);
                i = i + 1;
            }
        }
    }
    proof {
        assert(t@.skip(n as int) =~= Seq::<char>::empty());
        assert(out@ =~= spec_subst(t@, vals.deep_view()));
    }
    out
}

/// A resolution failure, stated over views.
pub enum SpecResolveError {
    UnknownPrimitive(Seq<char>),
    UnknownGenericConstructor(Seq<char>),
    ArityMismatch(Seq<char>, nat, nat),
}

/// Whether an executable error value carries the stated failure.
pub open spec fn err_matches(e: ResolveError, s: SpecResolveError) -> bool {
    match (e, s) {
        (ResolveError::UnknownPrimitive { name }, SpecResolveError::UnknownPrimitive(n)) => name@
            == n,
        (
            ResolveError::UnknownGenericConstructor { name },
            SpecResolveError::UnknownGenericConstructor(n),
        ) => name@ == n,
        (
            ResolveError::ArityMismatch { constructor, expected, actual },
            SpecResolveError::ArityMismatch(c, exp, act),
        ) => constructor@ == c && expected as nat == exp && actual as nat == act,
        _ => false,
    }
}

/// The resolution of a type against a registry: the concrete syntax, or the
/// first failure in a depth-first, left-to-right walk.
pub open spec fn spec_resolve(ty: TypeIR, reg: LanguageTypeRegistry) -> Result<
    Seq<char>,
    SpecResolveError,
>
    decreases ty, 0int,
{
    match ty {
        TypeIR::Primitive(name) => match spec_lookup(reg.primitives@, name@) {
            Some(m) => Ok(m.target@),
            None => Err(SpecResolveError::UnknownPrimitive(name@)),
        },
        TypeIR::Named(id) => Ok(id@),
        TypeIR::Generic(ctor, args) => match spec_resolve_args(args, 0, reg) {
            Err(e) => Err(e),
            Ok(vals) => match spec_lookup(reg.generics@, ctor@) {
                None => Err(SpecResolveError::UnknownGenericConstructor(ctor@)),
                Some(m) => if has_variadic(m.target@) {
                    if vals.len() >= 1 {
                        Ok(spec_subst(m.target@, vals))
                    } else {
                        Err(SpecResolveError::ArityMismatch(ctor@, 1, 0))
                    }
                } else if slot_count(m.target@) == vals.len() {
                    Ok(spec_subst(m.target@, vals))
                } else {
                    Err(
                        SpecResolveError::ArityMismatch(
                            ctor@,
                            slot_count(m.target@),
                            vals.len(),
                        ),
                    )
                },
            },
        },
    }
}

/// The resolutions of the arguments from index `i` on, or the first failure.
pub open spec fn spec_resolve_args(args: Vec<TypeIR>, i: int, reg: LanguageTypeRegistry) -> Result<
    Seq<Seq<char>>,
    SpecResolveError,
>
    decreases args, args.len() - i,
{
    if i < 0 || i >= args.len() {
        Ok(Seq::empty())
    } else {
        match spec_resolve(args[i], reg) {
            Err(e) => Err(e),
            Ok(s) => match spec_resolve_args(args, i + 1, reg) {
                Err(e) => Err(e),
                Ok(rest) => Ok(seq![s] + rest),
            },
        }
    }
}

/// Whether an executable resolution result carries the stated one.
pub open spec fn resolve_matches(
    r: Result<String, ResolveError>,
    s: Result<Seq<char>, SpecResolveError>,
) -> bool {
    match (r, s) {
        (Ok(x), Ok(v)) => x@ == v,
        (Err(e), Err(se)) => err_matches(e, se),
        _ => false,
    }
}

/// Resolves the arguments from index `i` on, stopping at the first failure.
fn resolve_args_exec(args: &Vec<TypeIR>, i: usize, registry: &LanguageTypeRegistry) -> (r: Result<
    Vec<String>,
    ResolveError,
>)
    requires
        i <= args@.len(),
    ensures
        match (r, spec_resolve_args(*args, i as int, *registry)) {
            (Ok(v), Ok(vals)) => v.deep_view() == vals,
            (Err(e), Err(se)) => err_matches(e, se),
            _ => false,
        },
    decreases *args, args@.len() - i,
{
    if i == args.len() {
        let empty: Vec<String> = Vec::new();
        proof {
            assert(empty.deep_view() =~= Seq::<Seq<char>>::empty());
        }
        Ok(empty)
    } else {
        proof {
            assert(decreases_to!(*args => args[i as int]));
        }
        match rust_type_to_cpp(&args[i], registry) {
            Err(e) => Err(e),
            Ok(s) => match resolve_args_exec(args, i + 1, registry) {
                Err(e) => Err(e),
                Ok(rest) => {
                    let ghost rest_dv = rest.deep_view();
                    let ghost sv = s@;
                    let mut out = rest;
                    out.insert(0, s);
                    proof {
                        assert forall|k: int| 0 <= k < out.deep_view().len() implies out.deep_view()[k]
                            == (seq![sv] + rest_dv)[k] by {
                            if k == 0 {
                                assert(out@[0]@ == sv);
                            } else {
                                assert(out@[k]@ == rest_dv[k - 1]);
                            }
                        }
                        assert(out.deep_view() =~= seq![sv] + rest_dv);
                    }
                    Ok(out)
                },
            },
        }
    }
}

/// Lowers a type to concrete target-language syntax: primitives and generic
/// constructors through the registry's tables, named user types passed
/// through unchanged, generic arguments depth-first and left-to-right.
pub fn rust_type_to_cpp(ty: &TypeIR, registry: &LanguageTypeRegistry) -> (r: Result<
    String,
    ResolveError,
>)
    ensures
        resolve_matches(r, spec_resolve(*ty, *registry)),
    decreases *ty, 0int,
{
    match ty {
        TypeIR::Primitive(name) => match lookup(&registry.primitives, name.as_str()) {
            Some(m) => Ok(m.target.clone()),
            None => Err(ResolveError::UnknownPrimitive { name: name.clone() }),
        },
        TypeIR::Named(id) => Ok(id.clone()),
        TypeIR::Generic(ctor, args) => {
            proof {
                assert(*args == ty->Generic_1);
                assert(decreases_to!(*ty => ty->Generic_1));
            }
            match resolve_args_exec(args, 0, registry) {
                Err(e) => Err(e),
                Ok(resolved) => match lookup(&registry.generics, ctor.as_str()) {
                    None => Err(ResolveError::UnknownGenericConstructor { name: ctor.clone() }),
                    Some(m) => {
                        let tpl = str_chars(m.target.as_str());
                        if has_variadic_exec(&tpl) {
                            if resolved.len() >= 1 {
                                Ok(chars_to_string(&subst_chars(&tpl, &resolved)))
                            } else {
                                Err(
                                    ResolveError::ArityMismatch {
                                        constructor: ctor.clone(),
                                        expected: 1,
                                        actual: 0,
                                    },
                                )
                            }
                        } else {
                            let sc = slot_count_exec(&tpl);
                            if sc == resolved.len() {
                                Ok(chars_to_string(&subst_chars(&tpl, &resolved)))
                            } else {
                                Err(
                                    ResolveError::ArityMismatch {
                                        constructor: ctor.clone(),
                                        expected: sc,
                                        actual: resolved.len(),
                                    },
                                )
                            }
                        }
                    },
                },
            }
        },
    }
}

/// Whether the text reads `Vec<`…`>`.
pub open spec fn is_vec_wrapped(s: Seq<char>) -> bool {
    s.len() >= 5 && s[0] == 'V' && s[1] == 'e' && s[2] == 'c' && s[3] == '<' && s[s.len() - 1]
        == '>'
}

/// Whether the text reads `Option<`…`>`.
pub open spec fn is_option_wrapped(s: Seq<char>) -> bool {
    s.len() >= 8 && s[0] == 'O' && s[1] == 'p' && s[2] == 't' && s[3] == 'i' && s[4] == 'o' && s[5]
        == 'n' && s[6] == '<' && s[s.len() - 1] == '>'
}

/// The lowering of a source-language type written as text: a primitive name
/// through the registry, a `Vec<`…`>` or `Option<`…`>` wrapper through the
/// matching generic template with the inside lowered recursively, and
/// anything else passed through unchanged.
pub open spec fn spec_cpp_type(reg: LanguageTypeRegistry, s: Seq<char>) -> Seq<char>
    decreases s.len(),
{
    match spec_lookup(reg.primitives@, s) {
        Some(m) => m.target@,
        None => {
            if is_vec_wrapped(s) {
                let inner = spec_cpp_type(reg, s.subrange(4, s.len() - 1));
                match spec_lookup(reg.generics@, "Vec"@) {
                    Some(g) => spec_subst(g.target@, seq![inner]),
                    None => s,
                }
            } else if is_option_wrapped(s) {
                let inner = spec_cpp_type(reg, s.subrange(7, s.len() - 1));
                match spec_lookup(reg.generics@, "Option"@) {
                    Some(g) => spec_subst(g.target@, seq![inner]),
                    None => s,
                }
            } else {
                s
            }
        },
    }
}

/// Lowers a source-language type written as text against a language's type
/// tables.
pub fn cpp_type(lang: &LanguageInfo, rust_type: &str) -> (r: String)
    ensures
        r@ == spec_cpp_type(lang.types, rust_type@),
    decreases rust_type@.len(),
{
    match lookup(&lang.types.primitives, rust_type) {
        Some(m) => {
            return m.target.clone();
        },
        None => {},
    }
    let cs = str_chars(rust_type);
    let n = cs.len();
    if n >= 5 && cs[0] == 'V' && cs[1] == 'e' && cs[2] == 'c' && cs[3] == '<' && cs[n - 1] == '>' {
        let inner_chars = char_subrange(&cs, 4, n - 1);
        let inner_str = chars_to_string(&inner_chars);
        let resolved_inner = cpp_type(lang, inner_str.as_str());
        match lookup(&lang.types.generics, "Vec") {
            Some(g) => {
                let tpl = str_chars(g.target.as_str());
                let mut args: Vec<String> = Vec::new();
                args.push(resolved_inner);
                proof {
                    assert(args.deep_view() =~= seq![
                        spec_cpp_type(lang.types, rust_type@.subrange(4, rust_type@.len() - 1)),
                    ]);
                }
                let sub = subst_chars(&tpl, &args);
                chars_to_string(&sub)
            },
            None => String::from_str(rust_type),
        }
    } else if n >= 8 && cs[0] == 'O' && cs[1] == 'p' && cs[2] == 't' && cs[3] == 'i' && cs[4] == 'o'
        && cs[5] == 'n' && cs[6] == '<' && cs[n - 1] == '>' {
        let inner_chars = char_subrange(&cs, 7, n - 1);
        let inner_str = chars_to_string(&inner_chars);
        let resolved_inner = cpp_type(lang, inner_str.as_str());
        match lookup(&lang.types.generics, "Option") {
            Some(g) => {
                let tpl = str_chars(g.target.as_str());
                let mut args: Vec<String> = Vec::new();
                args.push(resolved_inner);
                proof {
                    assert(args.deep_view() =~= seq![
                        spec_cpp_type(lang.types, rust_type@.subrange(7, rust_type@.len() - 1)),
                    ]);
                }
                let sub = subst_chars(&tpl, &args);
                chars_to_string(&sub)
            },
            None => String::from_str(rust_type),
        }
    } else {
        String::from_str(rust_type)
    }
}

/// The first field from index `i` on whose type fails to resolve, with its
/// name and the failure.
pub open spec fn spec_first_failure(
    fields: Vec<FieldDef>,
    i: int,
    reg: LanguageTypeRegistry,
) -> Option<(Seq<char>, SpecResolveError)>
    decreases fields.len() - i,
{
    if i < 0 || i >= fields.len() {
        None
    } else {
        match spec_resolve(fields[i].ty, reg) {
            Err(e) => Some((fields[i].field_name@, e)),
            Ok(_) => spec_first_failure(fields, i + 1, reg),
        }
    }
}

/// Checks eagerly, before any output is produced, that every field type of a
/// struct resolves against a target registry. Reports the first field in
/// declaration order whose type does not.
pub fn validate_struct(def: &StructDef, registry: &LanguageTypeRegistry) -> (r: Result<
    (),
    RegistryValidationFailure,
>)
    ensures
        r is Ok <==> spec_first_failure(def.fields, 0, *registry) is None,
        r is Ok <==> (forall|k: int|
            0 <= k < def.fields@.len() ==> (#[trigger] spec_resolve(
                def.fields@[k].ty,
                *registry,
            )) is Ok),
        r is Err ==> {
            let f = r->Err_0;
            let w = spec_first_failure(def.fields, 0, *registry)->0;
            &&& f.struct_name@ == def.name@
            &&& f.field_name@ == w.0
            &&& err_matches(f.cause, w.1)
        },
{
    let n = def.fields.len();
    let mut i: usize = 0;
    while i < n
        invariant
            i <= n,
            n == def.fields@.len(),
            forall|k: int|
                0 <= k < i ==> (#[trigger] spec_resolve(def.fields@[k].ty, *registry)) is Ok,
            spec_first_failure(def.fields, i as int, *registry) == spec_first_failure(
                def.fields,
                0,
                *registry,
            ),
        decreases n - i,
    {
        match rust_type_to_cpp(&def.fields[i].ty, registry) {
            Ok(_) => {},
            Err(e) => {
                return Err(
                    RegistryValidationFailure {
                        struct_name: def.name.clone(),
                        field_name: def.fields[i].field_name.clone(),
                        cause: e,
                    },
                );
            },
        }
        i = i + 1;
    }
    Ok(())
}

} // verus!
