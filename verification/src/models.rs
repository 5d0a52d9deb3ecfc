//! Sample reflectable data types. Each exposes its table name and a
//! `meta_tuples` method that records nested values in a `ReflectionArena`
//! and hands back its own reflection rows, one per field, in declaration
//! order.

use vstd::prelude::*;
use vstd::string::StringExecFns;

use crate::reflect::FieldTuple;
use crate::reflect::FieldTupleV;
use crate::reflect::FieldValue;
use crate::reflect::FieldValueV;
use crate::reflect::PrimV;
use crate::reflect::PrimValue;
use crate::reflect::ReflectionArena;
use crate::reflect::arena_wf;
use crate::reflect::handles_view;
use crate::reflect::rows_wf;
use crate::reflect::spec_render_rows;
use crate::reflect::value_handles_below;

verus! {

/// A reflection row without attributes.
pub open spec fn spec_tuple(
    field_name: Seq<char>,
    column_name: Seq<char>,
    ty_name: Seq<char>,
    value: FieldValueV,
) -> FieldTupleV {
    FieldTupleV {
        field_name,
        column_name,
        ty_name,
        attrs: Seq::empty(),
        value,
    }
}

fn tuple_of(field_name: &str, column_name: &str, ty_name: &str, value: FieldValue) -> (r:
    FieldTuple)
    ensures
        r@ == spec_tuple(field_name@, column_name@, ty_name@, value@),
{
    FieldTuple {
        field_name: String::from_str(field_name),
        column_name: String::from_str(column_name),
        ty_name: String::from_str(ty_name),
        attrs: Vec::new(),
        value,
    }
}

/// String values as primitive leaves.
pub open spec fn str_prims(ss: Seq<Seq<char>>) -> Seq<PrimV> {
    Seq::new(ss.len(), |i: int| PrimV::Str(ss[i]))
}

fn prims_of_strings(v: &Vec<String>) -> (r: Vec<PrimValue>)
    ensures
        r.deep_view() == str_prims(v.deep_view()),
{
    let n = v.len();
    let mut out: Vec<PrimValue> = Vec::new();
    let mut k: usize = 0;
    while k < n
        invariant
            k <= n,
            n == v@.len(),
            out@.len() == k,
            forall|t: int| 0 <= t < k ==> (#[trigger] out@[t])@ == PrimV::Str(v@[t]@),
        decreases n - k,
    {
        out.push(PrimValue::Str(v[k].clone()));
        k = k + 1;
    }
    proof {
        assert forall|t: int| 0 <= t < n implies out.deep_view()[t] == str_prims(v.deep_view())[t] by {
            assert(out.deep_view()[t] == out@[t]@);
            assert(v.deep_view()[t] == v@[t]@);
        }
        assert(out.deep_view() =~= str_prims(v.deep_view()));
    }
    out
}

/// A postal address.
#[derive(Debug)]
pub struct Address {
    pub street: String,
    pub city: String,
    pub zipcode: String,
    pub country: String,
}

/// The reflection rows of an address.
pub open spec fn spec_address_rows(a: Address) -> Seq<FieldTupleV> {
    seq![
        spec_tuple("street"@, "street"@, "String"@, FieldValueV::Primitive(PrimV::Str(a.street@))),
        spec_tuple("city"@, "city"@, "String"@, FieldValueV::Primitive(PrimV::Str(a.city@))),
        spec_tuple(
            "zipcode"@,
            "zipCode"@,
            "String"@,
            FieldValueV::Primitive(PrimV::Str(a.zipcode@)),
        ),
        spec_tuple(
            "country"@,
            "country"@,
            "String"@,
            FieldValueV::Primitive(PrimV::Str(a.country@)),
        ),
    ]
}

impl Address {
    /// An address with every field empty.
    pub fn new() -> (r: Self)
        ensures
            r.street@ == Seq::<char>::empty(),
            r.city@ == Seq::<char>::empty(),
            r.zipcode@ == Seq::<char>::empty(),
            r.country@ == Seq::<char>::empty(),
    {
        Address {
            street: String::new(),
            city: String::new(),
            zipcode: String::new(),
            country: String::new(),
        }
    }

    /// The storage table of addresses.
    pub fn table_name() -> (r: &'static str)
        ensures
            r@ == "address"@,
    {
        "address"
    }

    /// The reflection rows of this address; nothing nested, so the arena is
    /// untouched.
    pub fn meta_tuples(&self, arena: &mut ReflectionArena) -> (r: Vec<FieldTuple>)
        ensures
            final(arena)@ == old(arena)@,
            r.deep_view() == spec_address_rows(*self),
    {
        let mut rows: Vec<FieldTuple> = Vec::new();
        rows.push(
            tuple_of(
                "street",
                "street",
                "String",
                FieldValue::Primitive(PrimValue::Str(self.street.clone())),
            ),
        );
        rows.push(
            tuple_of(
                "city",
                "city",
                "String",
                FieldValue::Primitive(PrimValue::Str(self.city.clone())),
            ),
        );
        rows.push(
            tuple_of(
                "zipcode",
                "zipCode",
                "String",
                FieldValue::Primitive(PrimValue::Str(self.zipcode.clone())),
            ),
        );
        rows.push(
            tuple_of(
                "country",
                "country",
                "String",
                FieldValue::Primitive(PrimValue::Str(self.country.clone())),
            ),
        );
        proof {
            assert(rows.deep_view() =~= spec_address_rows(*self));
        }
        rows
    }
}

/// A project with free-form tags.
#[derive(Debug)]
pub struct Project {
    pub name: String,
    pub description: String,
    pub tags: Vec<String>,
}

/// The reflection rows of a project.
pub open spec fn spec_project_rows(p: Project) -> Seq<FieldTupleV> {
    seq![
        spec_tuple("name"@, "name"@, "String"@, FieldValueV::Primitive(PrimV::Str(p.name@))),
        spec_tuple(
            "description"@,
            "description"@,
            "String"@,
            FieldValueV::Primitive(PrimV::Str(p.description@)),
        ),
        spec_tuple(
            "tags"@,
            "tags"@,
            "Vec<String>"@,
            FieldValueV::VecOfPrimitive(str_prims(p.tags.deep_view())),
        ),
    ]
}

impl Project {
    /// A project with every field empty.
    pub fn new() -> (r: Self)
        ensures
            r.name@ == Seq::<char>::empty(),
            r.description@ == Seq::<char>::empty(),
            r.tags@ == Seq::<String>::empty(),
    {
        Project { name: String::new(), description: String::new(), tags: Vec::new() }
    }

    /// The storage table of projects.
    pub fn table_name() -> (r: &'static str)
        ensures
            r@ == "project"@,
    {
        "project"
    }

    /// The reflection rows of this project; an empty tag list yields an
    /// empty sequence value, not an error.
    pub fn meta_tuples(&self, arena: &mut ReflectionArena) -> (r: Vec<FieldTuple>)
        ensures
            final(arena)@ == old(arena)@,
            r.deep_view() == spec_project_rows(*self),
    {
        let mut rows: Vec<FieldTuple> = Vec::new();
        rows.push(
            tuple_of(
                "name",
                "name",
                "String",
                FieldValue::Primitive(PrimValue::Str(self.name.clone())),
            ),
        );
        rows.push(
            tuple_of(
                "description",
                "description",
                "String",
                FieldValue::Primitive(PrimValue::Str(self.description.clone())),
            ),
        );
        rows.push(
            tuple_of(
                "tags",
                "tags",
                "Vec<String>",
                FieldValue::VecOfPrimitive(prims_of_strings(&self.tags)),
            ),
        );
        proof {
            assert(rows.deep_view() =~= spec_project_rows(*self));
        }
        rows
    }
}

/// Contact details, with a current address and any number of previous ones.
#[derive(Debug)]
pub struct Contactinfo {
    pub email: String,
    pub phone: String,
    pub address: Address,
    pub previousaddresses: Vec<Address>,
}

/// One arena entry per address, in order.
pub open spec fn spec_address_entries(list: Seq<Address>) -> Seq<Seq<FieldTupleV>> {
    Seq::new(list.len(), |i: int| spec_address_rows(list[i]))
}

/// What reflecting contact details appends to the arena: the current
/// address, then each previous address.
pub open spec fn spec_contactinfo_ext(c: Contactinfo) -> Seq<Seq<FieldTupleV>> {
    seq![spec_address_rows(c.address)] + spec_address_entries(c.previousaddresses@)
}

/// How many entries reflecting contact details appends.
pub open spec fn spec_contactinfo_ext_len(c: Contactinfo) -> nat {
    1 + c.previousaddresses@.len()
}

/// The reflection rows of contact details whose nested entries start at
/// `base`.
pub open spec fn spec_contactinfo_rows(c: Contactinfo, base: nat) -> Seq<FieldTupleV> {
    seq![
        spec_tuple("email"@, "email"@, "String"@, FieldValueV::Primitive(PrimV::Str(c.email@))),
        spec_tuple("phone"@, "phone"@, "String"@, FieldValueV::Primitive(PrimV::Str(c.phone@))),
        spec_tuple("address"@, "address"@, "Address"@, FieldValueV::Nested(base)),
        spec_tuple(
            "previousaddresses"@,
            "previousAddresses"@,
            "Vec<Address>"@,
            FieldValueV::VecOfNested(
                Seq::new(c.previousaddresses@.len(), |i: int| (base + 1 + i) as nat),
            ),
        ),
    ]
}

impl Contactinfo {
    /// Contact details with every field empty.
    pub fn new() -> (r: Self)
        ensures
            r.email@ == Seq::<char>::empty(),
            r.phone@ == Seq::<char>::empty(),
            r.address.street@ == Seq::<char>::empty(),
            r.previousaddresses@ == Seq::<Address>::empty(),
    {
        Contactinfo {
            email: String::new(),
            phone: String::new(),
            address: Address::new(),
            previousaddresses: Vec::new(),
        }
    }

    /// The storage table of contact details.
    pub fn table_name() -> (r: &'static str)
        ensures
            r@ == "contactinfo"@,
    {
        "contactinfo"
    }

    /// The reflection rows of these contact details; the current address and
    /// each previous address are recorded in the arena, in that order.
    pub fn meta_tuples(&self, arena: &mut ReflectionArena) -> (r: Vec<FieldTuple>)
        ensures
            final(arena)@ == old(arena)@ + spec_contactinfo_ext(*self),
            r.deep_view() == spec_contactinfo_rows(*self, old(arena)@.len()),
    {
        let ghost base = arena@.len();
        let addr_rows = self.address.meta_tuples(arena);
        let h_addr = arena.push_entry(addr_rows);
        let n = self.previousaddresses.len();
        let mut handles: Vec<usize> = Vec::new();
        let mut k: usize = 0;
        while k < n
            invariant
                k <= n,
                n == self.previousaddresses@.len(),
                handles@.len() == k,
                arena@.len() == base + 1 + k,
                arena@ =~= old(arena)@ + seq![spec_address_rows(self.address)]
                    + spec_address_entries(self.previousaddresses@.subrange(0, k as int)),
                base == old(arena)@.len(),
                forall|t: int| 0 <= t < k ==> handles@[t] as nat == base + 1 + t,
            decreases n - k,
        {
            let rows_k = self.previousaddresses[k].meta_tuples(arena);
            let h_k = arena.push_entry(rows_k);
            handles.push(h_k);
            proof {
                assert(arena@ =~= old(arena)@ + seq![spec_address_rows(self.address)]
                    + spec_address_entries(self.previousaddresses@.subrange(0, k as int + 1)));
            }
            k = k + 1;
        }
        proof {
            assert(self.previousaddresses@.subrange(0, n as int) =~= self.previousaddresses@);
            assert(arena@ =~= old(arena)@ + spec_contactinfo_ext(*self));
        }
        let mut rows: Vec<FieldTuple> = Vec::new();
        rows.push(
            tuple_of(
                "email",
                "email",
                "String",
                FieldValue::Primitive(PrimValue::Str(self.email.clone())),
            ),
        );
        rows.push(
            tuple_of(
                "phone",
                "phone",
                "String",
                FieldValue::Primitive(PrimValue::Str(self.phone.clone())),
            ),
        );
        rows.push(tuple_of("address", "address", "Address", FieldValue::Nested(h_addr)));
        rows.push(
            tuple_of(
                "previousaddresses",
                "previousAddresses",
                "Vec<Address>",
                FieldValue::VecOfNested(handles),
            ),
        );
        proof {
            assert(rows.deep_view()[3].value == FieldValueV::VecOfNested(
                Seq::new(self.previousaddresses@.len(), |i: int| (base + 1 + i) as nat),
            )) by {
                assert(rows.deep_view()[3].value matches FieldValueV::VecOfNested(hv));
                assert(handles_view(rows@[3].value->VecOfNested_0@) =~= Seq::new(
                    self.previousaddresses@.len(),
                    |i: int| (base + 1 + i) as nat,
                ));
            }
            assert(rows.deep_view() =~= spec_contactinfo_rows(*self, old(arena)@.len()));
        }
        rows
    }
}

/// The two rows of a synthetic map entry: its key and its value.
pub open spec fn spec_map_entry_rows(
    key: Seq<char>,
    value: FieldValueV,
    value_ty: Seq<char>,
) -> Seq<FieldTupleV> {
    seq![
        spec_tuple("key"@, "key"@, "String"@, FieldValueV::Primitive(PrimV::Str(key))),
        spec_tuple("value"@, "value"@, value_ty, value),
    ]
}

fn map_entry_rows(key: &String, value: FieldValue, value_ty: &str) -> (r: Vec<FieldTuple>)
    ensures
        r.deep_view() == spec_map_entry_rows(key@, value@, value_ty@),
{
    let mut rows: Vec<FieldTuple> = Vec::new();
    rows.push(
        tuple_of("key", "key", "String", FieldValue::Primitive(PrimValue::Str(key.clone()))),
    );
    rows.push(tuple_of("value", "value", value_ty, value));
    proof {
        assert(rows.deep_view() =~= spec_map_entry_rows(key@, value@, value_ty@));
    }
    rows
}

/// A company with a headquarters and keyed offices.
#[derive(Debug)]
pub struct Company {
    pub name: String,
    pub headquarters: Address,
    pub taxid: String,
    pub offices: Vec<(String, Address)>,
}

/// What reflecting the first `j` offices appends to the arena: per office,
/// its address and then a key/value entry pointing at it. `base` is the
/// handle of the first office's address.
pub open spec fn spec_offices_ext(
    offs: Seq<(String, Address)>,
    j: int,
    base: nat,
) -> Seq<Seq<FieldTupleV>>
    decreases j,
{
    if j <= 0 {
        Seq::empty()
    } else {
        spec_offices_ext(offs, j - 1, base) + seq![
            spec_address_rows(offs[j - 1].1),
            spec_map_entry_rows(
                offs[j - 1].0@,
                FieldValueV::Nested((base + 2 * (j - 1)) as nat),
                "Address"@,
            ),
        ]
    }
}

/// What reflecting a company appends to the arena.
pub open spec fn spec_company_ext(c: Company, base: nat) -> Seq<Seq<FieldTupleV>> {
    seq![spec_address_rows(c.headquarters)] + spec_offices_ext(
        c.offices@,
        c.offices@.len() as int,
        base + 1,
    )
}

/// How many entries reflecting a company appends.
pub open spec fn spec_company_ext_len(c: Company) -> nat {
    1 + 2 * c.offices@.len()
}

/// The reflection rows of a company whose nested entries start at `base`.
pub open spec fn spec_company_rows(c: Company, base: nat) -> Seq<FieldTupleV> {
    seq![
        spec_tuple("name"@, "name"@, "String"@, FieldValueV::Primitive(PrimV::Str(c.name@))),
        spec_tuple("headquarters"@, "headquarters"@, "Address"@, FieldValueV::Nested(base)),
        spec_tuple("taxid"@, "taxId"@, "String"@, FieldValueV::Primitive(PrimV::Str(c.taxid@))),
        spec_tuple(
            "offices"@,
            "offices"@,
            "Vec<(String, Address)>"@,
            FieldValueV::VecOfNested(
                Seq::new(c.offices@.len(), |i: int| (base + 2 + 2 * i) as nat),
            ),
        ),
    ]
}

impl Company {
    /// A company with every field empty.
    pub fn new() -> (r: Self)
        ensures
            r.name@ == Seq::<char>::empty(),
            r.taxid@ == Seq::<char>::empty(),
            r.headquarters.street@ == Seq::<char>::empty(),
            r.offices@ == Seq::<(String, Address)>::empty(),
    {
        Company {
            name: String::new(),
            headquarters: Address::new(),
            taxid: String::new(),
            offices: Vec::new(),
        }
    }

    /// The storage table of companies.
    pub fn table_name() -> (r: &'static str)
        ensures
            r@ == "company"@,
    {
        "company"
    }

    /// The reflection rows of this company; the headquarters and then each
    /// office (address, then key/value entry) are recorded in the arena.
    pub fn meta_tuples(&self, arena: &mut ReflectionArena) -> (r: Vec<FieldTuple>)
        ensures
            final(arena)@ == old(arena)@ + spec_company_ext(*self, old(arena)@.len()),
            r.deep_view() == spec_company_rows(*self, old(arena)@.len()),
    {
        let ghost base0 = arena@.len();
        let hq_rows = self.headquarters.meta_tuples(arena);
        let h_hq = arena.push_entry(hq_rows);
        let n = self.offices.len();
        let mut handles: Vec<usize> = Vec::new();
        let mut k: usize = 0;
        proof {
            assert(arena@ =~= old(arena)@ + seq![spec_address_rows(self.headquarters)]
                + spec_offices_ext(self.offices@, 0, base0 + 1));
        }
        while k < n
            invariant
                k <= n,
                n == self.offices@.len(),
                handles@.len() == k,
                base0 == old(arena)@.len(),
                arena@.len() == base0 + 1 + 2 * k,
                arena@ =~= old(arena)@ + seq![spec_address_rows(self.headquarters)]
                    + spec_offices_ext(self.offices@, k as int, base0 + 1),
                forall|t: int| 0 <= t < k ==> (#[trigger] handles@[t]) as nat == base0 + 2 + 2 * t,
            decreases n - k,
        {
            let off = &self.offices[k];
            let a_rows = off.1.meta_tuples(arena);
            let h_a = arena.push_entry(a_rows);
            let e_rows = map_entry_rows(&off.0, FieldValue::Nested(h_a), "Address");
            let h_e = arena.push_entry(e_rows);
            handles.push(h_e);
            proof {
                assert(h_a as nat == base0 + 1 + 2 * k);
                assert(arena@ =~= old(arena)@ + seq![spec_address_rows(self.headquarters)]
                    + spec_offices_ext(self.offices@, k as int + 1, base0 + 1));
            }
            k = k + 1;
        }
        let mut rows: Vec<FieldTuple> = Vec::new();
        rows.push(
            tuple_of(
                "name",
                "name",
                "String",
                FieldValue::Primitive(PrimValue::Str(self.name.clone())),
            ),
        );
        rows.push(tuple_of("headquarters", "headquarters", "Address", FieldValue::Nested(h_hq)));
        rows.push(
            tuple_of(
                "taxid",
                "taxId",
                "String",
                FieldValue::Primitive(PrimValue::Str(self.taxid.clone())),
            ),
        );
        rows.push(
            tuple_of(
                "offices",
                "offices",
                "Vec<(String, Address)>",
                FieldValue::VecOfNested(handles),
            ),
        );
        proof {
            assert(rows.deep_view()[3].value == FieldValueV::VecOfNested(
                Seq::new(self.offices@.len(), |i: int| (base0 + 2 + 2 * i) as nat),
            )) by {
                assert(handles_view(rows@[3].value->VecOfNested_0@) =~= Seq::new(
                    self.offices@.len(),
                    |i: int| (base0 + 2 + 2 * i) as nat,
                ));
            }
            assert(rows.deep_view() =~= spec_company_rows(*self, old(arena)@.len()));
        }
        rows
    }
}

/// A person, possibly married to another person.
#[derive(Debug)]
pub struct Person {
    pub id: u64,
    pub name: String,
    pub address: Address,
    pub tags: Vec<String>,
    pub spouse: Option<Box<Person>>,
}

/// What reflecting a person appends to the arena: the address, then, when
/// married, everything the spouse appends followed by the spouse's own rows.
pub open spec fn spec_person_ext(p: Person, base: nat) -> Seq<Seq<FieldTupleV>>
    decreases p,
{
    seq![spec_address_rows(p.address)] + match p.spouse {
        None => Seq::empty(),
        Some(s) => spec_person_ext(*s, base + 1) + seq![spec_person_rows(*s, base + 1)],
    }
}

/// How many entries reflecting a person appends.
pub open spec fn spec_person_ext_len(p: Person) -> nat
    decreases p,
{
    1 + match p.spouse {
        None => 0nat,
        Some(s) => spec_person_ext_len(*s) + 1,
    }
}

/// The reflection rows of a person whose nested entries start at `base`.
pub open spec fn spec_person_rows(p: Person, base: nat) -> Seq<FieldTupleV>
    decreases p,
{
    seq![
        spec_tuple("id"@, "id"@, "u64"@, FieldValueV::Primitive(PrimV::U64(p.id))),
        spec_tuple("name"@, "name"@, "String"@, FieldValueV::Primitive(PrimV::Str(p.name@))),
        spec_tuple("address"@, "address"@, "Address"@, FieldValueV::Nested(base)),
        spec_tuple(
            "tags"@,
            "tags"@,
            "Vec<String>"@,
            FieldValueV::VecOfPrimitive(str_prims(p.tags.deep_view())),
        ),
        spec_tuple(
            "spouse"@,
            "spouse"@,
            "Option<Person>"@,
            FieldValueV::OptionalNested(
                match p.spouse {
                    None => None,
                    Some(s) => Some((base + 1 + spec_person_ext_len(*s)) as nat),
                },
            ),
        ),
    ]
}

/// A person's arena extension has exactly `spec_person_ext_len` entries.
proof fn lemma_person_ext_len(p: Person, base: nat)
    ensures
        spec_person_ext(p, base).len() == spec_person_ext_len(p),
    decreases p,
{
    match p.spouse {
        None => {
        },
        Some(s) => {
            lemma_person_ext_len(*s, base + 1);
        },
    }
}

impl Person {
    /// The reflection rows of this person; the address, and the spouse's
    /// whole reflection when present, are recorded in the arena. An absent
    /// spouse yields the explicit absent variant.
    pub fn meta_tuples(&self, arena: &mut ReflectionArena) -> (r: Vec<FieldTuple>)
        ensures
            final(arena)@ == old(arena)@ + spec_person_ext(*self, old(arena)@.len()),
            r.deep_view() == spec_person_rows(*self, old(arena)@.len()),
        decreases *self,
    {
        let ghost base = arena@.len();
        let addr_rows = self.address.meta_tuples(arena);
        let h_addr = arena.push_entry(addr_rows);
        let spouse_value: FieldValue = match &self.spouse {
            None => FieldValue::OptionalNested(None),
            Some(b) => {
                proof {
                    assert(decreases_to!(*self => self.spouse));
                    assert(decreases_to!(self.spouse => *b));
                }
                let s_rows = (&**b).meta_tuples(arena);
                let h_s = arena.push_entry(s_rows);
                proof {
                    lemma_person_ext_len(**b, base + 1);
                    assert(h_s as nat == base + 1 + spec_person_ext_len(**b));
                }
                FieldValue::OptionalNested(Some(h_s))
            },
        };
        proof {
            assert(arena@ =~= old(arena)@ + spec_person_ext(*self, base));
        }
        let mut rows: Vec<FieldTuple> = Vec::new();
        rows.push(tuple_of("id", "id", "u64", FieldValue::Primitive(PrimValue::U64(self.id))));
        rows.push(
            tuple_of(
                "name",
                "name",
                "String",
                FieldValue::Primitive(PrimValue::Str(self.name.clone())),
            ),
        );
        rows.push(tuple_of("address", "address", "Address", FieldValue::Nested(h_addr)));
        rows.push(
            tuple_of(
                "tags",
                "tags",
                "Vec<String>",
                FieldValue::VecOfPrimitive(prims_of_strings(&self.tags)),
            ),
        );
        rows.push(tuple_of("spouse", "spouse", "Option<Person>", spouse_value));
        proof {
            assert(rows.deep_view() =~= spec_person_rows(*self, base));
        }
        rows
    }
}

/// One arena entry per key/value pair of a string map, in order.
pub open spec fn spec_string_map_entries(m: Seq<(String, String)>) -> Seq<Seq<FieldTupleV>> {
    Seq::new(
        m.len(),
        |i: int|
            spec_map_entry_rows(
                m[i].0@,
                FieldValueV::Primitive(PrimV::Str(m[i].1@)),
                "String"@,
            ),
    )
}

/// Records one entry per key/value pair and hands back the handles.
fn push_string_map_entries(arena: &mut ReflectionArena, m: &Vec<(String, String)>) -> (hs: Vec<
    usize,
>)
    ensures
        final(arena)@ == old(arena)@ + spec_string_map_entries(m@),
        hs@.len() == m@.len(),
        forall|t: int| 0 <= t < m@.len() ==> (#[trigger] hs@[t]) as nat == old(arena)@.len() + t,
{
    let ghost base = arena@.len();
    let n = m.len();
    let mut hs: Vec<usize> = Vec::new();
    let mut k: usize = 0;
    proof {
        assert(arena@ =~= old(arena)@ + spec_string_map_entries(m@.subrange(0, 0)));
    }
    while k < n
        invariant
            k <= n,
            n == m@.len(),
            hs@.len() == k,
            base == old(arena)@.len(),
            arena@.len() == base + k,
            arena@ =~= old(arena)@ + spec_string_map_entries(m@.subrange(0, k as int)),
            forall|t: int| 0 <= t < k ==> (#[trigger] hs@[t]) as nat == base + t,
        decreases n - k,
    {
        let pair = &m[k];
        let rows = map_entry_rows(&pair.0, FieldValue::Primitive(PrimValue::Str(pair.1.clone())), "String");
        let h = arena.push_entry(rows);
        hs.push(h);
        proof {
            assert(spec_string_map_entries(m@.subrange(0, k as int + 1)) =~= spec_string_map_entries(
                m@.subrange(0, k as int),
            ).push(
                spec_map_entry_rows(
                    m@[k as int].0@,
                    FieldValueV::Primitive(PrimV::Str(m@[k as int].1@)),
                    "String"@,
                ),
            ));
            assert(arena@ =~= old(arena)@ + spec_string_map_entries(m@.subrange(0, k as int + 1)));
        }
        k = k + 1;
    }
    proof {
        assert(m@.subrange(0, n as int) =~= m@);
    }
    hs
}

/// The office extension holds two entries per office.
proof fn lemma_offices_ext_len(offs: Seq<(String, Address)>, j: int, base: nat)
    requires
        j >= 0,
    ensures
        spec_offices_ext(offs, j, base).len() == 2 * j,
    decreases j,
{
    if j > 0 {
        lemma_offices_ext_len(offs, j - 1, base);
    }
}

/// A company's arena extension has exactly `spec_company_ext_len` entries.
proof fn lemma_company_ext_len(c: Company, base: nat)
    ensures
        spec_company_ext(c, base).len() == spec_company_ext_len(c),
{
    lemma_offices_ext_len(c.offices@, c.offices@.len() as int, base + 1);
}

/// What reflecting the first `j` investments appends: per investment, the
/// company's whole reflection and then a key/value entry pointing at it.
pub open spec fn spec_investments_ext(
    inv: Seq<(String, Company)>,
    j: int,
    b: nat,
) -> Seq<Seq<FieldTupleV>>
    decreases j,
{
    if j <= 0 {
        Seq::empty()
    } else {
        let prev = spec_investments_ext(inv, j - 1, b);
        let bj = b + prev.len();
        prev + spec_company_ext(inv[j - 1].1, bj) + seq![
            spec_company_rows(inv[j - 1].1, bj),
            spec_map_entry_rows(
                inv[j - 1].0@,
                FieldValueV::Nested((bj + spec_company_ext_len(inv[j - 1].1)) as nat),
                "Company"@,
            ),
        ]
    }
}

/// The handle of the entry of investment `i`, with the extension starting at
/// `b`.
pub open spec fn spec_investment_handle(inv: Seq<(String, Company)>, i: int, b: nat) -> nat {
    (b + spec_investments_ext(inv, i + 1, b).len() - 1) as nat
}

/// The two rows of a map entry whose key is itself a map.
pub open spec fn spec_nested_entry_rows(inner: Seq<nat>, v: i32) -> Seq<FieldTupleV> {
    seq![
        spec_tuple("key"@, "key"@, "Vec<(String, String)>"@, FieldValueV::VecOfNested(inner)),
        spec_tuple("value"@, "value"@, "i32"@, FieldValueV::Primitive(PrimV::I32(v))),
    ]
}

/// What reflecting the first `j` map-keyed pairs appends: per pair, one
/// entry per inner key/value pair and then the outer entry.
pub open spec fn spec_nested_ext(
    ns: Seq<(Vec<(String, String)>, i32)>,
    j: int,
    b: nat,
) -> Seq<Seq<FieldTupleV>>
    decreases j,
{
    if j <= 0 {
        Seq::empty()
    } else {
        let prev = spec_nested_ext(ns, j - 1, b);
        let bj = b + prev.len();
        let m = ns[j - 1].0@;
        prev + spec_string_map_entries(m) + seq![
            spec_nested_entry_rows(Seq::new(m.len(), |t: int| (bj + t) as nat), ns[j - 1].1),
        ]
    }
}

/// The handle of the outer entry of pair `i`, with the extension starting at
/// `b`.
pub open spec fn spec_nested_handle(ns: Seq<(Vec<(String, String)>, i32)>, i: int, b: nat) -> nat {
    (b + spec_nested_ext(ns, i + 1, b).len() - 1) as nat
}

/// One arena entry per project, in order.
pub open spec fn spec_project_entries(ps: Seq<Project>) -> Seq<Seq<FieldTupleV>> {
    Seq::new(ps.len(), |i: int| spec_project_rows(ps[i]))
}

/// A user record with nested aggregates of every supported shape.
#[derive(Debug)]
pub struct User {
    pub name: String,
    pub age: i32,
    pub id: String,
    pub data: String,
    pub contact: Contactinfo,
    pub employer: Company,
    pub projects: Vec<Project>,
    pub metadata: Vec<(String, String)>,
    pub investments: Vec<(String, Company)>,
    pub nested: Vec<(Vec<(String, String)>, i32)>,
}

/// What reflecting a user appends to the arena, in field order: the
/// contact's reflection and rows, the employer's, one entry per project, one
/// per metadata pair, the investments' companies and entries, and the
/// map-keyed pairs.
pub open spec fn spec_user_ext(u: User, base: nat) -> Seq<Seq<FieldTupleV>> {
    let b1 = base + spec_contactinfo_ext_len(u.contact) + 1;
    let b2 = b1 + spec_company_ext_len(u.employer) + 1;
    let b3 = b2 + u.projects@.len();
    let b4 = b3 + u.metadata@.len();
    let b5 = b4 + spec_investments_ext(u.investments@, u.investments@.len() as int, b4 as nat).len();
    spec_contactinfo_ext(u.contact) + seq![spec_contactinfo_rows(u.contact, base)]
        + spec_company_ext(u.employer, b1 as nat) + seq![spec_company_rows(u.employer, b1 as nat)]
        + spec_project_entries(u.projects@) + spec_string_map_entries(u.metadata@)
        + spec_investments_ext(u.investments@, u.investments@.len() as int, b4 as nat)
        + spec_nested_ext(u.nested@, u.nested@.len() as int, b5 as nat)
}

/// The reflection rows of a user whose nested entries start at `base`.
pub open spec fn spec_user_rows(u: User, base: nat) -> Seq<FieldTupleV> {
    let b1 = base + spec_contactinfo_ext_len(u.contact) + 1;
    let b2 = b1 + spec_company_ext_len(u.employer) + 1;
    let b3 = b2 + u.projects@.len();
    let b4 = b3 + u.metadata@.len();
    let b5 = b4 + spec_investments_ext(u.investments@, u.investments@.len() as int, b4 as nat).len();
    seq![
        spec_tuple("name"@, "name"@, "String"@, FieldValueV::Primitive(PrimV::Str(u.name@))),
        spec_tuple("age"@, "age"@, "i32"@, FieldValueV::Primitive(PrimV::I32(u.age))),
        spec_tuple("id"@, "id"@, "String"@, FieldValueV::Primitive(PrimV::Str(u.id@))),
        spec_tuple("data"@, "data"@, "String"@, FieldValueV::Primitive(PrimV::Str(u.data@))),
        spec_tuple(
            "contact"@,
            "contact"@,
            "ContactInfo"@,
            FieldValueV::Nested((base + spec_contactinfo_ext_len(u.contact)) as nat),
        ),
        spec_tuple(
            "employer"@,
            "employer"@,
            "Company"@,
            FieldValueV::Nested((b1 + spec_company_ext_len(u.employer)) as nat),
        ),
        spec_tuple(
            "projects"@,
            "projects"@,
            "Vec<Project>"@,
            FieldValueV::VecOfNested(Seq::new(u.projects@.len(), |i: int| (b2 + i) as nat)),
        ),
        spec_tuple(
            "metadata"@,
            "metadata"@,
            "HashMap<String, String>"@,
            FieldValueV::VecOfNested(Seq::new(u.metadata@.len(), |i: int| (b3 + i) as nat)),
        ),
        spec_tuple(
            "investments"@,
            "investments"@,
            "HashMap<String, Company>"@,
            FieldValueV::VecOfNested(
                Seq::new(
                    u.investments@.len(),
                    |i: int| spec_investment_handle(u.investments@, i, b4 as nat),
                ),
            ),
        ),
        spec_tuple(
            "nested"@,
            "nested"@,
            "HashMap<HashMap<String, String>, i32>"@,
            FieldValueV::VecOfNested(
                Seq::new(u.nested@.len(), |i: int| spec_nested_handle(u.nested@, i, b5 as nat)),
            ),
        ),
    ]
}

impl User {
    /// A user with every field empty.
    pub fn new() -> (r: Self)
        ensures
            r.name@ == Seq::<char>::empty(),
            r.age == 0i32,
            r.id@ == Seq::<char>::empty(),
            r.data@ == Seq::<char>::empty(),
            r.projects@ == Seq::<Project>::empty(),
            r.metadata@ == Seq::<(String, String)>::empty(),
            r.investments@ == Seq::<(String, Company)>::empty(),
            r.nested@ == Seq::<(Vec<(String, String)>, i32)>::empty(),
    {
        User {
            name: String::new(),
            age: 0,
            id: String::new(),
            data: String::new(),
            contact: Contactinfo::new(),
            employer: Company::new(),
            projects: Vec::new(),
            metadata: Vec::new(),
            investments: Vec::new(),
            nested: Vec::new(),
        }
    }

    /// The storage table of users.
    pub fn table_name() -> (r: &'static str)
        ensures
            r@ == "user"@,
    {
        "user"
    }

    /// The reflection rows of this user; every nested aggregate is recorded
    /// in the arena first, in field order.
    pub fn meta_tuples(&self, arena: &mut ReflectionArena) -> (r: Vec<FieldTuple>)
        ensures
            final(arena)@ == old(arena)@ + spec_user_ext(*self, old(arena)@.len()),
            r.deep_view() == spec_user_rows(*self, old(arena)@.len()),
    {
        let ghost base = arena@.len();
        let contact_rows = self.contact.meta_tuples(arena);
        let h_contact = arena.push_entry(contact_rows);
        proof {
            assert(h_contact as nat == base + spec_contactinfo_ext_len(self.contact));
        }
        let ghost b1 = base + spec_contactinfo_ext_len(self.contact) + 1;
        let employer_rows = self.employer.meta_tuples(arena);
        let h_employer = arena.push_entry(employer_rows);
        proof {
            lemma_company_ext_len(self.employer, b1);
            assert(h_employer as nat == b1 + spec_company_ext_len(self.employer));
        }
        let ghost b2 = b1 + spec_company_ext_len(self.employer) + 1;
        let ghost arena_b2 = arena@;

        let np = self.projects.len();
        let mut project_handles: Vec<usize> = Vec::new();
        let mut k: usize = 0;
        proof {
            assert(arena@ =~= arena_b2 + spec_project_entries(self.projects@.subrange(0, 0)));
        }
        while k < np
            invariant
                k <= np,
                np == self.projects@.len(),
                project_handles@.len() == k,
                arena@.len() == b2 + k,
                b2 == arena_b2.len(),
                arena@ =~= arena_b2 + spec_project_entries(self.projects@.subrange(0, k as int)),
                forall|t: int|
                    0 <= t < k ==> (#[trigger] project_handles@[t]) as nat == b2 + t,
            decreases np - k,
        {
            let p_rows = self.projects[k].meta_tuples(arena);
            let h_p = arena.push_entry(p_rows);
            project_handles.push(h_p);
            proof {
                assert(spec_project_entries(self.projects@.subrange(0, k as int + 1))
                    =~= spec_project_entries(self.projects@.subrange(0, k as int)).push(
                    spec_project_rows(self.projects@[k as int]),
                ));
                assert(arena@ =~= arena_b2 + spec_project_entries(
                    self.projects@.subrange(0, k as int + 1),
                ));
            }
            k = k + 1;
        }
        proof {
            assert(self.projects@.subrange(0, np as int) =~= self.projects@);
        }
        let ghost b3 = b2 + np as nat;

        let metadata_handles = push_string_map_entries(arena, &self.metadata);
        let ghost b4 = b3 + self.metadata@.len();

        let ni = self.investments.len();
        let mut investment_handles: Vec<usize> = Vec::new();
        let ghost arena_b4 = arena@;
        let mut k2: usize = 0;
        proof {
            assert(arena@ =~= arena_b4 + spec_investments_ext(self.investments@, 0, b4));
        }
        while k2 < ni
            invariant
                k2 <= ni,
                ni == self.investments@.len(),
                investment_handles@.len() == k2,
                b4 == arena_b4.len(),
                arena@ =~= arena_b4 + spec_investments_ext(self.investments@, k2 as int, b4),
                forall|t: int|
                    0 <= t < k2 ==> (#[trigger] investment_handles@[t]) as nat
                        == spec_investment_handle(self.investments@, t, b4),
            decreases ni - k2,
        {
            let ghost prev = spec_investments_ext(self.investments@, k2 as int, b4);
            let ghost bj = b4 + prev.len();
            let inv = &self.investments[k2];
            let c_rows = inv.1.meta_tuples(arena);
            let h_c = arena.push_entry(c_rows);
            proof {
                lemma_company_ext_len(inv.1, bj);
                assert(h_c as nat == bj + spec_company_ext_len(inv.1));
            }
            let e_rows = map_entry_rows(&inv.0, FieldValue::Nested(h_c), "Company");
            let h_e = arena.push_entry(e_rows);
            investment_handles.push(h_e);
            proof {
                assert(arena@ =~= arena_b4 + spec_investments_ext(
                    self.investments@,
                    k2 as int + 1,
                    b4,
                ));
                assert(h_e as nat == spec_investment_handle(self.investments@, k2 as int, b4));
            }
            k2 = k2 + 1;
        }
        let ghost b5 = b4 + spec_investments_ext(self.investments@, ni as int, b4).len();

        let nn = self.nested.len();
        let mut nested_handles: Vec<usize> = Vec::new();
        let ghost arena_b5 = arena@;
        let mut k3: usize = 0;
        proof {
            assert(arena@ =~= arena_b5 + spec_nested_ext(self.nested@, 0, b5));
        }
        while k3 < nn
            invariant
                k3 <= nn,
                nn == self.nested@.len(),
                nested_handles@.len() == k3,
                b5 == arena_b5.len(),
                arena@ =~= arena_b5 + spec_nested_ext(self.nested@, k3 as int, b5),
                forall|t: int|
                    0 <= t < k3 ==> (#[trigger] nested_handles@[t]) as nat == spec_nested_handle(
                        self.nested@,
                        t,
                        b5,
                    ),
            decreases nn - k3,
        {
            let ghost prev = spec_nested_ext(self.nested@, k3 as int, b5);
            let ghost bj = b5 + prev.len();
            let pair = &self.nested[k3];
            let inner_handles = push_string_map_entries(arena, &pair.0);
            proof {
                assert(handles_view(inner_handles@) =~= Seq::new(
                    pair.0@.len(),
                    |t: int| (bj + t) as nat,
                ));
            }
            let mut outer_rows: Vec<FieldTuple> = Vec::new();
            outer_rows.push(
                tuple_of(
                    "key",
                    "key",
                    "Vec<(String, String)>",
                    FieldValue::VecOfNested(inner_handles),
                ),
            );
            outer_rows.push(
                tuple_of("value", "value", "i32", FieldValue::Primitive(PrimValue::I32(pair.1))),
            );
            proof {
                assert(outer_rows.deep_view() =~= spec_nested_entry_rows(
                    Seq::new(pair.0@.len(), |t: int| (bj + t) as nat),
                    pair.1,
                ));
            }
            let h_outer = arena.push_entry(outer_rows);
            nested_handles.push(h_outer);
            proof {
                assert(arena@ =~= arena_b5 + spec_nested_ext(self.nested@, k3 as int + 1, b5));
                assert(h_outer as nat == spec_nested_handle(self.nested@, k3 as int, b5));
            }
            k3 = k3 + 1;
        }

        let mut rows: Vec<FieldTuple> = Vec::new();
        rows.push(
            tuple_of(
                "name",
                "name",
                "String",
                FieldValue::Primitive(PrimValue::Str(self.name.clone())),
            ),
        );
        rows.push(tuple_of("age", "age", "i32", FieldValue::Primitive(PrimValue::I32(self.age))));
        rows.push(
            tuple_of("id", "id", "String", FieldValue::Primitive(PrimValue::Str(self.id.clone()))),
        );
        rows.push(
            tuple_of(
                "data",
                "data",
                "String",
                FieldValue::Primitive(PrimValue::Str(self.data.clone())),
            ),
        );
        rows.push(tuple_of("contact", "contact", "ContactInfo", FieldValue::Nested(h_contact)));
        rows.push(tuple_of("employer", "employer", "Company", FieldValue::Nested(h_employer)));
        rows.push(
            tuple_of(
                "projects",
                "projects",
                "Vec<Project>",
                FieldValue::VecOfNested(project_handles),
            ),
        );
        rows.push(
            tuple_of(
                "metadata",
                "metadata",
                "HashMap<String, String>",
                FieldValue::VecOfNested(metadata_handles),
            ),
        );
        rows.push(
            tuple_of(
                "investments",
                "investments",
                "HashMap<String, Company>",
                FieldValue::VecOfNested(investment_handles),
            ),
        );
        rows.push(
            tuple_of(
                "nested",
                "nested",
                "HashMap<HashMap<String, String>, i32>",
                FieldValue::VecOfNested(nested_handles),
            ),
        );
        proof {
            assert(arena@ =~= old(arena)@ + spec_user_ext(*self, base));
            assert(rows.deep_view()[6].value == FieldValueV::VecOfNested(
                Seq::new(self.projects@.len(), |i: int| (b2 + i) as nat),
            )) by {
                assert(handles_view(rows@[6].value->VecOfNested_0@) =~= Seq::new(
                    self.projects@.len(),
                    |i: int| (b2 + i) as nat,
                ));
            }
            assert(rows.deep_view()[7].value == FieldValueV::VecOfNested(
                Seq::new(self.metadata@.len(), |i: int| (b3 + i) as nat),
            )) by {
                assert(handles_view(rows@[7].value->VecOfNested_0@) =~= Seq::new(
                    self.metadata@.len(),
                    |i: int| (b3 + i) as nat,
                ));
            }
            assert(rows.deep_view()[8].value == FieldValueV::VecOfNested(
                Seq::new(
                    self.investments@.len(),
                    |i: int| spec_investment_handle(self.investments@, i, b4),
                ),
            )) by {
                assert(handles_view(rows@[8].value->VecOfNested_0@) =~= Seq::new(
                    self.investments@.len(),
                    |i: int| spec_investment_handle(self.investments@, i, b4),
                ));
            }
            assert(rows.deep_view()[9].value == FieldValueV::VecOfNested(
                Seq::new(self.nested@.len(), |i: int| spec_nested_handle(self.nested@, i, b5)),
            )) by {
                assert(handles_view(rows@[9].value->VecOfNested_0@) =~= Seq::new(
                    self.nested@.len(),
                    |i: int| spec_nested_handle(self.nested@, i, b5),
                ));
            }
            assert(rows.deep_view() =~= spec_user_rows(*self, base));
        }
        rows
    }
}

/// An address's rows hold no handles, so they are well-formed below any
/// bound.
pub proof fn lemma_address_rows_wf(a: Address, bound: nat)
    ensures
        rows_wf(spec_address_rows(a), bound),
{
    assert forall|i: int| 0 <= i < spec_address_rows(a).len() implies value_handles_below(
        (#[trigger] spec_address_rows(a)[i]).value,
        bound,
    ) by {}
}

/// A project's rows hold no handles, so they are well-formed below any
/// bound.
pub proof fn lemma_project_rows_wf(p: Project, bound: nat)
    ensures
        rows_wf(spec_project_rows(p), bound),
{
    assert forall|i: int| 0 <= i < spec_project_rows(p).len() implies value_handles_below(
        (#[trigger] spec_project_rows(p)[i]).value,
        bound,
    ) by {}
}

/// Reflecting contact details keeps the arena sound, and yields rows whose
/// handles all point below the new arena end.
pub proof fn lemma_contactinfo_reflection_wf(c: Contactinfo, arena: Seq<Seq<FieldTupleV>>)
    requires
        arena_wf(arena),
    ensures
        arena_wf(arena + spec_contactinfo_ext(c)),
        rows_wf(
            spec_contactinfo_rows(c, arena.len()),
            arena.len() + spec_contactinfo_ext_len(c),
        ),
{
    let ext = spec_contactinfo_ext(c);
    let whole = arena + ext;
    assert forall|h: int| 0 <= h < whole.len() implies rows_wf(
        #[trigger] whole[h],
        h as nat,
    ) by {
        if h < arena.len() {
            assert(whole[h] == arena[h]);
        } else if h == arena.len() {
            assert(whole[h] == spec_address_rows(c.address));
            lemma_address_rows_wf(c.address, h as nat);
        } else {
            assert(whole[h] == spec_address_entries(c.previousaddresses@)[h - arena.len() - 1]);
            lemma_address_rows_wf(c.previousaddresses@[h - arena.len() - 1], h as nat);
        }
    }
    let base = arena.len();
    let bound = base + spec_contactinfo_ext_len(c);
    let rows = spec_contactinfo_rows(c, base);
    assert forall|i: int| 0 <= i < rows.len() implies value_handles_below(
        (#[trigger] rows[i]).value,
        bound,
    ) by {
        if i == 3 {
            let hs = Seq::new(c.previousaddresses@.len(), |k: int| (base + 1 + k) as nat);
            assert forall|t: int| 0 <= t < hs.len() implies #[trigger] hs[t] < bound by {
                assert(hs[t] == (base + 1 + t) as nat);
            }
        }
    }
}

/// A map entry whose value's handles point below `bound` is itself
/// well-formed below `bound`.
proof fn lemma_map_entry_rows_wf(key: Seq<char>, value: FieldValueV, ty: Seq<char>, bound: nat)
    requires
        value_handles_below(value, bound),
    ensures
        rows_wf(spec_map_entry_rows(key, value, ty), bound),
{
    assert forall|i: int|
        0 <= i < spec_map_entry_rows(key, value, ty).len() implies value_handles_below(
        (#[trigger] spec_map_entry_rows(key, value, ty)[i]).value,
        bound,
    ) by {}
}

/// Every entry of the office extension is well-formed at its own position.
proof fn lemma_offices_ext_wf(offs: Seq<(String, Address)>, j: int, b: nat)
    requires
        j >= 0,
    ensures
        spec_offices_ext(offs, j, b).len() == 2 * j,
        forall|k: int|
            0 <= k < 2 * j ==> rows_wf(#[trigger] spec_offices_ext(offs, j, b)[k], (b + k) as nat),
    decreases j,
{
    if j > 0 {
        lemma_offices_ext_wf(offs, j - 1, b);
        let prev = spec_offices_ext(offs, j - 1, b);
        let ext = spec_offices_ext(offs, j, b);
        assert forall|k: int| 0 <= k < 2 * j implies rows_wf(
            #[trigger] ext[k],
            (b + k) as nat,
        ) by {
            if k < 2 * (j - 1) {
                assert(ext[k] == prev[k]);
            } else if k == 2 * (j - 1) {
                assert(ext[k] == spec_address_rows(offs[j - 1].1));
                lemma_address_rows_wf(offs[j - 1].1, (b + k) as nat);
            } else {
                assert(ext[k] == spec_map_entry_rows(
                    offs[j - 1].0@,
                    FieldValueV::Nested((b + 2 * (j - 1)) as nat),
                    "Address"@,
                ));
                lemma_map_entry_rows_wf(
                    offs[j - 1].0@,
                    FieldValueV::Nested((b + 2 * (j - 1)) as nat),
                    "Address"@,
                    (b + k) as nat,
                );
            }
        }
    }
}

/// Reflecting a company keeps the arena sound, and yields rows whose handles
/// all point below the new arena end.
pub proof fn lemma_company_reflection_wf(c: Company, arena: Seq<Seq<FieldTupleV>>)
    requires
        arena_wf(arena),
    ensures
        arena_wf(arena + spec_company_ext(c, arena.len())),
        rows_wf(spec_company_rows(c, arena.len()), arena.len() + spec_company_ext_len(c)),
{
    let base = arena.len();
    let ext = spec_company_ext(c, base);
    let whole = arena + ext;
    let n = c.offices@.len();
    lemma_offices_ext_wf(c.offices@, n as int, base + 1);
    assert forall|h: int| 0 <= h < whole.len() implies rows_wf(
        #[trigger] whole[h],
        h as nat,
    ) by {
        if h < arena.len() {
            assert(whole[h] == arena[h]);
        } else if h == arena.len() {
            assert(whole[h] == spec_address_rows(c.headquarters));
            lemma_address_rows_wf(c.headquarters, h as nat);
        } else {
            let k = h - arena.len() - 1;
            assert(whole[h] == spec_offices_ext(c.offices@, n as int, base + 1)[k]);
            assert(rows_wf(spec_offices_ext(c.offices@, n as int, base + 1)[k], (base + 1 + k) as nat));
        }
    }
    let bound = base + spec_company_ext_len(c);
    let rows = spec_company_rows(c, base);
    assert forall|i: int| 0 <= i < rows.len() implies value_handles_below(
        (#[trigger] rows[i]).value,
        bound,
    ) by {
        if i == 3 {
            let hs = Seq::new(n, |k: int| (base + 2 + 2 * k) as nat);
            assert forall|t: int| 0 <= t < hs.len() implies #[trigger] hs[t] < bound by {
                assert(hs[t] == (base + 2 + 2 * t) as nat);
            }
        }
    }
}

/// Reflecting a person keeps the arena sound, and yields rows whose handles
/// all point below the new arena end.
pub proof fn lemma_person_reflection_wf(p: Person, arena: Seq<Seq<FieldTupleV>>)
    requires
        arena_wf(arena),
    ensures
        arena_wf(arena + spec_person_ext(p, arena.len())),
        rows_wf(spec_person_rows(p, arena.len()), arena.len() + spec_person_ext_len(p)),
    decreases p,
{
    let base = arena.len();
    let ext = spec_person_ext(p, base);
    let whole = arena + ext;
    match p.spouse {
        None => {
            assert forall|h: int| 0 <= h < whole.len() implies rows_wf(
                #[trigger] whole[h],
                h as nat,
            ) by {
                if h < arena.len() {
                    assert(whole[h] == arena[h]);
                } else {
                    assert(whole[h] == spec_address_rows(p.address));
                    lemma_address_rows_wf(p.address, h as nat);
                }
            }
        },
        Some(s) => {
            let arena1 = arena + seq![spec_address_rows(p.address)];
            assert forall|h: int| 0 <= h < arena1.len() implies rows_wf(
                #[trigger] arena1[h],
                h as nat,
            ) by {
                if h < arena.len() {
                    assert(arena1[h] == arena[h]);
                } else {
                    assert(arena1[h] == spec_address_rows(p.address));
                    lemma_address_rows_wf(p.address, h as nat);
                }
            }
            lemma_person_reflection_wf(*s, arena1);
            lemma_person_ext_len(*s, base + 1);
            let arena2 = arena1 + spec_person_ext(*s, base + 1);
            assert(arena2.len() == base + 1 + spec_person_ext_len(*s));
            assert forall|h: int| 0 <= h < whole.len() implies rows_wf(
                #[trigger] whole[h],
                h as nat,
            ) by {
                if h < arena2.len() {
                    assert(whole[h] == arena2[h]);
                } else {
                    assert(whole[h] == spec_person_rows(*s, base + 1));
                    assert(h == arena2.len());
                    assert(rows_wf(spec_person_rows(*s, base + 1), h as nat));
                }
            }
        },
    }
    let bound = base + spec_person_ext_len(p);
    let rows = spec_person_rows(p, base);
    assert forall|i: int| 0 <= i < rows.len() implies value_handles_below(
        (#[trigger] rows[i]).value,
        bound,
    ) by {}
}

/// Every string-map entry holds primitives only.
proof fn lemma_string_map_entries_wf(m: Seq<(String, String)>, h: int, bound: nat)
    requires
        0 <= h < m.len(),
    ensures
        rows_wf(spec_string_map_entries(m)[h], bound),
{
    lemma_map_entry_rows_wf(
        m[h].0@,
        FieldValueV::Primitive(PrimV::Str(m[h].1@)),
        "String"@,
        bound,
    );
}

/// The investment extension grows by at least two entries per investment.
proof fn lemma_investments_ext_len(inv: Seq<(String, Company)>, j: int, b: nat)
    requires
        0 <= j,
    ensures
        spec_investments_ext(inv, j, b).len() >= 2 * j,
        forall|j2: int|
            0 <= j2 <= j ==> spec_investments_ext(inv, j2, b).len() <= spec_investments_ext(
                inv,
                j,
                b,
            ).len(),
    decreases j,
{
    if j > 0 {
        lemma_investments_ext_len(inv, j - 1, b);
        lemma_company_ext_len(inv[j - 1].1, b + spec_investments_ext(inv, j - 1, b).len());
    }
}

/// Reflecting the investments keeps the arena sound.
proof fn lemma_investments_ext_wf(inv: Seq<(String, Company)>, j: int, arena: Seq<
    Seq<FieldTupleV>,
>)
    requires
        0 <= j <= inv.len(),
        arena_wf(arena),
    ensures
        arena_wf(arena + spec_investments_ext(inv, j, arena.len())),
    decreases j,
{
    let b = arena.len();
    if j == 0 {
        assert(arena + spec_investments_ext(inv, 0, b) =~= arena);
    } else {
        lemma_investments_ext_wf(inv, j - 1, arena);
        let prev = spec_investments_ext(inv, j - 1, b);
        let arena1 = arena + prev;
        let bj = b + prev.len();
        assert(arena1.len() == bj);
        let c = inv[j - 1].1;
        lemma_company_reflection_wf(c, arena1);
        lemma_company_ext_len(c, bj);
        let arena2 = arena1 + spec_company_ext(c, bj);
        let arena3 = arena2.push(spec_company_rows(c, bj));
        assert(arena2.len() == bj + spec_company_ext_len(c));
        assert forall|h: int| 0 <= h < arena3.len() implies rows_wf(
            #[trigger] arena3[h],
            h as nat,
        ) by {
            if h < arena2.len() {
                assert(arena3[h] == arena2[h]);
            } else {
                assert(arena3[h] == spec_company_rows(c, bj));
                assert(rows_wf(spec_company_rows(c, bj), bj + spec_company_ext_len(c)));
            }
        }
        let entry = spec_map_entry_rows(
            inv[j - 1].0@,
            FieldValueV::Nested((bj + spec_company_ext_len(c)) as nat),
            "Company"@,
        );
        lemma_map_entry_rows_wf(
            inv[j - 1].0@,
            FieldValueV::Nested((bj + spec_company_ext_len(c)) as nat),
            "Company"@,
            arena3.len(),
        );
        let arena4 = arena3.push(entry);
        assert forall|h: int| 0 <= h < arena4.len() implies rows_wf(
            #[trigger] arena4[h],
            h as nat,
        ) by {
            if h < arena3.len() {
                assert(arena4[h] == arena3[h]);
            } else {
                assert(arena4[h] == entry);
            }
        }
        assert(arena + spec_investments_ext(inv, j, b) =~= arena4);
    }
}

/// Reflecting the map-keyed pairs keeps the arena sound.
proof fn lemma_nested_ext_wf(
    ns: Seq<(Vec<(String, String)>, i32)>,
    j: int,
    arena: Seq<Seq<FieldTupleV>>,
)
    requires
        0 <= j <= ns.len(),
        arena_wf(arena),
    ensures
        arena_wf(arena + spec_nested_ext(ns, j, arena.len())),
    decreases j,
{
    let b = arena.len();
    if j == 0 {
        assert(arena + spec_nested_ext(ns, 0, b) =~= arena);
    } else {
        lemma_nested_ext_wf(ns, j - 1, arena);
        let prev = spec_nested_ext(ns, j - 1, b);
        let arena1 = arena + prev;
        let bj = b + prev.len();
        let m = ns[j - 1].0@;
        let arena2 = arena1 + spec_string_map_entries(m);
        assert forall|h: int| 0 <= h < arena2.len() implies rows_wf(
            #[trigger] arena2[h],
            h as nat,
        ) by {
            if h < arena1.len() {
                assert(arena2[h] == arena1[h]);
            } else {
                assert(arena2[h] == spec_string_map_entries(m)[h - arena1.len()]);
                lemma_string_map_entries_wf(m, h - arena1.len(), h as nat);
            }
        }
        let inner = Seq::new(m.len(), |t: int| (bj + t) as nat);
        let outer = spec_nested_entry_rows(inner, ns[j - 1].1);
        assert(arena2.len() == bj + m.len());
        assert forall|i: int| 0 <= i < outer.len() implies value_handles_below(
            (#[trigger] outer[i]).value,
            arena2.len(),
        ) by {
            if i == 0 {
                assert forall|t: int| 0 <= t < inner.len() implies #[trigger] inner[t]
                    < arena2.len() by {
                    assert(inner[t] == (bj + t) as nat);
                }
            }
        }
        let arena3 = arena2.push(outer);
        assert forall|h: int| 0 <= h < arena3.len() implies rows_wf(
            #[trigger] arena3[h],
            h as nat,
        ) by {
            if h < arena2.len() {
                assert(arena3[h] == arena2[h]);
            } else {
                assert(arena3[h] == outer);
            }
        }
        assert(arena + spec_nested_ext(ns, j, b) =~= arena3);
    }
}

/// The map-keyed extension grows by at least one entry per pair.
proof fn lemma_nested_ext_len(ns: Seq<(Vec<(String, String)>, i32)>, j: int, b: nat)
    requires
        0 <= j,
    ensures
        spec_nested_ext(ns, j, b).len() >= j,
        forall|j2: int|
            0 <= j2 <= j ==> spec_nested_ext(ns, j2, b).len() <= spec_nested_ext(ns, j, b).len(),
    decreases j,
{
    if j > 0 {
        lemma_nested_ext_len(ns, j - 1, b);
    }
}

/// Reflecting a user keeps the arena sound, and yields rows whose handles
/// all point below the new arena end.
pub proof fn lemma_user_reflection_wf(u: User, arena: Seq<Seq<FieldTupleV>>)
    requires
        arena_wf(arena),
    ensures
        arena_wf(arena + spec_user_ext(u, arena.len())),
        rows_wf(spec_user_rows(u, arena.len()), arena.len() + spec_user_ext(u, arena.len()).len()),
{
    let base = arena.len();
    let cel = spec_contactinfo_ext_len(u.contact);
    let eel = spec_company_ext_len(u.employer);
    let b1 = base + cel + 1;
    let b2 = b1 + eel + 1;
    let np = u.projects@.len();
    let nm = u.metadata@.len();
    let ni = u.investments@.len();
    let nn = u.nested@.len();
    let b3 = b2 + np;
    let b4 = b3 + nm;
    let inv_ext = spec_investments_ext(u.investments@, ni as int, b4);
    let b5 = b4 + inv_ext.len();
    let nested_ext = spec_nested_ext(u.nested@, nn as int, b5);

    lemma_contactinfo_reflection_wf(u.contact, arena);
    let a1 = arena + spec_contactinfo_ext(u.contact);
    assert(a1.len() == base + cel);
    let a1p = a1.push(spec_contactinfo_rows(u.contact, base));
    assert forall|h: int| 0 <= h < a1p.len() implies rows_wf(#[trigger] a1p[h], h as nat) by {
        if h < a1.len() {
            assert(a1p[h] == a1[h]);
        } else {
            assert(a1p[h] == spec_contactinfo_rows(u.contact, base));
        }
    }
    assert(a1p.len() == b1);

    lemma_company_reflection_wf(u.employer, a1p);
    lemma_company_ext_len(u.employer, b1);
    let a2 = a1p + spec_company_ext(u.employer, b1);
    assert(a2.len() == b1 + eel);
    let a2p = a2.push(spec_company_rows(u.employer, b1));
    assert forall|h: int| 0 <= h < a2p.len() implies rows_wf(#[trigger] a2p[h], h as nat) by {
        if h < a2.len() {
            assert(a2p[h] == a2[h]);
        } else {
            assert(a2p[h] == spec_company_rows(u.employer, b1));
        }
    }
    assert(a2p.len() == b2);

    let a3 = a2p + spec_project_entries(u.projects@);
    assert forall|h: int| 0 <= h < a3.len() implies rows_wf(#[trigger] a3[h], h as nat) by {
        if h < a2p.len() {
            assert(a3[h] == a2p[h]);
        } else {
            assert(a3[h] == spec_project_rows(u.projects@[h - a2p.len()]));
            lemma_project_rows_wf(u.projects@[h - a2p.len()], h as nat);
        }
    }
    assert(a3.len() == b3);

    let a4 = a3 + spec_string_map_entries(u.metadata@);
    assert forall|h: int| 0 <= h < a4.len() implies rows_wf(#[trigger] a4[h], h as nat) by {
        if h < a3.len() {
            assert(a4[h] == a3[h]);
        } else {
            lemma_string_map_entries_wf(u.metadata@, h - a3.len(), h as nat);
            assert(a4[h] == spec_string_map_entries(u.metadata@)[h - a3.len()]);
        }
    }
    assert(a4.len() == b4);

    lemma_investments_ext_wf(u.investments@, ni as int, a4);
    let a5 = a4 + inv_ext;
    assert(a5.len() == b5);

    lemma_nested_ext_wf(u.nested@, nn as int, a5);
    let a6 = a5 + nested_ext;

    assert(arena + spec_user_ext(u, base) =~= a6);
    assert(arena_wf(arena + spec_user_ext(u, base)));

    let bound = base + spec_user_ext(u, base).len();
    assert(bound == a6.len());
    let rows = spec_user_rows(u, base);
    lemma_investments_ext_len(u.investments@, ni as int, b4);
    lemma_nested_ext_len(u.nested@, nn as int, b5);
    assert forall|i: int| 0 <= i < rows.len() implies value_handles_below(
        (#[trigger] rows[i]).value,
        bound,
    ) by {
        if i == 6 {
            let hs = Seq::new(np, |k: int| (b2 + k) as nat);
            assert forall|t: int| 0 <= t < hs.len() implies #[trigger] hs[t] < bound by {
                assert(hs[t] == (b2 + t) as nat);
            }
        } else if i == 7 {
            let hs = Seq::new(nm, |k: int| (b3 + k) as nat);
            assert forall|t: int| 0 <= t < hs.len() implies #[trigger] hs[t] < bound by {
                assert(hs[t] == (b3 + t) as nat);
            }
        } else if i == 8 {
            let hs = Seq::new(ni, |k: int| spec_investment_handle(u.investments@, k, b4));
            assert forall|t: int| 0 <= t < hs.len() implies #[trigger] hs[t] < bound by {
                lemma_investments_ext_len(u.investments@, t + 1, b4);
                assert(spec_investments_ext(u.investments@, t + 1, b4).len() <= inv_ext.len());
                assert(hs[t] == spec_investment_handle(u.investments@, t, b4));
            }
        } else if i == 9 {
            let hs = Seq::new(nn, |k: int| spec_nested_handle(u.nested@, k, b5));
            assert forall|t: int| 0 <= t < hs.len() implies #[trigger] hs[t] < bound by {
                lemma_nested_ext_len(u.nested@, t + 1, b5);
                assert(spec_nested_ext(u.nested@, t + 1, b5).len() <= nested_ext.len());
                assert(hs[t] == spec_nested_handle(u.nested@, t, b5));
            }
        }
    }
}

/// Rendering a freshly reflected user never reports a dangling reference.
pub proof fn lemma_user_render_never_dangles(u: User, arena: Seq<Seq<FieldTupleV>>)
    requires
        arena_wf(arena),
    ensures
        ({
            let whole = arena + spec_user_ext(u, arena.len());
            spec_render_rows(whole, spec_user_rows(u, arena.len()), whole.len(), 0) is Ok
        }),
{
    lemma_user_reflection_wf(u, arena);
    let whole = arena + spec_user_ext(u, arena.len());
    crate::reflect::lemma_render_total(
        whole,
        spec_user_rows(u, arena.len()),
        whole.len(),
        0,
    );
}

/// Rendering a freshly reflected person never reports a dangling reference:
/// the handles its rows and entries carry all point at earlier entries.
pub proof fn lemma_person_render_never_dangles(p: Person, arena: Seq<Seq<FieldTupleV>>)
    requires
        arena_wf(arena),
    ensures
        ({
            let whole = arena + spec_person_ext(p, arena.len());
            spec_render_rows(
                whole,
                spec_person_rows(p, arena.len()),
                whole.len(),
                0,
            ) is Ok
        }),
{
    lemma_person_reflection_wf(p, arena);
    lemma_person_ext_len(p, arena.len());
    let whole = arena + spec_person_ext(p, arena.len());
    crate::reflect::lemma_render_total(
        whole,
        spec_person_rows(p, arena.len()),
        whole.len(),
        0,
    );
}

} // verus!
