//! Sample source-language definitions: plain data shapes as a front-end
//! would hand them over, and one ready-made struct definition for the
//! emitter.

use vstd::prelude::*;
use vstd::string::StringExecFns;

use crate::ir::FieldAttr;
use crate::ir::FieldDef;
use crate::ir::StructDef;
use crate::ir::TypeIR;

verus! {

/// An athlete record. The birth instant is carried as seconds since the Unix
/// epoch; reading a clock is a host concern.
#[derive(Debug)]
pub struct Athlete {
    pub athlete: i64,
    pub team1: Option<i64>,
    pub last: Option<String>,
    pub first: Option<String>,
    pub initial: Option<String>,
    pub sex: String,
    pub birth: i64,
    pub age: i16,
    pub id_no: String,
    pub inactive: bool,
}

/// A team and its athletes.
#[derive(Debug)]
pub struct Team {
    pub team_id: i64,
    pub name: String,
    pub athletes: Vec<Athlete>,
}

/// A meet: teams and a result table keyed by identifier.
#[derive(Debug)]
pub struct Meet {
    pub meet_id: i64,
    pub name: String,
    pub teams: Vec<Team>,
    pub results: Vec<(i64, i64)>,
}

/// The ready-made athlete definition: a keyed identifier, a name and a score
/// list, with storage and CSV columns and attributes.
pub open spec fn is_athlete_struct_def(d: StructDef) -> bool {
    &&& d.name@ == "Athlete"@
    &&& d.table_name@ == "athlete"@
    &&& d.fields@.len() == 3
    &&& d.fields@[0].field_name@ == "id"@
    &&& (d.fields@[0].ty matches TypeIR::Primitive(n) && n@ == "u64"@)
    &&& d.fields@[0].table_col@ == "athlete_id"@
    &&& d.fields@[0].csv_col@ == "ID"@
    &&& d.fields@[0].attrs@ == seq![FieldAttr::PrimaryKey, FieldAttr::Serializable]
    &&& d.fields@[1].field_name@ == "name"@
    &&& (d.fields@[1].ty matches TypeIR::Primitive(n) && n@ == "String"@)
    &&& d.fields@[1].table_col@ == "athlete_name"@
    &&& d.fields@[1].csv_col@ == "Name"@
    &&& d.fields@[1].attrs@ == seq![FieldAttr::Serializable]
    &&& d.fields@[2].field_name@ == "scores"@
    &&& (d.fields@[2].ty matches TypeIR::Generic(c, args) && c@ == "Vec"@ && args@.len() == 1 && (
    args@[0] matches TypeIR::Primitive(m) && m@ == "i32"@))
    &&& d.fields@[2].table_col@ == "scores"@
    &&& d.fields@[2].csv_col@ == "Scores"@
    &&& d.fields@[2].attrs@ == seq![FieldAttr::Serializable]
}

/// Builds the athlete struct definition.
pub fn athlete_struct_def() -> (d: StructDef)
    ensures
        is_athlete_struct_def(d),
{
    let mut id_attrs: Vec<FieldAttr> = Vec::new();
    id_attrs.push(FieldAttr::PrimaryKey);
    id_attrs.push(FieldAttr::Serializable);
    let mut name_attrs: Vec<FieldAttr> = Vec::new();
    name_attrs.push(FieldAttr::Serializable);
    let mut score_attrs: Vec<FieldAttr> = Vec::new();
    score_attrs.push(FieldAttr::Serializable);
    let mut vec_args: Vec<TypeIR> = Vec::new();
    vec_args.push(TypeIR::Primitive(String::from_str("i32")));
    let mut fields: Vec<FieldDef> = Vec::new();
    fields.push(
        FieldDef {
            field_name: String::from_str("id"),
            ty: TypeIR::Primitive(String::from_str("u64")),
            table_col: String::from_str("athlete_id"),
            csv_col: String::from_str("ID"),
            attrs: id_attrs,
        },
    );
    fields.push(
        FieldDef {
            field_name: String::from_str("name"),
            ty: TypeIR::Primitive(String::from_str("String")),
            table_col: String::from_str("athlete_name"),
            csv_col: String::from_str("Name"),
            attrs: name_attrs,
        },
    );
    fields.push(
        FieldDef {
            field_name: String::from_str("scores"),
            ty: TypeIR::Generic(String::from_str("Vec"), vec_args),
            table_col: String::from_str("scores"),
            csv_col: String::from_str("Scores"),
            attrs: score_attrs,
        },
    );
    let d = StructDef {
        name: String::from_str("Athlete"),
        table_name: String::from_str("athlete"),
        fields,
    };
    proof {
        assert(d.fields@[0].attrs@ =~= seq![FieldAttr::PrimaryKey, FieldAttr::Serializable]);
        assert(d.fields@[1].attrs@ =~= seq![FieldAttr::Serializable]);
        assert(d.fields@[2].attrs@ =~= seq![FieldAttr::Serializable]);
    }
    d
}

} // verus!
