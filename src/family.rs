//! Families, the root of the taxonomy, and their statements.

use crate::error::DatabaseError;
use crate::ids::{is_random_v4, lemma_uuid_text_round_trip, uuid_text, Uuid};
use crate::sql::{
    cell_text, cell_uuid, cells, key_cell, column_text, column_uuid, contains_pattern, like_pattern,
    text_columns, text_value, wrong_width, ColumnKind, SqlCell, SqlValue, Statement,
};
use vstd::prelude::*;

verus! {

pub const INSERT_FAMILY: &'static str = "INSERT INTO families (id, name, authority) VALUES (?, ?, ?)";

pub const SELECT_FAMILY_BY_ID: &'static str = "SELECT id, name, authority FROM families WHERE id = ?";

pub const SELECT_FAMILIES_BY_NAME: &'static str =
    "SELECT id, name, authority FROM families WHERE name LIKE ? ESCAPE '\\' ORDER BY name";

pub const UPDATE_FAMILY: &'static str = "UPDATE families SET name = ?, authority = ? WHERE id = ?";

pub const DELETE_FAMILY: &'static str = "DELETE FROM families WHERE id = ?";

/// A family in the botanical taxonomy.
#[derive(Debug, Clone, PartialEq)]
pub struct Family {
    pub id: Uuid,
    pub name: String,
    /// The author(s) who first described the family.
    pub authority: String,
}

pub struct FamilyView {
    pub id: u128,
    pub name: Seq<char>,
    pub authority: Seq<char>,
}

impl View for Family {
    type V = FamilyView;

    open spec fn view(&self) -> FamilyView {
        FamilyView { id: self.id.value, name: self.name@, authority: self.authority@ }
    }
}

impl Family {
    /// A family with a fresh random identifier.
    pub fn new(name: String, authority: String) -> (r: Family)
        ensures
            is_random_v4(r.id.value),
            r.id.value != 0,
            r.name == name,
            r.authority == authority,
    {
        Family { id: Uuid::new_v4(), name, authority }
    }

    pub fn with_id(id: Uuid, name: String, authority: String) -> (r: Family)
        ensures
            r.id == id,
            r.name == name,
            r.authority == authority,
    {
        Family { id, name, authority }
    }
}

/// The columns of a family row, in the order in which they are written and read.
pub open spec fn family_cells(f: FamilyView) -> Seq<SqlCell> {
    seq![SqlCell::Text(uuid_text(f.id)), SqlCell::Text(f.name), SqlCell::Text(f.authority)]
}

/// The family that a row of the store holds, if the row is well formed.
pub open spec fn decoded_family(row: Seq<SqlCell>) -> Option<FamilyView> {
    if row.len() == 3 && cell_uuid(row[0]) is Some && cell_text(row[1]) is Some
        && cell_text(row[2]) is Some {
        Some(
            FamilyView {
                id: cell_uuid(row[0])->Some_0,
                name: cell_text(row[1])->Some_0,
                authority: cell_text(row[2])->Some_0,
            },
        )
    } else {
        None
    }
}

pub fn insert_family_statement(family: &Family) -> (r: Statement)
    ensures
        r.sql@ == INSERT_FAMILY@,
        cells(r.params@) == family_cells(family@),
        r.columns@.len() == 0,
{
    let params = vec![
        text_value(family.id.to_text()),
        text_value(family.name.clone()),
        text_value(family.authority.clone()),
    ];
    proof { assert(cells(params@) =~= family_cells(family@)); }
    Statement { sql: String::from_str(INSERT_FAMILY), params, columns: Vec::new() }
}

pub fn family_by_id_statement(id: Uuid) -> (r: Statement)
    ensures
        r.sql@ == SELECT_FAMILY_BY_ID@,
        cells(r.params@) == seq![key_cell(id.value)],
        r.columns@ == Seq::new(3, |i: int| ColumnKind::Text),
{
    let params = vec![text_value(id.to_text())];
    proof { assert(cells(params@) =~= seq![key_cell(id.value)]); }
    Statement { sql: String::from_str(SELECT_FAMILY_BY_ID), params, columns: text_columns(3) }
}

/// Families whose name holds `name` (letters compared without regard to case),
/// ordered by name.
pub fn families_by_name_statement(name: &str) -> (r: Statement)
    ensures
        r.sql@ == SELECT_FAMILIES_BY_NAME@,
        cells(r.params@) == seq![SqlCell::Text(like_pattern(name@))],
        r.columns@ == Seq::new(3, |i: int| ColumnKind::Text),
{
    let params = vec![text_value(contains_pattern(name))];
    proof { assert(cells(params@) =~= seq![SqlCell::Text(like_pattern(name@))]); }
    Statement { sql: String::from_str(SELECT_FAMILIES_BY_NAME), params, columns: text_columns(3) }
}

/// Replaces the name and authority of the family with identifier `id`.
pub fn update_family_statement(id: Uuid, family: &Family) -> (r: Statement)
    ensures
        r.sql@ == UPDATE_FAMILY@,
        cells(r.params@) == seq![
            SqlCell::Text(family.name@),
            SqlCell::Text(family.authority@),
            key_cell(id.value),
        ],
        r.columns@.len() == 0,
{
    let params = vec![
        text_value(family.name.clone()),
        text_value(family.authority.clone()),
        text_value(id.to_text()),
    ];
    proof {
        assert(cells(params@) =~= seq![
            SqlCell::Text(family.name@),
            SqlCell::Text(family.authority@),
            key_cell(id.value),
        ]);
    }
    Statement { sql: String::from_str(UPDATE_FAMILY), params, columns: Vec::new() }
}

pub fn delete_family_statement(id: Uuid) -> (r: Statement)
    ensures
        r.sql@ == DELETE_FAMILY@,
        cells(r.params@) == seq![key_cell(id.value)],
        r.columns@.len() == 0,
{
    let params = vec![text_value(id.to_text())];
    proof { assert(cells(params@) =~= seq![key_cell(id.value)]); }
    Statement { sql: String::from_str(DELETE_FAMILY), params, columns: Vec::new() }
}

/// The family held by a row of the store; a malformed row (wrong width, a
/// column that is not text, an identifier that does not parse) is a validation
/// error.
pub fn family_from_row(row: &Vec<SqlValue>) -> (r: Result<Family, DatabaseError>)
    ensures
        match r {
            Ok(f) => decoded_family(cells(row@)) == Some(f@),
            Err(e) => decoded_family(cells(row@)) is None && e is ValidationError,
        },
{
    if row.len() != 3 {
        return Err(wrong_width());
    }
    let id = column_uuid(row, 0)?;
    let name = column_text(row, 1)?;
    let authority = column_text(row, 2)?;
    Ok(Family { id, name, authority })
}

/// What the insert statement writes for a family reads back as that same family,
/// in every field, whatever its text holds.
pub proof fn lemma_family_round_trip(f: FamilyView)
    ensures
        decoded_family(family_cells(f)) == Some(f),
        family_cells(f)[0] == key_cell(f.id),
{
    lemma_uuid_text_round_trip(f.id);
}

} // verus!
