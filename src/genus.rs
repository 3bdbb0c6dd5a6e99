//! Genera, each belonging to a family, and their statements.

use crate::error::DatabaseError;
use crate::ids::{is_random_v4, lemma_uuid_text_round_trip, uuid_text, Uuid};
use crate::sql::{
    cell_text, cell_uuid, cells, column_text, column_uuid, key_cell, text_columns, text_value,
    wrong_width, ColumnKind, SqlCell, SqlValue, Statement,
};
use vstd::prelude::*;

verus! {

pub const INSERT_GENUS: &'static str =
    "INSERT INTO genera (id, family_id, name, authority) VALUES (?, ?, ?, ?)";

pub const SELECT_GENUS_BY_ID: &'static str =
    "SELECT id, family_id, name, authority FROM genera WHERE id = ?";

pub const SELECT_GENERA_BY_FAMILY: &'static str =
    "SELECT id, family_id, name, authority FROM genera WHERE family_id = ? ORDER BY name";

pub const UPDATE_GENUS: &'static str =
    "UPDATE genera SET family_id = ?, name = ?, authority = ? WHERE id = ?";

pub const DELETE_GENUS: &'static str = "DELETE FROM genera WHERE id = ?";

/// A genus in the botanical taxonomy.
#[derive(Debug, Clone, PartialEq)]
pub struct Genus {
    pub id: Uuid,
    /// The family that the genus belongs to.
    pub family_id: Uuid,
    pub name: String,
    /// The author(s) who first described the genus.
    pub authority: String,
}

pub struct GenusView {
    pub id: u128,
    pub family_id: u128,
    pub name: Seq<char>,
    pub authority: Seq<char>,
}

impl View for Genus {
    type V = GenusView;

    open spec fn view(&self) -> GenusView {
        GenusView {
            id: self.id.value,
            family_id: self.family_id.value,
            name: self.name@,
            authority: self.authority@,
        }
    }
}

impl Genus {
    /// A genus with a fresh random identifier.
    pub fn new(family_id: Uuid, name: String, authority: String) -> (r: Genus)
        ensures
            is_random_v4(r.id.value),
            r.id.value != 0,
            r.family_id == family_id,
            r.name == name,
            r.authority == authority,
    {
        Genus { id: Uuid::new_v4(), family_id, name, authority }
    }

    pub fn with_id(id: Uuid, family_id: Uuid, name: String, authority: String) -> (r: Genus)
        ensures
            r.id == id,
            r.family_id == family_id,
            r.name == name,
            r.authority == authority,
    {
        Genus { id, family_id, name, authority }
    }
}

/// The columns of a genus row, in the order in which they are written and read.
pub open spec fn genus_cells(g: GenusView) -> Seq<SqlCell> {
    seq![
        SqlCell::Text(uuid_text(g.id)),
        SqlCell::Text(uuid_text(g.family_id)),
        SqlCell::Text(g.name),
        SqlCell::Text(g.authority),
    ]
}

/// The genus that a row of the store holds, if the row is well formed.
pub open spec fn decoded_genus(row: Seq<SqlCell>) -> Option<GenusView> {
    if row.len() == 4 && cell_uuid(row[0]) is Some && cell_uuid(row[1]) is Some
        && cell_text(row[2]) is Some && cell_text(row[3]) is Some {
        Some(
            GenusView {
                id: cell_uuid(row[0])->Some_0,
                family_id: cell_uuid(row[1])->Some_0,
                name: cell_text(row[2])->Some_0,
                authority: cell_text(row[3])->Some_0,
            },
        )
    } else {
        None
    }
}

pub fn insert_genus_statement(genus: &Genus) -> (r: Statement)
    ensures
        r.sql@ == INSERT_GENUS@,
        cells(r.params@) == genus_cells(genus@),
        r.columns@.len() == 0,
{
    let params = vec![
        text_value(genus.id.to_text()),
        text_value(genus.family_id.to_text()),
        text_value(genus.name.clone()),
        text_value(genus.authority.clone()),
    ];
    proof { assert(cells(params@) =~= genus_cells(genus@)); }
    Statement { sql: String::from_str(INSERT_GENUS), params, columns: Vec::new() }
}

pub fn genus_by_id_statement(id: Uuid) -> (r: Statement)
    ensures
        r.sql@ == SELECT_GENUS_BY_ID@,
        cells(r.params@) == seq![key_cell(id.value)],
        r.columns@ == Seq::new(4, |i: int| ColumnKind::Text),
{
    let params = vec![text_value(id.to_text())];
    proof { assert(cells(params@) =~= seq![key_cell(id.value)]); }
    Statement { sql: String::from_str(SELECT_GENUS_BY_ID), params, columns: text_columns(4) }
}

/// The genera of the family with identifier `family_id`, ordered by name.
pub fn genera_by_family_statement(family_id: Uuid) -> (r: Statement)
    ensures
        r.sql@ == SELECT_GENERA_BY_FAMILY@,
        cells(r.params@) == seq![key_cell(family_id.value)],
        r.columns@ == Seq::new(4, |i: int| ColumnKind::Text),
{
    let params = vec![text_value(family_id.to_text())];
    proof { assert(cells(params@) =~= seq![key_cell(family_id.value)]); }
    Statement { sql: String::from_str(SELECT_GENERA_BY_FAMILY), params, columns: text_columns(4) }
}

/// Replaces the family, name and authority of the genus with identifier `id`.
pub fn update_genus_statement(id: Uuid, genus: &Genus) -> (r: Statement)
    ensures
        r.sql@ == UPDATE_GENUS@,
        cells(r.params@) == seq![
            SqlCell::Text(uuid_text(genus.family_id.value)),
            SqlCell::Text(genus.name@),
            SqlCell::Text(genus.authority@),
            key_cell(id.value),
        ],
        r.columns@.len() == 0,
{
    let params = vec![
        text_value(genus.family_id.to_text()),
        text_value(genus.name.clone()),
        text_value(genus.authority.clone()),
        text_value(id.to_text()),
    ];
    proof {
        assert(cells(params@) =~= seq![
            SqlCell::Text(uuid_text(genus.family_id.value)),
            SqlCell::Text(genus.name@),
            SqlCell::Text(genus.authority@),
            key_cell(id.value),
        ]);
    }
    Statement { sql: String::from_str(UPDATE_GENUS), params, columns: Vec::new() }
}

pub fn delete_genus_statement(id: Uuid) -> (r: Statement)
    ensures
        r.sql@ == DELETE_GENUS@,
        cells(r.params@) == seq![key_cell(id.value)],
        r.columns@.len() == 0,
{
    let params = vec![text_value(id.to_text())];
    proof { assert(cells(params@) =~= seq![key_cell(id.value)]); }
    Statement { sql: String::from_str(DELETE_GENUS), params, columns: Vec::new() }
}

/// The genus held by a row of the store; a malformed row is a validation error.
pub fn genus_from_row(row: &Vec<SqlValue>) -> (r: Result<Genus, DatabaseError>)
    ensures
        match r {
            Ok(g) => decoded_genus(cells(row@)) == Some(g@),
            Err(e) => decoded_genus(cells(row@)) is None && e is ValidationError,
        },
{
    if row.len() != 4 {
        return Err(wrong_width());
    }
    let id = column_uuid(row, 0)?;
    let family_id = column_uuid(row, 1)?;
    let name = column_text(row, 2)?;
    let authority = column_text(row, 3)?;
    Ok(Genus { id, family_id, name, authority })
}

/// What the insert statement writes for a genus reads back as that same genus,
/// in every field.
pub proof fn lemma_genus_round_trip(g: GenusView)
    ensures
        decoded_genus(genus_cells(g)) == Some(g),
        genus_cells(g)[0] == key_cell(g.id),
{
    lemma_uuid_text_round_trip(g.id);
    lemma_uuid_text_round_trip(g.family_id);
}

} // verus!
