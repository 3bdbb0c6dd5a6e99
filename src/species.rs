//! Species, each belonging to a genus, and their statements.

use crate::error::DatabaseError;
use crate::ids::{is_random_v4, lemma_uuid_text_round_trip, uuid_text, Uuid};
use crate::sql::{
    cell_text, cell_uuid, cells, column_text, column_uuid, contains_pattern, key_cell,
    like_pattern, text_value, wrong_width, ColumnKind, SqlCell, SqlValue, Statement,
};
use vstd::prelude::*;

verus! {

pub const INSERT_SPECIES: &'static str =
    "INSERT INTO species (id, genus_id, specific_epithet, authority, publication_year, conservation_status) VALUES (?, ?, ?, ?, ?, ?)";

pub const SELECT_SPECIES_BY_ID: &'static str =
    "SELECT id, genus_id, specific_epithet, authority, publication_year, conservation_status FROM species WHERE id = ?";

pub const SELECT_SPECIES_BY_NAME: &'static str =
    "SELECT id, genus_id, specific_epithet, authority, publication_year, conservation_status FROM species WHERE specific_epithet LIKE ? ESCAPE '\\' ORDER BY specific_epithet";

pub const UPDATE_SPECIES: &'static str =
    "UPDATE species SET genus_id = ?, specific_epithet = ?, authority = ?, publication_year = ?, conservation_status = ? WHERE id = ?";

pub const DELETE_SPECIES: &'static str = "DELETE FROM species WHERE id = ?";

/// A species: the basic unit of classification, named in binomial
/// nomenclature by its genus and its specific epithet.
#[derive(Debug, Clone, PartialEq)]
pub struct Species {
    pub id: Uuid,
    /// The genus that the species belongs to.
    pub genus_id: Uuid,
    /// The species name in binomial nomenclature.
    pub specific_epithet: String,
    /// The author(s) who first described the species.
    pub authority: String,
    /// The year of first publication; negative years are before the common era.
    pub publication_year: Option<i32>,
    /// A conservation category such as LC, NT, VU or EX.
    pub conservation_status: Option<String>,
}

pub struct SpeciesView {
    pub id: u128,
    pub genus_id: u128,
    pub specific_epithet: Seq<char>,
    pub authority: Seq<char>,
    pub publication_year: Option<i32>,
    pub conservation_status: Option<Seq<char>>,
}

pub open spec fn optional_text(s: Option<String>) -> Option<Seq<char>> {
    match s {
        Some(t) => Some(t@),
        None => None,
    }
}

impl View for Species {
    type V = SpeciesView;

    open spec fn view(&self) -> SpeciesView {
        SpeciesView {
            id: self.id.value,
            genus_id: self.genus_id.value,
            specific_epithet: self.specific_epithet@,
            authority: self.authority@,
            publication_year: self.publication_year,
            conservation_status: optional_text(self.conservation_status),
        }
    }
}

impl Species {
    /// A species with a fresh random identifier.
    pub fn new(
        genus_id: Uuid,
        specific_epithet: String,
        authority: String,
        publication_year: Option<i32>,
        conservation_status: Option<String>,
    ) -> (r: Species)
        ensures
            is_random_v4(r.id.value),
            r.id.value != 0,
            r.genus_id == genus_id,
            r.specific_epithet == specific_epithet,
            r.authority == authority,
            r.publication_year == publication_year,
            r.conservation_status == conservation_status,
    {
        Species {
            id: Uuid::new_v4(),
            genus_id,
            specific_epithet,
            authority,
            publication_year,
            conservation_status,
        }
    }

    pub fn with_id(
        id: Uuid,
        genus_id: Uuid,
        specific_epithet: String,
        authority: String,
        publication_year: Option<i32>,
        conservation_status: Option<String>,
    ) -> (r: Species)
        ensures
            r.id == id,
            r.genus_id == genus_id,
            r.specific_epithet == specific_epithet,
            r.authority == authority,
            r.publication_year == publication_year,
            r.conservation_status == conservation_status,
    {
        Species { id, genus_id, specific_epithet, authority, publication_year, conservation_status }
    }

    pub fn get_specific_epithet(&self) -> (r: &str)
        ensures
            r@ == self.specific_epithet@,
    {
        self.specific_epithet.as_str()
    }

    pub fn get_authority(&self) -> (r: &str)
        ensures
            r@ == self.authority@,
    {
        self.authority.as_str()
    }

    pub fn get_publication_year(&self) -> (r: Option<i32>)
        ensures
            r == self.publication_year,
    {
        self.publication_year
    }

    pub fn get_conservation_status(&self) -> (r: Option<&str>)
        ensures
            match r {
                Some(s) => optional_text(self.conservation_status) == Some(s@),
                None => self.conservation_status is None,
            },
    {
        match &self.conservation_status {
            Some(s) => Some(s.as_str()),
            None => None,
        }
    }

    pub fn set_conservation_status(&mut self, status: Option<String>)
        ensures
            final(self).conservation_status == status,
            final(self).id == old(self).id,
            final(self).genus_id == old(self).genus_id,
            final(self).specific_epithet == old(self).specific_epithet,
            final(self).authority == old(self).authority,
            final(self).publication_year == old(self).publication_year,
    {
        self.conservation_status = status;
    }

    pub fn has_conservation_status(&self) -> (r: bool)
        ensures
            r == self.conservation_status is Some,
    {
        self.conservation_status.is_some()
    }
}

pub open spec fn year_cell(y: Option<i32>) -> SqlCell {
    match y {
        Some(v) => SqlCell::Integer(v as int),
        None => SqlCell::Null,
    }
}

pub open spec fn status_cell(s: Option<Seq<char>>) -> SqlCell {
    match s {
        Some(t) => SqlCell::Text(t),
        None => SqlCell::Null,
    }
}

/// The publication year a cell holds: none for an empty cell, a year for an
/// integer that fits in 32 bits; anything else is malformed.
pub open spec fn cell_year(c: SqlCell) -> Option<Option<i32>> {
    match c {
        SqlCell::Null => Some(None),
        SqlCell::Integer(v) => if i32::MIN <= v <= i32::MAX { Some(Some(v as i32)) } else { None },
        SqlCell::Text(_) => None,
    }
}

/// The conservation status a cell holds: none for an empty cell, else its text.
pub open spec fn cell_status(c: SqlCell) -> Option<Option<Seq<char>>> {
    match c {
        SqlCell::Null => Some(None),
        SqlCell::Text(t) => Some(Some(t)),
        SqlCell::Integer(_) => None,
    }
}

/// The columns of a species row, in the order in which they are written and read.
pub open spec fn species_cells(s: SpeciesView) -> Seq<SqlCell> {
    seq![
        SqlCell::Text(uuid_text(s.id)),
        SqlCell::Text(uuid_text(s.genus_id)),
        SqlCell::Text(s.specific_epithet),
        SqlCell::Text(s.authority),
        year_cell(s.publication_year),
        status_cell(s.conservation_status),
    ]
}

/// The species that a row of the store holds, if the row is well formed.
pub open spec fn decoded_species(row: Seq<SqlCell>) -> Option<SpeciesView> {
    if row.len() == 6 && cell_uuid(row[0]) is Some && cell_uuid(row[1]) is Some
        && cell_text(row[2]) is Some && cell_text(row[3]) is Some && cell_year(row[4]) is Some
        && cell_status(row[5]) is Some {
        Some(
            SpeciesView {
                id: cell_uuid(row[0])->Some_0,
                genus_id: cell_uuid(row[1])->Some_0,
                specific_epithet: cell_text(row[2])->Some_0,
                authority: cell_text(row[3])->Some_0,
                publication_year: cell_year(row[4])->Some_0,
                conservation_status: cell_status(row[5])->Some_0,
            },
        )
    } else {
        None
    }
}

/// The kinds of the columns of a species row.
pub open spec fn species_columns() -> Seq<ColumnKind> {
    seq![
        ColumnKind::Text,
        ColumnKind::Text,
        ColumnKind::Text,
        ColumnKind::Text,
        ColumnKind::Integer,
        ColumnKind::Text,
    ]
}

fn species_column_kinds() -> (r: Vec<ColumnKind>)
    ensures
        r@ == species_columns(),
{
    let r = vec![
        ColumnKind::Text,
        ColumnKind::Text,
        ColumnKind::Text,
        ColumnKind::Text,
        ColumnKind::Integer,
        ColumnKind::Text,
    ];
    proof { assert(r@ =~= species_columns()); }
    r
}

fn year_value(y: Option<i32>) -> (r: SqlValue)
    ensures
        r@ == year_cell(y),
{
    match y {
        Some(v) => SqlValue::Integer(v as i64),
        None => SqlValue::Null,
    }
}

fn status_value(s: &Option<String>) -> (r: SqlValue)
    ensures
        r@ == status_cell(optional_text(*s)),
{
    match s {
        Some(t) => SqlValue::Text(t.clone()),
        None => SqlValue::Null,
    }
}

pub fn insert_species_statement(species: &Species) -> (r: Statement)
    ensures
        r.sql@ == INSERT_SPECIES@,
        cells(r.params@) == species_cells(species@),
        r.columns@.len() == 0,
{
    let params = vec![
        text_value(species.id.to_text()),
        text_value(species.genus_id.to_text()),
        text_value(species.specific_epithet.clone()),
        text_value(species.authority.clone()),
        year_value(species.publication_year),
        status_value(&species.conservation_status),
    ];
    proof { assert(cells(params@) =~= species_cells(species@)); }
    Statement { sql: String::from_str(INSERT_SPECIES), params, columns: Vec::new() }
}

pub fn species_by_id_statement(id: Uuid) -> (r: Statement)
    ensures
        r.sql@ == SELECT_SPECIES_BY_ID@,
        cells(r.params@) == seq![key_cell(id.value)],
        r.columns@ == species_columns(),
{
    let params = vec![text_value(id.to_text())];
    proof { assert(cells(params@) =~= seq![key_cell(id.value)]); }
    Statement {
        sql: String::from_str(SELECT_SPECIES_BY_ID),
        params,
        columns: species_column_kinds(),
    }
}

/// Species whose specific epithet holds `name` (letters compared without
/// regard to case), ordered by specific epithet.
pub fn species_by_name_statement(name: &str) -> (r: Statement)
    ensures
        r.sql@ == SELECT_SPECIES_BY_NAME@,
        cells(r.params@) == seq![SqlCell::Text(like_pattern(name@))],
        r.columns@ == species_columns(),
{
    let params = vec![text_value(contains_pattern(name))];
    proof { assert(cells(params@) =~= seq![SqlCell::Text(like_pattern(name@))]); }
    Statement {
        sql: String::from_str(SELECT_SPECIES_BY_NAME),
        params,
        columns: species_column_kinds(),
    }
}

/// Replaces every field but the identifier of the species with identifier `id`.
pub fn update_species_statement(id: Uuid, species: &Species) -> (r: Statement)
    ensures
        r.sql@ == UPDATE_SPECIES@,
        cells(r.params@) == species_cells(species@).subrange(1, 6).push(key_cell(id.value)),
        r.columns@.len() == 0,
{
    let params = vec![
        text_value(species.genus_id.to_text()),
        text_value(species.specific_epithet.clone()),
        text_value(species.authority.clone()),
        year_value(species.publication_year),
        status_value(&species.conservation_status),
        text_value(id.to_text()),
    ];
    proof {
        assert(cells(params@) =~= species_cells(species@).subrange(1, 6).push(key_cell(id.value)));
    }
    Statement { sql: String::from_str(UPDATE_SPECIES), params, columns: Vec::new() }
}

pub fn delete_species_statement(id: Uuid) -> (r: Statement)
    ensures
        r.sql@ == DELETE_SPECIES@,
        cells(r.params@) == seq![key_cell(id.value)],
        r.columns@.len() == 0,
{
    let params = vec![text_value(id.to_text())];
    proof { assert(cells(params@) =~= seq![key_cell(id.value)]); }
    Statement { sql: String::from_str(DELETE_SPECIES), params, columns: Vec::new() }
}

fn column_year(row: &Vec<SqlValue>, i: usize) -> (r: Result<Option<i32>, DatabaseError>)
    requires
        i < row@.len(),
    ensures
        match r {
            Ok(y) => cell_year(row@[i as int]@) == Some(y),
            Err(e) => cell_year(row@[i as int]@) is None && e is ValidationError,
        },
{
    match &row[i] {
        SqlValue::Null => Ok(None),
        SqlValue::Integer(v) => {
            if i32::MIN as i64 <= *v && *v <= i32::MAX as i64 {
                Ok(Some(*v as i32))
            } else {
                Err(DatabaseError::ValidationError(String::from_str("publication year out of range")))
            }
        },
        SqlValue::Text(_) => Err(DatabaseError::ValidationError(String::from_str("expected an integer column"))),
    }
}

fn column_status(row: &Vec<SqlValue>, i: usize) -> (r: Result<Option<String>, DatabaseError>)
    requires
        i < row@.len(),
    ensures
        match r {
            Ok(s) => cell_status(row@[i as int]@) == Some(optional_text(s)),
            Err(e) => cell_status(row@[i as int]@) is None && e is ValidationError,
        },
{
    match &row[i] {
        SqlValue::Null => Ok(None),
        SqlValue::Text(t) => Ok(Some(t.clone())),
        SqlValue::Integer(_) => Err(DatabaseError::ValidationError(String::from_str("expected a text column"))),
    }
}

/// The species held by a row of the store; a malformed row is a validation
/// error.
pub fn species_from_row(row: &Vec<SqlValue>) -> (r: Result<Species, DatabaseError>)
    ensures
        match r {
            Ok(s) => decoded_species(cells(row@)) == Some(s@),
            Err(e) => decoded_species(cells(row@)) is None && e is ValidationError,
        },
{
    if row.len() != 6 {
        return Err(wrong_width());
    }
    let id = column_uuid(row, 0)?;
    let genus_id = column_uuid(row, 1)?;
    let specific_epithet = column_text(row, 2)?;
    let authority = column_text(row, 3)?;
    let publication_year = column_year(row, 4)?;
    let conservation_status = column_status(row, 5)?;
    Ok(Species { id, genus_id, specific_epithet, authority, publication_year, conservation_status })
}

/// What the insert statement writes for a species reads back as that same
/// species, in every field, optional ones included.
pub proof fn lemma_species_round_trip(s: SpeciesView)
    ensures
        decoded_species(species_cells(s)) == Some(s),
        species_cells(s)[0] == key_cell(s.id),
{
    lemma_uuid_text_round_trip(s.id);
    lemma_uuid_text_round_trip(s.genus_id);
}

} // verus!
