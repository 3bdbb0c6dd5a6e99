//! The schema of the store: four tables, created only where absent, so that
//! running the migration again leaves an existing store untouched.

use crate::sql::Statement;
use vstd::prelude::*;

verus! {

pub const FAMILIES_TABLE_SQL: &'static str =
    "CREATE TABLE IF NOT EXISTS families (id TEXT PRIMARY KEY, name TEXT NOT NULL, authority TEXT)";

pub const GENERA_TABLE_SQL: &'static str =
    "CREATE TABLE IF NOT EXISTS genera (id TEXT PRIMARY KEY, family_id TEXT NOT NULL, name TEXT NOT NULL, authority TEXT, FOREIGN KEY (family_id) REFERENCES families(id))";

pub const SPECIES_TABLE_SQL: &'static str =
    "CREATE TABLE IF NOT EXISTS species (id TEXT PRIMARY KEY, genus_id TEXT NOT NULL, specific_epithet TEXT NOT NULL, authority TEXT, publication_year INTEGER, conservation_status TEXT, FOREIGN KEY (genus_id) REFERENCES genera(id))";

pub const SPECIMENS_TABLE_SQL: &'static str =
    "CREATE TABLE IF NOT EXISTS specimens (id TEXT PRIMARY KEY, species_id TEXT NOT NULL, collector TEXT, collection_date TEXT, location TEXT, notes TEXT, FOREIGN KEY (species_id) REFERENCES species(id))";

fn plain_statement(sql: &str) -> (r: Statement)
    ensures
        r.sql@ == sql@,
        r.params@.len() == 0,
        r.columns@.len() == 0,
{
    Statement { sql: String::from_str(sql), params: Vec::new(), columns: Vec::new() }
}

/// The statements that create the schema, parents before the tables that
/// refer to them: families, genera, species, specimens.
pub fn migration_statements() -> (r: Vec<Statement>)
    ensures
        r@.len() == 4,
        r@[0].sql@ == FAMILIES_TABLE_SQL@,
        r@[1].sql@ == GENERA_TABLE_SQL@,
        r@[2].sql@ == SPECIES_TABLE_SQL@,
        r@[3].sql@ == SPECIMENS_TABLE_SQL@,
        forall|i: int| 0 <= i < 4 ==> r@[i].params@.len() == 0 && r@[i].columns@.len() == 0,
{
    vec![
        plain_statement(FAMILIES_TABLE_SQL),
        plain_statement(GENERA_TABLE_SQL),
        plain_statement(SPECIES_TABLE_SQL),
        plain_statement(SPECIMENS_TABLE_SQL),
    ]
}

} // verus!
