use botanica::family::{
    delete_family_statement, families_by_name_statement, family_by_id_statement, family_from_row,
    insert_family_statement, update_family_statement,
};
use botanica::genus::{
    delete_genus_statement, genera_by_family_statement, genus_by_id_statement, genus_from_row,
    insert_genus_statement, update_genus_statement,
};
use botanica::schema::migration_statements;
use botanica::species::{
    delete_species_statement, insert_species_statement, species_by_id_statement, species_by_name_statement,
    species_from_row, update_species_statement,
};
use botanica::sql::rows_changed;
use botanica::{ColumnKind, DatabaseConfig, DatabaseError, Family, Genus, Species, SqlValue, Statement, Uuid};
use sqlx::sqlite::{SqlitePool, SqlitePoolOptions};
use sqlx::Row;

type Query<'q> = sqlx::query::Query<'q, sqlx::Sqlite, sqlx::sqlite::SqliteArguments<'q>>;

fn run<F: std::future::Future>(f: F) -> F::Output {
    tokio::runtime::Builder::new_multi_thread()
        .worker_threads(2)
        .enable_all()
        .build()
        .unwrap()
        .block_on(f)
}

fn bound(st: &Statement) -> Query<'_> {
    let mut q = sqlx::query(st.sql.as_str());
    for p in &st.params {
        q = match p {
            SqlValue::Null => q.bind(None::<String>),
            SqlValue::Integer(i) => q.bind(*i),
            SqlValue::Text(s) => q.bind(s.as_str()),
        };
    }
    q
}

async fn execute(pool: &SqlitePool, st: &Statement) -> Result<u64, DatabaseError> {
    let done = bound(st).execute(pool).await?;
    Ok(done.rows_affected())
}

async fn fetch(pool: &SqlitePool, st: &Statement) -> Result<Vec<Vec<SqlValue>>, DatabaseError> {
    let rows = bound(st).fetch_all(pool).await?;
    let mut out = Vec::new();
    for row in rows {
        let mut values = Vec::new();
        for (i, kind) in st.columns.iter().enumerate() {
            values.push(match kind {
                ColumnKind::Text => row.try_get::<Option<String>, _>(i)?.map_or(SqlValue::Null, SqlValue::Text),
                ColumnKind::Integer => row.try_get::<Option<i64>, _>(i)?.map_or(SqlValue::Null, SqlValue::Integer),
            });
        }
        out.push(values);
    }
    Ok(out)
}

async fn setup_test_database() -> SqlitePool {
    let config = DatabaseConfig::memory();
    let pool = SqlitePoolOptions::new()
        .max_connections(config.max_connections)
        .idle_timeout(None::<std::time::Duration>)
        .max_lifetime(None::<std::time::Duration>)
        .connect(&config.url)
        .await
        .expect("Failed to create test database");
    for st in config.connection_setup().iter().chain(migration_statements().iter()) {
        execute(&pool, st).await.expect("Failed to prepare test database");
    }
    pool
}

async fn insert_family(pool: &SqlitePool, f: &Family) -> Result<(), DatabaseError> {
    execute(pool, &insert_family_statement(f)).await.map(|_| ())
}

async fn get_family_by_id(pool: &SqlitePool, id: Uuid) -> Result<Option<Family>, DatabaseError> {
    fetch(pool, &family_by_id_statement(id)).await?.first().map(family_from_row).transpose()
}

async fn get_families_by_name(pool: &SqlitePool, name: &str) -> Result<Vec<Family>, DatabaseError> {
    fetch(pool, &families_by_name_statement(name)).await?.iter().map(family_from_row).collect()
}

async fn update_family(pool: &SqlitePool, id: Uuid, f: &Family) -> Result<bool, DatabaseError> {
    execute(pool, &update_family_statement(id, f)).await.map(rows_changed)
}

async fn delete_family(pool: &SqlitePool, id: Uuid) -> Result<bool, DatabaseError> {
    execute(pool, &delete_family_statement(id)).await.map(rows_changed)
}

async fn insert_genus(pool: &SqlitePool, g: &Genus) -> Result<(), DatabaseError> {
    execute(pool, &insert_genus_statement(g)).await.map(|_| ())
}

async fn get_genus_by_id(pool: &SqlitePool, id: Uuid) -> Result<Option<Genus>, DatabaseError> {
    fetch(pool, &genus_by_id_statement(id)).await?.first().map(genus_from_row).transpose()
}

async fn get_genera_by_family_id(pool: &SqlitePool, id: Uuid) -> Result<Vec<Genus>, DatabaseError> {
    fetch(pool, &genera_by_family_statement(id)).await?.iter().map(genus_from_row).collect()
}

async fn update_genus(pool: &SqlitePool, id: Uuid, g: &Genus) -> Result<bool, DatabaseError> {
    execute(pool, &update_genus_statement(id, g)).await.map(rows_changed)
}

async fn delete_genus(pool: &SqlitePool, id: Uuid) -> Result<bool, DatabaseError> {
    execute(pool, &delete_genus_statement(id)).await.map(rows_changed)
}

async fn insert_species(pool: &SqlitePool, s: &Species) -> Result<(), DatabaseError> {
    execute(pool, &insert_species_statement(s)).await.map(|_| ())
}

async fn get_species_by_id(pool: &SqlitePool, id: Uuid) -> Result<Option<Species>, DatabaseError> {
    fetch(pool, &species_by_id_statement(id)).await?.first().map(species_from_row).transpose()
}

async fn get_species_by_name(pool: &SqlitePool, name: &str) -> Result<Vec<Species>, DatabaseError> {
    fetch(pool, &species_by_name_statement(name)).await?.iter().map(species_from_row).collect()
}

async fn update_species(pool: &SqlitePool, id: Uuid, s: &Species) -> Result<bool, DatabaseError> {
    execute(pool, &update_species_statement(id, s)).await.map(rows_changed)
}

async fn delete_species(pool: &SqlitePool, id: Uuid) -> Result<bool, DatabaseError> {
    execute(pool, &delete_species_statement(id)).await.map(rows_changed)
}

fn create_test_family() -> Family {
    Family::new("Rosaceae".to_string(), "Jussieu".to_string())
}

fn create_test_genus(family_id: Uuid) -> Genus {
    Genus::new(family_id, "Rosa".to_string(), "Linnaeus".to_string())
}

fn create_test_species(genus_id: Uuid) -> Species {
    Species::new(genus_id, "rubiginosa".to_string(), "Linnaeus".to_string(), Some(1753), Some("LC".to_string()))
}

async fn setup_sample_taxonomy(pool: &SqlitePool) -> Result<(Family, Genus, Species), DatabaseError> {
    let family = create_test_family();
    let genus = create_test_genus(family.id);
    let species = create_test_species(genus.id);
    insert_family(pool, &family).await?;
    insert_genus(pool, &genus).await?;
    insert_species(pool, &species).await?;
    Ok((family, genus, species))
}

#[test]
fn test_insert_family() {
    run(async {
        let db = setup_test_database().await;
        let family = Family::new("Cannabaceae".to_string(), "Martius".to_string());
        let result = insert_family(&db, &family).await;
        assert!(result.is_ok(), "Failed to insert family: {:?}", result.err());
    })
}

#[test]
fn test_get_family_by_id_existing() {
    run(async {
        let db = setup_test_database().await;
        let family = create_test_family();
        insert_family(&db, &family).await.expect("Failed to insert family");
        let found = get_family_by_id(&db, family.id).await.expect("Failed to get family by id");
        assert_eq!(found, Some(family), "Family should be found");
    })
}

#[test]
fn test_get_family_by_id_nonexistent() {
    run(async {
        let db = setup_test_database().await;
        let result = get_family_by_id(&db, Uuid::new_v4()).await;
        assert!(result.is_ok(), "Query should succeed even for nonexistent id");
        assert!(result.unwrap().is_none(), "No family should be found for nonexistent id");
    })
}

#[test]
fn test_get_families_by_name_exact_match() {
    run(async {
        let db = setup_test_database().await;
        let family = create_test_family();
        insert_family(&db, &family).await.expect("Failed to insert family");
        let found = get_families_by_name(&db, "Rosaceae").await.expect("Failed to get families by name");
        assert_eq!(found.len(), 1, "Should find exactly one family");
        assert_eq!(found[0], family);
    })
}

#[test]
fn test_get_families_by_name_partial_match() {
    run(async {
        let db = setup_test_database().await;
        let family1 = Family::new("Rosaceae".to_string(), "Jussieu".to_string());
        let family2 = Family::new("Brassicaceae".to_string(), "Burnett".to_string());
        let family3 = Family::new("Poaceae".to_string(), "Barnhart".to_string());
        insert_family(&db, &family1).await.expect("Failed to insert family1");
        insert_family(&db, &family2).await.expect("Failed to insert family2");
        insert_family(&db, &family3).await.expect("Failed to insert family3");
        let found = get_families_by_name(&db, "aceae").await.expect("Failed to get families by partial name");
        assert_eq!(found.len(), 3, "Should find all three families");
        assert_eq!(found[0].name, "Brassicaceae");
        assert_eq!(found[1].name, "Poaceae");
        assert_eq!(found[2].name, "Rosaceae");
    })
}

#[test]
fn test_get_families_by_name_case_sensitivity() {
    run(async {
        let db = setup_test_database().await;
        insert_family(&db, &create_test_family()).await.expect("Failed to insert family");
        let found = get_families_by_name(&db, "rosaceae").await.expect("Failed to get families by lowercase name");
        assert_eq!(found.len(), 1, "Should find family with case-insensitive search");
    })
}

#[test]
fn test_get_families_by_name_no_match() {
    run(async {
        let db = setup_test_database().await;
        insert_family(&db, &create_test_family()).await.expect("Failed to insert family");
        let found = get_families_by_name(&db, "nonexistent").await.expect("Query should succeed even for nonexistent name");
        assert!(found.is_empty(), "No families should be found for nonexistent name");
    })
}

#[test]
fn test_update_family_existing() {
    run(async {
        let db = setup_test_database().await;
        let family = create_test_family();
        insert_family(&db, &family).await.expect("Failed to insert family");
        let updated = Family::with_id(family.id, "Updated_Rosaceae".to_string(), "Updated Authority".to_string());
        let changed = update_family(&db, family.id, &updated).await.expect("Failed to update family");
        assert!(changed, "Update should return true for existing family");
        let found = get_family_by_id(&db, family.id).await.expect("Failed to retrieve updated family").expect("Updated family should exist");
        assert_eq!(found.name, "Updated_Rosaceae");
        assert_eq!(found.authority, "Updated Authority");
    })
}

#[test]
fn test_update_family_nonexistent() {
    run(async {
        let db = setup_test_database().await;
        let kept = create_test_family();
        insert_family(&db, &kept).await.expect("Failed to insert family");
        let family = create_test_family();
        let changed = update_family(&db, family.id, &family).await.expect("Update query should succeed even for nonexistent id");
        assert!(!changed, "Update should return false for nonexistent family");
        assert!(get_family_by_id(&db, family.id).await.unwrap().is_none());
        assert_eq!(get_families_by_name(&db, "").await.unwrap(), vec![kept]);
    })
}

#[test]
fn test_delete_family_existing() {
    run(async {
        let db = setup_test_database().await;
        let family = create_test_family();
        insert_family(&db, &family).await.expect("Failed to insert family");
        let deleted = delete_family(&db, family.id).await.expect("Failed to delete family");
        assert!(deleted, "Delete should return true for existing family");
        let found = get_family_by_id(&db, family.id).await.expect("Query should succeed after deletion");
        assert!(found.is_none(), "Deleted family should not be found");
    })
}

#[test]
fn test_delete_family_nonexistent() {
    run(async {
        let db = setup_test_database().await;
        let deleted = delete_family(&db, Uuid::new_v4()).await.expect("Delete query should succeed even for nonexistent id");
        assert!(!deleted, "Delete should return false for nonexistent family");
    })
}

#[test]
fn test_family_data_integrity() {
    run(async {
        let db = setup_test_database().await;
        let empty_name = Family::new(String::new(), "Test".to_string());
        assert!(insert_family(&db, &empty_name).await.is_ok(), "Insert should succeed with empty name");
        let empty_authority = Family::new("TestFamily".to_string(), String::new());
        assert!(insert_family(&db, &empty_authority).await.is_ok(), "Insert should succeed with empty authority");
        let empty_both = Family::new(String::new(), String::new());
        assert!(insert_family(&db, &empty_both).await.is_ok(), "Insert should succeed with both fields empty");
        assert_eq!(get_family_by_id(&db, empty_both.id).await.unwrap(), Some(empty_both));
    })
}

#[test]
fn test_multiple_families_same_name() {
    run(async {
        let db = setup_test_database().await;
        let family1 = Family::new("SameName".to_string(), "Authority1".to_string());
        let family2 = Family::new("SameName".to_string(), "Authority2".to_string());
        insert_family(&db, &family1).await.expect("Failed to insert family1");
        insert_family(&db, &family2).await.expect("Failed to insert family2");
        let found = get_families_by_name(&db, "SameName").await.expect("Failed to search for families");
        assert_eq!(found.len(), 2, "Should find both families with same name");
        let r1 = get_family_by_id(&db, family1.id).await.expect("Failed to retrieve family1").expect("Family1 should exist");
        let r2 = get_family_by_id(&db, family2.id).await.expect("Failed to retrieve family2").expect("Family2 should exist");
        assert_eq!(r1.authority, "Authority1");
        assert_eq!(r2.authority, "Authority2");
    })
}

#[test]
fn test_family_unicode_names() {
    run(async {
        let db = setup_test_database().await;
        let family = Family::new("试验科".to_string(), "Tëst Authör".to_string());
        insert_family(&db, &family).await.expect("Failed to insert Unicode family");
        let found = get_family_by_id(&db, family.id).await.expect("Failed to retrieve Unicode family").expect("Unicode family should exist");
        assert_eq!(found.name, "试验科");
        assert_eq!(found.authority, "Tëst Authör");
    })
}

#[test]
fn test_family_long_names() {
    run(async {
        let db = setup_test_database().await;
        let family = Family::new("A".repeat(1000), "B".repeat(1000));
        insert_family(&db, &family).await.expect("Failed to insert family with long names");
        let found = get_family_by_id(&db, family.id).await.expect("Failed to retrieve long name family").expect("Long name family should exist");
        assert_eq!(found.name.len(), 1000);
        assert_eq!(found.authority.len(), 1000);
        assert_eq!(found, family);
    })
}

#[test]
fn test_insert_genus() {
    run(async {
        let db = setup_test_database().await;
        let family = Family::new("Poaceae".to_string(), "Barnhart".to_string());
        insert_family(&db, &family).await.expect("Failed to insert family");
        let genus = Genus::new(family.id, "Triticum".to_string(), "Linnaeus".to_string());
        let result = insert_genus(&db, &genus).await;
        assert!(result.is_ok(), "Failed to insert genus: {:?}", result.err());
    })
}

#[test]
fn test_get_genus_by_id_existing() {
    run(async {
        let db = setup_test_database().await;
        let (_, genus, _) = setup_sample_taxonomy(&db).await.expect("Failed to setup taxonomy");
        let found = get_genus_by_id(&db, genus.id).await.expect("Failed to get genus by id");
        assert_eq!(found, Some(genus), "Genus should be found");
    })
}

#[test]
fn test_get_genera_by_family_id() {
    run(async {
        let db = setup_test_database().await;
        let family = Family::new("Rosaceae".to_string(), "Jussieu".to_string());
        insert_family(&db, &family).await.expect("Failed to insert family");
        let g1 = Genus::new(family.id, "Rosa".to_string(), "Linnaeus".to_string());
        let g2 = Genus::new(family.id, "Prunus".to_string(), "Linnaeus".to_string());
        let g3 = Genus::new(family.id, "Malus".to_string(), "Miller".to_string());
        insert_genus(&db, &g1).await.expect("Failed to insert genus1");
        insert_genus(&db, &g2).await.expect("Failed to insert genus2");
        insert_genus(&db, &g3).await.expect("Failed to insert genus3");
        let found = get_genera_by_family_id(&db, family.id).await.expect("Failed to get genera by family id");
        assert_eq!(found.len(), 3, "Should find exactly 3 genera");
        assert_eq!(found[0].name, "Malus");
        assert_eq!(found[1].name, "Prunus");
        assert_eq!(found[2].name, "Rosa");
    })
}

#[test]
fn test_get_genera_by_family_id_nonexistent_family() {
    run(async {
        let db = setup_test_database().await;
        let found = get_genera_by_family_id(&db, Uuid::new_v4()).await.expect("Query should succeed even for nonexistent family id");
        assert!(found.is_empty(), "Should find no genera for nonexistent family");
    })
}

#[test]
fn test_update_genus_change_family() {
    run(async {
        let db = setup_test_database().await;
        let (_, genus, _) = setup_sample_taxonomy(&db).await.expect("Failed to setup taxonomy");
        let family2 = Family::new("Poaceae".to_string(), "Barnhart".to_string());
        insert_family(&db, &family2).await.expect("Failed to insert second family");
        let moved = Genus::with_id(genus.id, family2.id, genus.name.clone(), genus.authority.clone());
        let changed = update_genus(&db, genus.id, &moved).await.expect("Failed to update genus family");
        assert!(changed, "Update should return true");
        let found = get_genus_by_id(&db, genus.id).await.expect("Failed to retrieve updated genus").expect("Updated genus should exist");
        assert_eq!(found.family_id, family2.id);
    })
}

#[test]
fn test_genus_foreign_key_constraint() {
    run(async {
        let db = setup_test_database().await;
        let genus = Genus::new(Uuid::new_v4(), "InvalidGenus".to_string(), "Test".to_string());
        let result = insert_genus(&db, &genus).await;
        assert!(result.is_err(), "Insert should fail due to foreign key constraint");
        assert!(matches!(result, Err(DatabaseError::ConstraintViolation(_))));
        assert!(get_genus_by_id(&db, genus.id).await.unwrap().is_none());
    })
}

#[test]
fn test_foreign_key_constraint_species_to_genus() {
    run(async {
        let db = setup_test_database().await;
        let species = Species::new(Uuid::new_v4(), "invalid".to_string(), "Test".to_string(), None, None);
        let result = insert_species(&db, &species).await;
        assert!(result.is_err(), "Insert should fail due to foreign key constraint");
        assert!(matches!(result, Err(DatabaseError::ConstraintViolation(_))));
    })
}

#[test]
fn test_delete_family_with_dependent_genera() {
    run(async {
        let db = setup_test_database().await;
        let (family, _, _) = setup_sample_taxonomy(&db).await.expect("Failed to setup taxonomy");
        let result = delete_family(&db, family.id).await;
        assert!(matches!(result, Err(DatabaseError::ConstraintViolation(_))));
        assert_eq!(get_family_by_id(&db, family.id).await.expect("Query should succeed"), Some(family));
    })
}

#[test]
fn test_delete_genus_with_dependent_species() {
    run(async {
        let db = setup_test_database().await;
        let (_, genus, _) = setup_sample_taxonomy(&db).await.expect("Failed to setup taxonomy");
        let result = delete_genus(&db, genus.id).await;
        assert!(matches!(result, Err(DatabaseError::ConstraintViolation(_))));
    })
}

#[test]
fn test_proper_deletion_order() {
    run(async {
        let db = setup_test_database().await;
        let (family, genus, species) = setup_sample_taxonomy(&db).await.expect("Failed to setup taxonomy");
        assert!(delete_species(&db, species.id).await.expect("Failed to delete species"));
        assert!(delete_genus(&db, genus.id).await.expect("Failed to delete genus"));
        assert!(delete_family(&db, family.id).await.expect("Failed to delete family"));
        assert!(get_species_by_id(&db, species.id).await.unwrap().is_none());
        assert!(get_genus_by_id(&db, genus.id).await.unwrap().is_none());
        assert!(get_family_by_id(&db, family.id).await.unwrap().is_none());
    })
}

#[test]
fn test_complete_taxonomic_hierarchy() {
    run(async {
        let db = setup_test_database().await;
        let family = Family::new("Rosaceae".to_string(), "Jussieu".to_string());
        let genus = Genus::new(family.id, "Rosa".to_string(), "Linnaeus".to_string());
        let species = Species::new(genus.id, "gallica".to_string(), "Linnaeus".to_string(), Some(1753), None);
        insert_family(&db, &family).await.expect("Failed to insert family");
        insert_genus(&db, &genus).await.expect("Failed to insert genus");
        insert_species(&db, &species).await.expect("Failed to insert species");
        assert_eq!(get_family_by_id(&db, family.id).await.expect("Failed to get family"), Some(family));
        assert_eq!(get_genus_by_id(&db, genus.id).await.expect("Failed to get genus"), Some(genus));
        assert_eq!(get_species_by_id(&db, species.id).await.expect("Failed to get species"), Some(species));
    })
}

#[test]
fn test_species_with_optional_fields() {
    run(async {
        let db = setup_test_database().await;
        let (_, genus, _) = setup_sample_taxonomy(&db).await.expect("Failed to setup taxonomy");
        let species = Species::new(genus.id, "minimalis".to_string(), "Tester".to_string(), None, None);
        insert_species(&db, &species).await.expect("Failed to insert minimal species");
        let found = get_species_by_id(&db, species.id).await.expect("Failed to retrieve minimal species").expect("Minimal species should exist");
        assert_eq!(found.publication_year, None);
        assert_eq!(found.conservation_status, None);
    })
}

#[test]
fn test_species_with_negative_publication_year() {
    run(async {
        let db = setup_test_database().await;
        let (_, genus, _) = setup_sample_taxonomy(&db).await.expect("Failed to setup taxonomy");
        let species = Species::new(genus.id, "ancientus".to_string(), "Fossil".to_string(), Some(-1000), Some("EX".to_string()));
        insert_species(&db, &species).await.expect("Failed to insert ancient species");
        let found = get_species_by_id(&db, species.id).await.expect("Failed to retrieve ancient species").expect("Ancient species should exist");
        assert_eq!(found.publication_year, Some(-1000));
    })
}

#[test]
fn test_get_species_by_name_partial_match() {
    run(async {
        let db = setup_test_database().await;
        let (_, genus, _) = setup_sample_taxonomy(&db).await.expect("Failed to setup taxonomy");
        let s1 = Species::new(genus.id, "gallica".to_string(), "Linnaeus".to_string(), Some(1753), Some("LC".to_string()));
        let s2 = Species::new(genus.id, "canina".to_string(), "Linnaeus".to_string(), Some(1753), Some("LC".to_string()));
        insert_species(&db, &s1).await.expect("Failed to insert species1");
        insert_species(&db, &s2).await.expect("Failed to insert species2");
        let found = get_species_by_name(&db, "a").await.expect("Failed to get species by partial name");
        assert!(found.len() >= 2, "Should find multiple species with 'a' in name: {:?}", found.len());
        let names: Vec<&str> = found.iter().map(|s| s.get_specific_epithet()).collect();
        assert_eq!(names, vec!["canina", "gallica", "rubiginosa"]);
    })
}

#[test]
fn test_update_species_existing() {
    run(async {
        let db = setup_test_database().await;
        let (_, _, species) = setup_sample_taxonomy(&db).await.expect("Failed to setup taxonomy");
        let mut changed = species.clone();
        changed.publication_year = Some(1754);
        changed.set_conservation_status(None);
        assert!(update_species(&db, species.id, &changed).await.expect("Failed to update species"));
        let found = get_species_by_id(&db, species.id).await.expect("Failed to retrieve updated species").expect("Updated species should exist");
        assert_eq!(found, changed);
    })
}

#[test]
fn test_transaction_rollback_scenario() {
    run(async {
        let db = setup_test_database().await;
        let family = Family::new("TestFamily".to_string(), "Test".to_string());
        insert_family(&db, &family).await.expect("Failed to insert family");
        let genus = Genus::new(family.id, "TestGenus".to_string(), "Test".to_string());
        insert_genus(&db, &genus).await.expect("Failed to insert genus");
        let species = Species::new(Uuid::new_v4(), "invalid".to_string(), "Test".to_string(), None, None);
        assert!(insert_species(&db, &species).await.is_err(), "Invalid species insert should fail");
        assert!(get_family_by_id(&db, family.id).await.expect("Family query should succeed").is_some(), "Family should still exist after failed species insert");
        assert!(get_genus_by_id(&db, genus.id).await.expect("Genus query should succeed").is_some(), "Genus should still exist after failed species insert");
    })
}

#[test]
fn concurrent_inserts_are_all_retrievable() {
    run(async {
        let db = setup_test_database().await;
        let families: Vec<Family> = (0..8).map(|i| Family::new(format!("Family{}", i), "A".to_string())).collect();
        let mut tasks = Vec::new();
        for f in families.clone() {
            let pool = db.clone();
            tasks.push(tokio::spawn(async move { insert_family(&pool, &f).await }));
        }
        for t in tasks {
            assert!(t.await.expect("Task panicked").is_ok());
        }
        for f in families {
            assert_eq!(get_family_by_id(&db, f.id).await.unwrap(), Some(f));
        }
    })
}

#[test]
fn wildcards_in_a_name_match_literally() {
    run(async {
        let db = setup_test_database().await;
        let plain = Family::new("Rosaceae".to_string(), "Jussieu".to_string());
        let odd = Family::new("50%_off\\".to_string(), "X".to_string());
        insert_family(&db, &plain).await.unwrap();
        insert_family(&db, &odd).await.unwrap();
        assert_eq!(get_families_by_name(&db, "%").await.unwrap(), vec![odd.clone()]);
        assert_eq!(get_families_by_name(&db, "_").await.unwrap(), vec![odd.clone()]);
        assert_eq!(get_families_by_name(&db, "\\").await.unwrap(), vec![odd.clone()]);
        assert_eq!(get_families_by_name(&db, "ROSA").await.unwrap(), vec![plain]);
    })
}
