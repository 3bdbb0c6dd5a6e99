//! Botanical taxonomy records (family, genus, species) and cultivation records,
//! with the statements that persist them in a relational store and the
//! decoding of what the store hands back.

pub mod config;
pub mod context;
pub mod cultivation;
pub mod error;
pub mod family;
pub mod genus;
pub mod ids;
pub mod schema;
pub mod species;
pub mod sql;

pub use config::DatabaseConfig;
pub use context::{extract_recommendations, BotanicalContext};
pub use cultivation::{CultivationRecord, GrowthStage, Timestamp};
pub use error::{DatabaseError, StoreFailure};
pub use family::Family;
pub use genus::Genus;
pub use ids::Uuid;
pub use species::Species;
pub use sql::{ColumnKind, SqlValue, Statement};
