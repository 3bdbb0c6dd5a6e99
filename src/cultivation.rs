//! Cultivation records: the growth of a plant of some species over time.

use crate::ids::{is_random_v4, Uuid};
use vstd::prelude::*;

verus! {

/// The stage of growth that a cultivation record reports.
#[derive(Debug, Clone, Copy, PartialEq, Eq, Structural)]
pub enum GrowthStage {
    Seed,
    Germination,
    Seedling,
    Vegetative,
    Flowering,
    Harvest,
    Drying,
    Curing,
}

/// A moment in time, as microseconds since the Unix epoch (UTC).
#[derive(Debug, Clone, Copy, PartialEq, Eq, Structural)]
pub struct Timestamp {
    pub micros: i64,
}

/// Relies on chrono::Utc::now and DateTime::timestamp_micros for the current
/// time; `Utc::now` fails on a clock set before the Unix epoch, so what it
/// returns is never negative.
#[verifier::external_body]
fn now_micros() -> (r: i64)
    ensures
        r >= 0,
{
    chrono::Utc::now().timestamp_micros()
}

impl Timestamp {
    /// The current time.
    pub fn now() -> (r: Timestamp)
        ensures
            r.micros >= 0,
    {
        Timestamp { micros: now_micros() }
    }
}

/// A record of a plant's growth at one moment.
#[derive(Debug, Clone, PartialEq)]
pub struct CultivationRecord {
    pub id: Uuid,
    pub species_id: Uuid,
    pub growth_stage: GrowthStage,
    /// The environment reading taken with the record, if any.
    pub environment_id: Option<Uuid>,
    pub notes: Option<String>,
    /// Photo references, in the order they were taken.
    pub photos: Vec<String>,
    pub recorded_at: Timestamp,
    pub cultivator: String,
}

impl CultivationRecord {
    /// A record made now, with a fresh identifier, no environment, no notes and
    /// no photos.
    pub fn new(species_id: Uuid, growth_stage: GrowthStage, cultivator: String) -> (r: CultivationRecord)
        ensures
            is_random_v4(r.id.value),
            r.id.value != 0,
            r.species_id == species_id,
            r.growth_stage == growth_stage,
            r.environment_id is None,
            r.notes is None,
            r.photos@.len() == 0,
            r.cultivator == cultivator,
    {
        CultivationRecord {
            id: Uuid::new_v4(),
            species_id,
            growth_stage,
            environment_id: None,
            notes: None,
            photos: Vec::new(),
            recorded_at: Timestamp::now(),
            cultivator,
        }
    }
}

} // verus!
