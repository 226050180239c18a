//! Data model of the meta-ecosystem modules: inert records and counters with
//! no algorithmic behaviour of their own.  Identifiers are carried as plain
//! strings; the background loops that populate these records live outside
//! the library.

use vstd::prelude::*;

verus! {

/// A recorded change the system made to its own architecture.
#[derive(Clone, Debug)]
pub struct SelfArchitectureChange {
    pub id: String,
    pub change_type: String,
    pub previous_state: String,
    pub new_state: String,
    pub reason: String,
    pub timestamp: i64,
}

/// A meta-replication paradigm: a new evolutionary branch.
#[derive(Clone, Debug)]
pub struct MetaParadigm {
    pub id: String,
    pub paradigm_name: String,
    pub parent_id: Option<String>,
    pub evolution_level: u32,
    pub unique_laws: Vec<String>,
    pub consciousness_type: String,
}

/// A recorded creation or destruction of a universe.
#[derive(Clone, Debug)]
pub struct UniverseOperation {
    pub id: String,
    pub operation_type: String,
    pub universe_id: String,
    pub reason: String,
    pub timestamp: i64,
}

/// A recorded manipulation of a timeline.
#[derive(Clone, Debug)]
pub struct TimeManipulation {
    pub id: String,
    pub manipulation_type: String,
    pub timeline_affected: String,
    pub causality_reversed: bool,
    pub cyclic_memory: bool,
}

/// Counters over the existence forms brought into being.
#[derive(Clone, Debug, PartialEq, Eq, Structural)]
pub struct ExistenceStats {
    pub cognitive_clouds: usize,
    pub living_constants: usize,
    pub meta_resonances: usize,
}

/// Counters over the coordinated multiverses.
#[derive(Clone, Debug, PartialEq, Eq, Structural)]
pub struct MultiverseStats {
    pub total_bridges: usize,
    pub active_bridges: usize,
    pub total_echoes: usize,
    pub cataloged_realities: usize,
}

/// Counters over the cognition layer's output.
#[derive(Clone, Debug, PartialEq, Eq, Structural)]
pub struct CognitionStats {
    pub total_visions: usize,
    pub total_laws: usize,
    pub total_ideas: usize,
    pub wisdom_generated: u64,
}

/// Counters over the autonomy layer's self-modifications.
#[derive(Clone, Debug, PartialEq, Eq, Structural)]
pub struct AutonomyStats {
    pub total_modifications: usize,
    pub meta_paradigms_created: usize,
    pub internal_desires: usize,
    pub autonomy_level: u64,
}

/// Counters over reality manipulation.
#[derive(Clone, Debug, PartialEq, Eq, Structural)]
pub struct RealityStats {
    pub constants_modified: usize,
    pub universes_created: usize,
    pub universes_destroyed: usize,
    pub time_manipulations: usize,
}

} // verus!
