pub mod collections;
pub mod hashing;
pub mod json;
pub mod patterns;
pub mod planner_attack_fixtures;
pub mod planner_envelope;
pub mod progress_policy;
pub mod protocol_validator;
pub mod runtime_gates;
pub mod runtime_log;
pub mod runtime_policies;
pub mod runtime_step;
pub mod rust_recovery;
pub mod state;
pub mod state_material;
pub mod state_json;
pub mod system_invariants;
pub mod task_intake;
pub mod text;
pub mod tool_registry;
pub mod tools;
pub mod types;
