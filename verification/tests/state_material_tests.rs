use forge_runtime::hashing::compute_content_hash;
use forge_runtime::json::JsonValue;
use forge_runtime::state::{compute_hash, state_hash_material, AgentState};
use forge_runtime::types::{ExecutionMode, FileRecord, ValidationReport};

fn to_serde(v: &JsonValue) -> serde_json::Value {
    match v {
        JsonValue::Null => serde_json::Value::Null,
        JsonValue::Bool(b) => serde_json::Value::Bool(*b),
        JsonValue::Uint(n) => serde_json::Value::from(*n),
        JsonValue::OtherNumber(s) => serde_json::Value::String(s.clone()),
        JsonValue::Str(s) => serde_json::Value::String(s.clone()),
        JsonValue::Array(items) => serde_json::Value::Array(items.iter().map(to_serde).collect()),
        JsonValue::Object(fields) => {
            let mut map = serde_json::Map::new();
            for (k, x) in fields {
                map.insert(k.clone(), to_serde(x));
            }
            serde_json::Value::Object(map)
        }
    }
}

fn sample_state() -> AgentState {
    let mut st = AgentState::new(7, "fix \"it\"\n\ttab \u{1}ctl é".to_string(), ExecutionMode::Edit);
    st.record_file_written("src/b.rs".to_string());
    st.record_file_written("src/a.rs".to_string());
    st.record_file_read(FileRecord {
        path: "src/a.rs".to_string(),
        content_hash: compute_content_hash("fn a() {}\n"),
        size_bytes: 10,
        total_lines: 1,
        lines_read: Some((1, 1)),
        is_full_read: false,
        read_at_iteration: 0,
        content: Some("fn a() {}".to_string()),
    });
    st.capture_snapshot("src/a.rs", "fn a() {}\n");
    st.pending_validations.push("src/a.rs".to_string());
    st
}

#[test]
fn hash_material_is_the_compact_json_of_the_hashed_fields() {
    let mut st = sample_state();
    let expected = serde_json::to_string(&to_serde(&st.material_value())).unwrap();
    assert_eq!(state_hash_material(&st), expected);
    assert!(expected.starts_with("{\"cardinality_violations\":0,\"change_history\":[],"));
    assert!(expected.contains("\"task\":\"fix \\\"it\\\"\\n\\ttab \\u0001ctl é\""));
    assert_eq!(compute_hash(&st), compute_content_hash(&expected));
    st.mark_validated(ValidationReport::accept("ok")).unwrap();
    let expected = serde_json::to_string(&to_serde(&st.material_value())).unwrap();
    assert_eq!(state_hash_material(&st), expected);
}

#[test]
fn state_file_holds_the_hashed_fields_and_the_hash() {
    let st = sample_state();
    let full = to_serde(&st.to_json_value());
    let material = to_serde(&st.material_value());
    let mut without_hash = full.as_object().unwrap().clone();
    assert_eq!(without_hash.remove("state_hash"), Some(serde_json::Value::String(st.state_hash.clone())));
    assert_eq!(serde_json::Value::Object(without_hash), material);
}
