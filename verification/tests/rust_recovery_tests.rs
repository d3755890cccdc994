use forge_runtime::rust_recovery::{
    append_rust_module_declaration, backtick_segments, deterministic_prefix_refactor,
    extract_prefix_format_literals, make_rust_type_public, make_struct_and_named_fields_public,
    rust_identifier_is_safe, rust_keywords, rust_module_declared,
    rust_named_field_line_needs_pub, rust_private_symbol_from_evidence,
    module_exposure_update, public_api_update, rust_evidence_source_path,
};

#[test]
fn identifiers_must_start_with_letter_or_underscore() {
    assert!(rust_identifier_is_safe("math"));
    assert!(rust_identifier_is_safe("_private2"));
    assert!(!rust_identifier_is_safe(""));
    assert!(!rust_identifier_is_safe("2fast"));
    assert!(!rust_identifier_is_safe("has-dash"));
    assert!(!rust_identifier_is_safe("a::b"));
}

#[test]
fn keyword_list_holds_fourteen_words() {
    let kws = rust_keywords();
    assert_eq!(kws.len(), 14);
    assert!(kws.contains(&"struct"));
    assert!(kws.contains(&"where"));
}

#[test]
fn backtick_segments_pair_up_quotes() {
    assert_eq!(
        backtick_segments("type `Setting` is more private than the item `parse_setting`"),
        vec!["Setting".to_string(), "parse_setting".to_string()]
    );
    assert_eq!(backtick_segments("one `open only"), Vec::<String>::new());
    assert_eq!(backtick_segments("``"), vec![String::new()]);
}

#[test]
fn private_symbol_skips_keywords_and_paths() {
    assert_eq!(
        rust_private_symbol_from_evidence(
            "warning: type `Setting` is more private than the item `parse_setting`\n  --> src/lib.rs:6:1"
        ),
        Some("Setting".to_string())
    );
    assert_eq!(
        rust_private_symbol_from_evidence("expected `struct`, found `a::B` in `Widget`"),
        Some("Widget".to_string())
    );
    assert_eq!(
        rust_private_symbol_from_evidence("error: could not compile crate"),
        None
    );
}

#[test]
fn module_declaration_forms_are_recognised() {
    let content = "pub fn existing() {}\n  pub mod math;  \n";
    assert!(rust_module_declared(content, "math"));
    assert!(rust_module_declared("mod util;\n", "util"));
    assert!(rust_module_declared("pub(crate) mod inner;", "inner"));
    assert!(!rust_module_declared("pub mod mathematics;\n", "math"));
    assert!(!rust_module_declared("// mod math;\n", "math"));
}

#[test]
fn appended_declaration_follows_a_blank_line() {
    let updated = append_rust_module_declaration(
        "pub fn existing() -> &'static str {\n    \"ok\"\n}\n",
        "math",
    );
    assert_eq!(
        updated,
        "pub fn existing() -> &'static str {\n    \"ok\"\n}\n\npub mod math;\n"
    );
    assert!(rust_module_declared(&updated, "math"));
    assert_eq!(append_rust_module_declaration("  \n", "bar"), "pub mod bar;\n");
}

#[test]
fn field_lines_needing_pub() {
    assert!(rust_named_field_line_needs_pub("key: String,"));
    assert!(!rust_named_field_line_needs_pub("pub key: String,"));
    assert!(!rust_named_field_line_needs_pub("fn main() {"));
    assert!(!rust_named_field_line_needs_pub("}"));
    assert!(rust_named_field_line_needs_pub("value : u32"));
}

#[test]
fn private_struct_and_fields_become_public() {
    let content = "struct Setting {\n    key: String,\n    value: String,\n}\n\npub fn parse_setting(input: &str) -> Setting {\n    Setting { key: input.to_string(), value: String::new() }\n}\n";
    let updated = make_rust_type_public(content, "Setting").expect("made public");
    assert!(updated.contains("pub struct Setting"));
    assert!(updated.contains("pub key: String"));
    assert!(updated.contains("pub value: String"));
    assert_eq!(
        updated,
        "pub struct Setting {\n    pub key: String,\n    pub value: String,\n}\n\npub fn parse_setting(input: &str) -> Setting {\n    Setting { key: input.to_string(), value: String::new() }\n}\n"
    );
}

#[test]
fn nested_braces_keep_inner_fields_private() {
    let content = "struct Outer {\n    inner: Inner,\n}\nstruct Inner { x: u8 }";
    assert_eq!(
        make_struct_and_named_fields_public(content, "Outer"),
        "pub struct Outer {\n    pub inner: Inner,\n}\nstruct Inner { x: u8 }"
    );
}

#[test]
fn enums_and_traits_become_public_once() {
    let updated = make_rust_type_public("enum Mode { A, B }\n", "Mode").expect("enum");
    assert_eq!(updated, "pub enum Mode { A, B }\n");
    assert_eq!(make_rust_type_public(&updated, "Mode"), None);
    let traited = make_rust_type_public("trait Shape {}\n", "Shape").expect("trait");
    assert_eq!(traited, "pub trait Shape {}\n");
    assert_eq!(make_rust_type_public("fn main() {}\n", "Missing"), None);
    assert_eq!(make_rust_type_public("pub struct Done;\n", "Done"), None);
}

#[test]
fn prefix_literals_are_collected_once_each() {
    let content = "pub fn a(name: &str) -> String {\n    format!(\"user:{}\", name)\n}\npub fn b(name: &str) -> String {\n    format!(\"team:{}\", name)\n}\npub fn c(name: &str) -> String {\n    format!(\"user:{}\", name)\n}\npub fn d(name: &str) -> String {\n    format!(\"bad prefix:{}\", name)\n}\n";
    assert_eq!(
        extract_prefix_format_literals(content),
        vec!["user".to_string(), "team".to_string()]
    );
    assert_eq!(extract_prefix_format_literals("no calls"), Vec::<String>::new());
}

#[test]
fn prefix_refactor_introduces_shared_helper() {
    let original = "pub fn label_user(name: &str) -> String {\n    format!(\"user:{}\", name)\n}\n\npub fn label_team(name: &str) -> String {\n    format!(\"team:{}\", name)\n}\n";
    let updated = deterministic_prefix_refactor(original).expect("refactored");
    assert!(updated.contains("fn format_with_prefix"));
    assert!(updated.contains("format_with_prefix(\"user\", name)"));
    assert!(updated.contains("format_with_prefix(\"team\", name)"));
    assert!(updated.starts_with("fn format_with_prefix(prefix: &str, name: &str) -> String {\n"));
    assert_eq!(deterministic_prefix_refactor(&updated), None);
}

#[test]
fn prefix_refactor_needs_two_prefixes() {
    let single = "pub fn label(name: &str) -> String {\n    format!(\"user:{}\", name)\n}\n";
    assert_eq!(deterministic_prefix_refactor(single), None);
}

#[test]
fn evidence_path_is_read_from_the_arrow_line() {
    assert_eq!(
        rust_evidence_source_path(
            "warning: type `Setting` is more private than the item `parse_setting`\n  --> src/lib.rs:6:1"
        ),
        Some("src/lib.rs".to_string())
    );
    assert_eq!(
        rust_evidence_source_path("--> Cargo.toml:1:1\n --> /abs/src/main.rs:2:5\n"),
        Some("/abs/src/main.rs".to_string())
    );
    assert_eq!(rust_evidence_source_path("error: could not compile crate"), None);
}

#[test]
fn pending_root_module_gets_exposed() {
    let lib = "pub fn existing() -> &'static str {\n    \"ok\"\n}\n";
    let updated = module_exposure_update(
        "error[E0432]: unresolved import `companion_root::math`",
        "math",
        lib,
    )
    .expect("exposure edit");
    assert!(updated.contains("pub mod math;"));
    assert_eq!(
        module_exposure_update("error[E0432]: unresolved import `companion_root::math`", "math", &updated),
        None
    );
    assert_eq!(
        module_exposure_update("error[E0432]: unresolved import `x::other`", "math", lib),
        None
    );
    assert_eq!(module_exposure_update("unresolved import `a::mod`", "mod-x", lib), None);
}

#[test]
fn nested_parent_module_gets_child_declaration() {
    let foo = "pub fn foo() -> &'static str {\n    \"foo\"\n}\n";
    let updated = module_exposure_update(
        "error[E0432]: unresolved import `companion_nested::foo::bar`",
        "bar",
        foo,
    )
    .expect("exposure edit");
    assert!(updated.contains("pub mod bar;"));
}

#[test]
fn private_api_type_is_made_public_from_evidence() {
    let lib = "struct Setting {\n    key: String,\n    value: String,\n}\n\npub fn parse_setting(input: &str) -> Setting {\n    Setting { key: input.to_string(), value: String::new() }\n}\n";
    let updated = public_api_update(
        "warning: type `Setting` is more private than the item `parse_setting`\n  --> src/lib.rs:6:1",
        lib,
    )
    .expect("public api edit");
    assert!(updated.contains("pub struct Setting"));
    assert!(updated.contains("pub key: String"));
    assert!(updated.contains("pub value: String"));
}

#[test]
fn ambiguous_evidence_changes_nothing() {
    let lib = "pub fn existing() -> &'static str {\n    \"ok\"\n}\n";
    assert_eq!(public_api_update("error: could not compile crate", lib), None);
}
