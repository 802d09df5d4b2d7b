use struct_vault::SaveFormat;
use struct_vault::VaultConfig;
use struct_vault::VaultRecord;
use struct_vault::loaded_or_default;
use struct_vault::save_plan;
use struct_vault::to_string;
use struct_vault::to_struct;

fn sample() -> VaultRecord {
    VaultRecord { name: "Test".to_string(), value: 42 }
}

#[test]
fn round_trip_json() {
    let rec = sample();
    let text = to_string(&rec, SaveFormat::Json);
    let back = to_struct(SaveFormat::Json, &text).unwrap();
    assert_eq!(back, rec);
}

#[test]
fn round_trip_yaml() {
    let rec = sample();
    let text = to_string(&rec, SaveFormat::Yaml);
    let back = to_struct(SaveFormat::Yaml, &text).unwrap();
    assert_eq!(back, rec);
}

#[test]
fn round_trip_toml() {
    let rec = sample();
    let text = to_string(&rec, SaveFormat::Toml);
    let back = to_struct(SaveFormat::Toml, &text).unwrap();
    assert_eq!(back, rec);
}

#[test]
fn round_trip_default_record_all_encodings() {
    for format in [SaveFormat::Json, SaveFormat::Yaml, SaveFormat::Toml] {
        let rec = VaultRecord::default();
        let text = to_string(&rec, format);
        let back = to_struct(format, &text).unwrap();
        assert_eq!(back, rec);
    }
}

#[test]
fn round_trip_awkward_values() {
    for format in [SaveFormat::Json, SaveFormat::Yaml, SaveFormat::Toml] {
        let rec = VaultRecord { name: "he said \"hi\", twice".to_string(), value: -7 };
        let text = to_string(&rec, format);
        let back = to_struct(format, &text).unwrap();
        assert_eq!(back, rec);
    }
}

#[test]
fn round_trip_extreme_values() {
    for format in [SaveFormat::Json, SaveFormat::Yaml, SaveFormat::Toml] {
        let rec = VaultRecord { name: "edge".to_string(), value: i64::MAX };
        let text = to_string(&rec, format);
        let back = to_struct(format, &text).unwrap();
        assert_eq!(back, rec);
    }
}

#[test]
fn decode_rejects_malformed_text() {
    let r = to_struct(SaveFormat::Json, "{ not json");
    assert_eq!(r.unwrap_err().format, SaveFormat::Json);
    let r = to_struct(SaveFormat::Toml, "= broken =");
    assert_eq!(r.unwrap_err().format, SaveFormat::Toml);
    let r = to_struct(SaveFormat::Yaml, ": [");
    assert_eq!(r.unwrap_err().format, SaveFormat::Yaml);
}

#[test]
fn decode_rejects_missing_fields() {
    let r = to_struct(SaveFormat::Json, "{\"name\": \"x\"}");
    assert!(r.is_err());
    let r = to_struct(SaveFormat::Toml, "value = 3\n");
    assert!(r.is_err());
}

#[test]
fn decode_rejects_wrong_field_types() {
    let r = to_struct(SaveFormat::Json, "{\"name\": 3, \"value\": 42}");
    assert!(r.is_err());
    let r = to_struct(SaveFormat::Json, "{\"name\": \"x\", \"value\": \"42\"}");
    assert!(r.is_err());
}

#[test]
fn encoded_text_names_both_fields() {
    let rec = sample();
    let toml_text = to_string(&rec, SaveFormat::Toml);
    assert!(toml_text.contains("name"));
    assert!(toml_text.contains("Test"));
    assert!(toml_text.contains("value"));
    assert!(toml_text.contains("42"));
    let json_text = to_string(&rec, SaveFormat::Json);
    assert!(json_text.contains("\"name\""));
    assert!(json_text.contains("\"Test\""));
    assert!(json_text.contains("42"));
}

#[test]
fn loaded_or_default_missing_file() {
    let r = loaded_or_default(SaveFormat::Toml, None);
    assert_eq!(r, VaultRecord::default());
}

#[test]
fn loaded_or_default_corrupt_file() {
    let r = loaded_or_default(SaveFormat::Toml, Some("%%% not toml %%%"));
    assert_eq!(r, VaultRecord::default());
}

#[test]
fn loaded_or_default_well_formed_file() {
    let rec = sample();
    let text = to_string(&rec, SaveFormat::Toml);
    let r = loaded_or_default(SaveFormat::Toml, Some(&text));
    assert_eq!(r, rec);
}

#[test]
fn toml_scenario() {
    let rec = sample();
    let c = VaultConfig::default();
    let plan = save_plan(&rec, "profile", Some("./data"), &c, SaveFormat::Toml);
    assert_eq!(plan.path, "./data/profile.toml");
    let back = to_struct(SaveFormat::Toml, &plan.contents).unwrap();
    assert_eq!(back, rec);
}

#[test]
fn save_plan_under_default_dir() {
    let rec = sample();
    let mut c = VaultConfig::default();
    c.set_custom_dir("./elsewhere");
    let plan = save_plan(&rec, "profile", None, &c, SaveFormat::Yaml);
    assert_eq!(plan.path, "./elsewhere/profile.yaml");
    let back = to_struct(SaveFormat::Yaml, &plan.contents).unwrap();
    assert_eq!(back, rec);
}
