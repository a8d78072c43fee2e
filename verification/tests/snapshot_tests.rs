use vmm_snapshot::error::SnapshotError;
use vmm_snapshot::lifecycle::{parse_vm_state, serialize_vm_state, Vm, VmState};
use vmm_snapshot::parse::{parse_create_snapshot, parse_load_snapshot};
use vmm_snapshot::request::SnapshotType;
use vmm_snapshot::serialize::{serialize_create_snapshot, serialize_load_snapshot};
use vmm_snapshot::wire::{Field, FieldValue, Region};

fn str_field(name: &str, value: &str) -> Field {
    Field { name: name.to_owned(), value: FieldValue::Str(value.to_owned()) }
}

fn bool_field(name: &str, value: bool) -> Field {
    Field { name: name.to_owned(), value: FieldValue::Bool(value) }
}

fn region(offset: i64, length: i64) -> Region {
    Region { offset, length }
}

/// A create-snapshot document carrying every field.
fn full_create_doc() -> Vec<Field> {
    vec![
        str_field("snapshot_type", "Diff"),
        str_field("snapshot_path", "/tmp/state"),
        str_field("mem_file_path", "/tmp/mem"),
        str_field("version", "1.4.0"),
    ]
}

/// A load-snapshot document with every optional feature disabled.
fn minimal_load_doc() -> Vec<Field> {
    vec![
        str_field("snapshot_path", "/s"),
        str_field("mem_file_path", "/m"),
        bool_field("enable_diff_snapshots", true),
        bool_field("enable_user_page_faults", false),
        str_field("sock_file_path", ""),
        str_field("overlay_file_path", ""),
        Field { name: "overlay_regions".to_owned(), value: FieldValue::OffsetMap(vec![]) },
        str_field("ws_file_path", ""),
        Field { name: "ws_regions".to_owned(), value: FieldValue::RegionList(vec![]) },
        bool_field("load_ws", false),
        str_field("fadvise", ""),
    ]
}

/// A load-snapshot document with every feature switched on.
fn full_load_doc() -> Vec<Field> {
    vec![
        str_field("snapshot_path", "/s"),
        str_field("mem_file_path", "/m"),
        bool_field("enable_diff_snapshots", true),
        bool_field("enable_user_page_faults", true),
        str_field("sock_file_path", "/sock"),
        str_field("overlay_file_path", "/overlay"),
        Field {
            name: "overlay_regions".to_owned(),
            value: FieldValue::OffsetMap(vec![region(0, 4096), region(8192, 4096)]),
        },
        str_field("ws_file_path", "/ws"),
        Field {
            name: "ws_regions".to_owned(),
            value: FieldValue::RegionList(vec![region(4096, 4096), region(0, 4096)]),
        },
        bool_field("load_ws", true),
        str_field("fadvise", "random"),
    ]
}

fn replace_field(mut doc: Vec<Field>, name: &str, value: FieldValue) -> Vec<Field> {
    for f in doc.iter_mut() {
        if f.name == name {
            f.value = value;
            return doc;
        }
    }
    panic!("no such field");
}

#[test]
fn create_full_document_validates() {
    let p = parse_create_snapshot(&full_create_doc()).unwrap();
    assert_eq!(p.snapshot_type, SnapshotType::Diff);
    assert_eq!(p.snapshot_path, "/tmp/state");
    assert_eq!(p.mem_file_path, "/tmp/mem");
    assert_eq!(p.version, Some("1.4.0".to_owned()));
}

#[test]
fn create_omitted_snapshot_type_defaults_to_full() {
    let doc = vec![str_field("snapshot_path", "/s"), str_field("mem_file_path", "/m")];
    let p = parse_create_snapshot(&doc).unwrap();
    assert_eq!(p.snapshot_type, SnapshotType::Full);
    assert_eq!(p.version, None);
}

#[test]
fn create_null_version_means_none() {
    let doc = vec![
        str_field("snapshot_path", "/s"),
        str_field("mem_file_path", "/m"),
        Field { name: "version".to_owned(), value: FieldValue::Null },
    ];
    let p = parse_create_snapshot(&doc).unwrap();
    assert_eq!(p.version, None);
}

#[test]
fn create_unknown_field_is_schema_error() {
    let mut doc = full_create_doc();
    doc.push(str_field("snapshot_pathh", "/s"));
    assert_eq!(parse_create_snapshot(&doc), Err(SnapshotError::SchemaError));
}

#[test]
fn create_missing_required_field_is_schema_error() {
    let doc = vec![str_field("snapshot_path", "/s")];
    assert_eq!(parse_create_snapshot(&doc), Err(SnapshotError::SchemaError));
}

#[test]
fn create_duplicate_field_is_schema_error() {
    let mut doc = full_create_doc();
    doc.push(str_field("snapshot_path", "/other"));
    assert_eq!(parse_create_snapshot(&doc), Err(SnapshotError::SchemaError));
}

#[test]
fn create_bad_snapshot_type_is_schema_error() {
    let doc = replace_field(
        full_create_doc(),
        "snapshot_type",
        FieldValue::Str("Partial".to_owned()),
    );
    assert_eq!(parse_create_snapshot(&doc), Err(SnapshotError::SchemaError));
}

#[test]
fn create_mistyped_path_is_schema_error() {
    let doc = replace_field(full_create_doc(), "snapshot_path", FieldValue::Bool(true));
    assert_eq!(parse_create_snapshot(&doc), Err(SnapshotError::SchemaError));
}

#[test]
fn create_equal_paths_is_invariant_error() {
    let doc = vec![str_field("snapshot_path", "/same"), str_field("mem_file_path", "/same")];
    assert_eq!(parse_create_snapshot(&doc), Err(SnapshotError::InvariantError));
}

#[test]
fn create_round_trip_preserves_request() {
    let p = parse_create_snapshot(&full_create_doc()).unwrap();
    let doc = serialize_create_snapshot(&p);
    let q = parse_create_snapshot(&doc).unwrap();
    assert_eq!(p, q);
}

#[test]
fn create_round_trip_makes_default_explicit() {
    let doc = vec![str_field("snapshot_path", "/s"), str_field("mem_file_path", "/m")];
    let p = parse_create_snapshot(&doc).unwrap();
    let out = serialize_create_snapshot(&p);
    assert_eq!(out[0].name, "snapshot_type");
    assert_eq!(out[0].value, FieldValue::Str("Full".to_owned()));
    let q = parse_create_snapshot(&out).unwrap();
    assert_eq!(p, q);
}

#[test]
fn load_example_with_features_disabled_validates() {
    let p = parse_load_snapshot(&minimal_load_doc()).unwrap();
    assert_eq!(p.snapshot_path, "/s");
    assert_eq!(p.mem_file_path, "/m");
    assert!(p.enable_diff_snapshots);
    assert!(!p.enable_user_page_faults);
    assert_eq!(p.sock_file_path, "");
    assert_eq!(p.overlay_file_path, "");
    assert!(p.overlay_regions.is_empty());
    assert_eq!(p.ws_file_path, "");
    assert!(p.ws_regions.is_empty());
    assert!(!p.load_ws);
    assert_eq!(p.fadvise, "");
}

#[test]
fn load_omitted_fadvise_defaults_to_empty() {
    let mut doc = minimal_load_doc();
    doc.retain(|f| f.name != "fadvise");
    let p = parse_load_snapshot(&doc).unwrap();
    assert_eq!(p.fadvise, "");
}

#[test]
fn load_full_document_validates() {
    let p = parse_load_snapshot(&full_load_doc()).unwrap();
    assert!(p.enable_user_page_faults);
    assert_eq!(p.sock_file_path, "/sock");
    assert_eq!(p.overlay_file_path, "/overlay");
    assert_eq!(p.overlay_regions, vec![region(0, 4096), region(8192, 4096)]);
    assert_eq!(p.ws_file_path, "/ws");
    assert_eq!(p.ws_regions, vec![region(4096, 4096), region(0, 4096)]);
    assert!(p.load_ws);
    assert_eq!(p.fadvise, "random");
}

#[test]
fn load_unknown_field_is_schema_error() {
    let mut doc = minimal_load_doc();
    doc.push(str_field("mem_backend", "/b"));
    assert_eq!(parse_load_snapshot(&doc), Err(SnapshotError::SchemaError));
}

#[test]
fn load_missing_required_field_is_schema_error() {
    let mut doc = minimal_load_doc();
    doc.retain(|f| f.name != "sock_file_path");
    assert_eq!(parse_load_snapshot(&doc), Err(SnapshotError::SchemaError));
}

#[test]
fn load_mistyped_flag_is_schema_error() {
    let doc = replace_field(
        minimal_load_doc(),
        "enable_diff_snapshots",
        FieldValue::Str("true".to_owned()),
    );
    assert_eq!(parse_load_snapshot(&doc), Err(SnapshotError::SchemaError));
}

#[test]
fn load_repeated_overlay_offset_is_schema_error() {
    let doc = replace_field(
        full_load_doc(),
        "overlay_regions",
        FieldValue::OffsetMap(vec![region(0, 4096), region(0, 8192)]),
    );
    assert_eq!(parse_load_snapshot(&doc), Err(SnapshotError::SchemaError));
}

#[test]
fn load_overlay_regions_without_path_is_invariant_error() {
    let doc = replace_field(
        full_load_doc(),
        "overlay_file_path",
        FieldValue::Str("".to_owned()),
    );
    assert_eq!(parse_load_snapshot(&doc), Err(SnapshotError::InvariantError));
}

#[test]
fn load_ws_regions_without_path_is_invariant_error() {
    let doc = replace_field(full_load_doc(), "ws_file_path", FieldValue::Str("".to_owned()));
    assert_eq!(parse_load_snapshot(&doc), Err(SnapshotError::InvariantError));
}

#[test]
fn load_round_trip_preserves_request() {
    let p = parse_load_snapshot(&full_load_doc()).unwrap();
    let doc = serialize_load_snapshot(&p);
    let q = parse_load_snapshot(&doc).unwrap();
    assert_eq!(p, q);
}

#[test]
fn load_sock_path_round_trips_while_delegation_disabled() {
    let doc = replace_field(
        replace_field(
            minimal_load_doc(),
            "sock_file_path",
            FieldValue::Str("/tmp/passfd.sock".to_owned()),
        ),
        "enable_user_page_faults",
        FieldValue::Bool(false),
    );
    let p = parse_load_snapshot(&doc).unwrap();
    assert!(!p.enable_user_page_faults);
    assert_eq!(p.sock_file_path, "/tmp/passfd.sock");
    let out = serialize_load_snapshot(&p);
    let q = parse_load_snapshot(&out).unwrap();
    assert_eq!(q.sock_file_path, "/tmp/passfd.sock");
    assert_eq!(p, q);
}

#[test]
fn snapshot_while_resumed_is_state_conflict() {
    let mut vm = Vm { state: VmState::Resumed };
    assert_eq!(vm.request_create_snapshot(), Err(SnapshotError::StateConflictError));
    assert_eq!(vm.state, VmState::Resumed);
}

#[test]
fn snapshot_while_paused_is_allowed() {
    let mut vm = Vm { state: VmState::Paused };
    assert_eq!(vm.request_create_snapshot(), Ok(()));
    assert_eq!(vm.state, VmState::Paused);
}

#[test]
fn load_snapshot_pauses_from_any_state() {
    let mut vm = Vm { state: VmState::Resumed };
    vm.complete_load_snapshot();
    assert_eq!(vm.state, VmState::Paused);
    let mut vm = Vm { state: VmState::Paused };
    vm.complete_load_snapshot();
    assert_eq!(vm.state, VmState::Paused);
}

#[test]
fn resume_after_load_runs_the_vm() {
    let mut vm = Vm { state: VmState::Paused };
    vm.complete_resume();
    assert_eq!(vm.state, VmState::Resumed);
}

#[test]
fn default_snapshot_type_is_full() {
    assert_eq!(SnapshotType::default(), SnapshotType::Full);
}

#[test]
fn vm_state_document_validates() {
    let doc = vec![str_field("state", "Resumed")];
    let vm = parse_vm_state(&doc).unwrap();
    assert_eq!(vm.state, VmState::Resumed);
}

#[test]
fn vm_state_unknown_field_is_schema_error() {
    let doc = vec![str_field("state", "Paused"), str_field("statee", "Paused")];
    assert_eq!(parse_vm_state(&doc), Err(SnapshotError::SchemaError));
}

#[test]
fn vm_state_unknown_name_is_schema_error() {
    let doc = vec![str_field("state", "Running")];
    assert_eq!(parse_vm_state(&doc), Err(SnapshotError::SchemaError));
}

#[test]
fn vm_state_mistyped_is_schema_error() {
    let doc = vec![bool_field("state", true)];
    assert_eq!(parse_vm_state(&doc), Err(SnapshotError::SchemaError));
}

#[test]
fn vm_state_missing_is_schema_error() {
    assert_eq!(parse_vm_state(&vec![]), Err(SnapshotError::SchemaError));
}

#[test]
fn vm_state_duplicate_is_schema_error() {
    let doc = vec![str_field("state", "Paused"), str_field("state", "Resumed")];
    assert_eq!(parse_vm_state(&doc), Err(SnapshotError::SchemaError));
}

#[test]
fn vm_state_round_trip_preserves_state() {
    let vm = Vm { state: VmState::Paused };
    let doc = serialize_vm_state(&vm);
    assert_eq!(doc.len(), 1);
    assert_eq!(doc[0].name, "state");
    assert_eq!(doc[0].value, FieldValue::Str("Paused".to_owned()));
    assert_eq!(parse_vm_state(&doc), Ok(vm));
}
