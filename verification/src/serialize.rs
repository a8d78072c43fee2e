use vstd::prelude::*;

use crate::request::{CreateModel, CreateSnapshotParams, LoadModel, LoadSnapshotParams, SnapshotType};
use crate::wire::{clone_regions, doc_view, Field, FieldModel, FieldValue, FieldValueModel};

verus! {

/// The wire name of a snapshot type.
pub open spec fn kind_name(k: SnapshotType) -> Seq<char> {
    match k {
        SnapshotType::Full => "Full"@,
        SnapshotType::Diff => "Diff"@,
    }
}

/// The wire document of a create-snapshot request: every field explicit, in
/// declaration order, an absent version written as null.
pub open spec fn spec_serialize_create(m: CreateModel) -> Seq<FieldModel> {
    seq![
        FieldModel { name: "snapshot_type"@, value: FieldValueModel::Str(kind_name(m.snapshot_type)) },
        FieldModel { name: "snapshot_path"@, value: FieldValueModel::Str(m.snapshot_path) },
        FieldModel { name: "mem_file_path"@, value: FieldValueModel::Str(m.mem_file_path) },
        FieldModel {
            name: "version"@,
            value: match m.version {
                Some(s) => FieldValueModel::Str(s),
                None => FieldValueModel::Null,
            },
        },
    ]
}

/// Write a create-snapshot request back to the wire.
pub fn serialize_create_snapshot(p: &CreateSnapshotParams) -> (d: Vec<Field>)
    ensures
        doc_view(d@) == spec_serialize_create(p@),
{
    let mut d: Vec<Field> = Vec::new();
    let kind = match p.snapshot_type {
        SnapshotType::Full => "Full".to_owned(),
        SnapshotType::Diff => "Diff".to_owned(),
    };
    d.push(Field { name: "snapshot_type".to_owned(), value: FieldValue::Str(kind) });
    d.push(
        Field { name: "snapshot_path".to_owned(), value: FieldValue::Str(p.snapshot_path.clone()) },
    );
    d.push(
        Field { name: "mem_file_path".to_owned(), value: FieldValue::Str(p.mem_file_path.clone()) },
    );
    let version = match &p.version {
        Some(s) => FieldValue::Str(s.clone()),
        None => FieldValue::Null,
    };
    d.push(Field { name: "version".to_owned(), value: version });
    proof {
        assert(doc_view(d@) =~~= spec_serialize_create(p@));
    }
    d
}

/// The wire document of a load-snapshot request: every field explicit, in
/// declaration order.
pub open spec fn spec_serialize_load(m: LoadModel) -> Seq<FieldModel> {
    seq![
        FieldModel { name: "snapshot_path"@, value: FieldValueModel::Str(m.snapshot_path) },
        FieldModel { name: "mem_file_path"@, value: FieldValueModel::Str(m.mem_file_path) },
        FieldModel {
            name: "enable_diff_snapshots"@,
            value: FieldValueModel::Bool(m.enable_diff_snapshots),
        },
        FieldModel {
            name: "enable_user_page_faults"@,
            value: FieldValueModel::Bool(m.enable_user_page_faults),
        },
        FieldModel { name: "sock_file_path"@, value: FieldValueModel::Str(m.sock_file_path) },
        FieldModel { name: "overlay_file_path"@, value: FieldValueModel::Str(m.overlay_file_path) },
        FieldModel {
            name: "overlay_regions"@,
            value: FieldValueModel::OffsetMap(m.overlay_regions),
        },
        FieldModel { name: "ws_file_path"@, value: FieldValueModel::Str(m.ws_file_path) },
        FieldModel { name: "ws_regions"@, value: FieldValueModel::RegionList(m.ws_regions) },
        FieldModel { name: "load_ws"@, value: FieldValueModel::Bool(m.load_ws) },
        FieldModel { name: "fadvise"@, value: FieldValueModel::Str(m.fadvise) },
    ]
}

/// Write a load-snapshot request back to the wire.
pub fn serialize_load_snapshot(p: &LoadSnapshotParams) -> (d: Vec<Field>)
    ensures
        doc_view(d@) == spec_serialize_load(p@),
{
    let mut d: Vec<Field> = Vec::new();
    d.push(
        Field { name: "snapshot_path".to_owned(), value: FieldValue::Str(p.snapshot_path.clone()) },
    );
    d.push(
        Field { name: "mem_file_path".to_owned(), value: FieldValue::Str(p.mem_file_path.clone()) },
    );
    d.push(
        Field {
            name: "enable_diff_snapshots".to_owned(),
            value: FieldValue::Bool(p.enable_diff_snapshots),
        },
    );
    d.push(
        Field {
            name: "enable_user_page_faults".to_owned(),
            value: FieldValue::Bool(p.enable_user_page_faults),
        },
    );
    d.push(
        Field { name: "sock_file_path".to_owned(), value: FieldValue::Str(p.sock_file_path.clone()) },
    );
    d.push(
        Field {
            name: "overlay_file_path".to_owned(),
            value: FieldValue::Str(p.overlay_file_path.clone()),
        },
    );
    d.push(
        Field {
            name: "overlay_regions".to_owned(),
            value: FieldValue::OffsetMap(clone_regions(&p.overlay_regions)),
        },
    );
    d.push(
        Field { name: "ws_file_path".to_owned(), value: FieldValue::Str(p.ws_file_path.clone()) },
    );
    d.push(
        Field {
            name: "ws_regions".to_owned(),
            value: FieldValue::RegionList(clone_regions(&p.ws_regions)),
        },
    );
    d.push(Field { name: "load_ws".to_owned(), value: FieldValue::Bool(p.load_ws) });
    d.push(Field { name: "fadvise".to_owned(), value: FieldValue::Str(p.fadvise.clone()) });
    proof {
        assert(doc_view(d@) =~~= spec_serialize_load(p@));
    }
    d
}

} // verus!
