use vstd::prelude::*;

use crate::error::SnapshotError;
use crate::request::{
    create_wf, load_wf, CreateModel, CreateSnapshotParams, LoadModel, LoadSnapshotParams,
    SnapshotType,
};
use crate::wire::{
    bool_of, clone_regions, doc_view, field_at, find_field_index, has_field, lemma_field_at_index,
    names_are_unique, names_unique, offsets_are_unique, regions_of, str_of, unique_offsets, Field,
    FieldModel, FieldValue, FieldValueModel, Region,
};

verus! {

/// The closed set of field names a create-snapshot request may carry.
pub open spec fn create_field_name(name: Seq<char>) -> bool {
    ||| name == "snapshot_type"@
    ||| name == "snapshot_path"@
    ||| name == "mem_file_path"@
    ||| name == "version"@
}

/// Every field of the document belongs to the create-snapshot schema.
pub open spec fn all_create_fields(d: Seq<FieldModel>) -> bool {
    forall|i: int| 0 <= i < d.len() ==> create_field_name(#[trigger] d[i].name)
}

/// The `snapshot_type` field, when present, is one of the two type names.
pub open spec fn kind_field_ok(d: Seq<FieldModel>) -> bool {
    has_field(d, "snapshot_type"@) ==> {
        ||| field_at(d, "snapshot_type"@) == FieldValueModel::Str("Full"@)
        ||| field_at(d, "snapshot_type"@) == FieldValueModel::Str("Diff"@)
    }
}

/// The snapshot type that the document selects, `Full` when the field is
/// absent.
pub open spec fn spec_kind_of(d: Seq<FieldModel>) -> SnapshotType {
    if has_field(d, "snapshot_type"@) && field_at(d, "snapshot_type"@) == FieldValueModel::Str(
        "Diff"@,
    ) {
        SnapshotType::Diff
    } else {
        SnapshotType::Full
    }
}

/// The optional string that the document carries under `name`: absent and
/// explicit null both mean `None`.
pub open spec fn opt_str_of(d: Seq<FieldModel>, name: Seq<char>) -> Option<Seq<char>> {
    if has_field(d, name) {
        match field_at(d, name) {
            FieldValueModel::Str(s) => Some(s),
            _ => None,
        }
    } else {
        None
    }
}

/// Every field is recognized and unrepeated, required fields are present,
/// and every value has the shape the create-snapshot schema asks for.
pub open spec fn create_schema_ok(d: Seq<FieldModel>) -> bool {
    &&& all_create_fields(d)
    &&& names_unique(d)
    &&& has_field(d, "snapshot_path"@) && field_at(d, "snapshot_path"@) is Str
    &&& has_field(d, "mem_file_path"@) && field_at(d, "mem_file_path"@) is Str
    &&& kind_field_ok(d)
    &&& has_field(d, "version"@) ==> (field_at(d, "version"@) is Str || field_at(
        d,
        "version"@,
    ) is Null)
}

/// What validating a create-snapshot document yields: the validated request,
/// `SchemaError` for a document outside the schema, and `InvariantError` for
/// coinciding destinations.
pub open spec fn spec_parse_create(d: Seq<FieldModel>) -> Result<CreateModel, SnapshotError> {
    if !create_schema_ok(d) {
        Err(SnapshotError::SchemaError)
    } else if str_of(field_at(d, "snapshot_path"@)) == str_of(field_at(d, "mem_file_path"@)) {
        Err(SnapshotError::InvariantError)
    } else {
        Ok(
            CreateModel {
                snapshot_type: spec_kind_of(d),
                snapshot_path: str_of(field_at(d, "snapshot_path"@)),
                mem_file_path: str_of(field_at(d, "mem_file_path"@)),
                version: opt_str_of(d, "version"@),
            },
        )
    }
}

/// The image of a validation result, request replaced by its model.
pub open spec fn create_result_view(r: Result<CreateSnapshotParams, SnapshotError>) -> Result<
    CreateModel,
    SnapshotError,
> {
    match r {
        Ok(p) => Ok(p@),
        Err(e) => Err(e),
    }
}

/// Decide whether every field name belongs to the create-snapshot schema.
fn all_names_recognized_create(doc: &Vec<Field>) -> (r: bool)
    ensures
        r == all_create_fields(doc_view(doc@)),
{
    let k_snapshot_type = "snapshot_type".to_owned();
    let k_snapshot_path = "snapshot_path".to_owned();
    let k_mem_file_path = "mem_file_path".to_owned();
    let k_version = "version".to_owned();
    let mut i: usize = 0;
    while i < doc.len()
        invariant
            i <= doc.len(),
            k_snapshot_type@ == "snapshot_type"@,
            k_snapshot_path@ == "snapshot_path"@,
            k_mem_file_path@ == "mem_file_path"@,
            k_version@ == "version"@,
            forall|k: int| 0 <= k < i ==> create_field_name(#[trigger] doc@[k]@.name),
        decreases doc.len() - i,
    {
        let known = doc[i].name == k_snapshot_type || doc[i].name == k_snapshot_path
            || doc[i].name == k_mem_file_path || doc[i].name == k_version;
        if !known {
            proof {
                assert(doc_view(doc@)[i as int] == doc@[i as int]@);
                assert(!create_field_name(doc_view(doc@)[i as int].name));
            }
            return false;
        }
        i += 1;
    }
    proof {
        assert forall|k: int| 0 <= k < doc_view(doc@).len() implies create_field_name(
            #[trigger] doc_view(doc@)[k].name,
        ) by {
            assert(doc_view(doc@)[k] == doc@[k]@);
        }
    }
    true
}

/// Extract the required string field `name`.
fn take_str_field(doc: &Vec<Field>, name: &String) -> (r: Result<String, SnapshotError>)
    requires
        names_unique(doc_view(doc@)),
    ensures
        r is Ok <==> has_field(doc_view(doc@), name@) && field_at(doc_view(doc@), name@) is Str,
        r matches Ok(s) ==> s@ == str_of(field_at(doc_view(doc@), name@)),
        r matches Err(e) ==> e is SchemaError,
{
    match find_field_index(doc, name) {
        Some(i) => {
            proof {
                assert(doc_view(doc@)[i as int] == doc@[i as int]@);
                lemma_field_at_index(doc_view(doc@), name@, i as int);
            }
            match &doc[i].value {
                FieldValue::Str(s) => Ok(s.clone()),
                _ => Err(SnapshotError::SchemaError),
            }
        },
        None => Err(SnapshotError::SchemaError),
    }
}

/// Extract the optional string field `name`; absent and null both yield
/// `None`.
fn take_opt_str_field(doc: &Vec<Field>, name: &String) -> (r: Result<
    Option<String>,
    SnapshotError,
>)
    requires
        names_unique(doc_view(doc@)),
    ensures
        r is Ok <==> (has_field(doc_view(doc@), name@) ==> (field_at(doc_view(doc@), name@) is Str
            || field_at(doc_view(doc@), name@) is Null)),
        r matches Ok(v) ==> (match v {
            Some(s) => opt_str_of(doc_view(doc@), name@) == Some(s@),
            None => opt_str_of(doc_view(doc@), name@) is None,
        }),
        r matches Err(e) ==> e is SchemaError,
{
    match find_field_index(doc, name) {
        Some(i) => {
            proof {
                assert(doc_view(doc@)[i as int] == doc@[i as int]@);
                lemma_field_at_index(doc_view(doc@), name@, i as int);
            }
            match &doc[i].value {
                FieldValue::Str(s) => Ok(Some(s.clone())),
                FieldValue::Null => Ok(None),
                _ => Err(SnapshotError::SchemaError),
            }
        },
        None => Ok(None),
    }
}

/// Extract the `snapshot_type` field, applying the `Full` default when it is
/// absent.
fn take_kind_field(doc: &Vec<Field>) -> (r: Result<SnapshotType, SnapshotError>)
    requires
        names_unique(doc_view(doc@)),
    ensures
        r is Ok <==> kind_field_ok(doc_view(doc@)),
        r matches Ok(k) ==> k == spec_kind_of(doc_view(doc@)),
        r matches Err(e) ==> e is SchemaError,
{
    let key = "snapshot_type".to_owned();
    match find_field_index(doc, &key) {
        Some(i) => {
            proof {
                assert(doc_view(doc@)[i as int] == doc@[i as int]@);
                lemma_field_at_index(doc_view(doc@), "snapshot_type"@, i as int);
            }
            match &doc[i].value {
                FieldValue::Str(s) => {
                    proof {
                        reveal_strlit("Full");
                        reveal_strlit("Diff");
                        assert("Full"@[0] == 'F' && "Diff"@[0] == 'D');
                        assert("Full"@ != "Diff"@);
                    }
                    if *s == "Full".to_owned() {
                        Ok(SnapshotType::Full)
                    } else if *s == "Diff".to_owned() {
                        Ok(SnapshotType::Diff)
                    } else {
                        Err(SnapshotError::SchemaError)
                    }
                },
                _ => Err(SnapshotError::SchemaError),
            }
        },
        None => Ok(SnapshotType::Full),
    }
}

/// Validate a create-snapshot wire document: reject any field outside the
/// recognized set, any repeated, missing or mistyped field, and coinciding
/// destination paths; apply the `Full` default when `snapshot_type` is
/// absent.
pub fn parse_create_snapshot(doc: &Vec<Field>) -> (r: Result<CreateSnapshotParams, SnapshotError>)
    ensures
        create_result_view(r) == spec_parse_create(doc_view(doc@)),
        r matches Ok(p) ==> create_wf(p@),
{
    let ghost dv = doc_view(doc@);
    if !all_names_recognized_create(doc) {
        return Err(SnapshotError::SchemaError);
    }
    if !names_are_unique(doc) {
        return Err(SnapshotError::SchemaError);
    }
    let snapshot_type = match take_kind_field(doc) {
        Ok(k) => k,
        Err(e) => {
            return Err(e);
        },
    };
    let snapshot_path = match take_str_field(doc, &"snapshot_path".to_owned()) {
        Ok(s) => s,
        Err(e) => {
            return Err(e);
        },
    };
    let mem_file_path = match take_str_field(doc, &"mem_file_path".to_owned()) {
        Ok(s) => s,
        Err(e) => {
            return Err(e);
        },
    };
    let version = match take_opt_str_field(doc, &"version".to_owned()) {
        Ok(v) => v,
        Err(e) => {
            return Err(e);
        },
    };
    assert(create_schema_ok(dv));
    if snapshot_path == mem_file_path {
        return Err(SnapshotError::InvariantError);
    }
    let p = CreateSnapshotParams { snapshot_type, snapshot_path, mem_file_path, version };
    proof {
        assert(p@ =~= spec_parse_create(dv)->Ok_0);
    }
    Ok(p)
}

/// The closed set of field names a load-snapshot request may carry.
pub open spec fn load_field_name(name: Seq<char>) -> bool {
    ||| name == "snapshot_path"@
    ||| name == "mem_file_path"@
    ||| name == "enable_diff_snapshots"@
    ||| name == "enable_user_page_faults"@
    ||| name == "sock_file_path"@
    ||| name == "overlay_file_path"@
    ||| name == "overlay_regions"@
    ||| name == "ws_file_path"@
    ||| name == "ws_regions"@
    ||| name == "load_ws"@
    ||| name == "fadvise"@
}

/// Every field of the document belongs to the load-snapshot schema.
pub open spec fn all_load_fields(d: Seq<FieldModel>) -> bool {
    forall|i: int| 0 <= i < d.len() ==> load_field_name(#[trigger] d[i].name)
}

/// Every field is recognized and unrepeated, required fields are present,
/// and every value has the shape the load-snapshot schema asks for.
pub open spec fn load_schema_ok(d: Seq<FieldModel>) -> bool {
    &&& all_load_fields(d)
    &&& names_unique(d)
    &&& has_field(d, "snapshot_path"@) && field_at(d, "snapshot_path"@) is Str
    &&& has_field(d, "mem_file_path"@) && field_at(d, "mem_file_path"@) is Str
    &&& has_field(d, "enable_diff_snapshots"@) && field_at(d, "enable_diff_snapshots"@) is Bool
    &&& has_field(d, "enable_user_page_faults"@) && field_at(d, "enable_user_page_faults"@) is Bool
    &&& has_field(d, "sock_file_path"@) && field_at(d, "sock_file_path"@) is Str
    &&& has_field(d, "overlay_file_path"@) && field_at(d, "overlay_file_path"@) is Str
    &&& has_field(d, "overlay_regions"@) && field_at(d, "overlay_regions"@) is OffsetMap
    &&& unique_offsets(regions_of(field_at(d, "overlay_regions"@)))
    &&& has_field(d, "ws_file_path"@) && field_at(d, "ws_file_path"@) is Str
    &&& has_field(d, "ws_regions"@) && field_at(d, "ws_regions"@) is RegionList
    &&& has_field(d, "load_ws"@) && field_at(d, "load_ws"@) is Bool
    &&& has_field(d, "fadvise"@) ==> field_at(d, "fadvise"@) is Str
}

/// The cross-field invariants of a load-snapshot request: a non-empty region
/// list names its backing file.
pub open spec fn load_invariants_ok(d: Seq<FieldModel>) -> bool {
    &&& regions_of(field_at(d, "overlay_regions"@)).len() > 0 ==> str_of(
        field_at(d, "overlay_file_path"@),
    ).len() > 0
    &&& regions_of(field_at(d, "ws_regions"@)).len() > 0 ==> str_of(
        field_at(d, "ws_file_path"@),
    ).len() > 0
}

/// What validating a load-snapshot document yields: schema violations before
/// cross-field invariants, and the validated request otherwise.
pub open spec fn spec_parse_load(d: Seq<FieldModel>) -> Result<LoadModel, SnapshotError> {
    if !load_schema_ok(d) {
        Err(SnapshotError::SchemaError)
    } else if !load_invariants_ok(d) {
        Err(SnapshotError::InvariantError)
    } else {
        Ok(
            LoadModel {
                snapshot_path: str_of(field_at(d, "snapshot_path"@)),
                mem_file_path: str_of(field_at(d, "mem_file_path"@)),
                enable_diff_snapshots: bool_of(field_at(d, "enable_diff_snapshots"@)),
                enable_user_page_faults: bool_of(field_at(d, "enable_user_page_faults"@)),
                sock_file_path: str_of(field_at(d, "sock_file_path"@)),
                overlay_file_path: str_of(field_at(d, "overlay_file_path"@)),
                overlay_regions: regions_of(field_at(d, "overlay_regions"@)),
                ws_file_path: str_of(field_at(d, "ws_file_path"@)),
                ws_regions: regions_of(field_at(d, "ws_regions"@)),
                load_ws: bool_of(field_at(d, "load_ws"@)),
                fadvise: if has_field(d, "fadvise"@) {
                    str_of(field_at(d, "fadvise"@))
                } else {
                    Seq::empty()
                },
            },
        )
    }
}

/// The image of a validation result, request replaced by its model.
pub open spec fn load_result_view(r: Result<LoadSnapshotParams, SnapshotError>) -> Result<
    LoadModel,
    SnapshotError,
> {
    match r {
        Ok(p) => Ok(p@),
        Err(e) => Err(e),
    }
}

/// Decide whether every field name belongs to the load-snapshot schema.
fn all_names_recognized_load(doc: &Vec<Field>) -> (r: bool)
    ensures
        r == all_load_fields(doc_view(doc@)),
{
    let k_snapshot_path = "snapshot_path".to_owned();
    let k_mem_file_path = "mem_file_path".to_owned();
    let k_enable_diff_snapshots = "enable_diff_snapshots".to_owned();
    let k_enable_user_page_faults = "enable_user_page_faults".to_owned();
    let k_sock_file_path = "sock_file_path".to_owned();
    let k_overlay_file_path = "overlay_file_path".to_owned();
    let k_overlay_regions = "overlay_regions".to_owned();
    let k_ws_file_path = "ws_file_path".to_owned();
    let k_ws_regions = "ws_regions".to_owned();
    let k_load_ws = "load_ws".to_owned();
    let k_fadvise = "fadvise".to_owned();
    let mut i: usize = 0;
    while i < doc.len()
        invariant
            i <= doc.len(),
            k_snapshot_path@ == "snapshot_path"@,
            k_mem_file_path@ == "mem_file_path"@,
            k_enable_diff_snapshots@ == "enable_diff_snapshots"@,
            k_enable_user_page_faults@ == "enable_user_page_faults"@,
            k_sock_file_path@ == "sock_file_path"@,
            k_overlay_file_path@ == "overlay_file_path"@,
            k_overlay_regions@ == "overlay_regions"@,
            k_ws_file_path@ == "ws_file_path"@,
            k_ws_regions@ == "ws_regions"@,
            k_load_ws@ == "load_ws"@,
            k_fadvise@ == "fadvise"@,
            forall|k: int| 0 <= k < i ==> load_field_name(#[trigger] doc@[k]@.name),
        decreases doc.len() - i,
    {
        let known = doc[i].name == k_snapshot_path || doc[i].name == k_mem_file_path
            || doc[i].name == k_enable_diff_snapshots || doc[i].name == k_enable_user_page_faults
            || doc[i].name == k_sock_file_path || doc[i].name == k_overlay_file_path
            || doc[i].name == k_overlay_regions || doc[i].name == k_ws_file_path
            || doc[i].name == k_ws_regions || doc[i].name == k_load_ws
            || doc[i].name == k_fadvise;
        if !known {
            proof {
                assert(doc_view(doc@)[i as int] == doc@[i as int]@);
                assert(!load_field_name(doc_view(doc@)[i as int].name));
            }
            return false;
        }
        i += 1;
    }
    proof {
        assert forall|k: int| 0 <= k < doc_view(doc@).len() implies load_field_name(
            #[trigger] doc_view(doc@)[k].name,
        ) by {
            assert(doc_view(doc@)[k] == doc@[k]@);
        }
    }
    true
}

/// Extract the required boolean field `name`.
fn take_bool_field(doc: &Vec<Field>, name: &String) -> (r: Result<bool, SnapshotError>)
    requires
        names_unique(doc_view(doc@)),
    ensures
        r is Ok <==> has_field(doc_view(doc@), name@) && field_at(doc_view(doc@), name@) is Bool,
        r matches Ok(b) ==> b == bool_of(field_at(doc_view(doc@), name@)),
        r matches Err(e) ==> e is SchemaError,
{
    match find_field_index(doc, name) {
        Some(i) => {
            proof {
                assert(doc_view(doc@)[i as int] == doc@[i as int]@);
                lemma_field_at_index(doc_view(doc@), name@, i as int);
            }
            match &doc[i].value {
                FieldValue::Bool(b) => Ok(*b),
                _ => Err(SnapshotError::SchemaError),
            }
        },
        None => Err(SnapshotError::SchemaError),
    }
}

/// Extract the string field `name`, defaulting to the empty string when it
/// is absent.
fn take_str_field_or_empty(doc: &Vec<Field>, name: &String) -> (r: Result<String, SnapshotError>)
    requires
        names_unique(doc_view(doc@)),
    ensures
        r is Ok <==> (has_field(doc_view(doc@), name@) ==> field_at(
            doc_view(doc@),
            name@,
        ) is Str),
        r matches Ok(s) ==> s@ == (if has_field(doc_view(doc@), name@) {
            str_of(field_at(doc_view(doc@), name@))
        } else {
            Seq::<char>::empty()
        }),
        r matches Err(e) ==> e is SchemaError,
{
    match find_field_index(doc, name) {
        Some(i) => {
            proof {
                assert(doc_view(doc@)[i as int] == doc@[i as int]@);
                lemma_field_at_index(doc_view(doc@), name@, i as int);
            }
            match &doc[i].value {
                FieldValue::Str(s) => Ok(s.clone()),
                _ => Err(SnapshotError::SchemaError),
            }
        },
        None => Ok(String::new()),
    }
}

/// Extract the required offset-mapping field `name`; its offsets must be
/// pairwise distinct for it to be a mapping at all.
fn take_offset_map_field(doc: &Vec<Field>, name: &String) -> (r: Result<Vec<Region>, SnapshotError>)
    requires
        names_unique(doc_view(doc@)),
    ensures
        r is Ok <==> has_field(doc_view(doc@), name@) && field_at(doc_view(doc@), name@)
            is OffsetMap && unique_offsets(regions_of(field_at(doc_view(doc@), name@))),
        r matches Ok(v) ==> v@ == regions_of(field_at(doc_view(doc@), name@)),
        r matches Err(e) ==> e is SchemaError,
{
    match find_field_index(doc, name) {
        Some(i) => {
            proof {
                assert(doc_view(doc@)[i as int] == doc@[i as int]@);
                lemma_field_at_index(doc_view(doc@), name@, i as int);
            }
            match &doc[i].value {
                FieldValue::OffsetMap(v) => {
                    if offsets_are_unique(v) {
                        Ok(clone_regions(v))
                    } else {
                        Err(SnapshotError::SchemaError)
                    }
                },
                _ => Err(SnapshotError::SchemaError),
            }
        },
        None => Err(SnapshotError::SchemaError),
    }
}

/// Extract the required region-list field `name`.
fn take_region_list_field(doc: &Vec<Field>, name: &String) -> (r: Result<
    Vec<Region>,
    SnapshotError,
>)
    requires
        names_unique(doc_view(doc@)),
    ensures
        r is Ok <==> has_field(doc_view(doc@), name@) && field_at(doc_view(doc@), name@)
            is RegionList,
        r matches Ok(v) ==> v@ == regions_of(field_at(doc_view(doc@), name@)),
        r matches Err(e) ==> e is SchemaError,
{
    match find_field_index(doc, name) {
        Some(i) => {
            proof {
                assert(doc_view(doc@)[i as int] == doc@[i as int]@);
                lemma_field_at_index(doc_view(doc@), name@, i as int);
            }
            match &doc[i].value {
                FieldValue::RegionList(v) => Ok(clone_regions(v)),
                _ => Err(SnapshotError::SchemaError),
            }
        },
        None => Err(SnapshotError::SchemaError),
    }
}

/// Validate a load-snapshot wire document: reject any field outside the
/// recognized set and any repeated, missing or mistyped field, then reject a
/// non-empty overlay or working-set region list whose backing file path is
/// empty; `fadvise` defaults to the empty string.
pub fn parse_load_snapshot(doc: &Vec<Field>) -> (r: Result<LoadSnapshotParams, SnapshotError>)
    ensures
        load_result_view(r) == spec_parse_load(doc_view(doc@)),
        r matches Ok(p) ==> load_wf(p@),
{
    let ghost dv = doc_view(doc@);
    if !all_names_recognized_load(doc) {
        return Err(SnapshotError::SchemaError);
    }
    if !names_are_unique(doc) {
        return Err(SnapshotError::SchemaError);
    }
    let snapshot_path = match take_str_field(doc, &"snapshot_path".to_owned()) {
        Ok(s) => s,
        Err(e) => {
            return Err(e);
        },
    };
    let mem_file_path = match take_str_field(doc, &"mem_file_path".to_owned()) {
        Ok(s) => s,
        Err(e) => {
            return Err(e);
        },
    };
    let enable_diff_snapshots = match take_bool_field(doc, &"enable_diff_snapshots".to_owned()) {
        Ok(b) => b,
        Err(e) => {
            return Err(e);
        },
    };
    let enable_user_page_faults = match take_bool_field(
        doc,
        &"enable_user_page_faults".to_owned(),
    ) {
        Ok(b) => b,
        Err(e) => {
            return Err(e);
        },
    };
    let sock_file_path = match take_str_field(doc, &"sock_file_path".to_owned()) {
        Ok(s) => s,
        Err(e) => {
            return Err(e);
        },
    };
    let overlay_file_path = match take_str_field(doc, &"overlay_file_path".to_owned()) {
        Ok(s) => s,
        Err(e) => {
            return Err(e);
        },
    };
    let overlay_regions = match take_offset_map_field(doc, &"overlay_regions".to_owned()) {
        Ok(v) => v,
        Err(e) => {
            return Err(e);
        },
    };
    let ws_file_path = match take_str_field(doc, &"ws_file_path".to_owned()) {
        Ok(s) => s,
        Err(e) => {
            return Err(e);
        },
    };
    let ws_regions = match take_region_list_field(doc, &"ws_regions".to_owned()) {
        Ok(v) => v,
        Err(e) => {
            return Err(e);
        },
    };
    let load_ws = match take_bool_field(doc, &"load_ws".to_owned()) {
        Ok(b) => b,
        Err(e) => {
            return Err(e);
        },
    };
    let fadvise = match take_str_field_or_empty(doc, &"fadvise".to_owned()) {
        Ok(s) => s,
        Err(e) => {
            return Err(e);
        },
    };
    assert(load_schema_ok(dv));
    if overlay_regions.len() > 0 && overlay_file_path.as_str().is_empty() {
        return Err(SnapshotError::InvariantError);
    }
    if ws_regions.len() > 0 && ws_file_path.as_str().is_empty() {
        return Err(SnapshotError::InvariantError);
    }
    assert(load_invariants_ok(dv));
    let p = LoadSnapshotParams {
        snapshot_path,
        mem_file_path,
        enable_diff_snapshots,
        enable_user_page_faults,
        sock_file_path,
        overlay_file_path,
        overlay_regions,
        ws_file_path,
        ws_regions,
        load_ws,
        fadvise,
    };
    proof {
        assert(p@ =~= spec_parse_load(dv)->Ok_0);
    }
    Ok(p)
}

} // verus!
