use vstd::prelude::*;

use crate::error::SnapshotError;
use crate::parse::{
    all_create_fields, all_load_fields, create_field_name, create_schema_ok, load_field_name,
    load_invariants_ok, load_schema_ok, spec_parse_create, spec_parse_load,
};
use crate::lifecycle::{spec_parse_vm, spec_serialize_vm, vm_schema_ok, Vm};
use crate::request::{create_wf, load_wf, CreateModel, LoadModel};
use crate::serialize::{kind_name, spec_serialize_create, spec_serialize_load};
use crate::wire::{
    field_at, has_field, lemma_field_at_index, names_unique, regions_of, str_of, FieldModel,
    FieldValueModel,
};

verus! {

/// The serialized form of a create request is a well-shaped document whose
/// four fields carry the request's values.
proof fn lemma_serialized_create_doc(m: CreateModel)
    ensures
        names_unique(spec_serialize_create(m)),
        all_create_fields(spec_serialize_create(m)),
        has_field(spec_serialize_create(m), "snapshot_type"@),
        field_at(spec_serialize_create(m), "snapshot_type"@) == FieldValueModel::Str(
            kind_name(m.snapshot_type),
        ),
        has_field(spec_serialize_create(m), "snapshot_path"@),
        field_at(spec_serialize_create(m), "snapshot_path"@) == FieldValueModel::Str(
            m.snapshot_path,
        ),
        has_field(spec_serialize_create(m), "mem_file_path"@),
        field_at(spec_serialize_create(m), "mem_file_path"@) == FieldValueModel::Str(
            m.mem_file_path,
        ),
        has_field(spec_serialize_create(m), "version"@),
        field_at(spec_serialize_create(m), "version"@) == (match m.version {
            Some(s) => FieldValueModel::Str(s),
            None => FieldValueModel::Null,
        }),
{
    let d = spec_serialize_create(m);
    reveal_strlit("snapshot_type");
    reveal_strlit("snapshot_path");
    reveal_strlit("mem_file_path");
    reveal_strlit("version");
    assert("snapshot_type"@.len() == 13 && "snapshot_path"@.len() == 13 && "mem_file_path"@.len()
        == 13 && "version"@.len() == 7);
    assert("snapshot_type"@[9] == 't' && "snapshot_path"@[9] == 'p');
    assert("snapshot_type"@[0] == 's' && "snapshot_path"@[0] == 's' && "mem_file_path"@[0] == 'm');
    assert(d.len() == 4);
    assert(names_unique(d));
    assert forall|i: int| 0 <= i < d.len() implies create_field_name(#[trigger] d[i].name) by {
        assert(d[0].name == "snapshot_type"@ && d[1].name == "snapshot_path"@ && d[2].name
            == "mem_file_path"@ && d[3].name == "version"@);
    }
    lemma_field_at_index(d, "snapshot_type"@, 0);
    lemma_field_at_index(d, "snapshot_path"@, 1);
    lemma_field_at_index(d, "mem_file_path"@, 2);
    lemma_field_at_index(d, "version"@, 3);
}

/// Round trip of a valid create request: serializing it and validating the
/// result yields the request itself, so no information is lost on the wire.
pub proof fn lemma_create_round_trip(m: CreateModel)
    requires
        create_wf(m),
    ensures
        spec_parse_create(spec_serialize_create(m)) == Ok::<CreateModel, SnapshotError>(m),
{
    let d = spec_serialize_create(m);
    lemma_serialized_create_doc(m);
    reveal_strlit("Full");
    reveal_strlit("Diff");
    assert("Full"@[0] == 'F' && "Diff"@[0] == 'D');
    assert(create_schema_ok(d));
    assert(spec_parse_create(d)->Ok_0 =~= m);
}

/// Parsing a valid create-snapshot document and re-serializing the result
/// yields the original document modulo the applied defaults: every field the
/// document carried crosses unchanged, and an omitted snapshot type comes
/// back as the explicit `Full` default.
pub proof fn lemma_create_parse_then_serialize(d: Seq<FieldModel>, m: CreateModel)
    requires
        spec_parse_create(d) == Ok::<CreateModel, SnapshotError>(m),
    ensures
        forall|name: Seq<char>| #[trigger] has_field(d, name) ==> has_field(
            spec_serialize_create(m),
            name,
        ) && field_at(spec_serialize_create(m), name) == field_at(d, name),
        !has_field(d, "snapshot_type"@) ==> field_at(spec_serialize_create(m), "snapshot_type"@)
            == FieldValueModel::Str("Full"@),
        !has_field(d, "version"@) ==> field_at(spec_serialize_create(m), "version"@)
            == FieldValueModel::Null,
{
    let s = spec_serialize_create(m);
    lemma_serialized_create_doc(m);
    reveal_strlit("Full");
    reveal_strlit("Diff");
    assert("Full"@[0] == 'F' && "Diff"@[0] == 'D');
    assert forall|name: Seq<char>| #[trigger] has_field(d, name) implies has_field(s, name)
        && field_at(s, name) == field_at(d, name) by {
        let i = choose|i: int| 0 <= i < d.len() && #[trigger] d[i].name == name;
        assert(create_field_name(d[i].name));
        lemma_field_at_index(d, name, i);
        if name == "snapshot_type"@ {
            assert(field_at(s, name) == field_at(d, name));
        } else if name == "version"@ {
            assert(field_at(s, name) == field_at(d, name));
        }
    }
}

/// A document that does not name a snapshot type is given the `Full`
/// default by validation.
pub proof fn lemma_default_snapshot_type(d: Seq<FieldModel>)
    requires
        !has_field(d, "snapshot_type"@),
        spec_parse_create(d) is Ok,
    ensures
        spec_parse_create(d)->Ok_0.snapshot_type is Full,
{
}

/// A create-snapshot document with any field outside the recognized set is
/// rejected with a schema error.
pub proof fn lemma_unknown_field_rejected_create(d: Seq<FieldModel>, i: int)
    requires
        0 <= i < d.len(),
        !create_field_name(d[i].name),
    ensures
        spec_parse_create(d) == Err::<CreateModel, SnapshotError>(SnapshotError::SchemaError),
{
    assert(!all_create_fields(d));
}

/// Whatever document a create request came from, validation only ever hands
/// out a well-formed request.
pub proof fn lemma_parse_create_wf(d: Seq<FieldModel>)
    requires
        spec_parse_create(d) is Ok,
    ensures
        create_wf(spec_parse_create(d)->Ok_0),
{
}

/// The serialized form of a load request is a well-shaped document whose
/// eleven fields carry the request's values.
proof fn lemma_serialized_load_doc(m: LoadModel)
    ensures
        names_unique(spec_serialize_load(m)),
        all_load_fields(spec_serialize_load(m)),
        has_field(spec_serialize_load(m), "snapshot_path"@),
        field_at(spec_serialize_load(m), "snapshot_path"@) == FieldValueModel::Str(m.snapshot_path),
        has_field(spec_serialize_load(m), "mem_file_path"@),
        field_at(spec_serialize_load(m), "mem_file_path"@) == FieldValueModel::Str(m.mem_file_path),
        has_field(spec_serialize_load(m), "enable_diff_snapshots"@),
        field_at(spec_serialize_load(m), "enable_diff_snapshots"@) == FieldValueModel::Bool(
            m.enable_diff_snapshots,
        ),
        has_field(spec_serialize_load(m), "enable_user_page_faults"@),
        field_at(spec_serialize_load(m), "enable_user_page_faults"@) == FieldValueModel::Bool(
            m.enable_user_page_faults,
        ),
        has_field(spec_serialize_load(m), "sock_file_path"@),
        field_at(spec_serialize_load(m), "sock_file_path"@) == FieldValueModel::Str(
            m.sock_file_path,
        ),
        has_field(spec_serialize_load(m), "overlay_file_path"@),
        field_at(spec_serialize_load(m), "overlay_file_path"@) == FieldValueModel::Str(
            m.overlay_file_path,
        ),
        has_field(spec_serialize_load(m), "overlay_regions"@),
        field_at(spec_serialize_load(m), "overlay_regions"@) == FieldValueModel::OffsetMap(
            m.overlay_regions,
        ),
        has_field(spec_serialize_load(m), "ws_file_path"@),
        field_at(spec_serialize_load(m), "ws_file_path"@) == FieldValueModel::Str(m.ws_file_path),
        has_field(spec_serialize_load(m), "ws_regions"@),
        field_at(spec_serialize_load(m), "ws_regions"@) == FieldValueModel::RegionList(
            m.ws_regions,
        ),
        has_field(spec_serialize_load(m), "load_ws"@),
        field_at(spec_serialize_load(m), "load_ws"@) == FieldValueModel::Bool(m.load_ws),
        has_field(spec_serialize_load(m), "fadvise"@),
        field_at(spec_serialize_load(m), "fadvise"@) == FieldValueModel::Str(m.fadvise),
{
    let d = spec_serialize_load(m);
    reveal_strlit("snapshot_path");
    reveal_strlit("mem_file_path");
    reveal_strlit("enable_diff_snapshots");
    reveal_strlit("enable_user_page_faults");
    reveal_strlit("sock_file_path");
    reveal_strlit("overlay_file_path");
    reveal_strlit("overlay_regions");
    reveal_strlit("ws_file_path");
    reveal_strlit("ws_regions");
    reveal_strlit("load_ws");
    reveal_strlit("fadvise");
    assert("snapshot_path"@.len() == 13 && "mem_file_path"@.len() == 13
        && "enable_diff_snapshots"@.len() == 21 && "enable_user_page_faults"@.len() == 23
        && "sock_file_path"@.len() == 14 && "overlay_file_path"@.len() == 17
        && "overlay_regions"@.len() == 15 && "ws_file_path"@.len() == 12 && "ws_regions"@.len()
        == 10 && "load_ws"@.len() == 7 && "fadvise"@.len() == 7);
    assert("snapshot_path"@[0] == 's' && "mem_file_path"@[0] == 'm' && "load_ws"@[0] == 'l'
        && "fadvise"@[0] == 'f');
    assert(d.len() == 11);
    assert(names_unique(d));
    assert forall|i: int| 0 <= i < d.len() implies load_field_name(#[trigger] d[i].name) by {
        assert(d[0].name == "snapshot_path"@ && d[1].name == "mem_file_path"@ && d[2].name
            == "enable_diff_snapshots"@ && d[3].name == "enable_user_page_faults"@ && d[4].name
            == "sock_file_path"@ && d[5].name == "overlay_file_path"@ && d[6].name
            == "overlay_regions"@ && d[7].name == "ws_file_path"@ && d[8].name == "ws_regions"@
            && d[9].name == "load_ws"@ && d[10].name == "fadvise"@);
    }
    lemma_field_at_index(d, "snapshot_path"@, 0);
    lemma_field_at_index(d, "mem_file_path"@, 1);
    lemma_field_at_index(d, "enable_diff_snapshots"@, 2);
    lemma_field_at_index(d, "enable_user_page_faults"@, 3);
    lemma_field_at_index(d, "sock_file_path"@, 4);
    lemma_field_at_index(d, "overlay_file_path"@, 5);
    lemma_field_at_index(d, "overlay_regions"@, 6);
    lemma_field_at_index(d, "ws_file_path"@, 7);
    lemma_field_at_index(d, "ws_regions"@, 8);
    lemma_field_at_index(d, "load_ws"@, 9);
    lemma_field_at_index(d, "fadvise"@, 10);
}

/// Round trip of a valid load request: serializing it and validating the
/// result yields the request itself. In particular every inert field — the
/// socket path while page-fault delegation is disabled among them — crosses
/// the wire unchanged.
pub proof fn lemma_load_round_trip(m: LoadModel)
    requires
        load_wf(m),
    ensures
        spec_parse_load(spec_serialize_load(m)) == Ok::<LoadModel, SnapshotError>(m),
{
    let d = spec_serialize_load(m);
    lemma_serialized_load_doc(m);
    assert(load_schema_ok(d));
    assert(load_invariants_ok(d));
    assert(spec_parse_load(d)->Ok_0 =~= m);
}

/// Parsing a valid load-snapshot document and re-serializing the result
/// yields the original document modulo the applied default: every field the
/// document carried — the socket path while delegation is disabled among
/// them — crosses unchanged, and an omitted `fadvise` comes back as the
/// explicit empty string.
pub proof fn lemma_load_parse_then_serialize(d: Seq<FieldModel>, m: LoadModel)
    requires
        spec_parse_load(d) == Ok::<LoadModel, SnapshotError>(m),
    ensures
        forall|name: Seq<char>| #[trigger] has_field(d, name) ==> has_field(
            spec_serialize_load(m),
            name,
        ) && field_at(spec_serialize_load(m), name) == field_at(d, name),
        !has_field(d, "fadvise"@) ==> field_at(spec_serialize_load(m), "fadvise"@)
            == FieldValueModel::Str(Seq::empty()),
{
    let s = spec_serialize_load(m);
    lemma_serialized_load_doc(m);
    assert forall|name: Seq<char>| #[trigger] has_field(d, name) implies has_field(s, name)
        && field_at(s, name) == field_at(d, name) by {
        let i = choose|i: int| 0 <= i < d.len() && #[trigger] d[i].name == name;
        assert(load_field_name(d[i].name));
        lemma_field_at_index(d, name, i);
    }
}

/// Serialization writes the socket path out verbatim, whether or not
/// page-fault delegation is enabled.
pub proof fn lemma_sock_path_serialized_unchanged(m: LoadModel)
    ensures
        has_field(spec_serialize_load(m), "sock_file_path"@),
        field_at(spec_serialize_load(m), "sock_file_path"@) == FieldValueModel::Str(
            m.sock_file_path,
        ),
{
    lemma_serialized_load_doc(m);
}

/// A load-snapshot document with any field outside the recognized set is
/// rejected with a schema error.
pub proof fn lemma_unknown_field_rejected_load(d: Seq<FieldModel>, i: int)
    requires
        0 <= i < d.len(),
        !load_field_name(d[i].name),
    ensures
        spec_parse_load(d) == Err::<LoadModel, SnapshotError>(SnapshotError::SchemaError),
{
    assert(!all_load_fields(d));
}

/// A well-shaped load-snapshot document whose overlay mapping is non-empty
/// while its overlay file path is empty is rejected with an invariant error.
pub proof fn lemma_overlay_regions_need_path(d: Seq<FieldModel>)
    requires
        load_schema_ok(d),
        regions_of(field_at(d, "overlay_regions"@)).len() > 0,
        str_of(field_at(d, "overlay_file_path"@)).len() == 0,
    ensures
        spec_parse_load(d) == Err::<LoadModel, SnapshotError>(SnapshotError::InvariantError),
{
}

/// A well-shaped load-snapshot document whose working-set region list is
/// non-empty while its working-set file path is empty is rejected with an
/// invariant error.
pub proof fn lemma_ws_regions_need_path(d: Seq<FieldModel>)
    requires
        load_schema_ok(d),
        regions_of(field_at(d, "ws_regions"@)).len() > 0,
        str_of(field_at(d, "ws_file_path"@)).len() == 0,
    ensures
        spec_parse_load(d) == Err::<LoadModel, SnapshotError>(SnapshotError::InvariantError),
{
}

/// Round trip of a microVM state: serializing it and validating the result
/// yields the state itself.
pub proof fn lemma_vm_round_trip(vm: Vm)
    ensures
        spec_parse_vm(spec_serialize_vm(vm)) == Ok::<Vm, SnapshotError>(vm),
{
    let d = spec_serialize_vm(vm);
    reveal_strlit("state");
    reveal_strlit("Paused");
    reveal_strlit("Resumed");
    assert("Paused"@.len() == 6 && "Resumed"@.len() == 7);
    assert(d.len() == 1 && d[0].name == "state"@);
    assert forall|i: int| 0 <= i < d.len() implies #[trigger] d[i].name == "state"@ by {}
    lemma_field_at_index(d, "state"@, 0);
    assert(vm_schema_ok(d));
}

/// Whatever document a load request came from, validation only ever hands
/// out a well-formed request.
pub proof fn lemma_parse_load_wf(d: Seq<FieldModel>)
    requires
        spec_parse_load(d) is Ok,
    ensures
        load_wf(spec_parse_load(d)->Ok_0),
{
}

} // verus!

