use vstd::prelude::*;

use crate::error::SnapshotError;
use crate::wire::{
    doc_view, field_at, find_field_index, has_field, lemma_field_at_index, names_are_unique,
    names_unique, Field, FieldModel, FieldValue, FieldValueModel,
};

verus! {

/// The lifecycle states a microVM can occupy in the snapshotting context.
#[derive(Clone, Copy, Debug, PartialEq, Eq, Structural)]
pub enum VmState {
    /// The microVM is paused: a snapshot of it can be created.
    Paused,
    /// The microVM is running; it must be paused before a snapshot is
    /// created.
    Resumed,
}

/// The microVM state that the control plane keeps in the snapshotting
/// context.
#[derive(Clone, Copy, Debug, PartialEq, Eq, Structural)]
pub struct Vm {
    /// The current lifecycle state.
    pub state: VmState,
}

impl Vm {
    /// Gate a create-snapshot operation on the current lifecycle state:
    /// legal only while the microVM is paused, and never a state change.
    pub fn request_create_snapshot(&mut self) -> (r: Result<(), SnapshotError>)
        ensures
            *final(self) == *old(self),
            r == (if old(self).state is Paused {
                Ok::<(), SnapshotError>(())
            } else {
                Err::<(), SnapshotError>(SnapshotError::StateConflictError)
            }),
    {
        match self.state {
            VmState::Paused => Ok(()),
            VmState::Resumed => Err(SnapshotError::StateConflictError),
        }
    }

    /// Record the completion of a load-snapshot operation: whatever state
    /// came before, the microVM is paused afterwards.
    pub fn complete_load_snapshot(&mut self)
        ensures
            final(self).state is Paused,
    {
        self.state = VmState::Paused;
    }

    /// Record the completion of an explicit resume operation.
    pub fn complete_resume(&mut self)
        ensures
            final(self).state is Resumed,
    {
        self.state = VmState::Resumed;
    }
}

/// The wire name of a lifecycle state.
pub open spec fn state_name(s: VmState) -> Seq<char> {
    match s {
        VmState::Paused => "Paused"@,
        VmState::Resumed => "Resumed"@,
    }
}

/// The microVM state document carries exactly one field, `state`, with one
/// of the two state names.
pub open spec fn vm_schema_ok(d: Seq<FieldModel>) -> bool {
    &&& forall|i: int| 0 <= i < d.len() ==> #[trigger] d[i].name == "state"@
    &&& names_unique(d)
    &&& has_field(d, "state"@)
    &&& {
        ||| field_at(d, "state"@) == FieldValueModel::Str("Paused"@)
        ||| field_at(d, "state"@) == FieldValueModel::Str("Resumed"@)
    }
}

/// What validating a microVM state document yields.
pub open spec fn spec_parse_vm(d: Seq<FieldModel>) -> Result<Vm, SnapshotError> {
    if !vm_schema_ok(d) {
        Err(SnapshotError::SchemaError)
    } else if field_at(d, "state"@) == FieldValueModel::Str("Resumed"@) {
        Ok(Vm { state: VmState::Resumed })
    } else {
        Ok(Vm { state: VmState::Paused })
    }
}

/// The wire document of a microVM state.
pub open spec fn spec_serialize_vm(vm: Vm) -> Seq<FieldModel> {
    seq![FieldModel { name: "state"@, value: FieldValueModel::Str(state_name(vm.state)) }]
}

/// Validate a microVM state wire document: a single `state` field naming
/// one of the two lifecycle states, with unknown fields rejected.
pub fn parse_vm_state(doc: &Vec<Field>) -> (r: Result<Vm, SnapshotError>)
    ensures
        r == spec_parse_vm(doc_view(doc@)),
{
    let key = "state".to_owned();
    let mut i: usize = 0;
    while i < doc.len()
        invariant
            i <= doc.len(),
            key@ == "state"@,
            forall|k: int| 0 <= k < i ==> #[trigger] doc@[k]@.name == "state"@,
        decreases doc.len() - i,
    {
        if !(doc[i].name == key) {
            proof {
                assert(doc_view(doc@)[i as int] == doc@[i as int]@);
                assert(doc_view(doc@)[i as int].name != "state"@);
            }
            return Err(SnapshotError::SchemaError);
        }
        i += 1;
    }
    proof {
        assert forall|k: int| 0 <= k < doc_view(doc@).len() implies #[trigger] doc_view(
            doc@,
        )[k].name == "state"@ by {
            assert(doc_view(doc@)[k] == doc@[k]@);
        }
    }
    if !names_are_unique(doc) {
        return Err(SnapshotError::SchemaError);
    }
    match find_field_index(doc, &key) {
        Some(i) => {
            proof {
                assert(doc_view(doc@)[i as int] == doc@[i as int]@);
                lemma_field_at_index(doc_view(doc@), "state"@, i as int);
                reveal_strlit("Paused");
                reveal_strlit("Resumed");
                assert("Paused"@.len() == 6 && "Resumed"@.len() == 7);
            }
            match &doc[i].value {
                FieldValue::Str(s) => {
                    if *s == "Paused".to_owned() {
                        Ok(Vm { state: VmState::Paused })
                    } else if *s == "Resumed".to_owned() {
                        Ok(Vm { state: VmState::Resumed })
                    } else {
                        Err(SnapshotError::SchemaError)
                    }
                },
                _ => Err(SnapshotError::SchemaError),
            }
        },
        None => Err(SnapshotError::SchemaError),
    }
}

/// Write a microVM state back to the wire.
pub fn serialize_vm_state(vm: &Vm) -> (d: Vec<Field>)
    ensures
        doc_view(d@) == spec_serialize_vm(*vm),
{
    let name = match vm.state {
        VmState::Paused => "Paused".to_owned(),
        VmState::Resumed => "Resumed".to_owned(),
    };
    let mut d: Vec<Field> = Vec::new();
    d.push(Field { name: "state".to_owned(), value: FieldValue::Str(name) });
    proof {
        assert(doc_view(d@) =~~= spec_serialize_vm(*vm));
    }
    d
}

} // verus!
