use vstd::prelude::*;

verus! {

/// One contiguous range of guest-physical memory: where it starts and how
/// long it is.
#[derive(Clone, Copy, Debug, PartialEq, Eq, Structural)]
pub struct Region {
    pub offset: i64,
    pub length: i64,
}

/// The value carried by one field of a wire document.
#[derive(Clone, Debug, PartialEq)]
pub enum FieldValue {
    /// A string.
    Str(String),
    /// A boolean.
    Bool(bool),
    /// An explicit null.
    Null,
    /// A mapping from guest-physical offsets to lengths.
    OffsetMap(Vec<Region>),
    /// An ordered sequence of (offset, length) pairs.
    RegionList(Vec<Region>),
}

/// The mathematical image of a [`FieldValue`].
#[verifier::ext_equal]
pub enum FieldValueModel {
    /// A string.
    Str(Seq<char>),
    /// A boolean.
    Bool(bool),
    /// An explicit null.
    Null,
    /// A mapping from guest-physical offsets to lengths.
    OffsetMap(Seq<Region>),
    /// An ordered sequence of (offset, length) pairs.
    RegionList(Seq<Region>),
}

impl View for FieldValue {
    type V = FieldValueModel;

    open spec fn view(&self) -> FieldValueModel {
        match self {
            FieldValue::Str(s) => FieldValueModel::Str(s@),
            FieldValue::Bool(b) => FieldValueModel::Bool(*b),
            FieldValue::Null => FieldValueModel::Null,
            FieldValue::OffsetMap(v) => FieldValueModel::OffsetMap(v@),
            FieldValue::RegionList(v) => FieldValueModel::RegionList(v@),
        }
    }
}

/// One named field of a wire document.
#[derive(Clone, Debug, PartialEq)]
pub struct Field {
    /// The field's name as it appears on the wire.
    pub name: String,
    /// The field's value.
    pub value: FieldValue,
}

/// The mathematical image of a [`Field`].
#[verifier::ext_equal]
pub struct FieldModel {
    /// The field's name.
    pub name: Seq<char>,
    /// The field's value.
    pub value: FieldValueModel,
}

impl View for Field {
    type V = FieldModel;

    open spec fn view(&self) -> FieldModel {
        FieldModel { name: self.name@, value: self.value@ }
    }
}

/// The mathematical image of a whole wire document.
pub open spec fn doc_view(d: Seq<Field>) -> Seq<FieldModel> {
    d.map_values(|f: Field| f@)
}

/// No two fields of the document share a name.
pub open spec fn names_unique(d: Seq<FieldModel>) -> bool {
    forall|i: int, j: int| 0 <= i < j < d.len() ==> #[trigger] d[i].name != #[trigger] d[j].name
}

/// The document carries a field with the given name.
pub open spec fn has_field(d: Seq<FieldModel>, name: Seq<char>) -> bool {
    exists|i: int| 0 <= i < d.len() && #[trigger] d[i].name == name
}

/// The value of the field with the given name.
pub open spec fn field_at(d: Seq<FieldModel>, name: Seq<char>) -> FieldValueModel
    recommends
        has_field(d, name),
{
    d[choose|i: int| 0 <= i < d.len() && #[trigger] d[i].name == name].value
}

/// The string payload of a field value, the empty string for other shapes.
pub open spec fn str_of(v: FieldValueModel) -> Seq<char> {
    match v {
        FieldValueModel::Str(s) => s,
        _ => Seq::empty(),
    }
}

/// The boolean payload of a field value, false for other shapes.
pub open spec fn bool_of(v: FieldValueModel) -> bool {
    match v {
        FieldValueModel::Bool(b) => b,
        _ => false,
    }
}

/// The region payload of a field value, empty for other shapes.
pub open spec fn regions_of(v: FieldValueModel) -> Seq<Region> {
    match v {
        FieldValueModel::OffsetMap(rs) => rs,
        FieldValueModel::RegionList(rs) => rs,
        _ => Seq::empty(),
    }
}

/// No two regions of an offset mapping share an offset.
pub open spec fn unique_offsets(rs: Seq<Region>) -> bool {
    forall|i: int, j: int| 0 <= i < j < rs.len() ==> #[trigger] rs[i].offset != #[trigger] rs[j].offset
}

/// When the names of a document are unique, the field found at any index is
/// the field that `field_at` speaks of.
pub proof fn lemma_field_at_index(d: Seq<FieldModel>, name: Seq<char>, i: int)
    requires
        names_unique(d),
        0 <= i < d.len(),
        d[i].name == name,
    ensures
        has_field(d, name),
        field_at(d, name) == d[i].value,
{
    assert(has_field(d, name));
    let j = choose|j: int| 0 <= j < d.len() && #[trigger] d[j].name == name;
    if i < j {
        assert(d[i].name != d[j].name);
    } else if j < i {
        assert(d[j].name != d[i].name);
    }
}

/// Look up a field by name, returning the index of its first occurrence.
pub fn find_field_index(doc: &Vec<Field>, name: &String) -> (r: Option<usize>)
    ensures
        r matches Some(i) ==> i < doc.len() && doc@[i as int]@.name == name@,
        r is Some <==> has_field(doc_view(doc@), name@),
{
    let mut i: usize = 0;
    while i < doc.len()
        invariant
            i <= doc.len(),
            forall|k: int| 0 <= k < i ==> #[trigger] doc@[k]@.name != name@,
        decreases doc.len() - i,
    {
        if doc[i].name == *name {
            proof {
                assert(doc_view(doc@)[i as int].name == name@);
            }
            return Some(i);
        }
        i += 1;
    }
    proof {
        assert(!has_field(doc_view(doc@), name@)) by {
            if has_field(doc_view(doc@), name@) {
                let k = choose|k: int|
                    0 <= k < doc_view(doc@).len() && #[trigger] doc_view(doc@)[k].name == name@;
                assert(doc_view(doc@)[k] == doc@[k]@);
            }
        }
    }
    None
}

/// Decide whether the names of a document are pairwise distinct.
pub fn names_are_unique(doc: &Vec<Field>) -> (r: bool)
    ensures
        r == names_unique(doc_view(doc@)),
{
    let n = doc.len();
    let mut i: usize = 0;
    while i < n
        invariant
            n == doc.len(),
            i <= n,
            forall|p: int, q: int|
                0 <= p < q < n && p < i ==> #[trigger] doc@[p]@.name != #[trigger] doc@[q]@.name,
        decreases n - i,
    {
        let mut j: usize = i + 1;
        while j < n
            invariant
                n == doc.len(),
                i < n,
                i < j <= n,
                forall|q: int| i < q < j ==> doc@[i as int]@.name != #[trigger] doc@[q]@.name,
            decreases n - j,
        {
            if doc[i].name == doc[j].name {
                proof {
                    assert(doc_view(doc@)[i as int].name == doc_view(doc@)[j as int].name);
                }
                return false;
            }
            j += 1;
        }
        i += 1;
    }
    proof {
        assert forall|p: int, q: int|
            0 <= p < q < doc_view(doc@).len() implies #[trigger] doc_view(doc@)[p].name
            != #[trigger] doc_view(doc@)[q].name by {
            assert(doc_view(doc@)[p] == doc@[p]@);
            assert(doc_view(doc@)[q] == doc@[q]@);
        }
    }
    true
}

/// Decide whether the offsets of a region list are pairwise distinct.
pub fn offsets_are_unique(rs: &Vec<Region>) -> (r: bool)
    ensures
        r == unique_offsets(rs@),
{
    let n = rs.len();
    let mut i: usize = 0;
    while i < n
        invariant
            n == rs.len(),
            i <= n,
            forall|p: int, q: int|
                0 <= p < q < n && p < i ==> #[trigger] rs@[p].offset != #[trigger] rs@[q].offset,
        decreases n - i,
    {
        let mut j: usize = i + 1;
        while j < n
            invariant
                n == rs.len(),
                i < n,
                i < j <= n,
                forall|q: int| i < q < j ==> rs@[i as int].offset != #[trigger] rs@[q].offset,
            decreases n - j,
        {
            if rs[i].offset == rs[j].offset {
                return false;
            }
            j += 1;
        }
        i += 1;
    }
    true
}

/// Copy a region list.
pub fn clone_regions(rs: &Vec<Region>) -> (r: Vec<Region>)
    ensures
        r@ == rs@,
{
    let mut out: Vec<Region> = Vec::new();
    let mut i: usize = 0;
    while i < rs.len()
        invariant
            i <= rs.len(),
            out@ == rs@.take(i as int),
        decreases rs.len() - i,
    {
        out.push(rs[i]);
        proof {
            assert(out@ =~= rs@.take(i as int + 1));
        }
        i += 1;
    }
    proof {
        assert(out@ =~= rs@);
    }
    out
}

} // verus!
