//! The generic structured value: a JSON-like form every pipeline result is
//! projected into before it is returned, because downstream serializers
//! cannot represent 128-bit integers natively. The enrichment passes operate
//! on this form.

use vstd::prelude::*;
use vstd::string::{StrSliceExecFns, StringExecFns};

verus! {

broadcast use vstd::std_specs::vec::group_vec_axioms;

/// The mathematical shape of a structured value, with text as character
/// sequences.
pub enum ValueModel {
    Null,
    Bool(bool),
    UInt(u64),
    Str(Seq<char>),
    Array(Seq<ValueModel>),
    Object(Seq<(Seq<char>, ValueModel)>),
}

/// A JSON-like structured value: scalars, text, arrays, and objects with
/// ordered fields.
pub enum StructuredValue {
    Null,
    Bool(bool),
    UInt(u64),
    Str(String),
    Array(Vec<StructuredValue>),
    Object(Vec<(String, StructuredValue)>),
}

/// The model of one structured value.
pub open spec fn value_view(v: &StructuredValue) -> ValueModel
    decreases v,
{
    match v {
        StructuredValue::Null => ValueModel::Null,
        StructuredValue::Bool(b) => ValueModel::Bool(*b),
        StructuredValue::UInt(n) => ValueModel::UInt(*n),
        StructuredValue::Str(s) => ValueModel::Str(s@),
        StructuredValue::Array(items) => ValueModel::Array(values_view(items@)),
        StructuredValue::Object(fields) => ValueModel::Object(fields_view(fields@)),
    }
}

/// The models of a sequence of structured values, in order.
pub open spec fn values_view(s: Seq<StructuredValue>) -> Seq<ValueModel>
    decreases s,
{
    if s.len() == 0 {
        Seq::empty()
    } else {
        seq![value_view(&s[0])] + values_view(s.drop_first())
    }
}

/// The models of an object's fields, in order.
pub open spec fn fields_view(s: Seq<(String, StructuredValue)>) -> Seq<(Seq<char>, ValueModel)>
    decreases s,
{
    if s.len() == 0 {
        Seq::empty()
    } else {
        seq![(s[0].0@, value_view(&s[0].1))] + fields_view(s.drop_first())
    }
}

impl View for StructuredValue {
    type V = ValueModel;

    open spec fn view(&self) -> ValueModel {
        value_view(self)
    }
}

/// Pointwise reading of `values_view`: element `i` of the model is the model
/// of element `i`.
pub proof fn lemma_values_view(s: Seq<StructuredValue>)
    ensures
        values_view(s).len() == s.len(),
        forall|i: int| 0 <= i < s.len() ==> values_view(s)[i] == value_view(&s[i]),
    decreases s.len(),
{
    if s.len() > 0 {
        lemma_values_view(s.drop_first());
    }
}

/// Pointwise reading of `fields_view`: field `i` of the model carries the
/// view of key `i` and the model of value `i`.
pub proof fn lemma_fields_view(s: Seq<(String, StructuredValue)>)
    ensures
        fields_view(s).len() == s.len(),
        forall|i: int|
            0 <= i < s.len() ==> fields_view(s)[i] == (s[i].0@, value_view(&s[i].1)),
    decreases s.len(),
{
    if s.len() > 0 {
        lemma_fields_view(s.drop_first());
    }
}

/// The value under the first field named `key`, if any.
pub open spec fn model_obj_get(fs: Seq<(Seq<char>, ValueModel)>, key: Seq<char>) -> Option<
    ValueModel,
>
    decreases fs.len(),
{
    if fs.len() == 0 {
        None
    } else if fs[0].0 == key {
        Some(fs[0].1)
    } else {
        model_obj_get(fs.drop_first(), key)
    }
}

/// The fields with the first field named `key` set to `val`, or with
/// `(key, val)` appended where no field bears that name.
pub open spec fn model_obj_set(
    fs: Seq<(Seq<char>, ValueModel)>,
    key: Seq<char>,
    val: ValueModel,
) -> Seq<(Seq<char>, ValueModel)>
    decreases fs.len(),
{
    if fs.len() == 0 {
        seq![(key, val)]
    } else if fs[0].0 == key {
        seq![(fs[0].0, val)] + fs.drop_first()
    } else {
        seq![fs[0]] + model_obj_set(fs.drop_first(), key, val)
    }
}

/// A found first match determines `model_obj_get`.
pub proof fn lemma_model_obj_get_found(fs: Seq<(Seq<char>, ValueModel)>, key: Seq<char>, i: int)
    requires
        0 <= i < fs.len(),
        fs[i].0 == key,
        forall|j: int| 0 <= j < i ==> fs[j].0 != key,
    ensures
        model_obj_get(fs, key) == Some(fs[i].1),
    decreases i,
{
    if i > 0 {
        lemma_model_obj_get_found(fs.drop_first(), key, i - 1);
    }
}

/// No match anywhere determines `model_obj_get`.
pub proof fn lemma_model_obj_get_absent(fs: Seq<(Seq<char>, ValueModel)>, key: Seq<char>)
    requires
        forall|j: int| 0 <= j < fs.len() ==> fs[j].0 != key,
    ensures
        model_obj_get(fs, key) is None,
    decreases fs.len(),
{
    if fs.len() > 0 {
        lemma_model_obj_get_absent(fs.drop_first(), key);
    }
}

/// A found first match determines `model_obj_set` as an in-place update.
pub proof fn lemma_model_obj_set_found(
    fs: Seq<(Seq<char>, ValueModel)>,
    key: Seq<char>,
    val: ValueModel,
    i: int,
)
    requires
        0 <= i < fs.len(),
        fs[i].0 == key,
        forall|j: int| 0 <= j < i ==> fs[j].0 != key,
    ensures
        model_obj_set(fs, key, val) =~= fs.update(i, (fs[i].0, val)),
    decreases i,
{
    if i > 0 {
        lemma_model_obj_set_found(fs.drop_first(), key, val, i - 1);
        assert(model_obj_set(fs, key, val) =~= seq![fs[0]] + fs.drop_first().update(
            i - 1,
            (fs[i].0, val),
        ));
    }
}

/// No match anywhere determines `model_obj_set` as an append.
pub proof fn lemma_model_obj_set_absent(
    fs: Seq<(Seq<char>, ValueModel)>,
    key: Seq<char>,
    val: ValueModel,
)
    requires
        forall|j: int| 0 <= j < fs.len() ==> fs[j].0 != key,
    ensures
        model_obj_set(fs, key, val) =~= fs.push((key, val)),
    decreases fs.len(),
{
    if fs.len() > 0 {
        lemma_model_obj_set_absent(fs.drop_first(), key, val);
    }
}

/// Character-for-character string equality.
pub fn str_eq(a: &str, b: &str) -> (r: bool)
    ensures
        r == (a@ == b@),
{
    let n = a.unicode_len();
    if n != b.unicode_len() {
        return false;
    }
    let mut i: usize = 0;
    while i < n
        invariant
            n == a@.len(),
            n == b@.len(),
            0 <= i <= n,
            forall|j: int| 0 <= j < i ==> a@[j] == b@[j],
        decreases n - i,
    {
        if a.get_char(i) != b.get_char(i) {
            return false;
        }
        i = i + 1;
    }
    proof {
        assert(a@ =~= b@);
    }
    true
}

/// The index of the first field named `key`, if any.
pub fn obj_find(fields: &Vec<(String, StructuredValue)>, key: &str) -> (r: Option<usize>)
    ensures
        r matches Some(i) ==> i < fields@.len() && fields@[i as int].0@ == key@ && (forall|j: int|
            0 <= j < i ==> fields@[j].0@ != key@),
        r is None ==> forall|j: int| 0 <= j < fields@.len() ==> fields@[j].0@ != key@,
{
    let n = fields.len();
    let mut i: usize = 0;
    while i < n
        invariant
            n == fields@.len(),
            0 <= i <= n,
            forall|j: int| 0 <= j < i ==> fields@[j].0@ != key@,
        decreases n - i,
    {
        if str_eq(fields[i].0.as_str(), key) {
            return Some(i);
        }
        i = i + 1;
    }
    None
}

/// Looks up the value under the first field named `key`.
pub fn obj_get<'a>(fields: &'a Vec<(String, StructuredValue)>, key: &str) -> (r: Option<
    &'a StructuredValue,
>)
    ensures
        r matches Some(v) ==> model_obj_get(fields_view(fields@), key@) == Some(value_view(v)),
        r is None ==> model_obj_get(fields_view(fields@), key@) is None,
{
    proof {
        lemma_fields_view(fields@);
    }
    match obj_find(fields, key) {
        Some(i) => {
            proof {
                lemma_model_obj_get_found(fields_view(fields@), key@, i as int);
            }
            Some(&fields[i].1)
        },
        None => {
            proof {
                lemma_model_obj_get_absent(fields_view(fields@), key@);
            }
            None
        },
    }
}

/// Sets the first field named `key` to `val`, or appends a field where none
/// bears that name.
pub fn obj_set(
    fields: Vec<(String, StructuredValue)>,
    key: &str,
    val: StructuredValue,
) -> (r: Vec<(String, StructuredValue)>)
    ensures
        fields_view(r@) == model_obj_set(fields_view(fields@), key@, value_view(&val)),
{
    proof {
        lemma_fields_view(fields@);
    }
    let ghost fs0 = fields@;
    let mut fields = fields;
    match obj_find(&fields, key) {
        Some(i) => {
            let (k, _) = fields.remove(i);
            fields.insert(i, (k, val));
            proof {
                lemma_model_obj_set_found(fields_view(fs0), key@, value_view(&val), i as int);
                assert(fields@ =~= fs0.update(i as int, (fs0[i as int].0, val)));
                lemma_fields_view(fields@);
                assert(fields_view(fields@) =~= model_obj_set(
                    fields_view(fs0),
                    key@,
                    value_view(&val),
                ));
            }
            fields
        },
        None => {
            let k = String::from_str(key);
            fields.push((k, val));
            proof {
                lemma_model_obj_set_absent(fields_view(fs0), key@, value_view(&val));
                lemma_fields_view(fields@);
                assert(fields_view(fields@) =~= model_obj_set(
                    fields_view(fs0),
                    key@,
                    value_view(&val),
                ));
            }
            fields
        },
    }
}

} // verus!
