//! What the generated conversions do to values: a value model of the record
//! and of `into_<view>`, `as_<view>_ref` and `as_<view>_mut`.
//!
//! This model stands beside the emitted text, not on it: nothing here reads
//! `assign_text`, so the laws below hold of the model. It follows the shape
//! that the generator emits for every field and every form: a field without
//! pattern is the record's value; under a pattern `P`, `if let P(x) = ...`
//! yields the bound value or returns `None`; a validation `if !(e) { return
//! None; }` runs on a shared borrow of that value and leaves it unchanged;
//! the mutable form borrows the record field (or the value its pattern binds)
//! exclusively, so a write through it lands in the record.
//!
//! Validation predicates are expressions of the host program; a conversion
//! here takes their results on the extracted values (`verdicts`, one per view
//! field, read only where the field has a validation).
use vstd::prelude::*;
use crate::model::BaseRecord;
use crate::resolve::{field_index, find_field, record_fields, BuilderViewField, ViewStructBuilder};

verus! {

/// A field value, as far as the conversions look into it.
#[derive(Debug)]
pub enum Value {
    Int(i64),
    Bool(bool),
    Text(String),
    /// Any other value, carried as written.
    Opaque(String),
    /// A value of an enum variant, such as `Some(x)`, `None` or `Shape::Circle(r)`.
    Variant(VariantValue),
}

#[derive(Debug)]
pub struct VariantValue {
    /// The identifier of the variant (the last segment of its path).
    pub name: String,
    /// The single value it holds, if any.
    pub payload: Option<Box<Value>>,
}

/// A value of the base record: one value per field, in declaration order.
#[derive(Debug)]
pub struct RecordValue {
    pub fields: Vec<Value>,
}

impl Value {
    /// A deep copy.
    pub fn duplicate(&self) -> (r: Value)
        ensures
            r == *self,
        decreases self,
    {
        match self {
            Value::Int(i) => Value::Int(*i),
            Value::Bool(b) => Value::Bool(*b),
            Value::Text(s) => Value::Text(s.clone()),
            Value::Opaque(s) => Value::Opaque(s.clone()),
            Value::Variant(vv) => {
                let payload = match &vv.payload {
                    Some(x) => {
                        let y = x.duplicate();
                        Some(Box::new(y))
                    },
                    None => None,
                };
                Value::Variant(VariantValue { name: vv.name.clone(), payload })
            },
        }
    }
}

/// The value a field of a view takes from the record's value `v`: `v`
/// itself without a pattern; under a pattern, the value bound by it when
/// `v` is that variant holding a value.
pub open spec fn spec_extract(v: Value, f: BuilderViewField) -> Option<Value> {
    match f.pattern_to_match {
        None => Some(v),
        Some(p) => match v {
            Value::Variant(vv) => if vv.name@ == p.last@ {
                match vv.payload {
                    Some(x) => Some(*x),
                    None => None,
                }
            } else {
                None
            },
            _ => None,
        },
    }
}

/// `vals` holds one value per field of the record.
pub open spec fn fits(vals: Seq<Value>, rec: BaseRecord) -> bool {
    &&& rec.shape is Named
    &&& vals.len() == record_fields(rec).len()
}

/// Every field of the view names a field of the record.
pub open spec fn view_of(view: ViewStructBuilder, rec: BaseRecord) -> bool {
    forall|k: int|
        0 <= k < view.builder_fields@.len() ==> field_index(record_fields(rec), (#[trigger] view.builder_fields@[k]).name@) is Some
}

/// The record's value of the field named `name`.
pub open spec fn field_value(vals: Seq<Value>, rec: BaseRecord, name: Seq<char>) -> Option<Value> {
    match field_index(record_fields(rec), name) {
        Some(i) => Some(vals[i]),
        None => None,
    }
}

/// What a conversion puts in view field `f`, or `None` where the pattern
/// does not match or the validation (with result `verdict`) fails.
pub open spec fn field_out(vals: Seq<Value>, rec: BaseRecord, f: BuilderViewField, verdict: bool) -> Option<Value> {
    match field_value(vals, rec, f.name@) {
        Some(v) => match spec_extract(v, f) {
            Some(x) => if f.validation is None || verdict {
                Some(x)
            } else {
                None
            },
            None => None,
        },
        None => None,
    }
}

/// Every field of the view can be extracted and passes its validation.
pub open spec fn converts(vals: Seq<Value>, rec: BaseRecord, view: ViewStructBuilder, verdicts: Seq<bool>) -> bool {
    forall|k: int|
        0 <= k < view.builder_fields@.len() ==> field_out(vals, rec, #[trigger] view.builder_fields@[k], verdicts[k]) is Some
}

/// The field values of the view derived from the record, or `None` where
/// the conversion reports no value.
pub open spec fn spec_convert(vals: Seq<Value>, rec: BaseRecord, view: ViewStructBuilder, verdicts: Seq<bool>) -> Option<
    Seq<Value>,
> {
    if converts(vals, rec, view, verdicts) {
        Some(
            Seq::new(
                view.builder_fields@.len(),
                |k: int| field_out(vals, rec, view.builder_fields@[k], verdicts[k]).unwrap(),
            ),
        )
    } else {
        None
    }
}

/// The record's values after `new` is written through view field `f`:
/// into the record field itself, or into the value its pattern binds.
pub open spec fn spec_write(vals: Seq<Value>, rec: BaseRecord, f: BuilderViewField, new: Value) -> Seq<Value> {
    let i = field_index(record_fields(rec), f.name@).unwrap();
    match f.pattern_to_match {
        None => vals.update(i, new),
        Some(_) => match vals[i] {
            Value::Variant(vv) => vals.update(
                i,
                Value::Variant(VariantValue { name: vv.name, payload: Some(Box::new(new)) }),
            ),
            _ => vals,
        },
    }
}

pub open spec fn deref_values(s: Seq<&Value>) -> Seq<Value> {
    s.map_values(|x: &Value| *x)
}

fn extract_ref<'a>(v: &'a Value, f: &BuilderViewField) -> (r: Option<&'a Value>)
    ensures
        match r {
            Some(x) => spec_extract(*v, *f) == Some(*x),
            None => spec_extract(*v, *f) is None,
        },
{
    match &f.pattern_to_match {
        None => Some(v),
        Some(p) => match v {
            Value::Variant(vv) => {
                if vv.name == p.last {
                    match &vv.payload {
                        Some(x) => Some(&**x),
                        None => None,
                    }
                } else {
                    None
                }
            },
            _ => None,
        },
    }
}

fn field_out_ref<'a>(rv: &'a RecordValue, rec: &BaseRecord, f: &BuilderViewField, verdict: bool) -> (r: Option<&'a Value>)
    requires
        fits(rv.fields@, *rec),
    ensures
        match r {
            Some(x) => field_out(rv.fields@, *rec, *f, verdict) == Some(*x),
            None => field_out(rv.fields@, *rec, *f, verdict) is None,
        },
{
    let fields = match &rec.shape {
        crate::model::RecordShape::Named(fs) => fs,
        _ => {
            return None;
        },
    };
    match find_field(fields, &f.name) {
        Some(i) => match extract_ref(&rv.fields[i], f) {
            Some(x) => if f.validation.is_none() || verdict {
                Some(x)
            } else {
                None
            },
            None => None,
        },
        None => None,
    }
}

/// `as_<view>_ref`: borrows the value of each field of the view from the
/// record, or reports no value.
pub fn as_view_ref<'a>(rv: &'a RecordValue, rec: &BaseRecord, view: &ViewStructBuilder, verdicts: &Vec<bool>) -> (r:
    Option<Vec<&'a Value>>)
    requires
        fits(rv.fields@, *rec),
        verdicts@.len() == view.builder_fields@.len(),
    ensures
        match r {
            Some(vs) => spec_convert(rv.fields@, *rec, *view, verdicts@) == Some(deref_values(vs@)),
            None => spec_convert(rv.fields@, *rec, *view, verdicts@) is None,
        },
{
    let fs = &view.builder_fields;
    let mut out: Vec<&'a Value> = Vec::new();
    let mut k: usize = 0;
    while k < fs.len()
        invariant
            k <= fs.len(),
            fs@ == view.builder_fields@,
            fits(rv.fields@, *rec),
            verdicts@.len() == fs@.len(),
            out@.len() == k,
            forall|m: int|
                0 <= m < k ==> field_out(rv.fields@, *rec, fs@[m], verdicts@[m]) == Some(*(#[trigger] out@[m])),
        decreases fs.len() - k,
    {
        match field_out_ref(rv, rec, &fs[k], verdicts[k]) {
            Some(x) => out.push(x),
            None => {
                assert(field_out(rv.fields@, *rec, view.builder_fields@[k as int], verdicts@[k as int]) is None);
                assert(!converts(rv.fields@, *rec, *view, verdicts@));
                return None;
            },
        }
        k += 1;
    }
    assert forall|m: int| 0 <= m < view.builder_fields@.len() implies field_out(
        rv.fields@,
        *rec,
        #[trigger] view.builder_fields@[m],
        verdicts@[m],
    ) is Some by {
        assert(field_out(rv.fields@, *rec, fs@[m], verdicts@[m]) == Some(*out@[m]));
    }
    assert(converts(rv.fields@, *rec, *view, verdicts@));
    assert(deref_values(out@) =~= spec_convert(rv.fields@, *rec, *view, verdicts@).unwrap());
    Some(out)
}

/// `into_<view>`: takes the value of each field of the view out of the
/// record, or reports no value.
pub fn into_view(rv: RecordValue, rec: &BaseRecord, view: &ViewStructBuilder, verdicts: &Vec<bool>) -> (r: Option<
    Vec<Value>,
>)
    requires
        fits(rv.fields@, *rec),
        verdicts@.len() == view.builder_fields@.len(),
    ensures
        match r {
            Some(vs) => spec_convert(rv.fields@, *rec, *view, verdicts@) == Some(vs@),
            None => spec_convert(rv.fields@, *rec, *view, verdicts@) is None,
        },
{
    match as_view_ref(&rv, rec, view, verdicts) {
        Some(refs) => {
            let mut out: Vec<Value> = Vec::new();
            let mut k: usize = 0;
            while k < refs.len()
                invariant
                    k <= refs.len(),
                    out@ =~= deref_values(refs@).subrange(0, k as int),
                decreases refs.len() - k,
            {
                out.push(refs[k].duplicate());
                k += 1;
            }
            assert(out@ =~= deref_values(refs@));
            Some(out)
        },
        None => None,
    }
}

/// `as_<view>_mut` followed by a write of `new` into field `k` of the
/// derived view; returns whether the view could be derived. The write lands
/// in the record.
pub fn write_through_view(
    rv: &mut RecordValue,
    rec: &BaseRecord,
    view: &ViewStructBuilder,
    verdicts: &Vec<bool>,
    k: usize,
    new: Value,
) -> (r: bool)
    requires
        fits(old(rv).fields@, *rec),
        verdicts@.len() == view.builder_fields@.len(),
        k < view.builder_fields@.len(),
    ensures
        r == converts(old(rv).fields@, *rec, *view, verdicts@),
        r ==> final(rv).fields@ == spec_write(old(rv).fields@, *rec, view.builder_fields@[k as int], new),
        !r ==> final(rv).fields@ == old(rv).fields@,
{
    let ok = match as_view_ref(rv, rec, view, verdicts) {
        Some(_) => true,
        None => false,
    };
    if !ok {
        return false;
    }
    let f = &view.builder_fields[k];
    assert(field_out(rv.fields@, *rec, view.builder_fields@[k as int], verdicts@[k as int]) is Some);
    let fields = match &rec.shape {
        crate::model::RecordShape::Named(fs) => fs,
        _ => {
            return true;
        },
    };
    let i = match find_field(fields, &f.name) {
        Some(i) => i,
        None => {
            return true;
        },
    };
    match &f.pattern_to_match {
        None => {
            rv.fields[i] = new;
        },
        Some(_) => {
            let name = match &rv.fields[i] {
                Value::Variant(vv) => vv.name.clone(),
                _ => {
                    return true;
                },
            };
            rv.fields[i] = Value::Variant(VariantValue { name, payload: Some(Box::new(new)) });
        },
    }
    true
}

/// A view without patterns or validations converts every value of the
/// record, and each of its fields holds the record's value of that field
/// unchanged.
pub proof fn law_plain_view_converts(
    vals: Seq<Value>,
    rec: BaseRecord,
    view: ViewStructBuilder,
    verdicts: Seq<bool>,
)
    requires
        fits(vals, rec),
        view_of(view, rec),
        verdicts.len() == view.builder_fields@.len(),
        forall|k: int|
            0 <= k < view.builder_fields@.len() ==> (#[trigger] view.builder_fields@[k]).pattern_to_match is None
                && view.builder_fields@[k].validation is None,
    ensures
        spec_convert(vals, rec, view, verdicts) is Some,
        forall|k: int|
            0 <= k < view.builder_fields@.len() ==> spec_convert(vals, rec, view, verdicts).unwrap()[k] == field_value(
                vals,
                rec,
                (#[trigger] view.builder_fields@[k]).name@,
            ).unwrap(),
{
    assert(converts(vals, rec, view, verdicts));
}

/// Under a pattern, a conversion reports no value exactly when the record's
/// value of the field does not match the pattern, and otherwise the field
/// holds the value the pattern binds (the view's other fields converting).
pub proof fn law_pattern_field(
    vals: Seq<Value>,
    rec: BaseRecord,
    view: ViewStructBuilder,
    verdicts: Seq<bool>,
    k: int,
)
    requires
        fits(vals, rec),
        view_of(view, rec),
        verdicts.len() == view.builder_fields@.len(),
        0 <= k < view.builder_fields@.len(),
        view.builder_fields@[k].pattern_to_match is Some,
        view.builder_fields@[k].validation is None,
        forall|j: int|
            0 <= j < view.builder_fields@.len() && j != k ==> field_out(
                vals,
                rec,
                #[trigger] view.builder_fields@[j],
                verdicts[j],
            ) is Some,
    ensures
        spec_convert(vals, rec, view, verdicts) is None <==> spec_extract(
            field_value(vals, rec, view.builder_fields@[k].name@).unwrap(),
            view.builder_fields@[k],
        ) is None,
        spec_convert(vals, rec, view, verdicts) is Some ==> spec_convert(vals, rec, view, verdicts).unwrap()[k]
            == spec_extract(field_value(vals, rec, view.builder_fields@[k].name@).unwrap(), view.builder_fields@[k]).unwrap(),
{
    assert(view_of(view, rec) ==> field_index(record_fields(rec), view.builder_fields@[k].name@) is Some);
    if field_out(vals, rec, view.builder_fields@[k], verdicts[k]) is Some {
        assert(converts(vals, rec, view, verdicts));
    }
}

/// Under a validation, a conversion reports no value exactly when the
/// predicate is false on the extracted value, and a true predicate leaves
/// that value as it is (the view's other fields converting).
pub proof fn law_validated_field(
    vals: Seq<Value>,
    rec: BaseRecord,
    view: ViewStructBuilder,
    verdicts: Seq<bool>,
    k: int,
)
    requires
        fits(vals, rec),
        view_of(view, rec),
        verdicts.len() == view.builder_fields@.len(),
        0 <= k < view.builder_fields@.len(),
        view.builder_fields@[k].validation is Some,
        spec_extract(field_value(vals, rec, view.builder_fields@[k].name@).unwrap(), view.builder_fields@[k]) is Some,
        forall|j: int|
            0 <= j < view.builder_fields@.len() && j != k ==> field_out(
                vals,
                rec,
                #[trigger] view.builder_fields@[j],
                verdicts[j],
            ) is Some,
    ensures
        spec_convert(vals, rec, view, verdicts) is None <==> !verdicts[k],
        spec_convert(vals, rec, view, verdicts) is Some ==> spec_convert(vals, rec, view, verdicts).unwrap()[k]
            == spec_extract(field_value(vals, rec, view.builder_fields@[k].name@).unwrap(), view.builder_fields@[k]).unwrap(),
{
    assert(view_of(view, rec) ==> field_index(record_fields(rec), view.builder_fields@[k].name@) is Some);
    if verdicts[k] {
        assert(converts(vals, rec, view, verdicts));
    }
}

/// Two view fields read a record field the same way: both without a
/// pattern, or both under patterns naming the same variant.
pub open spec fn same_extraction(a: BuilderViewField, b: BuilderViewField) -> bool {
    match (a.pattern_to_match, b.pattern_to_match) {
        (None, None) => true,
        (Some(p), Some(q)) => p.last@ == q.last@,
        _ => false,
    }
}

/// A write through the by-mutable-reference form of a view lands in the
/// record: the record's field then yields the written value, and any view
/// derived afterwards that reads that field the same way holds it.
pub proof fn law_write_visible(
    vals: Seq<Value>,
    rec: BaseRecord,
    view: ViewStructBuilder,
    verdicts: Seq<bool>,
    k: int,
    new: Value,
    other: ViewStructBuilder,
    other_verdicts: Seq<bool>,
    j: int,
)
    requires
        fits(vals, rec),
        view_of(view, rec),
        view_of(other, rec),
        verdicts.len() == view.builder_fields@.len(),
        other_verdicts.len() == other.builder_fields@.len(),
        0 <= k < view.builder_fields@.len(),
        0 <= j < other.builder_fields@.len(),
        converts(vals, rec, view, verdicts),
        other.builder_fields@[j].name@ == view.builder_fields@[k].name@,
        same_extraction(other.builder_fields@[j], view.builder_fields@[k]),
    ensures
        fits(spec_write(vals, rec, view.builder_fields@[k], new), rec),
        spec_extract(
            field_value(spec_write(vals, rec, view.builder_fields@[k], new), rec, view.builder_fields@[k].name@).unwrap(),
            view.builder_fields@[k],
        ) == Some(new),
        spec_convert(spec_write(vals, rec, view.builder_fields@[k], new), rec, other, other_verdicts) is Some
            ==> spec_convert(spec_write(vals, rec, view.builder_fields@[k], new), rec, other, other_verdicts).unwrap()[j]
            == new,
{
    let f = view.builder_fields@[k];
    let g = other.builder_fields@[j];
    assert(field_out(vals, rec, f, verdicts[k]) is Some);
    assert(field_index(record_fields(rec), f.name@) is Some);
    let after = spec_write(vals, rec, f, new);
    assert(spec_extract(field_value(after, rec, g.name@).unwrap(), g) == Some(new));
}

} // verus!
