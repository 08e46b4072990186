//! Facts about each field name across all views, for the accessors of the
//! enum over the views.
use vstd::prelude::*;
use crate::model::TypeExpr;
use crate::resolve::{BuilderViewField, ViewStructBuilder};

verus! {

/// What the views that hold a field name expose of it.
#[derive(Debug)]
pub struct MergedField {
    pub name: String,
    /// The stripped type of the field where it first occurs.
    pub stripped_type: TypeExpr,
    /// The owned view type of the field where it first occurs.
    pub regular_type: TypeExpr,
    /// Optional in some view, or missing from some view.
    pub is_there_an_option: bool,
    pub is_there_an_owned: bool,
    pub is_there_a_ref: bool,
    pub is_there_a_mut: bool,
}

pub enum FieldFlag {
    Optional,
    Owned,
    Reference,
    Mutable,
}

pub open spec fn flag_of(f: BuilderViewField, which: FieldFlag) -> bool {
    match which {
        FieldFlag::Optional => f.is_option,
        FieldFlag::Owned => !f.is_ref,
        FieldFlag::Reference => f.is_ref,
        FieldFlag::Mutable => f.is_mut,
    }
}

/// The fields of all views, view after view.
pub open spec fn flat_fields(vs: Seq<ViewStructBuilder>) -> Seq<BuilderViewField>
    decreases vs.len(),
{
    if vs.len() == 0 {
        seq![]
    } else {
        flat_fields(vs.drop_last()) + vs.last().builder_fields@
    }
}

pub open spec fn names_contain(p: Seq<String>, n: Seq<char>) -> bool {
    exists|i: int| 0 <= i < p.len() && #[trigger] p[i]@ == n
}

/// The field names in order of first occurrence.
pub open spec fn first_names(fs: Seq<BuilderViewField>) -> Seq<String>
    decreases fs.len(),
{
    if fs.len() == 0 {
        seq![]
    } else {
        let p = first_names(fs.drop_last());
        if names_contain(p, fs.last().name@) {
            p
        } else {
            p.push(fs.last().name)
        }
    }
}

/// Some field named `n` has the flag.
pub open spec fn any_flag(fs: Seq<BuilderViewField>, n: Seq<char>, which: FieldFlag) -> bool
    decreases fs.len(),
{
    if fs.len() == 0 {
        false
    } else {
        any_flag(fs.drop_last(), n, which) || (fs.last().name@ == n && flag_of(fs.last(), which))
    }
}

/// The stripped type of the first field named `n`.
pub open spec fn first_stripped(fs: Seq<BuilderViewField>, n: Seq<char>) -> Option<TypeExpr>
    decreases fs.len(),
{
    if fs.len() == 0 {
        None
    } else {
        match first_stripped(fs.drop_last(), n) {
            Some(t) => Some(t),
            None => if fs.last().name@ == n {
                Some(fs.last().stripped_type)
            } else {
                None
            },
        }
    }
}

/// The owned view type of the first field named `n`.
pub open spec fn first_regular(fs: Seq<BuilderViewField>, n: Seq<char>) -> Option<TypeExpr>
    decreases fs.len(),
{
    if fs.len() == 0 {
        None
    } else {
        match first_regular(fs.drop_last(), n) {
            Some(t) => Some(t),
            None => if fs.last().name@ == n {
                Some(fs.last().regular_struct_field_type)
            } else {
                None
            },
        }
    }
}

pub open spec fn in_view(v: ViewStructBuilder, n: Seq<char>) -> bool {
    exists|k: int| 0 <= k < v.builder_fields@.len() && #[trigger] v.builder_fields@[k].name@ == n
}

pub open spec fn missing_somewhere(vs: Seq<ViewStructBuilder>, n: Seq<char>) -> bool {
    exists|i: int| 0 <= i < vs.len() && !in_view(#[trigger] vs[i], n)
}

pub open spec fn descriptor(vs: Seq<ViewStructBuilder>, name: String) -> MergedField {
    let fs = flat_fields(vs);
    MergedField {
        name,
        stripped_type: first_stripped(fs, name@).unwrap(),
        regular_type: first_regular(fs, name@).unwrap(),
        is_there_an_option: any_flag(fs, name@, FieldFlag::Optional) || missing_somewhere(vs, name@),
        is_there_an_owned: any_flag(fs, name@, FieldFlag::Owned),
        is_there_a_ref: any_flag(fs, name@, FieldFlag::Reference),
        is_there_a_mut: any_flag(fs, name@, FieldFlag::Mutable),
    }
}

/// One descriptor per field name, in order of first occurrence.
pub open spec fn spec_merged(vs: Seq<ViewStructBuilder>) -> Seq<MergedField> {
    first_names(flat_fields(vs)).map_values(|s: String| descriptor(vs, s))
}

proof fn lemma_absent(fs: Seq<BuilderViewField>, n: Seq<char>)
    requires
        !names_contain(first_names(fs), n),
    ensures
        first_stripped(fs, n) is None,
        first_regular(fs, n) is None,
        !any_flag(fs, n, FieldFlag::Optional),
        !any_flag(fs, n, FieldFlag::Owned),
        !any_flag(fs, n, FieldFlag::Reference),
        !any_flag(fs, n, FieldFlag::Mutable),
    decreases fs.len(),
{
    if fs.len() > 0 {
        let p = first_names(fs.drop_last());
        if names_contain(p, fs.last().name@) {
            assert(fs.last().name@ != n);
        } else {
            assert(first_names(fs) == p.push(fs.last().name));
            if fs.last().name@ == n {
                assert(first_names(fs)[p.len() as int]@ == n);
            }
            assert forall|i: int| 0 <= i < p.len() implies #[trigger] p[i]@ != n by {
                assert(first_names(fs)[i] == p[i]);
            }
        }
        lemma_absent(fs.drop_last(), n);
    }
}

proof fn lemma_present(fs: Seq<BuilderViewField>, n: Seq<char>)
    requires
        names_contain(first_names(fs), n),
    ensures
        first_stripped(fs, n) is Some,
        first_regular(fs, n) is Some,
    decreases fs.len(),
{
    if fs.len() > 0 {
        let p = first_names(fs.drop_last());
        if names_contain(p, n) {
            lemma_present(fs.drop_last(), n);
        } else {
            let i = choose|i: int| 0 <= i < first_names(fs).len() && #[trigger] first_names(fs)[i]@ == n;
            if !names_contain(p, fs.last().name@) {
                if i < p.len() {
                    assert(p[i]@ == n);
                }
            }
        }
    }
}

proof fn lemma_first_names_distinct(fs: Seq<BuilderViewField>)
    ensures
        forall|i: int, j: int|
            0 <= i < j < first_names(fs).len() ==> #[trigger] first_names(fs)[i]@ != #[trigger] first_names(fs)[j]@,
    decreases fs.len(),
{
    if fs.len() > 0 {
        lemma_first_names_distinct(fs.drop_last());
        let p = first_names(fs.drop_last());
        if !names_contain(p, fs.last().name@) {
            assert forall|i: int, j: int|
                0 <= i < j < first_names(fs).len() implies #[trigger] first_names(fs)[i]@
                != #[trigger] first_names(fs)[j]@ by {
                if j == p.len() {
                    assert(first_names(fs)[i] == p[i]);
                }
            }
        }
    }
}

proof fn lemma_flat_step(vs: Seq<ViewStructBuilder>, i: int)
    requires
        0 <= i < vs.len(),
    ensures
        flat_fields(vs.subrange(0, i + 1)) == flat_fields(vs.subrange(0, i)) + vs[i].builder_fields@,
{
    assert(vs.subrange(0, i + 1).drop_last() =~= vs.subrange(0, i));
}

/// Merges the facts about each field name over all views.
#[verifier::loop_isolation(false)]
pub fn merged_fields(views: &Vec<ViewStructBuilder>) -> (r: Vec<MergedField>)
    ensures
        r@ == spec_merged(views@),
{
    let ghost vs = views@;
    let mut r: Vec<MergedField> = Vec::new();
    let mut vi: usize = 0;
    assert(vs.subrange(0, 0) =~= Seq::<ViewStructBuilder>::empty());
    while vi < views.len()
        invariant
            vi <= vs.len(),
            r@.len() == first_names(flat_fields(vs.subrange(0, vi as int))).len(),
            forall|j: int| 0 <= j < r@.len() ==> merged_inv(#[trigger] r@[j], flat_fields(vs.subrange(0, vi as int)), j),
            forall|j: int| 0 <= j < r@.len() ==> option_inv(#[trigger] r@[j], flat_fields(vs.subrange(0, vi as int))),
        decreases vs.len() - vi,
    {
        let fields = &views[vi].builder_fields;
        let ghost base = flat_fields(vs.subrange(0, vi as int));
        let mut k: usize = 0;
        assert(base + fields@.subrange(0, 0) =~= base);
        while k < fields.len()
            invariant
                k <= fields.len(),
                r@.len() == first_names(base + fields@.subrange(0, k as int)).len(),
                forall|j: int| 0 <= j < r@.len() ==> merged_inv(#[trigger] r@[j], base + fields@.subrange(0, k as int), j),
                forall|j: int| 0 <= j < r@.len() ==> option_inv(#[trigger] r@[j], base + fields@.subrange(0, k as int)),
            decreases fields.len() - k,
        {
            let ghost p = base + fields@.subrange(0, k as int);
            let ghost grown = base + fields@.subrange(0, k + 1);
            assert(grown.drop_last() =~= p);
            assert(grown.last() == fields@[k as int]);
            proof {
                lemma_first_names_distinct(p);
            }
            merge_one(&mut r, &fields[k], Ghost(p));
            assert(p.push(fields@[k as int]) =~= grown);
            k += 1;
        }
        proof {
            lemma_flat_step(vs, vi as int);
            assert(fields@.subrange(0, k as int) =~= fields@);
        }
        vi += 1;
    }
    assert(vs.subrange(0, vi as int) =~= vs);
    let ghost fs = flat_fields(vs);
    let mut j: usize = 0;
    while j < r.len()
        invariant
            j <= r@.len(),
            r@.len() == first_names(fs).len(),
            forall|m: int| 0 <= m < r@.len() ==> merged_inv(#[trigger] r@[m], fs, m),
            forall|m: int|
                0 <= m < j ==> (#[trigger] r@[m]).is_there_an_option == (any_flag(fs, r@[m].name@, FieldFlag::Optional)
                    || missing_somewhere(vs, r@[m].name@)),
            forall|m: int|
                j <= m < r@.len() ==> (#[trigger] r@[m]).is_there_an_option == any_flag(fs, r@[m].name@, FieldFlag::Optional),
        decreases r@.len() - j,
    {
        let missing = missing_from_some_view(views, &r[j].name);
        if missing {
            let ghost before = r@;
            let mut d = r.remove(j);
            d.is_there_an_option = true;
            r.insert(j, d);
            assert forall|m: int| 0 <= m < r@.len() && m != j implies r@[m] == before[m] by {}
        }
        j += 1;
    }
    proof {
        assert forall|m: int| 0 <= m < r@.len() implies r@[m] == spec_merged(vs)[m] by {
            assert(merged_inv(r@[m], fs, m));
            lemma_present(fs, r@[m].name@);
        }
    }
    assert(r@ =~= spec_merged(vs));
    r
}

/// `d` is the descriptor at position `j` over the fields `fs`, but for its
/// optionality.
pub open spec fn option_inv(d: MergedField, fs: Seq<BuilderViewField>) -> bool {
    d.is_there_an_option == any_flag(fs, d.name@, FieldFlag::Optional)
}

pub open spec fn merged_inv(d: MergedField, fs: Seq<BuilderViewField>, j: int) -> bool {
    &&& 0 <= j < first_names(fs).len()
    &&& d.name == first_names(fs)[j]
    &&& first_stripped(fs, d.name@) == Some(d.stripped_type)
    &&& first_regular(fs, d.name@) == Some(d.regular_type)
    &&& d.is_there_an_owned == any_flag(fs, d.name@, FieldFlag::Owned)
    &&& d.is_there_a_ref == any_flag(fs, d.name@, FieldFlag::Reference)
    &&& d.is_there_a_mut == any_flag(fs, d.name@, FieldFlag::Mutable)
}

#[verifier::loop_isolation(false)]
fn merge_one(r: &mut Vec<MergedField>, f: &BuilderViewField, Ghost(p): Ghost<Seq<BuilderViewField>>)
    requires
        old(r)@.len() == first_names(p).len(),
        forall|j: int| 0 <= j < old(r)@.len() ==> merged_inv(#[trigger] old(r)@[j], p, j),
        forall|j: int| 0 <= j < old(r)@.len() ==> option_inv(#[trigger] old(r)@[j], p),
        forall|i: int, j: int| 0 <= i < j < first_names(p).len() ==> #[trigger] first_names(p)[i]@ != #[trigger] first_names(p)[j]@,
    ensures
        final(r)@.len() == first_names(p.push(*f)).len(),
        forall|j: int| 0 <= j < final(r)@.len() ==> merged_inv(#[trigger] final(r)@[j], p.push(*f), j),
        forall|j: int| 0 <= j < final(r)@.len() ==> option_inv(#[trigger] final(r)@[j], p.push(*f)),
{
    let ghost q = p.push(*f);
    assert(q.drop_last() =~= p);
    assert(q.last() == *f);
    let mut j: usize = 0;
    while j < r.len()
        invariant
            j <= r@.len(),
            r@ == old(r)@,
            forall|m: int| 0 <= m < j ==> (#[trigger] r@[m]).name@ != f.name@,
        decreases r@.len() - j,
    {
        if r[j].name == f.name {
            let ghost before = r@;
            assert(merged_inv(before[j as int], p, j as int));
            assert(names_contain(first_names(p), f.name@));
            assert(first_names(q) == first_names(p));
            let mut d = r.remove(j);
            d.is_there_an_option = d.is_there_an_option || f.is_option;
            d.is_there_an_owned = d.is_there_an_owned || !f.is_ref;
            d.is_there_a_ref = d.is_there_a_ref || f.is_ref;
            d.is_there_a_mut = d.is_there_a_mut || f.is_mut;
            r.insert(j, d);
            assert forall|m: int| 0 <= m < r@.len() implies merged_inv(#[trigger] r@[m], q, m) && option_inv(r@[m], q) by {
                assert(merged_inv(before[m], p, m));
                assert(option_inv(before[m], p));
                if m != j {
                    assert(r@[m] == before[m]);
                    assert(first_names(p)[m]@ != first_names(p)[j as int]@);
                }
            }
            return;
        }
        j += 1;
    }
    assert(!names_contain(first_names(p), f.name@)) by {
        if names_contain(first_names(p), f.name@) {
            let i = choose|i: int| 0 <= i < first_names(p).len() && #[trigger] first_names(p)[i]@ == f.name@;
            assert(merged_inv(r@[i], p, i));
        }
    }
    proof {
        lemma_absent(p, f.name@);
    }
    assert(first_names(q) == first_names(p).push(f.name));
    let ghost before = r@;
    r.push(
        MergedField {
            name: f.name.clone(),
            stripped_type: f.stripped_type.duplicate(),
            regular_type: f.regular_struct_field_type.duplicate(),
            is_there_an_option: f.is_option,
            is_there_an_owned: !f.is_ref,
            is_there_a_ref: f.is_ref,
            is_there_a_mut: f.is_mut,
        },
    );
    assert forall|m: int| 0 <= m < r@.len() implies merged_inv(#[trigger] r@[m], q, m) && option_inv(r@[m], q) by {
        if m < before.len() {
            assert(merged_inv(before[m], p, m));
            assert(option_inv(before[m], p));
            assert(r@[m] == before[m]);
            assert(first_names(q)[m] == first_names(p)[m]);
            assert(first_names(p)[m]@ != f.name@);
        }
    }
}

fn missing_from_some_view(views: &Vec<ViewStructBuilder>, name: &String) -> (r: bool)
    ensures
        r == missing_somewhere(views@, name@),
{
    let mut i: usize = 0;
    while i < views.len()
        invariant
            i <= views.len(),
            forall|m: int| 0 <= m < i ==> in_view(#[trigger] views@[m], name@),
        decreases views.len() - i,
    {
        let fs = &views[i].builder_fields;
        let mut k: usize = 0;
        let mut found = false;
        while k < fs.len()
            invariant
                k <= fs.len(),
                found == exists|m: int| 0 <= m < k && #[trigger] fs@[m].name@ == name@,
            decreases fs.len() - k,
        {
            if fs[k].name == *name {
                found = true;
            }
            k += 1;
        }
        if !found {
            assert(!in_view(views@[i as int], name@));
            return true;
        }
        i += 1;
    }
    false
}

} // verus!
