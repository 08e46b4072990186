//! Resolution of a view specification against the base record: every field of
//! every view gets its three derived types and its flags.
use vstd::prelude::*;
use crate::model::{
    copy_opt_string, copy_strings, BaseRecord, FieldItem, Fragment, Generics, GenericParam,
    PatternPath, RecordField, RecordShape, TypeExpr, ViewStruct, ViewStructFieldKind, Views,
};
use crate::types::{
    determine_reference_types, infer_inner_type_for_pattern_match, is_option, needs_rebinding,
    spec_inferred_inner, spec_is_mut_reference, spec_is_option, spec_is_reference,
    spec_ref_forms, spec_stripped_type, stripped_type,
};

verus! {

/// Why a view specification cannot be resolved.
#[derive(Debug)]
pub enum ViewError {
    /// The base record is a tuple or unit struct.
    Shape,
    DuplicateFragment { fragment: String },
    DuplicateFragmentField { fragment: String, field: String },
    DuplicateView { view: String },
    DuplicateSpread { view: String, fragment: String },
    /// A field name occurs twice in a view, spread or direct.
    DuplicateViewField { view: String, field: String },
    /// `owner` (a fragment or a view) names a field the base record lacks.
    UnknownField { owner: String, field: String },
    UnknownFragment { view: String, fragment: String },
    /// A pattern on a type whose shape does not say what it binds.
    TypeInference { field: String, pattern: String },
}

/// One field of a resolved view.
#[derive(Debug)]
pub struct BuilderViewField {
    pub vis: String,
    pub name: String,
    /// The type in the owned view struct.
    pub regular_struct_field_type: TypeExpr,
    /// The type in the by-reference struct.
    pub ref_struct_field_type: TypeExpr,
    /// The type in the by-mutable-reference struct.
    pub mut_struct_field_type: TypeExpr,
    /// The owned type without its outer reference and outer `Option`.
    pub stripped_type: TypeExpr,
    pub is_stripped_type_ref: bool,
    pub is_ref: bool,
    pub is_mut: bool,
    pub is_option: bool,
    /// The derived references borrow under the fresh shared lifetime.
    pub refs_need_original_lifetime: bool,
    pub pattern_to_match: Option<PatternPath>,
    pub validation: Option<String>,
}

/// The owned view type of a field of type `base` under `item`; `None` where a
/// pattern's inner type cannot be inferred.
pub open spec fn spec_view_field_type(base: TypeExpr, item: FieldItem) -> Option<TypeExpr> {
    match item.explicit_type {
        Some(t) => Some(t),
        None => match item.pattern_to_match {
            Some(p) => spec_inferred_inner(base, p.last@),
            None => Some(base),
        },
    }
}

impl BuilderViewField {
    /// `self` is the resolution of `item` against the record field `f`.
    pub open spec fn resolves(self, f: RecordField, item: FieldItem) -> bool {
        let t = self.regular_struct_field_type;
        &&& spec_view_field_type(f.ty, item) == Some(t)
        &&& self.name == f.name
        &&& self.vis == f.vis
        &&& spec_ref_forms(t, self.ref_struct_field_type, self.mut_struct_field_type)
        &&& self.stripped_type == spec_stripped_type(t)
        &&& self.is_stripped_type_ref == spec_is_reference(spec_stripped_type(t))
        &&& self.is_ref == spec_is_reference(t)
        &&& self.is_mut == spec_is_mut_reference(t)
        &&& self.is_option == spec_is_option(t)
        &&& self.refs_need_original_lifetime == needs_rebinding(t)
        &&& self.pattern_to_match == item.pattern_to_match
        &&& self.validation == item.validation
    }

    /// Resolves one field reference against the record field it names.
    pub fn new(
        original_struct_field: &RecordField,
        pattern_to_match: &Option<PatternPath>,
        explicit_type: &Option<TypeExpr>,
        validation: &Option<String>,
    ) -> (r: Result<BuilderViewField, ViewError>)
        ensures
            ({
                let item = FieldItem {
                    field_name: original_struct_field.name,
                    pattern_to_match: *pattern_to_match,
                    validation: *validation,
                    explicit_type: *explicit_type,
                };
                &&& r is Ok <==> spec_view_field_type(original_struct_field.ty, item) is Some
                &&& r is Ok ==> r.unwrap().resolves(*original_struct_field, item)
                &&& r is Err ==> r->Err_0 is TypeInference
            }),
    {
        let regular: TypeExpr = match explicit_type {
            Some(t) => t.duplicate(),
            None => match pattern_to_match {
                Some(p) => match infer_inner_type_for_pattern_match(&original_struct_field.ty, &p.last) {
                    Some(t) => t,
                    None => {
                        return Err(
                            ViewError::TypeInference {
                                field: original_struct_field.name.clone(),
                                pattern: p.text.clone(),
                            },
                        );
                    },
                },
                None => original_struct_field.ty.duplicate(),
            },
        };
        let (is_ref, is_mut, type_changes) = determine_reference_types(&regular);
        let (ref_ty, mut_ty) = match type_changes {
            Some(pair) => pair,
            None => if is_ref {
                (regular.duplicate(), regular.duplicate())
            } else {
                (
                    TypeExpr::Reference(
                        crate::model::RefType {
                            lifetime: Some(String::from_str("'original")),
                            mutable: false,
                            elem: Box::new(regular.duplicate()),
                        },
                    ),
                    TypeExpr::Reference(
                        crate::model::RefType {
                            lifetime: Some(String::from_str("'original")),
                            mutable: true,
                            elem: Box::new(regular.duplicate()),
                        },
                    ),
                )
            },
        };
        let is_option = is_option(&regular);
        let stripped = stripped_type(&regular);
        let is_stripped_type_ref = match &stripped {
            TypeExpr::Reference(_) => true,
            _ => false,
        };
        Ok(
            BuilderViewField {
                vis: original_struct_field.vis.clone(),
                name: original_struct_field.name.clone(),
                regular_struct_field_type: regular,
                ref_struct_field_type: ref_ty,
                mut_struct_field_type: mut_ty,
                stripped_type: stripped,
                is_stripped_type_ref,
                is_ref,
                is_mut,
                is_option,
                refs_need_original_lifetime: !is_ref || is_mut,
                pattern_to_match: match pattern_to_match {
                    Some(p) => Some(p.duplicate()),
                    None => None,
                },
                validation: copy_opt_string(validation),
            },
        )
    }

    /// A deep copy.
    pub fn duplicate(&self) -> (r: BuilderViewField)
        ensures
            r == *self,
    {
        BuilderViewField {
            vis: self.vis.clone(),
            name: self.name.clone(),
            regular_struct_field_type: self.regular_struct_field_type.duplicate(),
            ref_struct_field_type: self.ref_struct_field_type.duplicate(),
            mut_struct_field_type: self.mut_struct_field_type.duplicate(),
            stripped_type: self.stripped_type.duplicate(),
            is_stripped_type_ref: self.is_stripped_type_ref,
            is_ref: self.is_ref,
            is_mut: self.is_mut,
            is_option: self.is_option,
            refs_need_original_lifetime: self.refs_need_original_lifetime,
            pattern_to_match: match &self.pattern_to_match {
                Some(p) => Some(p.duplicate()),
                None => None,
            },
            validation: copy_opt_string(&self.validation),
        }
    }
}

/// A view being resolved: its fields and the generics of its three structs.
#[derive(Debug)]
pub struct ViewStructBuilder {
    pub name: String,
    /// The generics the view was declared with.
    pub original_generics: Option<Generics>,
    pub builder_fields: Vec<BuilderViewField>,
    pub attributes: Vec<String>,
    pub visibility: String,
    /// The generics of the by-reference structs, once the shared lifetime is added.
    pub ref_generics: Option<Generics>,
    pub ref_attributes: Vec<String>,
    pub mut_attributes: Vec<String>,
}

/// All resolved views, with the attributes of the enum over them.
#[derive(Debug)]
pub struct Builder {
    pub view_structs: Vec<ViewStructBuilder>,
    pub enum_attributes: Vec<String>,
}

pub open spec fn generic_params(g: Option<Generics>) -> Seq<GenericParam> {
    match g {
        Some(x) => x.params@,
        None => seq![],
    }
}

pub open spec fn generic_where(g: Option<Generics>) -> Option<String> {
    match g {
        Some(x) => x.where_clause,
        None => None,
    }
}

pub open spec fn same_generics(a: Option<Generics>, b: Option<Generics>) -> bool {
    &&& a is Some == b is Some
    &&& generic_params(a) == generic_params(b)
    &&& generic_where(a) == generic_where(b)
}

/// `g` is `base` with the shared lifetime inserted as its first parameter.
pub open spec fn with_original_lifetime(g: Generics, base: Option<Generics>) -> bool {
    &&& g.params@.len() == generic_params(base).len() + 1
    &&& g.params@[0].name@ == crate::types::original_lifetime()
    &&& g.params@[0].bounds is None
    &&& !g.params@[0].is_const
    &&& g.params@.subrange(1, g.params@.len() as int) == generic_params(base)
    &&& g.where_clause == generic_where(base)
}

impl ViewStructBuilder {
    /// The by-reference structs carry the shared lifetime exactly when some
    /// field borrows under it, and then as their first generic parameter.
    pub open spec fn well_formed(self) -> bool {
        &&& (self.ref_generics is Some <==> self.needs_lifetime())
        &&& (self.ref_generics is Some ==> with_original_lifetime(self.ref_generics.unwrap(), self.original_generics))
    }

    pub open spec fn needs_lifetime(self) -> bool {
        exists|k: int|
            0 <= k < self.builder_fields@.len() && #[trigger] self.builder_fields@[k].refs_need_original_lifetime
    }

    pub fn new(
        name: String,
        original_generics: Option<Generics>,
        builder_fields: Vec<BuilderViewField>,
        attributes: Vec<String>,
        visibility: String,
        ref_attributes: Vec<String>,
        mut_attributes: Vec<String>,
    ) -> (r: ViewStructBuilder)
        ensures
            r.name == name,
            r.original_generics == original_generics,
            r.builder_fields == builder_fields,
            r.attributes == attributes,
            r.visibility == visibility,
            r.ref_generics is None,
            r.ref_attributes == ref_attributes,
            r.mut_attributes == mut_attributes,
    {
        ViewStructBuilder {
            name,
            original_generics,
            builder_fields,
            attributes,
            visibility,
            ref_generics: None,
            ref_attributes,
            mut_attributes,
        }
    }

    /// Gives the by-reference structs the shared lifetime as their first
    /// generic parameter, once.
    pub fn add_original_struct_lifetime_to_refs(&mut self)
        ensures
            final(self).name == old(self).name,
            final(self).original_generics == old(self).original_generics,
            final(self).builder_fields == old(self).builder_fields,
            final(self).attributes == old(self).attributes,
            final(self).visibility == old(self).visibility,
            final(self).ref_attributes == old(self).ref_attributes,
            final(self).mut_attributes == old(self).mut_attributes,
            old(self).ref_generics is Some ==> final(self).ref_generics == old(self).ref_generics,
            old(self).ref_generics is None ==> final(self).ref_generics is Some
                && with_original_lifetime(final(self).ref_generics.unwrap(), old(self).original_generics),
    {
        if self.ref_generics.is_some() {
            return;
        }
        let lifetime = GenericParam { name: String::from_str("'original"), bounds: None, is_const: false };
        let mut params: Vec<GenericParam> = Vec::new();
        params.push(lifetime);
        let where_clause = match &self.original_generics {
            Some(g) => {
                let mut i: usize = 0;
                while i < g.params.len()
                    invariant
                        i <= g.params.len(),
                        params@.len() == i + 1,
                        params@[0].name@ == crate::types::original_lifetime(),
                        params@[0].bounds is None,
                        !params@[0].is_const,
                        params@.subrange(1, i + 1) == g.params@.subrange(0, i as int),
                    decreases g.params.len() - i,
                {
                    let p = &g.params[i];
                    params.push(
                        GenericParam { name: p.name.clone(), bounds: copy_opt_string(&p.bounds), is_const: p.is_const },
                    );
                    i += 1;
                    assert(params@.subrange(1, i + 1) =~= g.params@.subrange(0, i as int));
                }
                assert(g.params@.subrange(0, i as int) =~= g.params@);
                copy_opt_string(&g.where_clause)
            },
            None => {
                assert(params@.subrange(1, 1) =~= Seq::<GenericParam>::empty());
                None
            },
        };
        self.ref_generics = Some(Generics { params, where_clause });
    }

    /// The generics of the by-reference structs.
    pub fn get_ref_generics(&self) -> (r: Option<&Generics>)
        ensures
            self.ref_generics is Some ==> r == Some(&self.ref_generics.unwrap()),
            self.ref_generics is None ==> r == match self.original_generics {
                Some(g) => Some(&g),
                None => None,
            },
    {
        if let Some(g) = &self.ref_generics {
            return Some(g);
        }
        match &self.original_generics {
            Some(g) => Some(g),
            None => None,
        }
    }

    /// The generics of the owned view struct.
    pub fn get_regular_generics(&self) -> (r: Option<&Generics>)
        ensures
            r == match self.original_generics {
                Some(g) => Some(&g),
                None => None,
            },
    {
        match &self.original_generics {
            Some(g) => Some(g),
            None => None,
        }
    }
}

pub open spec fn str_views(s: Seq<String>) -> Seq<Seq<char>> {
    s.map_values(|x: String| x@)
}

pub open spec fn names_distinct(s: Seq<Seq<char>>) -> bool {
    forall|i: int, j: int| 0 <= i < j < s.len() ==> s[i] != s[j]
}

/// The index of the first repeated name, if any.
pub fn find_duplicate(names: &Vec<String>) -> (r: Option<usize>)
    ensures
        r is None <==> names_distinct(str_views(names@)),
        r is Some ==> r.unwrap() < names@.len() && exists|i: int|
            0 <= i < r.unwrap() && #[trigger] names@[i]@ == names@[r.unwrap() as int]@,
{
    let mut j: usize = 0;
    while j < names.len()
        invariant
            j <= names.len(),
            forall|a: int, b: int| 0 <= a < b < j ==> names@[a]@ != names@[b]@,
        decreases names.len() - j,
    {
        let mut i: usize = 0;
        while i < j
            invariant
                i <= j < names.len(),
                forall|a: int| 0 <= a < i ==> names@[a]@ != names@[j as int]@,
            decreases j - i,
        {
            if names[i] == names[j] {
                assert(str_views(names@)[i as int] == str_views(names@)[j as int]);
                return Some(j);
            }
            i += 1;
        }
        j += 1;
    }
    proof {
        assert forall|a: int, b: int| 0 <= a < b < str_views(names@).len() implies str_views(names@)[a]
            != str_views(names@)[b] by {
            assert(names@[a]@ != names@[b]@);
        }
    }
    None
}

pub open spec fn fragment_names(v: Views) -> Seq<Seq<char>> {
    v.fragments@.map_values(|f: Fragment| f.name@)
}

pub open spec fn view_names(v: Views) -> Seq<Seq<char>> {
    v.view_structs@.map_values(|s: ViewStruct| s.name@)
}

pub open spec fn item_names(items: Seq<FieldItem>) -> Seq<Seq<char>> {
    items.map_values(|f: FieldItem| f.field_name@)
}

/// The fragment names spread in a view, in order.
pub open spec fn spread_names(items: Seq<ViewStructFieldKind>) -> Seq<Seq<char>>
    decreases items.len(),
{
    if items.len() == 0 {
        seq![]
    } else {
        let p = spread_names(items.drop_last());
        match items.last() {
            ViewStructFieldKind::FragmentSpread(n) => p.push(n@),
            ViewStructFieldKind::Field(_) => p,
        }
    }
}

/// The names of the fields written directly in a view, in order.
pub open spec fn direct_names(items: Seq<ViewStructFieldKind>) -> Seq<Seq<char>>
    decreases items.len(),
{
    if items.len() == 0 {
        seq![]
    } else {
        let p = direct_names(items.drop_last());
        match items.last() {
            ViewStructFieldKind::FragmentSpread(_) => p,
            ViewStructFieldKind::Field(f) => p.push(f.field_name@),
        }
    }
}

/// Field names are unique within each fragment.
pub open spec fn fragment_fields_unique(v: Views) -> bool {
    forall|i: int| 0 <= i < v.fragments@.len() ==> names_distinct(item_names(#[trigger] v.fragments@[i].fields@))
}

/// Within each view, spread names are unique and direct field names are.
pub open spec fn view_items_unique(v: Views) -> bool {
    &&& forall|i: int| 0 <= i < v.view_structs@.len() ==> names_distinct(spread_names(#[trigger] v.view_structs@[i].items@))
    &&& forall|i: int| 0 <= i < v.view_structs@.len() ==> names_distinct(direct_names(#[trigger] v.view_structs@[i].items@))
}

/// Fragment and view names are unique, field names are unique within each
/// fragment, and within each view spread names and direct field names are.
pub open spec fn unique_names_ok(v: Views) -> bool {
    &&& names_distinct(fragment_names(v))
    &&& fragment_fields_unique(v)
    &&& names_distinct(view_names(v))
    &&& view_items_unique(v)
}

fn collect_item_names(items: &Vec<FieldItem>) -> (r: Vec<String>)
    ensures
        str_views(r@) == item_names(items@),
{
    let mut r: Vec<String> = Vec::new();
    let mut i: usize = 0;
    while i < items.len()
        invariant
            i <= items.len(),
            r@.len() == i,
            forall|k: int| 0 <= k < i ==> #[trigger] r@[k]@ == items@[k].field_name@,
        decreases items.len() - i,
    {
        r.push(items[i].field_name.clone());
        i += 1;
    }
    assert(str_views(r@) =~= item_names(items@));
    r
}

/// The spread names and the direct field names of a view.
fn collect_view_item_names(items: &Vec<ViewStructFieldKind>) -> (r: (Vec<String>, Vec<String>))
    ensures
        str_views(r.0@) == spread_names(items@),
        str_views(r.1@) == direct_names(items@),
{
    let mut spreads: Vec<String> = Vec::new();
    let mut directs: Vec<String> = Vec::new();
    let mut i: usize = 0;
    while i < items.len()
        invariant
            i <= items.len(),
            str_views(spreads@) == spread_names(items@.subrange(0, i as int)),
            str_views(directs@) == direct_names(items@.subrange(0, i as int)),
        decreases items.len() - i,
    {
        assert(items@.subrange(0, i + 1).drop_last() =~= items@.subrange(0, i as int));
        match &items[i] {
            ViewStructFieldKind::FragmentSpread(n) => spreads.push(n.clone()),
            ViewStructFieldKind::Field(f) => directs.push(f.field_name.clone()),
        }
        i += 1;
        assert(str_views(spreads@) =~= spread_names(items@.subrange(0, i as int)));
        assert(str_views(directs@) =~= direct_names(items@.subrange(0, i as int)));
    }
    assert(items@.subrange(0, i as int) =~= items@);
    (spreads, directs)
}

/// Checks the uniqueness of names: of fragments, of fields within each
/// fragment, of views, and within each view of spreads and of direct fields.
pub fn validate_unique_fields(view_spec: &Views) -> (r: Result<(), ViewError>)
    ensures
        r is Ok <==> unique_names_ok(*view_spec),
        (r is Err && r->Err_0 is DuplicateFragmentField) <==> !fragment_fields_unique(*view_spec),
        (r is Err && r->Err_0 is DuplicateFragment) <==> fragment_fields_unique(*view_spec) && !names_distinct(
            fragment_names(*view_spec),
        ),
        (r is Err && (r->Err_0 is DuplicateSpread || r->Err_0 is DuplicateViewField)) <==> fragment_fields_unique(
            *view_spec,
        ) && names_distinct(fragment_names(*view_spec)) && !view_items_unique(*view_spec),
        (r is Err && r->Err_0 is DuplicateView) <==> fragment_fields_unique(*view_spec) && names_distinct(
            fragment_names(*view_spec),
        ) && view_items_unique(*view_spec) && !names_distinct(view_names(*view_spec)),
{
    let mut fragment_names_v: Vec<String> = Vec::new();
    let mut i: usize = 0;
    while i < view_spec.fragments.len()
        invariant
            i <= view_spec.fragments.len(),
            fragment_names_v@.len() == i,
            forall|k: int| 0 <= k < i ==> #[trigger] fragment_names_v@[k]@ == view_spec.fragments@[k].name@,
            forall|k: int| 0 <= k < i ==> names_distinct(item_names(#[trigger] view_spec.fragments@[k].fields@)),
        decreases view_spec.fragments.len() - i,
    {
        let fragment = &view_spec.fragments[i];
        let names = collect_item_names(&fragment.fields);
        match find_duplicate(&names) {
            Some(j) => {
                return Err(
                    ViewError::DuplicateFragmentField { fragment: fragment.name.clone(), field: names[j].clone() },
                );
            },
            None => {},
        }
        fragment_names_v.push(fragment.name.clone());
        i += 1;
    }
    assert(str_views(fragment_names_v@) =~= fragment_names(*view_spec));
    match find_duplicate(&fragment_names_v) {
        Some(j) => {
            return Err(ViewError::DuplicateFragment { fragment: fragment_names_v[j].clone() });
        },
        None => {},
    }
    let mut view_names_v: Vec<String> = Vec::new();
    let mut i: usize = 0;
    while i < view_spec.view_structs.len()
        invariant
            i <= view_spec.view_structs.len(),
            view_names_v@.len() == i,
            fragment_fields_unique(*view_spec),
            names_distinct(fragment_names(*view_spec)),
            forall|k: int| 0 <= k < i ==> #[trigger] view_names_v@[k]@ == view_spec.view_structs@[k].name@,
            forall|k: int| 0 <= k < i ==> names_distinct(spread_names(#[trigger] view_spec.view_structs@[k].items@)),
            forall|k: int| 0 <= k < i ==> names_distinct(direct_names(#[trigger] view_spec.view_structs@[k].items@)),
        decreases view_spec.view_structs.len() - i,
    {
        let view = &view_spec.view_structs[i];
        let (spreads, directs) = collect_view_item_names(&view.items);
        match find_duplicate(&spreads) {
            Some(j) => {
                return Err(ViewError::DuplicateSpread { view: view.name.clone(), fragment: spreads[j].clone() });
            },
            None => {},
        }
        match find_duplicate(&directs) {
            Some(j) => {
                return Err(ViewError::DuplicateViewField { view: view.name.clone(), field: directs[j].clone() });
            },
            None => {},
        }
        view_names_v.push(view.name.clone());
        i += 1;
    }
    assert(str_views(view_names_v@) =~= view_names(*view_spec));
    match find_duplicate(&view_names_v) {
        Some(j) => {
            return Err(ViewError::DuplicateView { view: view_names_v[j].clone() });
        },
        None => {},
    }
    Ok(())
}

pub open spec fn is_first_named_field(fields: Seq<RecordField>, name: Seq<char>, i: int) -> bool {
    &&& 0 <= i < fields.len()
    &&& fields[i].name@ == name
    &&& forall|k: int| 0 <= k < i ==> #[trigger] fields[k].name@ != name
}

pub open spec fn is_first_named_fragment(frags: Seq<Fragment>, name: Seq<char>, i: int) -> bool {
    &&& 0 <= i < frags.len()
    &&& frags[i].name@ == name
    &&& forall|k: int| 0 <= k < i ==> #[trigger] frags[k].name@ != name
}

/// The errors that resolving fragments and views against the record can give.
pub open spec fn resolution_error(e: ViewError) -> bool {
    e is UnknownField || e is UnknownFragment || e is TypeInference || e is DuplicateViewField
}

/// The index of the first record field named `name`.
pub open spec fn field_index(fields: Seq<RecordField>, name: Seq<char>) -> Option<int> {
    if exists|i: int| is_first_named_field(fields, name, i) {
        Some(choose|i: int| is_first_named_field(fields, name, i))
    } else {
        None
    }
}

/// The index of the first fragment named `name`.
pub open spec fn fragment_index(frags: Seq<Fragment>, name: Seq<char>) -> Option<int> {
    if exists|i: int| is_first_named_fragment(frags, name, i) {
        Some(choose|i: int| is_first_named_fragment(frags, name, i))
    } else {
        None
    }
}

/// The field items of a view with every spread replaced by its fragment's
/// fields; `None` where a spread names no fragment.
pub open spec fn spec_expand(items: Seq<ViewStructFieldKind>, frags: Seq<Fragment>) -> Option<Seq<FieldItem>>
    decreases items.len(),
{
    if items.len() == 0 {
        Some(seq![])
    } else {
        match spec_expand(items.drop_last(), frags) {
            None => None,
            Some(prev) => match items.last() {
                ViewStructFieldKind::FragmentSpread(n) => match fragment_index(frags, n@) {
                    Some(k) => Some(prev + frags[k].fields@),
                    None => None,
                },
                ViewStructFieldKind::Field(f) => Some(prev.push(f)),
            },
        }
    }
}

/// `item` names a record field and its view type can be derived.
pub open spec fn item_resolvable(fields: Seq<RecordField>, item: FieldItem) -> bool {
    match field_index(fields, item.field_name@) {
        Some(i) => spec_view_field_type(fields[i].ty, item) is Some,
        None => false,
    }
}

/// `bf` is the resolution of `item` against the record field it names.
pub open spec fn field_resolved(bf: BuilderViewField, fields: Seq<RecordField>, item: FieldItem) -> bool {
    match field_index(fields, item.field_name@) {
        Some(i) => bf.resolves(fields[i], item),
        None => false,
    }
}

pub open spec fn fields_resolved(
    bfs: Seq<BuilderViewField>,
    fields: Seq<RecordField>,
    items: Seq<FieldItem>,
) -> bool {
    &&& bfs.len() == items.len()
    &&& forall|k: int| 0 <= k < items.len() ==> field_resolved(#[trigger] bfs[k], fields, items[k])
}

pub open spec fn items_resolvable(fields: Seq<RecordField>, items: Seq<FieldItem>) -> bool {
    forall|k: int| 0 <= k < items.len() ==> item_resolvable(fields, #[trigger] items[k])
}

/// Every spread of `v` names a fragment, every field resolves, and no field
/// name occurs twice among its expanded fields.
pub open spec fn view_resolvable(v: ViewStruct, frags: Seq<Fragment>, fields: Seq<RecordField>) -> bool {
    match spec_expand(v.items@, frags) {
        Some(items) => items_resolvable(fields, items) && names_distinct(item_names(items)),
        None => false,
    }
}

/// The whole specification resolves against the record's fields.
pub open spec fn spec_resolvable(views: Views, fields: Seq<RecordField>) -> bool {
    &&& forall|i: int|
        0 <= i < views.fragments@.len() ==> items_resolvable(fields, #[trigger] views.fragments@[i].fields@)
    &&& forall|i: int|
        0 <= i < views.view_structs@.len() ==> view_resolvable(
            #[trigger] views.view_structs@[i],
            views.fragments@,
            fields,
        )
}

impl ViewStructBuilder {
    /// `self` is the resolution of the view `v`.
    pub open spec fn resolves(self, v: ViewStruct, frags: Seq<Fragment>, fields: Seq<RecordField>) -> bool {
        &&& spec_expand(v.items@, frags) is Some
        &&& fields_resolved(self.builder_fields@, fields, spec_expand(v.items@, frags).unwrap())
        &&& self.name == v.name
        &&& same_generics(self.original_generics, v.generics)
        &&& self.attributes@ == v.attributes@
        &&& self.visibility == v.visibility
        &&& self.ref_attributes@ == v.ref_attributes@
        &&& self.mut_attributes@ == v.mut_attributes@
        &&& (self.ref_generics is Some <==> self.needs_lifetime())
        &&& (self.ref_generics is Some ==> with_original_lifetime(
            self.ref_generics.unwrap(),
            self.original_generics,
        ))
    }
}

proof fn lemma_expand_prefix(items: Seq<ViewStructFieldKind>, frags: Seq<Fragment>, n: int)
    requires
        0 <= n <= items.len(),
    ensures
        spec_expand(items.subrange(0, n), frags) is None ==> spec_expand(items, frags) is None,
        spec_expand(items, frags) is Some ==> spec_expand(items.subrange(0, n), frags) is Some
            && spec_expand(items.subrange(0, n), frags).unwrap().len() <= spec_expand(items, frags).unwrap().len()
            && spec_expand(items.subrange(0, n), frags).unwrap() =~= spec_expand(items, frags).unwrap().subrange(
                0,
                spec_expand(items.subrange(0, n), frags).unwrap().len() as int,
            ),
    decreases items.len() - n,
{
    if n < items.len() {
        lemma_expand_prefix(items, frags, n + 1);
        let s = items.subrange(0, n + 1);
        assert(s.drop_last() =~= items.subrange(0, n));
    } else {
        assert(items.subrange(0, n) =~= items);
    }
}

/// The index of the first record field named `name`.
pub fn find_field(fields: &Vec<RecordField>, name: &String) -> (r: Option<usize>)
    ensures
        match r {
            Some(i) => field_index(fields@, name@) == Some(i as int) && i < fields@.len(),
            None => field_index(fields@, name@) is None,
        },
{
    let mut i: usize = 0;
    while i < fields.len()
        invariant
            i <= fields.len(),
            forall|k: int| 0 <= k < i ==> #[trigger] fields@[k].name@ != name@,
        decreases fields.len() - i,
    {
        if fields[i].name == *name {
            assert(is_first_named_field(fields@, name@, i as int));
            let ghost c = choose|c: int| is_first_named_field(fields@, name@, c);
            assert(c == i) by {
                if c < i {
                    assert(fields@[c].name@ != name@);
                } else if c > i {
                    assert(fields@[i as int].name@ != name@);
                }
            }
            return Some(i);
        }
        i += 1;
    }
    None
}

/// The index of the first fragment named `name`.
pub fn find_fragment(frags: &Vec<Fragment>, name: &String) -> (r: Option<usize>)
    ensures
        match r {
            Some(i) => fragment_index(frags@, name@) == Some(i as int) && i < frags@.len(),
            None => fragment_index(frags@, name@) is None,
        },
{
    let mut i: usize = 0;
    while i < frags.len()
        invariant
            i <= frags.len(),
            forall|k: int| 0 <= k < i ==> #[trigger] frags@[k].name@ != name@,
        decreases frags.len() - i,
    {
        if frags[i].name == *name {
            assert(is_first_named_fragment(frags@, name@, i as int));
            let ghost c = choose|c: int| is_first_named_fragment(frags@, name@, c);
            assert(c == i) by {
                if c < i {
                    assert(frags@[c].name@ != name@);
                } else if c > i {
                    assert(frags@[i as int].name@ != name@);
                }
            }
            return Some(i);
        }
        i += 1;
    }
    None
}

/// Resolves one field item against the record fields; `owner` names the
/// fragment or view it stands in.
fn resolve_item(fields: &Vec<RecordField>, item: &FieldItem, owner: &String) -> (r: Result<BuilderViewField, ViewError>)
    ensures
        r is Ok <==> item_resolvable(fields@, *item),
        r is Ok ==> field_resolved(r.unwrap(), fields@, *item),
        r is Err ==> r->Err_0 is UnknownField || r->Err_0 is TypeInference,
{
    match find_field(fields, &item.field_name) {
        Some(j) => {
            let r = BuilderViewField::new(&fields[j], &item.pattern_to_match, &item.explicit_type, &item.validation);
            r
        },
        None => Err(ViewError::UnknownField { owner: owner.clone(), field: item.field_name.clone() }),
    }
}

fn copy_generics(g: &Option<Generics>) -> (r: Option<Generics>)
    ensures
        same_generics(r, *g),
{
    match g {
        Some(x) => Some(x.duplicate()),
        None => None,
    }
}

/// Resolves one view, given every fragment already resolved.
#[verifier::loop_isolation(false)]
fn resolve_view(
    view: &ViewStruct,
    fragments: &Vec<Fragment>,
    builder_fragments: &Vec<Vec<BuilderViewField>>,
    original_fields: &Vec<RecordField>,
) -> (r: Result<ViewStructBuilder, ViewError>)
    requires
        builder_fragments@.len() == fragments@.len(),
        forall|q: int|
            0 <= q < fragments@.len() ==> fields_resolved(
                #[trigger] builder_fragments@[q]@,
                original_fields@,
                fragments@[q].fields@,
            ),
        forall|q: int| 0 <= q < fragments@.len() ==> items_resolvable(original_fields@, #[trigger] fragments@[q].fields@),
    ensures
        r is Ok <==> view_resolvable(*view, fragments@, original_fields@),
        r is Ok ==> r.unwrap().resolves(*view, fragments@, original_fields@),
        r is Err ==> resolution_error(r->Err_0),
{
    let ghost fields = original_fields@;
    let ghost frags = fragments@;
    let ghost items = view.items@;
    let mut bfs: Vec<BuilderViewField> = Vec::new();
    let mut ii: usize = 0;
    assert(items.subrange(0, 0) =~= Seq::<ViewStructFieldKind>::empty());
    while ii < view.items.len()
        invariant
            ii <= items.len(),
            spec_expand(items.subrange(0, ii as int), frags) is Some,
            fields_resolved(bfs@, fields, spec_expand(items.subrange(0, ii as int), frags).unwrap()),
            items_resolvable(fields, spec_expand(items.subrange(0, ii as int), frags).unwrap()),
        decreases items.len() - ii,
    {
        let ghost prev = spec_expand(items.subrange(0, ii as int), frags).unwrap();
        assert(items.subrange(0, ii + 1).drop_last() =~= items.subrange(0, ii as int));
        assert(items.subrange(0, ii + 1).last() == items[ii as int]);
        match &view.items[ii] {
            ViewStructFieldKind::FragmentSpread(name) => match find_fragment(&fragments, name) {
                None => {
                    proof {
                        lemma_expand_prefix(items, frags, ii + 1);
                    }
                    assert(!view_resolvable(*view, frags, fields));
                    return Err(ViewError::UnknownFragment { view: view.name.clone(), fragment: name.clone() });
                },
                Some(q) => {
                    let src = &builder_fragments[q];
                    let ghost before = bfs@;
                    let mut m: usize = 0;
                    while m < src.len()
                        invariant
                            m <= src.len(),
                            bfs@ =~= before + src@.subrange(0, m as int),
                        decreases src.len() - m,
                    {
                        bfs.push(src[m].duplicate());
                        m += 1;
                        assert(bfs@ =~= before + src@.subrange(0, m as int));
                    }
                    assert(src@.subrange(0, m as int) =~= src@);
                    let ghost next = prev + frags[q as int].fields@;
                    assert(spec_expand(items.subrange(0, ii + 1), frags) == Some(next));
                    assert forall|k: int| 0 <= k < next.len() implies field_resolved(#[trigger] bfs@[k], fields, next[k])
                        && item_resolvable(fields, next[k]) by {
                        if k >= prev.len() {
                            assert(bfs@[k] == src@[k - prev.len()]);
                            assert(next[k] == frags[q as int].fields@[k - prev.len()]);
                        }
                    }
                },
            },
            ViewStructFieldKind::Field(item) => match resolve_item(original_fields, item, &view.name) {
                Ok(b) => {
                    let ghost before = bfs@;
                    bfs.push(b);
                    let ghost next = prev.push(*item);
                    assert(spec_expand(items.subrange(0, ii + 1), frags) == Some(next));
                    assert forall|k: int| 0 <= k < next.len() implies field_resolved(#[trigger] bfs@[k], fields, next[k])
                        && item_resolvable(fields, next[k]) by {
                        if k < prev.len() {
                            assert(bfs@[k] == before[k]);
                        }
                    }
                },
                Err(e) => {
                    proof {
                        lemma_expand_prefix(items, frags, ii + 1);
                        let whole = spec_expand(items, frags);
                        assert(spec_expand(items.subrange(0, ii + 1), frags) == Some(prev.push(*item)));
                        let pre = prev.push(*item);
                        assert(pre[prev.len() as int] == *item);
                        if whole is Some {
                            assert(whole.unwrap().subrange(0, pre.len() as int)[prev.len() as int] == *item);
                            assert(whole.unwrap()[prev.len() as int] == *item);
                        }
                    }
                    assert(!view_resolvable(*view, frags, fields));
                    return Err(e);
                },
            },
        }
        ii += 1;
    }
    assert(items.subrange(0, ii as int) =~= items);
    let ghost expanded = spec_expand(items, frags).unwrap();
    let mut names: Vec<String> = Vec::new();
    let mut k: usize = 0;
    while k < bfs.len()
        invariant
            k <= bfs.len(),
            names@.len() == k,
            forall|m: int| 0 <= m < k ==> #[trigger] names@[m]@ == expanded[m].field_name@,
        decreases bfs.len() - k,
    {
        proof {
            let j = field_index(fields, expanded[k as int].field_name@).unwrap();
            assert(field_resolved(bfs@[k as int], fields, expanded[k as int]));
            assert(fields[j].name@ == expanded[k as int].field_name@);
        }
        names.push(bfs[k].name.clone());
        k += 1;
    }
    assert(str_views(names@) =~= item_names(expanded));
    match find_duplicate(&names) {
        Some(j) => {
            return Err(ViewError::DuplicateViewField { view: view.name.clone(), field: names[j].clone() });
        },
        None => {},
    }
    let mut needs = false;
    let mut k: usize = 0;
    while k < bfs.len()
        invariant
            k <= bfs.len(),
            needs == exists|m: int| 0 <= m < k && #[trigger] bfs@[m].refs_need_original_lifetime,
        decreases bfs.len() - k,
    {
        if bfs[k].refs_need_original_lifetime {
            needs = true;
        }
        k += 1;
    }
    let mut builder = ViewStructBuilder::new(
        view.name.clone(),
        copy_generics(&view.generics),
        bfs,
        copy_strings(&view.attributes),
        view.visibility.clone(),
        copy_strings(&view.ref_attributes),
        copy_strings(&view.mut_attributes),
    );
    if needs {
        builder.add_original_struct_lifetime_to_refs();
    }
    Ok(builder)
}

/// Resolves every fragment once, then every view: a spread contributes a copy
/// of its fragment's resolved fields, in the fragment's order, and a direct
/// item resolves against the record. Field names within a view must be
/// unique whether they come from spreads or are written directly, since the
/// generated structs could not hold the same field twice.
#[verifier::loop_isolation(false)]
pub fn resolve_field_references(view_spec: &Views, original_fields: &Vec<RecordField>) -> (r: Result<
    Vec<ViewStructBuilder>,
    ViewError,
>)
    ensures
        r is Ok <==> spec_resolvable(*view_spec, original_fields@),
        r is Err ==> resolution_error(r->Err_0),
        r is Ok ==> r.unwrap()@.len() == view_spec.view_structs@.len() && forall|i: int|
            0 <= i < view_spec.view_structs@.len() ==> (#[trigger] r.unwrap()@[i]).resolves(
                view_spec.view_structs@[i],
                view_spec.fragments@,
                original_fields@,
            ),
{
    let ghost fields = original_fields@;
    let ghost frags = view_spec.fragments@;
    let mut builder_fragments: Vec<Vec<BuilderViewField>> = Vec::new();
    let mut fi: usize = 0;
    while fi < view_spec.fragments.len()
        invariant
            fi <= view_spec.fragments.len(),
            builder_fragments@.len() == fi,
            forall|q: int| 0 <= q < fi ==> fields_resolved(#[trigger] builder_fragments@[q]@, fields, frags[q].fields@),
            forall|q: int| 0 <= q < fi ==> items_resolvable(fields, #[trigger] frags[q].fields@),
        decreases view_spec.fragments.len() - fi,
    {
        let fragment = &view_spec.fragments[fi];
        let mut bfs: Vec<BuilderViewField> = Vec::new();
        let mut k: usize = 0;
        while k < fragment.fields.len()
            invariant
                k <= fragment.fields.len(),
                bfs@.len() == k,
                forall|m: int| 0 <= m < k ==> field_resolved(#[trigger] bfs@[m], fields, fragment.fields@[m]),
                forall|m: int| 0 <= m < k ==> item_resolvable(fields, #[trigger] fragment.fields@[m]),
            decreases fragment.fields.len() - k,
        {
            match resolve_item(original_fields, &fragment.fields[k], &fragment.name) {
                Ok(b) => bfs.push(b),
                Err(e) => {
                    assert(!items_resolvable(fields, frags[fi as int].fields@));
                    return Err(e);
                },
            }
            k += 1;
        }
        builder_fragments.push(bfs);
        fi += 1;
    }
    let mut out: Vec<ViewStructBuilder> = Vec::new();
    let mut vi: usize = 0;
    while vi < view_spec.view_structs.len()
        invariant
            vi <= view_spec.view_structs.len(),
            builder_fragments@.len() == frags.len(),
            forall|q: int| 0 <= q < frags.len() ==> fields_resolved(#[trigger] builder_fragments@[q]@, fields, frags[q].fields@),
            forall|q: int| 0 <= q < frags.len() ==> items_resolvable(fields, #[trigger] frags[q].fields@),
            out@.len() == vi,
            forall|q: int| 0 <= q < vi ==> (#[trigger] out@[q]).resolves(view_spec.view_structs@[q], frags, fields),
            forall|q: int| 0 <= q < vi ==> view_resolvable(#[trigger] view_spec.view_structs@[q], frags, fields),
        decreases view_spec.view_structs.len() - vi,
    {
        let view = &view_spec.view_structs[vi];
        let builder = match resolve_view(view, &view_spec.fragments, &builder_fragments, original_fields) {
            Ok(b) => b,
            Err(e) => {
                return Err(e);
            },
        };
        out.push(builder);
        vi += 1;
    }
    Ok(out)
}

pub open spec fn record_fields(rec: BaseRecord) -> Seq<RecordField> {
    match rec.shape {
        RecordShape::Named(f) => f@,
        _ => seq![],
    }
}

/// The record has named fields, the names in the specification are unique,
/// and every fragment and view resolves against the record.
pub open spec fn spec_resolution_ok(rec: BaseRecord, views: Views) -> bool {
    &&& rec.shape is Named
    &&& unique_names_ok(views)
    &&& spec_resolvable(views, record_fields(rec))
}

/// The errors that repeated names give.
pub open spec fn name_error(e: ViewError) -> bool {
    ||| e is DuplicateFragment
    ||| e is DuplicateFragmentField
    ||| e is DuplicateView
    ||| e is DuplicateSpread
    ||| e is DuplicateViewField
}

impl Builder {
    /// Every view is well formed.
    pub open spec fn well_formed(self) -> bool {
        forall|i: int| 0 <= i < self.view_structs@.len() ==> (#[trigger] self.view_structs@[i]).well_formed()
    }

    /// `self` is the resolution of `views` against `rec`.
    pub open spec fn resolves(self, rec: BaseRecord, views: Views) -> bool {
        &&& self.view_structs@.len() == views.view_structs@.len()
        &&& forall|i: int|
            0 <= i < views.view_structs@.len() ==> (#[trigger] self.view_structs@[i]).resolves(
                views.view_structs@[i],
                views.fragments@,
                record_fields(rec),
            )
    }
}

/// Views can only be derived from a record with named fields.
pub fn validate_original_struct(original_struct: &BaseRecord) -> (r: Result<(), ViewError>)
    ensures
        r is Ok <==> original_struct.shape is Named,
        r is Err ==> r->Err_0 is Shape,
{
    match &original_struct.shape {
        RecordShape::Named(_) => Ok(()),
        _ => Err(ViewError::Shape),
    }
}

/// The named fields of the record.
pub fn extract_original_fields(original_struct: &BaseRecord) -> (r: Result<&Vec<RecordField>, ViewError>)
    ensures
        r is Ok <==> original_struct.shape is Named,
        r is Ok ==> r.unwrap()@ == record_fields(*original_struct),
        r is Err ==> r->Err_0 is Shape,
{
    match &original_struct.shape {
        RecordShape::Named(f) => Ok(f),
        _ => Err(ViewError::Shape),
    }
}

/// Resolves the specification against the record: checks its shape and
/// names, then resolves every fragment and view.
pub fn resolve(original_struct: &BaseRecord, views: &Views, enum_attributes: Vec<String>) -> (r: Result<
    Builder,
    ViewError,
>)
    ensures
        r is Ok <==> spec_resolution_ok(*original_struct, *views),
        r is Ok ==> r.unwrap().resolves(*original_struct, *views) && r.unwrap().enum_attributes == enum_attributes,
        r is Ok ==> r.unwrap().well_formed(),
        (r is Err && r->Err_0 is Shape) <==> original_struct.shape !is Named,
        original_struct.shape is Named && !unique_names_ok(*views) ==> r is Err && name_error(r->Err_0),
        original_struct.shape is Named && unique_names_ok(*views) && r is Err ==> resolution_error(r->Err_0),
        original_struct.shape is Named ==> ((r is Err && r->Err_0 is DuplicateFragmentField)
            <==> !fragment_fields_unique(*views)),
        original_struct.shape is Named ==> ((r is Err && r->Err_0 is DuplicateFragment) <==> fragment_fields_unique(
            *views,
        ) && !names_distinct(fragment_names(*views))),
        original_struct.shape is Named ==> ((r is Err && r->Err_0 is DuplicateView) <==> fragment_fields_unique(
            *views,
        ) && names_distinct(fragment_names(*views)) && view_items_unique(*views) && !names_distinct(
            view_names(*views),
        )),
        original_struct.shape is Named && r is Err && r->Err_0 is DuplicateSpread ==> fragment_fields_unique(*views)
            && names_distinct(fragment_names(*views)) && !view_items_unique(*views),
{
    match validate_original_struct(original_struct) {
        Ok(()) => {},
        Err(e) => {
            return Err(e);
        },
    }
    match validate_unique_fields(views) {
        Ok(()) => {},
        Err(e) => {
            return Err(e);
        },
    }
    let fields = match extract_original_fields(original_struct) {
        Ok(f) => f,
        Err(e) => {
            return Err(e);
        },
    };
    match resolve_field_references(views, fields) {
        Ok(view_structs) => {
            let b = Builder { view_structs, enum_attributes };
            assert forall|i: int| 0 <= i < b.view_structs@.len() implies (#[trigger] b.view_structs@[i]).well_formed() by {
                assert(b.view_structs@[i].resolves(views.view_structs@[i], views.fragments@, record_fields(*original_struct)));
            }
            Ok(b)
        },
        Err(e) => Err(e),
    }
}

/// Two resolved fields are the same: same name, visibility, types in all
/// three forms (as written), flags, pattern and validation.
pub open spec fn same_resolution(x: BuilderViewField, y: BuilderViewField) -> bool {
    &&& x.name == y.name
    &&& x.vis == y.vis
    &&& x.regular_struct_field_type == y.regular_struct_field_type
    &&& crate::model::type_text(x.ref_struct_field_type) == crate::model::type_text(y.ref_struct_field_type)
    &&& crate::model::type_text(x.mut_struct_field_type) == crate::model::type_text(y.mut_struct_field_type)
    &&& x.stripped_type == y.stripped_type
    &&& x.is_stripped_type_ref == y.is_stripped_type_ref
    &&& x.is_ref == y.is_ref
    &&& x.is_mut == y.is_mut
    &&& x.is_option == y.is_option
    &&& x.refs_need_original_lifetime == y.refs_need_original_lifetime
    &&& x.pattern_to_match == y.pattern_to_match
    &&& x.validation == y.validation
}

/// Where the fields of the item at position `a` of a view start among its
/// expanded fields.
pub open spec fn item_offset(items: Seq<ViewStructFieldKind>, frags: Seq<Fragment>, a: int) -> int {
    spec_expand(items.subrange(0, a), frags).unwrap().len() as int
}

proof fn lemma_ref_forms_text(t: TypeExpr, r1: TypeExpr, m1: TypeExpr, r2: TypeExpr, m2: TypeExpr)
    requires
        spec_ref_forms(t, r1, m1),
        spec_ref_forms(t, r2, m2),
    ensures
        crate::model::type_text(r1) == crate::model::type_text(r2),
        crate::model::type_text(m1) == crate::model::type_text(m2),
{
}

proof fn lemma_spread_item(
    items: Seq<ViewStructFieldKind>,
    frags: Seq<Fragment>,
    a: int,
    q: int,
    m: int,
)
    requires
        spec_expand(items, frags) is Some,
        0 <= a < items.len(),
        items[a] is FragmentSpread,
        fragment_index(frags, items[a]->FragmentSpread_0@) == Some(q),
        0 <= m < frags[q].fields@.len(),
    ensures
        spec_expand(items.subrange(0, a), frags) is Some,
        item_offset(items, frags, a) + m < spec_expand(items, frags).unwrap().len(),
        spec_expand(items, frags).unwrap()[item_offset(items, frags, a) + m] == frags[q].fields@[m],
{
    lemma_expand_prefix(items, frags, a + 1);
    let s = items.subrange(0, a + 1);
    assert(s.drop_last() =~= items.subrange(0, a));
    assert(s.last() == items[a]);
    let pre = spec_expand(items.subrange(0, a), frags).unwrap();
    let pre1 = spec_expand(s, frags).unwrap();
    assert(pre1 == pre + frags[q].fields@);
    assert(pre1[pre.len() + m] == frags[q].fields@[m]);
    assert(spec_expand(items, frags).unwrap().subrange(0, pre1.len() as int)[pre.len() + m] == frags[q].fields@[m]);
}

/// A fragment spread into two views resolves the same way in both: each of
/// its fields gets the same types, flags, pattern and validation in either
/// view.
pub proof fn law_spread_identical(
    rec: BaseRecord,
    views: Views,
    b: Builder,
    i1: int,
    a1: int,
    i2: int,
    a2: int,
    q: int,
    m: int,
)
    requires
        b.resolves(rec, views),
        0 <= i1 < views.view_structs@.len(),
        0 <= i2 < views.view_structs@.len(),
        0 <= a1 < views.view_structs@[i1].items@.len(),
        0 <= a2 < views.view_structs@[i2].items@.len(),
        views.view_structs@[i1].items@[a1] is FragmentSpread,
        views.view_structs@[i2].items@[a2] is FragmentSpread,
        fragment_index(views.fragments@, views.view_structs@[i1].items@[a1]->FragmentSpread_0@) == Some(q),
        fragment_index(views.fragments@, views.view_structs@[i2].items@[a2]->FragmentSpread_0@) == Some(q),
        0 <= m < views.fragments@[q].fields@.len(),
    ensures
        same_resolution(
            b.view_structs@[i1].builder_fields@[item_offset(views.view_structs@[i1].items@, views.fragments@, a1) + m],
            b.view_structs@[i2].builder_fields@[item_offset(views.view_structs@[i2].items@, views.fragments@, a2) + m],
        ),
{
    let frags = views.fragments@;
    let fields = record_fields(rec);
    let v1 = views.view_structs@[i1];
    let v2 = views.view_structs@[i2];
    assert(b.view_structs@[i1].resolves(v1, frags, fields));
    assert(b.view_structs@[i2].resolves(v2, frags, fields));
    lemma_spread_item(v1.items@, frags, a1, q, m);
    lemma_spread_item(v2.items@, frags, a2, q, m);
    let k1 = item_offset(v1.items@, frags, a1) + m;
    let k2 = item_offset(v2.items@, frags, a2) + m;
    let item = frags[q].fields@[m];
    let x = b.view_structs@[i1].builder_fields@[k1];
    let y = b.view_structs@[i2].builder_fields@[k2];
    assert(field_resolved(x, fields, item));
    assert(field_resolved(y, fields, item));
    lemma_ref_forms_text(x.regular_struct_field_type, x.ref_struct_field_type, x.mut_struct_field_type, y.ref_struct_field_type, y.mut_struct_field_type);
}

} // verus!
