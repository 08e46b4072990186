//! Emission of the generated declarations as Rust source text.
use vstd::prelude::*;
use crate::model::{render_type, type_text, GenericParam, Generics, PatternPath, TypeExpr};
use crate::model::BaseRecord;
use crate::merge::{merged_fields, spec_merged, MergedField};
use crate::types::{deref_once, is_option, spec_is_mut_reference, spec_is_option, spec_is_reference};
use crate::resolve::{generic_params, generic_where, Builder, BuilderViewField, ViewStructBuilder};

verus! {

/// `v` followed by a space, or nothing for an empty visibility.
pub open spec fn vis_text(v: String) -> Seq<char> {
    if v@.len() == 0 {
        seq![]
    } else {
        v@ + " "@
    }
}

/// A parameter as declared (with bounds, `const` before a constant) or as
/// used (its name alone), followed by a comma.
pub open spec fn param_text(p: GenericParam, with_bounds: bool) -> Seq<char> {
    (if with_bounds && p.is_const {
        "const "@
    } else {
        seq![]
    }) + p.name@ + (if with_bounds && p.bounds is Some {
        ": "@ + p.bounds.unwrap()@
    } else {
        seq![]
    }) + ", "@
}

pub open spec fn params_text(ps: Seq<GenericParam>, with_bounds: bool) -> Seq<char>
    decreases ps.len(),
{
    if ps.len() == 0 {
        seq![]
    } else {
        params_text(ps.drop_last(), with_bounds) + param_text(ps.last(), with_bounds)
    }
}

/// `<A: Bound, B, >` with bounds, `<A, B, >` without; nothing when there are
/// no parameters.
pub open spec fn generics_text(g: Option<Generics>, with_bounds: bool) -> Seq<char> {
    if generic_params(g).len() == 0 {
        seq![]
    } else {
        "<"@ + params_text(generic_params(g), with_bounds) + ">"@
    }
}

pub open spec fn where_text(g: Option<Generics>) -> Seq<char> {
    match generic_where(g) {
        Some(w) => " where "@ + w@,
        None => seq![],
    }
}

/// Each attribute on a line of its own.
pub open spec fn attrs_text(attrs: Seq<String>) -> Seq<char>
    decreases attrs.len(),
{
    if attrs.len() == 0 {
        seq![]
    } else {
        attrs_text(attrs.drop_last()) + attrs.last()@ + "\n"@
    }
}

/// Which of the three structs of a view a text is for.
#[derive(Clone, Copy, Debug)]
pub enum Form {
    Owned,
    Ref,
    Mut,
}

pub open spec fn form_type(f: BuilderViewField, form: Form) -> TypeExpr {
    match form {
        Form::Owned => f.regular_struct_field_type,
        Form::Ref => f.ref_struct_field_type,
        Form::Mut => f.mut_struct_field_type,
    }
}

pub open spec fn field_decl_text(f: BuilderViewField, form: Form) -> Seq<char> {
    "    "@ + vis_text(f.vis) + f.name@ + ": "@ + type_text(form_type(f, form)) + ",\n"@
}

pub open spec fn fields_decl_text(fs: Seq<BuilderViewField>, form: Form) -> Seq<char>
    decreases fs.len(),
{
    if fs.len() == 0 {
        seq![]
    } else {
        fields_decl_text(fs.drop_last(), form) + field_decl_text(fs.last(), form)
    }
}

pub open spec fn form_suffix(form: Form) -> Seq<char> {
    match form {
        Form::Owned => seq![],
        Form::Ref => "Ref"@,
        Form::Mut => "Mut"@,
    }
}

pub open spec fn form_attrs(v: ViewStructBuilder, form: Form) -> Seq<String> {
    match form {
        Form::Owned => v.attributes@,
        Form::Ref => v.ref_attributes@,
        Form::Mut => v.mut_attributes@,
    }
}

/// The generics of the by-reference structs: with the shared lifetime when a
/// field needs it, else the view's own.
pub open spec fn ref_generics_of(v: ViewStructBuilder) -> Option<Generics> {
    match v.ref_generics {
        Some(g) => Some(g),
        None => v.original_generics,
    }
}

pub open spec fn form_generics(v: ViewStructBuilder, form: Form) -> Option<Generics> {
    match form {
        Form::Owned => v.original_generics,
        _ => ref_generics_of(v),
    }
}

/// The declaration of one of the three structs of a view.
pub open spec fn struct_text(v: ViewStructBuilder, form: Form) -> Seq<char> {
    attrs_text(form_attrs(v, form)) + vis_text(v.visibility) + "struct "@ + v.name@ + form_suffix(form)
        + generics_text(form_generics(v, form), true) + where_text(form_generics(v, form)) + " {\n"@
        + fields_decl_text(v.builder_fields@, form) + "}\n"@
}

fn append_vis(out: &mut String, v: &String)
    ensures
        final(out)@ == old(out)@ + vis_text(*v),
{
    if v.unicode_len() > 0 {
        out.append(v.as_str());
        out.append(" ");
    } else {
        assert(old(out)@ + vis_text(*v) =~= old(out)@);
    }
}

fn append_params(out: &mut String, ps: &Vec<GenericParam>, with_bounds: bool)
    ensures
        final(out)@ == old(out)@ + params_text(ps@, with_bounds),
{
    let mut i: usize = 0;
    while i < ps.len()
        invariant
            i <= ps.len(),
            out@ == old(out)@ + params_text(ps@.subrange(0, i as int), with_bounds),
        decreases ps.len() - i,
    {
        assert(ps@.subrange(0, i + 1).drop_last() =~= ps@.subrange(0, i as int));
        let p = &ps[i];
        if with_bounds && p.is_const {
            out.append("const ");
        }
        out.append(p.name.as_str());
        if with_bounds {
            match &p.bounds {
                Some(b) => {
                    out.append(": ");
                    out.append(b.as_str());
                },
                None => {},
            }
        }
        out.append(", ");
        i += 1;
        assert(out@ =~= old(out)@ + params_text(ps@.subrange(0, i as int), with_bounds));
    }
    assert(ps@.subrange(0, i as int) =~= ps@);
}

fn append_generics(out: &mut String, g: Option<&Generics>, with_bounds: bool)
    ensures
        final(out)@ == old(out)@ + generics_text(opt_generics(g), with_bounds),
{
    match g {
        Some(x) => {
            if x.params.len() > 0 {
                out.append("<");
                append_params(out, &x.params, with_bounds);
                out.append(">");
                assert(out@ =~= old(out)@ + generics_text(opt_generics(g), with_bounds));
            } else {
                assert(old(out)@ + generics_text(opt_generics(g), with_bounds) =~= old(out)@);
            }
        },
        None => {
            assert(old(out)@ + generics_text(opt_generics(g), with_bounds) =~= old(out)@);
        },
    }
}

fn append_where(out: &mut String, g: Option<&Generics>)
    ensures
        final(out)@ == old(out)@ + where_text(opt_generics(g)),
{
    match g {
        Some(x) => match &x.where_clause {
            Some(w) => {
                out.append(" where ");
                out.append(w.as_str());
                assert(out@ =~= old(out)@ + where_text(opt_generics(g)));
            },
            None => {
                assert(old(out)@ + where_text(opt_generics(g)) =~= old(out)@);
            },
        },
        None => {
            assert(old(out)@ + where_text(opt_generics(g)) =~= old(out)@);
        },
    }
}

pub open spec fn opt_generics(g: Option<&Generics>) -> Option<Generics> {
    match g {
        Some(x) => Some(*x),
        None => None,
    }
}

fn append_attrs(out: &mut String, attrs: &Vec<String>)
    ensures
        final(out)@ == old(out)@ + attrs_text(attrs@),
{
    let mut i: usize = 0;
    while i < attrs.len()
        invariant
            i <= attrs.len(),
            out@ == old(out)@ + attrs_text(attrs@.subrange(0, i as int)),
        decreases attrs.len() - i,
    {
        assert(attrs@.subrange(0, i + 1).drop_last() =~= attrs@.subrange(0, i as int));
        out.append(attrs[i].as_str());
        out.append("\n");
        i += 1;
        assert(out@ =~= old(out)@ + attrs_text(attrs@.subrange(0, i as int)));
    }
    assert(attrs@.subrange(0, i as int) =~= attrs@);
}

fn form_type_of(f: &BuilderViewField, form: Form) -> (r: &TypeExpr)
    ensures
        *r == form_type(*f, form),
{
    match form {
        Form::Owned => &f.regular_struct_field_type,
        Form::Ref => &f.ref_struct_field_type,
        Form::Mut => &f.mut_struct_field_type,
    }
}

/// Emits the declaration of one of the three structs of a view.
#[verifier::rlimit(50)]
pub fn generate_view_struct(view_struct: &ViewStructBuilder, form: Form) -> (r: String)
    requires
        view_struct.well_formed(),
    ensures
        r@ == struct_text(*view_struct, form),
{
    let mut out = String::new();
    let attrs = match form {
        Form::Owned => &view_struct.attributes,
        Form::Ref => &view_struct.ref_attributes,
        Form::Mut => &view_struct.mut_attributes,
    };
    append_attrs(&mut out, attrs);
    append_vis(&mut out, &view_struct.visibility);
    out.append("struct ");
    out.append(view_struct.name.as_str());
    match form {
        Form::Owned => {},
        Form::Ref => out.append("Ref"),
        Form::Mut => out.append("Mut"),
    }
    let g = match form {
        Form::Owned => view_struct.get_regular_generics(),
        _ => view_struct.get_ref_generics(),
    };
    assert(opt_generics(g) == form_generics(*view_struct, form));
    append_generics(&mut out, g, true);
    append_where(&mut out, g);
    out.append(" {\n");
    let fs = &view_struct.builder_fields;
    let ghost head = out@;
    let mut i: usize = 0;
    while i < fs.len()
        invariant
            i <= fs.len(),
            out@ == head + fields_decl_text(fs@.subrange(0, i as int), form),
        decreases fs.len() - i,
    {
        assert(fs@.subrange(0, i + 1).drop_last() =~= fs@.subrange(0, i as int));
        let f = &fs[i];
        out.append("    ");
        append_vis(&mut out, &f.vis);
        out.append(f.name.as_str());
        out.append(": ");
        render_type(form_type_of(f, form), &mut out);
        out.append(",\n");
        i += 1;
        assert(out@ =~= head + fields_decl_text(fs@.subrange(0, i as int), form));
    }
    assert(fs@.subrange(0, i as int) =~= fs@);
    out.append("}\n");
    assert(out@ =~= struct_text(*view_struct, form));
    out
}

/// How `as_ref` / `as_mut` of a view struct borrow a field: owned fields are
/// borrowed, mutable references reborrowed, shared references copied.
pub open spec fn borrow_prefix(f: BuilderViewField, form: Form) -> Seq<char> {
    if !f.is_ref {
        if form is Mut {
            "&mut "@
        } else {
            "&"@
        }
    } else if f.is_mut {
        if form is Mut {
            "&mut *"@
        } else {
            "&*"@
        }
    } else {
        seq![]
    }
}

pub open spec fn init_text(f: BuilderViewField, form: Form) -> Seq<char> {
    "            "@ + f.name@ + ": "@ + borrow_prefix(f, form) + "self."@ + f.name@ + ",\n"@
}

pub open spec fn inits_text(fs: Seq<BuilderViewField>, form: Form) -> Seq<char>
    decreases fs.len(),
{
    if fs.len() == 0 {
        seq![]
    } else {
        inits_text(fs.drop_last(), form) + init_text(fs.last(), form)
    }
}

pub open spec fn view_receiver_text(v: ViewStructBuilder, form: Form) -> Seq<char> {
    (if v.ref_generics is Some {
        "&'original "@
    } else {
        "&"@
    }) + (if form is Mut {
        "mut "@
    } else {
        seq![]
    }) + "self"@
}

/// `as_ref` (for `Form::Ref`) or `as_mut` (for `Form::Mut`) of a view struct.
pub open spec fn view_method_word(form: Form) -> Seq<char> {
    if form is Mut {
        "as_mut"@
    } else {
        "as_ref"@
    }
}

pub open spec fn view_method_head_text(v: ViewStructBuilder, form: Form) -> Seq<char> {
    "    pub fn "@ + view_method_word(form) + "("@ + view_receiver_text(v, form) + ") -> "@ + v.name@ + form_suffix(form) + generics_text(
        ref_generics_of(v),
        false,
    ) + " {\n        "@ + v.name@ + form_suffix(form) + " {\n"@
}

pub open spec fn view_method_text(v: ViewStructBuilder, form: Form) -> Seq<char> {
    view_method_head_text(v, form) + inits_text(v.builder_fields@, form) + "        }\n    }\n"@
}

/// The by-reference and by-mutable-reference structs of a view, and the
/// methods that borrow a view value as them.
pub open spec fn ref_structs_text(v: ViewStructBuilder) -> Seq<char> {
    struct_text(v, Form::Ref) + struct_text(v, Form::Mut) + "impl"@ + generics_text(ref_generics_of(v), true)
        + " "@ + v.name@ + generics_text(v.original_generics, false) + where_text(v.original_generics)
        + " {\n"@ + view_method_text(v, Form::Ref) + view_method_text(v, Form::Mut) + "}\n"@
}

fn append_suffix(out: &mut String, form: Form)
    ensures
        final(out)@ == old(out)@ + form_suffix(form),
{
    match form {
        Form::Owned => {
            assert(old(out)@ + form_suffix(form) =~= old(out)@);
        },
        Form::Ref => out.append("Ref"),
        Form::Mut => out.append("Mut"),
    }
}

fn append_init(out: &mut String, f: &BuilderViewField, form: Form)
    ensures
        final(out)@ == old(out)@ + init_text(*f, form),
{
    out.append("            ");
    out.append(f.name.as_str());
    out.append(": ");
    if !f.is_ref {
        if matches!(form, Form::Mut) {
            out.append("&mut ");
        } else {
            out.append("&");
        }
    } else if f.is_mut {
        if matches!(form, Form::Mut) {
            out.append("&mut *");
        } else {
            out.append("&*");
        }
    }
    out.append("self.");
    out.append(f.name.as_str());
    out.append(",\n");
    assert(out@ =~= old(out)@ + init_text(*f, form));
}

#[verifier::rlimit(50)]
fn append_inits(out: &mut String, fs: &Vec<BuilderViewField>, form: Form)
    ensures
        final(out)@ == old(out)@ + inits_text(fs@, form),
{
    let ghost head = old(out)@;
    let mut i: usize = 0;
    while i < fs.len()
        invariant
            i <= fs.len(),
            out@ == head + inits_text(fs@.subrange(0, i as int), form),
        decreases fs.len() - i,
    {
        assert(fs@.subrange(0, i + 1).drop_last() =~= fs@.subrange(0, i as int));
        append_init(out, &fs[i], form);
        i += 1;
        assert(out@ =~= head + inits_text(fs@.subrange(0, i as int), form));
    }
    assert(fs@.subrange(0, i as int) =~= fs@);
}

fn append_receiver(out: &mut String, v: &ViewStructBuilder, form: Form)
    ensures
        final(out)@ == old(out)@ + view_receiver_text(*v, form),
{
    if v.ref_generics.is_some() {
        out.append("&'original ");
    } else {
        out.append("&");
    }
    if matches!(form, Form::Mut) {
        out.append("mut ");
    }
    out.append("self");
    assert(out@ =~= old(out)@ + view_receiver_text(*v, form));
}

#[verifier::rlimit(50)]
fn append_view_method_head(out: &mut String, v: &ViewStructBuilder, form: Form)
    ensures
        final(out)@ == old(out)@ + view_method_head_text(*v, form),
{
    out.append("    pub fn ");
    let ghost a = out@;
    if matches!(form, Form::Mut) {
        out.append("as_mut");
    } else {
        out.append("as_ref");
    }
    assert(out@ == a + view_method_word(form));
    out.append("(");
    append_receiver(out, v, form);
    out.append(") -> ");
    out.append(v.name.as_str());
    append_suffix(out, form);
    let g = v.get_ref_generics();
    assert(opt_generics(g) == ref_generics_of(*v));
    append_generics(out, g, false);
    out.append(" {\n        ");
    out.append(v.name.as_str());
    append_suffix(out, form);
    out.append(" {\n");
    assert(out@ =~= old(out)@ + view_method_head_text(*v, form));
}

fn append_view_method(out: &mut String, v: &ViewStructBuilder, form: Form)
    ensures
        final(out)@ == old(out)@ + view_method_text(*v, form),
{
    append_view_method_head(out, v, form);
    let ghost mid = out@;
    append_inits(out, &v.builder_fields, form);
    out.append("        }\n    }\n");
    assert(out@ =~= mid + inits_text(v.builder_fields@, form) + "        }\n    }\n"@);
    assert(out@ =~= old(out)@ + view_method_text(*v, form));
}

/// Emits the by-reference and by-mutable-reference structs of a view and
/// its `as_ref` / `as_mut` methods.
pub fn generate_ref_view_structs_and_methods(view_struct: &ViewStructBuilder) -> (r: String)
    requires
        view_struct.well_formed(),
    ensures
        r@ == ref_structs_text(*view_struct),
{
    let mut out = generate_view_struct(view_struct, Form::Ref);
    let m = generate_view_struct(view_struct, Form::Mut);
    out.append(m.as_str());
    out.append("impl");
    let rg = view_struct.get_ref_generics();
    assert(opt_generics(rg) == ref_generics_of(*view_struct));
    append_generics(&mut out, rg, true);
    out.append(" ");
    out.append(view_struct.name.as_str());
    let g = view_struct.get_regular_generics();
    assert(opt_generics(g) == view_struct.original_generics);
    append_generics(&mut out, g, false);
    append_where(&mut out, g);
    out.append(" {\n");
    append_view_method(&mut out, view_struct, Form::Ref);
    append_view_method(&mut out, view_struct, Form::Mut);
    out.append("}\n");
    assert(out@ =~= ref_structs_text(*view_struct));
    out
}

pub open spec fn guard_text(e: Seq<char>) -> Seq<char> {
    "if !("@ + e + ") { return None; } "@
}

/// The validation of a field's value, evaluated on a shared borrow of it.
pub open spec fn check_text(f: BuilderViewField, form: Form) -> Seq<char> {
    let n = f.name@;
    match f.validation {
        None => seq![],
        Some(e) => match form {
            Form::Owned => if f.pattern_to_match is Some {
                "{ let "@ + n + " = &"@ + n + "; "@ + guard_text(e@) + "} "@
            } else {
                guard_text(e@)
            },
            Form::Ref => guard_text(e@),
            Form::Mut => "{ let "@ + n + " = &*"@ + n + "; "@ + guard_text(e@) + "} "@,
        },
    }
}

/// The value a field takes once extracted and checked.
pub open spec fn result_text(f: BuilderViewField, form: Form) -> Seq<char> {
    let n = f.name@;
    match form {
        Form::Owned => if f.pattern_to_match is None {
            "self."@ + n
        } else {
            n
        },
        Form::Ref => n,
        Form::Mut => if f.refs_need_original_lifetime {
            "&mut *"@ + n
        } else {
            n
        },
    }
}

/// The record field as the conversion takes it: moved, borrowed, or
/// borrowed exclusively.
pub open spec fn source_text(f: BuilderViewField, form: Form) -> Seq<char> {
    let n = f.name@;
    match form {
        Form::Owned => "self."@ + n,
        Form::Ref => "&self."@ + n,
        Form::Mut => "&mut self."@ + n,
    }
}

/// The expression that extracts a field in a conversion of the given form.
pub open spec fn pattern_expr_text(f: BuilderViewField, p: PatternPath, form: Form) -> Seq<char> {
    "if let "@ + p.text@ + "("@ + f.name@ + ") = "@ + source_text(f, form) + " { "@ + check_text(f, form)
        + result_text(f, form) + " } else { return None }"@
}

pub open spec fn plain_expr_text(f: BuilderViewField, form: Form) -> Seq<char> {
    let n = f.name@;
    if f.validation is None && !(form is Mut) {
            if form is Owned {
                "self."@ + n
            } else {
                "&self."@ + n
            }
        } else {
            "{ let "@ + n + " = "@ + (if form is Owned {
                "&self."@ + n
            } else {
                source_text(f, form)
            }) + "; "@ + check_text(f, form) + result_text(f, form) + " }"@
        }
}

pub open spec fn assign_expr_text(f: BuilderViewField, form: Form) -> Seq<char> {
    match f.pattern_to_match {
        Some(p) => pattern_expr_text(f, p, form),
        None => plain_expr_text(f, form),
    }
}

pub open spec fn assign_text(f: BuilderViewField, form: Form) -> Seq<char> {
    "            "@ + f.name@ + ": "@ + assign_expr_text(f, form) + ",\n"@
}

pub open spec fn assigns_text(fs: Seq<BuilderViewField>, form: Form) -> Seq<char>
    decreases fs.len(),
{
    if fs.len() == 0 {
        seq![]
    } else {
        assigns_text(fs.drop_last(), form) + assign_text(fs.last(), form)
    }
}

fn append_guard(out: &mut String, e: &String)
    ensures
        final(out)@ == old(out)@ + guard_text(e@),
{
    out.append("if !(");
    out.append(e.as_str());
    out.append(") { return None; } ");
    assert(out@ =~= old(out)@ + guard_text(e@));
}

fn append_check(out: &mut String, f: &BuilderViewField, form: Form)
    ensures
        final(out)@ == old(out)@ + check_text(*f, form),
{
    match &f.validation {
        None => {
            assert(old(out)@ + check_text(*f, form) =~= old(out)@);
        },
        Some(e) => {
            let inner_borrow: bool = match form {
                Form::Owned => f.pattern_to_match.is_some(),
                Form::Ref => false,
                Form::Mut => true,
            };
            if inner_borrow {
                out.append("{ let ");
                out.append(f.name.as_str());
                if matches!(form, Form::Mut) {
                    out.append(" = &*");
                } else {
                    out.append(" = &");
                }
                out.append(f.name.as_str());
                out.append("; ");
                append_guard(out, e);
                out.append("} ");
            } else {
                append_guard(out, e);
            }
            assert(out@ =~= old(out)@ + check_text(*f, form));
        },
    }
}

fn append_result(out: &mut String, f: &BuilderViewField, form: Form)
    ensures
        final(out)@ == old(out)@ + result_text(*f, form),
{
    match form {
        Form::Owned => if f.pattern_to_match.is_none() {
            out.append("self.");
        },
        Form::Ref => {},
        Form::Mut => if f.refs_need_original_lifetime {
            out.append("&mut *");
        },
    }
    out.append(f.name.as_str());
    assert(out@ =~= old(out)@ + result_text(*f, form));
}

fn append_source(out: &mut String, f: &BuilderViewField, form: Form)
    ensures
        final(out)@ == old(out)@ + source_text(*f, form),
{
    match form {
        Form::Owned => out.append("self."),
        Form::Ref => out.append("&self."),
        Form::Mut => out.append("&mut self."),
    }
    out.append(f.name.as_str());
    assert(out@ =~= old(out)@ + source_text(*f, form));
}

#[verifier::rlimit(50)]
fn append_pattern_expr(out: &mut String, f: &BuilderViewField, p: &PatternPath, form: Form)
    ensures
        final(out)@ == old(out)@ + pattern_expr_text(*f, *p, form),
{
    out.append("if let ");
    out.append(p.text.as_str());
    out.append("(");
    out.append(f.name.as_str());
    out.append(") = ");
    append_source(out, f, form);
    out.append(" { ");
    append_check(out, f, form);
    append_result(out, f, form);
    out.append(" } else { return None }");
    assert(out@ =~= old(out)@ + pattern_expr_text(*f, *p, form));
}

#[verifier::rlimit(50)]
fn append_plain_expr(out: &mut String, f: &BuilderViewField, form: Form)
    ensures
        final(out)@ == old(out)@ + plain_expr_text(*f, form),
{
    if f.validation.is_none() && !matches!(form, Form::Mut) {
        if matches!(form, Form::Owned) {
            out.append("self.");
        } else {
            out.append("&self.");
        }
        out.append(f.name.as_str());
    } else {
        out.append("{ let ");
        out.append(f.name.as_str());
        out.append(" = ");
        if matches!(form, Form::Owned) {
            out.append("&self.");
            out.append(f.name.as_str());
        } else {
            append_source(out, f, form);
        }
        out.append("; ");
        append_check(out, f, form);
        append_result(out, f, form);
        out.append(" }");
    }
    assert(out@ =~= old(out)@ + plain_expr_text(*f, form));
}

#[verifier::rlimit(50)]
fn append_assignment(out: &mut String, f: &BuilderViewField, form: Form)
    ensures
        final(out)@ == old(out)@ + assign_text(*f, form),
{
    out.append("            ");
    out.append(f.name.as_str());
    out.append(": ");
    match &f.pattern_to_match {
        Some(p) => append_pattern_expr(out, f, p, form),
        None => append_plain_expr(out, f, form),
    }
    out.append(",\n");
    assert(out@ =~= old(out)@ + assign_text(*f, form));
}

/// Emits the field initialisers of a conversion of the given form.
pub fn generate_assignments(builder_fields: &Vec<BuilderViewField>, form: Form) -> (r: String)
    ensures
        r@ == assigns_text(builder_fields@, form),
{
    let mut out = String::new();
    let fs = builder_fields;
    let mut i: usize = 0;
    while i < fs.len()
        invariant
            i <= fs.len(),
            out@ == assigns_text(fs@.subrange(0, i as int), form),
        decreases fs.len() - i,
    {
        assert(fs@.subrange(0, i + 1).drop_last() =~= fs@.subrange(0, i as int));
        append_assignment(&mut out, &fs[i], form);
        i += 1;
    }
    assert(fs@.subrange(0, i as int) =~= fs@);
    out
}

/// Emits the field initialisers of `into_<view>`.
pub fn generate_into_assignments(builder_fields: &Vec<BuilderViewField>) -> (r: String)
    ensures
        r@ == assigns_text(builder_fields@, Form::Owned),
{
    generate_assignments(builder_fields, Form::Owned)
}

/// Emits the field initialisers of `as_<view>_ref`.
pub fn generate_ref_assignments(builder_fields: &Vec<BuilderViewField>) -> (r: String)
    ensures
        r@ == assigns_text(builder_fields@, Form::Ref),
{
    generate_assignments(builder_fields, Form::Ref)
}

/// Emits the field initialisers of `as_<view>_mut`.
pub fn generate_mut_assignments(builder_fields: &Vec<BuilderViewField>) -> (r: String)
    ensures
        r@ == assigns_text(builder_fields@, Form::Mut),
{
    generate_assignments(builder_fields, Form::Mut)
}

/// The first character of `char::to_lowercase` of `c`.
pub uninterp spec fn lowercase_first(c: char) -> char;

/// `char::is_uppercase` of `c`.
pub uninterp spec fn uppercase(c: char) -> bool;

/// Relies on `char::to_lowercase`: its first character, a function of `c`
/// alone; the mapping always yields at least one character.
#[verifier::external_body]
fn to_lowercase_first(c: char) -> (r: char)
    ensures
        r == lowercase_first(c),
{
    c.to_lowercase().next().unwrap()
}

/// Relies on `char::is_uppercase`, a function of `c` alone.
#[verifier::external_body]
fn is_uppercase(c: char) -> (r: bool)
    ensures
        r == uppercase(c),
{
    c.is_uppercase()
}

/// Relies on `String::push`: appends `c`.
#[verifier::external_body]
fn push_char(s: &mut String, c: char)
    ensures
        final(s)@ == old(s)@.push(c),
{
    s.push(c)
}

/// Snake case from each character's lowercase form `lowered[i]` and
/// whether it is uppercase (`upper[i]`): the lowercase forms in order, with
/// an underscore before each uppercase character but the first.
pub open spec fn snake_of_mapped(lowered: Seq<char>, upper: Seq<bool>) -> Seq<char>
    decreases lowered.len(),
{
    if lowered.len() <= 1 {
        lowered
    } else {
        snake_of_mapped(lowered.drop_last(), upper.drop_last()) + if upper[lowered.len() - 1] {
            seq!['_', lowered.last()]
        } else {
            seq![lowered.last()]
        }
    }
}

/// `PascalCase` to `snake_case`: every character lowercased, and an
/// underscore before each uppercase character but the first.
pub open spec fn snake_case(s: Seq<char>) -> Seq<char> {
    snake_of_mapped(s.map_values(|c: char| lowercase_first(c)), s.map_values(|c: char| uppercase(c)))
}

/// Joins already lowercased characters into snake case, given which of the
/// original characters were uppercase.
pub fn snake_from_mapped(lowered: &Vec<char>, upper: &Vec<bool>) -> (r: String)
    requires
        lowered@.len() == upper@.len(),
    ensures
        r@ == snake_of_mapped(lowered@, upper@),
{
    let n = lowered.len();
    let mut result = String::new();
    let mut i: usize = 0;
    while i < n
        invariant
            i <= n,
            n == lowered@.len(),
            n == upper@.len(),
            result@ == snake_of_mapped(lowered@.subrange(0, i as int), upper@.subrange(0, i as int)),
        decreases n - i,
    {
        let ghost l1 = lowered@.subrange(0, i + 1);
        let ghost u1 = upper@.subrange(0, i + 1);
        assert(l1.drop_last() =~= lowered@.subrange(0, i as int));
        assert(u1.drop_last() =~= upper@.subrange(0, i as int));
        if i > 0 && upper[i] {
            push_char(&mut result, '_');
        }
        push_char(&mut result, lowered[i]);
        i += 1;
        assert(result@ =~= snake_of_mapped(l1, u1));
    }
    assert(lowered@.subrange(0, n as int) =~= lowered@);
    assert(upper@.subrange(0, n as int) =~= upper@);
    result
}

/// Turns a view name into the word of its conversion methods.
pub fn pascal_to_snake_case(s: &str) -> (r: String)
    ensures
        r@ == snake_case(s@),
{
    let n = s.unicode_len();
    let mut lowered: Vec<char> = Vec::new();
    let mut upper: Vec<bool> = Vec::new();
    let mut i: usize = 0;
    while i < n
        invariant
            i <= n,
            n == s@.len(),
            lowered@ =~= s@.subrange(0, i as int).map_values(|c: char| lowercase_first(c)),
            upper@ =~= s@.subrange(0, i as int).map_values(|c: char| uppercase(c)),
        decreases n - i,
    {
        let c = s.get_char(i);
        lowered.push(to_lowercase_first(c));
        upper.push(is_uppercase(c));
        i += 1;
        assert(lowered@ =~= s@.subrange(0, i as int).map_values(|c: char| lowercase_first(c)));
        assert(upper@ =~= s@.subrange(0, i as int).map_values(|c: char| uppercase(c)));
    }
    assert(s@.subrange(0, n as int) =~= s@);
    snake_from_mapped(&lowered, &upper)
}

/// A view whose conversions can fail: some field has a pattern or a validation.
pub open spec fn fallible(v: ViewStructBuilder) -> bool {
    exists|k: int|
        0 <= k < v.builder_fields@.len() && ((#[trigger] v.builder_fields@[k]).pattern_to_match is Some
            || v.builder_fields@[k].validation is Some)
}

pub open spec fn conversion_name_text(form: Form, snake: Seq<char>) -> Seq<char> {
    match form {
        Form::Owned => "into_"@ + snake,
        Form::Ref => "as_"@ + snake + "_ref"@,
        Form::Mut => "as_"@ + snake + "_mut"@,
    }
}

pub open spec fn conversion_receiver_text(form: Form) -> Seq<char> {
    match form {
        Form::Owned => "self"@,
        Form::Ref => "&'original self"@,
        Form::Mut => "&'original mut self"@,
    }
}

pub open spec fn optional_text(wrap: bool, t: Seq<char>) -> Seq<char> {
    if wrap {
        "Option<"@ + t + ">"@
    } else {
        t
    }
}

pub open spec fn conversion_head_text(v: ViewStructBuilder, form: Form, snake: Seq<char>) -> Seq<char> {
    "    pub fn "@ + conversion_name_text(form, snake) + "("@ + conversion_receiver_text(form) + ") -> "@
        + optional_text(fallible(v), v.name@ + form_suffix(form) + generics_text(form_generics(v, form), false))
        + " {\n"@
}

pub open spec fn conversion_body_text(v: ViewStructBuilder, form: Form) -> Seq<char> {
    "        "@ + (if fallible(v) {
        "Some("@
    } else {
        seq![]
    }) + v.name@ + form_suffix(form) + " {\n"@ + assigns_text(v.builder_fields@, form) + "        }"@ + (if fallible(
        v,
    ) {
        ")"@
    } else {
        seq![]
    }) + "\n    }\n"@
}

/// One of `into_<view>`, `as_<view>_ref`, `as_<view>_mut`.
pub open spec fn conversion_text(v: ViewStructBuilder, form: Form) -> Seq<char> {
    conversion_head_text(v, form, snake_case(v.name@)) + conversion_body_text(v, form)
}

#[verifier::opaque]
pub open spec fn view_conversions_text(v: ViewStructBuilder) -> Seq<char> {
    conversion_text(v, Form::Owned) + conversion_text(v, Form::Ref) + conversion_text(v, Form::Mut)
}

pub open spec fn all_conversions_text(vs: Seq<ViewStructBuilder>) -> Seq<char>
    decreases vs.len(),
{
    if vs.len() == 0 {
        seq![]
    } else {
        all_conversions_text(vs.drop_last()) + view_conversions_text(vs.last())
    }
}

/// The impl block on the record with the conversions to every view.
pub open spec fn conversions_impl_text(rec: BaseRecord, vs: Seq<ViewStructBuilder>) -> Seq<char> {
    "impl<'original, "@ + params_text(rec.generics.params@, true) + "> "@ + rec.name@ + generics_text(
        Some(rec.generics),
        false,
    ) + where_text(Some(rec.generics)) + " {\n"@ + all_conversions_text(vs) + "}\n"@
}

fn is_fallible(v: &ViewStructBuilder) -> (r: bool)
    ensures
        r == fallible(*v),
{
    let mut k: usize = 0;
    while k < v.builder_fields.len()
        invariant
            k <= v.builder_fields.len(),
            forall|m: int|
                0 <= m < k ==> (#[trigger] v.builder_fields@[m]).pattern_to_match is None
                    && v.builder_fields@[m].validation is None,
        decreases v.builder_fields.len() - k,
    {
        let f = &v.builder_fields[k];
        if f.pattern_to_match.is_some() || f.validation.is_some() {
            return true;
        }
        k += 1;
    }
    false
}

fn append_conversion_name(out: &mut String, form: Form, snake: &String)
    ensures
        final(out)@ == old(out)@ + conversion_name_text(form, snake@),
{
    match form {
        Form::Owned => {
            out.append("into_");
            out.append(snake.as_str());
        },
        Form::Ref => {
            out.append("as_");
            out.append(snake.as_str());
            out.append("_ref");
        },
        Form::Mut => {
            out.append("as_");
            out.append(snake.as_str());
            out.append("_mut");
        },
    }
    assert(out@ =~= old(out)@ + conversion_name_text(form, snake@));
}

fn append_conversion_receiver(out: &mut String, form: Form)
    ensures
        final(out)@ == old(out)@ + conversion_receiver_text(form),
{
    match form {
        Form::Owned => out.append("self"),
        Form::Ref => out.append("&'original self"),
        Form::Mut => out.append("&'original mut self"),
    }
}

fn append_conversion_return(out: &mut String, v: &ViewStructBuilder, form: Form, wrap: bool)
    ensures
        final(out)@ == old(out)@ + optional_text(
            wrap,
            v.name@ + form_suffix(form) + generics_text(form_generics(*v, form), false),
        ),
{
    if wrap {
        out.append("Option<");
    }
    out.append(v.name.as_str());
    append_suffix(out, form);
    let g = match form {
        Form::Owned => v.get_regular_generics(),
        _ => v.get_ref_generics(),
    };
    assert(opt_generics(g) == form_generics(*v, form));
    append_generics(out, g, false);
    if wrap {
        out.append(">");
    }
    assert(out@ =~= old(out)@ + optional_text(
        wrap,
        v.name@ + form_suffix(form) + generics_text(form_generics(*v, form), false),
    ));
}

fn append_conversion_head(out: &mut String, v: &ViewStructBuilder, form: Form, snake: &String, fallible: bool)
    requires
        fallible == crate::expand::fallible(*v),
    ensures
        final(out)@ == old(out)@ + conversion_head_text(*v, form, snake@),
{
    out.append("    pub fn ");
    append_conversion_name(out, form, snake);
    out.append("(");
    append_conversion_receiver(out, form);
    out.append(") -> ");
    append_conversion_return(out, v, form, fallible);
    out.append(" {\n");
    assert(out@ =~= old(out)@ + conversion_head_text(*v, form, snake@));
}

#[verifier::rlimit(50)]
fn append_conversion_body(out: &mut String, v: &ViewStructBuilder, form: Form, fallible: bool)
    requires
        fallible == crate::expand::fallible(*v),
    ensures
        final(out)@ == old(out)@ + conversion_body_text(*v, form),
{
    out.append("        ");
    if fallible {
        out.append("Some(");
    }
    out.append(v.name.as_str());
    append_suffix(out, form);
    out.append(" {\n");
    let assigns = generate_assignments(&v.builder_fields, form);
    out.append(assigns.as_str());
    out.append("        }");
    if fallible {
        out.append(")");
    }
    out.append("\n    }\n");
    assert(out@ =~= old(out)@ + conversion_body_text(*v, form));
}

fn append_conversion(out: &mut String, v: &ViewStructBuilder, form: Form, snake: &String, fallible: bool)
    requires
        fallible == crate::expand::fallible(*v),
        snake@ == snake_case(v.name@),
    ensures
        final(out)@ == old(out)@ + conversion_text(*v, form),
{
    append_conversion_head(out, v, form, snake, fallible);
    append_conversion_body(out, v, form, fallible);
    assert(out@ =~= old(out)@ + conversion_text(*v, form));
}

#[verifier::rlimit(50)]
fn append_view_conversions(out: &mut String, v: &ViewStructBuilder)
    ensures
        final(out)@ == old(out)@ + view_conversions_text(*v),
{
    let snake = pascal_to_snake_case(v.name.as_str());
    let fallible = is_fallible(v);
    append_conversion(out, v, Form::Owned, &snake, fallible);
    append_conversion(out, v, Form::Ref, &snake, fallible);
    append_conversion(out, v, Form::Mut, &snake, fallible);
    reveal(view_conversions_text);
    assert(out@ =~= old(out)@ + view_conversions_text(*v));
}

/// Emits the impl block on the record with `into_<view>`, `as_<view>_ref`
/// and `as_<view>_mut` for every view.
#[verifier::rlimit(50)]
pub fn generate_original_conversion_methods(original_struct: &BaseRecord, context: &Builder) -> (r: String)
    requires
        context.well_formed(),
    ensures
        r@ == conversions_impl_text(*original_struct, context.view_structs@),
{
    let mut out = String::new();
    out.append("impl<'original, ");
    append_params(&mut out, &original_struct.generics.params, true);
    out.append("> ");
    out.append(original_struct.name.as_str());
    append_generics(&mut out, Some(&original_struct.generics), false);
    append_where(&mut out, Some(&original_struct.generics));
    out.append(" {\n");
    let ghost head = out@;
    let vs = &context.view_structs;
    let mut i: usize = 0;
    while i < vs.len()
        invariant
            i <= vs.len(),
            out@ == head + all_conversions_text(vs@.subrange(0, i as int)),
        decreases vs.len() - i,
    {
        assert(vs@.subrange(0, i + 1).drop_last() =~= vs@.subrange(0, i as int));
        append_view_conversions(&mut out, &vs[i]);
        i += 1;
        assert(out@ =~= head + all_conversions_text(vs@.subrange(0, i as int)));
    }
    assert(vs@.subrange(0, i as int) =~= vs@);
    out.append("}\n");
    assert(out@ =~= conversions_impl_text(*original_struct, context.view_structs@));
    out
}

/// A field of view type `t` and stripped type `st` whose accessor hands out
/// the reference it already holds, lifetime included: a shared reference
/// (`&'a U`), or an optional shared reference (`Option<&'a U>`).
pub open spec fn passes_through(t: TypeExpr, st: TypeExpr) -> bool {
    ||| spec_is_reference(t) && !spec_is_mut_reference(t) && !spec_is_option(t)
    ||| !spec_is_reference(t) && spec_is_option(t) && spec_is_reference(st) && !spec_is_mut_reference(st)
}

/// What an accessor of the enum returns inside its optional: an existing
/// shared reference as it is, lifetime included; otherwise a shared
/// reference to the stripped type, a mutable reference reborrowed shared.
pub open spec fn accessor_inner_text(d: MergedField) -> Seq<char> {
    if passes_through(d.regular_type, d.stripped_type) {
        if spec_is_reference(d.regular_type) {
            type_text(d.regular_type)
        } else {
            type_text(d.stripped_type)
        }
    } else {
        "&"@ + type_text(deref_once(d.stripped_type))
    }
}

/// The value an accessor's arm yields for view field `f`: a held shared
/// reference copied out, an optional borrowed through `as_ref` (or
/// `as_deref` over a mutable reference), anything else borrowed.
pub open spec fn arm_expr_text(d: MergedField, f: BuilderViewField) -> Seq<char> {
    let n = f.name@;
    let pass = passes_through(f.regular_struct_field_type, f.stripped_type);
    if f.is_option && !pass {
        if f.is_stripped_type_ref {
            "view."@ + n + ".as_deref()"@
        } else {
            "view."@ + n + ".as_ref()"@
        }
    } else {
        let e = if pass {
            "view."@ + n
        } else if f.is_ref {
            "&*view."@ + n
        } else {
            "&view."@ + n
        };
        if d.is_there_an_option && !f.is_option {
            "Some("@ + e + ")"@
        } else {
            e
        }
    }
}

pub open spec fn arm_text(enum_name: Seq<char>, v: ViewStructBuilder, d: MergedField, f: BuilderViewField) -> Seq<char> {
    "            "@ + enum_name + "::"@ + v.name@ + "(view) => "@ + arm_expr_text(d, f) + ",\n"@
}

/// The match arm of view `v` for the accessor of `d`, if `v` has that field.
pub open spec fn field_arms_text(
    enum_name: Seq<char>,
    v: ViewStructBuilder,
    fs: Seq<BuilderViewField>,
    d: MergedField,
) -> Seq<char>
    decreases fs.len(),
{
    if fs.len() == 0 {
        seq![]
    } else {
        field_arms_text(enum_name, v, fs.drop_last(), d) + if fs.last().name@ == d.name@ {
            arm_text(enum_name, v, d, fs.last())
        } else {
            seq![]
        }
    }
}

pub open spec fn arms_text(enum_name: Seq<char>, vs: Seq<ViewStructBuilder>, d: MergedField) -> Seq<char>
    decreases vs.len(),
{
    if vs.len() == 0 {
        seq![]
    } else {
        arms_text(enum_name, vs.drop_last(), d) + field_arms_text(enum_name, vs.last(), vs.last().builder_fields@, d)
    }
}

/// The read-only accessor of one field name on the enum over the views.
pub open spec fn accessor_text(enum_name: Seq<char>, vs: Seq<ViewStructBuilder>, d: MergedField) -> Seq<char> {
    "    pub fn "@ + d.name@ + "(&self) -> "@ + optional_text(d.is_there_an_option, accessor_inner_text(d))
        + " {\n        match self {\n"@ + arms_text(enum_name, vs, d) + (if d.is_there_an_option {
        "            _ => None,\n"@
    } else {
        seq![]
    }) + "        }\n    }\n"@
}

pub open spec fn accessors_text(enum_name: Seq<char>, vs: Seq<ViewStructBuilder>, ds: Seq<MergedField>) -> Seq<char>
    decreases ds.len(),
{
    if ds.len() == 0 {
        seq![]
    } else {
        accessors_text(enum_name, vs, ds.drop_last()) + accessor_text(enum_name, vs, ds.last())
    }
}

pub open spec fn variants_text(vs: Seq<ViewStructBuilder>) -> Seq<char>
    decreases vs.len(),
{
    if vs.len() == 0 {
        seq![]
    } else {
        variants_text(vs.drop_last()) + "    "@ + vs.last().name@ + "("@ + vs.last().name@ + generics_text(
            vs.last().original_generics,
            false,
        ) + "),\n"@
    }
}

pub open spec fn enum_name_text(rec: BaseRecord) -> Seq<char> {
    rec.name@ + "Variant"@
}

/// The enum with one variant per view, and its accessors.
pub open spec fn enum_text(rec: BaseRecord, b: Builder) -> Seq<char> {
    let g = Some(rec.generics);
    let en = enum_name_text(rec);
    attrs_text(b.enum_attributes@) + vis_text(rec.vis) + "enum "@ + en + generics_text(g, true) + where_text(g)
        + " {\n"@ + variants_text(b.view_structs@) + "}\n"@ + "impl"@ + generics_text(g, true) + " "@ + en
        + generics_text(g, false) + where_text(g) + " {\n"@ + accessors_text(
        en,
        b.view_structs@,
        spec_merged(b.view_structs@),
    ) + "}\n"@
}

fn is_shared_ref(t: &TypeExpr) -> (r: bool)
    ensures
        r == (spec_is_reference(*t) && !spec_is_mut_reference(*t)),
{
    match t {
        TypeExpr::Reference(r) => !r.mutable,
        _ => false,
    }
}

fn holds_passing_ref(t: &TypeExpr, st: &TypeExpr) -> (r: bool)
    ensures
        r == passes_through(*t, *st),
{
    let opt = is_option(t);
    let is_ref = match t {
        TypeExpr::Reference(_) => true,
        _ => false,
    };
    (is_shared_ref(t) && !opt) || (!is_ref && opt && is_shared_ref(st))
}

fn append_arm_expr(out: &mut String, d: &MergedField, f: &BuilderViewField)
    ensures
        final(out)@ == old(out)@ + arm_expr_text(*d, *f),
{
    let pass = holds_passing_ref(&f.regular_struct_field_type, &f.stripped_type);
    if f.is_option && !pass {
        out.append("view.");
        out.append(f.name.as_str());
        if f.is_stripped_type_ref {
            out.append(".as_deref()");
        } else {
            out.append(".as_ref()");
        }
    } else {
        let wrap = d.is_there_an_option && !f.is_option;
        if wrap {
            out.append("Some(");
        }
        if pass {
            out.append("view.");
        } else if f.is_ref {
            out.append("&*view.");
        } else {
            out.append("&view.");
        }
        out.append(f.name.as_str());
        if wrap {
            out.append(")");
        }
    }
    assert(out@ =~= old(out)@ + arm_expr_text(*d, *f));
}

fn append_view_arms(out: &mut String, enum_name: &String, v: &ViewStructBuilder, d: &MergedField)
    ensures
        final(out)@ == old(out)@ + field_arms_text(enum_name@, *v, v.builder_fields@, *d),
{
    let fs = &v.builder_fields;
    let mut i: usize = 0;
    while i < fs.len()
        invariant
            i <= fs.len(),
            out@ == old(out)@ + field_arms_text(enum_name@, *v, fs@.subrange(0, i as int), *d),
        decreases fs.len() - i,
    {
        assert(fs@.subrange(0, i + 1).drop_last() =~= fs@.subrange(0, i as int));
        let f = &fs[i];
        let ghost before = out@;
        if f.name == d.name {
            out.append("            ");
            out.append(enum_name.as_str());
            out.append("::");
            out.append(v.name.as_str());
            out.append("(view) => ");
            append_arm_expr(out, d, f);
            out.append(",\n");
            assert(out@ =~= before + arm_text(enum_name@, *v, *d, *f));
        }
        i += 1;
        assert(out@ =~= old(out)@ + field_arms_text(enum_name@, *v, fs@.subrange(0, i as int), *d));
    }
    assert(fs@.subrange(0, i as int) =~= fs@);
}

fn append_accessor_type(out: &mut String, d: &MergedField)
    ensures
        final(out)@ == old(out)@ + optional_text(d.is_there_an_option, accessor_inner_text(*d)),
{
    if d.is_there_an_option {
        out.append("Option<");
    }
    let ghost b = out@;
    if holds_passing_ref(&d.regular_type, &d.stripped_type) {
        match &d.regular_type {
            TypeExpr::Reference(_) => render_type(&d.regular_type, out),
            _ => render_type(&d.stripped_type, out),
        }
    } else {
        out.append("&");
        match &d.stripped_type {
            TypeExpr::Reference(r) => render_type(&r.elem, out),
            _ => render_type(&d.stripped_type, out),
        }
    }
    assert(out@ =~= b + accessor_inner_text(*d));
    if d.is_there_an_option {
        out.append(">");
    }
    assert(out@ =~= old(out)@ + optional_text(d.is_there_an_option, accessor_inner_text(*d)));
}

#[verifier::rlimit(50)]
fn append_accessor(out: &mut String, enum_name: &String, vs: &Vec<ViewStructBuilder>, d: &MergedField)
    ensures
        final(out)@ == old(out)@ + accessor_text(enum_name@, vs@, *d),
{
    out.append("    pub fn ");
    out.append(d.name.as_str());
    out.append("(&self) -> ");
    append_accessor_type(out, d);
    out.append(" {\n        match self {\n");
    let ghost head = out@;
    let mut i: usize = 0;
    while i < vs.len()
        invariant
            i <= vs.len(),
            out@ == head + arms_text(enum_name@, vs@.subrange(0, i as int), *d),
        decreases vs.len() - i,
    {
        assert(vs@.subrange(0, i + 1).drop_last() =~= vs@.subrange(0, i as int));
        append_view_arms(out, enum_name, &vs[i], d);
        i += 1;
        assert(out@ =~= head + arms_text(enum_name@, vs@.subrange(0, i as int), *d));
    }
    assert(vs@.subrange(0, i as int) =~= vs@);
    let ghost tail = out@;
    if d.is_there_an_option {
        out.append("            _ => None,\n");
    }
    out.append("        }\n    }\n");
    assert(out@ =~= tail + (if d.is_there_an_option {
        "            _ => None,\n"@
    } else {
        seq![]
    }) + "        }\n    }\n"@);
    assert(out@ =~= old(out)@ + accessor_text(enum_name@, vs@, *d));
}

fn append_variants(out: &mut String, vs: &Vec<ViewStructBuilder>)
    ensures
        final(out)@ == old(out)@ + variants_text(vs@),
{
    let mut i: usize = 0;
    while i < vs.len()
        invariant
            i <= vs.len(),
            out@ == old(out)@ + variants_text(vs@.subrange(0, i as int)),
        decreases vs.len() - i,
    {
        assert(vs@.subrange(0, i + 1).drop_last() =~= vs@.subrange(0, i as int));
        let v = &vs[i];
        out.append("    ");
        out.append(v.name.as_str());
        out.append("(");
        out.append(v.name.as_str());
        let g = v.get_regular_generics();
        assert(opt_generics(g) == v.original_generics);
        append_generics(out, g, false);
        out.append("),\n");
        i += 1;
        assert(out@ =~= old(out)@ + variants_text(vs@.subrange(0, i as int)));
    }
    assert(vs@.subrange(0, i as int) =~= vs@);
}

fn append_accessors(out: &mut String, enum_name: &String, vs: &Vec<ViewStructBuilder>, ds: &Vec<MergedField>)
    ensures
        final(out)@ == old(out)@ + accessors_text(enum_name@, vs@, ds@),
{
    let mut i: usize = 0;
    while i < ds.len()
        invariant
            i <= ds.len(),
            out@ == old(out)@ + accessors_text(enum_name@, vs@, ds@.subrange(0, i as int)),
        decreases ds.len() - i,
    {
        assert(ds@.subrange(0, i + 1).drop_last() =~= ds@.subrange(0, i as int));
        append_accessor(out, enum_name, vs, &ds[i]);
        i += 1;
    }
    assert(ds@.subrange(0, i as int) =~= ds@);
}

/// Emits the enum over all views and its read-only field accessors.
#[verifier::rlimit(50)]
pub fn generate_views_enum_and_impl(original_struct: &BaseRecord, builder: &Builder) -> (r: String)
    ensures
        r@ == enum_text(*original_struct, *builder),
{
    let g = Some(&original_struct.generics);
    let mut enum_name = original_struct.name.clone();
    enum_name.append("Variant");
    let mut out = String::new();
    append_attrs(&mut out, &builder.enum_attributes);
    append_vis(&mut out, &original_struct.vis);
    out.append("enum ");
    out.append(enum_name.as_str());
    append_generics(&mut out, g, true);
    append_where(&mut out, g);
    out.append(" {\n");
    append_variants(&mut out, &builder.view_structs);
    out.append("}\n");
    let ghost mid = out@;
    out.append("impl");
    append_generics(&mut out, g, true);
    out.append(" ");
    out.append(enum_name.as_str());
    append_generics(&mut out, g, false);
    append_where(&mut out, g);
    out.append(" {\n");
    let ds = merged_fields(&builder.view_structs);
    append_accessors(&mut out, &enum_name, &builder.view_structs, &ds);
    out.append("}\n");
    assert(out@ =~= enum_text(*original_struct, *builder));
    out
}

/// The owned struct of a view, then its by-reference structs and methods.
#[verifier::opaque]
pub open spec fn view_decls_text(v: ViewStructBuilder) -> Seq<char> {
    struct_text(v, Form::Owned) + ref_structs_text(v)
}

pub open spec fn view_structs_text(vs: Seq<ViewStructBuilder>) -> Seq<char>
    decreases vs.len(),
{
    if vs.len() == 0 {
        seq![]
    } else {
        view_structs_text(vs.drop_last()) + view_decls_text(vs.last())
    }
}

fn append_view_decls(out: &mut String, v: &ViewStructBuilder)
    requires
        v.well_formed(),
    ensures
        final(out)@ == old(out)@ + view_decls_text(*v),
{
    let owned = generate_view_struct(v, Form::Owned);
    out.append(owned.as_str());
    let refs = generate_ref_view_structs_and_methods(v);
    out.append(refs.as_str());
    proof {
        reveal(view_decls_text);
    }
    assert(out@ =~= old(out)@ + view_decls_text(*v));
}

/// Everything generated for a resolved specification.
pub open spec fn expand_text(rec: BaseRecord, b: Builder) -> Seq<char> {
    view_structs_text(b.view_structs@) + enum_text(rec, b) + conversions_impl_text(rec, b.view_structs@)
}

/// Emits the structs of every view, the enum over the views, and the
/// conversions on the record.
#[verifier::rlimit(50)]
pub fn expand(original_struct: &BaseRecord, builder: &Builder) -> (r: String)
    requires
        builder.well_formed(),
    ensures
        r@ == expand_text(*original_struct, *builder),
{
    let mut out = String::new();
    let vs = &builder.view_structs;
    let mut i: usize = 0;
    while i < vs.len()
        invariant
            i <= vs.len(),
            out@ == view_structs_text(vs@.subrange(0, i as int)),
            vs@ == builder.view_structs@,
            builder.well_formed(),
        decreases vs.len() - i,
    {
        assert(vs@.subrange(0, i + 1).drop_last() =~= vs@.subrange(0, i as int));
        append_view_decls(&mut out, &vs[i]);
        i += 1;
        assert(out@ =~= view_structs_text(vs@.subrange(0, i as int)));
    }
    assert(vs@.subrange(0, i as int) =~= vs@);
    let e = generate_views_enum_and_impl(original_struct, builder);
    out.append(e.as_str());
    let c = generate_original_conversion_methods(original_struct, builder);
    out.append(c.as_str());
    assert(out@ =~= expand_text(*original_struct, *builder));
    out
}

/// A view without patterns or validations converts without fail:
/// `into_<view>` returns the view itself, not an optional, and initialises
/// each field by moving the record's field of the same name.
pub proof fn law_plain_view_text(v: ViewStructBuilder)
    requires
        forall|k: int|
            0 <= k < v.builder_fields@.len() ==> (#[trigger] v.builder_fields@[k]).pattern_to_match is None
                && v.builder_fields@[k].validation is None,
    ensures
        !fallible(v),
        conversion_head_text(v, Form::Owned, snake_case(v.name@)) == "    pub fn "@ + "into_"@ + snake_case(v.name@)
            + "("@ + "self"@ + ") -> "@ + v.name@ + generics_text(v.original_generics, false) + " {\n"@,
        conversion_body_text(v, Form::Owned) == "        "@ + v.name@ + " {\n"@ + assigns_text(
            v.builder_fields@,
            Form::Owned,
        ) + "        }"@ + "\n    }\n"@,
        forall|k: int|
            0 <= k < v.builder_fields@.len() ==> assign_text(#[trigger] v.builder_fields@[k], Form::Owned)
                == "            "@ + v.builder_fields@[k].name@ + ": "@ + "self."@ + v.builder_fields@[k].name@ + ",\n"@,
{
    assert(!fallible(v));
    assert(conversion_head_text(v, Form::Owned, snake_case(v.name@)) =~= "    pub fn "@ + "into_"@ + snake_case(v.name@)
        + "("@ + "self"@ + ") -> "@ + v.name@ + generics_text(v.original_generics, false) + " {\n"@);
    assert(conversion_body_text(v, Form::Owned) =~= "        "@ + v.name@ + " {\n"@ + assigns_text(
        v.builder_fields@,
        Form::Owned,
    ) + "        }"@ + "\n    }\n"@);
}

/// The three conversions test a field alike: under a pattern each of them
/// emits `if let P(name) = <the field, moved or borrowed> { .. } else {
/// return None }`, and each runs the field's predicate as the same guard
/// `if !(e) { return None; }`, which leaves the bound value as it is; a field
/// without a predicate gets no guard.
pub proof fn law_field_checks_text(f: BuilderViewField, form: Form)
    ensures
        f.pattern_to_match is Some ==> assign_expr_text(f, form) == "if let "@ + f.pattern_to_match.unwrap().text@
            + "("@ + f.name@ + ") = "@ + source_text(f, form) + " { "@ + check_text(f, form) + result_text(f, form)
            + " } else { return None }"@,
        f.validation is None ==> check_text(f, form) == Seq::<char>::empty(),
        f.validation is Some ==> exists|pre: Seq<char>, post: Seq<char>|
            check_text(f, form) == pre + guard_text(f.validation.unwrap()@) + post,
        f.pattern_to_match is Some ==> result_text(f, form) == f.name@ || result_text(f, form) == "&mut *"@ + f.name@,
{
    if f.validation is Some {
        let e = f.validation.unwrap()@;
        let n = f.name@;
        let c = check_text(f, form);
        match form {
            Form::Owned => if f.pattern_to_match is Some {
                let pre = "{ let "@ + n + " = &"@ + n + "; "@;
                assert(c =~= pre + guard_text(e) + "} "@);
            } else {
                assert(c =~= Seq::<char>::empty() + guard_text(e) + Seq::<char>::empty());
            },
            Form::Ref => {
                assert(c =~= Seq::<char>::empty() + guard_text(e) + Seq::<char>::empty());
            },
            Form::Mut => {
                let pre = "{ let "@ + n + " = &*"@ + n + "; "@;
                assert(c =~= pre + guard_text(e) + "} "@);
            },
        }
    }
}

} // verus!
