//! Structural facts about type expressions: reference classification,
//! optionality, and the inner type that a refutable pattern binds.
use vstd::prelude::*;
use crate::model::{GenericArg, RefType, TypeArgs, TypeExpr};

verus! {

pub open spec fn first_arg(a: TypeArgs) -> Option<GenericArg> {
    match a {
        TypeArgs::End => None,
        TypeArgs::Arg(x, _) => Some(*x),
    }
}

pub open spec fn second_arg(a: TypeArgs) -> Option<GenericArg> {
    match a {
        TypeArgs::End => None,
        TypeArgs::Arg(_, rest) => first_arg(*rest),
    }
}

pub open spec fn arg_type(a: Option<GenericArg>) -> Option<TypeExpr> {
    match a {
        Some(GenericArg::Type(t)) => Some(t),
        _ => None,
    }
}

/// Whether `t` is a path type whose last segment is `name`.
pub open spec fn is_path_named(t: TypeExpr, name: Seq<char>) -> bool {
    match t {
        TypeExpr::Path(p) => p.last@ == name,
        _ => false,
    }
}

/// `t` without one outer reference layer.
pub open spec fn deref_once(t: TypeExpr) -> TypeExpr {
    match t {
        TypeExpr::Reference(r) => *r.elem,
        _ => t,
    }
}

pub open spec fn spec_is_reference(t: TypeExpr) -> bool {
    t is Reference
}

pub open spec fn spec_is_mut_reference(t: TypeExpr) -> bool {
    match t {
        TypeExpr::Reference(r) => r.mutable,
        _ => false,
    }
}

/// An `Option`, or a reference to one.
pub open spec fn spec_is_option(t: TypeExpr) -> bool {
    is_path_named(deref_once(t), "Option"@)
}

/// `t` without its outer reference and then without its outer `Option`.
pub open spec fn spec_stripped_type(t: TypeExpr) -> TypeExpr {
    let u = deref_once(t);
    match u {
        TypeExpr::Path(p) => if p.last@ == "Option"@ {
            match arg_type(first_arg(p.args)) {
                Some(inner) => inner,
                None => u,
            }
        } else {
            u
        },
        _ => u,
    }
}

/// What a single-binding pattern binds on a path type: `T` of `Result<T, E>`
/// under `Ok` and `E` under `Err`; the sole type argument of `Option<T>` and
/// of any other generic type with exactly one argument. Anything else (no
/// arguments, more than one, another pattern on a `Result`) says nothing.
pub open spec fn path_inner(t: TypeExpr, pattern_last: Seq<char>) -> Option<TypeExpr> {
    match t {
        TypeExpr::Path(p) => if p.last@ == "Result"@ {
            if second_arg(p.args) is Some {
                if pattern_last == "Ok"@ {
                    arg_type(first_arg(p.args))
                } else if pattern_last == "Err"@ {
                    arg_type(second_arg(p.args))
                } else {
                    None
                }
            } else {
                None
            }
        } else if first_arg(p.args) is Some && second_arg(p.args) is None {
            arg_type(first_arg(p.args))
        } else {
            None
        },
        _ => None,
    }
}

/// The inner type that a pattern binds on `t`; through a reference the
/// binding is a shared reference with the same lifetime.
pub open spec fn spec_inferred_inner(t: TypeExpr, pattern_last: Seq<char>) -> Option<TypeExpr> {
    match t {
        TypeExpr::Reference(r) => match path_inner(*r.elem, pattern_last) {
            Some(x) => Some(
                TypeExpr::Reference(RefType { lifetime: r.lifetime, mutable: false, elem: Box::new(x) }),
            ),
            None => None,
        },
        _ => path_inner(t, pattern_last),
    }
}

/// `t` is `&'original T` or `&'original mut T` with the given mutability and element.
pub open spec fn is_original_ref(t: TypeExpr, mutable: bool, elem: TypeExpr) -> bool {
    match t {
        TypeExpr::Reference(r) => {
            &&& r.lifetime is Some
            &&& r.lifetime.unwrap()@ == original_lifetime()
            &&& r.mutable == mutable
            &&& *r.elem == elem
        },
        _ => false,
    }
}

/// Whether the derived by-reference forms of a field of type `t` borrow
/// under the fresh shared lifetime: owned types and mutable references do.
pub open spec fn needs_rebinding(t: TypeExpr) -> bool {
    match t {
        TypeExpr::Reference(r) => r.mutable,
        _ => true,
    }
}

/// The by-reference form `ref_ty` and the by-mutable-reference form `mut_ty`
/// of a view field of type `t`.
pub open spec fn spec_ref_forms(t: TypeExpr, ref_ty: TypeExpr, mut_ty: TypeExpr) -> bool {
    match t {
        TypeExpr::Reference(r) => if r.mutable {
            is_original_ref(ref_ty, false, *r.elem) && is_original_ref(mut_ty, true, *r.elem)
        } else {
            ref_ty == t && mut_ty == t
        },
        _ => is_original_ref(ref_ty, false, t) && is_original_ref(mut_ty, true, t),
    }
}

/// The shared lifetime of the by-reference structs.
pub open spec fn original_lifetime() -> Seq<char> {
    "'original"@
}

pub open spec fn opt_deref(r: Option<&TypeExpr>) -> Option<TypeExpr> {
    match r {
        Some(t) => Some(*t),
        None => None,
    }
}

fn text_is(s: &String, lit: &str) -> (r: bool)
    ensures
        r == (s@ == lit@),
{
    let t = String::from_str(lit);
    *s == t
}

pub fn first_type_arg(a: &TypeArgs) -> (r: Option<&TypeExpr>)
    ensures
        opt_deref(r) == arg_type(first_arg(*a)),
{
    match a {
        TypeArgs::Arg(x, _) => match &**x {
            GenericArg::Type(t) => Some(t),
            GenericArg::Other(_) => None,
        },
        TypeArgs::End => None,
    }
}

fn has_second_arg(a: &TypeArgs) -> (r: bool)
    ensures
        r == (second_arg(*a) is Some),
{
    match a {
        TypeArgs::Arg(_, rest) => match &**rest {
            TypeArgs::Arg(_, _) => true,
            TypeArgs::End => false,
        },
        TypeArgs::End => false,
    }
}

fn second_type_arg(a: &TypeArgs) -> (r: Option<&TypeExpr>)
    ensures
        opt_deref(r) == arg_type(second_arg(*a)),
{
    match a {
        TypeArgs::Arg(_, rest) => first_type_arg(rest),
        TypeArgs::End => None,
    }
}

/// Classifies `ty` as a reference: returns whether it is one, whether it is
/// mutable, and, for a mutable reference, its by-reference and
/// by-mutable-reference forms rebound to the shared lifetime.
pub fn determine_reference_types(ty: &TypeExpr) -> (r: (bool, bool, Option<(TypeExpr, TypeExpr)>))
    ensures
        r.0 == spec_is_reference(*ty),
        r.1 == spec_is_mut_reference(*ty),
        r.2 is Some <==> spec_is_mut_reference(*ty),
        r.2 is Some ==> match *ty {
            TypeExpr::Reference(rt) => is_original_ref(r.2.unwrap().0, false, *rt.elem)
                && is_original_ref(r.2.unwrap().1, true, *rt.elem),
            _ => false,
        },
{
    match ty {
        TypeExpr::Reference(rt) => {
            if rt.mutable {
                let ref_ty = TypeExpr::Reference(
                    RefType {
                        lifetime: Some(String::from_str("'original")),
                        mutable: false,
                        elem: Box::new(rt.elem.duplicate()),
                    },
                );
                let mut_ty = TypeExpr::Reference(
                    RefType {
                        lifetime: Some(String::from_str("'original")),
                        mutable: true,
                        elem: Box::new(rt.elem.duplicate()),
                    },
                );
                (true, true, Some((ref_ty, mut_ty)))
            } else {
                (true, false, None)
            }
        },
        _ => (false, false, None),
    }
}

/// `ty` without its outer reference and then without its outer `Option`.
pub fn stripped_type(ty: &TypeExpr) -> (r: TypeExpr)
    ensures
        r == spec_stripped_type(*ty),
{
    let u: &TypeExpr = match ty {
        TypeExpr::Reference(rt) => &rt.elem,
        _ => ty,
    };
    match u {
        TypeExpr::Path(p) => {
            if text_is(&p.last, "Option") {
                match first_type_arg(&p.args) {
                    Some(inner) => return inner.duplicate(),
                    None => {},
                }
            }
        },
        _ => {},
    }
    u.duplicate()
}

/// Whether `ty` is an `Option` or a reference to one.
pub fn is_option(ty: &TypeExpr) -> (r: bool)
    ensures
        r == spec_is_option(*ty),
{
    let u: &TypeExpr = match ty {
        TypeExpr::Reference(rt) => &rt.elem,
        _ => ty,
    };
    match u {
        TypeExpr::Path(p) => text_is(&p.last, "Option"),
        _ => false,
    }
}

fn infer_path_inner(ty: &TypeExpr, pattern_last: &String) -> (r: Option<TypeExpr>)
    ensures
        r == path_inner(*ty, pattern_last@),
{
    match ty {
        TypeExpr::Path(p) => {
            let chosen: Option<&TypeExpr> = if text_is(&p.last, "Result") {
                if has_second_arg(&p.args) {
                    if text_is(pattern_last, "Ok") {
                        first_type_arg(&p.args)
                    } else if text_is(pattern_last, "Err") {
                        second_type_arg(&p.args)
                    } else {
                        None
                    }
                } else {
                    None
                }
            } else if !has_second_arg(&p.args) {
                first_type_arg(&p.args)
            } else {
                None
            };
            match chosen {
                Some(t) => Some(t.duplicate()),
                None => None,
            }
        },
        _ => None,
    }
}

/// The inner type that a pattern whose last segment is `pattern_last` binds
/// on a value of type `ty`; `None` where the shape does not say.
pub fn infer_inner_type_for_pattern_match(ty: &TypeExpr, pattern_last: &String) -> (r: Option<TypeExpr>)
    ensures
        r == spec_inferred_inner(*ty, pattern_last@),
{
    match ty {
        TypeExpr::Reference(rt) => match infer_path_inner(&rt.elem, pattern_last) {
            Some(x) => Some(
                TypeExpr::Reference(
                    RefType { lifetime: crate::model::copy_opt_string(&rt.lifetime), mutable: false, elem: Box::new(x) },
                ),
            ),
            None => None,
        },
        _ => infer_path_inner(ty, pattern_last),
    }
}

} // verus!
