use vstd::prelude::*;

verus! {

/// A type expression, as far as view derivation looks into it.
#[derive(Debug)]
pub enum TypeExpr {
    /// `&'lt T` or `&'lt mut T`; the lifetime may be absent.
    Reference(RefType),
    /// A path type such as `Option<String>` or `std::vec::Vec<u8>`.
    Path(PathType),
    /// Any other type (tuple, slice, array, ...), as written.
    Other(String),
}

#[derive(Debug)]
pub struct RefType {
    /// The lifetime with its apostrophe, e.g. `'a`.
    pub lifetime: Option<String>,
    pub mutable: bool,
    pub elem: Box<TypeExpr>,
}

#[derive(Debug)]
pub struct PathType {
    /// The whole type as written, generic arguments included.
    pub text: String,
    /// The identifier of the last path segment (`Option` in `std::option::Option<T>`).
    pub last: String,
    /// The angle-bracketed arguments of the last segment.
    pub args: TypeArgs,
}

/// The generic arguments of a path segment, in order.
#[derive(Debug)]
pub enum TypeArgs {
    End,
    Arg(Box<GenericArg>, Box<TypeArgs>),
}

#[derive(Debug)]
pub enum GenericArg {
    Type(TypeExpr),
    /// A lifetime, a constant or a binding, as written.
    Other(String),
}

/// A refutable pattern path such as `Some` or `Shape::Circle`.
#[derive(Debug)]
pub struct PatternPath {
    /// The path as written.
    pub text: String,
    /// The identifier of its last segment.
    pub last: String,
}

#[derive(Debug)]
pub struct GenericParam {
    /// `'a` or `T`.
    pub name: String,
    /// The bounds as written after the colon, if any; for a constant, its type.
    pub bounds: Option<String>,
    /// A constant parameter (`const N: usize`).
    pub is_const: bool,
}

#[derive(Debug)]
pub struct Generics {
    pub params: Vec<GenericParam>,
    /// The predicates of the where clause as written, without the keyword.
    pub where_clause: Option<String>,
}

#[derive(Debug)]
pub struct RecordField {
    pub name: String,
    /// The visibility as written (`pub`, `pub(crate)`), empty when private.
    pub vis: String,
    pub ty: TypeExpr,
}

#[derive(Debug)]
pub enum RecordShape {
    Named(Vec<RecordField>),
    Tuple,
    Unit,
}

/// The record that views are derived from.
#[derive(Debug)]
pub struct BaseRecord {
    pub name: String,
    pub vis: String,
    pub generics: Generics,
    pub shape: RecordShape,
}

/// One field reference in a fragment or a view.
#[derive(Debug)]
pub struct FieldItem {
    pub field_name: String,
    pub pattern_to_match: Option<PatternPath>,
    /// The predicate expression after `if`, as written.
    pub validation: Option<String>,
    pub explicit_type: Option<TypeExpr>,
}

#[derive(Debug)]
pub struct Fragment {
    pub name: String,
    pub fields: Vec<FieldItem>,
}

#[derive(Debug)]
pub enum ViewStructFieldKind {
    /// `..fragment_name`
    FragmentSpread(String),
    Field(FieldItem),
}

#[derive(Debug)]
pub struct ViewStruct {
    pub name: String,
    pub generics: Option<Generics>,
    pub items: Vec<ViewStructFieldKind>,
    /// Attributes of the view struct, each as written.
    pub attributes: Vec<String>,
    /// Attributes destined for the by-reference struct.
    pub ref_attributes: Vec<String>,
    /// Attributes destined for the by-mutable-reference struct.
    pub mut_attributes: Vec<String>,
    pub visibility: String,
}

/// A parsed view specification.
#[derive(Debug)]
pub struct Views {
    pub fragments: Vec<Fragment>,
    pub view_structs: Vec<ViewStruct>,
}

pub open spec fn lifetime_text(l: Option<String>) -> Seq<char> {
    match l {
        Some(s) => s@ + " "@,
        None => seq![],
    }
}

/// The source text of a type expression.
pub open spec fn type_text(t: TypeExpr) -> Seq<char>
    decreases t,
{
    match t {
        TypeExpr::Reference(r) => "&"@ + lifetime_text(r.lifetime) + (if r.mutable {
            "mut "@
        } else {
            seq![]
        }) + type_text(*r.elem),
        TypeExpr::Path(p) => p.text@,
        TypeExpr::Other(s) => s@,
    }
}

/// Appends the source text of `t` to `out`.
pub fn render_type(t: &TypeExpr, out: &mut String)
    ensures
        final(out)@ == old(out)@ + type_text(*t),
    decreases t,
{
    match t {
        TypeExpr::Reference(r) => {
            out.append("&");
            match &r.lifetime {
                Some(l) => {
                    out.append(l.as_str());
                    out.append(" ");
                },
                None => {},
            }
            if r.mutable {
                out.append("mut ");
            }
            render_type(&r.elem, out);
            assert(final(out)@ =~= old(out)@ + type_text(*t));
        },
        TypeExpr::Path(p) => {
            out.append(p.text.as_str());
        },
        TypeExpr::Other(s) => {
            out.append(s.as_str());
        },
    }
}

pub fn copy_opt_string(s: &Option<String>) -> (r: Option<String>)
    ensures
        r == *s,
{
    match s {
        Some(v) => Some(v.clone()),
        None => None,
    }
}

pub fn copy_strings(v: &Vec<String>) -> (r: Vec<String>)
    ensures
        r@ == v@,
{
    let mut r: Vec<String> = Vec::new();
    let mut i: usize = 0;
    while i < v.len()
        invariant
            i <= v.len(),
            r@ == v@.subrange(0, i as int),
        decreases v.len() - i,
    {
        r.push(v[i].clone());
        i += 1;
        assert(r@ =~= v@.subrange(0, i as int));
    }
    assert(r@ =~= v@);
    r
}

impl TypeExpr {
    /// A deep copy.
    pub fn duplicate(&self) -> (r: TypeExpr)
        ensures
            r == *self,
        decreases self,
    {
        match self {
            TypeExpr::Reference(rt) => {
                let elem = rt.elem.duplicate();
                assert(elem == *rt.elem);
                TypeExpr::Reference(
                    RefType {
                        lifetime: copy_opt_string(&rt.lifetime),
                        mutable: rt.mutable,
                        elem: Box::new(elem),
                    },
                )
            },
            TypeExpr::Path(p) => TypeExpr::Path(
                PathType { text: p.text.clone(), last: p.last.clone(), args: p.args.duplicate() },
            ),
            TypeExpr::Other(s) => TypeExpr::Other(s.clone()),
        }
    }
}

impl TypeArgs {
    /// A deep copy.
    pub fn duplicate(&self) -> (r: TypeArgs)
        ensures
            r == *self,
        decreases self,
    {
        match self {
            TypeArgs::End => TypeArgs::End,
            TypeArgs::Arg(a, rest) => TypeArgs::Arg(Box::new(a.duplicate()), Box::new(rest.duplicate())),
        }
    }
}

impl GenericArg {
    /// A deep copy.
    pub fn duplicate(&self) -> (r: GenericArg)
        ensures
            r == *self,
        decreases self,
    {
        match self {
            GenericArg::Type(t) => GenericArg::Type(t.duplicate()),
            GenericArg::Other(s) => GenericArg::Other(s.clone()),
        }
    }
}

impl PatternPath {
    pub fn duplicate(&self) -> (r: PatternPath)
        ensures
            r == *self,
    {
        PatternPath { text: self.text.clone(), last: self.last.clone() }
    }
}

impl Generics {
    pub fn duplicate(&self) -> (r: Generics)
        ensures
            r.params@ == self.params@,
            r.where_clause == self.where_clause,
    {
        let mut params: Vec<GenericParam> = Vec::new();
        let mut i: usize = 0;
        while i < self.params.len()
            invariant
                i <= self.params.len(),
                params@ == self.params@.subrange(0, i as int),
            decreases self.params.len() - i,
        {
            let p = &self.params[i];
            params.push(
                GenericParam { name: p.name.clone(), bounds: copy_opt_string(&p.bounds), is_const: p.is_const },
            );
            i += 1;
            assert(params@ =~= self.params@.subrange(0, i as int));
        }
        assert(params@ =~= self.params@);
        Generics { params, where_clause: copy_opt_string(&self.where_clause) }
    }
}

} // verus!
