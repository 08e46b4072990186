use view_types::convert::{as_view_ref, into_view, write_through_view, RecordValue, Value, VariantValue};
use view_types::expand::{
    generate_into_assignments, generate_mut_assignments, generate_ref_assignments, generate_view_struct,
    pascal_to_snake_case, snake_from_mapped, Form,
};
use view_types::merge::merged_fields;
use view_types::model::{
    render_type, BaseRecord, FieldItem, Fragment, GenericArg, GenericParam, Generics, PathType, PatternPath,
    RecordField, RecordShape, RefType, TypeArgs, TypeExpr, ViewStruct, ViewStructFieldKind, Views,
};
use view_types::resolve::{resolve, validate_unique_fields, BuilderViewField, Builder, ViewError, ViewStructBuilder};
use view_types::types::{infer_inner_type_for_pattern_match, is_option, stripped_type};
use view_types::views;

fn s(x: &str) -> String {
    x.to_string()
}

fn path(text: &str, last: &str, args: Vec<TypeExpr>) -> TypeExpr {
    let mut list = TypeArgs::End;
    for a in args.into_iter().rev() {
        list = TypeArgs::Arg(Box::new(GenericArg::Type(a)), Box::new(list));
    }
    TypeExpr::Path(PathType { text: s(text), last: s(last), args: list })
}

fn plain(name: &str) -> TypeExpr {
    path(name, name, vec![])
}

fn reference(lifetime: Option<&str>, mutable: bool, elem: TypeExpr) -> TypeExpr {
    TypeExpr::Reference(RefType { lifetime: lifetime.map(s), mutable, elem: Box::new(elem) })
}

fn text(t: &TypeExpr) -> String {
    let mut out = String::new();
    render_type(t, &mut out);
    out
}

fn field(name: &str, ty: TypeExpr) -> RecordField {
    RecordField { name: s(name), vis: String::new(), ty }
}

fn item(name: &str) -> FieldItem {
    FieldItem { field_name: s(name), pattern_to_match: None, validation: None, explicit_type: None }
}

fn pat(pattern: &str, last: &str, name: &str) -> FieldItem {
    FieldItem {
        field_name: s(name),
        pattern_to_match: Some(PatternPath { text: s(pattern), last: s(last) }),
        validation: None,
        explicit_type: None,
    }
}

fn validated(mut f: FieldItem, expr: &str) -> FieldItem {
    f.validation = Some(s(expr));
    f
}

fn typed(mut f: FieldItem, ty: TypeExpr) -> FieldItem {
    f.explicit_type = Some(ty);
    f
}

fn lifetime_a() -> Option<Generics> {
    Some(Generics { params: vec![GenericParam { name: s("'a"), bounds: None, is_const: false }], where_clause: None })
}

fn view(name: &str, generics: Option<Generics>, items: Vec<ViewStructFieldKind>) -> ViewStruct {
    ViewStruct {
        name: s(name),
        generics,
        items,
        attributes: vec![],
        ref_attributes: vec![],
        mut_attributes: vec![],
        visibility: s("pub"),
    }
}

fn spread(name: &str) -> ViewStructFieldKind {
    ViewStructFieldKind::FragmentSpread(s(name))
}

fn direct(f: FieldItem) -> ViewStructFieldKind {
    ViewStructFieldKind::Field(f)
}

fn record(name: &str, generics: Generics, fields: Vec<RecordField>) -> BaseRecord {
    BaseRecord { name: s(name), vis: s("pub"), generics, shape: RecordShape::Named(fields) }
}

fn opt(x: Value) -> Value {
    Value::Variant(VariantValue { name: s("Some"), payload: Some(Box::new(x)) })
}

fn variant(name: &str, x: Value) -> Value {
    Value::Variant(VariantValue { name: s(name), payload: Some(Box::new(x)) })
}

fn as_int(v: &Value) -> Option<i64> {
    match v {
        Value::Int(i) => Some(*i),
        _ => None,
    }
}

fn some_int(v: &Value) -> Option<i64> {
    match v {
        Value::Variant(vv) if vv.name == "Some" => vv.payload.as_deref().and_then(as_int),
        _ => None,
    }
}

fn as_text(v: &Value) -> Option<String> {
    match v {
        Value::Text(t) | Value::Opaque(t) => Some(t.clone()),
        _ => None,
    }
}

fn search_record() -> BaseRecord {
    let generics = lifetime_a().unwrap();
    record(
        "Search",
        generics,
        vec![
            field("query", path("Option<String>", "Option", vec![plain("String")])),
            field("offset", plain("usize")),
            field("limit", plain("usize")),
            field("words_limit", path("Option<usize>", "Option", vec![plain("usize")])),
            field(
                "vector",
                path("Option<&'a Vec<u8>>", "Option", vec![reference(Some("'a"), false, plain("Vec<u8>"))]),
            ),
            field("ratio", path("Option<f32>", "Option", vec![plain("f32")])),
            field("mut_number", reference(Some("'a"), true, plain("usize"))),
            field("field_never_used", plain("bool")),
            field("semantic_only_ref", reference(Some("'a"), false, plain("usize"))),
            field("cannot_infer_type", plain("CannotInferType")),
            field("result1", path("Result<usize, String>", "Result", vec![plain("usize"), plain("String")])),
            field("result2", path("Result<usize, String>", "Result", vec![plain("usize"), plain("String")])),
        ],
    )
}

fn search_views() -> Views {
    Views {
        fragments: vec![
            Fragment {
                name: s("all"),
                fields: vec![
                    item("offset"),
                    item("limit"),
                    typed(pat("CannotInferType::Branch1", "Branch1", "cannot_infer_type"), plain("String")),
                    pat("Ok", "Ok", "result1"),
                    pat("Err", "Err", "result2"),
                ],
            },
            Fragment {
                name: s("keyword"),
                fields: vec![
                    pat("Some", "Some", "query"),
                    typed(item("words_limit"), path("Option<usize>", "Option", vec![plain("usize")])),
                ],
            },
            Fragment {
                name: s("semantic"),
                fields: vec![validated(pat("Some", "Some", "vector"), "vector.len() == 768"), item("mut_number")],
            },
        ],
        view_structs: vec![
            view("KeywordSearch", None, vec![spread("all"), spread("keyword")]),
            view(
                "SemanticSearch",
                lifetime_a(),
                vec![spread("all"), spread("semantic"), direct(item("semantic_only_ref"))],
            ),
            view(
                "HybridSearch",
                lifetime_a(),
                vec![
                    spread("all"),
                    spread("keyword"),
                    spread("semantic"),
                    direct(validated(pat("Some", "Some", "ratio"), "validate_ratio(ratio)")),
                ],
            ),
        ],
    }
}

fn search_values(ratio: &str, mut_number: i64) -> RecordValue {
    RecordValue {
        fields: vec![
            opt(Value::Text(s("test"))),
            Value::Int(0),
            Value::Int(10),
            opt(Value::Int(5)),
            opt(Value::Opaque(format!("{:?}", vec![0u8; 768]))),
            opt(Value::Opaque(s(ratio))),
            Value::Int(mut_number),
            Value::Bool(true),
            Value::Int(100),
            variant("Branch1", Value::Text(s("branch1"))),
            variant("Ok", Value::Int(1)),
            variant("Err", Value::Text(s("error"))),
        ],
    }
}

fn validate_ratio(ratio: f32) -> bool {
    ratio >= 0.0 && ratio <= 1.0
}

fn hybrid_verdicts(b: &ViewStructBuilder, ratio: f32) -> Vec<bool> {
    b.builder_fields
        .iter()
        .map(|f| match f.name.as_str() {
            "ratio" => validate_ratio(ratio),
            "vector" => vec![0u8; 768].len() == 768,
            _ => true,
        })
        .collect()
}

fn position(b: &ViewStructBuilder, name: &str) -> usize {
    b.builder_fields.iter().position(|f| f.name == name).unwrap()
}

fn resolved() -> (BaseRecord, Builder) {
    let rec = search_record();
    let b = resolve(&rec, &search_views(), vec![s("#[derive(Debug)]")]).unwrap();
    (rec, b)
}

#[test]
fn mod_test() {
    let (rec, b) = resolved();
    let code = views(&search_views(), &rec, vec![s("#[derive(Debug)]")]).unwrap();
    assert!(code.contains("pub fn as_hybrid_search_ref(&'original self) -> Option<HybridSearchRef<'original, 'a, >> {"));
    assert!(code.contains("pub fn as_hybrid_search_mut(&'original mut self) -> Option<HybridSearchMut<'original, 'a, >> {"));
    assert!(code.contains(
        "ratio: if let Some(ratio) = &self.ratio { if !(validate_ratio(ratio)) { return None; } ratio } else { return None },"
    ));
    assert!(code.contains(
        "mut_number: { let mut_number = &mut self.mut_number; &mut *mut_number },"
    ));
    let hybrid = &b.view_structs[2];
    let names: Vec<&str> = hybrid.builder_fields.iter().map(|f| f.name.as_str()).collect();
    assert_eq!(
        names,
        vec![
            "offset", "limit", "cannot_infer_type", "result1", "result2", "query", "words_limit", "vector",
            "mut_number", "ratio"
        ]
    );

    let vector = vec![0u8; 768];
    let mut values = search_values("0.5", 1);
    let verdicts = hybrid_verdicts(hybrid, 0.5);
    let got = as_view_ref(&values, &rec, hybrid, &verdicts);
    assert!(got.is_some());
    let got = got.unwrap();
    assert_eq!(as_int(got[position(hybrid, "offset")]), Some(0));
    assert_eq!(as_int(got[position(hybrid, "limit")]), Some(10));
    assert_eq!(as_text(got[position(hybrid, "query")]), Some(s("test")));
    assert_eq!(some_int(got[position(hybrid, "words_limit")]), Some(5));
    assert_eq!(as_text(got[position(hybrid, "vector")]), Some(format!("{:?}", vector)));
    assert_eq!(as_text(got[position(hybrid, "ratio")]), Some(s("0.5")));
    assert_eq!(as_int(got[position(hybrid, "mut_number")]), Some(1));

    let k = position(hybrid, "mut_number");
    assert!(write_through_view(&mut values, &rec, hybrid, &verdicts, k, Value::Int(2)));
    assert_eq!(as_int(&values.fields[6]), Some(2));
    let got = as_view_ref(&values, &rec, hybrid, &verdicts).unwrap();
    assert_eq!(as_int(got[position(hybrid, "offset")]), Some(0));
    assert_eq!(some_int(got[position(hybrid, "words_limit")]), Some(5));
    assert_eq!(as_text(got[position(hybrid, "ratio")]), Some(s("0.5")));
    assert_eq!(as_int(got[k]), Some(2));

    let ratio: f32 = 0.5 + 10.0;
    values.fields[5] = opt(Value::Opaque(ratio.to_string()));
    let verdicts = hybrid_verdicts(hybrid, ratio);
    assert!(!write_through_view(&mut values, &rec, hybrid, &verdicts, k, Value::Int(3)));
    assert_eq!(as_int(&values.fields[6]), Some(2));
    assert!(as_view_ref(&values, &rec, hybrid, &verdicts).is_none());
}

#[test]
fn builder_record_scenario() {
    let rec = record(
        "Search",
        lifetime_a().unwrap(),
        vec![
            field("query", path("Option<String>", "Option", vec![plain("String")])),
            field("offset", plain("usize")),
            field("limit", plain("usize")),
            field("words_limit", path("Option<usize>", "Option", vec![plain("usize")])),
            field(
                "vector",
                path("Option<&'a Vec<u8>>", "Option", vec![reference(Some("'a"), false, plain("Vec<u8>"))]),
            ),
            field("ratio", path("Option<f32>", "Option", vec![plain("f32")])),
            field("mut_number", reference(Some("'a"), true, plain("usize"))),
            field("field_never_used", plain("bool")),
        ],
    );
    let spec = Views {
        fragments: vec![
            Fragment { name: s("all"), fields: vec![item("offset"), item("limit")] },
            Fragment { name: s("keyword"), fields: vec![pat("Some", "Some", "query"), item("words_limit")] },
            Fragment {
                name: s("semantic"),
                fields: vec![validated(pat("Some", "Some", "vector"), "vector.len() == 768"), item("mut_number")],
            },
        ],
        view_structs: vec![
            view("KeywordSearch", None, vec![spread("all"), spread("keyword")]),
            view("SemanticSearch", lifetime_a(), vec![spread("all"), spread("semantic")]),
            view(
                "HybridSearch",
                lifetime_a(),
                vec![
                    spread("all"),
                    spread("keyword"),
                    spread("semantic"),
                    direct(validated(pat("Some", "Some", "ratio"), "validate_ratio(ratio)")),
                ],
            ),
        ],
    };
    let b = resolve(&rec, &spec, vec![]).unwrap();
    let hybrid = &b.view_structs[2];
    let mut values = RecordValue {
        fields: vec![
            opt(Value::Text(s("test"))),
            Value::Int(0),
            Value::Int(10),
            opt(Value::Int(5)),
            opt(Value::Opaque(format!("{:?}", vec![0u8; 768]))),
            opt(Value::Opaque(s("0.5"))),
            Value::Int(1),
            Value::Bool(true),
        ],
    };
    let verdicts = hybrid_verdicts(hybrid, 0.5);
    let got = as_view_ref(&values, &rec, hybrid, &verdicts).unwrap();
    assert_eq!(as_int(got[position(hybrid, "offset")]), Some(0));
    assert_eq!(as_int(got[position(hybrid, "limit")]), Some(10));
    assert_eq!(as_text(got[position(hybrid, "query")]), Some(s("test")));
    assert_eq!(some_int(got[position(hybrid, "words_limit")]), Some(5));
    assert_eq!(as_text(got[position(hybrid, "vector")]), Some(format!("{:?}", vec![0u8; 768])));
    assert_eq!(as_text(got[position(hybrid, "ratio")]), Some(s("0.5")));
    assert_eq!(as_int(got[position(hybrid, "mut_number")]), Some(1));
    let k = position(hybrid, "mut_number");
    assert!(write_through_view(&mut values, &rec, hybrid, &verdicts, k, Value::Int(2)));
    assert_eq!(as_int(&values.fields[6]), Some(2));
    let got = as_view_ref(&values, &rec, hybrid, &verdicts).unwrap();
    assert_eq!(as_int(got[position(hybrid, "offset")]), Some(0));
    assert_eq!(as_int(got[position(hybrid, "limit")]), Some(10));
    assert_eq!(as_text(got[position(hybrid, "query")]), Some(s("test")));
    assert_eq!(some_int(got[position(hybrid, "words_limit")]), Some(5));
    assert_eq!(as_int(got[k]), Some(2));
    values.fields[5] = opt(Value::Opaque((0.5f32 + 10.0).to_string()));
    let verdicts = hybrid_verdicts(hybrid, 0.5 + 10.0);
    assert!(!write_through_view(&mut values, &rec, hybrid, &verdicts, k, Value::Int(3)));
    assert_eq!(as_int(&values.fields[6]), Some(2));
    assert!(as_view_ref(&values, &rec, hybrid, &verdicts).is_none());
}

#[test]
fn resolved_types_of_hybrid_view() {
    let (_, b) = resolved();
    let hybrid = &b.view_structs[2];
    let f = |name: &str| -> &BuilderViewField { &hybrid.builder_fields[position(hybrid, name)] };
    assert_eq!(text(&f("query").regular_struct_field_type), "String");
    assert_eq!(text(&f("query").ref_struct_field_type), "&'original String");
    assert_eq!(text(&f("query").mut_struct_field_type), "&'original mut String");
    assert_eq!(text(&f("vector").regular_struct_field_type), "&'a Vec<u8>");
    assert_eq!(text(&f("vector").ref_struct_field_type), "&'a Vec<u8>");
    assert!(f("vector").is_ref && !f("vector").is_mut && !f("vector").refs_need_original_lifetime);
    assert_eq!(text(&f("mut_number").ref_struct_field_type), "&'original usize");
    assert_eq!(text(&f("mut_number").mut_struct_field_type), "&'original mut usize");
    assert!(f("mut_number").is_mut && f("mut_number").refs_need_original_lifetime);
    assert_eq!(text(&f("result1").regular_struct_field_type), "usize");
    assert_eq!(text(&f("result2").regular_struct_field_type), "String");
    assert_eq!(text(&f("cannot_infer_type").regular_struct_field_type), "String");
    assert_eq!(text(&f("words_limit").regular_struct_field_type), "Option<usize>");
    assert!(f("words_limit").is_option);
    assert_eq!(text(&f("words_limit").stripped_type), "usize");
    assert_eq!(text(&f("ratio").regular_struct_field_type), "f32");
    let g = hybrid.get_ref_generics().unwrap();
    let params: Vec<&str> = g.params.iter().map(|p| p.name.as_str()).collect();
    assert_eq!(params, vec!["'original", "'a"]);
}

#[test]
fn hybrid_scenario_ref_conversion() {
    let rec = record(
        "R",
        Generics { params: vec![], where_clause: None },
        vec![
            field("offset", plain("usize")),
            field("limit", plain("usize")),
            field("query", path("Option<String>", "Option", vec![plain("String")])),
            field("ratio", path("Option<f32>", "Option", vec![plain("f32")])),
        ],
    );
    let spec = Views {
        fragments: vec![Fragment { name: s("all"), fields: vec![item("offset"), item("limit")] }],
        view_structs: vec![view(
            "Hybrid",
            None,
            vec![
                spread("all"),
                direct(pat("Some", "Some", "query")),
                direct(validated(pat("Some", "Some", "ratio"), "0.0 <= *ratio && *ratio <= 1.0")),
            ],
        )],
    };
    let b = resolve(&rec, &spec, vec![]).unwrap();
    let v = &b.view_structs[0];
    let mut ratio: f32 = 0.5;
    let mut values = RecordValue {
        fields: vec![Value::Int(0), Value::Int(10), opt(Value::Text(s("x"))), opt(Value::Opaque(ratio.to_string()))],
    };
    let verdicts = vec![true, true, true, 0.0 <= ratio && ratio <= 1.0];
    let got = as_view_ref(&values, &rec, v, &verdicts).unwrap();
    assert_eq!(as_int(got[0]), Some(0));
    assert_eq!(as_int(got[1]), Some(10));
    assert_eq!(as_text(got[2]), Some(s("x")));
    assert_eq!(as_text(got[3]), Some(s("0.5")));
    ratio = 10.5;
    values.fields[3] = opt(Value::Opaque(ratio.to_string()));
    let verdicts = vec![true, true, true, 0.0 <= ratio && ratio <= 1.0];
    assert!(as_view_ref(&values, &rec, v, &verdicts).is_none());
}

fn result_record() -> (BaseRecord, Builder) {
    let rec = record(
        "R",
        Generics { params: vec![], where_clause: None },
        vec![field("v", path("Result<usize, String>", "Result", vec![plain("usize"), plain("String")]))],
    );
    let spec = Views {
        fragments: vec![],
        view_structs: vec![view("OnlyOk", None, vec![direct(pat("Ok", "Ok", "v"))])],
    };
    let b = resolve(&rec, &spec, vec![]).unwrap();
    (rec, b)
}

#[test]
fn result_ok_pattern() {
    let (rec, b) = result_record();
    let v = &b.view_structs[0];
    assert_eq!(text(&v.builder_fields[0].regular_struct_field_type), "usize");
    let err = RecordValue { fields: vec![variant("Err", Value::Text(s("e")))] };
    assert!(into_view(err, &rec, v, &vec![true]).is_none());
    let err = RecordValue { fields: vec![variant("Err", Value::Text(s("e")))] };
    assert!(as_view_ref(&err, &rec, v, &vec![true]).is_none());
    let mut err = RecordValue { fields: vec![variant("Err", Value::Text(s("e")))] };
    assert!(!write_through_view(&mut err, &rec, v, &vec![true], 0, Value::Int(1)));
    let ok = RecordValue { fields: vec![variant("Ok", Value::Int(7))] };
    let got = into_view(ok, &rec, v, &vec![true]).unwrap();
    assert_eq!(as_int(&got[0]), Some(7));
}

#[test]
fn plain_view_always_converts() {
    let (rec, _) = resolved();
    let spec = Views {
        fragments: vec![],
        view_structs: vec![view("Page", None, vec![direct(item("offset")), direct(item("limit"))])],
    };
    let b = resolve(&rec, &spec, vec![]).unwrap();
    let v = &b.view_structs[0];
    let got = into_view(search_values("2.0", 4), &rec, v, &vec![false, false]).unwrap();
    assert_eq!(as_int(&got[0]), Some(0));
    assert_eq!(as_int(&got[1]), Some(10));
}

#[test]
fn pattern_mismatch_gives_no_value() {
    let (rec, b) = resolved();
    let keyword = &b.view_structs[0];
    let mut values = search_values("0.5", 1);
    values.fields[0] = Value::Variant(VariantValue { name: s("None"), payload: None });
    let verdicts = vec![true; keyword.builder_fields.len()];
    assert!(as_view_ref(&values, &rec, keyword, &verdicts).is_none());
    values.fields[0] = opt(Value::Text(s("q")));
    let got = as_view_ref(&values, &rec, keyword, &verdicts).unwrap();
    assert_eq!(as_text(got[position(keyword, "query")]), Some(s("q")));
}

#[test]
fn validation_keeps_value() {
    let (rec, b) = resolved();
    let semantic = &b.view_structs[1];
    let values = search_values("0.5", 1);
    let mut verdicts = vec![true; semantic.builder_fields.len()];
    let got = as_view_ref(&values, &rec, semantic, &verdicts).unwrap();
    assert_eq!(as_text(got[position(semantic, "vector")]), Some(format!("{:?}", vec![0u8; 768])));
    verdicts[position(semantic, "vector")] = false;
    assert!(as_view_ref(&values, &rec, semantic, &verdicts).is_none());
}

#[test]
fn spread_fields_match_across_views() {
    let (_, b) = resolved();
    for name in ["offset", "limit", "cannot_infer_type", "result1", "result2"] {
        let x = &b.view_structs[0].builder_fields[position(&b.view_structs[0], name)];
        let y = &b.view_structs[2].builder_fields[position(&b.view_structs[2], name)];
        assert_eq!(text(&x.regular_struct_field_type), text(&y.regular_struct_field_type));
        assert_eq!(text(&x.ref_struct_field_type), text(&y.ref_struct_field_type));
        assert_eq!(text(&x.mut_struct_field_type), text(&y.mut_struct_field_type));
        assert_eq!(x.is_option, y.is_option);
        assert_eq!(x.refs_need_original_lifetime, y.refs_need_original_lifetime);
    }
}

#[test]
fn write_visible_in_later_views() {
    let (rec, b) = resolved();
    let semantic = &b.view_structs[1];
    let hybrid = &b.view_structs[2];
    let mut values = search_values("0.5", 1);
    let verdicts = vec![true; semantic.builder_fields.len()];
    let k = position(semantic, "offset");
    assert!(write_through_view(&mut values, &rec, semantic, &verdicts, k, Value::Int(42)));
    assert_eq!(as_int(&values.fields[1]), Some(42));
    let hv = vec![true; hybrid.builder_fields.len()];
    let got = as_view_ref(&values, &rec, hybrid, &hv).unwrap();
    assert_eq!(as_int(got[position(hybrid, "offset")]), Some(42));
    let q = position(hybrid, "query");
    assert!(write_through_view(&mut values, &rec, hybrid, &hv, q, Value::Text(s("new"))));
    assert!(matches!(&values.fields[0], Value::Variant(v) if v.name == "Some"));
    let got = as_view_ref(&values, &rec, hybrid, &hv).unwrap();
    assert_eq!(as_text(got[q]), Some(s("new")));
}

#[test]
fn snake_case_names() {
    assert_eq!(pascal_to_snake_case("HybridSearch"), "hybrid_search");
    assert_eq!(pascal_to_snake_case("Page"), "page");
    assert_eq!(pascal_to_snake_case(""), "");
    assert_eq!(pascal_to_snake_case("ABC"), "a_b_c");
    assert_eq!(snake_from_mapped(&vec!['h', 'y', 's'], &vec![true, false, true]), "hy_s");
    assert_eq!(snake_from_mapped(&vec![], &vec![]), "");
}

#[test]
fn inference_shapes() {
    let opt_ref = path("Option<&'a Vec<u8>>", "Option", vec![reference(Some("'a"), false, plain("Vec<u8>"))]);
    assert_eq!(text(&infer_inner_type_for_pattern_match(&opt_ref, &s("Some")).unwrap()), "&'a Vec<u8>");
    let res = path("Result<u8, String>", "Result", vec![plain("u8"), plain("String")]);
    assert_eq!(text(&infer_inner_type_for_pattern_match(&res, &s("Ok")).unwrap()), "u8");
    assert_eq!(text(&infer_inner_type_for_pattern_match(&res, &s("Err")).unwrap()), "String");
    let boxed = path("Wrapper<u32>", "Wrapper", vec![plain("u32")]);
    assert_eq!(text(&infer_inner_type_for_pattern_match(&boxed, &s("Full")).unwrap()), "u32");
    let by_ref = reference(Some("'b"), true, path("Option<u16>", "Option", vec![plain("u16")]));
    assert_eq!(text(&infer_inner_type_for_pattern_match(&by_ref, &s("Some")).unwrap()), "&'b u16");
    assert!(infer_inner_type_for_pattern_match(&plain("usize"), &s("Some")).is_none());
    let two = path("Pair<u8, u8>", "Pair", vec![plain("u8"), plain("u8")]);
    assert!(infer_inner_type_for_pattern_match(&two, &s("Both")).is_none());
    let two_opt = path("Option<u8, u16>", "Option", vec![plain("u8"), plain("u16")]);
    assert!(infer_inner_type_for_pattern_match(&two_opt, &s("Some")).is_none());
    assert!(infer_inner_type_for_pattern_match(&res, &s("Other")).is_none());
    assert!(is_option(&reference(None, false, path("Option<u8>", "Option", vec![plain("u8")]))));
    assert!(!is_option(&plain("u8")));
    assert_eq!(text(&stripped_type(&reference(None, false, path("Option<u8>", "Option", vec![plain("u8")])))), "u8");
}

#[test]
fn type_inference_error() {
    let rec = record("R", Generics { params: vec![], where_clause: None }, vec![field("n", plain("usize"))]);
    let spec = Views { fragments: vec![], view_structs: vec![view("V", None, vec![direct(pat("Some", "Some", "n"))])] };
    assert!(matches!(resolve(&rec, &spec, vec![]), Err(ViewError::TypeInference { .. })));
}

#[test]
fn shape_error() {
    let rec = BaseRecord {
        name: s("T"),
        vis: String::new(),
        generics: Generics { params: vec![], where_clause: None },
        shape: RecordShape::Tuple,
    };
    let spec = Views { fragments: vec![], view_structs: vec![] };
    assert!(matches!(resolve(&rec, &spec, vec![]), Err(ViewError::Shape)));
    let unit = BaseRecord { shape: RecordShape::Unit, ..rec };
    assert!(matches!(views(&spec, &unit, vec![]), Err(ViewError::Shape)));
}

#[test]
fn reference_errors() {
    let rec = search_record();
    let mut spec = search_views();
    spec.fragments[0].fields.push(item("missing"));
    assert!(matches!(resolve(&rec, &spec, vec![]), Err(ViewError::UnknownField { .. })));

    let mut spec = search_views();
    spec.view_structs[0].items.push(spread("nowhere"));
    assert!(matches!(resolve(&rec, &spec, vec![]), Err(ViewError::UnknownFragment { .. })));

    let mut spec = search_views();
    spec.fragments.push(Fragment { name: s("all"), fields: vec![] });
    assert!(matches!(validate_unique_fields(&spec), Err(ViewError::DuplicateFragment { .. })));

    let mut spec = search_views();
    spec.view_structs.push(view("KeywordSearch", None, vec![]));
    assert!(matches!(validate_unique_fields(&spec), Err(ViewError::DuplicateView { .. })));

    let mut spec = search_views();
    spec.view_structs[0].items.push(spread("all"));
    assert!(matches!(validate_unique_fields(&spec), Err(ViewError::DuplicateSpread { .. })));

    let mut spec = search_views();
    spec.fragments[1].fields.push(item("query"));
    assert!(matches!(validate_unique_fields(&spec), Err(ViewError::DuplicateFragmentField { .. })));

    let mut spec = search_views();
    spec.view_structs[0].items.push(direct(item("ratio")));
    spec.view_structs[0].items.push(direct(item("ratio")));
    assert!(matches!(validate_unique_fields(&spec), Err(ViewError::DuplicateViewField { .. })));

    let mut spec = search_views();
    spec.view_structs[0].items.push(direct(item("offset")));
    assert!(validate_unique_fields(&spec).is_ok());
    assert!(matches!(resolve(&rec, &spec, vec![]), Err(ViewError::DuplicateViewField { .. })));
}

#[test]
fn generated_struct_text() {
    let rec = record(
        "R",
        Generics { params: vec![], where_clause: None },
        vec![field("a", plain("u8")), field("b", path("Option<u8>", "Option", vec![plain("u8")]))],
    );
    let spec = Views {
        fragments: vec![],
        view_structs: vec![view("Small", None, vec![direct(item("a")), direct(validated(pat("Some", "Some", "b"), "*b > 1"))])],
    };
    let b = resolve(&rec, &spec, vec![]).unwrap();
    let v = &b.view_structs[0];
    assert_eq!(generate_view_struct(v, Form::Owned), "pub struct Small {\n    a: u8,\n    b: u8,\n}\n");
    assert_eq!(
        generate_view_struct(v, Form::Ref),
        "pub struct SmallRef<'original, > {\n    a: &'original u8,\n    b: &'original u8,\n}\n"
    );
    assert_eq!(
        generate_into_assignments(&v.builder_fields),
        "            a: self.a,\n            b: if let Some(b) = self.b { { let b = &b; if !(*b > 1) { return None; } } b } else { return None },\n"
    );
    assert_eq!(
        generate_ref_assignments(&v.builder_fields),
        "            a: &self.a,\n            b: if let Some(b) = &self.b { if !(*b > 1) { return None; } b } else { return None },\n"
    );
    assert_eq!(
        generate_mut_assignments(&v.builder_fields),
        "            a: { let a = &mut self.a; &mut *a },\n            b: if let Some(b) = &mut self.b { { let b = &*b; if !(*b > 1) { return None; } } &mut *b } else { return None },\n"
    );
    let code = views(&spec, &rec, vec![s("#[derive(Debug)]")]).unwrap();
    assert!(code.contains("pub fn into_small(self) -> Option<Small> {"));
    assert!(code.contains("pub fn as_small_ref(&'original self) -> Option<SmallRef<'original, >> {"));
    assert!(code.contains("#[derive(Debug)]\npub enum RVariant {\n    Small(Small),\n}\n"));
    assert!(code.contains("pub fn a(&self) -> &u8 {"));
}

#[test]
fn merged_accessor_facts() {
    let (_, b) = resolved();
    let merged = merged_fields(&b.view_structs);
    let names: Vec<&str> = merged.iter().map(|m| m.name.as_str()).collect();
    assert_eq!(
        names,
        vec![
            "offset", "limit", "cannot_infer_type", "result1", "result2", "query", "words_limit", "vector",
            "mut_number", "semantic_only_ref", "ratio"
        ]
    );
    let get = |n: &str| merged.iter().find(|m| m.name == n).unwrap();
    assert!(!get("offset").is_there_an_option);
    assert!(get("query").is_there_an_option);
    assert!(get("words_limit").is_there_an_option);
    assert!(get("semantic_only_ref").is_there_a_ref && get("semantic_only_ref").is_there_an_option);
    assert!(get("mut_number").is_there_a_mut);
    assert!(get("offset").is_there_an_owned && !get("offset").is_there_a_ref);
    let code = views(&search_views(), &search_record(), vec![]).unwrap();
    assert!(code.contains("pub fn offset(&self) -> &usize {"));
    assert!(code.contains("pub fn vector(&self) -> Option<&'a Vec<u8>> {"));
    assert!(code.contains("SearchVariant::HybridSearch(view) => Some(view.vector),"));
    assert!(code.contains("pub fn semantic_only_ref(&self) -> Option<&'a usize> {"));
    assert!(code.contains("SearchVariant::SemanticSearch(view) => Some(view.semantic_only_ref),"));
    assert!(code.contains("pub fn mut_number(&self) -> Option<&usize> {"));
    assert!(code.contains("SearchVariant::HybridSearch(view) => Some(&*view.mut_number),"));
    assert!(code.contains("pub fn words_limit(&self) -> Option<&usize> {"));
    assert!(code.contains("SearchVariant::KeywordSearch(view) => view.words_limit.as_ref(),"));
}

#[test]
fn lifetime_added_once() {
    let mut b = ViewStructBuilder::new(s("V"), lifetime_a(), vec![], vec![], s("pub"), vec![], vec![]);
    assert!(b.get_ref_generics().unwrap().params.len() == 1);
    b.add_original_struct_lifetime_to_refs();
    b.add_original_struct_lifetime_to_refs();
    let params: Vec<&str> = b.get_ref_generics().unwrap().params.iter().map(|p| p.name.as_str()).collect();
    assert_eq!(params, vec!["'original", "'a"]);
    assert_eq!(b.get_regular_generics().unwrap().params.len(), 1);
    let mut bare = ViewStructBuilder::new(s("W"), None, vec![], vec![], String::new(), vec![], vec![]);
    assert!(bare.get_ref_generics().is_none());
    bare.add_original_struct_lifetime_to_refs();
    assert_eq!(bare.get_ref_generics().unwrap().params.len(), 1);
}

#[test]
fn shared_reference_view_needs_no_lifetime() {
    let rec = record(
        "R",
        lifetime_a().unwrap(),
        vec![field("r", reference(Some("'a"), false, plain("u8")))],
    );
    let spec = Views { fragments: vec![], view_structs: vec![view("Shared", lifetime_a(), vec![direct(item("r"))])] };
    let b = resolve(&rec, &spec, vec![]).unwrap();
    let v = &b.view_structs[0];
    assert!(v.ref_generics.is_none());
    assert_eq!(
        generate_view_struct(v, Form::Ref),
        "pub struct SharedRef<'a, > {\n    r: &'a u8,\n}\n"
    );
}

#[test]
fn test_resolve_view_fields() {
    let rec = record(
        "Search",
        Generics { params: vec![], where_clause: None },
        vec![
            field("offset", plain("usize")),
            field("limit", plain("usize")),
            field("query", path("Option<String>", "Option", vec![plain("String")])),
            field("custom_field", plain("bool")),
        ],
    );
    let spec = Views {
        fragments: vec![
            Fragment { name: s("all"), fields: vec![item("offset"), item("limit")] },
            Fragment { name: s("keyword"), fields: vec![pat("Some", "Some", "query")] },
        ],
        view_structs: vec![view(
            "KeywordSearch",
            None,
            vec![spread("all"), spread("keyword"), direct(item("custom_field"))],
        )],
    };
    let b = resolve(&rec, &spec, vec![]).unwrap();
    let fields = &b.view_structs[0].builder_fields;
    assert_eq!(fields.len(), 4);
    let names: Vec<String> = fields.iter().map(|f| f.name.clone()).collect();
    assert!(names.contains(&"offset".to_owned()));
    assert!(names.contains(&"limit".to_owned()));
    assert!(names.contains(&"query".to_owned()));
    assert!(names.contains(&"custom_field".to_owned()));
}

#[test]
fn accessor_keeps_reference_lifetime() {
    let rec = record(
        "Holder",
        lifetime_a().unwrap(),
        vec![
            field("maybe", path("Option<&'a u8>", "Option", vec![reference(Some("'a"), false, plain("u8"))])),
            field("held", reference(Some("'a"), false, plain("str"))),
            field("owned", plain("u32")),
        ],
    );
    let spec = Views {
        fragments: vec![],
        view_structs: vec![view(
            "Both",
            lifetime_a(),
            vec![direct(item("maybe")), direct(item("held")), direct(item("owned"))],
        )],
    };
    let code = views(&spec, &rec, vec![]).unwrap();
    assert!(code.contains("pub fn maybe(&self) -> Option<&'a u8> {"));
    assert!(code.contains("HolderVariant::Both(view) => view.maybe,"));
    assert!(code.contains("pub fn held(&self) -> &'a str {"));
    assert!(code.contains("HolderVariant::Both(view) => view.held,"));
    assert!(code.contains("pub fn owned(&self) -> &u32 {"));
    assert!(code.contains("HolderVariant::Both(view) => &view.owned,"));
}

#[test]
fn const_generic_parameter_emitted() {
    let generics = Generics {
        params: vec![GenericParam { name: s("N"), bounds: Some(s("usize")), is_const: true }],
        where_clause: None,
    };
    let rec = record("Buf", Generics { params: generics.params.iter().map(|p| GenericParam { name: p.name.clone(), bounds: p.bounds.clone(), is_const: p.is_const }).collect(), where_clause: None }, vec![field("data", plain("[u8; N]"))]);
    let spec = Views { fragments: vec![], view_structs: vec![view("Data", Some(generics), vec![direct(item("data"))])] };
    let code = views(&spec, &rec, vec![]).unwrap();
    assert!(code.contains("pub struct Data<const N: usize, > {\n    data: [u8; N],\n}\n"));
    assert!(code.contains("pub struct DataRef<'original, const N: usize, > {"));
    assert!(code.contains("impl<'original, const N: usize, > Buf<N, > {"));
    assert!(code.contains("pub fn into_data(self) -> Data<N, > {"));
}
