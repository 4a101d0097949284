use rsmack::fs::FsPath;
use rsmack::impls::edoc::{
    call_site_file_path_from_syn_path, const_value, evaluate_concat, exec, resolve_consts,
    rm_item_fields_attrs, unresolved_error, AttrHead, ConcatElem, ConcatExpr, ConstInit,
    ConstTable, EdocField,
};
use rsmack::logr::Severity;
use rsmack::megamac::ExecEnv;
use rsmack::text::show_bytes;

fn env() -> ExecEnv {
    ExecEnv::new("app".to_string(), "impls".to_string(), "Args".to_string(), "edoc".to_string())
}

fn lines(ls: &[&str]) -> Vec<String> {
    ls.iter().map(|l| l.to_string()).collect()
}

#[test]
fn consts_resolve_and_concatenate() {
    let table = resolve_consts(
        &lines(&["use x;", "const A: &str = \"foo\";", "const B: bool = true;", "fn f() {}"]),
        &env(),
    )
    .unwrap();
    assert_eq!(table.get(&"A".to_string()), Some("foo".to_string()));
    assert_eq!(table.get(&"B".to_string()), Some("true".to_string()));
    assert_eq!(table.get(&"C".to_string()), None);
    let expr = ConcatExpr::Tuple(vec![
        ConcatElem::Ident("A".to_string()),
        ConcatElem::Lit("-".to_string()),
        ConcatElem::Ident("B".to_string()),
    ]);
    let ev = evaluate_concat(&expr, &table, &env()).unwrap();
    assert_eq!(ev.text, "foo-true");
    assert!(ev.unresolved.is_empty());
}

#[test]
fn indented_const_and_later_binding_wins() {
    let table = resolve_consts(
        &lines(&["    const A: &str = \"one\";", "const A: &str = \"two\";", "const F: bool = false;"]),
        &env(),
    )
    .unwrap();
    assert_eq!(table.get(&"A".to_string()), Some("two".to_string()));
    assert_eq!(table.get(&"F".to_string()), Some("false".to_string()));
    assert_eq!(table.entries.len(), 2);
}

#[test]
fn byte_string_const_shown_as_list() {
    let table = resolve_consts(&lines(&["const B: &[u8] = b\"ab\";"]), &env()).unwrap();
    assert_eq!(table.get(&"B".to_string()), Some("[97, 98]".to_string()));
    assert_eq!(show_bytes(&vec![0, 7, 10, 99, 100, 255]), "[0, 7, 10, 99, 100, 255]");
    assert_eq!(show_bytes(&vec![]), "[]");
    assert_eq!(const_value(&ConstInit::Bool(true)), Some("true".to_string()));
    assert_eq!(const_value(&ConstInit::Other("x".to_string())), None);
}

#[test]
fn unsupported_const_initializer_aborts() {
    let err = resolve_consts(&lines(&["const N: u8 = 1;"]), &env()).unwrap_err();
    assert_eq!(err.severity, Severity::Abort);
    assert!(err.message.starts_with("#[app::edoc] Unexpected const item expression here"));
    assert!(err.message.ends_with("at `const N: u8 = 1;`"));
}

#[test]
fn unparsable_const_line_aborts() {
    let err = resolve_consts(&lines(&["const fn f() {}"]), &env()).unwrap_err();
    assert_eq!(err.severity, Severity::Abort);
    assert_eq!(err.message, "#[app::edoc] Failed to parse const item at `const fn f() {}`");
}

#[test]
fn unresolved_ident_is_recorded_and_skipped() {
    let table = ConstTable::new();
    let expr = ConcatExpr::Tuple(vec![ConcatElem::Lit("a".to_string()), ConcatElem::Ident("Z".to_string())]);
    let ev = evaluate_concat(&expr, &table, &env()).unwrap();
    assert_eq!(ev.text, "a");
    assert_eq!(ev.unresolved, vec!["Z".to_string()]);
    let d = unresolved_error("Z", &env());
    assert_eq!(d.severity, Severity::Error);
    assert_eq!(d.message, "#[app::edoc] Unresolved const ident `Z`");
}

#[test]
fn non_tuple_and_bad_element_abort() {
    let table = ConstTable::new();
    let err = evaluate_concat(&ConcatExpr::Other, &table, &env()).unwrap_err();
    assert_eq!(err.message, "#[app::edoc] Only Tuple supported, maybe you are missing a second element");
    let expr = ConcatExpr::Tuple(vec![ConcatElem::Lit("a".to_string()), ConcatElem::Other]);
    let err = evaluate_concat(&expr, &table, &env()).unwrap_err();
    assert_eq!(err.severity, Severity::Abort);
    assert_eq!(
        err.message,
        "#[app::edoc] Unsupported tuple element, only string literal or ident of a const string"
    );
}

#[test]
fn call_site_path_of_module_path() {
    let src = FsPath { absolute: true, parts: vec!["p".to_string(), "src".to_string()] };
    let p = call_site_file_path_from_syn_path(&src, &vec!["docs".to_string(), "consts".to_string()]).unwrap();
    assert_eq!(p.to_text(), "/p/src/docs/consts.rs");
    assert!(call_site_file_path_from_syn_path(&src, &vec![]).is_none());
}

#[test]
fn edoc_attrs_replaced_in_field_order() {
    let fields = vec![
        vec![AttrHead::Other, AttrHead::List("edoc".to_string())],
        vec![AttrHead::List("serde".to_string())],
        vec![AttrHead::List("edoc".to_string()), AttrHead::List("edoc".to_string())],
    ];
    let docs = vec!["first".to_string(), "second".to_string()];
    let plan = rm_item_fields_attrs(&fields, &docs, &env()).unwrap();
    assert_eq!(plan, vec![Some((1, "first".to_string())), None, Some((0, "second".to_string()))]);
    let err = rm_item_fields_attrs(&fields, &vec!["only".to_string()], &env()).unwrap_err();
    assert_eq!(err.severity, Severity::Abort);
}

#[test]
fn edoc_exec_plans_doc_attributes() {
    let file = lines(&["const A: &str = \"foo\";", "const B: bool = true;"]);
    let fields = vec![
        EdocField {
            attrs: vec![AttrHead::List("edoc".to_string())],
            concat: Some(ConcatExpr::Tuple(vec![
                ConcatElem::Ident("A".to_string()),
                ConcatElem::Lit("-".to_string()),
                ConcatElem::Ident("B".to_string()),
            ])),
        },
        EdocField { attrs: vec![AttrHead::Other], concat: None },
        EdocField {
            attrs: vec![AttrHead::Other, AttrHead::List("edoc".to_string())],
            concat: Some(ConcatExpr::Tuple(vec![ConcatElem::Ident("Q".to_string()), ConcatElem::Lit("x".to_string())])),
        },
    ];
    let out = exec(&file, &fields, &env()).unwrap();
    assert_eq!(out.plan, vec![Some((0, "foo-true".to_string())), None, Some((1, "x".to_string()))]);
    assert_eq!(out.unresolved, vec!["Q".to_string()]);
    let bad = vec![EdocField { attrs: vec![AttrHead::List("edoc".to_string())], concat: Some(ConcatExpr::Other) }];
    assert_eq!(exec(&file, &bad, &env()).unwrap_err().severity, Severity::Abort);
}

#[test]
fn indented_const_line_is_read() {
    let table = resolve_consts(&lines(&["\t  const I: &str = \"in\";"]), &env()).unwrap();
    assert_eq!(table.get(&"I".to_string()), Some("in".to_string()));
    let none = resolve_consts(&lines(&["// const J: &str = \"x\";", "let constant = 1;"]), &env()).unwrap();
    assert!(none.entries.is_empty());
}
