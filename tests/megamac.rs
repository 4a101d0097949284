use rsmack::doc::{render_doc, strip_spaces};
use rsmack::extract::{get_args_fields_doc, FieldDoc};
use rsmack::fs::{calling_crate_dir, FsPath};
use rsmack::impls::megamac::{dispatch, exec, Args, EntryPoint, MacroKind};
use rsmack::logr::{Logr, Severity};
use rsmack::megamac::ExecEnv;
use rsmack::resolve::{get_macro_impl_file_ast, impl_file_path, ImplSource};
use rsmack::syntax::{AttrModel, FieldModel, FieldsModel, ItemModel, SourceFile};

fn env() -> ExecEnv {
    ExecEnv::new(
        "my_crate".to_string(),
        "impls".to_string(),
        "Args".to_string(),
        "megamac".to_string(),
    )
}

fn doc_attr(text: &str) -> AttrModel {
    AttrModel::NameValueStr { path: "doc".to_string(), value: text.to_string() }
}

fn field(name: &str, attrs: Vec<AttrModel>, ty: &str) -> FieldModel {
    FieldModel { ident: Some(name.to_string()), attrs, ty: ty.to_string() }
}

fn file_with_args(fields: FieldsModel) -> SourceFile {
    SourceFile {
        items: vec![
            ItemModel::Other,
            ItemModel::Struct { ident: "Other".to_string(), fields: FieldsModel::Unit },
            ItemModel::Struct { ident: "Args".to_string(), fields },
        ],
    }
}

fn args(kind: &str, name: &str, receiver: Option<&str>) -> Args {
    Args {
        kind: kind.to_string(),
        name: name.to_string(),
        receiver: receiver.map(|r| r.to_string()),
    }
}

fn src_dir() -> FsPath {
    FsPath { absolute: true, parts: vec!["home".to_string(), "p".to_string(), "src".to_string()] }
}

#[test]
fn fmt_msg_wraps_prefix() {
    let logr = Logr::new("a::b".to_string());
    assert_eq!(logr.fmt_msg("oops"), "#[a::b] oops");
    let d = logr.abort_call_site("stop");
    assert_eq!(d.severity, Severity::Abort);
    assert_eq!(d.message, "#[a::b] stop");
    assert_eq!(logr.emit_call_site_warning("w").severity, Severity::Warning);
    assert_eq!(logr.emit_call_site_error("e").severity, Severity::Error);
}

#[test]
fn env_prefix_from_caller_and_module() {
    let e = env();
    assert_eq!(e.logr.prefix, "my_crate::megamac");
    assert_eq!(e.implementations_mod_ident, "impls");
    assert_eq!(e.exec_args_ident, "Args");
}

#[test]
fn calling_crate_dir_five_levels_up() {
    let out = FsPath {
        absolute: true,
        parts: ["x", "target", "debug", "build", "pkg-1", "out"].iter().map(|s| s.to_string()).collect(),
    };
    let dir = calling_crate_dir(&out);
    assert_eq!(dir.to_text(), "/x");
    let exact = FsPath {
        absolute: false,
        parts: ["a", "b", "c", "d", "e"].iter().map(|s| s.to_string()).collect(),
    };
    assert_eq!(calling_crate_dir(&exact).to_text(), "");
}

#[test]
fn path_text_and_impl_file_path() {
    let p = impl_file_path(&src_dir(), "greet", &env());
    assert_eq!(p.to_text(), "/home/p/src/impls/greet.rs");
    let rel = FsPath { absolute: false, parts: vec![] };
    assert_eq!(rel.to_text(), "");
    assert!(rel.parent().is_none());
}

#[test]
fn strip_spaces_removes_every_space() {
    assert_eq!(strip_spaces("Option < Vec < String > >"), "Option<Vec<String>>");
    assert_eq!(strip_spaces(""), "");
}

#[test]
fn macro_kind_from_ident() {
    assert_eq!(MacroKind::from_ident("Func"), Some(MacroKind::Func));
    assert_eq!(MacroKind::from_ident("Attr"), Some(MacroKind::Attr));
    assert_eq!(MacroKind::from_ident("Derive"), Some(MacroKind::Derive));
    assert_eq!(MacroKind::from_ident("func"), None);
}

#[test]
fn func_macro_greet() {
    let file = file_with_args(FieldsModel::Named(vec![field("kind", vec![doc_attr(" The kind")], "Ident")]));
    let path = impl_file_path(&src_dir(), "greet", &env());
    let decl = exec(&args("Func", "greet", None), &env(), ImplSource::Parsed(file), &path).unwrap();
    match decl.entry {
        EntryPoint::Func { name } => assert_eq!(name, "greet"),
        other => panic!("unexpected entry {other:?}"),
    }
    assert_eq!(
        decl.doc,
        vec![
            "greet procedural macro (Func).".to_string(),
            "# Parameters".to_string(),
            "* `kind` -  The kind\n  + type: [`Ident`]".to_string(),
            "# Examples".to_string(),
        ]
    );
}

#[test]
fn attr_macro_wrap_one_bullet() {
    let file = file_with_args(FieldsModel::Named(vec![field("with", vec![], "Ident")]));
    let path = impl_file_path(&src_dir(), "wrap", &env());
    let decl =
        exec(&args("Attr", "wrap", Some("ItemStruct")), &env(), ImplSource::Parsed(file), &path).unwrap();
    match decl.entry {
        EntryPoint::Attr { name, receiver } => {
            assert_eq!(name, "wrap");
            assert_eq!(receiver, "ItemStruct");
        }
        other => panic!("unexpected entry {other:?}"),
    }
    let bullets: Vec<&String> = decl.doc.iter().filter(|l| l.starts_with("* ")).collect();
    assert_eq!(bullets, vec!["* `with` - Not documented\n  + type: [`Ident`]"]);
}

#[test]
fn attr_macro_wrap_documented() {
    let file = file_with_args(FieldsModel::Named(vec![field("with", vec![doc_attr("Wrapper type")], "syn :: Ident")]));
    let path = impl_file_path(&src_dir(), "wrap", &env());
    let decl =
        exec(&args("Attr", "wrap", Some("ItemStruct")), &env(), ImplSource::Parsed(file), &path).unwrap();
    assert_eq!(decl.doc[2], "* `with` - Wrapper type\n  + type: [`syn::Ident`]");
    assert_eq!(decl.doc.len(), 4);
}

#[test]
fn missing_impl_file_aborts() {
    let path = impl_file_path(&src_dir(), "greet", &env());
    let err = exec(&args("Func", "greet", None), &env(), ImplSource::Missing, &path).unwrap_err();
    assert_eq!(err.severity, Severity::Abort);
    assert!(err.message.contains("/home/p/src/impls/greet.rs"));
    assert!(err.message.contains("greet"));
    assert_eq!(
        err.message,
        "#[my_crate::megamac] Failed to get macro_impl_src of greet at `/home/p/src/impls/greet.rs`"
    );
}

#[test]
fn unparsable_impl_file_aborts_with_caveat() {
    let path = impl_file_path(&src_dir(), "greet", &env());
    let err = get_macro_impl_file_ast(ImplSource::Unparsable("expected `;`".to_string()), &path, "greet", &env())
        .unwrap_err();
    assert_eq!(err.severity, Severity::Abort);
    assert!(err.message.starts_with("#[my_crate::megamac] Failed to parse macro_impl_src greet, this may happen for no real reason in your IDE"));
    assert!(err.message.ends_with("check that your project still build with cargo: expected `;`"));
}

#[test]
fn positional_fields_rejected() {
    let file = file_with_args(FieldsModel::Unnamed(vec![FieldModel { ident: None, attrs: vec![], ty: "u8".to_string() }]));
    let err = get_args_fields_doc(&file, "greet", &env()).unwrap_err();
    assert_eq!(err.severity, Severity::Abort);
    assert!(err.message.contains("Only named fields supported"));
}

#[test]
fn missing_record_aborts() {
    let file = SourceFile { items: vec![ItemModel::Other] };
    let err = get_args_fields_doc(&file, "greet", &env()).unwrap_err();
    assert_eq!(err.message, "#[my_crate::megamac] Failed to find `Args` struct in `greet` module");
}

#[test]
fn zero_fields_still_has_headings() {
    for fields in [FieldsModel::Named(vec![]), FieldsModel::Unit] {
        let docs = get_args_fields_doc(&file_with_args(fields), "greet", &env()).unwrap();
        assert!(docs.is_empty());
        let block = render_doc("greet", "Func", &docs);
        assert_eq!(block, vec!["greet procedural macro (Func).", "# Parameters", "# Examples"]);
    }
}

#[test]
fn undocumented_field_renders_placeholder() {
    let other_attr = AttrModel::NameValueStr { path: "serde".to_string(), value: "x".to_string() };
    let file = file_with_args(FieldsModel::Named(vec![field("a", vec![AttrModel::Other, other_attr], "u8")]));
    let docs = get_args_fields_doc(&file, "greet", &env()).unwrap();
    assert_eq!(docs.len(), 1);
    assert!(docs[0].doc.is_none());
    let block = render_doc("greet", "Func", &docs);
    assert_eq!(block[2], "* `a` - Not documented\n  + type: [`u8`]");
}

#[test]
fn multi_line_doc_gives_one_entry_per_line() {
    let file = file_with_args(FieldsModel::Named(vec![
        field("a", vec![doc_attr("one"), doc_attr("two")], "u8"),
        field("b", vec![], "bool"),
    ]));
    let docs = get_args_fields_doc(&file, "greet", &env()).unwrap();
    let shown: Vec<(String, Option<String>)> = docs.iter().map(|d| (d.ident.clone(), d.doc.clone())).collect();
    assert_eq!(
        shown,
        vec![
            ("a".to_string(), Some("one".to_string())),
            ("a".to_string(), Some("two".to_string())),
            ("b".to_string(), None),
        ]
    );
}

#[test]
fn render_twice_is_identical() {
    let mk = || vec![
        FieldDoc { ident: "x".to_string(), doc: Some("d".to_string()), ty: "Vec < u8 >".to_string() },
        FieldDoc { ident: "y".to_string(), doc: None, ty: "bool".to_string() },
    ];
    assert_eq!(render_doc("m", "Attr", &mk()), render_doc("m", "Attr", &mk()));
}

#[test]
fn extract_twice_is_identical() {
    let mk = || file_with_args(FieldsModel::Named(vec![field("a", vec![doc_attr("d")], "u8")]));
    let a = get_args_fields_doc(&mk(), "m", &env()).unwrap();
    let b = get_args_fields_doc(&mk(), "m", &env()).unwrap();
    let view = |v: &Vec<FieldDoc>| v.iter().map(|d| (d.ident.clone(), d.doc.clone(), d.ty.clone())).collect::<Vec<_>>();
    assert_eq!(view(&a), view(&b));
}

#[test]
fn derive_name_is_pascal_case() {
    let decl = dispatch(&args("Derive", "my_macro", None), &vec![], &env()).unwrap();
    match decl.entry {
        EntryPoint::Derive { name, derive_name } => {
            assert_eq!(name, "my_macro");
            assert_eq!(derive_name, "MyMacro");
        }
        other => panic!("unexpected entry {other:?}"),
    }
    assert_eq!(decl.doc[0], "my_macro procedural macro (Derive).");
}

#[test]
fn unknown_kind_is_configuration_error() {
    let err = dispatch(&args("Fn", "m", None), &vec![], &env()).unwrap_err();
    assert_eq!(err.severity, Severity::Error);
    assert_eq!(err.message, "#[my_crate::megamac] Unsupported MacroKind `Fn`, expected `Func`, `Attr` or `Derive`");
}

#[test]
fn attribute_without_receiver_is_configuration_error() {
    let err = dispatch(&args("Attr", "m", None), &vec![], &env()).unwrap_err();
    assert_eq!(err.severity, Severity::Error);
    assert_eq!(err.message, "#[my_crate::megamac] Attribute macro `m` needs a `receiver`");
}
