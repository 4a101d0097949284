use rsmack::impls::seanum::db_enum_name;
use rsmack::impls::wrap::{unnamed_struct_error, wrap_field_ty, wrap_fields, Args, FieldType, TypeShape};
use rsmack::iso::iso_fields;
use rsmack::logr::{Logr, Severity};

#[test]
fn wrap_wraps_supported_types() {
    let args = Args { with: "Option".to_string() };
    let fields = vec![
        FieldType { shape: TypeShape::Path, ty: "String".to_string() },
        FieldType { shape: TypeShape::Slice, ty: "[u8]".to_string() },
        FieldType { shape: TypeShape::Other("Reference".to_string()), ty: "& str".to_string() },
        FieldType { shape: TypeShape::Tuple, ty: "(u8 , u8)".to_string() },
        FieldType { shape: TypeShape::Array, ty: "[u8 ; 2]".to_string() },
    ];
    let out = wrap_fields(&args, &fields);
    assert_eq!(
        out,
        vec![
            Ok("Option<String>".to_string()),
            Ok("Option<[u8]>".to_string()),
            Err("#[rsmack_wrap::wrap]: Field type not supported Reference".to_string()),
            Ok("Option<(u8 , u8)>".to_string()),
            Ok("Option<[u8 ; 2]>".to_string()),
        ]
    );
    assert_eq!(wrap_field_ty("Box", "T"), "Box<T>");
}

#[test]
fn wrap_refuses_unnamed_struct() {
    let d = unnamed_struct_error(&Logr::new("w".to_string()));
    assert_eq!(d.severity, Severity::Abort);
    assert_eq!(d.message, "#[w] Only named struct supported");
}

#[test]
fn iso_fields_skip_mod_and_pascal_case() {
    let stems = vec!["mod".to_string(), "foo_bar".to_string(), "baz".to_string()];
    let fields = iso_fields(&stems);
    let shown: Vec<(String, String)> = fields.into_iter().map(|f| (f.module, f.ty_name)).collect();
    assert_eq!(
        shown,
        vec![("foo_bar".to_string(), "FooBar".to_string()), ("baz".to_string(), "Baz".to_string())]
    );
}

#[test]
fn seanum_db_name_is_snake_case() {
    assert_eq!(db_enum_name("MyEnumName"), "my_enum_name");
    assert_eq!(db_enum_name("A"), "a");
    assert_eq!(db_enum_name(""), "");
    assert_eq!(db_enum_name("HTTPCode"), "h_t_t_p_code");
}
