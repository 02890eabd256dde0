use nexus_host::codegen::{struct_c, ArgInit, CodeGenError, FieldInit, Initializer, Parser, Value};
use nexus_host::str_to_cstr::convert;

fn field(name: &str, value: Value) -> FieldInit {
    FieldInit { attrs: Vec::new(), member: name.to_string(), value }
}

fn arg(value: Value) -> ArgInit {
    ArgInit { attrs: Vec::new(), value }
}

fn decl(init: Initializer) -> Parser {
    Parser {
        attrs: vec!["#[used]".to_string()],
        vis: "pub".to_string(),
        ident: "META".to_string(),
        ty: "Meta".to_string(),
        init,
    }
}

fn meta_struct_init() -> Initializer {
    Initializer::StructLit {
        path: "Meta".to_string(),
        fields: vec![
            field("name", Value::Text(b"demo".to_vec())),
            field("authors", Value::Text(b"me".to_vec())),
            field("version", Value::Text(b"0.1.0".to_vec())),
        ],
    }
}

fn meta_call_init() -> Initializer {
    Initializer::Call {
        path: "Meta::new".to_string(),
        args: vec![
            arg(Value::Text(b"demo".to_vec())),
            arg(Value::Text(b"me".to_vec())),
            arg(Value::Text(b"0.1.0".to_vec())),
        ],
    }
}

fn init_values(init: &Initializer) -> Vec<Value> {
    match init {
        Initializer::StructLit { fields, .. } => {
            fields.iter().map(|f| clone_value(&f.value)).collect()
        }
        Initializer::Call { args, .. } => args.iter().map(|a| clone_value(&a.value)).collect(),
        Initializer::Other { .. } => Vec::new(),
    }
}

fn clone_value(v: &Value) -> Value {
    match v {
        Value::Text(b) => Value::Text(b.clone()),
        Value::Bytes(b) => Value::Bytes(b.clone()),
        Value::Verbatim(s) => Value::Verbatim(s.clone()),
    }
}

fn expect_bytes(v: &Value) -> &Vec<u8> {
    match v {
        Value::Bytes(b) => b,
        _ => panic!("expected a byte-string value"),
    }
}

#[test]
fn convert_appends_one_terminator() {
    let r = convert(&b"demo".to_vec()).unwrap();
    assert_eq!(r, b"demo\0".to_vec());
}

#[test]
fn convert_accepts_empty_text() {
    let r = convert(&Vec::new()).unwrap();
    assert_eq!(r, vec![0u8]);
}

#[test]
fn convert_rejects_embedded_nul() {
    let e = convert(&b"de\0mo".to_vec()).unwrap_err();
    assert_eq!(e.position, 2);
}

#[test]
fn struct_literal_shape_rewrites_text_fields() {
    let out = struct_c(decl(meta_struct_init())).unwrap();
    assert_eq!(out.ident, "META");
    assert_eq!(out.ty, "Meta");
    assert_eq!(out.vis, "pub");
    assert_eq!(out.attrs, vec!["#[used]".to_string()]);
    let values = init_values(&out.init);
    assert_eq!(values.len(), 3);
    assert_eq!(expect_bytes(&values[0]), &b"demo\0".to_vec());
    assert_eq!(expect_bytes(&values[1]), &b"me\0".to_vec());
    assert_eq!(expect_bytes(&values[2]), &b"0.1.0\0".to_vec());
    match &out.init {
        Initializer::StructLit { path, fields } => {
            assert_eq!(path, "Meta");
            assert_eq!(fields[0].member, "name");
            assert_eq!(fields[1].member, "authors");
            assert_eq!(fields[2].member, "version");
        }
        _ => panic!("shape changed"),
    }
}

#[test]
fn call_shape_rewrites_text_arguments() {
    let out = struct_c(decl(meta_call_init())).unwrap();
    let values = init_values(&out.init);
    assert_eq!(values.len(), 3);
    assert_eq!(expect_bytes(&values[0]), &b"demo\0".to_vec());
    assert_eq!(expect_bytes(&values[1]), &b"me\0".to_vec());
    assert_eq!(expect_bytes(&values[2]), &b"0.1.0\0".to_vec());
}

#[test]
fn both_shapes_agree_on_equivalent_content() {
    let a = struct_c(decl(meta_struct_init())).unwrap();
    let b = struct_c(decl(meta_call_init())).unwrap();
    let va = init_values(&a.init);
    let vb = init_values(&b.init);
    assert_eq!(va.len(), vb.len());
    for (x, y) in va.iter().zip(vb.iter()) {
        assert_eq!(expect_bytes(x), expect_bytes(y));
    }
}

#[test]
fn embedded_nul_fails_the_build() {
    let init = Initializer::StructLit {
        path: "Meta".to_string(),
        fields: vec![
            field("name", Value::Text(b"demo".to_vec())),
            field("authors", Value::Text(b"m\0e".to_vec())),
        ],
    };
    let e = struct_c(decl(init)).unwrap_err();
    match e {
        CodeGenError::InteriorNul { field, nul } => {
            assert_eq!(field, 1);
            assert_eq!(nul.position, 1);
        }
        CodeGenError::UnsupportedShape => panic!("wrong error"),
    }
}

#[test]
fn embedded_nul_in_call_argument_fails() {
    let init = Initializer::Call {
        path: "Meta::new".to_string(),
        args: vec![arg(Value::Text(b"\0".to_vec()))],
    };
    let e = struct_c(decl(init)).unwrap_err();
    assert!(matches!(e, CodeGenError::InteriorNul { field: 0, .. }));
}

#[test]
fn unsupported_shape_is_rejected() {
    let init = Initializer::Other { tokens: "[1, 2, 3]".to_string() };
    let e = struct_c(decl(init)).unwrap_err();
    assert_eq!(e, CodeGenError::UnsupportedShape);
}

#[test]
fn no_text_fields_is_a_structural_noop() {
    let init = Initializer::StructLit {
        path: "Meta".to_string(),
        fields: vec![
            FieldInit {
                attrs: vec!["#[cfg(unix)]".to_string()],
                member: "flags".to_string(),
                value: Value::Verbatim("0x1f".to_string()),
            },
            field("raw", Value::Bytes(b"done\0".to_vec())),
        ],
    };
    let out = struct_c(decl(clone_init(&init))).unwrap();
    match (&init, &out.init) {
        (
            Initializer::StructLit { path: p, fields: fs },
            Initializer::StructLit { path: q, fields: gs },
        ) => {
            assert_eq!(p, q);
            assert_eq!(fs.len(), gs.len());
            for (f, g) in fs.iter().zip(gs.iter()) {
                assert_eq!(f.attrs, g.attrs);
                assert_eq!(f.member, g.member);
                match (&f.value, &g.value) {
                    (Value::Bytes(x), Value::Bytes(y)) => assert_eq!(x, y),
                    (Value::Verbatim(x), Value::Verbatim(y)) => assert_eq!(x, y),
                    _ => panic!("value changed shape"),
                }
            }
        }
        _ => panic!("shape changed"),
    }
}

fn clone_init(init: &Initializer) -> Initializer {
    match init {
        Initializer::StructLit { path, fields } => Initializer::StructLit {
            path: path.clone(),
            fields: fields
                .iter()
                .map(|f| FieldInit {
                    attrs: f.attrs.clone(),
                    member: f.member.clone(),
                    value: clone_value(&f.value),
                })
                .collect(),
        },
        Initializer::Call { path, args } => Initializer::Call {
            path: path.clone(),
            args: args
                .iter()
                .map(|a| ArgInit { attrs: a.attrs.clone(), value: clone_value(&a.value) })
                .collect(),
        },
        Initializer::Other { tokens } => Initializer::Other { tokens: tokens.clone() },
    }
}

#[test]
fn field_attributes_are_forwarded_on_text_fields() {
    let init = Initializer::StructLit {
        path: "Meta".to_string(),
        fields: vec![FieldInit {
            attrs: vec!["#[doc = \"who\"]".to_string()],
            member: "name".to_string(),
            value: Value::Text(b"demo".to_vec()),
        }],
    };
    let out = struct_c(decl(init)).unwrap();
    match &out.init {
        Initializer::StructLit { fields, .. } => {
            assert_eq!(fields[0].attrs, vec!["#[doc = \"who\"]".to_string()]);
            assert_eq!(fields[0].member, "name");
            assert_eq!(expect_bytes(&fields[0].value), &b"demo\0".to_vec());
        }
        _ => panic!("shape changed"),
    }
}
