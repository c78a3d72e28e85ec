use axion_db::document::{find_field, member_of, Document, Documented};
use axion_db::metadata::{
    AxionDataType, ColumnMetadata, DatabaseMetadata, EnumMetadata, ForeignKeyReference,
    FunctionMetadata, ParameterMetadata, ParameterMode, RoutineKind, SchemaMetadata,
    TableMetadata, ViewMetadata,
};
use axion_db::name_map::NameMap;

fn text(t: &str) -> Document {
    Document::Text(t.to_string())
}

fn object(fields: Vec<(&str, Document)>) -> Document {
    Document::Object(fields.into_iter().map(|(n, d)| (n.to_string(), d)).collect())
}

fn sample_column() -> ColumnMetadata {
    ColumnMetadata {
        name: "customer_id".to_string(),
        sql_type_name: "bigint".to_string(),
        axion_type: AxionDataType::Integer(64),
        is_nullable: false,
        is_primary_key: true,
        default_value: Some("0".to_string()),
        comment: None,
        foreign_key: Some(ForeignKeyReference {
            schema: "billing".to_string(),
            table: "accounts".to_string(),
            column: "id".to_string(),
        }),
    }
}

fn other_column() -> ColumnMetadata {
    ColumnMetadata {
        name: "tags".to_string(),
        sql_type_name: "ARRAY".to_string(),
        axion_type: AxionDataType::Array(Box::new(AxionDataType::Array(Box::new(
            AxionDataType::Enum("tag".to_string()),
        )))),
        is_nullable: true,
        is_primary_key: false,
        default_value: None,
        comment: Some("free \"text\" \u{1F600}".to_string()),
        foreign_key: None,
    }
}

fn sample_database() -> DatabaseMetadata {
    let table = TableMetadata {
        name: "orders".to_string(),
        schema: "app".to_string(),
        columns: vec![sample_column(), other_column()],
        primary_key_columns: vec!["customer_id".to_string()],
        comment: Some("all orders".to_string()),
    };
    let view = ViewMetadata {
        name: "open_orders".to_string(),
        schema: "app".to_string(),
        columns: vec![other_column()],
        definition: Some("SELECT 1".to_string()),
        comment: None,
    };
    let status = EnumMetadata {
        name: "status".to_string(),
        schema: "app".to_string(),
        values: vec!["pending".to_string(), "active".to_string(), "closed".to_string()],
        comment: None,
    };
    let routine = FunctionMetadata {
        name: "total".to_string(),
        schema: "app".to_string(),
        kind: Some(RoutineKind::Aggregate),
        parameters: vec![ParameterMetadata {
            name: "amount".to_string(),
            sql_type_name: "numeric".to_string(),
            axion_type: AxionDataType::Numeric,
            mode: ParameterMode::Variadic,
            has_default: true,
        }],
        return_type: Some(AxionDataType::Unsupported("money".to_string())),
        return_table: Some(vec![sample_column()]),
        comment: None,
    };
    let mut app = SchemaMetadata::named("app".to_string());
    app.tables.insert("orders".to_string(), table);
    app.tables.insert("empty".to_string(), TableMetadata::default());
    app.views.insert("open_orders".to_string(), view);
    app.enums.insert("status".to_string(), status);
    app.functions.insert("total".to_string(), routine);
    app.functions.insert("plain".to_string(), FunctionMetadata::default());
    let mut db = DatabaseMetadata::default();
    db.schemas.insert("app".to_string(), app);
    db.schemas.insert("billing".to_string(), SchemaMetadata::named("billing".to_string()));
    db
}

fn same_columns(a: &[ColumnMetadata], b: &[ColumnMetadata]) -> bool {
    a == b
}

fn sorted(mut names: Vec<String>) -> Vec<String> {
    names.sort();
    names
}

fn same_database(a: &DatabaseMetadata, b: &DatabaseMetadata) {
    assert_eq!(sorted(a.schemas.keys()), sorted(b.schemas.keys()));
    for name in a.schemas.keys() {
        let x = a.schemas.get(&name).unwrap();
        let y = b.schemas.get(&name).unwrap();
        assert_eq!(x.name, y.name);
        assert_eq!(sorted(x.tables.keys()), sorted(y.tables.keys()));
        for key in x.tables.keys() {
            let (s, t) = (x.tables.get(&key).unwrap(), y.tables.get(&key).unwrap());
            assert_eq!((&s.name, &s.schema, &s.comment), (&t.name, &t.schema, &t.comment));
            assert_eq!(s.primary_key_columns, t.primary_key_columns);
            assert!(same_columns(&s.columns, &t.columns));
        }
        assert_eq!(sorted(x.views.keys()), sorted(y.views.keys()));
        for key in x.views.keys() {
            let (s, t) = (x.views.get(&key).unwrap(), y.views.get(&key).unwrap());
            assert_eq!((&s.name, &s.schema, &s.comment), (&t.name, &t.schema, &t.comment));
            assert_eq!(s.definition, t.definition);
            assert!(same_columns(&s.columns, &t.columns));
        }
        assert_eq!(sorted(x.enums.keys()), sorted(y.enums.keys()));
        for key in x.enums.keys() {
            let (s, t) = (x.enums.get(&key).unwrap(), y.enums.get(&key).unwrap());
            assert_eq!((&s.name, &s.schema, &s.comment), (&t.name, &t.schema, &t.comment));
            assert_eq!(s.values, t.values);
        }
        assert_eq!(sorted(x.functions.keys()), sorted(y.functions.keys()));
        for key in x.functions.keys() {
            let (s, t) = (x.functions.get(&key).unwrap(), y.functions.get(&key).unwrap());
            assert_eq!((&s.name, &s.schema, &s.comment), (&t.name, &t.schema, &t.comment));
            assert_eq!(s.kind, t.kind);
            assert_eq!(s.parameters, t.parameters);
            assert_eq!(s.return_type, t.return_type);
            assert_eq!(s.return_table, t.return_table);
        }
    }
}

#[test]
fn snapshot_is_read_back_as_it_was_written() {
    let db = sample_database();
    let back = DatabaseMetadata::from_document(&db.to_document()).unwrap();
    same_database(&db, &back);
    same_database(&back, &db);
    assert_eq!(back.schemas.keys(), db.schemas.keys());
    let (app, read) = (db.schemas.get("app").unwrap(), back.schemas.get("app").unwrap());
    assert_eq!(read.tables.keys(), app.tables.keys());
    assert_eq!(read.functions.keys(), app.functions.keys());
}

#[test]
fn empty_snapshot_is_read_back() {
    let db = DatabaseMetadata::default();
    let d = db.to_document();
    assert_eq!(d, object(vec![("schemas", object(vec![]))]));
    assert!(DatabaseMetadata::from_document(&d).unwrap().schemas.is_empty());
}

fn to_json(d: &Document) -> serde_json::Value {
    match d {
        Document::Null => serde_json::Value::Null,
        Document::Bool(b) => serde_json::Value::Bool(*b),
        Document::Number(n) => serde_json::Value::Number(serde_json::Number::from(*n)),
        Document::Text(t) => serde_json::Value::String(t.clone()),
        Document::List(items) => serde_json::Value::Array(items.iter().map(to_json).collect()),
        Document::Object(fields) => {
            let mut map = serde_json::Map::new();
            for (name, value) in fields {
                map.insert(name.clone(), to_json(value));
            }
            serde_json::Value::Object(map)
        }
    }
}

fn from_json(v: &serde_json::Value) -> Document {
    match v {
        serde_json::Value::Null => Document::Null,
        serde_json::Value::Bool(b) => Document::Bool(*b),
        serde_json::Value::Number(n) => Document::Number(n.as_i64().unwrap()),
        serde_json::Value::String(t) => Document::Text(t.clone()),
        serde_json::Value::Array(items) => Document::List(items.iter().map(from_json).collect()),
        serde_json::Value::Object(map) => {
            Document::Object(map.iter().map(|(n, v)| (n.clone(), from_json(v))).collect())
        }
    }
}

#[test]
fn snapshot_survives_json_text() {
    let db = sample_database();
    let written = serde_json::to_string_pretty(&to_json(&db.to_document())).unwrap();
    let parsed: serde_json::Value = serde_json::from_str(&written).unwrap();
    let back = DatabaseMetadata::from_document(&from_json(&parsed)).unwrap();
    same_database(&db, &back);
}

#[test]
fn document_of_a_column_has_stable_field_names() {
    assert_eq!(
        sample_column().to_document(),
        object(vec![
            ("name", text("customer_id")),
            ("sql_type_name", text("bigint")),
            ("axion_type", object(vec![("Integer", Document::Number(64))])),
            ("is_nullable", Document::Bool(false)),
            ("is_primary_key", Document::Bool(true)),
            ("default_value", text("0")),
            ("comment", Document::Null),
            (
                "foreign_key",
                object(vec![
                    ("schema", text("billing")),
                    ("table", text("accounts")),
                    ("column", text("id")),
                ])
            ),
        ])
    );
}

#[test]
fn documents_of_types() {
    assert_eq!(AxionDataType::Text.to_document(), text("Text"));
    assert_eq!(AxionDataType::TimestampTz.to_document(), text("TimestampTz"));
    assert_eq!(AxionDataType::JsonB.to_document(), text("JsonB"));
    assert_eq!(
        AxionDataType::Float(32).to_document(),
        object(vec![("Float", Document::Number(32))])
    );
    assert_eq!(
        AxionDataType::Enum("mood".to_string()).to_document(),
        object(vec![("Enum", text("mood"))])
    );
    assert_eq!(
        AxionDataType::Array(Box::new(AxionDataType::Uuid)).to_document(),
        object(vec![("Array", text("Uuid"))])
    );
    assert_eq!(
        AxionDataType::Unsupported("xml".to_string()).to_document(),
        object(vec![("Unsupported", text("xml"))])
    );
}

#[test]
fn every_type_is_read_back() {
    let types = vec![
        AxionDataType::Text,
        AxionDataType::Integer(i32::MIN),
        AxionDataType::Integer(i32::MAX),
        AxionDataType::Float(64),
        AxionDataType::Numeric,
        AxionDataType::Boolean,
        AxionDataType::Timestamp,
        AxionDataType::TimestampTz,
        AxionDataType::Date,
        AxionDataType::Time,
        AxionDataType::Bytes,
        AxionDataType::Uuid,
        AxionDataType::Json,
        AxionDataType::JsonB,
        AxionDataType::Inet,
        AxionDataType::Enum(String::new()),
        AxionDataType::Enum("Text".to_string()),
        AxionDataType::Array(Box::new(AxionDataType::Array(Box::new(AxionDataType::Inet)))),
        AxionDataType::Unsupported("Array".to_string()),
    ];
    for t in types {
        assert_eq!(AxionDataType::from_document(&t.to_document()), Some(t));
    }
}

#[test]
fn kinds_and_modes_are_words() {
    for kind in [
        RoutineKind::Function,
        RoutineKind::Procedure,
        RoutineKind::Aggregate,
        RoutineKind::Window,
        RoutineKind::Trigger,
    ] {
        assert_eq!(RoutineKind::from_document(&kind.to_document()), Some(kind));
    }
    for mode in
        [ParameterMode::In, ParameterMode::Out, ParameterMode::InOut, ParameterMode::Variadic]
    {
        assert_eq!(ParameterMode::from_document(&mode.to_document()), Some(mode));
    }
    assert_eq!(RoutineKind::Window.to_document(), text("Window"));
    assert_eq!(ParameterMode::InOut.to_document(), text("InOut"));
    assert_eq!(RoutineKind::from_document(&text("window")), None);
    assert_eq!(ParameterMode::from_document(&Document::Null), None);
}

#[test]
fn fields_are_found_by_name_in_any_order() {
    let d = object(vec![
        ("column", text("id")),
        ("extra", Document::Bool(true)),
        ("schema", text("billing")),
        ("table", text("accounts")),
    ]);
    assert_eq!(
        ForeignKeyReference::from_document(&d),
        Some(ForeignKeyReference {
            schema: "billing".to_string(),
            table: "accounts".to_string(),
            column: "id".to_string(),
        })
    );
}

#[test]
fn first_field_of_a_name_is_the_one_found() {
    let fields = vec![
        ("a".to_string(), Document::Number(1)),
        ("b".to_string(), Document::Number(2)),
        ("a".to_string(), Document::Number(3)),
    ];
    assert_eq!(find_field(&fields, "a"), Some(&Document::Number(1)));
    assert_eq!(find_field(&fields, "b"), Some(&Document::Number(2)));
    assert_eq!(find_field(&fields, "c"), None);
    assert_eq!(member_of(&Document::Object(fields), "b"), Some(&Document::Number(2)));
    assert_eq!(member_of(&Document::Null, "b"), None);
}

#[test]
fn documents_that_describe_nothing_are_refused() {
    let missing = object(vec![("schema", text("s")), ("table", text("t"))]);
    assert_eq!(ForeignKeyReference::from_document(&missing), None);
    let wrong = object(vec![
        ("schema", text("s")),
        ("table", Document::Number(1)),
        ("column", text("c")),
    ]);
    assert_eq!(ForeignKeyReference::from_document(&wrong), None);
    assert_eq!(ForeignKeyReference::from_document(&text("s.t.c")), None);
    assert_eq!(AxionDataType::from_document(&text("text")), None);
    assert_eq!(AxionDataType::from_document(&object(vec![])), None);
    assert_eq!(
        AxionDataType::from_document(&object(vec![("Integer", Document::Number(1 << 40))])),
        None
    );
    assert_eq!(
        AxionDataType::from_document(&object(vec![
            ("Integer", Document::Number(1)),
            ("Float", Document::Number(1)),
        ])),
        None
    );
    assert_eq!(AxionDataType::from_document(&object(vec![("Array", Document::Null)])), None);
    assert_eq!(Vec::<String>::from_document(&Document::List(vec![text("a"), Document::Null])), None);
    assert!(DatabaseMetadata::from_document(&object(vec![])).is_none());
    assert!(DatabaseMetadata::from_document(&object(vec![("schemas", Document::List(vec![]))]))
        .is_none());
}

#[test]
fn primitive_documents() {
    assert_eq!("x".to_string().to_document(), text("x"));
    assert_eq!(String::from_document(&text("x")), Some("x".to_string()));
    assert_eq!(String::from_document(&Document::Bool(true)), None);
    assert_eq!(true.to_document(), Document::Bool(true));
    assert_eq!(bool::from_document(&Document::Bool(false)), Some(false));
    assert_eq!(bool::from_document(&Document::Number(0)), None);
    assert_eq!((-5i32).to_document(), Document::Number(-5));
    assert_eq!(i32::from_document(&Document::Number(2147483647)), Some(i32::MAX));
    assert_eq!(i32::from_document(&Document::Number(-2147483648)), Some(i32::MIN));
    assert_eq!(i32::from_document(&Document::Number(2147483648)), None);
    assert_eq!(i32::from_document(&Document::Number(-2147483649)), None);
    let list = vec!["a".to_string(), "b".to_string()];
    assert_eq!(list.to_document(), Document::List(vec![text("a"), text("b")]));
    assert_eq!(Vec::<String>::from_document(&list.to_document()), Some(list));
}

#[test]
fn maps_are_objects_keyed_by_name() {
    let mut m: NameMap<String> = NameMap::new();
    m.insert("b".to_string(), "two".to_string());
    m.insert("a".to_string(), "one".to_string());
    assert_eq!(m.to_document(), object(vec![("b", text("two")), ("a", text("one"))]));
    let back = NameMap::<String>::from_document(&m.to_document()).unwrap();
    assert_eq!(back.keys(), vec!["b", "a"]);
    assert_eq!(back.get("a"), Some(&"one".to_string()));
    let twice = object(vec![("k", text("first")), ("k", text("second"))]);
    let read = NameMap::<String>::from_document(&twice).unwrap();
    assert_eq!(read.len(), 1);
    assert_eq!(read.get("k"), Some(&"second".to_string()));
    assert!(NameMap::<String>::from_document(&object(vec![("k", Document::Null)])).is_none());
}
