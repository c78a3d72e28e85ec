use axion_db::manager::{count_kind, summarize_schema, ModelManager, SchemaSummary};
use axion_db::metadata::{
    AxionDataType, ColumnMetadata, DatabaseMetadata, EnumMetadata, ForeignKeyReference,
    FunctionMetadata, ParameterMetadata, ParameterMode, RoutineKind, SchemaMetadata,
    TableMetadata, ViewMetadata,
};
use axion_db::name_map::NameMap;

fn routine(name: &str, kind: Option<RoutineKind>) -> FunctionMetadata {
    FunctionMetadata { name: name.to_string(), kind, ..FunctionMetadata::default() }
}

fn schema(name: &str, tables: usize, views: usize, enums: usize) -> SchemaMetadata {
    let mut s = SchemaMetadata::named(name.to_string());
    for i in 0..tables {
        s.tables.insert(format!("t{}", i), TableMetadata::default());
    }
    for i in 0..views {
        s.views.insert(format!("v{}", i), ViewMetadata::default());
    }
    for i in 0..enums {
        s.enums.insert(format!("e{}", i), EnumMetadata::default());
    }
    s
}

fn database(schemas: Vec<SchemaMetadata>) -> DatabaseMetadata {
    let mut db = DatabaseMetadata::default();
    for s in schemas {
        db.schemas.insert(s.name.clone(), s);
    }
    db
}

#[test]
fn defaults_are_empty() {
    let t = TableMetadata::default();
    assert!(t.name.is_empty() && t.schema.is_empty() && t.columns.is_empty());
    assert!(t.primary_key_columns.is_empty() && t.comment.is_none());
    let v = ViewMetadata::default();
    assert!(v.name.is_empty() && v.columns.is_empty() && v.definition.is_none());
    let e = EnumMetadata::default();
    assert!(e.name.is_empty() && e.values.is_empty() && e.comment.is_none());
    let f = FunctionMetadata::default();
    assert!(f.kind.is_none() && f.parameters.is_empty() && f.return_type.is_none());
    assert!(f.return_table.is_none());
    let s = SchemaMetadata::default();
    assert!(s.name.is_empty() && s.tables.is_empty() && s.views.is_empty());
    assert!(s.enums.is_empty() && s.functions.is_empty());
    assert!(DatabaseMetadata::default().schemas.is_empty());
}

#[test]
fn foreign_key_is_written_with_dots() {
    let fk = ForeignKeyReference {
        schema: "billing".to_string(),
        table: "accounts".to_string(),
        column: "id".to_string(),
    };
    assert_eq!(fk.to_string(), "billing.accounts.id");
    assert_eq!(fk.clone(), fk);
}

#[test]
fn enum_is_written_with_its_values() {
    let e = EnumMetadata {
        name: "status".to_string(),
        schema: "app".to_string(),
        values: vec!["pending".to_string(), "active".to_string(), "closed".to_string()],
        comment: None,
    };
    assert_eq!(e.to_string(), "app.status (pending, active, closed)");
    let none = EnumMetadata { name: "n".to_string(), schema: "s".to_string(), ..EnumMetadata::default() };
    assert_eq!(none.to_string(), "s.n ()");
}

#[test]
fn schema_and_database_are_written_with_counts() {
    let s = schema("app", 12, 3, 0);
    assert_eq!(s.to_string(), "Schema 'app' [12 tables, 3 views, 0 enums]");
    assert_eq!(database(vec![]).to_string(), "Database with 0 schemas");
    assert_eq!(database(vec![s, schema("b", 0, 0, 1)]).to_string(), "Database with 2 schemas");
}

#[test]
fn column_clone_keeps_every_field() {
    let c = ColumnMetadata {
        name: "customer_id".to_string(),
        sql_type_name: "bigint".to_string(),
        axion_type: AxionDataType::Array(Box::new(AxionDataType::Integer(64))),
        is_nullable: true,
        is_primary_key: false,
        default_value: Some("0".to_string()),
        comment: None,
        foreign_key: Some(ForeignKeyReference {
            schema: "billing".to_string(),
            table: "accounts".to_string(),
            column: "id".to_string(),
        }),
    };
    assert_eq!(c.clone(), c);
}

#[test]
fn parameters_compare_by_their_fields() {
    let p = ParameterMetadata {
        name: "n".to_string(),
        sql_type_name: "integer".to_string(),
        axion_type: AxionDataType::Integer(32),
        mode: ParameterMode::InOut,
        has_default: true,
    };
    assert_eq!(p.clone(), p);
    assert_ne!(ParameterMode::In, ParameterMode::Out);
}

#[test]
fn routines_are_counted_by_kind() {
    let mut functions: NameMap<FunctionMetadata> = NameMap::new();
    assert_eq!(count_kind(&functions, RoutineKind::Function), 0);
    functions.insert("f1".to_string(), routine("f1", Some(RoutineKind::Function)));
    functions.insert("proc_a".to_string(), routine("proc_a", Some(RoutineKind::Procedure)));
    functions.insert("f2".to_string(), routine("f2", Some(RoutineKind::Function)));
    functions.insert("a1".to_string(), routine("a1", Some(RoutineKind::Aggregate)));
    functions.insert("u1".to_string(), routine("u1", None));
    functions.insert("t1".to_string(), routine("t1", Some(RoutineKind::Trigger)));
    assert_eq!(count_kind(&functions, RoutineKind::Function), 2);
    assert_eq!(count_kind(&functions, RoutineKind::Procedure), 1);
    assert_eq!(count_kind(&functions, RoutineKind::Trigger), 1);
    assert_eq!(count_kind(&functions, RoutineKind::Aggregate), 1);
    assert_eq!(count_kind(&functions, RoutineKind::Window), 0);
}

#[test]
fn schema_line_sums_the_counted_kinds() {
    let mut s = schema("app", 2, 1, 3);
    s.functions.insert("f".to_string(), routine("f", Some(RoutineKind::Function)));
    s.functions.insert("w".to_string(), routine("w", Some(RoutineKind::Window)));
    s.functions.insert("p".to_string(), routine("p", Some(RoutineKind::Procedure)));
    s.functions.insert("t".to_string(), routine("t", Some(RoutineKind::Trigger)));
    s.functions.insert("g".to_string(), routine("g", Some(RoutineKind::Trigger)));
    assert_eq!(
        summarize_schema("app", &s),
        Some(SchemaSummary {
            schema: "app".to_string(),
            tables: 2,
            views: 1,
            enums: 3,
            functions: 1,
            procedures: 1,
            triggers: 2,
            total: 10,
        })
    );
}

#[test]
fn summary_lists_schemas_in_ascending_order_with_totals() {
    let manager = ModelManager::new(database(vec![
        schema("public", 3, 1, 0),
        schema("auth", 2, 0, 2),
        schema("billing", 0, 0, 0),
    ]));
    let summary = manager.summary().unwrap();
    let names: Vec<&str> = summary.schemas.iter().map(|l| l.schema.as_str()).collect();
    assert_eq!(names, vec!["auth", "billing", "public"]);
    assert_eq!(summary.schemas[0].total, 4);
    assert_eq!(summary.schemas[1].total, 0);
    assert_eq!(summary.schemas[2].total, 4);
    assert_eq!(
        summary.totals,
        SchemaSummary {
            schema: "TOTAL".to_string(),
            tables: 5,
            views: 1,
            enums: 2,
            functions: 0,
            procedures: 0,
            triggers: 0,
            total: 8,
        }
    );
}

#[test]
fn summary_of_an_empty_snapshot() {
    let summary = ModelManager::new(DatabaseMetadata::default()).summary().unwrap();
    assert!(summary.schemas.is_empty());
    assert_eq!(summary.totals.total, 0);
    assert_eq!(summary.totals.schema, "TOTAL");
}

#[test]
fn report_shows_all_schemas_when_none_is_requested() {
    let manager = ModelManager::new(database(vec![schema("public", 0, 0, 0), schema("auth", 0, 0, 0)]));
    assert_eq!(manager.schemas_to_display(&[]), vec!["public", "auth"]);
}

#[test]
fn report_shows_the_requested_schemas_that_were_read() {
    let manager = ModelManager::new(database(vec![schema("public", 0, 0, 0), schema("auth", 0, 0, 0)]));
    assert_eq!(manager.schemas_to_display(&["auth", "hr", "public", "auth"]), vec!["auth", "public", "auth"]);
    assert_eq!(manager.schemas_to_display(&["hr"]), Vec::<String>::new());
}
