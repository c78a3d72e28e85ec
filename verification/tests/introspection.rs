use axion_db::config::{DatabaseType, DbConfig};
use axion_db::error::DbError;
use axion_db::introspection::postgres::{is_postgres_system_schema, PostgresIntrospector};
use axion_db::introspection::{
    entity_kind, foreign_key_map, group_enums, new_introspector, ColumnIntrospectionRow,
    EntityKind, EntityRows, EnumIntrospectionRow, ForeignKeyIntrospectionRow, Introspector,
    SchemaRows,
};
use axion_db::metadata::{AxionDataType, ForeignKeyReference};

fn column(name: &str, data_type: &str, udt_name: &str) -> ColumnIntrospectionRow {
    ColumnIntrospectionRow {
        column_name: name.to_string(),
        data_type: data_type.to_string(),
        udt_name: udt_name.to_string(),
        is_nullable: "YES".to_string(),
        column_default: None,
        column_comment: None,
        is_primary_key: false,
    }
}

fn key_column(name: &str, data_type: &str, udt_name: &str) -> ColumnIntrospectionRow {
    ColumnIntrospectionRow {
        is_nullable: "NO".to_string(),
        is_primary_key: true,
        ..column(name, data_type, udt_name)
    }
}

fn foreign_key(column: &str, schema: &str, table: &str, target: &str) -> ForeignKeyIntrospectionRow {
    ForeignKeyIntrospectionRow {
        column_name: column.to_string(),
        foreign_table_schema: schema.to_string(),
        foreign_table_name: table.to_string(),
        foreign_column_name: target.to_string(),
    }
}

fn enum_row(name: &str, value: &str) -> EnumIntrospectionRow {
    EnumIntrospectionRow { enum_name: name.to_string(), enum_value: value.to_string() }
}

fn orders_columns() -> Vec<ColumnIntrospectionRow> {
    vec![
        key_column("id", "integer", "int4"),
        column("customer_id", "bigint", "int8"),
        column("status", "USER-DEFINED", "status"),
        column("tags", "ARRAY", "_text"),
    ]
}

fn orders_keys() -> Vec<ForeignKeyIntrospectionRow> {
    vec![foreign_key("customer_id", "billing", "accounts", "id")]
}

fn transient() -> DbError {
    DbError::QueryExecution("connection reset".to_string())
}

#[test]
fn entity_kinds() {
    assert_eq!(entity_kind("BASE TABLE"), EntityKind::Table);
    assert_eq!(entity_kind("VIEW"), EntityKind::View);
    assert_eq!(entity_kind("FOREIGN"), EntityKind::Other);
    assert_eq!(entity_kind("base table"), EntityKind::Other);
    assert_eq!(entity_kind(""), EntityKind::Other);
}

#[test]
fn dispatcher_hands_out_postgres_only() {
    assert!(new_introspector(&DbConfig::new(DatabaseType::Postgres)).is_ok());
    for other in [DatabaseType::Mysql, DatabaseType::Sqlite] {
        match new_introspector(&DbConfig::new(other)) {
            Err(DbError::UnsupportedDbType(detail)) => assert_eq!(
                detail,
                "This database type is not yet supported for introspection."
            ),
            other => panic!("expected a refusal, got {:?}", other),
        }
    }
}

#[test]
fn table_columns_follow_the_rows() {
    let table = PostgresIntrospector::new()
        .introspect_table("app", "orders", Ok(orders_columns()), Ok(orders_keys()))
        .unwrap();
    assert_eq!(table.name, "orders");
    assert_eq!(table.schema, "app");
    assert!(table.comment.is_none());
    let names: Vec<&str> = table.columns.iter().map(|c| c.name.as_str()).collect();
    assert_eq!(names, vec!["id", "customer_id", "status", "tags"]);
    let types: Vec<AxionDataType> = table.columns.iter().map(|c| c.axion_type.clone()).collect();
    assert_eq!(
        types,
        vec![
            AxionDataType::Integer(32),
            AxionDataType::Integer(64),
            AxionDataType::Enum("status".to_string()),
            AxionDataType::Array(Box::new(AxionDataType::Text)),
        ]
    );
    let sql_types: Vec<&str> = table.columns.iter().map(|c| c.sql_type_name.as_str()).collect();
    assert_eq!(sql_types, vec!["integer", "bigint", "USER-DEFINED", "ARRAY"]);
}

#[test]
fn foreign_key_to_a_schema_that_was_not_read_is_kept() {
    let table = PostgresIntrospector::new()
        .introspect_table("app", "orders", Ok(orders_columns()), Ok(orders_keys()))
        .unwrap();
    assert_eq!(
        table.columns[1].foreign_key,
        Some(ForeignKeyReference {
            schema: "billing".to_string(),
            table: "accounts".to_string(),
            column: "id".to_string(),
        })
    );
    assert!(table.columns[0].foreign_key.is_none());
    assert!(table.columns[2].foreign_key.is_none());
}

#[test]
fn primary_key_marks_and_names() {
    let mut rows = orders_columns();
    rows.push(key_column("region", "text", "text"));
    let table =
        PostgresIntrospector::new().introspect_table("app", "orders", Ok(rows), Ok(vec![])).unwrap();
    assert_eq!(table.primary_key_columns, vec!["id", "region"]);
    let marks: Vec<bool> = table.columns.iter().map(|c| c.is_primary_key).collect();
    assert_eq!(marks, vec![true, false, false, false, true]);
}

#[test]
fn nullable_is_read_letter_case_aside() {
    let mut rows = vec![column("a", "text", "text"), column("b", "text", "text")];
    rows[0].is_nullable = "yes".to_string();
    rows[1].is_nullable = "Yes".to_string();
    rows.push(ColumnIntrospectionRow { is_nullable: "NO".to_string(), ..column("c", "text", "text") });
    rows.push(ColumnIntrospectionRow { is_nullable: String::new(), ..column("d", "text", "text") });
    let table =
        PostgresIntrospector::new().introspect_table("s", "t", Ok(rows), Ok(vec![])).unwrap();
    let nullable: Vec<bool> = table.columns.iter().map(|c| c.is_nullable).collect();
    assert_eq!(nullable, vec![true, true, false, false]);
}

#[test]
fn default_and_comment_are_carried_over() {
    let mut row = column("created", "timestamp with time zone", "timestamptz");
    row.column_default = Some("now()".to_string());
    row.column_comment = Some("when the row was written".to_string());
    let table =
        PostgresIntrospector::new().introspect_table("s", "t", Ok(vec![row]), Ok(vec![])).unwrap();
    assert_eq!(table.columns[0].default_value.as_deref(), Some("now()"));
    assert_eq!(table.columns[0].comment.as_deref(), Some("when the row was written"));
    assert_eq!(table.columns[0].axion_type, AxionDataType::TimestampTz);
}

#[test]
fn table_without_column_rows_is_not_found() {
    match PostgresIntrospector::new().introspect_table("app", "ghost", Ok(vec![]), Ok(orders_keys())) {
        Err(DbError::Introspection(detail)) => {
            assert_eq!(detail, "Table app.ghost not found or has no columns")
        }
        other => panic!("expected not found, got {:?}", other),
    }
}

#[test]
fn view_without_column_rows_is_not_found() {
    match PostgresIntrospector::new().introspect_view("app", "ghost", Ok(vec![]), Ok(None)) {
        Err(DbError::Introspection(detail)) => {
            assert_eq!(detail, "View app.ghost not found or has no columns")
        }
        other => panic!("expected not found, got {:?}", other),
    }
}

#[test]
fn failed_column_query_is_reported_before_a_failed_key_query() {
    let result = PostgresIntrospector::new().introspect_table(
        "s",
        "t",
        Err(DbError::QueryExecution("columns".to_string())),
        Err(DbError::Connection("keys".to_string())),
    );
    assert!(matches!(result, Err(DbError::QueryExecution(d)) if d == "columns"));
    let result = PostgresIntrospector::new().introspect_table(
        "s",
        "t",
        Ok(vec![]),
        Err(DbError::Connection("keys".to_string())),
    );
    assert!(matches!(result, Err(DbError::Connection(d)) if d == "keys"));
}

#[test]
fn failed_view_queries_are_reported_in_order() {
    let result = PostgresIntrospector::new().introspect_view(
        "s",
        "v",
        Err(DbError::QueryExecution("columns".to_string())),
        Err(DbError::QueryExecution("definition".to_string())),
    );
    assert!(matches!(result, Err(DbError::QueryExecution(d)) if d == "columns"));
    let result = PostgresIntrospector::new().introspect_view(
        "s",
        "v",
        Ok(vec![column("a", "text", "text")]),
        Err(DbError::QueryExecution("definition".to_string())),
    );
    assert!(matches!(result, Err(DbError::QueryExecution(d)) if d == "definition"));
}

#[test]
fn view_columns_are_never_keys() {
    let view = PostgresIntrospector::new()
        .introspect_view("app", "open_orders", Ok(orders_columns()), Ok(Some("SELECT 1".to_string())))
        .unwrap();
    assert_eq!(view.name, "open_orders");
    assert_eq!(view.schema, "app");
    assert_eq!(view.definition.as_deref(), Some("SELECT 1"));
    assert!(view.comment.is_none());
    assert_eq!(view.columns.len(), 4);
    assert!(view.columns.iter().all(|c| !c.is_primary_key && c.foreign_key.is_none()));
    assert_eq!(view.columns[3].name, "tags");
    assert_eq!(view.columns[3].axion_type, AxionDataType::Array(Box::new(AxionDataType::Text)));
}

#[test]
fn view_without_visible_definition_is_no_error() {
    let view = PostgresIntrospector::new()
        .introspect_view("app", "v", Ok(vec![column("a", "uuid", "uuid")]), Ok(None))
        .unwrap();
    assert!(view.definition.is_none());
    assert_eq!(view.columns[0].axion_type, AxionDataType::Uuid);
}

#[test]
fn later_foreign_key_row_stands_for_a_column() {
    let map = foreign_key_map(vec![
        foreign_key("a", "s1", "t1", "c1"),
        foreign_key("b", "s2", "t2", "c2"),
        foreign_key("a", "s3", "t3", "c3"),
    ]);
    assert_eq!(map.len(), 2);
    assert_eq!(map.get("a").unwrap().table, "t3");
    assert_eq!(map.get("b").unwrap().schema, "s2");
    assert!(map.get("c").is_none());
}

#[test]
fn enum_values_keep_the_catalog_order() {
    let enums = group_enums(
        "app",
        vec![enum_row("status", "pending"), enum_row("status", "active"), enum_row("status", "closed")],
    );
    assert_eq!(enums.len(), 1);
    let status = enums.get("status").unwrap();
    assert_eq!(status.values, vec!["pending", "active", "closed"]);
    assert_eq!(status.name, "status");
    assert_eq!(status.schema, "app");
    assert!(status.comment.is_none());
}

#[test]
fn enums_are_grouped_by_name() {
    let enums = group_enums(
        "app",
        vec![
            enum_row("mood", "sad"),
            enum_row("mood", "ok"),
            enum_row("size", "s"),
            enum_row("mood", "happy"),
            enum_row("size", "m"),
        ],
    );
    assert_eq!(enums.keys(), vec!["mood", "size"]);
    assert_eq!(enums.get("mood").unwrap().values, vec!["sad", "ok", "happy"]);
    assert_eq!(enums.get("size").unwrap().values, vec!["s", "m"]);
    assert!(group_enums("app", vec![]).is_empty());
}

#[test]
fn enum_query_outcome_is_handed_on() {
    let i = PostgresIntrospector::new();
    let enums = i.introspect_enums_for_schema("app", Ok(vec![enum_row("e", "v")])).unwrap();
    assert_eq!(enums.get("e").unwrap().values, vec!["v"]);
    let failed = i.introspect_enums_for_schema("app", Err(transient()));
    assert!(matches!(failed, Err(DbError::QueryExecution(d)) if d == "connection reset"));
}

fn app_entities() -> Vec<EntityRows> {
    vec![
        EntityRows::Table {
            name: "orders".to_string(),
            columns: Ok(orders_columns()),
            foreign_keys: Ok(orders_keys()),
        },
        EntityRows::Table {
            name: "broken".to_string(),
            columns: Err(transient()),
            foreign_keys: Ok(vec![]),
        },
        EntityRows::View {
            name: "open_orders".to_string(),
            columns: Ok(vec![column("id", "integer", "int4")]),
            definition: Ok(None),
        },
        EntityRows::View { name: "empty".to_string(), columns: Ok(vec![]), definition: Ok(None) },
    ]
}

#[test]
fn schema_keeps_what_was_assembled_and_lists_the_rest() {
    let done = PostgresIntrospector::new()
        .introspect_schema("app", Ok(app_entities()), Ok(vec![enum_row("status", "pending")]))
        .unwrap();
    assert_eq!(done.metadata.name, "app");
    assert_eq!(done.metadata.tables.keys(), vec!["orders"]);
    assert_eq!(done.metadata.views.keys(), vec!["open_orders"]);
    assert_eq!(done.metadata.enums.keys(), vec!["status"]);
    assert!(done.metadata.functions.is_empty());
    assert_eq!(done.skipped.len(), 2);
    assert_eq!(done.skipped[0].schema, "app");
    assert_eq!(done.skipped[0].entity.as_deref(), Some("broken"));
    assert!(matches!(&done.skipped[0].error, DbError::QueryExecution(d) if d == "connection reset"));
    assert_eq!(done.skipped[1].entity.as_deref(), Some("empty"));
    assert!(matches!(&done.skipped[1].error, DbError::Introspection(d)
        if d == "View app.empty not found or has no columns"));
}

#[test]
fn schema_level_failures_end_the_schema() {
    let i = PostgresIntrospector::new();
    let result = i.introspect_schema("app", Ok(app_entities()), Err(DbError::Connection("e".into())));
    assert!(matches!(result, Err(DbError::Connection(d)) if d == "e"));
    let result = i.introspect_schema("app", Err(DbError::QueryExecution("l".into())), Ok(vec![]));
    assert!(matches!(result, Err(DbError::QueryExecution(d)) if d == "l"));
    let result = i.introspect_schema(
        "app",
        Err(DbError::QueryExecution("list".into())),
        Err(DbError::QueryExecution("enums".into())),
    );
    assert!(matches!(result, Err(DbError::QueryExecution(d)) if d == "enums"));
}

#[test]
fn later_entity_of_the_same_name_stands() {
    let entities = vec![
        EntityRows::Table {
            name: "t".to_string(),
            columns: Ok(vec![column("first", "text", "text")]),
            foreign_keys: Ok(vec![]),
        },
        EntityRows::Table {
            name: "t".to_string(),
            columns: Ok(vec![column("second", "text", "text")]),
            foreign_keys: Ok(vec![]),
        },
    ];
    let done = PostgresIntrospector::new().introspect_schema("s", Ok(entities), Ok(vec![])).unwrap();
    assert_eq!(done.metadata.tables.len(), 1);
    assert_eq!(done.metadata.tables.get("t").unwrap().columns[0].name, "second");
}

#[test]
fn run_returns_the_other_schema_when_one_table_fails() {
    let schemas = vec![
        SchemaRows { name: "app".to_string(), entities: Ok(app_entities()), enums: Ok(vec![]) },
        SchemaRows {
            name: "billing".to_string(),
            entities: Ok(vec![EntityRows::Table {
                name: "accounts".to_string(),
                columns: Ok(vec![key_column("id", "uuid", "uuid")]),
                foreign_keys: Ok(vec![]),
            }]),
            enums: Ok(vec![enum_row("plan", "free"), enum_row("plan", "paid")]),
        },
    ];
    let done = PostgresIntrospector::new().introspect(schemas).unwrap();
    assert_eq!(done.metadata.schemas.keys(), vec!["app", "billing"]);
    let billing = done.metadata.schemas.get("billing").unwrap();
    assert_eq!(billing.name, "billing");
    assert_eq!(billing.tables.get("accounts").unwrap().primary_key_columns, vec!["id"]);
    assert_eq!(billing.enums.get("plan").unwrap().values, vec!["free", "paid"]);
    let app = done.metadata.schemas.get("app").unwrap();
    assert!(app.tables.contains_key("orders"));
    assert!(!app.tables.contains_key("broken"));
    let skipped: Vec<(&str, Option<&str>)> =
        done.skipped.iter().map(|s| (s.schema.as_str(), s.entity.as_deref())).collect();
    assert_eq!(skipped, vec![("app", Some("broken")), ("app", Some("empty"))]);
}

#[test]
fn failed_schema_is_left_out_and_listed() {
    let schemas = vec![
        SchemaRows { name: "bad".to_string(), entities: Err(transient()), enums: Ok(vec![]) },
        SchemaRows { name: "good".to_string(), entities: Ok(vec![]), enums: Ok(vec![]) },
    ];
    let done = PostgresIntrospector::new().introspect(schemas).unwrap();
    assert_eq!(done.metadata.schemas.keys(), vec!["good"]);
    assert_eq!(done.skipped.len(), 1);
    assert_eq!(done.skipped[0].schema, "bad");
    assert!(done.skipped[0].entity.is_none());
    assert!(matches!(&done.skipped[0].error, DbError::QueryExecution(_)));
}

#[test]
fn run_over_no_schema_is_an_empty_snapshot() {
    let done = PostgresIntrospector::new().introspect(vec![]).unwrap();
    assert!(done.metadata.schemas.is_empty());
    assert!(done.skipped.is_empty());
}

#[test]
fn system_schemas_are_taken_out_of_the_list() {
    let all = vec![
        "information_schema",
        "app",
        "pg_catalog",
        "pg_temp_1",
        "billing",
        "pg_toast",
        "pg_toast_temp_1",
        "pg",
        "pgx",
        "public",
    ];
    let kept = PostgresIntrospector::new()
        .list_user_schemas(Ok(all.iter().map(|s| s.to_string()).collect()))
        .unwrap();
    assert_eq!(kept, vec!["app", "billing", "pg", "pgx", "public"]);
    let failed = PostgresIntrospector::new().list_user_schemas(Err(transient()));
    assert!(matches!(failed, Err(DbError::QueryExecution(d)) if d == "connection reset"));
}

#[test]
fn names_reserved_for_the_engine() {
    assert!(is_postgres_system_schema("information_schema"));
    assert!(is_postgres_system_schema("pg_"));
    assert!(is_postgres_system_schema("pg_catalog"));
    assert!(is_postgres_system_schema("pg_toast_temp_12"));
    assert!(!is_postgres_system_schema("PG_CATALOG"));
    assert!(!is_postgres_system_schema("Information_Schema"));
    assert!(!is_postgres_system_schema("information_schema2"));
    assert!(!is_postgres_system_schema("my_pg_stuff"));
    assert!(!is_postgres_system_schema(""));
}
