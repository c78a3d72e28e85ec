//! Assembling metadata from what the catalog queries returned.
//!
//! The catalog is read elsewhere. What a query returned, rows or an error,
//! is handed to the functions of this module, which decide what becomes of it:
//! which entity is a table and which a view, how rows become columns, which
//! failure ends a schema and which only leaves an entity out.

use crate::config::{DatabaseType, DbConfig};
use crate::error::{DbError, DbErrorModel, DbResult};
use crate::introspection::postgres::PostgresIntrospector;
use crate::metadata::{
    enum_models, ColumnMetadata, ColumnModel, DatabaseMetadata, DatabaseModel,
    EnumMetadata, EnumModel, ForeignKeyModel, ForeignKeyReference, SchemaMetadata, SchemaModel,
    TableMetadata, TableModel, ViewMetadata, ViewModel, column_models, primary_key_names,
    schema_models, table_models, view_models,
};
use crate::name_map::NameMap;
use crate::text::{opt_text, same_ignoring_case, str_eq, str_eq_ignoring_case, texts};
use crate::types::TypeMapper;
use vstd::prelude::*;
use vstd::string::*;

pub mod postgres;

verus! {

/// One row of the list of a schema's tables and views.
#[derive(Debug, Clone)]
pub struct TableAndViewRow {
    pub table_name: String,
    pub table_type: String,
}

/// One row of the column query, in ordinal position.
#[derive(Debug, Clone)]
pub struct ColumnIntrospectionRow {
    pub column_name: String,
    pub data_type: String,
    pub udt_name: String,
    pub is_nullable: String,
    pub column_default: Option<String>,
    pub column_comment: Option<String>,
    pub is_primary_key: bool,
}

/// One row of the foreign-key query: a local column and the column it points at.
#[derive(Debug, Clone)]
pub struct ForeignKeyIntrospectionRow {
    pub column_name: String,
    pub foreign_table_schema: String,
    pub foreign_table_name: String,
    pub foreign_column_name: String,
}

/// One row of the enumeration query: one value of one enumeration.
#[derive(Debug, Clone)]
pub struct EnumIntrospectionRow {
    pub enum_name: String,
    pub enum_value: String,
}

/// What kind of entity a row of the entity list names.
#[derive(Debug, Clone, Copy, PartialEq, Eq, Structural)]
pub enum EntityKind {
    Table,
    View,
    Other,
}

/// The kind that the catalog's type word stands for.
pub open spec fn kind_of(table_type: Seq<char>) -> EntityKind {
    if table_type == "BASE TABLE"@ {
        EntityKind::Table
    } else if table_type == "VIEW"@ {
        EntityKind::View
    } else {
        EntityKind::Other
    }
}

/// Tells whether an entity is to be read as a table, as a view, or not at all.
pub fn entity_kind(table_type: &str) -> (k: EntityKind)
    ensures
        k == kind_of(table_type@),
{
    if str_eq(table_type, "BASE TABLE") {
        EntityKind::Table
    } else if str_eq(table_type, "VIEW") {
        EntityKind::View
    } else {
        EntityKind::Other
    }
}

/// The view of a query result that holds rows.
pub open spec fn rows_of<T>(r: DbResult<Vec<T>>) -> Result<Seq<T>, DbErrorModel> {
    match r {
        Ok(rows) => Ok(rows@),
        Err(e) => Err(e@),
    }
}

/// The view of a query result that holds an optional text.
pub open spec fn text_of(r: DbResult<Option<String>>) -> Result<Option<Seq<char>>, DbErrorModel> {
    match r {
        Ok(t) => Ok(opt_text(t)),
        Err(e) => Err(e@),
    }
}

/// The target that a foreign-key row names.
pub open spec fn target_of(row: ForeignKeyIntrospectionRow) -> ForeignKeyModel {
    ForeignKeyModel {
        schema: row.foreign_table_schema@,
        table: row.foreign_table_name@,
        column: row.foreign_column_name@,
    }
}

/// The foreign keys of a table by local column. Where two rows name the same
/// column, the later one stands.
pub open spec fn foreign_keys_by_column(rows: Seq<ForeignKeyIntrospectionRow>) -> Map<
    Seq<char>,
    ForeignKeyModel,
>
    decreases rows.len(),
{
    if rows.len() == 0 {
        Map::empty()
    } else {
        foreign_keys_by_column(rows.drop_last()).insert(
            rows.last().column_name@,
            target_of(rows.last()),
        )
    }
}

/// The models of the foreign keys of a name map.
pub open spec fn foreign_key_models(m: Map<Seq<char>, ForeignKeyReference>) -> Map<
    Seq<char>,
    ForeignKeyModel,
> {
    m.map_values(|fk: ForeignKeyReference| fk@)
}

/// The foreign key of a column, if the map has one for it.
pub open spec fn foreign_key_of(keys: Map<Seq<char>, ForeignKeyModel>, column: Seq<char>) -> Option<
    ForeignKeyModel,
> {
    if keys.contains_key(column) {
        Some(keys[column])
    } else {
        None
    }
}

/// The column that a row of a table describes.
///
/// The column is nullable when the catalog says `yes`, letter case aside; it
/// is a primary key when the row marks it so; it carries a foreign key when
/// its name is a key of `keys`.
pub open spec fn table_column<M: TypeMapper>(
    mapper: M,
    row: ColumnIntrospectionRow,
    keys: Map<Seq<char>, ForeignKeyModel>,
) -> ColumnModel {
    ColumnModel {
        name: row.column_name@,
        sql_type_name: row.data_type@,
        axion_type: mapper.normalized(row.data_type@, Some(row.udt_name@)),
        is_nullable: same_ignoring_case(row.is_nullable@, "yes"@),
        is_primary_key: row.is_primary_key,
        default_value: opt_text(row.column_default),
        comment: opt_text(row.column_comment),
        foreign_key: foreign_key_of(keys, row.column_name@),
    }
}

/// The column that a row of a view describes: never a primary key, never with a foreign key.
pub open spec fn view_column<M: TypeMapper>(mapper: M, row: ColumnIntrospectionRow) -> ColumnModel {
    ColumnModel {
        name: row.column_name@,
        sql_type_name: row.data_type@,
        axion_type: mapper.normalized(row.data_type@, Some(row.udt_name@)),
        is_nullable: same_ignoring_case(row.is_nullable@, "yes"@),
        is_primary_key: false,
        default_value: opt_text(row.column_default),
        comment: opt_text(row.column_comment),
        foreign_key: None,
    }
}

/// The columns of a table, one for each row and in the rows' order.
pub open spec fn table_columns<M: TypeMapper>(
    mapper: M,
    rows: Seq<ColumnIntrospectionRow>,
    keys: Map<Seq<char>, ForeignKeyModel>,
) -> Seq<ColumnModel> {
    rows.map_values(|row: ColumnIntrospectionRow| table_column(mapper, row, keys))
}

/// The columns of a view, one for each row and in the rows' order.
pub open spec fn view_columns<M: TypeMapper>(mapper: M, rows: Seq<ColumnIntrospectionRow>) -> Seq<
    ColumnModel,
> {
    rows.map_values(|row: ColumnIntrospectionRow| view_column(mapper, row))
}

/// The detail of the error for an entity without columns.
pub open spec fn not_found(what: Seq<char>, schema: Seq<char>, name: Seq<char>) -> DbErrorModel {
    DbErrorModel::Introspection(what + " "@ + schema + "."@ + name + " not found or has no columns"@)
}

/// What becomes of a table whose two queries returned `columns` and `keys`.
///
/// A failed column query is reported first, then a failed foreign-key query.
/// A table without column rows is reported as not found. Otherwise the table
/// has one column for each row, in the rows' order.
pub open spec fn table_outcome<M: TypeMapper>(
    mapper: M,
    schema: Seq<char>,
    name: Seq<char>,
    columns: Result<Seq<ColumnIntrospectionRow>, DbErrorModel>,
    keys: Result<Seq<ForeignKeyIntrospectionRow>, DbErrorModel>,
) -> Result<TableModel, DbErrorModel> {
    match columns {
        Err(e) => Err(e),
        Ok(rows) => match keys {
            Err(e) => Err(e),
            Ok(key_rows) => if rows.len() == 0 {
                Err(not_found("Table"@, schema, name))
            } else {
                let cols = table_columns(mapper, rows, foreign_keys_by_column(key_rows));
                Ok(
                    TableModel {
                        name,
                        schema,
                        columns: cols,
                        primary_key_columns: primary_key_names(cols),
                        comment: None,
                    },
                )
            },
        },
    }
}

/// What becomes of a view whose two queries returned `columns` and `definition`.
///
/// A failed column query is reported first, then a failed definition query.
/// A view without column rows is reported as not found. A definition that
/// the catalog does not show is no error.
pub open spec fn view_outcome<M: TypeMapper>(
    mapper: M,
    schema: Seq<char>,
    name: Seq<char>,
    columns: Result<Seq<ColumnIntrospectionRow>, DbErrorModel>,
    definition: Result<Option<Seq<char>>, DbErrorModel>,
) -> Result<ViewModel, DbErrorModel> {
    match columns {
        Err(e) => Err(e),
        Ok(rows) => match definition {
            Err(e) => Err(e),
            Ok(text) => if rows.len() == 0 {
                Err(not_found("View"@, schema, name))
            } else {
                Ok(
                    ViewModel {
                        name,
                        schema,
                        columns: view_columns(mapper, rows),
                        definition: text,
                        comment: None,
                    },
                )
            },
        },
    }
}

/// The view of an assembled table or the error in its place.
pub open spec fn table_result(r: DbResult<TableMetadata>) -> Result<TableModel, DbErrorModel> {
    match r {
        Ok(t) => Ok(t@),
        Err(e) => Err(e@),
    }
}

/// The view of an assembled view or the error in its place.
pub open spec fn view_result(r: DbResult<ViewMetadata>) -> Result<ViewModel, DbErrorModel> {
    match r {
        Ok(v) => Ok(v@),
        Err(e) => Err(e@),
    }
}

/// Builds the map from local column to foreign-key target.
pub fn foreign_key_map(rows: Vec<ForeignKeyIntrospectionRow>) -> (m: NameMap<ForeignKeyReference>)
    ensures
        foreign_key_models(m@) == foreign_keys_by_column(rows@),
{
    let ghost all = rows@;
    let mut m: NameMap<ForeignKeyReference> = NameMap::new();
    assert(foreign_key_models(m@) =~= foreign_keys_by_column(all.take(0)));
    for row in it: rows
        invariant
            it.seq() == all,
            foreign_key_models(m@) == foreign_keys_by_column(all.take(it.index() as int)),
    {
        let ghost i = it.index() as int;
        let ghost before = m@;
        assert(all.take(i + 1).drop_last() =~= all.take(i));
        assert(all.take(i + 1).last() == row);
        let target = ForeignKeyReference {
            schema: row.foreign_table_schema,
            table: row.foreign_table_name,
            column: row.foreign_column_name,
        };
        m.insert(row.column_name, target);
        assert(foreign_key_models(m@) =~= foreign_key_models(before).insert(
            row.column_name@,
            target_of(row),
        ));
    }
    assert(all.take(all.len() as int) =~= all);
    m
}

/// The error for an entity without columns.
pub fn not_found_error(what: &str, schema: &str, name: &str) -> (e: DbError)
    ensures
        e@ == not_found(what@, schema@, name@),
{
    let mut m = String::from_str(what);
    m.append(" ");
    m.append(schema);
    m.append(".");
    m.append(name);
    m.append(" not found or has no columns");
    DbError::Introspection(m)
}

/// Builds the column that a row of a table describes.
pub fn build_table_column<M: TypeMapper>(
    mapper: &M,
    row: ColumnIntrospectionRow,
    keys: &NameMap<ForeignKeyReference>,
) -> (c: ColumnMetadata)
    ensures
        c@ == table_column(*mapper, row, foreign_key_models(keys@)),
{
    let axion_type = mapper.sql_to_axion(row.data_type.as_str(), Some(row.udt_name.as_str()));
    let is_nullable = str_eq_ignoring_case(row.is_nullable.as_str(), "yes");
    let foreign_key = match keys.get(row.column_name.as_str()) {
        Some(fk) => Some(fk.clone()),
        None => None,
    };
    ColumnMetadata {
        name: row.column_name,
        sql_type_name: row.data_type,
        axion_type,
        is_nullable,
        is_primary_key: row.is_primary_key,
        default_value: row.column_default,
        comment: row.column_comment,
        foreign_key,
    }
}

/// Builds the column that a row of a view describes.
pub fn build_view_column<M: TypeMapper>(mapper: &M, row: ColumnIntrospectionRow) -> (c:
    ColumnMetadata)
    ensures
        c@ == view_column(*mapper, row),
{
    let axion_type = mapper.sql_to_axion(row.data_type.as_str(), Some(row.udt_name.as_str()));
    let is_nullable = str_eq_ignoring_case(row.is_nullable.as_str(), "yes");
    ColumnMetadata {
        name: row.column_name,
        sql_type_name: row.data_type,
        axion_type,
        is_nullable,
        is_primary_key: false,
        default_value: row.column_default,
        comment: row.column_comment,
        foreign_key: None,
    }
}

/// Assembles a table from what its two queries returned.
pub fn assemble_table<M: TypeMapper>(
    mapper: &M,
    schema_name: &str,
    table_name: &str,
    columns: DbResult<Vec<ColumnIntrospectionRow>>,
    foreign_keys: DbResult<Vec<ForeignKeyIntrospectionRow>>,
) -> (r: DbResult<TableMetadata>)
    ensures
        table_result(r) == table_outcome(
            *mapper,
            schema_name@,
            table_name@,
            rows_of(columns),
            rows_of(foreign_keys),
        ),
        r matches Ok(t) ==> t@.well_formed(),
{
    let column_rows = match columns {
        Ok(rows) => rows,
        Err(e) => { return Err(e); },
    };
    let key_rows = match foreign_keys {
        Ok(rows) => rows,
        Err(e) => { return Err(e); },
    };
    if column_rows.len() == 0 {
        return Err(not_found_error("Table", schema_name, table_name));
    }
    let ghost all = column_rows@;
    let ghost key_models = foreign_keys_by_column(key_rows@);
    let keys = foreign_key_map(key_rows);
    let mut built: Vec<ColumnMetadata> = Vec::new();
    let mut primary_key_columns: Vec<String> = Vec::new();
    assert(column_models(built@) =~= table_columns(*mapper, all.take(0), key_models));
    assert(texts(primary_key_columns@) =~= primary_key_names(column_models(built@)));
    for row in it: column_rows
        invariant
            it.seq() == all,
            foreign_key_models(keys@) == key_models,
            column_models(built@) == table_columns(*mapper, all.take(it.index() as int), key_models),
            texts(primary_key_columns@) == primary_key_names(column_models(built@)),
    {
        let ghost i = it.index() as int;
        let ghost before = column_models(built@);
        let ghost names_before = texts(primary_key_columns@);
        if row.is_primary_key {
            primary_key_columns.push(row.column_name.clone());
        }
        let column = build_table_column(mapper, row, &keys);
        built.push(column);
        proof {
            assert(all.take(i + 1) =~= all.take(i).push(row));
            assert(column_models(built@) =~= before.push(column@));
            assert(table_columns(*mapper, all.take(i + 1), key_models) =~= table_columns(
                *mapper,
                all.take(i),
                key_models,
            ).push(table_column(*mapper, row, key_models)));
            lemma_primary_key_names_push(before, column@);
            if row.is_primary_key {
                assert(texts(primary_key_columns@) =~= names_before.push(column@.name));
            } else {
                assert(texts(primary_key_columns@) =~= names_before);
            }
        }
    }
    assert(all.take(all.len() as int) =~= all);
    Ok(
        TableMetadata {
            name: String::from_str(table_name),
            schema: String::from_str(schema_name),
            columns: built,
            primary_key_columns,
            comment: None,
        },
    )
}

/// Adding a column adds its name to the primary-key names when it is marked so, and nothing otherwise.
pub proof fn lemma_primary_key_names_push(columns: Seq<ColumnModel>, column: ColumnModel)
    ensures
        primary_key_names(columns.push(column)) == if column.is_primary_key {
            primary_key_names(columns).push(column.name)
        } else {
            primary_key_names(columns)
        },
{
    let marked = |c: ColumnModel| c.is_primary_key;
    Seq::lemma_filter_push(columns, column, marked);
    if column.is_primary_key {
        assert(columns.push(column).filter(marked).map_values(|c: ColumnModel| c.name)
            =~= columns.filter(marked).map_values(|c: ColumnModel| c.name).push(column.name));
    }
}

/// Assembles a view from what its two queries returned.
pub fn assemble_view<M: TypeMapper>(
    mapper: &M,
    schema_name: &str,
    view_name: &str,
    columns: DbResult<Vec<ColumnIntrospectionRow>>,
    definition: DbResult<Option<String>>,
) -> (r: DbResult<ViewMetadata>)
    ensures
        view_result(r) == view_outcome(
            *mapper,
            schema_name@,
            view_name@,
            rows_of(columns),
            text_of(definition),
        ),
        r matches Ok(v) ==> v@.well_formed(),
{
    let column_rows = match columns {
        Ok(rows) => rows,
        Err(e) => { return Err(e); },
    };
    let definition_text = match definition {
        Ok(text) => text,
        Err(e) => { return Err(e); },
    };
    if column_rows.len() == 0 {
        return Err(not_found_error("View", schema_name, view_name));
    }
    let ghost all = column_rows@;
    let mut built: Vec<ColumnMetadata> = Vec::new();
    assert(column_models(built@) =~= view_columns(*mapper, all.take(0)));
    for row in it: column_rows
        invariant
            it.seq() == all,
            column_models(built@) == view_columns(*mapper, all.take(it.index() as int)),
    {
        let ghost i = it.index() as int;
        let ghost before = column_models(built@);
        let column = build_view_column(mapper, row);
        built.push(column);
        proof {
            assert(all.take(i + 1) =~= all.take(i).push(row));
            assert(column_models(built@) =~= before.push(column@));
            assert(view_columns(*mapper, all.take(i + 1)) =~= view_columns(
                *mapper,
                all.take(i),
            ).push(view_column(*mapper, row)));
        }
    }
    assert(all.take(all.len() as int) =~= all);
    Ok(
        ViewMetadata {
            name: String::from_str(view_name),
            schema: String::from_str(schema_name),
            columns: built,
            definition: definition_text,
            comment: None,
        },
    )
}

/// Whether some row gives a value of the enumeration `name`.
pub open spec fn names_enum(rows: Seq<EnumIntrospectionRow>, name: Seq<char>) -> bool {
    exists|i: int| 0 <= i < rows.len() && (#[trigger] rows[i]).enum_name@ == name
}

/// The test that a row belongs to the enumeration `name`.
pub open spec fn belongs_to(name: Seq<char>) -> spec_fn(EnumIntrospectionRow) -> bool {
    |row: EnumIntrospectionRow| row.enum_name@ == name
}

/// The value that a row gives.
pub open spec fn value_of() -> spec_fn(EnumIntrospectionRow) -> Seq<char> {
    |row: EnumIntrospectionRow| row.enum_value@
}

/// The values that the rows give to the enumeration `name`, in the rows' order.
pub open spec fn enum_values(rows: Seq<EnumIntrospectionRow>, name: Seq<char>) -> Seq<Seq<char>> {
    rows.filter(belongs_to(name)).map_values(value_of())
}

/// The enumerations of a schema: one for each name that occurs in the rows,
/// with the values in the order in which the rows give them.
pub open spec fn enums_of(schema: Seq<char>, rows: Seq<EnumIntrospectionRow>) -> Map<
    Seq<char>,
    EnumModel,
> {
    Map::new(
        |name: Seq<char>| names_enum(rows, name),
        |name: Seq<char>| EnumModel { name, schema, values: enum_values(rows, name), comment: None },
    )
}

/// One more row adds its value at the end of its enumeration and leaves the others as they are.
pub proof fn lemma_enums_of_push(
    schema: Seq<char>,
    rows: Seq<EnumIntrospectionRow>,
    row: EnumIntrospectionRow,
)
    ensures
        enums_of(schema, rows.push(row)) == enums_of(schema, rows).insert(
            row.enum_name@,
            EnumModel {
                name: row.enum_name@,
                schema,
                values: enum_values(rows, row.enum_name@).push(row.enum_value@),
                comment: None,
            },
        ),
        !names_enum(rows, row.enum_name@) ==> enum_values(rows, row.enum_name@) == Seq::<
            Seq<char>,
        >::empty(),
{
    let more = rows.push(row);
    let key = row.enum_name@;
    assert forall|name: Seq<char>| names_enum(more, name) <==> (names_enum(rows, name) || name
        == key) by {
        if names_enum(rows, name) {
            let i = choose|i: int| 0 <= i < rows.len() && (#[trigger] rows[i]).enum_name@ == name;
            assert(more[i] == rows[i]);
        }
        if name == key {
            assert(more[rows.len() as int] == row);
        }
        if names_enum(more, name) {
            let i = choose|i: int| 0 <= i < more.len() && (#[trigger] more[i]).enum_name@ == name;
            if i < rows.len() {
                assert(rows[i] == more[i]);
            }
        }
    }
    assert forall|name: Seq<char>| #[trigger] enum_values(more, name) == if name == key {
        enum_values(rows, name).push(row.enum_value@)
    } else {
        enum_values(rows, name)
    } by {
        let named = belongs_to(name);
        Seq::lemma_filter_push(rows, row, named);
        if name == key {
            assert(more.filter(named).map_values(value_of()) =~= rows.filter(named).map_values(
                value_of(),
            ).push(row.enum_value@));
        }
    }
    assert(enums_of(schema, more) =~= enums_of(schema, rows).insert(
        key,
        EnumModel { name: key, schema, values: enum_values(rows, key).push(row.enum_value@), comment: None },
    ));
    if !names_enum(rows, key) {
        lemma_unnamed_enum_has_no_values(rows, key);
    }
}

/// An enumeration that no row names has no values.
pub proof fn lemma_unnamed_enum_has_no_values(rows: Seq<EnumIntrospectionRow>, name: Seq<char>)
    requires
        !names_enum(rows, name),
    ensures
        enum_values(rows, name) == Seq::<Seq<char>>::empty(),
{
    let named = belongs_to(name);
    let others = |row: EnumIntrospectionRow| !named(row);
    assert(rows.all(others)) by {
        assert forall|i: int| 0 <= i < rows.len() implies others(#[trigger] rows[i]) by {}
    }
    rows.lemma_all_neg_filter_empty(named);
    assert(enum_values(rows, name) =~= Seq::<Seq<char>>::empty());
}

/// Groups the rows of the enumeration query by enumeration.
///
/// The values of each enumeration stay in the order of the rows, which is the
/// order that the catalog declares; they are not sorted again.
pub fn group_enums(schema_name: &str, rows: Vec<EnumIntrospectionRow>) -> (m: NameMap<EnumMetadata>)
    ensures
        enum_models(m@) == enums_of(schema_name@, rows@),
{
    let ghost all = rows@;
    let ghost schema = schema_name@;
    let mut m: NameMap<EnumMetadata> = NameMap::new();
    assert(enum_models(m@) =~= enums_of(schema, all.take(0)));
    for row in it: rows
        invariant
            it.seq() == all,
            schema == schema_name@,
            enum_models(m@) == enums_of(schema, all.take(it.index() as int)),
    {
        let ghost i = it.index() as int;
        let ghost seen = all.take(i);
        let ghost before = m@;
        proof {
            assert(all.take(i + 1) =~= seen.push(row));
            lemma_enums_of_push(schema, seen, row);
            assert(enum_models(before).dom() =~= before.dom());
        }
        let name = row.enum_name;
        let value = row.enum_value;
        if m.contains_key(name.as_str()) {
            let previous = m.insert(name.clone(), EnumMetadata::default());
            let mut found = previous.unwrap();
            assert(found@ == enum_models(before)[name@]);
            found.values.push(value);
            assert(texts(found.values@) =~= enum_values(seen, name@).push(value@));
            m.insert(name, found);
            assert(enum_models(m@) =~= enum_models(before).insert(name@, found@));
        } else {
            let mut values: Vec<String> = Vec::new();
            values.push(value);
            assert(texts(values@) =~= Seq::<Seq<char>>::empty().push(value@));
            let fresh = EnumMetadata {
                name: name.clone(),
                schema: String::from_str(schema_name),
                values,
                comment: None,
            };
            m.insert(name, fresh);
            assert(enum_models(m@) =~= enum_models(before).insert(name@, fresh@));
        }
    }
    assert(all.take(all.len() as int) =~= all);
    m
}

/// What the queries for one entity of a schema returned.
#[derive(Debug)]
pub enum EntityRows {
    Table {
        name: String,
        columns: DbResult<Vec<ColumnIntrospectionRow>>,
        foreign_keys: DbResult<Vec<ForeignKeyIntrospectionRow>>,
    },
    View {
        name: String,
        columns: DbResult<Vec<ColumnIntrospectionRow>>,
        definition: DbResult<Option<String>>,
    },
}

/// What the queries for one schema returned.
#[derive(Debug)]
pub struct SchemaRows {
    pub name: String,
    pub entities: DbResult<Vec<EntityRows>>,
    pub enums: DbResult<Vec<EnumIntrospectionRow>>,
}

/// An entity, or a whole schema where `entity` is `None`, that was left out
/// of the result, with the error that was the reason.
#[derive(Debug, Clone)]
pub struct SkippedEntity {
    pub schema: String,
    pub entity: Option<String>,
    pub error: DbError,
}

/// A skipped entity as a mathematical value.
pub struct SkippedModel {
    pub schema: Seq<char>,
    pub entity: Option<Seq<char>>,
    pub error: DbErrorModel,
}

impl View for SkippedEntity {
    type V = SkippedModel;

    open spec fn view(&self) -> SkippedModel {
        SkippedModel { schema: self.schema@, entity: opt_text(self.entity), error: self.error@ }
    }
}

/// The models of a list of skipped entities, in order.
pub open spec fn skipped_models(list: Seq<SkippedEntity>) -> Seq<SkippedModel> {
    list.map_values(|s: SkippedEntity| s@)
}

/// A schema as far as it has been assembled, and what was left out of it.
#[derive(Debug, Clone)]
pub struct SchemaIntrospection {
    pub metadata: SchemaMetadata,
    pub skipped: Vec<SkippedEntity>,
}

/// An assembled schema as a mathematical value.
pub struct SchemaOutcome {
    pub metadata: SchemaModel,
    pub skipped: Seq<SkippedModel>,
}

impl View for SchemaIntrospection {
    type V = SchemaOutcome;

    open spec fn view(&self) -> SchemaOutcome {
        SchemaOutcome { metadata: self.metadata@, skipped: skipped_models(self.skipped@) }
    }
}

/// The snapshot of a run, and what was left out of it.
#[derive(Debug, Clone)]
pub struct Introspection {
    pub metadata: DatabaseMetadata,
    pub skipped: Vec<SkippedEntity>,
}

/// The result of a run as a mathematical value.
pub struct IntrospectionOutcome {
    pub metadata: DatabaseModel,
    pub skipped: Seq<SkippedModel>,
}

impl View for Introspection {
    type V = IntrospectionOutcome;

    open spec fn view(&self) -> IntrospectionOutcome {
        IntrospectionOutcome { metadata: self.metadata@, skipped: skipped_models(self.skipped@) }
    }
}

/// The schema after one more entity: an entity that was assembled is stored
/// under its name, one that failed is noted as skipped and the schema stays
/// as it was.
pub open spec fn entity_absorbed<M: TypeMapper>(
    mapper: M,
    schema: Seq<char>,
    state: SchemaOutcome,
    entity: EntityRows,
) -> SchemaOutcome {
    match entity {
        EntityRows::Table { name, columns, foreign_keys } => match table_outcome(
            mapper,
            schema,
            name@,
            rows_of(columns),
            rows_of(foreign_keys),
        ) {
            Ok(table) => SchemaOutcome {
                metadata: SchemaModel {
                    tables: state.metadata.tables.insert(name@, table),
                    ..state.metadata
                },
                skipped: state.skipped,
            },
            Err(error) => SchemaOutcome {
                metadata: state.metadata,
                skipped: state.skipped.push(SkippedModel { schema, entity: Some(name@), error }),
            },
        },
        EntityRows::View { name, columns, definition } => match view_outcome(
            mapper,
            schema,
            name@,
            rows_of(columns),
            text_of(definition),
        ) {
            Ok(view) => SchemaOutcome {
                metadata: SchemaModel {
                    views: state.metadata.views.insert(name@, view),
                    ..state.metadata
                },
                skipped: state.skipped,
            },
            Err(error) => SchemaOutcome {
                metadata: state.metadata,
                skipped: state.skipped.push(SkippedModel { schema, entity: Some(name@), error }),
            },
        },
    }
}

/// The schema after the first `n` entities, taken in order.
pub open spec fn entities_absorbed<M: TypeMapper>(
    mapper: M,
    schema: Seq<char>,
    start: SchemaOutcome,
    entities: Seq<EntityRows>,
    n: nat,
) -> SchemaOutcome
    decreases n,
{
    if n == 0 {
        start
    } else {
        entity_absorbed(
            mapper,
            schema,
            entities_absorbed(mapper, schema, start, entities, (n - 1) as nat),
            entities[n - 1],
        )
    }
}

/// A schema that holds its enumerations and nothing else yet.
pub open spec fn schema_start(schema: Seq<char>, enums: Seq<EnumIntrospectionRow>) -> SchemaOutcome {
    SchemaOutcome {
        metadata: SchemaModel { enums: enums_of(schema, enums), ..SchemaModel::named(schema) },
        skipped: Seq::empty(),
    }
}

/// What becomes of a schema.
///
/// A failed enumeration query ends the schema, and so does a failed entity
/// list; the enumeration query is looked at first. Otherwise the schema holds
/// its enumerations and every entity that could be assembled, and the others
/// are listed as skipped.
pub open spec fn schema_outcome<M: TypeMapper>(
    mapper: M,
    schema: Seq<char>,
    entities: Result<Seq<EntityRows>, DbErrorModel>,
    enums: Result<Seq<EnumIntrospectionRow>, DbErrorModel>,
) -> Result<SchemaOutcome, DbErrorModel> {
    match enums {
        Err(e) => Err(e),
        Ok(enum_rows) => match entities {
            Err(e) => Err(e),
            Ok(list) => Ok(
                entities_absorbed(mapper, schema, schema_start(schema, enum_rows), list, list.len()),
            ),
        },
    }
}

/// The view of an assembled schema or the error in its place.
pub open spec fn schema_result(r: DbResult<SchemaIntrospection>) -> Result<
    SchemaOutcome,
    DbErrorModel,
> {
    match r {
        Ok(s) => Ok(s@),
        Err(e) => Err(e@),
    }
}

/// Assembles a schema from what its queries returned.
pub fn assemble_schema<M: TypeMapper>(
    mapper: &M,
    schema_name: &str,
    entities: DbResult<Vec<EntityRows>>,
    enums: DbResult<Vec<EnumIntrospectionRow>>,
) -> (r: DbResult<SchemaIntrospection>)
    ensures
        schema_result(r) == schema_outcome(*mapper, schema_name@, rows_of(entities), rows_of(enums)),
{
    let enum_rows = match enums {
        Ok(rows) => rows,
        Err(e) => { return Err(e); },
    };
    let list = match entities {
        Ok(list) => list,
        Err(e) => { return Err(e); },
    };
    let ghost all = list@;
    let ghost schema = schema_name@;
    let ghost start = schema_start(schema, enum_rows@);
    let mut metadata = SchemaMetadata::named(String::from_str(schema_name));
    metadata.enums = group_enums(schema_name, enum_rows);
    let mut skipped: Vec<SkippedEntity> = Vec::new();
    let mut state = SchemaIntrospection { metadata, skipped };
    assert(skipped_models(state.skipped@) =~= Seq::<SkippedModel>::empty());
    assert(state@ == start);
    for entity in it: list
        invariant
            it.seq() == all,
            schema == schema_name@,
            state@ == entities_absorbed(*mapper, schema, start, all, it.index() as nat),
    {
        let ghost i = it.index() as int;
        let ghost before = state@;
        let ghost skipped_before = state.skipped@;
        let ghost tables_before = state.metadata.tables@;
        let ghost views_before = state.metadata.views@;
        match entity {
            EntityRows::Table { name, columns, foreign_keys } => {
                match assemble_table(mapper, schema_name, name.as_str(), columns, foreign_keys) {
                    Ok(table) => {
                        state.metadata.tables.insert(name, table);
                        assert(table_models(state.metadata.tables@) =~= table_models(
                            tables_before,
                        ).insert(name@, table@));
                    },
                    Err(error) => {
                        let skip = SkippedEntity {
                            schema: String::from_str(schema_name),
                            entity: Some(name),
                            error,
                        };
                        state.skipped.push(skip);
                        assert(skipped_models(state.skipped@) =~= skipped_models(
                            skipped_before,
                        ).push(skip@));
                    },
                }
            },
            EntityRows::View { name, columns, definition } => {
                match assemble_view(mapper, schema_name, name.as_str(), columns, definition) {
                    Ok(view) => {
                        state.metadata.views.insert(name, view);
                        assert(view_models(state.metadata.views@) =~= view_models(
                            views_before,
                        ).insert(name@, view@));
                    },
                    Err(error) => {
                        let skip = SkippedEntity {
                            schema: String::from_str(schema_name),
                            entity: Some(name),
                            error,
                        };
                        state.skipped.push(skip);
                        assert(skipped_models(state.skipped@) =~= skipped_models(
                            skipped_before,
                        ).push(skip@));
                    },
                }
            },
        }
        assert(state@ == entity_absorbed(*mapper, schema, before, entity));
    }
    Ok(state)
}

/// The snapshot after one more schema: a schema that was assembled is stored
/// under its name and what it skipped is added to the list; a schema that
/// failed is noted as skipped and the snapshot stays as it was.
pub open spec fn schema_absorbed<M: TypeMapper>(
    mapper: M,
    state: IntrospectionOutcome,
    rows: SchemaRows,
) -> IntrospectionOutcome {
    match schema_outcome(mapper, rows.name@, rows_of(rows.entities), rows_of(rows.enums)) {
        Ok(schema) => IntrospectionOutcome {
            metadata: DatabaseModel {
                schemas: state.metadata.schemas.insert(rows.name@, schema.metadata),
            },
            skipped: state.skipped + schema.skipped,
        },
        Err(error) => IntrospectionOutcome {
            metadata: state.metadata,
            skipped: state.skipped.push(SkippedModel { schema: rows.name@, entity: None, error }),
        },
    }
}

/// The snapshot after the first `n` schemas, taken in order.
pub open spec fn schemas_absorbed<M: TypeMapper>(mapper: M, schemas: Seq<SchemaRows>, n: nat) -> IntrospectionOutcome
    decreases n,
{
    if n == 0 {
        IntrospectionOutcome { metadata: DatabaseModel::empty(), skipped: Seq::empty() }
    } else {
        schema_absorbed(mapper, schemas_absorbed(mapper, schemas, (n - 1) as nat), schemas[n - 1])
    }
}

/// What becomes of a run over the given schemas: every schema is taken in
/// turn, and none of them ends the run.
pub open spec fn database_outcome<M: TypeMapper>(mapper: M, schemas: Seq<SchemaRows>) -> IntrospectionOutcome {
    schemas_absorbed(mapper, schemas, schemas.len())
}

/// Assembles the snapshot from what the queries for each schema returned.
pub fn assemble_database<M: TypeMapper>(mapper: &M, schemas: Vec<SchemaRows>) -> (r: Introspection)
    ensures
        r@ == database_outcome(*mapper, schemas@),
{
    let ghost all = schemas@;
    let mut state = Introspection { metadata: DatabaseMetadata::default(), skipped: Vec::new() };
    assert(skipped_models(state.skipped@) =~= Seq::<SkippedModel>::empty());
    for rows in it: schemas
        invariant
            it.seq() == all,
            state@ == schemas_absorbed(*mapper, all, it.index() as nat),
    {
        let ghost before = state@;
        let ghost skipped_before = state.skipped@;
        let ghost schemas_before = state.metadata.schemas@;
        let SchemaRows { name, entities, enums } = rows;
        match assemble_schema(mapper, name.as_str(), entities, enums) {
            Ok(schema) => {
                let SchemaIntrospection { metadata, skipped } = schema;
                let mut more = skipped;
                let ghost added = more@;
                state.metadata.schemas.insert(name, metadata);
                state.skipped.append(&mut more);
                assert(schema_models(state.metadata.schemas@) =~= schema_models(
                    schemas_before,
                ).insert(name@, metadata@));
                assert(skipped_models(state.skipped@) =~= skipped_models(skipped_before)
                    + skipped_models(added));
            },
            Err(error) => {
                let skip = SkippedEntity { schema: name, entity: None, error };
                state.skipped.push(skip);
                assert(skipped_models(state.skipped@) =~= skipped_models(skipped_before).push(
                    skip@,
                ));
            },
        }
        assert(state@ == schema_absorbed(*mapper, before, rows));
    }
    state
}

/// The columns of an assembled table stand in the order of the catalog: the
/// table has one column for each row, and the column at ordinal position
/// `i + 1` is the one that row `i` describes. The positions therefore start
/// at 1 and rise without gap.
pub proof fn lemma_table_columns_in_catalog_order<M: TypeMapper>(
    mapper: M,
    schema: Seq<char>,
    name: Seq<char>,
    rows: Seq<ColumnIntrospectionRow>,
    key_rows: Seq<ForeignKeyIntrospectionRow>,
)
    requires
        rows.len() > 0,
    ensures
        table_outcome(mapper, schema, name, Ok(rows), Ok(key_rows)) matches Ok(table)
            && table.columns.len() == rows.len() && forall|i: int|
            0 <= i < rows.len() ==> #[trigger] table.columns[i] == table_column(
                mapper,
                rows[i],
                foreign_keys_by_column(key_rows),
            ),
{
}

/// The columns of an assembled view stand in the order of the catalog, as
/// those of a table do.
pub proof fn lemma_view_columns_in_catalog_order<M: TypeMapper>(
    mapper: M,
    schema: Seq<char>,
    name: Seq<char>,
    rows: Seq<ColumnIntrospectionRow>,
    definition: Option<Seq<char>>,
)
    requires
        rows.len() > 0,
    ensures
        view_outcome(mapper, schema, name, Ok(rows), Ok(definition)) matches Ok(view)
            && view.columns.len() == rows.len() && forall|i: int|
            0 <= i < rows.len() ==> #[trigger] view.columns[i] == view_column(mapper, rows[i]),
{
}

/// A table or view is assembled exactly when its column query returned rows:
/// with no row the outcome is the error that reports it as not found, never
/// an entity without columns.
pub proof fn lemma_no_columns_is_not_found<M: TypeMapper>(
    mapper: M,
    schema: Seq<char>,
    name: Seq<char>,
    rows: Seq<ColumnIntrospectionRow>,
    key_rows: Seq<ForeignKeyIntrospectionRow>,
    definition: Option<Seq<char>>,
)
    ensures
        table_outcome(mapper, schema, name, Ok(rows), Ok(key_rows)) is Ok <==> rows.len() > 0,
        view_outcome(mapper, schema, name, Ok(rows), Ok(definition)) is Ok <==> rows.len() > 0,
        rows.len() == 0 ==> table_outcome(mapper, schema, name, Ok(rows), Ok(key_rows)) == Err::<
            TableModel,
            DbErrorModel,
        >(not_found("Table"@, schema, name)),
        rows.len() == 0 ==> view_outcome(mapper, schema, name, Ok(rows), Ok(definition)) == Err::<
            ViewModel,
            DbErrorModel,
        >(not_found("View"@, schema, name)),
        table_outcome(mapper, schema, name, Ok(rows), Ok(key_rows)) matches Ok(table)
            ==> table.columns.len() > 0,
        view_outcome(mapper, schema, name, Ok(rows), Ok(definition)) matches Ok(view)
            ==> view.columns.len() > 0,
{
}

/// The values of an enumeration keep the order of the rows: where every row
/// gives a value of the same enumeration, the values are those of the rows,
/// one for one.
pub proof fn lemma_enum_values_in_row_order(
    schema: Seq<char>,
    rows: Seq<EnumIntrospectionRow>,
    name: Seq<char>,
)
    requires
        rows.len() > 0,
        forall|i: int| 0 <= i < rows.len() ==> (#[trigger] rows[i]).enum_name@ == name,
    ensures
        enums_of(schema, rows).dom() == set![name],
        enums_of(schema, rows)[name].values == rows.map_values(value_of()),
    decreases rows.len(),
{
    let head = rows.drop_last();
    let last = rows.last();
    assert(rows =~= head.push(last));
    lemma_enums_of_push(schema, head, last);
    if head.len() == 0 {
        assert(!names_enum(head, name));
        assert(enums_of(schema, head) =~= Map::<Seq<char>, EnumModel>::empty());
        assert(enums_of(schema, rows).dom() =~= set![name]);
        assert(rows.map_values(value_of()) =~= Seq::<Seq<char>>::empty().push(last.enum_value@));
    } else {
        lemma_enum_values_in_row_order(schema, head, name);
        assert(names_enum(head, name)) by {
            assert(head[0].enum_name@ == name);
        }
        assert(enums_of(schema, rows).dom() =~= set![name]);
        assert(rows.map_values(value_of()) =~= head.map_values(value_of()).push(last.enum_value@));
    }
}

/// The view of a list of schema names or the error in its place.
pub open spec fn names_result(r: DbResult<Vec<String>>) -> Result<Seq<Seq<char>>, DbErrorModel> {
    match r {
        Ok(names) => Ok(texts(names@)),
        Err(e) => Err(e@),
    }
}

/// The view of a map of enumerations or the error in its place.
pub open spec fn enums_result(r: DbResult<NameMap<EnumMetadata>>) -> Result<
    Map<Seq<char>, EnumModel>,
    DbErrorModel,
> {
    match r {
        Ok(m) => Ok(enum_models(m@)),
        Err(e) => Err(e@),
    }
}

/// What one dialect can do with what its catalog queries returned.
///
/// Every dialect assembles in the same way; what differs is the type mapper
/// and which schemas belong to the engine itself.
pub trait Introspector: Send + Sync {
    type Mapper: TypeMapper;

    /// The type mapper of the dialect.
    spec fn type_mapper(&self) -> Self::Mapper;

    /// Whether a schema of this name belongs to the engine itself.
    spec fn is_system_schema(&self, name: Seq<char>) -> bool;

    /// Takes the engine's own schemas out of the list of all schemas and keeps
    /// the others in their order. A failed query is handed on.
    fn list_user_schemas(&self, all_schemas: DbResult<Vec<String>>) -> (r: DbResult<Vec<String>>)
        ensures
            names_result(r) == match names_result(all_schemas) {
                Ok(names) => Ok(names.filter(|name: Seq<char>| !self.is_system_schema(name))),
                Err(e) => Err(e),
            },
    ;

    /// Assembles the snapshot of the given schemas. No schema ends the run:
    /// one that fails is listed as skipped.
    fn introspect(&self, schemas: Vec<SchemaRows>) -> (r: DbResult<Introspection>)
        ensures
            r matches Ok(done) && done@ == database_outcome(self.type_mapper(), schemas@),
    ;

    /// Assembles one schema.
    fn introspect_schema(
        &self,
        schema_name: &str,
        entities: DbResult<Vec<EntityRows>>,
        enums: DbResult<Vec<EnumIntrospectionRow>>,
    ) -> (r: DbResult<SchemaIntrospection>)
        ensures
            schema_result(r) == schema_outcome(
                self.type_mapper(),
                schema_name@,
                rows_of(entities),
                rows_of(enums),
            ),
    ;

    /// Assembles one table.
    fn introspect_table(
        &self,
        schema_name: &str,
        table_name: &str,
        columns: DbResult<Vec<ColumnIntrospectionRow>>,
        foreign_keys: DbResult<Vec<ForeignKeyIntrospectionRow>>,
    ) -> (r: DbResult<TableMetadata>)
        ensures
            table_result(r) == table_outcome(
                self.type_mapper(),
                schema_name@,
                table_name@,
                rows_of(columns),
                rows_of(foreign_keys),
            ),
            r matches Ok(t) ==> t@.well_formed(),
    ;

    /// Assembles one view.
    fn introspect_view(
        &self,
        schema_name: &str,
        view_name: &str,
        columns: DbResult<Vec<ColumnIntrospectionRow>>,
        definition: DbResult<Option<String>>,
    ) -> (r: DbResult<ViewMetadata>)
        ensures
            view_result(r) == view_outcome(
                self.type_mapper(),
                schema_name@,
                view_name@,
                rows_of(columns),
                text_of(definition),
            ),
            r matches Ok(v) ==> v@.well_formed(),
    ;

    /// Groups the enumeration rows of one schema. A failed query is handed on.
    fn introspect_enums_for_schema(
        &self,
        schema_name: &str,
        rows: DbResult<Vec<EnumIntrospectionRow>>,
    ) -> (r: DbResult<NameMap<EnumMetadata>>)
        ensures
            enums_result(r) == match rows_of(rows) {
                Ok(list) => Ok(enums_of(schema_name@, list)),
                Err(e) => Err(e),
            },
    ;
}

/// The words with which a dialect without introspector is refused.
pub open spec fn unsupported_detail() -> Seq<char> {
    "This database type is not yet supported for introspection."@
}

/// Selects the introspector for the engine that the configuration names.
///
/// There is one for PostgreSQL. Every other engine is refused at once with
/// `UnsupportedDbType`; nothing is handed out that works only in part.
pub fn new_introspector(config: &DbConfig) -> (r: DbResult<PostgresIntrospector>)
    ensures
        match config.db_type {
            DatabaseType::Postgres => r is Ok,
            _ => r matches Err(e) && e@ == DbErrorModel::UnsupportedDbType(unsupported_detail()),
        },
{
    match config.db_type {
        DatabaseType::Postgres => Ok(PostgresIntrospector::new()),
        _ => Err(
            DbError::UnsupportedDbType(
                String::from_str("This database type is not yet supported for introspection."),
            ),
        ),
    }
}

} // verus!
