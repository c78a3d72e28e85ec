//! The metadata tree: what a database looks like, independent of the engine
//! that was asked.
//!
//! Each type has a model, a mathematical value in which text is a sequence of
//! characters, a list is a sequence and a collection keyed by name is a map.
//! The contracts of the library speak of the models.

use crate::name_map::NameMap;
use crate::text::{decimal, decimal_string, joined, opt_text, signed_decimal, signed_decimal_string, texts, join};
use vstd::prelude::*;
use vstd::string::*;

verus! {

/// The normalized type of a column or parameter.
///
/// The set is closed but for `Unsupported`, which keeps the descriptor of a
/// type that the mapper does not know.
#[derive(Debug, PartialEq, Eq, Hash)]
pub enum AxionDataType {
    Text,
    Integer(i32),
    Float(i32),
    Numeric,
    Boolean,
    Timestamp,
    TimestampTz,
    Date,
    Time,
    Bytes,
    Uuid,
    Json,
    JsonB,
    Inet,
    Enum(String),
    Array(Box<AxionDataType>),
    Unsupported(String),
}

/// A normalized type as a mathematical value.
pub enum AxionTypeModel {
    Text,
    Integer(i32),
    Float(i32),
    Numeric,
    Boolean,
    Timestamp,
    TimestampTz,
    Date,
    Time,
    Bytes,
    Uuid,
    Json,
    JsonB,
    Inet,
    Enum(Seq<char>),
    Array(Box<AxionTypeModel>),
    Unsupported(Seq<char>),
}

impl AxionTypeModel {
    /// The number of array levels around the innermost type.
    pub open spec fn array_depth(self) -> nat
        decreases self,
    {
        match self {
            AxionTypeModel::Array(inner) => 1 + inner.array_depth(),
            _ => 0,
        }
    }

    /// The compact name of the type: `INT32`, `UUID[]`, `UNSUPPORTED(xml)`;
    /// an enumeration is written as its own name.
    pub open spec fn compact(self) -> Seq<char>
        decreases self,
    {
        match self {
            AxionTypeModel::Text => "TEXT"@,
            AxionTypeModel::Integer(bits) => "INT"@ + signed_decimal(bits as int),
            AxionTypeModel::Float(bits) => "FLOAT"@ + signed_decimal(bits as int),
            AxionTypeModel::Numeric => "NUMERIC"@,
            AxionTypeModel::Boolean => "BOOL"@,
            AxionTypeModel::Timestamp => "TIMESTAMP"@,
            AxionTypeModel::TimestampTz => "TIMESTAMPTZ"@,
            AxionTypeModel::Date => "DATE"@,
            AxionTypeModel::Time => "TIME"@,
            AxionTypeModel::Bytes => "BYTES"@,
            AxionTypeModel::Uuid => "UUID"@,
            AxionTypeModel::Json => "JSON"@,
            AxionTypeModel::JsonB => "JSONB"@,
            AxionTypeModel::Inet => "INET"@,
            AxionTypeModel::Enum(name) => name,
            AxionTypeModel::Array(inner) => inner.compact() + "[]"@,
            AxionTypeModel::Unsupported(name) => "UNSUPPORTED("@ + name + ")"@,
        }
    }
}

impl View for AxionDataType {
    type V = AxionTypeModel;

    open spec fn view(&self) -> AxionTypeModel
        decreases self,
    {
        match self {
            AxionDataType::Text => AxionTypeModel::Text,
            AxionDataType::Integer(bits) => AxionTypeModel::Integer(*bits),
            AxionDataType::Float(bits) => AxionTypeModel::Float(*bits),
            AxionDataType::Numeric => AxionTypeModel::Numeric,
            AxionDataType::Boolean => AxionTypeModel::Boolean,
            AxionDataType::Timestamp => AxionTypeModel::Timestamp,
            AxionDataType::TimestampTz => AxionTypeModel::TimestampTz,
            AxionDataType::Date => AxionTypeModel::Date,
            AxionDataType::Time => AxionTypeModel::Time,
            AxionDataType::Bytes => AxionTypeModel::Bytes,
            AxionDataType::Uuid => AxionTypeModel::Uuid,
            AxionDataType::Json => AxionTypeModel::Json,
            AxionDataType::JsonB => AxionTypeModel::JsonB,
            AxionDataType::Inet => AxionTypeModel::Inet,
            AxionDataType::Enum(name) => AxionTypeModel::Enum(name@),
            AxionDataType::Array(inner) => AxionTypeModel::Array(Box::new((**inner).view())),
            AxionDataType::Unsupported(name) => AxionTypeModel::Unsupported(name@),
        }
    }
}

impl Clone for AxionDataType {
    fn clone(&self) -> (r: Self)
        ensures
            r@ == self@,
        decreases self,
    {
        match self {
            AxionDataType::Text => AxionDataType::Text,
            AxionDataType::Integer(bits) => AxionDataType::Integer(*bits),
            AxionDataType::Float(bits) => AxionDataType::Float(*bits),
            AxionDataType::Numeric => AxionDataType::Numeric,
            AxionDataType::Boolean => AxionDataType::Boolean,
            AxionDataType::Timestamp => AxionDataType::Timestamp,
            AxionDataType::TimestampTz => AxionDataType::TimestampTz,
            AxionDataType::Date => AxionDataType::Date,
            AxionDataType::Time => AxionDataType::Time,
            AxionDataType::Bytes => AxionDataType::Bytes,
            AxionDataType::Uuid => AxionDataType::Uuid,
            AxionDataType::Json => AxionDataType::Json,
            AxionDataType::JsonB => AxionDataType::JsonB,
            AxionDataType::Inet => AxionDataType::Inet,
            AxionDataType::Enum(name) => AxionDataType::Enum(name.clone()),
            AxionDataType::Array(inner) => AxionDataType::Array(Box::new((&**inner).clone())),
            AxionDataType::Unsupported(name) => AxionDataType::Unsupported(name.clone()),
        }
    }
}

impl AxionDataType {
    /// Writes the compact name of the type.
    pub fn to_string(&self) -> (s: String)
        ensures
            s@ == self@.compact(),
        decreases self,
    {
        match self {
            AxionDataType::Text => String::from_str("TEXT"),
            AxionDataType::Integer(bits) => {
                let mut s = String::from_str("INT");
                let digits = signed_decimal_string(*bits as i64);
                s.append(digits.as_str());
                s
            },
            AxionDataType::Float(bits) => {
                let mut s = String::from_str("FLOAT");
                let digits = signed_decimal_string(*bits as i64);
                s.append(digits.as_str());
                s
            },
            AxionDataType::Numeric => String::from_str("NUMERIC"),
            AxionDataType::Boolean => String::from_str("BOOL"),
            AxionDataType::Timestamp => String::from_str("TIMESTAMP"),
            AxionDataType::TimestampTz => String::from_str("TIMESTAMPTZ"),
            AxionDataType::Date => String::from_str("DATE"),
            AxionDataType::Time => String::from_str("TIME"),
            AxionDataType::Bytes => String::from_str("BYTES"),
            AxionDataType::Uuid => String::from_str("UUID"),
            AxionDataType::Json => String::from_str("JSON"),
            AxionDataType::JsonB => String::from_str("JSONB"),
            AxionDataType::Inet => String::from_str("INET"),
            AxionDataType::Enum(name) => name.clone(),
            AxionDataType::Array(inner) => {
                let mut s = (&**inner).to_string();
                s.append("[]");
                s
            },
            AxionDataType::Unsupported(name) => {
                let mut s = String::from_str("UNSUPPORTED(");
                s.append(name.as_str());
                s.append(")");
                s
            },
        }
    }
}

/// The column that a foreign key points at. The target is recorded as the
/// catalog gives it and is not held against the schemas that were read.
#[derive(Debug, PartialEq, Eq, Hash)]
pub struct ForeignKeyReference {
    pub schema: String,
    pub table: String,
    pub column: String,
}

/// A foreign-key target as a mathematical value.
pub struct ForeignKeyModel {
    pub schema: Seq<char>,
    pub table: Seq<char>,
    pub column: Seq<char>,
}

impl ForeignKeyModel {
    /// The target written as `schema.table.column`.
    pub open spec fn dotted(self) -> Seq<char> {
        self.schema + "."@ + self.table + "."@ + self.column
    }
}

impl View for ForeignKeyReference {
    type V = ForeignKeyModel;

    open spec fn view(&self) -> ForeignKeyModel {
        ForeignKeyModel { schema: self.schema@, table: self.table@, column: self.column@ }
    }
}

impl Clone for ForeignKeyReference {
    fn clone(&self) -> (r: Self)
        ensures
            r@ == self@,
    {
        ForeignKeyReference {
            schema: self.schema.clone(),
            table: self.table.clone(),
            column: self.column.clone(),
        }
    }
}

impl ForeignKeyReference {
    /// Writes the target as `schema.table.column`.
    pub fn to_string(&self) -> (s: String)
        ensures
            s@ == self@.dotted(),
    {
        let mut s = self.schema.clone();
        s.append(".");
        s.append(self.table.as_str());
        s.append(".");
        s.append(self.column.as_str());
        s
    }
}

/// The view of an optional foreign-key target.
pub open spec fn opt_foreign_key(o: Option<ForeignKeyReference>) -> Option<ForeignKeyModel> {
    match o {
        Some(fk) => Some(fk@),
        None => None,
    }
}

/// One column of a table or view.
#[derive(Debug, PartialEq, Eq)]
pub struct ColumnMetadata {
    pub name: String,
    pub sql_type_name: String,
    pub axion_type: AxionDataType,
    pub is_nullable: bool,
    pub is_primary_key: bool,
    pub default_value: Option<String>,
    pub comment: Option<String>,
    pub foreign_key: Option<ForeignKeyReference>,
}

/// A column as a mathematical value.
pub struct ColumnModel {
    pub name: Seq<char>,
    pub sql_type_name: Seq<char>,
    pub axion_type: AxionTypeModel,
    pub is_nullable: bool,
    pub is_primary_key: bool,
    pub default_value: Option<Seq<char>>,
    pub comment: Option<Seq<char>>,
    pub foreign_key: Option<ForeignKeyModel>,
}

impl View for ColumnMetadata {
    type V = ColumnModel;

    open spec fn view(&self) -> ColumnModel {
        ColumnModel {
            name: self.name@,
            sql_type_name: self.sql_type_name@,
            axion_type: self.axion_type@,
            is_nullable: self.is_nullable,
            is_primary_key: self.is_primary_key,
            default_value: opt_text(self.default_value),
            comment: opt_text(self.comment),
            foreign_key: opt_foreign_key(self.foreign_key),
        }
    }
}

impl Clone for ColumnMetadata {
    fn clone(&self) -> (r: Self)
        ensures
            r@ == self@,
    {
        ColumnMetadata {
            name: self.name.clone(),
            sql_type_name: self.sql_type_name.clone(),
            axion_type: self.axion_type.clone(),
            is_nullable: self.is_nullable,
            is_primary_key: self.is_primary_key,
            default_value: match &self.default_value {
                Some(s) => Some(s.clone()),
                None => None,
            },
            comment: match &self.comment {
                Some(s) => Some(s.clone()),
                None => None,
            },
            foreign_key: match &self.foreign_key {
                Some(fk) => Some(fk.clone()),
                None => None,
            },
        }
    }
}

/// The models of a list of columns, in order.
pub open spec fn column_models(columns: Seq<ColumnMetadata>) -> Seq<ColumnModel> {
    columns.map_values(|c: ColumnMetadata| c@)
}

/// The names of the columns that are marked as primary key, in column order.
pub open spec fn primary_key_names(columns: Seq<ColumnModel>) -> Seq<Seq<char>> {
    columns.filter(|c: ColumnModel| c.is_primary_key).map_values(|c: ColumnModel| c.name)
}

/// A table with its columns in catalog order.
#[derive(Debug, Clone)]
pub struct TableMetadata {
    pub name: String,
    pub schema: String,
    pub columns: Vec<ColumnMetadata>,
    pub primary_key_columns: Vec<String>,
    pub comment: Option<String>,
}

/// A table as a mathematical value. The column at index `i` is the one at
/// ordinal position `i + 1`.
pub struct TableModel {
    pub name: Seq<char>,
    pub schema: Seq<char>,
    pub columns: Seq<ColumnModel>,
    pub primary_key_columns: Seq<Seq<char>>,
    pub comment: Option<Seq<char>>,
}

impl TableModel {
    /// A table without a name, columns or comment.
    pub open spec fn empty() -> TableModel {
        TableModel {
            name: Seq::empty(),
            schema: Seq::empty(),
            columns: Seq::empty(),
            primary_key_columns: Seq::empty(),
            comment: None,
        }
    }

    /// The primary-key names are those of the columns marked so, in column
    /// order; each of them is therefore the name of a column.
    pub open spec fn well_formed(self) -> bool {
        self.primary_key_columns == primary_key_names(self.columns)
    }
}

impl View for TableMetadata {
    type V = TableModel;

    open spec fn view(&self) -> TableModel {
        TableModel {
            name: self.name@,
            schema: self.schema@,
            columns: column_models(self.columns@),
            primary_key_columns: texts(self.primary_key_columns@),
            comment: opt_text(self.comment),
        }
    }
}

impl Default for TableMetadata {
    fn default() -> (r: Self)
        ensures
            r@ == TableModel::empty(),
    {
        let r = TableMetadata {
            name: String::new(),
            schema: String::new(),
            columns: Vec::new(),
            primary_key_columns: Vec::new(),
            comment: None,
        };
        assert(column_models(r.columns@) =~= Seq::<ColumnModel>::empty());
        assert(texts(r.primary_key_columns@) =~= Seq::<Seq<char>>::empty());
        r
    }
}

/// A view with its columns in catalog order. A view's columns carry neither
/// primary-key marks nor foreign keys.
#[derive(Debug, Clone)]
pub struct ViewMetadata {
    pub name: String,
    pub schema: String,
    pub columns: Vec<ColumnMetadata>,
    pub definition: Option<String>,
    pub comment: Option<String>,
}

/// A view as a mathematical value. The column at index `i` is the one at
/// ordinal position `i + 1`.
pub struct ViewModel {
    pub name: Seq<char>,
    pub schema: Seq<char>,
    pub columns: Seq<ColumnModel>,
    pub definition: Option<Seq<char>>,
    pub comment: Option<Seq<char>>,
}

impl ViewModel {
    /// A view without a name, columns, definition or comment.
    pub open spec fn empty() -> ViewModel {
        ViewModel {
            name: Seq::empty(),
            schema: Seq::empty(),
            columns: Seq::empty(),
            definition: None,
            comment: None,
        }
    }

    /// No column is a primary key or carries a foreign key.
    pub open spec fn well_formed(self) -> bool {
        forall|i: int|
            0 <= i < self.columns.len() ==> !(#[trigger] self.columns[i]).is_primary_key
                && self.columns[i].foreign_key is None
    }
}

impl View for ViewMetadata {
    type V = ViewModel;

    open spec fn view(&self) -> ViewModel {
        ViewModel {
            name: self.name@,
            schema: self.schema@,
            columns: column_models(self.columns@),
            definition: opt_text(self.definition),
            comment: opt_text(self.comment),
        }
    }
}

impl Default for ViewMetadata {
    fn default() -> (r: Self)
        ensures
            r@ == ViewModel::empty(),
    {
        let r = ViewMetadata {
            name: String::new(),
            schema: String::new(),
            columns: Vec::new(),
            definition: None,
            comment: None,
        };
        assert(column_models(r.columns@) =~= Seq::<ColumnModel>::empty());
        r
    }
}

/// An enumeration with its values in the order that the catalog declares.
#[derive(Debug, Clone)]
pub struct EnumMetadata {
    pub name: String,
    pub schema: String,
    pub values: Vec<String>,
    pub comment: Option<String>,
}

/// An enumeration as a mathematical value.
pub struct EnumModel {
    pub name: Seq<char>,
    pub schema: Seq<char>,
    pub values: Seq<Seq<char>>,
    pub comment: Option<Seq<char>>,
}

impl EnumModel {
    /// An enumeration without a name, values or comment.
    pub open spec fn empty() -> EnumModel {
        EnumModel { name: Seq::empty(), schema: Seq::empty(), values: Seq::empty(), comment: None }
    }

    /// The enumeration written as `schema.name (first, second, ...)`.
    pub open spec fn summary(self) -> Seq<char> {
        self.schema + "."@ + self.name + " ("@ + joined(self.values, ", "@) + ")"@
    }
}

impl View for EnumMetadata {
    type V = EnumModel;

    open spec fn view(&self) -> EnumModel {
        EnumModel {
            name: self.name@,
            schema: self.schema@,
            values: texts(self.values@),
            comment: opt_text(self.comment),
        }
    }
}

impl Default for EnumMetadata {
    fn default() -> (r: Self)
        ensures
            r@ == EnumModel::empty(),
    {
        let r = EnumMetadata {
            name: String::new(),
            schema: String::new(),
            values: Vec::new(),
            comment: None,
        };
        assert(texts(r.values@) =~= Seq::<Seq<char>>::empty());
        r
    }
}

impl EnumMetadata {
    /// Writes the enumeration as `schema.name (first, second, ...)`.
    pub fn to_string(&self) -> (s: String)
        ensures
            s@ == self@.summary(),
    {
        let mut s = self.schema.clone();
        s.append(".");
        s.append(self.name.as_str());
        s.append(" (");
        let values = join(&self.values, ", ");
        s.append(values.as_str());
        s.append(")");
        s
    }
}

/// What kind of routine a function entry is.
#[derive(Debug, Clone, Copy, PartialEq, Eq, Hash, Structural)]
pub enum RoutineKind {
    Function,
    Procedure,
    Aggregate,
    Window,
    Trigger,
}

/// How a parameter is passed.
#[derive(Debug, Clone, Copy, PartialEq, Eq, Hash, Structural)]
pub enum ParameterMode {
    In,
    Out,
    InOut,
    Variadic,
}

/// One parameter of a routine.
#[derive(Debug, Clone, PartialEq, Eq)]
pub struct ParameterMetadata {
    pub name: String,
    pub sql_type_name: String,
    pub axion_type: AxionDataType,
    pub mode: ParameterMode,
    pub has_default: bool,
}

/// A parameter as a mathematical value.
pub struct ParameterModel {
    pub name: Seq<char>,
    pub sql_type_name: Seq<char>,
    pub axion_type: AxionTypeModel,
    pub mode: ParameterMode,
    pub has_default: bool,
}

impl View for ParameterMetadata {
    type V = ParameterModel;

    open spec fn view(&self) -> ParameterModel {
        ParameterModel {
            name: self.name@,
            sql_type_name: self.sql_type_name@,
            axion_type: self.axion_type@,
            mode: self.mode,
            has_default: self.has_default,
        }
    }
}

/// A routine: its kind, its parameters, and what it returns.
#[derive(Debug, Clone)]
pub struct FunctionMetadata {
    pub name: String,
    pub schema: String,
    pub kind: Option<RoutineKind>,
    pub parameters: Vec<ParameterMetadata>,
    pub return_type: Option<AxionDataType>,
    pub return_table: Option<Vec<ColumnMetadata>>,
    pub comment: Option<String>,
}

/// A routine as a mathematical value.
pub struct FunctionModel {
    pub name: Seq<char>,
    pub schema: Seq<char>,
    pub kind: Option<RoutineKind>,
    pub parameters: Seq<ParameterModel>,
    pub return_type: Option<AxionTypeModel>,
    pub return_table: Option<Seq<ColumnModel>>,
    pub comment: Option<Seq<char>>,
}

impl FunctionModel {
    /// A routine without a name, kind, parameters or result.
    pub open spec fn empty() -> FunctionModel {
        FunctionModel {
            name: Seq::empty(),
            schema: Seq::empty(),
            kind: None,
            parameters: Seq::empty(),
            return_type: None,
            return_table: None,
            comment: None,
        }
    }
}

impl View for FunctionMetadata {
    type V = FunctionModel;

    open spec fn view(&self) -> FunctionModel {
        FunctionModel {
            name: self.name@,
            schema: self.schema@,
            kind: self.kind,
            parameters: self.parameters@.map_values(|p: ParameterMetadata| p@),
            return_type: match self.return_type {
                Some(t) => Some(t@),
                None => None,
            },
            return_table: match self.return_table {
                Some(columns) => Some(column_models(columns@)),
                None => None,
            },
            comment: opt_text(self.comment),
        }
    }
}

impl Default for FunctionMetadata {
    fn default() -> (r: Self)
        ensures
            r@ == FunctionModel::empty(),
    {
        let r = FunctionMetadata {
            name: String::new(),
            schema: String::new(),
            kind: None,
            parameters: Vec::new(),
            return_type: None,
            return_table: None,
            comment: None,
        };
        assert(r.parameters@.map_values(|p: ParameterMetadata| p@) =~= Seq::<
            ParameterModel,
        >::empty());
        r
    }
}

/// Everything that was read of one schema, each kind of entity keyed by name.
#[derive(Debug, Clone)]
pub struct SchemaMetadata {
    pub name: String,
    pub tables: NameMap<TableMetadata>,
    pub views: NameMap<ViewMetadata>,
    pub enums: NameMap<EnumMetadata>,
    pub functions: NameMap<FunctionMetadata>,
}

/// A schema as a mathematical value.
pub struct SchemaModel {
    pub name: Seq<char>,
    pub tables: Map<Seq<char>, TableModel>,
    pub views: Map<Seq<char>, ViewModel>,
    pub enums: Map<Seq<char>, EnumModel>,
    pub functions: Map<Seq<char>, FunctionModel>,
}

impl SchemaModel {
    /// A schema of the given name that holds nothing.
    pub open spec fn named(name: Seq<char>) -> SchemaModel {
        SchemaModel {
            name,
            tables: Map::empty(),
            views: Map::empty(),
            enums: Map::empty(),
            functions: Map::empty(),
        }
    }

    /// The schema written as `Schema 'name' [n tables, n views, n enums]`.
    pub open spec fn summary(self) -> Seq<char> {
        "Schema '"@ + self.name + "' ["@ + decimal(self.tables.len()) + " tables, "@ + decimal(
            self.views.len(),
        ) + " views, "@ + decimal(self.enums.len()) + " enums]"@
    }
}

/// The models of the tables of a name map.
pub open spec fn table_models(m: Map<Seq<char>, TableMetadata>) -> Map<Seq<char>, TableModel> {
    m.map_values(|t: TableMetadata| t@)
}

/// The models of the views of a name map.
pub open spec fn view_models(m: Map<Seq<char>, ViewMetadata>) -> Map<Seq<char>, ViewModel> {
    m.map_values(|v: ViewMetadata| v@)
}

/// The models of the enumerations of a name map.
pub open spec fn enum_models(m: Map<Seq<char>, EnumMetadata>) -> Map<Seq<char>, EnumModel> {
    m.map_values(|e: EnumMetadata| e@)
}

/// The models of the routines of a name map.
pub open spec fn function_models(m: Map<Seq<char>, FunctionMetadata>) -> Map<
    Seq<char>,
    FunctionModel,
> {
    m.map_values(|f: FunctionMetadata| f@)
}

impl View for SchemaMetadata {
    type V = SchemaModel;

    open spec fn view(&self) -> SchemaModel {
        SchemaModel {
            name: self.name@,
            tables: table_models(self.tables@),
            views: view_models(self.views@),
            enums: enum_models(self.enums@),
            functions: function_models(self.functions@),
        }
    }
}

impl Default for SchemaMetadata {
    fn default() -> (r: Self)
        ensures
            r@ == SchemaModel::named(Seq::empty()),
    {
        SchemaMetadata::named(String::new())
    }
}

impl SchemaMetadata {
    /// A schema of the given name that holds nothing yet.
    pub fn named(name: String) -> (r: Self)
        ensures
            r@ == SchemaModel::named(name@),
    {
        let r = SchemaMetadata {
            name,
            tables: NameMap::new(),
            views: NameMap::new(),
            enums: NameMap::new(),
            functions: NameMap::new(),
        };
        assert(table_models(r.tables@) =~= Map::<Seq<char>, TableModel>::empty());
        assert(view_models(r.views@) =~= Map::<Seq<char>, ViewModel>::empty());
        assert(enum_models(r.enums@) =~= Map::<Seq<char>, EnumModel>::empty());
        assert(function_models(r.functions@) =~= Map::<Seq<char>, FunctionModel>::empty());
        r
    }

    /// Writes the schema as `Schema 'name' [n tables, n views, n enums]`.
    pub fn to_string(&self) -> (s: String)
        ensures
            s@ == self@.summary(),
    {
        let tables = decimal_string(self.tables.len() as u64);
        let views = decimal_string(self.views.len() as u64);
        let enums = decimal_string(self.enums.len() as u64);
        proof {
            lemma_models_keep_size(self.tables@, |t: TableMetadata| t@);
            lemma_models_keep_size(self.views@, |v: ViewMetadata| v@);
            lemma_models_keep_size(self.enums@, |e: EnumMetadata| e@);
        }
        let mut s = String::from_str("Schema '");
        s.append(self.name.as_str());
        s.append("' [");
        s.append(tables.as_str());
        s.append(" tables, ");
        s.append(views.as_str());
        s.append(" views, ");
        s.append(enums.as_str());
        s.append(" enums]");
        s
    }
}

/// Mapping the values of a map changes neither its names nor their number.
pub proof fn lemma_models_keep_size<A, B>(m: Map<Seq<char>, A>, f: spec_fn(A) -> B)
    ensures
        m.map_values(f).dom() == m.dom(),
        m.map_values(f).len() == m.len(),
{
    assert(m.map_values(f).dom() =~= m.dom());
}

/// The whole snapshot: every schema that was read, keyed by name.
#[derive(Debug, Clone)]
pub struct DatabaseMetadata {
    pub schemas: NameMap<SchemaMetadata>,
}

/// A snapshot as a mathematical value.
pub struct DatabaseModel {
    pub schemas: Map<Seq<char>, SchemaModel>,
}

impl DatabaseModel {
    /// A snapshot without schemas.
    pub open spec fn empty() -> DatabaseModel {
        DatabaseModel { schemas: Map::empty() }
    }

    /// The snapshot written as `Database with n schemas`.
    pub open spec fn summary(self) -> Seq<char> {
        "Database with "@ + decimal(self.schemas.len()) + " schemas"@
    }
}

/// The models of the schemas of a name map.
pub open spec fn schema_models(m: Map<Seq<char>, SchemaMetadata>) -> Map<Seq<char>, SchemaModel> {
    m.map_values(|s: SchemaMetadata| s@)
}

impl View for DatabaseMetadata {
    type V = DatabaseModel;

    open spec fn view(&self) -> DatabaseModel {
        DatabaseModel { schemas: schema_models(self.schemas@) }
    }
}

impl Default for DatabaseMetadata {
    fn default() -> (r: Self)
        ensures
            r@ == DatabaseModel::empty(),
    {
        let r = DatabaseMetadata { schemas: NameMap::new() };
        assert(schema_models(r.schemas@) =~= Map::<Seq<char>, SchemaModel>::empty());
        r
    }
}

impl DatabaseMetadata {
    /// Writes the snapshot as `Database with n schemas`.
    pub fn to_string(&self) -> (s: String)
        ensures
            s@ == self@.summary(),
    {
        let count = decimal_string(self.schemas.len() as u64);
        proof {
            lemma_models_keep_size(self.schemas@, |s: SchemaMetadata| s@);
        }
        let mut s = String::from_str("Database with ");
        s.append(count.as_str());
        s.append(" schemas");
        s
    }
}

} // verus!
