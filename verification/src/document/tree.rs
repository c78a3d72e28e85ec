//! The parts of the metadata tree as documents.
//!
//! A record is written as an object with one field for each of its fields,
//! named as the field is. A normalized type without content, a routine kind
//! and a parameter mode are written as their word; a normalized type with
//! content is written as an object whose one field is named by the type's
//! word and holds the content.

use crate::document::{
    fields_model, lemma_field_at, list_model, map_model, named, optional_document,
    optional_model, read_field, read_member, read_optional_field, read_optional_member,
    write_optional, Document, DocumentModel, Documented,
};
use crate::metadata::{
    column_models, enum_models, function_models, opt_foreign_key, schema_models, table_models,
    view_models, AxionDataType, AxionTypeModel, ColumnMetadata, ColumnModel, DatabaseMetadata,
    DatabaseModel, EnumMetadata, EnumModel, ForeignKeyModel, ForeignKeyReference,
    FunctionMetadata, FunctionModel, ParameterMetadata, ParameterMode, ParameterModel,
    RoutineKind, SchemaMetadata, SchemaModel, TableMetadata, TableModel, ViewMetadata, ViewModel,
};
use crate::name_map::NameMap;
use crate::text::{opt_text, str_eq, texts};
use vstd::prelude::*;
use vstd::string::*;

verus! {

impl Documented for ForeignKeyReference {
    type Model = ForeignKeyModel;

    open spec fn model(&self) -> ForeignKeyModel {
        self@
    }

    open spec fn document(&self) -> DocumentModel {
        DocumentModel::Object(
            seq![
                ("schema"@, self.schema.document()),
                ("table"@, self.table.document()),
                ("column"@, self.column.document()),
            ],
        )
    }

    open spec fn read(d: DocumentModel) -> Option<ForeignKeyModel> {
        let schema = read_member::<String>(d, "schema"@);
        let table = read_member::<String>(d, "table"@);
        let column = read_member::<String>(d, "column"@);
        if schema is None || table is None || column is None {
            None
        } else {
            Some(ForeignKeyModel { schema: schema->0, table: table->0, column: column->0 })
        }
    }

    fn to_document(&self) -> (d: Document) {
        let mut fields: Vec<(String, Document)> = Vec::new();
        fields.push(named("schema", self.schema.to_document()));
        fields.push(named("table", self.table.to_document()));
        fields.push(named("column", self.column.to_document()));
        let d = Document::Object(fields);
        proof {
            let written = self.document()->Object_0;
            assert(fields_model(fields@) =~= written);
            reveal_strlit("schema");
            reveal_strlit("table");
            reveal_strlit("column");
            assert("schema"@[0] != "column"@[0]);
            lemma_field_at(written, "schema"@, 0);
            lemma_field_at(written, "table"@, 1);
            lemma_field_at(written, "column"@, 2);
        }
        d
    }

    fn from_document(d: &Document) -> (r: Option<Self>) {
        let schema = match read_field::<String>(d, "schema") {
            Some(v) => v,
            None => { return None; },
        };
        let table = match read_field::<String>(d, "table") {
            Some(v) => v,
            None => { return None; },
        };
        let column = match read_field::<String>(d, "column") {
            Some(v) => v,
            None => { return None; },
        };
        Some(ForeignKeyReference { schema, table, column })
    }
}

/// The type that a word names, for the types that are written as a word.
pub open spec fn type_named(word: Seq<char>) -> Option<AxionTypeModel> {
    if word == "Text"@ {
        Some(AxionTypeModel::Text)
    } else if word == "Numeric"@ {
        Some(AxionTypeModel::Numeric)
    } else if word == "Boolean"@ {
        Some(AxionTypeModel::Boolean)
    } else if word == "Timestamp"@ {
        Some(AxionTypeModel::Timestamp)
    } else if word == "TimestampTz"@ {
        Some(AxionTypeModel::TimestampTz)
    } else if word == "Date"@ {
        Some(AxionTypeModel::Date)
    } else if word == "Time"@ {
        Some(AxionTypeModel::Time)
    } else if word == "Bytes"@ {
        Some(AxionTypeModel::Bytes)
    } else if word == "Uuid"@ {
        Some(AxionTypeModel::Uuid)
    } else if word == "Json"@ {
        Some(AxionTypeModel::Json)
    } else if word == "JsonB"@ {
        Some(AxionTypeModel::JsonB)
    } else if word == "Inet"@ {
        Some(AxionTypeModel::Inet)
    } else {
        None
    }
}

/// An object with one field.
pub open spec fn tagged(tag: Seq<char>, value: DocumentModel) -> DocumentModel {
    DocumentModel::Object(seq![(tag, value)])
}

/// The document of a normalized type: a type without content is written as
/// its word, a type with content as an object whose one field is named by the
/// type's word and holds the content.
pub open spec fn type_document(t: AxionTypeModel) -> DocumentModel
    decreases t,
{
    match t {
        AxionTypeModel::Text => DocumentModel::Text("Text"@),
        AxionTypeModel::Integer(bits) => tagged("Integer"@, DocumentModel::Number(bits as i64)),
        AxionTypeModel::Float(bits) => tagged("Float"@, DocumentModel::Number(bits as i64)),
        AxionTypeModel::Numeric => DocumentModel::Text("Numeric"@),
        AxionTypeModel::Boolean => DocumentModel::Text("Boolean"@),
        AxionTypeModel::Timestamp => DocumentModel::Text("Timestamp"@),
        AxionTypeModel::TimestampTz => DocumentModel::Text("TimestampTz"@),
        AxionTypeModel::Date => DocumentModel::Text("Date"@),
        AxionTypeModel::Time => DocumentModel::Text("Time"@),
        AxionTypeModel::Bytes => DocumentModel::Text("Bytes"@),
        AxionTypeModel::Uuid => DocumentModel::Text("Uuid"@),
        AxionTypeModel::Json => DocumentModel::Text("Json"@),
        AxionTypeModel::JsonB => DocumentModel::Text("JsonB"@),
        AxionTypeModel::Inet => DocumentModel::Text("Inet"@),
        AxionTypeModel::Enum(name) => tagged("Enum"@, DocumentModel::Text(name)),
        AxionTypeModel::Array(inner) => tagged("Array"@, type_document(*inner)),
        AxionTypeModel::Unsupported(name) => tagged("Unsupported"@, DocumentModel::Text(name)),
    }
}

/// The normalized type that a document describes.
pub open spec fn read_type(d: DocumentModel) -> Option<AxionTypeModel>
    decreases d,
{
    match d {
        DocumentModel::Text(word) => type_named(word),
        DocumentModel::Object(fields) => if fields.len() != 1 {
            None
        } else {
            let tag = fields[0].0;
            let content = fields[0].1;
            if tag == "Integer"@ {
                match <i32 as Documented>::read(content) {
                    Some(bits) => Some(AxionTypeModel::Integer(bits)),
                    None => None,
                }
            } else if tag == "Float"@ {
                match <i32 as Documented>::read(content) {
                    Some(bits) => Some(AxionTypeModel::Float(bits)),
                    None => None,
                }
            } else if tag == "Enum"@ {
                match <String as Documented>::read(content) {
                    Some(name) => Some(AxionTypeModel::Enum(name)),
                    None => None,
                }
            } else if tag == "Array"@ {
                match read_type(content) {
                    Some(inner) => Some(AxionTypeModel::Array(Box::new(inner))),
                    None => None,
                }
            } else if tag == "Unsupported"@ {
                match <String as Documented>::read(content) {
                    Some(name) => Some(AxionTypeModel::Unsupported(name)),
                    None => None,
                }
            } else {
                None
            }
        },
        _ => None,
    }
}

/// Whether a text has the given length and begins with the given three characters.
pub open spec fn begins(s: Seq<char>, len: nat, first: char, second: char, third: char) -> bool {
    s.len() == len && s[0] == first && s[1] == second && s[2] == third
}

/// Each word names its own type: no two of the words are the same.
pub proof fn lemma_type_words()
    ensures
        type_named("Text"@) == Some(AxionTypeModel::Text),
        type_named("Numeric"@) == Some(AxionTypeModel::Numeric),
        type_named("Boolean"@) == Some(AxionTypeModel::Boolean),
        type_named("Timestamp"@) == Some(AxionTypeModel::Timestamp),
        type_named("TimestampTz"@) == Some(AxionTypeModel::TimestampTz),
        type_named("Date"@) == Some(AxionTypeModel::Date),
        type_named("Time"@) == Some(AxionTypeModel::Time),
        type_named("Bytes"@) == Some(AxionTypeModel::Bytes),
        type_named("Uuid"@) == Some(AxionTypeModel::Uuid),
        type_named("Json"@) == Some(AxionTypeModel::Json),
        type_named("JsonB"@) == Some(AxionTypeModel::JsonB),
        type_named("Inet"@) == Some(AxionTypeModel::Inet),
        "Integer"@ != "Float"@,
        "Integer"@ != "Enum"@,
        "Integer"@ != "Array"@,
        "Integer"@ != "Unsupported"@,
        "Float"@ != "Enum"@,
        "Float"@ != "Array"@,
        "Float"@ != "Unsupported"@,
        "Enum"@ != "Array"@,
        "Enum"@ != "Unsupported"@,
        "Array"@ != "Unsupported"@,
{
    assert(begins("Text"@, 4, 'T', 'e', 'x')) by {
        reveal_strlit("Text");
    }
    assert(begins("Numeric"@, 7, 'N', 'u', 'm')) by {
        reveal_strlit("Numeric");
    }
    assert(begins("Boolean"@, 7, 'B', 'o', 'o')) by {
        reveal_strlit("Boolean");
    }
    assert(begins("Timestamp"@, 9, 'T', 'i', 'm')) by {
        reveal_strlit("Timestamp");
    }
    assert(begins("TimestampTz"@, 11, 'T', 'i', 'm')) by {
        reveal_strlit("TimestampTz");
    }
    assert(begins("Date"@, 4, 'D', 'a', 't')) by {
        reveal_strlit("Date");
    }
    assert(begins("Time"@, 4, 'T', 'i', 'm')) by {
        reveal_strlit("Time");
    }
    assert(begins("Bytes"@, 5, 'B', 'y', 't')) by {
        reveal_strlit("Bytes");
    }
    assert(begins("Uuid"@, 4, 'U', 'u', 'i')) by {
        reveal_strlit("Uuid");
    }
    assert(begins("Json"@, 4, 'J', 's', 'o')) by {
        reveal_strlit("Json");
    }
    assert(begins("JsonB"@, 5, 'J', 's', 'o')) by {
        reveal_strlit("JsonB");
    }
    assert(begins("Inet"@, 4, 'I', 'n', 'e')) by {
        reveal_strlit("Inet");
    }
    assert(begins("Integer"@, 7, 'I', 'n', 't')) by {
        reveal_strlit("Integer");
    }
    assert(begins("Float"@, 5, 'F', 'l', 'o')) by {
        reveal_strlit("Float");
    }
    assert(begins("Enum"@, 4, 'E', 'n', 'u')) by {
        reveal_strlit("Enum");
    }
    assert(begins("Array"@, 5, 'A', 'r', 'r')) by {
        reveal_strlit("Array");
    }
    assert(begins("Unsupported"@, 11, 'U', 'n', 's')) by {
        reveal_strlit("Unsupported");
    }
}

/// Reading the document of a normalized type gives the type back.
pub proof fn lemma_type_round_trip(t: AxionTypeModel)
    ensures
        read_type(type_document(t)) == Some(t),
        type_document(t) !is Null,
    decreases t,
{
    lemma_type_words();
    match t {
        AxionTypeModel::Array(inner) => {
            lemma_type_round_trip(*inner);
        },
        _ => {},
    }
}

/// Tells which type a word names.
fn type_of_word(word: &str) -> (r: Option<AxionDataType>)
    ensures
        match r {
            Some(t) => type_named(word@) == Some(t@),
            None => type_named(word@) is None,
        },
{
    if str_eq(word, "Text") {
        Some(AxionDataType::Text)
    } else if str_eq(word, "Numeric") {
        Some(AxionDataType::Numeric)
    } else if str_eq(word, "Boolean") {
        Some(AxionDataType::Boolean)
    } else if str_eq(word, "Timestamp") {
        Some(AxionDataType::Timestamp)
    } else if str_eq(word, "TimestampTz") {
        Some(AxionDataType::TimestampTz)
    } else if str_eq(word, "Date") {
        Some(AxionDataType::Date)
    } else if str_eq(word, "Time") {
        Some(AxionDataType::Time)
    } else if str_eq(word, "Bytes") {
        Some(AxionDataType::Bytes)
    } else if str_eq(word, "Uuid") {
        Some(AxionDataType::Uuid)
    } else if str_eq(word, "Json") {
        Some(AxionDataType::Json)
    } else if str_eq(word, "JsonB") {
        Some(AxionDataType::JsonB)
    } else if str_eq(word, "Inet") {
        Some(AxionDataType::Inet)
    } else {
        None
    }
}

/// An object with one field.
fn tag(name: &str, value: Document) -> (d: Document)
    ensures
        d@ == tagged(name@, value@),
{
    let mut fields: Vec<(String, Document)> = Vec::new();
    fields.push(named(name, value));
    let d = Document::Object(fields);
    assert(fields_model(fields@) =~= seq![(name@, value@)]);
    d
}

/// Writes a normalized type.
fn write_type(t: &AxionDataType) -> (d: Document)
    ensures
        d@ == type_document(t@),
    decreases t,
{
    match t {
        AxionDataType::Text => Document::Text(String::from_str("Text")),
        AxionDataType::Integer(bits) => tag("Integer", Document::Number(*bits as i64)),
        AxionDataType::Float(bits) => tag("Float", Document::Number(*bits as i64)),
        AxionDataType::Numeric => Document::Text(String::from_str("Numeric")),
        AxionDataType::Boolean => Document::Text(String::from_str("Boolean")),
        AxionDataType::Timestamp => Document::Text(String::from_str("Timestamp")),
        AxionDataType::TimestampTz => Document::Text(String::from_str("TimestampTz")),
        AxionDataType::Date => Document::Text(String::from_str("Date")),
        AxionDataType::Time => Document::Text(String::from_str("Time")),
        AxionDataType::Bytes => Document::Text(String::from_str("Bytes")),
        AxionDataType::Uuid => Document::Text(String::from_str("Uuid")),
        AxionDataType::Json => Document::Text(String::from_str("Json")),
        AxionDataType::JsonB => Document::Text(String::from_str("JsonB")),
        AxionDataType::Inet => Document::Text(String::from_str("Inet")),
        AxionDataType::Enum(name) => tag("Enum", Document::Text(name.clone())),
        AxionDataType::Array(inner) => tag("Array", write_type(&**inner)),
        AxionDataType::Unsupported(name) => tag("Unsupported", Document::Text(name.clone())),
    }
}

/// Reads a normalized type.
fn parse_type(d: &Document) -> (r: Option<AxionDataType>)
    ensures
        match r {
            Some(t) => read_type(d@) == Some(t@),
            None => read_type(d@) is None,
        },
    decreases d,
{
    match d {
        Document::Text(word) => type_of_word(word.as_str()),
        Document::Object(fields) => {
            assert(fields_model(fields@).len() == fields@.len());
            if fields.len() != 1 {
                return None;
            }
            assert(fields_model(fields@)[0] == (fields@[0].0@, fields@[0].1@));
            let name = fields[0].0.as_str();
            let content = &fields[0].1;
            if str_eq(name, "Integer") {
                match <i32 as Documented>::from_document(content) {
                    Some(bits) => Some(AxionDataType::Integer(bits)),
                    None => None,
                }
            } else if str_eq(name, "Float") {
                match <i32 as Documented>::from_document(content) {
                    Some(bits) => Some(AxionDataType::Float(bits)),
                    None => None,
                }
            } else if str_eq(name, "Enum") {
                match <String as Documented>::from_document(content) {
                    Some(name) => Some(AxionDataType::Enum(name)),
                    None => None,
                }
            } else if str_eq(name, "Array") {
                match parse_type(content) {
                    Some(inner) => Some(AxionDataType::Array(Box::new(inner))),
                    None => None,
                }
            } else if str_eq(name, "Unsupported") {
                match <String as Documented>::from_document(content) {
                    Some(name) => Some(AxionDataType::Unsupported(name)),
                    None => None,
                }
            } else {
                None
            }
        },
        _ => None,
    }
}

impl Documented for AxionDataType {
    type Model = AxionTypeModel;

    open spec fn model(&self) -> AxionTypeModel {
        self@
    }

    open spec fn document(&self) -> DocumentModel {
        type_document(self@)
    }

    open spec fn read(d: DocumentModel) -> Option<AxionTypeModel> {
        read_type(d)
    }

    fn to_document(&self) -> (d: Document) {
        proof {
            lemma_type_round_trip(self@);
        }
        write_type(self)
    }

    fn from_document(d: &Document) -> (r: Option<Self>) {
        parse_type(d)
    }
}

/// How the names of the fields of a column begin: no two of them begin alike.
pub proof fn lemma_column_fields()
    ensures
        begins("name"@, 4, 'n', 'a', 'm'),
        begins("sql_type_name"@, 13, 's', 'q', 'l'),
        begins("axion_type"@, 10, 'a', 'x', 'i'),
        begins("is_nullable"@, 11, 'i', 's', '_'),
        begins("is_primary_key"@, 14, 'i', 's', '_'),
        begins("default_value"@, 13, 'd', 'e', 'f'),
        begins("comment"@, 7, 'c', 'o', 'm'),
        begins("foreign_key"@, 11, 'f', 'o', 'r'),
{
    assert(begins("name"@, 4, 'n', 'a', 'm')) by {
        reveal_strlit("name");
    }
    assert(begins("sql_type_name"@, 13, 's', 'q', 'l')) by {
        reveal_strlit("sql_type_name");
    }
    assert(begins("axion_type"@, 10, 'a', 'x', 'i')) by {
        reveal_strlit("axion_type");
    }
    assert(begins("is_nullable"@, 11, 'i', 's', '_')) by {
        reveal_strlit("is_nullable");
    }
    assert(begins("is_primary_key"@, 14, 'i', 's', '_')) by {
        reveal_strlit("is_primary_key");
    }
    assert(begins("default_value"@, 13, 'd', 'e', 'f')) by {
        reveal_strlit("default_value");
    }
    assert(begins("comment"@, 7, 'c', 'o', 'm')) by {
        reveal_strlit("comment");
    }
    assert(begins("foreign_key"@, 11, 'f', 'o', 'r')) by {
        reveal_strlit("foreign_key");
    }
}

impl Documented for ColumnMetadata {
    type Model = ColumnModel;

    open spec fn model(&self) -> ColumnModel {
        self@
    }

    open spec fn document(&self) -> DocumentModel {
        DocumentModel::Object(
            seq![
                ("name"@, self.name.document()),
                ("sql_type_name"@, self.sql_type_name.document()),
                ("axion_type"@, self.axion_type.document()),
                ("is_nullable"@, self.is_nullable.document()),
                ("is_primary_key"@, self.is_primary_key.document()),
                ("default_value"@, optional_document(self.default_value)),
                ("comment"@, optional_document(self.comment)),
                ("foreign_key"@, optional_document(self.foreign_key)),
            ],
        )
    }

    open spec fn read(d: DocumentModel) -> Option<ColumnModel> {
        let name = read_member::<String>(d, "name"@);
        let sql_type_name = read_member::<String>(d, "sql_type_name"@);
        let axion_type = read_member::<AxionDataType>(d, "axion_type"@);
        let is_nullable = read_member::<bool>(d, "is_nullable"@);
        let is_primary_key = read_member::<bool>(d, "is_primary_key"@);
        let default_value = read_optional_member::<String>(d, "default_value"@);
        let comment = read_optional_member::<String>(d, "comment"@);
        let foreign_key = read_optional_member::<ForeignKeyReference>(d, "foreign_key"@);
        if name is None || sql_type_name is None || axion_type is None || is_nullable is None || is_primary_key is None || default_value is None || comment is None || foreign_key is None {
            None
        } else {
            Some(
                ColumnModel {
                    name: name->0,
                    sql_type_name: sql_type_name->0,
                    axion_type: axion_type->0,
                    is_nullable: is_nullable->0,
                    is_primary_key: is_primary_key->0,
                    default_value: default_value->0,
                    comment: comment->0,
                    foreign_key: foreign_key->0,
                },
            )
        }
    }

    fn to_document(&self) -> (d: Document) {
        let mut fields: Vec<(String, Document)> = Vec::new();
        fields.push(named("name", self.name.to_document()));
        fields.push(named("sql_type_name", self.sql_type_name.to_document()));
        fields.push(named("axion_type", self.axion_type.to_document()));
        fields.push(named("is_nullable", self.is_nullable.to_document()));
        fields.push(named("is_primary_key", self.is_primary_key.to_document()));
        fields.push(named("default_value", write_optional(&self.default_value)));
        fields.push(named("comment", write_optional(&self.comment)));
        fields.push(named("foreign_key", write_optional(&self.foreign_key)));
        let d = Document::Object(fields);
        proof {
            let written = self.document()->Object_0;
            assert(fields_model(fields@) =~= written);
            lemma_column_fields();
            lemma_field_at(written, "name"@, 0);
            lemma_field_at(written, "sql_type_name"@, 1);
            lemma_field_at(written, "axion_type"@, 2);
            lemma_field_at(written, "is_nullable"@, 3);
            lemma_field_at(written, "is_primary_key"@, 4);
            lemma_field_at(written, "default_value"@, 5);
            lemma_field_at(written, "comment"@, 6);
            lemma_field_at(written, "foreign_key"@, 7);
            assert(optional_model(self.default_value) == opt_text(self.default_value));
            assert(optional_model(self.comment) == opt_text(self.comment));
            assert(optional_model(self.foreign_key) == opt_foreign_key(self.foreign_key));
        }
        d
    }

    fn from_document(d: &Document) -> (r: Option<Self>) {
        let name = match read_field::<String>(d, "name") {
            Some(v) => v,
            None => { return None; },
        };
        let sql_type_name = match read_field::<String>(d, "sql_type_name") {
            Some(v) => v,
            None => { return None; },
        };
        let axion_type = match read_field::<AxionDataType>(d, "axion_type") {
            Some(v) => v,
            None => { return None; },
        };
        let is_nullable = match read_field::<bool>(d, "is_nullable") {
            Some(v) => v,
            None => { return None; },
        };
        let is_primary_key = match read_field::<bool>(d, "is_primary_key") {
            Some(v) => v,
            None => { return None; },
        };
        let default_value = match read_optional_field::<String>(d, "default_value") {
            Some(v) => v,
            None => { return None; },
        };
        let comment = match read_optional_field::<String>(d, "comment") {
            Some(v) => v,
            None => { return None; },
        };
        let foreign_key = match read_optional_field::<ForeignKeyReference>(d, "foreign_key") {
            Some(v) => v,
            None => { return None; },
        };
        Some(ColumnMetadata { name, sql_type_name, axion_type, is_nullable, is_primary_key, default_value, comment, foreign_key })
    }
}

/// How the names of the fields of a table begin: no two of them begin alike.
pub proof fn lemma_table_fields()
    ensures
        begins("name"@, 4, 'n', 'a', 'm'),
        begins("schema"@, 6, 's', 'c', 'h'),
        begins("columns"@, 7, 'c', 'o', 'l'),
        begins("primary_key_columns"@, 19, 'p', 'r', 'i'),
        begins("comment"@, 7, 'c', 'o', 'm'),
{
    assert(begins("name"@, 4, 'n', 'a', 'm')) by {
        reveal_strlit("name");
    }
    assert(begins("schema"@, 6, 's', 'c', 'h')) by {
        reveal_strlit("schema");
    }
    assert(begins("columns"@, 7, 'c', 'o', 'l')) by {
        reveal_strlit("columns");
    }
    assert(begins("primary_key_columns"@, 19, 'p', 'r', 'i')) by {
        reveal_strlit("primary_key_columns");
    }
    assert(begins("comment"@, 7, 'c', 'o', 'm')) by {
        reveal_strlit("comment");
    }
}

impl Documented for TableMetadata {
    type Model = TableModel;

    open spec fn model(&self) -> TableModel {
        self@
    }

    open spec fn document(&self) -> DocumentModel {
        DocumentModel::Object(
            seq![
                ("name"@, self.name.document()),
                ("schema"@, self.schema.document()),
                ("columns"@, self.columns.document()),
                ("primary_key_columns"@, self.primary_key_columns.document()),
                ("comment"@, optional_document(self.comment)),
            ],
        )
    }

    open spec fn read(d: DocumentModel) -> Option<TableModel> {
        let name = read_member::<String>(d, "name"@);
        let schema = read_member::<String>(d, "schema"@);
        let columns = read_member::<Vec<ColumnMetadata>>(d, "columns"@);
        let primary_key_columns = read_member::<Vec<String>>(d, "primary_key_columns"@);
        let comment = read_optional_member::<String>(d, "comment"@);
        if name is None || schema is None || columns is None || primary_key_columns is None || comment is None {
            None
        } else {
            Some(
                TableModel {
                    name: name->0,
                    schema: schema->0,
                    columns: columns->0,
                    primary_key_columns: primary_key_columns->0,
                    comment: comment->0,
                },
            )
        }
    }

    fn to_document(&self) -> (d: Document) {
        let mut fields: Vec<(String, Document)> = Vec::new();
        fields.push(named("name", self.name.to_document()));
        fields.push(named("schema", self.schema.to_document()));
        fields.push(named("columns", self.columns.to_document()));
        fields.push(named("primary_key_columns", self.primary_key_columns.to_document()));
        fields.push(named("comment", write_optional(&self.comment)));
        let d = Document::Object(fields);
        proof {
            let written = self.document()->Object_0;
            assert(fields_model(fields@) =~= written);
            lemma_table_fields();
            lemma_field_at(written, "name"@, 0);
            lemma_field_at(written, "schema"@, 1);
            lemma_field_at(written, "columns"@, 2);
            lemma_field_at(written, "primary_key_columns"@, 3);
            lemma_field_at(written, "comment"@, 4);
            assert(list_model(self.columns@) =~= column_models(self.columns@));
            assert(list_model(self.primary_key_columns@) =~= texts(self.primary_key_columns@));
            assert(optional_model(self.comment) == opt_text(self.comment));
        }
        d
    }

    fn from_document(d: &Document) -> (r: Option<Self>) {
        let name = match read_field::<String>(d, "name") {
            Some(v) => v,
            None => { return None; },
        };
        let schema = match read_field::<String>(d, "schema") {
            Some(v) => v,
            None => { return None; },
        };
        let columns = match read_field::<Vec<ColumnMetadata>>(d, "columns") {
            Some(v) => v,
            None => { return None; },
        };
        let primary_key_columns = match read_field::<Vec<String>>(d, "primary_key_columns") {
            Some(v) => v,
            None => { return None; },
        };
        let comment = match read_optional_field::<String>(d, "comment") {
            Some(v) => v,
            None => { return None; },
        };
        proof {
            assert(list_model(columns@) =~= column_models(columns@));
            assert(list_model(primary_key_columns@) =~= texts(primary_key_columns@));
            assert(optional_model(comment) == opt_text(comment));
        }
        Some(TableMetadata { name, schema, columns, primary_key_columns, comment })
    }
}

/// How the names of the fields of a view begin: no two of them begin alike.
pub proof fn lemma_view_fields()
    ensures
        begins("name"@, 4, 'n', 'a', 'm'),
        begins("schema"@, 6, 's', 'c', 'h'),
        begins("columns"@, 7, 'c', 'o', 'l'),
        begins("definition"@, 10, 'd', 'e', 'f'),
        begins("comment"@, 7, 'c', 'o', 'm'),
{
    assert(begins("name"@, 4, 'n', 'a', 'm')) by {
        reveal_strlit("name");
    }
    assert(begins("schema"@, 6, 's', 'c', 'h')) by {
        reveal_strlit("schema");
    }
    assert(begins("columns"@, 7, 'c', 'o', 'l')) by {
        reveal_strlit("columns");
    }
    assert(begins("definition"@, 10, 'd', 'e', 'f')) by {
        reveal_strlit("definition");
    }
    assert(begins("comment"@, 7, 'c', 'o', 'm')) by {
        reveal_strlit("comment");
    }
}

impl Documented for ViewMetadata {
    type Model = ViewModel;

    open spec fn model(&self) -> ViewModel {
        self@
    }

    open spec fn document(&self) -> DocumentModel {
        DocumentModel::Object(
            seq![
                ("name"@, self.name.document()),
                ("schema"@, self.schema.document()),
                ("columns"@, self.columns.document()),
                ("definition"@, optional_document(self.definition)),
                ("comment"@, optional_document(self.comment)),
            ],
        )
    }

    open spec fn read(d: DocumentModel) -> Option<ViewModel> {
        let name = read_member::<String>(d, "name"@);
        let schema = read_member::<String>(d, "schema"@);
        let columns = read_member::<Vec<ColumnMetadata>>(d, "columns"@);
        let definition = read_optional_member::<String>(d, "definition"@);
        let comment = read_optional_member::<String>(d, "comment"@);
        if name is None || schema is None || columns is None || definition is None || comment is None {
            None
        } else {
            Some(
                ViewModel {
                    name: name->0,
                    schema: schema->0,
                    columns: columns->0,
                    definition: definition->0,
                    comment: comment->0,
                },
            )
        }
    }

    fn to_document(&self) -> (d: Document) {
        let mut fields: Vec<(String, Document)> = Vec::new();
        fields.push(named("name", self.name.to_document()));
        fields.push(named("schema", self.schema.to_document()));
        fields.push(named("columns", self.columns.to_document()));
        fields.push(named("definition", write_optional(&self.definition)));
        fields.push(named("comment", write_optional(&self.comment)));
        let d = Document::Object(fields);
        proof {
            let written = self.document()->Object_0;
            assert(fields_model(fields@) =~= written);
            lemma_view_fields();
            lemma_field_at(written, "name"@, 0);
            lemma_field_at(written, "schema"@, 1);
            lemma_field_at(written, "columns"@, 2);
            lemma_field_at(written, "definition"@, 3);
            lemma_field_at(written, "comment"@, 4);
            assert(list_model(self.columns@) =~= column_models(self.columns@));
            assert(optional_model(self.definition) == opt_text(self.definition));
            assert(optional_model(self.comment) == opt_text(self.comment));
        }
        d
    }

    fn from_document(d: &Document) -> (r: Option<Self>) {
        let name = match read_field::<String>(d, "name") {
            Some(v) => v,
            None => { return None; },
        };
        let schema = match read_field::<String>(d, "schema") {
            Some(v) => v,
            None => { return None; },
        };
        let columns = match read_field::<Vec<ColumnMetadata>>(d, "columns") {
            Some(v) => v,
            None => { return None; },
        };
        let definition = match read_optional_field::<String>(d, "definition") {
            Some(v) => v,
            None => { return None; },
        };
        let comment = match read_optional_field::<String>(d, "comment") {
            Some(v) => v,
            None => { return None; },
        };
        proof {
            assert(list_model(columns@) =~= column_models(columns@));
            assert(optional_model(definition) == opt_text(definition));
            assert(optional_model(comment) == opt_text(comment));
        }
        Some(ViewMetadata { name, schema, columns, definition, comment })
    }
}

/// How the names of the fields of an enumeration begin: no two of them begin alike.
pub proof fn lemma_enum_fields()
    ensures
        begins("name"@, 4, 'n', 'a', 'm'),
        begins("schema"@, 6, 's', 'c', 'h'),
        begins("values"@, 6, 'v', 'a', 'l'),
        begins("comment"@, 7, 'c', 'o', 'm'),
{
    assert(begins("name"@, 4, 'n', 'a', 'm')) by {
        reveal_strlit("name");
    }
    assert(begins("schema"@, 6, 's', 'c', 'h')) by {
        reveal_strlit("schema");
    }
    assert(begins("values"@, 6, 'v', 'a', 'l')) by {
        reveal_strlit("values");
    }
    assert(begins("comment"@, 7, 'c', 'o', 'm')) by {
        reveal_strlit("comment");
    }
}

impl Documented for EnumMetadata {
    type Model = EnumModel;

    open spec fn model(&self) -> EnumModel {
        self@
    }

    open spec fn document(&self) -> DocumentModel {
        DocumentModel::Object(
            seq![
                ("name"@, self.name.document()),
                ("schema"@, self.schema.document()),
                ("values"@, self.values.document()),
                ("comment"@, optional_document(self.comment)),
            ],
        )
    }

    open spec fn read(d: DocumentModel) -> Option<EnumModel> {
        let name = read_member::<String>(d, "name"@);
        let schema = read_member::<String>(d, "schema"@);
        let values = read_member::<Vec<String>>(d, "values"@);
        let comment = read_optional_member::<String>(d, "comment"@);
        if name is None || schema is None || values is None || comment is None {
            None
        } else {
            Some(
                EnumModel {
                    name: name->0,
                    schema: schema->0,
                    values: values->0,
                    comment: comment->0,
                },
            )
        }
    }

    fn to_document(&self) -> (d: Document) {
        let mut fields: Vec<(String, Document)> = Vec::new();
        fields.push(named("name", self.name.to_document()));
        fields.push(named("schema", self.schema.to_document()));
        fields.push(named("values", self.values.to_document()));
        fields.push(named("comment", write_optional(&self.comment)));
        let d = Document::Object(fields);
        proof {
            let written = self.document()->Object_0;
            assert(fields_model(fields@) =~= written);
            lemma_enum_fields();
            lemma_field_at(written, "name"@, 0);
            lemma_field_at(written, "schema"@, 1);
            lemma_field_at(written, "values"@, 2);
            lemma_field_at(written, "comment"@, 3);
            assert(list_model(self.values@) =~= texts(self.values@));
            assert(optional_model(self.comment) == opt_text(self.comment));
        }
        d
    }

    fn from_document(d: &Document) -> (r: Option<Self>) {
        let name = match read_field::<String>(d, "name") {
            Some(v) => v,
            None => { return None; },
        };
        let schema = match read_field::<String>(d, "schema") {
            Some(v) => v,
            None => { return None; },
        };
        let values = match read_field::<Vec<String>>(d, "values") {
            Some(v) => v,
            None => { return None; },
        };
        let comment = match read_optional_field::<String>(d, "comment") {
            Some(v) => v,
            None => { return None; },
        };
        proof {
            assert(list_model(values@) =~= texts(values@));
            assert(optional_model(comment) == opt_text(comment));
        }
        Some(EnumMetadata { name, schema, values, comment })
    }
}

/// The routine kind that a word names.
pub open spec fn routine_kind_named(word: Seq<char>) -> Option<RoutineKind> {
    if word == "Function"@ {
        Some(RoutineKind::Function)
    }     else if word == "Procedure"@ {
        Some(RoutineKind::Procedure)
    }     else if word == "Aggregate"@ {
        Some(RoutineKind::Aggregate)
    }     else if word == "Window"@ {
        Some(RoutineKind::Window)
    }     else if word == "Trigger"@ {
        Some(RoutineKind::Trigger)
    } else {
        None
    }
}

/// The word for a routine kind.
pub open spec fn routine_kind_word(value: RoutineKind) -> Seq<char> {
    match value {
        RoutineKind::Function => "Function"@,
        RoutineKind::Procedure => "Procedure"@,
        RoutineKind::Aggregate => "Aggregate"@,
        RoutineKind::Window => "Window"@,
        RoutineKind::Trigger => "Trigger"@,
    }
}

/// Each word names its own routine kind.
pub proof fn lemma_routine_kind_words(value: RoutineKind)
    ensures
        routine_kind_named(routine_kind_word(value)) == Some(value),
{
    assert("Function"@.len() == 8 && "Function"@[0] == 'F') by {
        reveal_strlit("Function");
    }
    assert("Procedure"@.len() == 9 && "Procedure"@[0] == 'P') by {
        reveal_strlit("Procedure");
    }
    assert("Aggregate"@.len() == 9 && "Aggregate"@[0] == 'A') by {
        reveal_strlit("Aggregate");
    }
    assert("Window"@.len() == 6 && "Window"@[0] == 'W') by {
        reveal_strlit("Window");
    }
    assert("Trigger"@.len() == 7 && "Trigger"@[0] == 'T') by {
        reveal_strlit("Trigger");
    }
}

impl Documented for RoutineKind {
    type Model = RoutineKind;

    open spec fn model(&self) -> RoutineKind {
        *self
    }

    open spec fn document(&self) -> DocumentModel {
        DocumentModel::Text(routine_kind_word(*self))
    }

    open spec fn read(d: DocumentModel) -> Option<RoutineKind> {
        match d {
            DocumentModel::Text(word) => routine_kind_named(word),
            _ => None,
        }
    }

    fn to_document(&self) -> (d: Document) {
        proof {
            lemma_routine_kind_words(*self);
        }
        match self {
            RoutineKind::Function => Document::Text(String::from_str("Function")),
            RoutineKind::Procedure => Document::Text(String::from_str("Procedure")),
            RoutineKind::Aggregate => Document::Text(String::from_str("Aggregate")),
            RoutineKind::Window => Document::Text(String::from_str("Window")),
            RoutineKind::Trigger => Document::Text(String::from_str("Trigger")),
        }
    }

    fn from_document(d: &Document) -> (r: Option<Self>) {
        match d {
            Document::Text(word) => {
                if str_eq(word.as_str(), "Function") {
                    Some(RoutineKind::Function)
                }                 else if str_eq(word.as_str(), "Procedure") {
                    Some(RoutineKind::Procedure)
                }                 else if str_eq(word.as_str(), "Aggregate") {
                    Some(RoutineKind::Aggregate)
                }                 else if str_eq(word.as_str(), "Window") {
                    Some(RoutineKind::Window)
                }                 else if str_eq(word.as_str(), "Trigger") {
                    Some(RoutineKind::Trigger)
                } else {
                    None
                }
            },
            _ => None,
        }
    }
}

/// The parameter mode that a word names.
pub open spec fn parameter_mode_named(word: Seq<char>) -> Option<ParameterMode> {
    if word == "In"@ {
        Some(ParameterMode::In)
    }     else if word == "Out"@ {
        Some(ParameterMode::Out)
    }     else if word == "InOut"@ {
        Some(ParameterMode::InOut)
    }     else if word == "Variadic"@ {
        Some(ParameterMode::Variadic)
    } else {
        None
    }
}

/// The word for a parameter mode.
pub open spec fn parameter_mode_word(value: ParameterMode) -> Seq<char> {
    match value {
        ParameterMode::In => "In"@,
        ParameterMode::Out => "Out"@,
        ParameterMode::InOut => "InOut"@,
        ParameterMode::Variadic => "Variadic"@,
    }
}

/// Each word names its own parameter mode.
pub proof fn lemma_parameter_mode_words(value: ParameterMode)
    ensures
        parameter_mode_named(parameter_mode_word(value)) == Some(value),
{
    assert("In"@.len() == 2 && "In"@[0] == 'I') by {
        reveal_strlit("In");
    }
    assert("Out"@.len() == 3 && "Out"@[0] == 'O') by {
        reveal_strlit("Out");
    }
    assert("InOut"@.len() == 5 && "InOut"@[0] == 'I') by {
        reveal_strlit("InOut");
    }
    assert("Variadic"@.len() == 8 && "Variadic"@[0] == 'V') by {
        reveal_strlit("Variadic");
    }
}

impl Documented for ParameterMode {
    type Model = ParameterMode;

    open spec fn model(&self) -> ParameterMode {
        *self
    }

    open spec fn document(&self) -> DocumentModel {
        DocumentModel::Text(parameter_mode_word(*self))
    }

    open spec fn read(d: DocumentModel) -> Option<ParameterMode> {
        match d {
            DocumentModel::Text(word) => parameter_mode_named(word),
            _ => None,
        }
    }

    fn to_document(&self) -> (d: Document) {
        proof {
            lemma_parameter_mode_words(*self);
        }
        match self {
            ParameterMode::In => Document::Text(String::from_str("In")),
            ParameterMode::Out => Document::Text(String::from_str("Out")),
            ParameterMode::InOut => Document::Text(String::from_str("InOut")),
            ParameterMode::Variadic => Document::Text(String::from_str("Variadic")),
        }
    }

    fn from_document(d: &Document) -> (r: Option<Self>) {
        match d {
            Document::Text(word) => {
                if str_eq(word.as_str(), "In") {
                    Some(ParameterMode::In)
                }                 else if str_eq(word.as_str(), "Out") {
                    Some(ParameterMode::Out)
                }                 else if str_eq(word.as_str(), "InOut") {
                    Some(ParameterMode::InOut)
                }                 else if str_eq(word.as_str(), "Variadic") {
                    Some(ParameterMode::Variadic)
                } else {
                    None
                }
            },
            _ => None,
        }
    }
}

/// How the names of the fields of a parameter begin: no two of them begin alike.
pub proof fn lemma_parameter_fields()
    ensures
        begins("name"@, 4, 'n', 'a', 'm'),
        begins("sql_type_name"@, 13, 's', 'q', 'l'),
        begins("axion_type"@, 10, 'a', 'x', 'i'),
        begins("mode"@, 4, 'm', 'o', 'd'),
        begins("has_default"@, 11, 'h', 'a', 's'),
{
    assert(begins("name"@, 4, 'n', 'a', 'm')) by {
        reveal_strlit("name");
    }
    assert(begins("sql_type_name"@, 13, 's', 'q', 'l')) by {
        reveal_strlit("sql_type_name");
    }
    assert(begins("axion_type"@, 10, 'a', 'x', 'i')) by {
        reveal_strlit("axion_type");
    }
    assert(begins("mode"@, 4, 'm', 'o', 'd')) by {
        reveal_strlit("mode");
    }
    assert(begins("has_default"@, 11, 'h', 'a', 's')) by {
        reveal_strlit("has_default");
    }
}

impl Documented for ParameterMetadata {
    type Model = ParameterModel;

    open spec fn model(&self) -> ParameterModel {
        self@
    }

    open spec fn document(&self) -> DocumentModel {
        DocumentModel::Object(
            seq![
                ("name"@, self.name.document()),
                ("sql_type_name"@, self.sql_type_name.document()),
                ("axion_type"@, self.axion_type.document()),
                ("mode"@, self.mode.document()),
                ("has_default"@, self.has_default.document()),
            ],
        )
    }

    open spec fn read(d: DocumentModel) -> Option<ParameterModel> {
        let name = read_member::<String>(d, "name"@);
        let sql_type_name = read_member::<String>(d, "sql_type_name"@);
        let axion_type = read_member::<AxionDataType>(d, "axion_type"@);
        let mode = read_member::<ParameterMode>(d, "mode"@);
        let has_default = read_member::<bool>(d, "has_default"@);
        if name is None || sql_type_name is None || axion_type is None || mode is None || has_default is None {
            None
        } else {
            Some(
                ParameterModel {
                    name: name->0,
                    sql_type_name: sql_type_name->0,
                    axion_type: axion_type->0,
                    mode: mode->0,
                    has_default: has_default->0,
                },
            )
        }
    }

    fn to_document(&self) -> (d: Document) {
        let mut fields: Vec<(String, Document)> = Vec::new();
        fields.push(named("name", self.name.to_document()));
        fields.push(named("sql_type_name", self.sql_type_name.to_document()));
        fields.push(named("axion_type", self.axion_type.to_document()));
        fields.push(named("mode", self.mode.to_document()));
        fields.push(named("has_default", self.has_default.to_document()));
        let d = Document::Object(fields);
        proof {
            let written = self.document()->Object_0;
            assert(fields_model(fields@) =~= written);
            lemma_parameter_fields();
            lemma_field_at(written, "name"@, 0);
            lemma_field_at(written, "sql_type_name"@, 1);
            lemma_field_at(written, "axion_type"@, 2);
            lemma_field_at(written, "mode"@, 3);
            lemma_field_at(written, "has_default"@, 4);
        }
        d
    }

    fn from_document(d: &Document) -> (r: Option<Self>) {
        let name = match read_field::<String>(d, "name") {
            Some(v) => v,
            None => { return None; },
        };
        let sql_type_name = match read_field::<String>(d, "sql_type_name") {
            Some(v) => v,
            None => { return None; },
        };
        let axion_type = match read_field::<AxionDataType>(d, "axion_type") {
            Some(v) => v,
            None => { return None; },
        };
        let mode = match read_field::<ParameterMode>(d, "mode") {
            Some(v) => v,
            None => { return None; },
        };
        let has_default = match read_field::<bool>(d, "has_default") {
            Some(v) => v,
            None => { return None; },
        };
        Some(ParameterMetadata { name, sql_type_name, axion_type, mode, has_default })
    }
}

/// How the names of the fields of a routine begin: no two of them begin alike.
pub proof fn lemma_function_fields()
    ensures
        begins("name"@, 4, 'n', 'a', 'm'),
        begins("schema"@, 6, 's', 'c', 'h'),
        begins("kind"@, 4, 'k', 'i', 'n'),
        begins("parameters"@, 10, 'p', 'a', 'r'),
        begins("return_type"@, 11, 'r', 'e', 't'),
        begins("return_table"@, 12, 'r', 'e', 't'),
        begins("comment"@, 7, 'c', 'o', 'm'),
{
    assert(begins("name"@, 4, 'n', 'a', 'm')) by {
        reveal_strlit("name");
    }
    assert(begins("schema"@, 6, 's', 'c', 'h')) by {
        reveal_strlit("schema");
    }
    assert(begins("kind"@, 4, 'k', 'i', 'n')) by {
        reveal_strlit("kind");
    }
    assert(begins("parameters"@, 10, 'p', 'a', 'r')) by {
        reveal_strlit("parameters");
    }
    assert(begins("return_type"@, 11, 'r', 'e', 't')) by {
        reveal_strlit("return_type");
    }
    assert(begins("return_table"@, 12, 'r', 'e', 't')) by {
        reveal_strlit("return_table");
    }
    assert(begins("comment"@, 7, 'c', 'o', 'm')) by {
        reveal_strlit("comment");
    }
}

impl Documented for FunctionMetadata {
    type Model = FunctionModel;

    open spec fn model(&self) -> FunctionModel {
        self@
    }

    open spec fn document(&self) -> DocumentModel {
        DocumentModel::Object(
            seq![
                ("name"@, self.name.document()),
                ("schema"@, self.schema.document()),
                ("kind"@, optional_document(self.kind)),
                ("parameters"@, self.parameters.document()),
                ("return_type"@, optional_document(self.return_type)),
                ("return_table"@, optional_document(self.return_table)),
                ("comment"@, optional_document(self.comment)),
            ],
        )
    }

    open spec fn read(d: DocumentModel) -> Option<FunctionModel> {
        let name = read_member::<String>(d, "name"@);
        let schema = read_member::<String>(d, "schema"@);
        let kind = read_optional_member::<RoutineKind>(d, "kind"@);
        let parameters = read_member::<Vec<ParameterMetadata>>(d, "parameters"@);
        let return_type = read_optional_member::<AxionDataType>(d, "return_type"@);
        let return_table = read_optional_member::<Vec<ColumnMetadata>>(d, "return_table"@);
        let comment = read_optional_member::<String>(d, "comment"@);
        if name is None || schema is None || kind is None || parameters is None || return_type is None || return_table is None || comment is None {
            None
        } else {
            Some(
                FunctionModel {
                    name: name->0,
                    schema: schema->0,
                    kind: kind->0,
                    parameters: parameters->0,
                    return_type: return_type->0,
                    return_table: return_table->0,
                    comment: comment->0,
                },
            )
        }
    }

    fn to_document(&self) -> (d: Document) {
        let mut fields: Vec<(String, Document)> = Vec::new();
        fields.push(named("name", self.name.to_document()));
        fields.push(named("schema", self.schema.to_document()));
        fields.push(named("kind", write_optional(&self.kind)));
        fields.push(named("parameters", self.parameters.to_document()));
        fields.push(named("return_type", write_optional(&self.return_type)));
        fields.push(named("return_table", write_optional(&self.return_table)));
        fields.push(named("comment", write_optional(&self.comment)));
        let d = Document::Object(fields);
        proof {
            let written = self.document()->Object_0;
            assert(fields_model(fields@) =~= written);
            lemma_function_fields();
            lemma_field_at(written, "name"@, 0);
            lemma_field_at(written, "schema"@, 1);
            lemma_field_at(written, "kind"@, 2);
            lemma_field_at(written, "parameters"@, 3);
            lemma_field_at(written, "return_type"@, 4);
            lemma_field_at(written, "return_table"@, 5);
            lemma_field_at(written, "comment"@, 6);
            assert(list_model(self.parameters@) =~= self.parameters@.map_values(
                |p: ParameterMetadata| p@,
            ));
            if self.return_table is Some {
                assert(list_model(self.return_table->0@) =~= column_models(
                    self.return_table->0@,
                ));
            }
            assert(optional_model(self.comment) == opt_text(self.comment));
        }
        d
    }

    fn from_document(d: &Document) -> (r: Option<Self>) {
        let name = match read_field::<String>(d, "name") {
            Some(v) => v,
            None => { return None; },
        };
        let schema = match read_field::<String>(d, "schema") {
            Some(v) => v,
            None => { return None; },
        };
        let kind = match read_optional_field::<RoutineKind>(d, "kind") {
            Some(v) => v,
            None => { return None; },
        };
        let parameters = match read_field::<Vec<ParameterMetadata>>(d, "parameters") {
            Some(v) => v,
            None => { return None; },
        };
        let return_type = match read_optional_field::<AxionDataType>(d, "return_type") {
            Some(v) => v,
            None => { return None; },
        };
        let return_table = match read_optional_field::<Vec<ColumnMetadata>>(d, "return_table") {
            Some(v) => v,
            None => { return None; },
        };
        let comment = match read_optional_field::<String>(d, "comment") {
            Some(v) => v,
            None => { return None; },
        };
        proof {
            assert(list_model(parameters@) =~= parameters@.map_values(|p: ParameterMetadata| p@));
            if return_table is Some {
                assert(list_model(return_table->0@) =~= column_models(return_table->0@));
            }
            assert(optional_model(comment) == opt_text(comment));
        }
        Some(FunctionMetadata { name, schema, kind, parameters, return_type, return_table, comment })
    }
}

/// How the names of the fields of a schema begin: no two of them begin alike.
pub proof fn lemma_schema_fields()
    ensures
        begins("name"@, 4, 'n', 'a', 'm'),
        begins("tables"@, 6, 't', 'a', 'b'),
        begins("views"@, 5, 'v', 'i', 'e'),
        begins("enums"@, 5, 'e', 'n', 'u'),
        begins("functions"@, 9, 'f', 'u', 'n'),
{
    assert(begins("name"@, 4, 'n', 'a', 'm')) by {
        reveal_strlit("name");
    }
    assert(begins("tables"@, 6, 't', 'a', 'b')) by {
        reveal_strlit("tables");
    }
    assert(begins("views"@, 5, 'v', 'i', 'e')) by {
        reveal_strlit("views");
    }
    assert(begins("enums"@, 5, 'e', 'n', 'u')) by {
        reveal_strlit("enums");
    }
    assert(begins("functions"@, 9, 'f', 'u', 'n')) by {
        reveal_strlit("functions");
    }
}

impl Documented for SchemaMetadata {
    type Model = SchemaModel;

    open spec fn model(&self) -> SchemaModel {
        self@
    }

    open spec fn document(&self) -> DocumentModel {
        DocumentModel::Object(
            seq![
                ("name"@, self.name.document()),
                ("tables"@, self.tables.document()),
                ("views"@, self.views.document()),
                ("enums"@, self.enums.document()),
                ("functions"@, self.functions.document()),
            ],
        )
    }

    open spec fn read(d: DocumentModel) -> Option<SchemaModel> {
        let name = read_member::<String>(d, "name"@);
        let tables = read_member::<NameMap<TableMetadata>>(d, "tables"@);
        let views = read_member::<NameMap<ViewMetadata>>(d, "views"@);
        let enums = read_member::<NameMap<EnumMetadata>>(d, "enums"@);
        let functions = read_member::<NameMap<FunctionMetadata>>(d, "functions"@);
        if name is None || tables is None || views is None || enums is None || functions is None {
            None
        } else {
            Some(
                SchemaModel {
                    name: name->0,
                    tables: tables->0,
                    views: views->0,
                    enums: enums->0,
                    functions: functions->0,
                },
            )
        }
    }

    fn to_document(&self) -> (d: Document) {
        let mut fields: Vec<(String, Document)> = Vec::new();
        fields.push(named("name", self.name.to_document()));
        fields.push(named("tables", self.tables.to_document()));
        fields.push(named("views", self.views.to_document()));
        fields.push(named("enums", self.enums.to_document()));
        fields.push(named("functions", self.functions.to_document()));
        let d = Document::Object(fields);
        proof {
            let written = self.document()->Object_0;
            assert(fields_model(fields@) =~= written);
            lemma_schema_fields();
            lemma_field_at(written, "name"@, 0);
            lemma_field_at(written, "tables"@, 1);
            lemma_field_at(written, "views"@, 2);
            lemma_field_at(written, "enums"@, 3);
            lemma_field_at(written, "functions"@, 4);
            assert(map_model(self.tables@) =~= table_models(self.tables@));
            assert(map_model(self.views@) =~= view_models(self.views@));
            assert(map_model(self.enums@) =~= enum_models(self.enums@));
            assert(map_model(self.functions@) =~= function_models(self.functions@));
        }
        d
    }

    fn from_document(d: &Document) -> (r: Option<Self>) {
        let name = match read_field::<String>(d, "name") {
            Some(v) => v,
            None => { return None; },
        };
        let tables = match read_field::<NameMap<TableMetadata>>(d, "tables") {
            Some(v) => v,
            None => { return None; },
        };
        let views = match read_field::<NameMap<ViewMetadata>>(d, "views") {
            Some(v) => v,
            None => { return None; },
        };
        let enums = match read_field::<NameMap<EnumMetadata>>(d, "enums") {
            Some(v) => v,
            None => { return None; },
        };
        let functions = match read_field::<NameMap<FunctionMetadata>>(d, "functions") {
            Some(v) => v,
            None => { return None; },
        };
        proof {
            assert(map_model(tables@) =~= table_models(tables@));
            assert(map_model(views@) =~= view_models(views@));
            assert(map_model(enums@) =~= enum_models(enums@));
            assert(map_model(functions@) =~= function_models(functions@));
        }
        Some(SchemaMetadata { name, tables, views, enums, functions })
    }
}

/// How the names of the fields of a snapshot begin: no two of them begin alike.
pub proof fn lemma_database_fields()
    ensures
        begins("schemas"@, 7, 's', 'c', 'h'),
{
    assert(begins("schemas"@, 7, 's', 'c', 'h')) by {
        reveal_strlit("schemas");
    }
}

impl Documented for DatabaseMetadata {
    type Model = DatabaseModel;

    open spec fn model(&self) -> DatabaseModel {
        self@
    }

    open spec fn document(&self) -> DocumentModel {
        DocumentModel::Object(
            seq![
                ("schemas"@, self.schemas.document()),
            ],
        )
    }

    open spec fn read(d: DocumentModel) -> Option<DatabaseModel> {
        let schemas = read_member::<NameMap<SchemaMetadata>>(d, "schemas"@);
        if schemas is None {
            None
        } else {
            Some(
                DatabaseModel {
                    schemas: schemas->0,
                },
            )
        }
    }

    fn to_document(&self) -> (d: Document) {
        let mut fields: Vec<(String, Document)> = Vec::new();
        fields.push(named("schemas", self.schemas.to_document()));
        let d = Document::Object(fields);
        proof {
            let written = self.document()->Object_0;
            assert(fields_model(fields@) =~= written);
            lemma_database_fields();
            lemma_field_at(written, "schemas"@, 0);
            assert(map_model(self.schemas@) =~= schema_models(self.schemas@));
        }
        d
    }

    fn from_document(d: &Document) -> (r: Option<Self>) {
        let schemas = match read_field::<NameMap<SchemaMetadata>>(d, "schemas") {
            Some(v) => v,
            None => { return None; },
        };
        proof {
            assert(map_model(schemas@) =~= schema_models(schemas@));
        }
        Some(DatabaseMetadata { schemas })
    }
}

} // verus!
