//! The introspector for PostgreSQL.

use crate::error::DbResult;
use crate::introspection::{
    assemble_database, assemble_schema, assemble_table, assemble_view, group_enums,
    ColumnIntrospectionRow, EntityRows, EnumIntrospectionRow, ForeignKeyIntrospectionRow,
    Introspection, Introspector, SchemaIntrospection, SchemaRows,
};
use crate::metadata::{EnumMetadata, TableMetadata, ViewMetadata};
use crate::name_map::NameMap;
use crate::text::{has_prefix, str_eq, str_has_prefix, texts};
use crate::types::postgres::PostgresTypeMapper;
use vstd::prelude::*;

verus! {

/// Whether a schema belongs to PostgreSQL itself: the information schema, and
/// every schema whose name begins with `pg_`, which PostgreSQL reserves for
/// its own use (the catalog, the storage for oversized values, the schemas of
/// temporary objects).
pub open spec fn postgres_system_schema(name: Seq<char>) -> bool {
    name == "information_schema"@ || has_prefix(name, "pg_"@)
}

/// Tells whether a schema belongs to PostgreSQL itself.
pub fn is_postgres_system_schema(name: &str) -> (r: bool)
    ensures
        r == postgres_system_schema(name@),
{
    str_eq(name, "information_schema") || str_has_prefix(name, "pg_")
}

/// The introspector for PostgreSQL catalogs.
#[derive(Debug, Clone, Copy)]
pub struct PostgresIntrospector {
    pub type_mapper: PostgresTypeMapper,
}

impl PostgresIntrospector {
    /// An introspector with the PostgreSQL type mapper.
    pub fn new() -> (r: Self)
        ensures
            r.type_mapper == PostgresTypeMapper,
    {
        PostgresIntrospector { type_mapper: PostgresTypeMapper }
    }
}

impl Introspector for PostgresIntrospector {
    type Mapper = PostgresTypeMapper;

    open spec fn type_mapper(&self) -> PostgresTypeMapper {
        self.type_mapper
    }

    open spec fn is_system_schema(&self, name: Seq<char>) -> bool {
        postgres_system_schema(name)
    }

    fn list_user_schemas(&self, all_schemas: DbResult<Vec<String>>) -> (r: DbResult<Vec<String>>) {
        let names = match all_schemas {
            Ok(names) => names,
            Err(e) => { return Err(e); },
        };
        let ghost all = texts(names@);
        let ghost kept_of = |name: Seq<char>| !self.is_system_schema(name);
        let mut kept: Vec<String> = Vec::new();
        assert(texts(kept@) =~= all.take(0).filter(kept_of));
        let ghost given = names@;
        for name in it: names
            invariant
                it.seq() == given,
                all == texts(given),
                kept_of == (|name: Seq<char>| !self.is_system_schema(name)),
                texts(kept@) == all.take(it.index() as int).filter(kept_of),
        {
            let ghost i = it.index() as int;
            let ghost before = texts(kept@);
            proof {
                assert(all.take(i + 1) =~= all.take(i).push(name@));
                Seq::lemma_filter_push(all.take(i), name@, kept_of);
            }
            if !is_postgres_system_schema(name.as_str()) {
                kept.push(name);
                assert(texts(kept@) =~= before.push(name@));
            }
        }
        assert(all.take(all.len() as int) =~= all);
        Ok(kept)
    }

    fn introspect(&self, schemas: Vec<SchemaRows>) -> (r: DbResult<Introspection>) {
        Ok(assemble_database(&self.type_mapper, schemas))
    }

    fn introspect_schema(
        &self,
        schema_name: &str,
        entities: DbResult<Vec<EntityRows>>,
        enums: DbResult<Vec<EnumIntrospectionRow>>,
    ) -> (r: DbResult<SchemaIntrospection>) {
        assemble_schema(&self.type_mapper, schema_name, entities, enums)
    }

    fn introspect_table(
        &self,
        schema_name: &str,
        table_name: &str,
        columns: DbResult<Vec<ColumnIntrospectionRow>>,
        foreign_keys: DbResult<Vec<ForeignKeyIntrospectionRow>>,
    ) -> (r: DbResult<TableMetadata>) {
        assemble_table(&self.type_mapper, schema_name, table_name, columns, foreign_keys)
    }

    fn introspect_view(
        &self,
        schema_name: &str,
        view_name: &str,
        columns: DbResult<Vec<ColumnIntrospectionRow>>,
        definition: DbResult<Option<String>>,
    ) -> (r: DbResult<ViewMetadata>) {
        assemble_view(&self.type_mapper, schema_name, view_name, columns, definition)
    }

    fn introspect_enums_for_schema(
        &self,
        schema_name: &str,
        rows: DbResult<Vec<EnumIntrospectionRow>>,
    ) -> (r: DbResult<NameMap<EnumMetadata>>) {
        match rows {
            Ok(list) => Ok(group_enums(schema_name, list)),
            Err(e) => Err(e),
        }
    }
}

} // verus!
