//! The type mapper for PostgreSQL catalogs.
//!
//! A descriptor is resolved in this order:
//!
//! 1. Arrays. When an underlying type name is given and either the descriptor
//!    is the catalog's array marker or the name carries the array prefix, one
//!    array level is taken off the name and the element is resolved in turn,
//!    with the element's name as its descriptor.
//! 2. User-defined types. When the descriptor is the catalog's marker for them
//!    and an underlying type name is given, the type is an enumeration of
//!    that name. Composite types and domains cannot be told from enumerations
//!    here. The key-value extension type `hstore` is the one exception: it is
//!    normalized to `Json`.
//! 3. Built-in types, by name and letter case aside.
//! 4. Anything else is `Unsupported` and keeps its descriptor.
//!
//! Nesting is followed for at most [`MAX_ARRAY_DEPTH`] levels; what lies
//! deeper is `Unsupported`.

use crate::metadata::{AxionDataType, AxionTypeModel};
use crate::text::{chars_eq_ignoring_case, chars_of, opt_str, same_ignoring_case, str_eq};
use crate::types::TypeMapper;
use vstd::prelude::*;
use vstd::string::*;

verus! {

/// The number of array levels that the mapper follows.
pub const MAX_ARRAY_DEPTH: usize = 32;

/// The descriptor that the catalog gives to every array column.
pub open spec fn array_marker() -> Seq<char> {
    "ARRAY"@
}

/// The descriptor that the catalog gives to every column of a user-defined type.
pub open spec fn user_defined_marker() -> Seq<char> {
    "USER-DEFINED"@
}

/// The name of the key-value extension type.
pub open spec fn key_value_type() -> Seq<char> {
    "hstore"@
}

/// Whether an underlying type name names an array: such names begin with an underscore.
pub open spec fn names_array(name: Seq<char>) -> bool {
    name.len() > 0 && name[0] == '_'
}

/// The underlying type name with one array level taken off.
pub open spec fn element_name(name: Seq<char>) -> Seq<char> {
    if names_array(name) {
        name.skip(1)
    } else {
        name
    }
}

/// Whether a descriptor and an underlying type name describe an array.
pub open spec fn is_array(raw: Seq<char>, udt: Option<Seq<char>>) -> bool {
    udt matches Some(name) && (raw == array_marker() || names_array(name))
}

/// The built-in type that a descriptor names, letter case aside.
pub open spec fn builtin(raw: Seq<char>) -> Option<AxionTypeModel> {
    if same_ignoring_case(raw, "integer"@) || same_ignoring_case(raw, "int"@) || same_ignoring_case(
        raw,
        "int4"@,
    ) {
        Some(AxionTypeModel::Integer(32))
    } else if same_ignoring_case(raw, "bigint"@) || same_ignoring_case(raw, "int8"@) {
        Some(AxionTypeModel::Integer(64))
    } else if same_ignoring_case(raw, "smallint"@) || same_ignoring_case(raw, "int2"@) {
        Some(AxionTypeModel::Integer(16))
    } else if same_ignoring_case(raw, "character varying"@) || same_ignoring_case(raw, "varchar"@)
        || same_ignoring_case(raw, "text"@) || same_ignoring_case(raw, "name"@)
        || same_ignoring_case(raw, "citext"@) || same_ignoring_case(raw, "char"@)
        || same_ignoring_case(raw, "bpchar"@) {
        Some(AxionTypeModel::Text)
    } else if same_ignoring_case(raw, "boolean"@) || same_ignoring_case(raw, "bool"@) {
        Some(AxionTypeModel::Boolean)
    } else if same_ignoring_case(raw, "date"@) {
        Some(AxionTypeModel::Date)
    } else if same_ignoring_case(raw, "timestamp without time zone"@) || same_ignoring_case(
        raw,
        "timestamp"@,
    ) {
        Some(AxionTypeModel::Timestamp)
    } else if same_ignoring_case(raw, "timestamp with time zone"@) || same_ignoring_case(
        raw,
        "timestamptz"@,
    ) {
        Some(AxionTypeModel::TimestampTz)
    } else if same_ignoring_case(raw, "time without time zone"@) || same_ignoring_case(
        raw,
        "time"@,
    ) {
        Some(AxionTypeModel::Time)
    } else if same_ignoring_case(raw, "numeric"@) || same_ignoring_case(raw, "decimal"@) {
        Some(AxionTypeModel::Numeric)
    } else if same_ignoring_case(raw, "real"@) || same_ignoring_case(raw, "float4"@) {
        Some(AxionTypeModel::Float(32))
    } else if same_ignoring_case(raw, "double precision"@) || same_ignoring_case(raw, "float8"@) {
        Some(AxionTypeModel::Float(64))
    } else if same_ignoring_case(raw, "bytea"@) {
        Some(AxionTypeModel::Bytes)
    } else if same_ignoring_case(raw, "uuid"@) {
        Some(AxionTypeModel::Uuid)
    } else if same_ignoring_case(raw, "json"@) {
        Some(AxionTypeModel::Json)
    } else if same_ignoring_case(raw, "jsonb"@) {
        Some(AxionTypeModel::JsonB)
    } else if same_ignoring_case(raw, "inet"@) || same_ignoring_case(raw, "cidr"@) {
        Some(AxionTypeModel::Inet)
    } else {
        None
    }
}

/// The type of something that is not an array: a user-defined type, a
/// built-in type, or `Unsupported` with the descriptor as it was given.
pub open spec fn scalar(raw: Seq<char>, udt: Option<Seq<char>>) -> AxionTypeModel {
    if raw == user_defined_marker() && udt is Some {
        if udt->0 == key_value_type() {
            AxionTypeModel::Json
        } else {
            AxionTypeModel::Enum(udt->0)
        }
    } else {
        match builtin(raw) {
            Some(t) => t,
            None => AxionTypeModel::Unsupported(raw),
        }
    }
}

/// The type of a descriptor when at most `budget` array levels are followed.
///
/// Each array level takes one level off the underlying type name and is
/// resolved with one level less to spend; an array met with nothing left to
/// spend is `Unsupported`.
pub open spec fn resolve(raw: Seq<char>, udt: Option<Seq<char>>, budget: nat) -> AxionTypeModel
    decreases budget,
{
    if is_array(raw, udt) {
        if budget == 0 {
            AxionTypeModel::Unsupported(raw)
        } else {
            let element = element_name(udt->0);
            AxionTypeModel::Array(Box::new(resolve(element, Some(element), (budget - 1) as nat)))
        }
    } else {
        scalar(raw, udt)
    }
}

/// `t` inside `levels` array levels.
pub open spec fn nested(t: AxionTypeModel, levels: nat) -> AxionTypeModel
    decreases levels,
{
    if levels == 0 {
        t
    } else {
        AxionTypeModel::Array(Box::new(nested(t, (levels - 1) as nat)))
    }
}

/// `name` behind `levels` array prefixes.
pub open spec fn prefixed(name: Seq<char>, levels: nat) -> Seq<char>
    decreases levels,
{
    if levels == 0 {
        name
    } else {
        seq!['_'] + prefixed(name, (levels - 1) as nat)
    }
}

/// The mapper for PostgreSQL.
#[derive(Debug, Clone, Copy)]
pub struct PostgresTypeMapper;

impl Default for PostgresTypeMapper {
    fn default() -> (r: Self)
        ensures
            r == PostgresTypeMapper,
    {
        PostgresTypeMapper
    }
}

/// Looks a descriptor up among the built-in types.
fn builtin_type(raw: &str) -> (r: Option<AxionDataType>)
    ensures
        match r {
            Some(t) => builtin(raw@) == Some(t@),
            None => builtin(raw@) is None,
        },
{
    let c = chars_of(raw);
    if chars_eq_ignoring_case(&c, "integer") || chars_eq_ignoring_case(&c, "int")
        || chars_eq_ignoring_case(&c, "int4") {
        Some(AxionDataType::Integer(32))
    } else if chars_eq_ignoring_case(&c, "bigint") || chars_eq_ignoring_case(&c, "int8") {
        Some(AxionDataType::Integer(64))
    } else if chars_eq_ignoring_case(&c, "smallint") || chars_eq_ignoring_case(&c, "int2") {
        Some(AxionDataType::Integer(16))
    } else if chars_eq_ignoring_case(&c, "character varying") || chars_eq_ignoring_case(
        &c,
        "varchar",
    ) || chars_eq_ignoring_case(&c, "text") || chars_eq_ignoring_case(&c, "name")
        || chars_eq_ignoring_case(&c, "citext") || chars_eq_ignoring_case(&c, "char")
        || chars_eq_ignoring_case(&c, "bpchar") {
        Some(AxionDataType::Text)
    } else if chars_eq_ignoring_case(&c, "boolean") || chars_eq_ignoring_case(&c, "bool") {
        Some(AxionDataType::Boolean)
    } else if chars_eq_ignoring_case(&c, "date") {
        Some(AxionDataType::Date)
    } else if chars_eq_ignoring_case(&c, "timestamp without time zone")
        || chars_eq_ignoring_case(&c, "timestamp") {
        Some(AxionDataType::Timestamp)
    } else if chars_eq_ignoring_case(&c, "timestamp with time zone") || chars_eq_ignoring_case(
        &c,
        "timestamptz",
    ) {
        Some(AxionDataType::TimestampTz)
    } else if chars_eq_ignoring_case(&c, "time without time zone") || chars_eq_ignoring_case(
        &c,
        "time",
    ) {
        Some(AxionDataType::Time)
    } else if chars_eq_ignoring_case(&c, "numeric") || chars_eq_ignoring_case(&c, "decimal") {
        Some(AxionDataType::Numeric)
    } else if chars_eq_ignoring_case(&c, "real") || chars_eq_ignoring_case(&c, "float4") {
        Some(AxionDataType::Float(32))
    } else if chars_eq_ignoring_case(&c, "double precision") || chars_eq_ignoring_case(
        &c,
        "float8",
    ) {
        Some(AxionDataType::Float(64))
    } else if chars_eq_ignoring_case(&c, "bytea") {
        Some(AxionDataType::Bytes)
    } else if chars_eq_ignoring_case(&c, "uuid") {
        Some(AxionDataType::Uuid)
    } else if chars_eq_ignoring_case(&c, "json") {
        Some(AxionDataType::Json)
    } else if chars_eq_ignoring_case(&c, "jsonb") {
        Some(AxionDataType::JsonB)
    } else if chars_eq_ignoring_case(&c, "inet") || chars_eq_ignoring_case(&c, "cidr") {
        Some(AxionDataType::Inet)
    } else {
        None
    }
}

/// Resolves what is not an array.
fn scalar_type(raw: &str, udt: Option<&str>) -> (t: AxionDataType)
    ensures
        t@ == scalar(raw@, opt_str(udt)),
{
    if let Some(name) = udt {
        if str_eq(raw, "USER-DEFINED") {
            if str_eq(name, "hstore") {
                return AxionDataType::Json;
            } else {
                return AxionDataType::Enum(String::from_str(name));
            }
        }
    }
    match builtin_type(raw) {
        Some(t) => t,
        None => AxionDataType::Unsupported(String::from_str(raw)),
    }
}

/// Tells whether an underlying type name begins with the array prefix.
fn has_array_prefix(name: &str) -> (r: bool)
    ensures
        r == names_array(name@),
{
    name.unicode_len() > 0 && name.get_char(0) == '_'
}

/// Resolves a descriptor, following at most `budget` array levels.
fn resolve_within(raw: &str, udt: Option<&str>, budget: usize) -> (t: AxionDataType)
    ensures
        t@ == resolve(raw@, opt_str(udt), budget as nat),
    decreases budget,
{
    if let Some(name) = udt {
        let named_as_array = has_array_prefix(name);
        if named_as_array || str_eq(raw, "ARRAY") {
            if budget == 0 {
                return AxionDataType::Unsupported(String::from_str(raw));
            }
            let element: &str = if named_as_array {
                name.substring_char(1, name.unicode_len())
            } else {
                name
            };
            let inner = resolve_within(element, Some(element), budget - 1);
            return AxionDataType::Array(Box::new(inner));
        }
    }
    scalar_type(raw, udt)
}

impl TypeMapper for PostgresTypeMapper {
    open spec fn normalized(&self, sql_type: Seq<char>, udt_name: Option<Seq<char>>) -> AxionTypeModel {
        resolve(sql_type, udt_name, MAX_ARRAY_DEPTH as nat)
    }

    fn sql_to_axion(&self, sql_type: &str, udt_name: Option<&str>) -> (t: AxionDataType)
        ensures
            t@.array_depth() <= MAX_ARRAY_DEPTH,
    {
        proof {
            lemma_depth_within_budget(sql_type@, opt_str(udt_name), MAX_ARRAY_DEPTH as nat);
        }
        resolve_within(sql_type, udt_name, MAX_ARRAY_DEPTH)
    }
}

/// A resolved type never has more array levels than were allowed.
pub proof fn lemma_depth_within_budget(raw: Seq<char>, udt: Option<Seq<char>>, budget: nat)
    ensures
        resolve(raw, udt, budget).array_depth() <= budget,
    decreases budget,
{
    if is_array(raw, udt) && budget > 0 {
        let element = element_name(udt->0);
        lemma_depth_within_budget(element, Some(element), (budget - 1) as nat);
    }
}

/// What is not an array is resolved in the same way whatever the budget.
pub proof fn lemma_scalar_needs_no_budget(raw: Seq<char>, udt: Option<Seq<char>>, budget: nat)
    requires
        !is_array(raw, udt),
    ensures
        resolve(raw, udt, budget) == scalar(raw, udt),
{
}

/// An array is its element inside one array level: the element is resolved
/// under its own name, with one level less to spend.
pub proof fn lemma_array_wraps_element(raw: Seq<char>, name: Seq<char>, budget: nat)
    requires
        is_array(raw, Some(name)),
        budget > 0,
    ensures
        resolve(raw, Some(name), budget) == AxionTypeModel::Array(
            Box::new(
                resolve(element_name(name), Some(element_name(name)), (budget - 1) as nat),
            ),
        ),
{
}

/// A name behind `levels` array prefixes resolves to the type of the name
/// inside `levels` array levels, as long as the budget covers the levels.
pub proof fn lemma_prefixed_name_resolves_nested(
    raw: Seq<char>,
    base: Seq<char>,
    levels: nat,
    budget: nat,
)
    requires
        !names_array(base),
        base != array_marker(),
        1 <= levels <= budget,
    ensures
        resolve(raw, Some(prefixed(base, levels)), budget) == nested(
            scalar(base, Some(base)),
            levels,
        ),
    decreases levels,
{
    let name = prefixed(base, levels);
    let inner = prefixed(base, (levels - 1) as nat);
    assert(name[0] == '_');
    assert(name.skip(1) =~= inner);
    assert(element_name(name) == inner);
    if levels == 1 {
        assert(inner == base);
        assert(!is_array(base, Some(base)));
        assert(nested(scalar(base, Some(base)), 1) == AxionTypeModel::Array(
            Box::new(nested(scalar(base, Some(base)), 0)),
        ));
    } else {
        lemma_prefixed_name_resolves_nested(inner, base, (levels - 1) as nat, (budget - 1) as nat);
    }
}

/// Array mapping composes: an array column whose underlying name carries
/// `levels` array prefixes before `base` has the type of `base`, as the mapper
/// gives it for `base` alone, inside `levels` array levels. This holds for
/// every nesting that the mapper follows.
pub proof fn lemma_array_mapping_composes(mapper: PostgresTypeMapper, base: Seq<char>, levels: nat)
    requires
        !names_array(base),
        base != array_marker(),
        1 <= levels <= MAX_ARRAY_DEPTH,
    ensures
        mapper.normalized(array_marker(), Some(prefixed(base, levels))) == nested(
            mapper.normalized(base, Some(base)),
            levels,
        ),
        nested(mapper.normalized(base, Some(base)), levels).array_depth() == levels,
{
    lemma_prefixed_name_resolves_nested(array_marker(), base, levels, MAX_ARRAY_DEPTH as nat);
    lemma_scalar_needs_no_budget(base, Some(base), MAX_ARRAY_DEPTH as nat);
    lemma_scalar_is_no_array(base, Some(base));
    lemma_nested_depth(scalar(base, Some(base)), levels);
}

/// The type of something that is not an array has no array level.
pub proof fn lemma_scalar_is_no_array(raw: Seq<char>, udt: Option<Seq<char>>)
    ensures
        scalar(raw, udt).array_depth() == 0,
{
}

/// Nesting a type adds the levels to its depth.
pub proof fn lemma_nested_depth(t: AxionTypeModel, levels: nat)
    ensures
        nested(t, levels).array_depth() == t.array_depth() + levels,
    decreases levels,
{
    if levels > 0 {
        lemma_nested_depth(t, (levels - 1) as nat);
    }
}

} // verus!
