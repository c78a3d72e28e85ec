//! What can be said of a snapshot once it has been read: how much each schema
//! holds, and which schemas a report is to show.

use crate::metadata::{
    function_models, schema_models, DatabaseMetadata, DatabaseModel, FunctionMetadata,
    FunctionModel, RoutineKind, SchemaMetadata, SchemaModel, lemma_models_keep_size,
};
use crate::name_map::NameMap;
use crate::text::{ascending, sorted_names, texts};
use vstd::prelude::*;

verus! {

/// How many entities of each kind there are.
pub struct Counts {
    pub tables: nat,
    pub views: nat,
    pub enums: nat,
    pub functions: nat,
    pub procedures: nat,
    pub triggers: nat,
}

impl Counts {
    /// No entity of any kind.
    pub open spec fn zero() -> Counts {
        Counts { tables: 0, views: 0, enums: 0, functions: 0, procedures: 0, triggers: 0 }
    }

    /// The number of entities of all kinds together.
    pub open spec fn total(self) -> nat {
        self.tables + self.views + self.enums + self.functions + self.procedures + self.triggers
    }

    /// The counts of two groups taken together.
    pub open spec fn plus(self, other: Counts) -> Counts {
        Counts {
            tables: self.tables + other.tables,
            views: self.views + other.views,
            enums: self.enums + other.enums,
            functions: self.functions + other.functions,
            procedures: self.procedures + other.procedures,
            triggers: self.triggers + other.triggers,
        }
    }
}

/// The test that a routine of the given name is of the given kind.
pub open spec fn has_kind(functions: Map<Seq<char>, FunctionModel>, kind: RoutineKind) -> spec_fn(
    Seq<char>,
) -> bool {
    |name: Seq<char>| functions[name].kind == Some(kind)
}

/// The names of the routines of the given kind.
pub open spec fn of_kind(functions: Map<Seq<char>, FunctionModel>, kind: RoutineKind) -> Set<
    Seq<char>,
> {
    functions.dom().filter(has_kind(functions, kind))
}

/// The counts of one schema. Aggregates, window functions and routines of
/// unknown kind are counted under no heading.
pub open spec fn counts_of(schema: SchemaModel) -> Counts {
    Counts {
        tables: schema.tables.len(),
        views: schema.views.len(),
        enums: schema.enums.len(),
        functions: of_kind(schema.functions, RoutineKind::Function).len(),
        procedures: of_kind(schema.functions, RoutineKind::Procedure).len(),
        triggers: of_kind(schema.functions, RoutineKind::Trigger).len(),
    }
}

/// The counts of the named schemas taken together.
pub open spec fn counts_sum(db: DatabaseModel, names: Seq<Seq<char>>) -> Counts
    decreases names.len(),
{
    if names.len() == 0 {
        Counts::zero()
    } else {
        counts_sum(db, names.drop_last()).plus(counts_of(db.schemas[names.last()]))
    }
}

/// The line of a summary for one schema, or for all of them together.
#[derive(Debug, Clone, PartialEq, Eq)]
pub struct SchemaSummary {
    pub schema: String,
    pub tables: usize,
    pub views: usize,
    pub enums: usize,
    pub functions: usize,
    pub procedures: usize,
    pub triggers: usize,
    pub total: usize,
}

impl SchemaSummary {
    /// The counts that the line shows.
    pub open spec fn counts(self) -> Counts {
        Counts {
            tables: self.tables as nat,
            views: self.views as nat,
            enums: self.enums as nat,
            functions: self.functions as nat,
            procedures: self.procedures as nat,
            triggers: self.triggers as nat,
        }
    }

    /// The line shows what `counts` says, with the sum as its total.
    pub open spec fn shows(self, schema: Seq<char>, counts: Counts) -> bool {
        self.schema@ == schema && self.counts() == counts && self.total == counts.total()
    }
}

/// The summary of a snapshot: one line for each schema, in ascending order of
/// the schemas' names, and a last line for all of them together.
#[derive(Debug, Clone, PartialEq, Eq)]
pub struct MetadataSummary {
    pub schemas: Vec<SchemaSummary>,
    pub totals: SchemaSummary,
}

/// The names of the lines, in order.
pub open spec fn line_names(lines: Seq<SchemaSummary>) -> Seq<Seq<char>> {
    lines.map_values(|line: SchemaSummary| line.schema@)
}

/// The heading of the last line.
pub open spec fn totals_heading() -> Seq<char> {
    "TOTAL"@
}

impl MetadataSummary {
    /// The summary is the one of `db`: the lines list the schemas of `db`,
    /// each once and in ascending order, each line shows the counts of its
    /// schema, and the last line shows the sums.
    pub open spec fn summarizes(self, db: DatabaseModel) -> bool {
        let names = line_names(self.schemas@);
        &&& ascending(names)
        &&& names.no_duplicates()
        &&& names.to_set() == db.schemas.dom()
        &&& forall|i: int|
            0 <= i < self.schemas@.len() ==> (#[trigger] self.schemas@[i]).shows(
                names[i],
                counts_of(db.schemas[names[i]]),
            )
        &&& self.totals.shows(totals_heading(), counts_sum(db, names))
    }
}

/// The sum of a part of the schemas is no more than the sum of all of them.
pub proof fn lemma_counts_sum_grows(db: DatabaseModel, names: Seq<Seq<char>>, n: int)
    requires
        0 <= n <= names.len(),
    ensures
        counts_sum(db, names.take(n)).total() <= counts_sum(db, names).total(),
    decreases names.len() - n,
{
    if n == names.len() {
        assert(names.take(n) =~= names);
    } else {
        lemma_counts_sum_grows(db, names, n + 1);
        assert(names.take(n + 1).drop_last() =~= names.take(n));
    }
}

/// Counts the routines of one kind.
pub fn count_kind(functions: &NameMap<FunctionMetadata>, kind: RoutineKind) -> (n: usize)
    ensures
        n == of_kind(function_models(functions@), kind).len(),
{
    let len = functions.len();
    let ghost models = function_models(functions@);
    let ghost order = functions.order();
    let ghost wanted = has_kind(models, kind);
    let mut n: usize = 0;
    let mut i: usize = 0;
    assert(order.take(0).to_set() =~= Set::<Seq<char>>::empty());
    assert(order.take(0).to_set().filter(wanted) =~= Set::<Seq<char>>::empty());
    while i < len
        invariant
            i <= len,
            len == order.len(),
            order == functions.order(),
            functions.listed(),
            models == function_models(functions@),
            wanted == has_kind(models, kind),
            n <= i,
            order.take(i as int).to_set().filter(wanted).finite(),
            n == order.take(i as int).to_set().filter(wanted).len(),
        decreases len - i,
    {
        let ghost seen = order.take(i as int).to_set();
        let ghost name = order[i as int];
        let value = functions.value_at(i);
        proof {
            assert(order.take(i as int + 1) =~= order.take(i as int).push(name));
            order.take(i as int).lemma_push_to_set_commute(name);
            assert(order.take(i as int + 1).to_set() =~= seen.insert(name));
            assert(!seen.contains(name)) by {
                if seen.contains(name) {
                    let j = choose|j: int| 0 <= j < i && order.take(i as int)[j] == name;
                    assert(order[j] == order[i as int]);
                }
            }
            assert(models[name] == value@);
        }
        let counted = match value.kind {
            Some(k) => k == kind,
            None => false,
        };
        if counted {
            assert(seen.insert(name).filter(wanted) =~= seen.filter(wanted).insert(name));
            n += 1;
        } else {
            assert(seen.insert(name).filter(wanted) =~= seen.filter(wanted));
        }
        i += 1;
    }
    assert(order.take(len as int) =~= order);
    assert(models.dom() =~= functions@.dom());
    n
}

/// The line of one schema, or nothing when its total does not fit the machine's numbers.
pub fn summarize_schema(name: &str, schema: &SchemaMetadata) -> (r: Option<SchemaSummary>)
    ensures
        match r {
            Some(line) => line.shows(name@, counts_of(schema@)),
            None => counts_of(schema@).total() > usize::MAX,
        },
{
    let tables = schema.tables.len();
    let views = schema.views.len();
    let enums = schema.enums.len();
    proof {
        lemma_models_keep_size(schema.tables@, |t: crate::metadata::TableMetadata| t@);
        lemma_models_keep_size(schema.views@, |v: crate::metadata::ViewMetadata| v@);
        lemma_models_keep_size(schema.enums@, |e: crate::metadata::EnumMetadata| e@);
    }
    let functions = count_kind(&schema.functions, RoutineKind::Function);
    let procedures = count_kind(&schema.functions, RoutineKind::Procedure);
    let triggers = count_kind(&schema.functions, RoutineKind::Trigger);
    let total = match tables.checked_add(views) {
        Some(t) => t,
        None => { return None; },
    };
    let total = match total.checked_add(enums) {
        Some(t) => t,
        None => { return None; },
    };
    let total = match total.checked_add(functions) {
        Some(t) => t,
        None => { return None; },
    };
    let total = match total.checked_add(procedures) {
        Some(t) => t,
        None => { return None; },
    };
    let total = match total.checked_add(triggers) {
        Some(t) => t,
        None => { return None; },
    };
    Some(
        SchemaSummary {
            schema: String::from_str(name),
            tables,
            views,
            enums,
            functions,
            procedures,
            triggers,
            total,
        },
    )
}

/// The snapshot that was read, for reports to draw on.
#[derive(Debug, Clone)]
pub struct ModelManager {
    pub metadata: DatabaseMetadata,
}

/// The views of the requested names, in order.
pub open spec fn requested_names(requested: Seq<&str>) -> Seq<Seq<char>> {
    requested.map_values(|name: &str| name@)
}

/// The test that a schema of the given name was read.
pub open spec fn was_read(db: DatabaseModel) -> spec_fn(Seq<char>) -> bool {
    |name: Seq<char>| db.schemas.contains_key(name)
}

impl ModelManager {
    /// A manager for a snapshot.
    pub fn new(metadata: DatabaseMetadata) -> (r: Self)
        ensures
            r.metadata == metadata,
    {
        ModelManager { metadata }
    }

    /// The summary of the snapshot, or nothing when the number of all
    /// entities together does not fit the machine's numbers.
    pub fn summary(&self) -> (r: Option<MetadataSummary>)
        ensures
            r matches Some(s) ==> s.summarizes(self.metadata@),
            r is None ==> exists|names: Seq<Seq<char>>|
                names.to_set() == self.metadata@.schemas.dom() && names.no_duplicates()
                    && #[trigger] counts_sum(self.metadata@, names).total() > usize::MAX,
    {
        let db = &self.metadata;
        let ghost model = db@;
        let names = sorted_names(db.schemas.keys());
        let ghost order = db.schemas.order();
        let ghost sorted = texts(names@);
        proof {
            assert(model.schemas.dom() =~= db.schemas@.dom());
            order.lemma_multiset_has_no_duplicates();
            sorted.lemma_multiset_has_no_duplicates_conv();
            assert(sorted.to_set() =~= order.to_set()) by {
                assert forall|name: Seq<char>| sorted.to_set().contains(name)
                    == order.to_set().contains(name) by {
                    vstd::seq_lib::to_multiset_contains(sorted, name);
                    vstd::seq_lib::to_multiset_contains(order, name);
                }
            }
        }
        let mut lines: Vec<SchemaSummary> = Vec::new();
        let mut totals = SchemaSummary {
            schema: String::from_str("TOTAL"),
            tables: 0,
            views: 0,
            enums: 0,
            functions: 0,
            procedures: 0,
            triggers: 0,
            total: 0,
        };
        assert(line_names(lines@) =~= sorted.take(0));
        let mut i: usize = 0;
        while i < names.len()
            invariant
                i <= names.len(),
                sorted == texts(names@),
                model == self.metadata@,
                db == &self.metadata,
                sorted.to_set() == model.schemas.dom(),
                sorted.no_duplicates(),
                lines@.len() == i,
                line_names(lines@) == sorted.take(i as int),
                forall|j: int|
                    0 <= j < i ==> (#[trigger] lines@[j]).shows(
                        sorted[j],
                        counts_of(model.schemas[sorted[j]]),
                    ),
                totals.shows(totals_heading(), counts_sum(model, sorted.take(i as int))),
            decreases names.len() - i,
        {
            let name = &names[i];
            let ghost key = sorted[i as int];
            proof {
                assert(sorted.to_set().contains(key));
                assert(sorted.take(i as int + 1).drop_last() =~= sorted.take(i as int));
                lemma_counts_sum_grows(model, sorted, i as int + 1);
            }
            let schema = match db.schemas.get(name.as_str()) {
                Some(schema) => schema,
                None => { return None; },
            };
            assert(schema@ == model.schemas[key]);
            let line = match summarize_schema(name.as_str(), schema) {
                Some(line) => line,
                None => { return None; },
            };
            let total = match totals.total.checked_add(line.total) {
                Some(t) => t,
                None => { return None; },
            };
            totals.tables = totals.tables + line.tables;
            totals.views = totals.views + line.views;
            totals.enums = totals.enums + line.enums;
            totals.functions = totals.functions + line.functions;
            totals.procedures = totals.procedures + line.procedures;
            totals.triggers = totals.triggers + line.triggers;
            totals.total = total;
            let ghost before = lines@;
            lines.push(line);
            assert(line_names(lines@) =~= line_names(before).push(key));
            assert(sorted.take(i as int + 1) =~= sorted.take(i as int).push(key));
            i += 1;
        }
        assert(sorted.take(names.len() as int) =~= sorted);
        Some(MetadataSummary { schemas: lines, totals })
    }

    /// The schemas that a report is to show.
    ///
    /// With no name requested these are all schemas, in stored order. Otherwise
    /// they are the requested names for which a schema was read, in the order
    /// of the request.
    pub fn schemas_to_display(&self, requested: &[&str]) -> (shown: Vec<String>)
        ensures
            texts(shown@) == if requested@.len() == 0 {
                self.metadata.schemas.order()
            } else {
                requested_names(requested@).filter(was_read(self.metadata@))
            },
    {
        if requested.len() == 0 {
            return self.metadata.schemas.keys();
        }
        let ghost all = requested_names(requested@);
        let ghost known = was_read(self.metadata@);
        let mut shown: Vec<String> = Vec::new();
        assert(texts(shown@) =~= all.take(0).filter(known));
        let mut i: usize = 0;
        while i < requested.len()
            invariant
                i <= requested.len(),
                all == requested_names(requested@),
                known == was_read(self.metadata@),
                texts(shown@) == all.take(i as int).filter(known),
            decreases requested.len() - i,
        {
            let name: &str = requested[i];
            let ghost before = texts(shown@);
            proof {
                assert(all.take(i as int + 1) =~= all.take(i as int).push(name@));
                Seq::lemma_filter_push(all.take(i as int), name@, known);
                assert(schema_models(self.metadata.schemas@).dom() =~= self.metadata.schemas@.dom());
            }
            if self.metadata.schemas.contains_key(name) {
                shown.push(String::from_str(name));
                assert(texts(shown@) =~= before.push(name@));
            }
            i += 1;
        }
        assert(all.take(requested@.len() as int) =~= all);
        shown
    }
}

} // verus!
