//! The snapshot as a nested key-value document.
//!
//! A document is what a structured text format can hold: nothing, a truth
//! value, a number, a text, a list, or an object whose fields are named. The
//! metadata tree is written as a document with stable field names and read
//! back from one; reading looks a field up by its name, so the order of the
//! fields of an object does not matter.
//!
//! This file holds the documents themselves and how texts, numbers, lists and
//! maps keyed by name are written; how each part of the tree is written is
//! said in `tree`.

use crate::name_map::NameMap;
use crate::text::str_eq;
use vstd::prelude::*;
use vstd::string::*;

pub mod tree;

verus! {

/// A nested key-value document.
#[derive(Debug, PartialEq, Eq)]
pub enum Document {
    Null,
    Bool(bool),
    Number(i64),
    Text(String),
    List(Vec<Document>),
    Object(Vec<(String, Document)>),
}

/// A document as a mathematical value.
pub enum DocumentModel {
    Null,
    Bool(bool),
    Number(i64),
    Text(Seq<char>),
    List(Seq<DocumentModel>),
    Object(Seq<(Seq<char>, DocumentModel)>),
}

/// The models of the items of a list, in order.
pub open spec fn items_model(items: Seq<Document>) -> Seq<DocumentModel>
    decreases items,
{
    Seq::new(
        items.len(),
        |i: int|
            if 0 <= i < items.len() {
                items[i].view()
            } else {
                DocumentModel::Null
            },
    )
}

/// The models of the fields of an object, in order.
pub open spec fn fields_model(fields: Seq<(String, Document)>) -> Seq<(Seq<char>, DocumentModel)>
    decreases fields,
{
    Seq::new(
        fields.len(),
        |i: int|
            if 0 <= i < fields.len() {
                (fields[i].0@, fields[i].1.view())
            } else {
                (Seq::empty(), DocumentModel::Null)
            },
    )
}

impl View for Document {
    type V = DocumentModel;

    open spec fn view(&self) -> DocumentModel
        decreases self,
    {
        match self {
            Document::Null => DocumentModel::Null,
            Document::Bool(b) => DocumentModel::Bool(*b),
            Document::Number(n) => DocumentModel::Number(*n),
            Document::Text(t) => DocumentModel::Text(t@),
            Document::List(items) => DocumentModel::List(items_model(items@)),
            Document::Object(fields) => DocumentModel::Object(fields_model(fields@)),
        }
    }
}

/// The value of the first field of the given name among the fields from position `from` on.
pub open spec fn field_from(
    fields: Seq<(Seq<char>, DocumentModel)>,
    name: Seq<char>,
    from: int,
) -> Option<DocumentModel>
    decreases fields.len() - from,
{
    if from < 0 || from >= fields.len() {
        None
    } else if fields[from].0 == name {
        Some(fields[from].1)
    } else {
        field_from(fields, name, from + 1)
    }
}

/// The value of the first field of the given name.
pub open spec fn field(fields: Seq<(Seq<char>, DocumentModel)>, name: Seq<char>) -> Option<
    DocumentModel,
> {
    field_from(fields, name, 0)
}

/// A field whose name no earlier field bears is the one that is found under the name.
pub proof fn lemma_field_at(fields: Seq<(Seq<char>, DocumentModel)>, name: Seq<char>, at: int)
    requires
        0 <= at < fields.len(),
        fields[at].0 == name,
        forall|j: int| 0 <= j < at ==> (#[trigger] fields[j]).0 != name,
    ensures
        field(fields, name) == Some(fields[at].1),
{
    lemma_field_from(fields, name, at, 0);
}

proof fn lemma_field_from(
    fields: Seq<(Seq<char>, DocumentModel)>,
    name: Seq<char>,
    at: int,
    from: int,
)
    requires
        0 <= from <= at < fields.len(),
        fields[at].0 == name,
        forall|j: int| 0 <= j < at ==> (#[trigger] fields[j]).0 != name,
    ensures
        field_from(fields, name, from) == Some(fields[at].1),
    decreases at - from,
{
    if from < at {
        lemma_field_from(fields, name, at, from + 1);
    }
}

/// Looks a field up by name.
pub fn find_field<'a>(fields: &'a Vec<(String, Document)>, name: &str) -> (r: Option<&'a Document>)
    ensures
        match r {
            Some(d) => field(fields_model(fields@), name@) == Some(d@),
            None => field(fields_model(fields@), name@) is None,
        },
{
    let ghost all = fields_model(fields@);
    let mut i: usize = 0;
    while i < fields.len()
        invariant
            i <= fields.len(),
            all == fields_model(fields@),
            field(all, name@) == field_from(all, name@, i as int),
        decreases fields.len() - i,
    {
        assert(all[i as int] == (fields@[i as int].0@, fields@[i as int].1@));
        if str_eq(fields[i].0.as_str(), name) {
            return Some(&fields[i].1);
        }
        i += 1;
    }
    None
}

/// What can be written as a document and read back from one.
pub trait Documented: Sized {
    /// The mathematical value that stands for a value of the type.
    type Model;

    /// The model of the value.
    spec fn model(&self) -> Self::Model;

    /// The document of the value.
    spec fn document(&self) -> DocumentModel;

    /// The value that a document describes, if it describes one.
    spec fn read(d: DocumentModel) -> Option<Self::Model>;

    /// Writes the value as a document. Reading the document gives the value
    /// back. The document is never `Null`, which stands for a value that is
    /// absent.
    fn to_document(&self) -> (d: Document)
        ensures
            d@ == self.document(),
            Self::read(d@) == Some(self.model()),
            d@ !is Null,
    ;

    /// Reads a value from a document that describes one.
    fn from_document(d: &Document) -> (r: Option<Self>)
        ensures
            match r {
                Some(value) => Self::read(d@) == Some(value.model()),
                None => Self::read(d@) is None,
            },
    ;
}

impl Documented for String {
    type Model = Seq<char>;

    open spec fn model(&self) -> Seq<char> {
        self@
    }

    open spec fn document(&self) -> DocumentModel {
        DocumentModel::Text(self@)
    }

    open spec fn read(d: DocumentModel) -> Option<Seq<char>> {
        match d {
            DocumentModel::Text(t) => Some(t),
            _ => None,
        }
    }

    fn to_document(&self) -> (d: Document) {
        Document::Text(self.clone())
    }

    fn from_document(d: &Document) -> (r: Option<Self>) {
        match d {
            Document::Text(t) => Some(t.clone()),
            _ => None,
        }
    }
}

impl Documented for bool {
    type Model = bool;

    open spec fn model(&self) -> bool {
        *self
    }

    open spec fn document(&self) -> DocumentModel {
        DocumentModel::Bool(*self)
    }

    open spec fn read(d: DocumentModel) -> Option<bool> {
        match d {
            DocumentModel::Bool(b) => Some(b),
            _ => None,
        }
    }

    fn to_document(&self) -> (d: Document) {
        Document::Bool(*self)
    }

    fn from_document(d: &Document) -> (r: Option<Self>) {
        match d {
            Document::Bool(b) => Some(*b),
            _ => None,
        }
    }
}

impl Documented for i32 {
    type Model = i32;

    open spec fn model(&self) -> i32 {
        *self
    }

    open spec fn document(&self) -> DocumentModel {
        DocumentModel::Number(*self as i64)
    }

    open spec fn read(d: DocumentModel) -> Option<i32> {
        match d {
            DocumentModel::Number(n) => if i32::MIN <= n <= i32::MAX {
                Some(n as i32)
            } else {
                None
            },
            _ => None,
        }
    }

    fn to_document(&self) -> (d: Document) {
        Document::Number(*self as i64)
    }

    fn from_document(d: &Document) -> (r: Option<Self>) {
        match d {
            Document::Number(n) => {
                if -2147483648 <= *n && *n <= 2147483647 {
                    Some(*n as i32)
                } else {
                    None
                }
            },
            _ => None,
        }
    }
}

/// The model of a value that may be absent.
pub open spec fn optional_model<T: Documented>(o: Option<T>) -> Option<T::Model> {
    match o {
        Some(value) => Some(value.model()),
        None => None,
    }
}

/// The document of a value that may be absent: `Null` where it is.
pub open spec fn optional_document<T: Documented>(o: Option<T>) -> DocumentModel {
    match o {
        Some(value) => value.document(),
        None => DocumentModel::Null,
    }
}

/// The value, absent or not, that a document describes.
pub open spec fn read_optional<T: Documented>(d: DocumentModel) -> Option<Option<T::Model>> {
    match d {
        DocumentModel::Null => Some(None),
        _ => match T::read(d) {
            Some(value) => Some(Some(value)),
            None => None,
        },
    }
}

/// Writes a value that may be absent.
pub fn write_optional<T: Documented>(o: &Option<T>) -> (d: Document)
    ensures
        d@ == optional_document(*o),
        read_optional::<T>(d@) == Some(optional_model(*o)),
{
    match o {
        Some(value) => value.to_document(),
        None => Document::Null,
    }
}

/// Reads a value that may be absent.
pub fn parse_optional<T: Documented>(d: &Document) -> (r: Option<Option<T>>)
    ensures
        match r {
            Some(value) => read_optional::<T>(d@) == Some(optional_model(value)),
            None => read_optional::<T>(d@) is None,
        },
{
    match d {
        Document::Null => Some(None),
        _ => match T::from_document(d) {
            Some(value) => Some(Some(value)),
            None => None,
        },
    }
}

/// The models of the values of a list, in order.
pub open spec fn list_model<T: Documented>(items: Seq<T>) -> Seq<T::Model> {
    Seq::new(items.len(), |i: int| items[i].model())
}

/// The documents of the values of a list, in order.
pub open spec fn list_documents<T: Documented>(items: Seq<T>) -> Seq<DocumentModel> {
    Seq::new(items.len(), |i: int| items[i].document())
}

/// The values that the first `n` documents describe, if each describes one.
pub open spec fn read_items<T: Documented>(docs: Seq<DocumentModel>, n: int) -> Option<
    Seq<T::Model>,
>
    decreases n,
{
    if n <= 0 {
        Some(Seq::empty())
    } else {
        match (read_items::<T>(docs, n - 1), T::read(docs[n - 1])) {
            (Some(before), Some(value)) => Some(before.push(value)),
            _ => None,
        }
    }
}

impl<T: Documented> Documented for Vec<T> {
    type Model = Seq<T::Model>;

    open spec fn model(&self) -> Seq<T::Model> {
        list_model(self@)
    }

    open spec fn document(&self) -> DocumentModel {
        DocumentModel::List(list_documents(self@))
    }

    open spec fn read(d: DocumentModel) -> Option<Seq<T::Model>> {
        match d {
            DocumentModel::List(docs) => read_items::<T>(docs, docs.len() as int),
            _ => None,
        }
    }

    fn to_document(&self) -> (d: Document) {
        let mut items: Vec<Document> = Vec::new();
        let mut i: usize = 0;
        while i < self.len()
            invariant
                i <= self.len(),
                items@.len() == i,
                forall|j: int| 0 <= j < i ==> (#[trigger] items@[j])@ == self@[j].document(),
                forall|j: int|
                    0 <= j < i ==> T::read(#[trigger] self@[j].document()) == Some(
                        self@[j].model(),
                    ),
            decreases self.len() - i,
        {
            let item = self[i].to_document();
            items.push(item);
            i += 1;
        }
        let d = Document::List(items);
        proof {
            let docs = list_documents(self@);
            assert(items_model(items@) =~= docs);
            lemma_read_items_of_documents::<T>(self@, self@.len() as int);
            assert(list_model(self@.take(self@.len() as int)) =~= list_model(self@));
        }
        d
    }

    fn from_document(d: &Document) -> (r: Option<Self>) {
        match d {
            Document::List(items) => {
                let ghost docs = items_model(items@);
                let mut values: Vec<T> = Vec::new();
                let mut i: usize = 0;
                assert(list_model(values@) =~= Seq::<T::Model>::empty());
                while i < items.len()
                    invariant
                        i <= items.len(),
                        docs == items_model(items@),
                        d@ == DocumentModel::List(docs),
                        read_items::<T>(docs, i as int) == Some(list_model(values@)),
                    decreases items.len() - i,
                {
                    assert(docs[i as int] == items@[i as int]@);
                    let ghost before = list_model(values@);
                    match T::from_document(&items[i]) {
                        Some(value) => {
                            values.push(value);
                            assert(list_model(values@) =~= before.push(value.model()));
                        },
                        None => {
                            proof {
                                assert(T::read(docs[i as int]) is None);
                                assert(read_items::<T>(docs, i as int + 1) is None);
                                lemma_read_items_fails_later::<T>(
                                    docs,
                                    i as int + 1,
                                    docs.len() as int,
                                );
                            }
                            return None;
                        },
                    }
                    i += 1;
                }
                Some(values)
            },
            _ => None,
        }
    }
}

/// Reading the documents of values gives the values back.
pub proof fn lemma_read_items_of_documents<T: Documented>(items: Seq<T>, n: int)
    requires
        0 <= n <= items.len(),
        forall|j: int|
            0 <= j < items.len() ==> T::read(#[trigger] items[j].document()) == Some(
                items[j].model(),
            ),
    ensures
        read_items::<T>(list_documents(items), n) == Some(list_model(items.take(n))),
    decreases n,
{
    if n > 0 {
        lemma_read_items_of_documents::<T>(items, n - 1);
        assert(list_model(items.take(n)) =~= list_model(items.take(n - 1)).push(
            items[n - 1].model(),
        ));
    } else {
        assert(list_model(items.take(0)) =~= Seq::<T::Model>::empty());
    }
}

/// Once a document of a list cannot be read, the list cannot be read.
pub proof fn lemma_read_items_fails_later<T: Documented>(docs: Seq<DocumentModel>, n: int, m: int)
    requires
        0 <= n <= m,
        read_items::<T>(docs, n) is None,
    ensures
        read_items::<T>(docs, m) is None,
    decreases m - n,
{
    if n < m {
        lemma_read_items_fails_later::<T>(docs, n, m - 1);
    }
}

/// The value of the field of the given name, where the document is an object that has one.
pub open spec fn member(d: DocumentModel, name: Seq<char>) -> Option<DocumentModel> {
    match d {
        DocumentModel::Object(fields) => field(fields, name),
        _ => None,
    }
}

/// The value that the field of the given name describes.
pub open spec fn read_member<T: Documented>(d: DocumentModel, name: Seq<char>) -> Option<T::Model> {
    match member(d, name) {
        Some(value) => T::read(value),
        None => None,
    }
}

/// The value, absent or not, that the field of the given name describes. The
/// field itself must be there.
pub open spec fn read_optional_member<T: Documented>(d: DocumentModel, name: Seq<char>) -> Option<
    Option<T::Model>,
> {
    match member(d, name) {
        Some(value) => read_optional::<T>(value),
        None => None,
    }
}

/// Looks up the field of the given name in a document.
pub fn member_of<'a>(d: &'a Document, name: &str) -> (r: Option<&'a Document>)
    ensures
        match r {
            Some(value) => member(d@, name@) == Some(value@),
            None => member(d@, name@) is None,
        },
{
    match d {
        Document::Object(fields) => find_field(fields, name),
        _ => None,
    }
}

/// Reads the field of the given name.
pub fn read_field<T: Documented>(d: &Document, name: &str) -> (r: Option<T>)
    ensures
        match r {
            Some(value) => read_member::<T>(d@, name@) == Some(value.model()),
            None => read_member::<T>(d@, name@) is None,
        },
{
    match member_of(d, name) {
        Some(value) => T::from_document(value),
        None => None,
    }
}

/// Reads the field of the given name, whose value may be absent.
pub fn read_optional_field<T: Documented>(d: &Document, name: &str) -> (r: Option<Option<T>>)
    ensures
        match r {
            Some(value) => read_optional_member::<T>(d@, name@) == Some(optional_model(value)),
            None => read_optional_member::<T>(d@, name@) is None,
        },
{
    match member_of(d, name) {
        Some(value) => parse_optional::<T>(value),
        None => None,
    }
}

/// One field of an object.
pub fn named(name: &str, value: Document) -> (f: (String, Document))
    ensures
        f.0@ == name@,
        f.1 == value,
{
    (String::from_str(name), value)
}

/// The models of the values of a map keyed by name.
pub open spec fn map_model<T: Documented>(m: Map<Seq<char>, T>) -> Map<Seq<char>, T::Model> {
    m.map_values(|value: T| value.model())
}

/// The fields that a map keyed by name is written as: one for each name, in stored order.
pub open spec fn map_fields<T: Documented>(order: Seq<Seq<char>>, m: Map<Seq<char>, T>) -> Seq<
    (Seq<char>, DocumentModel),
> {
    Seq::new(order.len(), |i: int| (order[i], m[order[i]].document()))
}

/// The map that the first `n` fields describe, if each describes a value.
/// Where two fields bear the same name, the later one stands.
pub open spec fn read_entries<T: Documented>(fields: Seq<(Seq<char>, DocumentModel)>, n: int) -> Option<
    Map<Seq<char>, T::Model>,
>
    decreases n,
{
    if n <= 0 {
        Some(Map::empty())
    } else {
        match (read_entries::<T>(fields, n - 1), T::read(fields[n - 1].1)) {
            (Some(before), Some(value)) => Some(before.insert(fields[n - 1].0, value)),
            _ => None,
        }
    }
}

/// Reading the fields of a map gives the map back, as far as the fields go.
pub proof fn lemma_read_entries_of_fields<T: Documented>(
    order: Seq<Seq<char>>,
    m: Map<Seq<char>, T>,
    n: int,
)
    requires
        0 <= n <= order.len(),
        order.no_duplicates(),
        forall|j: int| 0 <= j < order.len() ==> m.contains_key(#[trigger] order[j]),
        forall|j: int|
            0 <= j < order.len() ==> T::read(#[trigger] m[order[j]].document()) == Some(
                m[order[j]].model(),
            ),
    ensures
        read_entries::<T>(map_fields(order, m), n) == Some(
            map_model(m).restrict(order.take(n).to_set()),
        ),
    decreases n,
{
    let fields = map_fields(order, m);
    if n > 0 {
        lemma_read_entries_of_fields::<T>(order, m, n - 1);
        let before = map_model(m).restrict(order.take(n - 1).to_set());
        let key = order[n - 1];
        assert(fields[n - 1] == (key, m[key].document()));
        assert(order.take(n) =~= order.take(n - 1).push(key));
        order.take(n - 1).lemma_push_to_set_commute(key);
        assert(before.insert(key, m[key].model()) =~= map_model(m).restrict(
            order.take(n).to_set(),
        ));
    } else {
        assert(order.take(0).to_set() =~= Set::<Seq<char>>::empty());
        assert(map_model(m).restrict(order.take(0).to_set()) =~= Map::<
            Seq<char>,
            T::Model,
        >::empty());
    }
}

/// Once a field of a map cannot be read, the map cannot be read.
pub proof fn lemma_read_entries_fails_later<T: Documented>(
    fields: Seq<(Seq<char>, DocumentModel)>,
    n: int,
    m: int,
)
    requires
        0 <= n <= m,
        read_entries::<T>(fields, n) is None,
    ensures
        read_entries::<T>(fields, m) is None,
    decreases m - n,
{
    if n < m {
        lemma_read_entries_fails_later::<T>(fields, n, m - 1);
    }
}

impl<T: Documented> Documented for NameMap<T> {
    type Model = Map<Seq<char>, T::Model>;

    open spec fn model(&self) -> Map<Seq<char>, T::Model> {
        map_model(self@)
    }

    open spec fn document(&self) -> DocumentModel {
        DocumentModel::Object(map_fields(self.order(), self@))
    }

    open spec fn read(d: DocumentModel) -> Option<Map<Seq<char>, T::Model>> {
        match d {
            DocumentModel::Object(fields) => read_entries::<T>(fields, fields.len() as int),
            _ => None,
        }
    }

    fn to_document(&self) -> (d: Document) {
        let n = self.len();
        let ghost order = self.order();
        let mut fields: Vec<(String, Document)> = Vec::new();
        let mut i: usize = 0;
        while i < n
            invariant
                i <= n,
                n == order.len(),
                order == self.order(),
                fields@.len() == i,
                forall|j: int|
                    0 <= j < i ==> (#[trigger] fields@[j]).0@ == order[j] && fields@[j].1@
                        == self@[order[j]].document(),
                forall|j: int|
                    0 <= j < i ==> self@.contains_key(#[trigger] order[j]) && T::read(
                        self@[order[j]].document(),
                    ) == Some(self@[order[j]].model()),
            decreases n - i,
        {
            let name = self.name_at(i).clone();
            let value = self.value_at(i).to_document();
            fields.push((name, value));
            i += 1;
        }
        let d = Document::Object(fields);
        proof {
            let written = map_fields(order, self@);
            assert(fields_model(fields@) =~= written);
            lemma_read_entries_of_fields::<T>(order, self@, n as int);
            assert(order.take(n as int) =~= order);
            assert(map_model(self@).restrict(order.to_set()) =~= map_model(self@));
        }
        d
    }

    fn from_document(d: &Document) -> (r: Option<Self>) {
        match d {
            Document::Object(fields) => {
                let ghost docs = fields_model(fields@);
                let mut map: NameMap<T> = NameMap::new();
                let mut i: usize = 0;
                assert(map_model(map@) =~= Map::<Seq<char>, T::Model>::empty());
                while i < fields.len()
                    invariant
                        i <= fields.len(),
                        docs == fields_model(fields@),
                        d@ == DocumentModel::Object(docs),
                        read_entries::<T>(docs, i as int) == Some(map_model(map@)),
                    decreases fields.len() - i,
                {
                    assert(docs[i as int] == (fields@[i as int].0@, fields@[i as int].1@));
                    let ghost before = map@;
                    match T::from_document(&fields[i].1) {
                        Some(value) => {
                            map.insert(fields[i].0.clone(), value);
                            assert(map_model(map@) =~= map_model(before).insert(
                                fields@[i as int].0@,
                                value.model(),
                            ));
                        },
                        None => {
                            proof {
                                assert(read_entries::<T>(docs, i as int + 1) is None);
                                lemma_read_entries_fails_later::<T>(
                                    docs,
                                    i as int + 1,
                                    docs.len() as int,
                                );
                            }
                            return None;
                        },
                    }
                    i += 1;
                }
                Some(map)
            },
            _ => None,
        }
    }
}

} // verus!
