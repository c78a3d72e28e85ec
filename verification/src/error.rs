//! The errors of the library.

use vstd::prelude::*;
use vstd::string::*;

verus! {

/// What can go wrong, each with the detail that came with it.
///
/// `Config` is raised before any catalog is read, `Connection` aborts a run,
/// `UnsupportedDbType` comes from the dispatcher, `Introspection` says that a
/// table or view is absent or has no columns, and `QueryExecution` is a catalog
/// query that failed.
#[derive(Debug)]
pub enum DbError {
    Config(String),
    Connection(String),
    Introspection(String),
    QueryExecution(String),
    UnsupportedDbType(String),
    TypeMapping(String),
    FeatureNotEnabled(String),
}

pub type DbResult<T> = Result<T, DbError>;

/// An error as a mathematical value.
pub enum DbErrorModel {
    Config(Seq<char>),
    Connection(Seq<char>),
    Introspection(Seq<char>),
    QueryExecution(Seq<char>),
    UnsupportedDbType(Seq<char>),
    TypeMapping(Seq<char>),
    FeatureNotEnabled(Seq<char>),
}

impl DbErrorModel {
    /// The detail that the error carries.
    pub open spec fn detail(self) -> Seq<char> {
        match self {
            DbErrorModel::Config(m) => m,
            DbErrorModel::Connection(m) => m,
            DbErrorModel::Introspection(m) => m,
            DbErrorModel::QueryExecution(m) => m,
            DbErrorModel::UnsupportedDbType(m) => m,
            DbErrorModel::TypeMapping(m) => m,
            DbErrorModel::FeatureNotEnabled(m) => m,
        }
    }

    /// The words that introduce the detail in the rendered message.
    pub open spec fn heading(self) -> Seq<char> {
        match self {
            DbErrorModel::Config(_) => "Configuration error: "@,
            DbErrorModel::Connection(_) => "SQLx connection error: "@,
            DbErrorModel::Introspection(_) => "Introspection error: "@,
            DbErrorModel::QueryExecution(_) => "Query execution error: "@,
            DbErrorModel::UnsupportedDbType(_) => "Unsupported database type for this operation: "@,
            DbErrorModel::TypeMapping(_) => "Type mapping error: "@,
            DbErrorModel::FeatureNotEnabled(_) => "Feature not enabled for database: "@,
        }
    }

    /// The rendered message: the heading followed by the detail.
    pub open spec fn text(self) -> Seq<char> {
        self.heading() + self.detail()
    }
}

impl View for DbError {
    type V = DbErrorModel;

    open spec fn view(&self) -> DbErrorModel {
        match self {
            DbError::Config(m) => DbErrorModel::Config(m@),
            DbError::Connection(m) => DbErrorModel::Connection(m@),
            DbError::Introspection(m) => DbErrorModel::Introspection(m@),
            DbError::QueryExecution(m) => DbErrorModel::QueryExecution(m@),
            DbError::UnsupportedDbType(m) => DbErrorModel::UnsupportedDbType(m@),
            DbError::TypeMapping(m) => DbErrorModel::TypeMapping(m@),
            DbError::FeatureNotEnabled(m) => DbErrorModel::FeatureNotEnabled(m@),
        }
    }
}

impl Clone for DbError {
    fn clone(&self) -> (r: Self)
        ensures
            r@ == self@,
    {
        match self {
            DbError::Config(m) => DbError::Config(m.clone()),
            DbError::Connection(m) => DbError::Connection(m.clone()),
            DbError::Introspection(m) => DbError::Introspection(m.clone()),
            DbError::QueryExecution(m) => DbError::QueryExecution(m.clone()),
            DbError::UnsupportedDbType(m) => DbError::UnsupportedDbType(m.clone()),
            DbError::TypeMapping(m) => DbError::TypeMapping(m.clone()),
            DbError::FeatureNotEnabled(m) => DbError::FeatureNotEnabled(m.clone()),
        }
    }
}

impl DbError {
    /// Renders the error as one line of text.
    pub fn to_string(&self) -> (s: String)
        ensures
            s@ == self@.text(),
    {
        let (heading, detail) = match self {
            DbError::Config(m) => ("Configuration error: ", m),
            DbError::Connection(m) => ("SQLx connection error: ", m),
            DbError::Introspection(m) => ("Introspection error: ", m),
            DbError::QueryExecution(m) => ("Query execution error: ", m),
            DbError::UnsupportedDbType(m) => ("Unsupported database type for this operation: ", m),
            DbError::TypeMapping(m) => ("Type mapping error: ", m),
            DbError::FeatureNotEnabled(m) => ("Feature not enabled for database: ", m),
        };
        let mut s = String::from_str(heading);
        s.append(detail.as_str());
        s
    }
}

/// The view of a result that holds text.
pub open spec fn text_result(r: Result<String, DbError>) -> Result<Seq<char>, DbErrorModel> {
    match r {
        Ok(s) => Ok(s@),
        Err(e) => Err(e@),
    }
}

} // verus!
