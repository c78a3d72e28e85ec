//! Mapping the type names of a database engine to normalized types.

use crate::metadata::{AxionDataType, AxionTypeModel};
use crate::text::opt_str;
use vstd::prelude::*;

pub mod postgres;

verus! {

/// A dialect's mapping from type descriptors to normalized types.
///
/// The mapping is a function: it has a value for every descriptor and every
/// underlying type name, and a descriptor that the dialect does not know is
/// mapped to `Unsupported`, never refused.
pub trait TypeMapper: Send + Sync {
    /// The normalized type that the dialect assigns to a descriptor and an
    /// optional underlying type name.
    spec fn normalized(&self, sql_type: Seq<char>, udt_name: Option<Seq<char>>) -> AxionTypeModel;

    /// Maps a type descriptor and an optional underlying type name to a normalized type.
    fn sql_to_axion(&self, sql_type: &str, udt_name: Option<&str>) -> (t: AxionDataType)
        ensures
            t@ == self.normalized(sql_type@, opt_str(udt_name)),
    ;
}

} // verus!
