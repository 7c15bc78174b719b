//! Models that write their own SQL.

use vstd::prelude::*;

verus! {

/// A model that knows the statements of its table.
pub trait SqlModel {
    /// The statement that inserts this value.
    fn to_sql_insert(&self) -> String;

    /// The statement that creates the table.
    fn generate_sql_create_table() -> String;

    /// The name of the table.
    fn table_name() -> String;
}

} // verus!
