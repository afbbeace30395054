//! The `car` table.

use vstd::prelude::*;
use crate::migrations::{
    create_resource_table, resource_columns, TableCreateStatement, TableDropStatement,
};

verus! {

/// The step that creates the `car` table.
pub struct Migration;

impl Migration {
    /// The name of the step.
    pub fn name(&self) -> (name: &'static str)
        ensures
            name == "m20220101_000001_create_cars_table",
    {
        "m20220101_000001_create_cars_table"
    }

    /// Creates the table with an identifier, a brand, a model and a year.
    pub fn up(&self) -> (statement: TableCreateStatement)
        ensures
            statement.table == "car",
            statement.if_not_exists,
            statement.columns@ == resource_columns("brand", "model", "year"),
    {
        create_resource_table("car", "brand", "model", "year")
    }

    /// Drops the table.
    pub fn down(&self) -> (statement: TableDropStatement)
        ensures
            statement.table == "car",
    {
        TableDropStatement { table: "car" }
    }
}

} // verus!
