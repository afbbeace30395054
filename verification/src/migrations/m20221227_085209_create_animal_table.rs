//! The `animal` table.

use vstd::prelude::*;
use crate::migrations::{
    create_resource_table, resource_columns, TableCreateStatement, TableDropStatement,
};

verus! {

/// The step that creates the `animal` table.
pub struct Migration;

impl Migration {
    /// The name of the step.
    pub fn name(&self) -> (name: &'static str)
        ensures
            name == "m20221227_085209_create_animal_table",
    {
        "m20221227_085209_create_animal_table"
    }

    /// Creates the table with an identifier, a race, a name and an age.
    pub fn up(&self) -> (statement: TableCreateStatement)
        ensures
            statement.table == "animal",
            statement.if_not_exists,
            statement.columns@ == resource_columns("race", "name", "age"),
    {
        create_resource_table("animal", "race", "name", "age")
    }

    /// Drops the table.
    pub fn down(&self) -> (statement: TableDropStatement)
        ensures
            statement.table == "animal",
    {
        TableDropStatement { table: "animal" }
    }
}

} // verus!
