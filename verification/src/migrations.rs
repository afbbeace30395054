//! The schema of the store: one table per resource, created in a fixed order.

pub mod m20220101_000001_create_cars_table;
pub mod m20221227_085209_create_animal_table;

use vstd::prelude::*;

verus! {

/// The type of a column.
#[derive(Clone, Copy, Debug, PartialEq, Eq)]
pub enum ColumnType {
    Integer,
    String,
}

/// A column of a table.
#[derive(Clone, Copy, Debug, PartialEq, Eq)]
pub struct ColumnDef {
    pub name: &'static str,
    pub ty: ColumnType,
    pub not_null: bool,
    pub auto_increment: bool,
    pub primary_key: bool,
}

/// The statement that creates a table.
#[derive(Clone, Debug, PartialEq, Eq)]
pub struct TableCreateStatement {
    pub table: &'static str,
    pub if_not_exists: bool,
    pub columns: Vec<ColumnDef>,
}

/// The statement that drops a table.
#[derive(Clone, Copy, Debug, PartialEq, Eq)]
pub struct TableDropStatement {
    pub table: &'static str,
}

/// The identifier column: an integer that the store assigns.
pub open spec fn id_column(name: &'static str) -> ColumnDef {
    ColumnDef {
        name,
        ty: ColumnType::Integer,
        not_null: true,
        auto_increment: true,
        primary_key: true,
    }
}

/// A business column: required, of type `ty`.
pub open spec fn required_column(name: &'static str, ty: ColumnType) -> ColumnDef {
    ColumnDef { name, ty, not_null: true, auto_increment: false, primary_key: false }
}

/// The columns of a resource with two texts and a number.
pub open spec fn resource_columns(
    first: &'static str,
    second: &'static str,
    third: &'static str,
) -> Seq<ColumnDef> {
    seq![
        id_column("id"),
        required_column(first, ColumnType::String),
        required_column(second, ColumnType::String),
        required_column(third, ColumnType::Integer),
    ]
}

/// Builds the statement that creates the table of a resource with two texts
/// and a number, unless the table is there already.
pub fn create_resource_table(
    table: &'static str,
    first: &'static str,
    second: &'static str,
    third: &'static str,
) -> (statement: TableCreateStatement)
    ensures
        statement.table == table,
        statement.if_not_exists,
        statement.columns@ == resource_columns(first, second, third),
{
    let mut columns: Vec<ColumnDef> = Vec::new();
    columns.push(
        ColumnDef {
            name: "id",
            ty: ColumnType::Integer,
            not_null: true,
            auto_increment: true,
            primary_key: true,
        },
    );
    columns.push(
        ColumnDef {
            name: first,
            ty: ColumnType::String,
            not_null: true,
            auto_increment: false,
            primary_key: false,
        },
    );
    columns.push(
        ColumnDef {
            name: second,
            ty: ColumnType::String,
            not_null: true,
            auto_increment: false,
            primary_key: false,
        },
    );
    columns.push(
        ColumnDef {
            name: third,
            ty: ColumnType::Integer,
            not_null: true,
            auto_increment: false,
            primary_key: false,
        },
    );
    assert(columns@ =~= resource_columns(first, second, third));
    TableCreateStatement { table, if_not_exists: true, columns }
}

/// One step of the schema's history.
#[derive(Clone, Copy, Debug, PartialEq, Eq)]
pub enum Step {
    CreateCarsTable,
    CreateAnimalTable,
}

/// The history of the schema.
pub struct Migrator;

impl Migrator {
    /// The steps in the order in which they are applied.
    pub fn migrations() -> (steps: Vec<Step>)
        ensures
            steps@ == seq![Step::CreateCarsTable, Step::CreateAnimalTable],
    {
        let mut steps: Vec<Step> = Vec::new();
        steps.push(Step::CreateCarsTable);
        steps.push(Step::CreateAnimalTable);
        assert(steps@ =~= seq![Step::CreateCarsTable, Step::CreateAnimalTable]);
        steps
    }
}

} // verus!
