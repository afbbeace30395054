//! The `animal` table: one row per animal.

use vstd::prelude::*;
use crate::contract::{ActiveModelTrait, ActiveValue, ModelTrait};

verus! {

/// A row of the `animal` table.
#[derive(Clone, Debug, PartialEq, Eq)]
pub struct Model {
    pub id: i32,
    pub race: String,
    pub name: String,
    pub age: i32,
}

/// The write form of a row of the `animal` table.
#[derive(Clone, Debug, PartialEq, Eq)]
pub struct ActiveModel {
    pub id: ActiveValue<i32>,
    pub race: ActiveValue<String>,
    pub name: ActiveValue<String>,
    pub age: ActiveValue<i32>,
}

impl ModelTrait for Model {
    open spec fn key(&self) -> i32 {
        self.id
    }

    fn id(&self) -> (id: i32) {
        self.id
    }

    fn duplicate(&self) -> (copy: Self) {
        Model {
            id: self.id,
            race: self.race.clone(),
            name: self.name.clone(),
            age: self.age,
        }
    }
}

impl ActiveModelTrait<Model> for ActiveModel {
    open spec fn target(&self) -> Option<i32> {
        self.id.value()
    }

    open spec fn complete(&self) -> bool {
        &&& self.race.value().is_some()
        &&& self.name.value().is_some()
        &&& self.age.value().is_some()
    }

    open spec fn row(self, id: i32) -> Model {
        Model {
            id,
            race: self.race.value().unwrap(),
            name: self.name.value().unwrap(),
            age: self.age.value().unwrap(),
        }
    }

    open spec fn of_row(row: Model) -> Self {
        ActiveModel {
            id: ActiveValue::Unchanged(row.id),
            race: ActiveValue::Unchanged(row.race),
            name: ActiveValue::Unchanged(row.name),
            age: ActiveValue::Unchanged(row.age),
        }
    }

    proof fn row_key(self, id: i32) {
    }

    proof fn of_row_round_trip(row: Model) {
    }

    fn primary_key(&self) -> (k: Option<i32>) {
        match self.id {
            ActiveValue::Assigned(id) => Some(id),
            ActiveValue::Unchanged(id) => Some(id),
            ActiveValue::NotSet => None,
        }
    }

    fn is_complete(&self) -> (c: bool) {
        self.race.is_present() && self.name.is_present() && self.age.is_present()
    }

    fn into_row(self, id: i32) -> (row: Model) {
        Model {
            id,
            race: self.race.into_value_or(String::new()),
            name: self.name.into_value_or(String::new()),
            age: self.age.into_value_or(0),
        }
    }

    fn from_row(row: Model) -> (form: Self) {
        ActiveModel {
            id: ActiveValue::Unchanged(row.id),
            race: ActiveValue::Unchanged(row.race),
            name: ActiveValue::Unchanged(row.name),
            age: ActiveValue::Unchanged(row.age),
        }
    }
}

} // verus!
