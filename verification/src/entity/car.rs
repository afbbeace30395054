//! The `car` table: one row per car.

use vstd::prelude::*;
use crate::contract::{ActiveModelTrait, ActiveValue, ModelTrait};

verus! {

/// A row of the `car` table.
#[derive(Clone, Debug, PartialEq, Eq)]
pub struct Model {
    pub id: i32,
    pub brand: String,
    pub model: String,
    pub year: i32,
}

/// The write form of a row of the `car` table.
#[derive(Clone, Debug, PartialEq, Eq)]
pub struct ActiveModel {
    pub id: ActiveValue<i32>,
    pub brand: ActiveValue<String>,
    pub model: ActiveValue<String>,
    pub year: ActiveValue<i32>,
}

impl ModelTrait for Model {
    open spec fn key(&self) -> i32 {
        self.id
    }

    fn id(&self) -> (id: i32) {
        self.id
    }

    fn duplicate(&self) -> (copy: Self) {
        Model {
            id: self.id,
            brand: self.brand.clone(),
            model: self.model.clone(),
            year: self.year,
        }
    }
}

impl ActiveModelTrait<Model> for ActiveModel {
    open spec fn target(&self) -> Option<i32> {
        self.id.value()
    }

    open spec fn complete(&self) -> bool {
        &&& self.brand.value().is_some()
        &&& self.model.value().is_some()
        &&& self.year.value().is_some()
    }

    open spec fn row(self, id: i32) -> Model {
        Model {
            id,
            brand: self.brand.value().unwrap(),
            model: self.model.value().unwrap(),
            year: self.year.value().unwrap(),
        }
    }

    open spec fn of_row(row: Model) -> Self {
        ActiveModel {
            id: ActiveValue::Unchanged(row.id),
            brand: ActiveValue::Unchanged(row.brand),
            model: ActiveValue::Unchanged(row.model),
            year: ActiveValue::Unchanged(row.year),
        }
    }

    proof fn row_key(self, id: i32) {
    }

    proof fn of_row_round_trip(row: Model) {
    }

    fn primary_key(&self) -> (k: Option<i32>) {
        match self.id {
            ActiveValue::Assigned(id) => Some(id),
            ActiveValue::Unchanged(id) => Some(id),
            ActiveValue::NotSet => None,
        }
    }

    fn is_complete(&self) -> (c: bool) {
        self.brand.is_present() && self.model.is_present() && self.year.is_present()
    }

    fn into_row(self, id: i32) -> (row: Model) {
        Model {
            id,
            brand: self.brand.into_value_or(String::new()),
            model: self.model.into_value_or(String::new()),
            year: self.year.into_value_or(0),
        }
    }

    fn from_row(row: Model) -> (form: Self) {
        ActiveModel {
            id: ActiveValue::Unchanged(row.id),
            brand: ActiveValue::Unchanged(row.brand),
            model: ActiveValue::Unchanged(row.model),
            year: ActiveValue::Unchanged(row.year),
        }
    }
}

} // verus!
