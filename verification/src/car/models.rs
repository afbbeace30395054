//! The three shapes of a car: as returned, as created, as partially updated.

use vstd::prelude::*;
use crate::contract::{ActiveModelTrait, ActiveValue, FromEntity, IntoActiveModel, ToActiveModel};
use crate::controller::Identified;
use crate::entity::car::{ActiveModel, Model};

verus! {

/// A car as clients see it.
#[derive(Clone, Debug, PartialEq, Eq)]
pub struct Car {
    pub id: i32,
    pub brand: String,
    pub model: String,
    pub year: i32,
}

/// The body of a request that creates a car: every field but the identifier.
#[derive(Clone, Debug, PartialEq, Eq)]
pub struct PostCar {
    pub brand: String,
    pub model: String,
    pub year: i32,
}

/// The body of a request that changes a car: each field present or absent.
#[derive(Clone, Debug, PartialEq, Eq)]
pub struct PartialCar {
    pub brand: Option<String>,
    pub model: Option<String>,
    pub year: Option<i32>,
}

impl Identified for Car {
    open spec fn ident(&self) -> i32 {
        self.id
    }

    fn identifier(&self) -> (id: i32) {
        self.id
    }
}

impl FromEntity<Model> for Car {
    open spec fn model_of(entity: Model) -> Self {
        Car { id: entity.id, brand: entity.brand, model: entity.model, year: entity.year }
    }

    fn from_entity(entity: Model) -> (model: Self) {
        Car { id: entity.id, brand: entity.brand, model: entity.model, year: entity.year }
    }
}

impl IntoActiveModel<ActiveModel, Model> for PostCar {
    open spec fn fresh(self) -> ActiveModel {
        ActiveModel {
            id: ActiveValue::NotSet,
            brand: ActiveValue::Assigned(self.brand),
            model: ActiveValue::Assigned(self.model),
            year: ActiveValue::Assigned(self.year),
        }
    }

    proof fn fresh_is_insertable(self) {
    }

    fn into_active_model(self) -> (active: ActiveModel) {
        ActiveModel {
            id: ActiveValue::NotSet,
            brand: ActiveValue::Assigned(self.brand),
            model: ActiveValue::Assigned(self.model),
            year: ActiveValue::Assigned(self.year),
        }
    }
}

impl ToActiveModel<ActiveModel, Model> for PartialCar {
    open spec fn merged(self, placeholder: Model) -> ActiveModel {
        ActiveModel {
            id: ActiveValue::Assigned(placeholder.id),
            brand: ActiveValue::Assigned(
                match self.brand {
                    Some(brand) => brand,
                    None => placeholder.brand,
                },
            ),
            model: ActiveValue::Assigned(
                match self.model {
                    Some(model) => model,
                    None => placeholder.model,
                },
            ),
            year: ActiveValue::Assigned(
                match self.year {
                    Some(year) => year,
                    None => placeholder.year,
                },
            ),
        }
    }

    open spec fn is_blank(&self) -> bool {
        self.brand.is_none() && self.model.is_none() && self.year.is_none()
    }

    proof fn merged_targets_placeholder(self, placeholder: Model) {
    }

    proof fn blank_merge_keeps_row(self, placeholder: Model) {
    }

    fn into_active_model(self, placeholder: Model) -> (active: ActiveModel) {
        let brand = match self.brand {
            Some(brand) => brand,
            None => placeholder.brand,
        };
        let model = match self.model {
            Some(model) => model,
            None => placeholder.model,
        };
        let year = match self.year {
            Some(year) => year,
            None => placeholder.year,
        };
        ActiveModel {
            id: ActiveValue::Assigned(placeholder.id),
            brand: ActiveValue::Assigned(brand),
            model: ActiveValue::Assigned(model),
            year: ActiveValue::Assigned(year),
        }
    }
}

/// A partial update of a car stores, for each field, the value it carries
/// where the field is present and the prior value where it is absent, under
/// the prior identifier.
pub proof fn lemma_partial_car_changes_present_fields(partial: PartialCar, prior: Model)
    ensures
        partial.merged(prior).row(prior.id).id == prior.id,
        partial.merged(prior).row(prior.id).brand == (match partial.brand {
            Some(brand) => brand,
            None => prior.brand,
        }),
        partial.merged(prior).row(prior.id).model == (match partial.model {
            Some(model) => model,
            None => prior.model,
        }),
        partial.merged(prior).row(prior.id).year == (match partial.year {
            Some(year) => year,
            None => prior.year,
        }),
{
}

} // verus!
