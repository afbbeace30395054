//! The three shapes of an animal: as returned, as created, as partially updated.

use vstd::prelude::*;
use crate::contract::{ActiveModelTrait, ActiveValue, FromEntity, IntoActiveModel, ToActiveModel};
use crate::controller::Identified;
use crate::entity::animal::{ActiveModel, Model};

verus! {

/// An animal as clients see it.
#[derive(Clone, Debug, PartialEq, Eq)]
pub struct Animal {
    pub id: i32,
    pub race: String,
    pub name: String,
    pub age: i32,
}

/// The body of a request that creates an animal: every field but the identifier.
#[derive(Clone, Debug, PartialEq, Eq)]
pub struct PostAnimal {
    pub race: String,
    pub name: String,
    pub age: i32,
}

/// The body of a request that changes an animal: each field present or absent.
#[derive(Clone, Debug, PartialEq, Eq)]
pub struct PartialAnimal {
    pub race: Option<String>,
    pub name: Option<String>,
    pub age: Option<i32>,
}

impl Identified for Animal {
    open spec fn ident(&self) -> i32 {
        self.id
    }

    fn identifier(&self) -> (id: i32) {
        self.id
    }
}

impl FromEntity<Model> for Animal {
    open spec fn model_of(entity: Model) -> Self {
        Animal { id: entity.id, race: entity.race, name: entity.name, age: entity.age }
    }

    fn from_entity(entity: Model) -> (model: Self) {
        Animal { id: entity.id, race: entity.race, name: entity.name, age: entity.age }
    }
}

impl IntoActiveModel<ActiveModel, Model> for PostAnimal {
    open spec fn fresh(self) -> ActiveModel {
        ActiveModel {
            id: ActiveValue::NotSet,
            race: ActiveValue::Assigned(self.race),
            name: ActiveValue::Assigned(self.name),
            age: ActiveValue::Assigned(self.age),
        }
    }

    proof fn fresh_is_insertable(self) {
    }

    fn into_active_model(self) -> (active: ActiveModel) {
        ActiveModel {
            id: ActiveValue::NotSet,
            race: ActiveValue::Assigned(self.race),
            name: ActiveValue::Assigned(self.name),
            age: ActiveValue::Assigned(self.age),
        }
    }
}

impl ToActiveModel<ActiveModel, Model> for PartialAnimal {
    open spec fn merged(self, placeholder: Model) -> ActiveModel {
        ActiveModel {
            id: ActiveValue::Assigned(placeholder.id),
            race: ActiveValue::Assigned(
                match self.race {
                    Some(race) => race,
                    None => placeholder.race,
                },
            ),
            name: ActiveValue::Assigned(
                match self.name {
                    Some(name) => name,
                    None => placeholder.name,
                },
            ),
            age: ActiveValue::Assigned(
                match self.age {
                    Some(age) => age,
                    None => placeholder.age,
                },
            ),
        }
    }

    open spec fn is_blank(&self) -> bool {
        self.race.is_none() && self.name.is_none() && self.age.is_none()
    }

    proof fn merged_targets_placeholder(self, placeholder: Model) {
    }

    proof fn blank_merge_keeps_row(self, placeholder: Model) {
    }

    fn into_active_model(self, placeholder: Model) -> (active: ActiveModel) {
        let race = match self.race {
            Some(race) => race,
            None => placeholder.race,
        };
        let name = match self.name {
            Some(name) => name,
            None => placeholder.name,
        };
        let age = match self.age {
            Some(age) => age,
            None => placeholder.age,
        };
        ActiveModel {
            id: ActiveValue::Assigned(placeholder.id),
            race: ActiveValue::Assigned(race),
            name: ActiveValue::Assigned(name),
            age: ActiveValue::Assigned(age),
        }
    }
}

/// A partial update of an animal stores, for each field, the value it carries
/// where the field is present and the prior value where it is absent, under
/// the prior identifier.
pub proof fn lemma_partial_animal_changes_present_fields(partial: PartialAnimal, prior: Model)
    ensures
        partial.merged(prior).row(prior.id).id == prior.id,
        partial.merged(prior).row(prior.id).race == (match partial.race {
            Some(race) => race,
            None => prior.race,
        }),
        partial.merged(prior).row(prior.id).name == (match partial.name {
            Some(name) => name,
            None => prior.name,
        }),
        partial.merged(prior).row(prior.id).age == (match partial.age {
            Some(age) => age,
            None => prior.age,
        }),
{
}

} // verus!
