//! The service of the animal resource.

use vstd::prelude::*;
use crate::animal::models::{Animal, PartialAnimal, PostAnimal};
use crate::entity::animal::{ActiveModel, Model};
use crate::service;
use crate::service::CRUDServiceTrait;
use crate::store::Table;

verus! {

/// The service of the animal resource.
pub struct AnimalService;

impl CRUDServiceTrait<Model, ActiveModel, Animal, PostAnimal, PartialAnimal> for AnimalService {
    fn get_all(db: &Table<Model>) -> (models: Vec<Animal>) {
        service::get_all(db)
    }

    fn get_by_id(obj_id: i32, db: &Table<Model>) -> (model: Option<Animal>) {
        service::get_by_id(obj_id, db)
    }

    fn create(form: PostAnimal, db: &mut Table<Model>) -> (model: Animal) {
        service::create::<Model, ActiveModel, Animal, PostAnimal>(form, db)
    }

    fn update(obj_id: i32, form: PartialAnimal, db: &mut Table<Model>) -> (model: Option<Animal>) {
        service::update::<Model, ActiveModel, Animal, PartialAnimal>(obj_id, form, db)
    }

    fn delete(obj_id: i32, db: &mut Table<Model>) -> (done: Option<()>) {
        service::delete::<Model, ActiveModel>(obj_id, db)
    }
}

} // verus!
