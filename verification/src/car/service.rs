//! The service of the car resource.

use vstd::prelude::*;
use crate::car::models::{Car, PartialCar, PostCar};
use crate::entity::car::{ActiveModel, Model};
use crate::service;
use crate::service::CRUDServiceTrait;
use crate::store::Table;

verus! {

/// The service of the car resource.
pub struct CarService;

impl CRUDServiceTrait<Model, ActiveModel, Car, PostCar, PartialCar> for CarService {
    fn get_all(db: &Table<Model>) -> (models: Vec<Car>) {
        service::get_all(db)
    }

    fn get_by_id(obj_id: i32, db: &Table<Model>) -> (model: Option<Car>) {
        service::get_by_id(obj_id, db)
    }

    fn create(form: PostCar, db: &mut Table<Model>) -> (model: Car) {
        service::create::<Model, ActiveModel, Car, PostCar>(form, db)
    }

    fn update(obj_id: i32, form: PartialCar, db: &mut Table<Model>) -> (model: Option<Car>) {
        service::update::<Model, ActiveModel, Car, PartialCar>(obj_id, form, db)
    }

    fn delete(obj_id: i32, db: &mut Table<Model>) -> (done: Option<()>) {
        service::delete::<Model, ActiveModel>(obj_id, db)
    }
}

} // verus!
