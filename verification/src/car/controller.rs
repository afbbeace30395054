//! The controller of the car resource.

use vstd::prelude::*;
use crate::car::models::{Car, PartialCar, PostCar};
use crate::car::service::CarService;
use crate::controller::{
    created_response, deleted_response, found_response, listing_response, CRUDControllerTrait,
    Response,
};
use crate::entity::car::{ActiveModel, Model};
use crate::service::{created_row, CRUDServiceTrait};
use crate::store::Table;

verus! {

/// The controller of the car resource.
pub struct CarController;

impl CRUDControllerTrait<Model, ActiveModel, Car, PostCar, PartialCar> for CarController {
    proof fn model_keeps_identifier(entity: Model) {
    }

    fn reads(conn: &Table<Model>) -> (response: Response<Vec<Car>>) {
        listing_response(CarService::get_all(conn))
    }

    fn read(obj_id: i32, conn: &Table<Model>) -> (response: Response<Car>) {
        found_response(CarService::get_by_id(obj_id, conn))
    }

    fn post(obj: PostCar, conn: &mut Table<Model>, uri: &str) -> (response: Response<Car>) {
        let model = CarService::create(obj, conn);
        proof {
            Self::model_keeps_identifier(
                created_row::<Model, ActiveModel, PostCar>(obj, old(conn).next_key()),
            );
        }
        created_response(uri, model)
    }

    fn patch(obj_id: i32, obj: PartialCar, conn: &mut Table<Model>) -> (response: Response<Car>) {
        found_response(CarService::update(obj_id, obj, conn))
    }

    fn delete(obj_id: i32, conn: &mut Table<Model>) -> (response: Response<()>) {
        deleted_response(CarService::delete(obj_id, conn))
    }
}

} // verus!
