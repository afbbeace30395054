//! The controller of the animal resource.

use vstd::prelude::*;
use crate::animal::models::{Animal, PartialAnimal, PostAnimal};
use crate::animal::service::AnimalService;
use crate::controller::{
    created_response, deleted_response, found_response, listing_response, CRUDControllerTrait,
    Response,
};
use crate::entity::animal::{ActiveModel, Model};
use crate::service::{created_row, CRUDServiceTrait};
use crate::store::Table;

verus! {

/// The controller of the animal resource.
pub struct AnimalController;

impl CRUDControllerTrait<Model, ActiveModel, Animal, PostAnimal, PartialAnimal> for AnimalController {
    proof fn model_keeps_identifier(entity: Model) {
    }

    fn reads(conn: &Table<Model>) -> (response: Response<Vec<Animal>>) {
        listing_response(AnimalService::get_all(conn))
    }

    fn read(obj_id: i32, conn: &Table<Model>) -> (response: Response<Animal>) {
        found_response(AnimalService::get_by_id(obj_id, conn))
    }

    fn post(obj: PostAnimal, conn: &mut Table<Model>, uri: &str) -> (response: Response<Animal>) {
        let model = AnimalService::create(obj, conn);
        proof {
            Self::model_keeps_identifier(
                created_row::<Model, ActiveModel, PostAnimal>(obj, old(conn).next_key()),
            );
        }
        created_response(uri, model)
    }

    fn patch(obj_id: i32, obj: PartialAnimal, conn: &mut Table<Model>) -> (response: Response<Animal>) {
        found_response(AnimalService::update(obj_id, obj, conn))
    }

    fn delete(obj_id: i32, conn: &mut Table<Model>) -> (response: Response<()>) {
        deleted_response(AnimalService::delete(obj_id, conn))
    }
}

} // verus!
