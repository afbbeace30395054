use generic_crud::animal::controller::AnimalController;
use generic_crud::animal::models::{Animal, PartialAnimal, PostAnimal};
use generic_crud::animal::service::AnimalService;
use generic_crud::car::controller::CarController;
use generic_crud::car::models::{Car, PartialCar, PostCar};
use generic_crud::car::service::CarService;
use generic_crud::contract::{
    ActiveModelTrait, ActiveValue, FromEntity, IntoActiveModel, ModelTrait, ToActiveModel,
};
use generic_crud::controller::{
    created_response, decimal_text, deleted_response, found_response, listing_response, location,
    CRUDControllerTrait, Response, CREATED, NOT_FOUND, NO_CONTENT, OK,
};
use generic_crud::entity;
use generic_crud::service;
use generic_crud::service::CRUDServiceTrait;
use generic_crud::store::{StoreError, Table};

fn corolla() -> PostCar {
    PostCar { brand: "Toyota".to_string(), model: "Corolla".to_string(), year: 2020 }
}

fn blank_car() -> PartialCar {
    PartialCar { brand: None, model: None, year: None }
}

#[test]
fn post_car_answers_created_with_location_and_body() {
    let mut table: Table<entity::car::Model> = Table::new();
    let response = CarController::post(corolla(), &mut table, "/api/cars");
    assert_eq!(response.status, 201);
    assert_eq!(response.status, CREATED);
    assert_eq!(response.location, Some("/api/cars/1".to_string()));
    assert_eq!(
        response.body,
        Some(Car { id: 1, brand: "Toyota".to_string(), model: "Corolla".to_string(), year: 2020 })
    );
}

#[test]
fn patch_car_year_keeps_brand_and_model() {
    let mut table: Table<entity::car::Model> = Table::new();
    let created = CarService::create(corolla(), &mut table);
    let response = CarController::patch(
        created.id,
        PartialCar { brand: None, model: None, year: Some(2021) },
        &mut table,
    );
    assert_eq!(response.status, 200);
    assert_eq!(response.location, None);
    assert_eq!(
        response.body,
        Some(Car {
            id: created.id,
            brand: "Toyota".to_string(),
            model: "Corolla".to_string(),
            year: 2021
        })
    );
    assert_eq!(CarService::get_by_id(created.id, &table), response.body);
}

#[test]
fn get_missing_car_is_not_found_without_body() {
    let mut table: Table<entity::car::Model> = Table::new();
    let _ = CarService::create(corolla(), &mut table);
    let response = CarController::read(999999, &table);
    assert_eq!(response.status, 404);
    assert_eq!(response.status, NOT_FOUND);
    assert_eq!(response.body, None);
    assert_eq!(response.location, None);
}

#[test]
fn delete_car_then_get_is_not_found() {
    let mut table: Table<entity::car::Model> = Table::new();
    let created = CarService::create(corolla(), &mut table);
    let deleted = CarController::delete(created.id, &mut table);
    assert_eq!(deleted.status, 204);
    assert_eq!(deleted.status, NO_CONTENT);
    assert_eq!(deleted.body, None);
    let read = CarController::read(created.id, &table);
    assert_eq!(read.status, 404);
    assert_eq!(read.body, None);
}

#[test]
fn reads_lists_every_car() {
    let mut table: Table<entity::car::Model> = Table::new();
    let empty = CarController::reads(&table);
    assert_eq!(empty.status, OK);
    assert_eq!(empty.body, Some(vec![]));
    let first = CarService::create(corolla(), &mut table);
    let second = CarService::create(
        PostCar { brand: "Fiat".to_string(), model: "Panda".to_string(), year: 1999 },
        &mut table,
    );
    let listed = CarController::reads(&table);
    assert_eq!(listed.status, 200);
    assert_eq!(listed.body, Some(vec![first, second]));
}

#[test]
fn create_then_get_returns_the_created_model() {
    let mut table: Table<entity::car::Model> = Table::new();
    let created = CarService::create(corolla(), &mut table);
    assert_eq!(created.id, 1);
    assert_eq!(CarService::get_by_id(created.id, &table), Some(created));
    let next = CarService::create(corolla(), &mut table);
    assert_eq!(next.id, 2);
}

#[test]
fn blank_update_changes_nothing() {
    let mut table: Table<entity::car::Model> = Table::new();
    let created = CarService::create(corolla(), &mut table);
    let before = table.all();
    let updated = CarService::update(created.id, blank_car(), &mut table);
    assert_eq!(updated, Some(created));
    assert_eq!(table.all(), before);
}

#[test]
fn update_changes_exactly_the_present_field() {
    let mut table: Table<entity::car::Model> = Table::new();
    let first = CarService::create(corolla(), &mut table);
    let second = CarService::create(corolla(), &mut table);
    let updated = CarService::update(
        first.id,
        PartialCar { brand: Some("Honda".to_string()), model: None, year: None },
        &mut table,
    );
    assert_eq!(
        updated,
        Some(Car { id: 1, brand: "Honda".to_string(), model: "Corolla".to_string(), year: 2020 })
    );
    assert_eq!(
        table.find_by_id(1),
        Some(entity::car::Model {
            id: 1,
            brand: "Honda".to_string(),
            model: "Corolla".to_string(),
            year: 2020
        })
    );
    assert_eq!(CarService::get_by_id(second.id, &table), Some(second));
}

#[test]
fn update_of_missing_car_returns_nothing_and_changes_nothing() {
    let mut table: Table<entity::car::Model> = Table::new();
    let _ = CarService::create(corolla(), &mut table);
    let before = table.all();
    let updated = CarService::update(
        7,
        PartialCar { brand: None, model: None, year: Some(1) },
        &mut table,
    );
    assert_eq!(updated, None);
    assert_eq!(table.all(), before);
    let response = CarController::patch(7, blank_car(), &mut table);
    assert_eq!(response.status, 404);
    assert_eq!(response.body, None);
}

#[test]
fn delete_then_get_returns_nothing() {
    let mut table: Table<entity::car::Model> = Table::new();
    let created = CarService::create(corolla(), &mut table);
    assert_eq!(CarService::delete(created.id, &mut table), Some(()));
    assert_eq!(CarService::get_by_id(created.id, &table), None);
    assert_eq!(table.all(), vec![]);
}

#[test]
fn get_of_an_id_never_created_returns_nothing() {
    let mut table: Table<entity::car::Model> = Table::new();
    assert_eq!(CarService::get_by_id(1, &table), None);
    let _ = CarService::create(corolla(), &mut table);
    assert_eq!(CarService::get_by_id(2, &table), None);
    assert_eq!(CarService::get_by_id(-1, &table), None);
    assert_eq!(CarService::get_by_id(0, &table), None);
}

#[test]
fn delete_of_missing_id_is_not_found() {
    let mut table: Table<entity::car::Model> = Table::new();
    let _ = CarService::create(corolla(), &mut table);
    let before = table.all();
    assert_eq!(CarService::delete(42, &mut table), None);
    assert_eq!(table.all(), before);
    let response = CarController::delete(42, &mut table);
    assert_eq!(response.status, 404);
    assert_eq!(response.body, None);
}

#[test]
fn deleted_identifier_is_not_assigned_again() {
    let mut table: Table<entity::car::Model> = Table::new();
    let first = CarService::create(corolla(), &mut table);
    assert_eq!(CarService::delete(first.id, &mut table), Some(()));
    let second = CarService::create(corolla(), &mut table);
    assert_eq!(second.id, 2);
    assert_eq!(CarService::get_by_id(1, &table), None);
}

#[test]
fn animal_goes_through_the_same_operations() {
    let mut table: Table<entity::animal::Model> = Table::new();
    let response = AnimalController::post(
        PostAnimal { race: "cat".to_string(), name: "Tom".to_string(), age: 3 },
        &mut table,
        "/api/animals",
    );
    assert_eq!(response.status, 201);
    assert_eq!(response.location, Some("/api/animals/1".to_string()));
    let tom = Animal { id: 1, race: "cat".to_string(), name: "Tom".to_string(), age: 3 };
    assert_eq!(response.body, Some(tom.clone()));
    assert_eq!(AnimalService::get_all(&table), vec![tom]);
    let older = AnimalService::update(
        1,
        PartialAnimal { race: None, name: None, age: Some(4) },
        &mut table,
    );
    assert_eq!(
        older,
        Some(Animal { id: 1, race: "cat".to_string(), name: "Tom".to_string(), age: 4 })
    );
    assert_eq!(AnimalController::delete(1, &mut table).status, 204);
    assert_eq!(AnimalController::read(1, &table).status, 404);
    assert_eq!(AnimalController::reads(&table).body, Some(vec![]));
}

#[test]
fn from_entity_copies_every_field() {
    let row = entity::car::Model {
        id: 9,
        brand: "Saab".to_string(),
        model: "900".to_string(),
        year: 1985,
    };
    assert_eq!(
        Car::from_entity(row),
        Car { id: 9, brand: "Saab".to_string(), model: "900".to_string(), year: 1985 }
    );
}

#[test]
fn create_form_sets_every_field_but_the_identifier() {
    let active: entity::car::ActiveModel = corolla().into_active_model();
    assert_eq!(active.id, ActiveValue::NotSet);
    assert_eq!(active.brand, ActiveValue::Assigned("Toyota".to_string()));
    assert_eq!(active.model, ActiveValue::Assigned("Corolla".to_string()));
    assert_eq!(active.year, ActiveValue::Assigned(2020));
    assert_eq!(active.primary_key(), None);
    assert!(active.is_complete());
}

#[test]
fn merge_takes_present_fields_and_keeps_the_identifier() {
    let row = entity::car::Model {
        id: 5,
        brand: "Saab".to_string(),
        model: "900".to_string(),
        year: 1985,
    };
    let partial = PartialCar { brand: None, model: Some("9000".to_string()), year: None };
    let active = partial.into_active_model(row);
    assert_eq!(
        active,
        entity::car::ActiveModel {
            id: ActiveValue::Assigned(5),
            brand: ActiveValue::Assigned("Saab".to_string()),
            model: ActiveValue::Assigned("9000".to_string()),
            year: ActiveValue::Assigned(1985),
        }
    );
    assert_eq!(active.primary_key(), Some(5));
    let written = active.into_row(5);
    assert_eq!(written.id(), 5);
    assert_eq!(written.duplicate(), written);
}

#[test]
fn active_value_reports_what_it_carries() {
    assert!(ActiveValue::Assigned(1).is_present());
    assert!(ActiveValue::Unchanged(1).is_present());
    assert!(!ActiveValue::<i32>::NotSet.is_present());
    assert_eq!(ActiveValue::Assigned(1).into_value_or(2), 1);
    assert_eq!(ActiveValue::Unchanged(3).into_value_or(2), 3);
    assert_eq!(ActiveValue::<i32>::NotSet.into_value_or(2), 2);
}

#[test]
fn table_refuses_a_new_row_with_an_identifier() {
    let mut table: Table<entity::car::Model> = Table::new();
    let row = entity::car::Model {
        id: 5,
        brand: "Saab".to_string(),
        model: "900".to_string(),
        year: 1985,
    };
    let form = entity::car::ActiveModel::from_row(row);
    assert_eq!(table.insert(form), Err(StoreError::IdentifierGiven));
    assert_eq!(table.all(), vec![]);
}

#[test]
fn table_refuses_an_incomplete_row() {
    let mut table: Table<entity::car::Model> = Table::new();
    let form = entity::car::ActiveModel {
        id: ActiveValue::NotSet,
        brand: ActiveValue::Assigned("Saab".to_string()),
        model: ActiveValue::NotSet,
        year: ActiveValue::Assigned(1985),
    };
    assert_eq!(table.insert(form.clone()), Err(StoreError::Incomplete));
    let _ = CarService::create(corolla(), &mut table);
    let aimed = entity::car::ActiveModel { id: ActiveValue::Assigned(1), ..form };
    assert_eq!(table.update(aimed), Err(StoreError::Incomplete));
}

#[test]
fn table_refuses_a_write_without_an_identifier() {
    let mut table: Table<entity::car::Model> = Table::new();
    let _ = CarService::create(corolla(), &mut table);
    let form: entity::car::ActiveModel = corolla().into_active_model();
    assert_eq!(table.update(form.clone()), Err(StoreError::IdentifierMissing));
    assert_eq!(table.delete(form), Err(StoreError::IdentifierMissing));
}

#[test]
fn table_refuses_a_write_to_a_missing_row() {
    let mut table: Table<entity::car::Model> = Table::new();
    let row = entity::car::Model {
        id: 5,
        brand: "Saab".to_string(),
        model: "900".to_string(),
        year: 1985,
    };
    let form = entity::car::ActiveModel::from_row(row.clone());
    assert_eq!(table.update(form.clone()), Err(StoreError::RecordNotFound));
    assert_eq!(table.delete(form), Err(StoreError::RecordNotFound));
    assert!(!table.is_full());
}

#[test]
fn service_steps_decide_on_what_the_store_returned() {
    let row = entity::car::Model {
        id: 5,
        brand: "Saab".to_string(),
        model: "900".to_string(),
        year: 1985,
    };
    let car = Car { id: 5, brand: "Saab".to_string(), model: "900".to_string(), year: 1985 };
    let found: Result<Option<entity::car::Model>, String> = Ok(Some(row.clone()));
    assert_eq!(service::looked_up::<_, Car, _>(found), Some(car.clone()));
    let absent: Result<Option<entity::car::Model>, String> = Ok(None);
    assert_eq!(service::looked_up::<_, Car, _>(absent), None);
    let failed: Result<Option<entity::car::Model>, String> = Err("connection lost".to_string());
    assert_eq!(service::looked_up::<_, Car, _>(failed), None);
    assert_eq!(service::listed::<_, Car>(&vec![row.clone()]), vec![car]);
    let write: Option<entity::car::ActiveModel> = service::merge_onto(blank_car(), None);
    assert_eq!(write, None);
    let write: Option<entity::car::ActiveModel> =
        service::merge_onto(blank_car(), Some(row.clone()));
    assert_eq!(write.map(|w| w.into_row(5)), Some(row.clone()));
    let removal: Option<entity::car::ActiveModel> = service::removal_of(Some(row));
    assert_eq!(removal.map(|w| w.primary_key()), Some(Some(5)));
    let ok: Result<(), String> = Ok(());
    assert_eq!(service::deleted(ok), Some(()));
}

#[test]
fn responses_have_the_status_of_their_outcome() {
    let listed: Response<Vec<i32>> = listing_response(vec![1, 2]);
    assert_eq!(listed, Response { status: 200, location: None, body: Some(vec![1, 2]) });
    assert_eq!(found_response(Some(7)), Response { status: 200, location: None, body: Some(7) });
    assert_eq!(
        found_response::<i32>(None),
        Response { status: 404, location: None, body: None }
    );
    assert_eq!(deleted_response(Some(())).status, 204);
    assert_eq!(deleted_response(None).status, 404);
}

#[test]
fn location_is_the_uri_a_slash_and_the_decimal_identifier() {
    let car = Car { id: -2147483648, brand: String::new(), model: String::new(), year: 0 };
    let response = created_response("/api/cars", car);
    assert_eq!(response.location, Some("/api/cars/-2147483648".to_string()));
    let car = Car { id: 0, brand: String::new(), model: String::new(), year: 0 };
    assert_eq!(created_response("", car).location, Some("/0".to_string()));
    let car = Car { id: 1070, brand: String::new(), model: String::new(), year: 0 };
    assert_eq!(created_response("x", car).location, Some("x/1070".to_string()));
}

#[test]
fn decimal_text_writes_every_digit_and_the_sign() {
    assert_eq!(decimal_text(0), "0");
    assert_eq!(decimal_text(7), "7");
    assert_eq!(decimal_text(10), "10");
    assert_eq!(decimal_text(1234567890), "1234567890");
    assert_eq!(decimal_text(2147483647), "2147483647");
    assert_eq!(decimal_text(-1), "-1");
    assert_eq!(decimal_text(-908), "-908");
    assert_eq!(decimal_text(-2147483648), "-2147483648");
    assert_eq!(location("/api/cars", 42), "/api/cars/42");
    assert_eq!(location("/api/cars/", 42), "/api/cars//42");
}

#[test]
fn table_refuses_a_new_row_when_identifiers_are_exhausted() {
    let mut table: Table<entity::car::Model> = Table::starting_at(i32::MAX - 1);
    assert!(!table.is_full());
    let last = CarService::create(corolla(), &mut table);
    assert_eq!(last.id, i32::MAX - 1);
    assert!(table.is_full());
    let form: entity::car::ActiveModel = corolla().into_active_model();
    assert_eq!(table.insert(form), Err(StoreError::Exhausted));
    assert_eq!(table.all().len(), 1);
    assert_eq!(CarService::get_by_id(i32::MAX, &table), None);
}

#[test]
fn table_starting_below_zero_assigns_negative_identifiers() {
    let mut table: Table<entity::animal::Model> = Table::starting_at(-2);
    let response = AnimalController::post(
        PostAnimal { race: "dog".to_string(), name: "Rex".to_string(), age: 1 },
        &mut table,
        "/api/animals",
    );
    assert_eq!(response.location, Some("/api/animals/-2".to_string()));
    assert_eq!(AnimalService::get_by_id(-2, &table).map(|a| a.name), Some("Rex".to_string()));
}
