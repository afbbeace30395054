use generic_crud::generator::{
    controller_binding, crud_controller, crud_model, crud_service, service_binding, Assignment,
    Member,
};
use generic_crud::migrations::m20220101_000001_create_cars_table;
use generic_crud::migrations::m20221227_085209_create_animal_table;
use generic_crud::migrations::{
    create_resource_table, ColumnDef, ColumnType, Migrator, Step, TableDropStatement,
};
use generic_crud::router::{Method, Operation, Rocket, Route};
use generic_crud::schema::{
    build_type_path, get_attribute_value, get_field_by_name, has_field_by_name, Attribute, AttributeValue, Data,
    DeriveInput, Field, GenerationError, TypePath,
};
use generic_crud::server::{health_check, rocket};

fn flag(name: &str) -> Attribute {
    Attribute { name: name.to_string(), value: AttributeValue::Flag }
}

fn text(name: &str, value: &str) -> Attribute {
    Attribute { name: name.to_string(), value: AttributeValue::Text(value.to_string()) }
}

fn field(name: &str, ty: &str, attrs: Vec<Attribute>) -> Field {
    Field { name: name.to_string(), ty: ty.to_string(), attrs }
}

fn car_fields() -> Vec<Field> {
    vec![
        field("id", "i32", vec![flag("idField")]),
        field("brand", "String", vec![]),
        field("model", "String", vec![]),
        field("year", "i32", vec![]),
    ]
}

fn car_input() -> DeriveInput {
    DeriveInput {
        ident: "Car".to_string(),
        attrs: vec![flag("derive"), text("module", "car")],
        data: Data::Record(car_fields()),
    }
}

fn path(segments: &[&str]) -> TypePath {
    TypePath { segments: segments.iter().map(|s| s.to_string()).collect() }
}

fn member(name: &str, ty: &str) -> Member {
    Member { name: name.to_string(), ty: ty.to_string() }
}

#[test]
fn model_family_of_car() {
    let family = crud_model(&car_input()).unwrap();
    assert_eq!(family.name, "Car");
    assert_eq!(family.model, path(&["crate", "entity", "car", "Model"]));
    assert_eq!(family.active_model, path(&["crate", "entity", "car", "ActiveModel"]));
    assert_eq!(family.create.name, "PostCar");
    assert_eq!(
        family.create.members,
        vec![member("brand", "String"), member("model", "String"), member("year", "i32")]
    );
    assert_eq!(family.partial.name, "PartialCar");
    assert_eq!(
        family.partial.members,
        vec![
            member("brand", "Option<String>"),
            member("model", "Option<String>"),
            member("year", "Option<i32>")
        ]
    );
    assert_eq!(family.from_entity_fields, vec!["id", "brand", "model", "year"]);
    assert_eq!(
        family.to_active_model_fields,
        vec![
            Assignment::Identifier,
            Assignment::Merged("brand".to_string()),
            Assignment::Merged("model".to_string()),
            Assignment::Merged("year".to_string()),
        ]
    );
}

#[test]
fn identifier_is_found_by_its_mark_not_by_position_or_name() {
    let input = DeriveInput {
        ident: "Animal".to_string(),
        attrs: vec![text("module", "animal")],
        data: Data::Record(vec![
            field("race", "String", vec![]),
            field("key", "i32", vec![flag("serde"), flag("idField")]),
            field("age", "Option<i32>", vec![]),
        ]),
    };
    let family = crud_model(&input).unwrap();
    assert_eq!(family.create.members, vec![member("race", "String"), member("age", "Option<i32>")]);
    assert_eq!(
        family.partial.members,
        vec![member("race", "Option<String>"), member("age", "Option<Option<i32>>")]
    );
    assert_eq!(
        family.to_active_model_fields,
        vec![
            Assignment::Merged("race".to_string()),
            Assignment::Identifier,
            Assignment::Merged("age".to_string()),
        ]
    );
}

#[test]
fn record_with_only_an_identifier_has_empty_forms() {
    let input = DeriveInput {
        ident: "Tag".to_string(),
        attrs: vec![text("module", "tag")],
        data: Data::Record(vec![field("id", "i32", vec![flag("idField")])]),
    };
    let family = crud_model(&input).unwrap();
    assert_eq!(family.create.members, vec![]);
    assert_eq!(family.partial.members, vec![]);
    assert_eq!(family.to_active_model_fields, vec![Assignment::Identifier]);
}

#[test]
fn generation_fails_without_module() {
    let mut input = car_input();
    input.attrs = vec![flag("module"), Attribute {
        name: "module".to_string(),
        value: AttributeValue::Other,
    }];
    assert_eq!(crud_model(&input), Err(GenerationError::ModuleMissing));
    assert_eq!(crud_controller(&input), Err(GenerationError::ModuleMissing));
    assert_eq!(crud_service(&input), Err(GenerationError::ModuleMissing));
    input.data = Data::NotAStruct;
    assert_eq!(crud_model(&input), Err(GenerationError::ModuleMissing));
}

#[test]
fn generation_fails_on_what_is_not_a_record() {
    let mut input = car_input();
    input.data = Data::Plain;
    assert_eq!(crud_model(&input), Err(GenerationError::NotARecord));
    input.data = Data::NotAStruct;
    assert_eq!(crud_model(&input), Err(GenerationError::NotARecord));
}

#[test]
fn generation_fails_without_identifier_field() {
    let mut input = car_input();
    input.data = Data::Record(vec![field("brand", "String", vec![flag("id")])]);
    assert_eq!(crud_model(&input), Err(GenerationError::IdFieldMissing));
    input.data = Data::Record(vec![]);
    assert_eq!(crud_model(&input), Err(GenerationError::IdFieldMissing));
}

#[test]
fn attribute_value_is_the_first_string_under_the_name() {
    let input = DeriveInput {
        ident: "Car".to_string(),
        attrs: vec![
            text("service", "cars"),
            flag("module"),
            text("module", "car"),
            text("module", "truck"),
        ],
        data: Data::Plain,
    };
    assert_eq!(get_attribute_value(&input, "module"), Some("car".to_string()));
    assert_eq!(get_attribute_value(&input, "service"), Some("cars".to_string()));
    assert_eq!(get_attribute_value(&input, "model"), None);
}

#[test]
fn marked_field_is_the_first_with_the_attribute() {
    let fields = vec![
        field("a", "i32", vec![]),
        field("b", "i32", vec![flag("x"), flag("idField")]),
        field("c", "i32", vec![flag("idField")]),
    ];
    assert!(has_field_by_name("idField", &fields));
    assert_eq!(get_field_by_name("idField", &fields), 1);
    assert!(has_field_by_name("x", &fields));
    assert_eq!(get_field_by_name("x", &fields), 1);
    assert!(!has_field_by_name("y", &fields));
    assert!(!has_field_by_name("idField", &vec![]));
    let last = vec![field("a", "i32", vec![]), field("b", "i32", vec![flag("idField")])];
    assert_eq!(get_field_by_name("idField", &last), 1);
    let first = vec![field("a", "i32", vec![flag("idField")]), field("b", "i32", vec![])];
    assert_eq!(get_field_by_name("idField", &first), 0);
}

#[test]
fn type_path_is_split_at_double_colons() {
    assert_eq!(build_type_path("crate::entity::car::Model"), path(&["crate", "entity", "car", "Model"]));
    assert_eq!(build_type_path("Model"), path(&["Model"]));
    assert_eq!(build_type_path(""), path(&[""]));
    assert_eq!(build_type_path("::a"), path(&["", "a"]));
    assert_eq!(build_type_path("a::"), path(&["a", ""]));
    assert_eq!(build_type_path("a:::b"), path(&["a", ":b"]));
    assert_eq!(build_type_path("a::::b"), path(&["a", "", "b"]));
    assert_eq!(build_type_path("a:b"), path(&["a:b"]));
    assert_eq!(build_type_path("é::ü"), path(&["é", "ü"]));
}

#[test]
fn controller_is_bound_to_the_models_and_service_of_its_module() {
    let binding = crud_controller(&car_input()).unwrap();
    assert_eq!(binding.model, path(&["crate", "car", "models", "Car"]));
    assert_eq!(binding.post_model, path(&["crate", "car", "models", "PostCar"]));
    assert_eq!(binding.partial_model, path(&["crate", "car", "models", "PartialCar"]));
    assert_eq!(binding.service, path(&["crate", "car", "service", "CarService"]));
    assert_eq!(binding, controller_binding("car", "Car"));
}

#[test]
fn service_is_bound_to_the_models_and_entity_of_its_module() {
    let binding = crud_service(&car_input()).unwrap();
    assert_eq!(binding.model, path(&["crate", "car", "models", "Car"]));
    assert_eq!(binding.active_model, path(&["crate", "entity", "car", "ActiveModel"]));
    assert_eq!(binding.model_from_entity, path(&["crate", "car", "models", "Car", "from_entity"]));
    assert_eq!(binding.post_model, path(&["crate", "car", "models", "PostCar"]));
    assert_eq!(binding.partial_model, path(&["crate", "car", "models", "PartialCar"]));
    assert_eq!(binding.entity, path(&["crate", "entity", "car", "Entity"]));
    assert_eq!(binding, service_binding("car", "Car"));
}

#[test]
fn module_name_is_put_in_upper_camel_case() {
    let mut input = car_input();
    input.attrs = vec![text("module", "race_car")];
    let binding = crud_service(&input).unwrap();
    assert_eq!(binding.model, path(&["crate", "race_car", "models", "RaceCar"]));
    assert_eq!(binding.entity, path(&["crate", "entity", "race_car", "Entity"]));
    let binding = crud_controller(&input).unwrap();
    assert_eq!(binding.service, path(&["crate", "race_car", "service", "RaceCarService"]));
}

#[test]
fn car_routes_are_mounted_at_api_cars() {
    let fuelled = generic_crud::car::routes::fuel(Rocket::build());
    let base = "/api/cars";
    assert_eq!(
        fuelled.routes,
        vec![
            Route { method: Method::Get, base, pattern: "/", operation: Operation::Reads },
            Route { method: Method::Get, base, pattern: "/<obj_id>", operation: Operation::Read },
            Route { method: Method::Post, base, pattern: "/", operation: Operation::Post },
            Route { method: Method::Patch, base, pattern: "/<obj_id>", operation: Operation::Patch },
            Route { method: Method::Delete, base, pattern: "/<obj_id>", operation: Operation::Delete },
        ]
    );
}

#[test]
fn animal_routes_follow_what_was_mounted_before() {
    let health =
        Route { method: Method::Get, base: "/api", pattern: "/", operation: Operation::HealthCheck };
    let fuelled = generic_crud::animal::routes::fuel(Rocket::build().mount(health));
    assert_eq!(fuelled.routes.len(), 6);
    assert_eq!(fuelled.routes[0], health);
    assert!(fuelled.routes[1..].iter().all(|r| r.base == "/api/animals"));
    assert_eq!(fuelled.routes[5].method, Method::Delete);
}

#[test]
fn application_has_health_check_then_cars_then_animals() {
    assert_eq!(health_check(), "OK");
    let app = rocket();
    assert_eq!(app.routes.len(), 11);
    assert_eq!(app.routes[0].operation, Operation::HealthCheck);
    assert_eq!(app.routes[0].base, "/api");
    assert!(app.routes[1..6].iter().all(|r| r.base == "/api/cars"));
    assert!(app.routes[6..].iter().all(|r| r.base == "/api/animals"));
    assert_eq!(Rocket::build().mount_crud("/api/cars").routes, app.routes[1..6].to_vec());
}

#[test]
fn car_table_has_an_assigned_key_and_required_columns() {
    let migration = m20220101_000001_create_cars_table::Migration;
    assert_eq!(migration.name(), "m20220101_000001_create_cars_table");
    let up = migration.up();
    assert_eq!(up.table, "car");
    assert!(up.if_not_exists);
    let required = |name: &'static str, ty: ColumnType| ColumnDef {
        name,
        ty,
        not_null: true,
        auto_increment: false,
        primary_key: false,
    };
    assert_eq!(
        up.columns,
        vec![
            ColumnDef {
                name: "id",
                ty: ColumnType::Integer,
                not_null: true,
                auto_increment: true,
                primary_key: true
            },
            required("brand", ColumnType::String),
            required("model", ColumnType::String),
            required("year", ColumnType::Integer),
        ]
    );
    assert_eq!(migration.down(), TableDropStatement { table: "car" });
}

#[test]
fn animal_table_has_its_own_columns() {
    let migration = m20221227_085209_create_animal_table::Migration;
    assert_eq!(migration.name(), "m20221227_085209_create_animal_table");
    let up = migration.up();
    assert_eq!(up, create_resource_table("animal", "race", "name", "age"));
    let names: Vec<&str> = up.columns.iter().map(|c| c.name).collect();
    assert_eq!(names, vec!["id", "race", "name", "age"]);
    assert_eq!(migration.down().table, "animal");
}

#[test]
fn migrations_are_applied_cars_first() {
    assert_eq!(Migrator::migrations(), vec![Step::CreateCarsTable, Step::CreateAnimalTable]);
}
