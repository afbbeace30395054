//! Derives from one declared record its model family, and the types that the
//! service and the controller of its resource are bound to.

use vstd::prelude::*;
use vstd::string::StringExecFns;
use crate::schema::{
    attribute_value, build_type_path, first_marked, get_attribute_value, get_field_by_name,
    has_field_by_name, split_path, texts, Data, DeriveInput, Field, GenerationError, TypePath,
};

verus! {

/// A member of a derived struct.
#[derive(Clone, Debug, PartialEq, Eq)]
pub struct Member {
    pub name: String,
    pub ty: String,
}

/// A derived struct.
#[derive(Clone, Debug, PartialEq, Eq)]
pub struct StructDef {
    pub name: String,
    pub members: Vec<Member>,
}

/// Where a column of the merged write form takes its value from.
#[derive(Clone, Debug, PartialEq, Eq)]
pub enum Assignment {
    /// The identifier: always that of the stored row.
    Identifier,
    /// The field of this name of the update where it is present, else that
    /// of the stored row.
    Merged(String),
}

/// What is derived from a record: the paths of its stored row and write
/// form, its creation form, its partial-update form, and how rows are
/// converted.
#[derive(Clone, Debug, PartialEq, Eq)]
pub struct ModelFamily {
    pub name: String,
    pub model: TypePath,
    pub active_model: TypePath,
    pub create: StructDef,
    pub partial: StructDef,
    pub from_entity_fields: Vec<String>,
    pub to_active_model_fields: Vec<Assignment>,
}

/// The types that the controller of a resource works with.
#[derive(Clone, Debug, PartialEq, Eq)]
pub struct ControllerBinding {
    pub model: TypePath,
    pub post_model: TypePath,
    pub partial_model: TypePath,
    pub service: TypePath,
}

/// The types that the service of a resource works with.
#[derive(Clone, Debug, PartialEq, Eq)]
pub struct ServiceBinding {
    pub model: TypePath,
    pub active_model: TypePath,
    pub model_from_entity: TypePath,
    pub post_model: TypePath,
    pub partial_model: TypePath,
    pub entity: TypePath,
}

/// The position in the record of the member `k` of a form that leaves out
/// the field at `id`.
pub open spec fn source_of(k: int, id: int) -> int {
    if k < id {
        k
    } else {
        k + 1
    }
}

/// The type of a field that may be absent.
pub open spec fn optional(ty: Seq<char>) -> Seq<char> {
    "Option<"@ + ty + ">"@
}

/// The segments of the path of `item` in the entity module of `module`.
pub open spec fn entity_path(module: Seq<char>, item: Seq<char>) -> Seq<Seq<char>> {
    split_path("crate::entity::"@ + module + "::"@ + item, 0)
}

/// The segments of the path of the model `prefix` + `capitalized` in the
/// models module of `module`.
pub open spec fn models_path(module: Seq<char>, prefix: Seq<char>, capitalized: Seq<char>) -> Seq<
    Seq<char>,
> {
    split_path("crate::"@ + module + "::models::"@ + prefix + capitalized, 0)
}

/// Whether `def` is the creation form of the record `name` with `fields`,
/// whose identifier is the field at `id`: every other field, in order, as
/// declared.
pub open spec fn is_create_form(def: StructDef, name: Seq<char>, fields: Seq<Field>, id: int) -> bool {
    &&& def.name@ == "Post"@ + name
    &&& def.members@.len() == fields.len() - 1
    &&& forall|k: int|
        0 <= k < def.members@.len() ==> {
            &&& (#[trigger] def.members@[k]).name@ == fields[source_of(k, id)].name@
            &&& def.members@[k].ty@ == fields[source_of(k, id)].ty@
        }
}

/// Whether `def` is the partial-update form of the record `name` with
/// `fields`, whose identifier is the field at `id`: every other field, in
/// order, each optional.
pub open spec fn is_partial_form(def: StructDef, name: Seq<char>, fields: Seq<Field>, id: int) -> bool {
    &&& def.name@ == "Partial"@ + name
    &&& def.members@.len() == fields.len() - 1
    &&& forall|k: int|
        0 <= k < def.members@.len() ==> {
            &&& (#[trigger] def.members@[k]).name@ == fields[source_of(k, id)].name@
            &&& def.members@[k].ty@ == optional(fields[source_of(k, id)].ty@)
        }
}

/// Whether `columns` merge an update onto a stored row of the record with
/// `fields`: the identifier field comes from the stored row, every other
/// field is merged under its own name.
pub open spec fn is_merge(columns: Seq<Assignment>, fields: Seq<Field>, id: int) -> bool {
    &&& columns.len() == fields.len()
    &&& forall|i: int|
        0 <= i < columns.len() ==> (#[trigger] columns[i]) is Identifier == (fields[i].name@
            == fields[id].name@)
    &&& forall|i: int|
        0 <= i < columns.len() && (#[trigger] columns[i]) is Merged ==> columns[i]->Merged_0@
            == fields[i].name@
}

/// Whether `family` is what is derived from the record `name` of `module`
/// with `fields`, whose identifier is the field at `id`.
pub open spec fn is_family(
    family: ModelFamily,
    name: Seq<char>,
    module: Seq<char>,
    fields: Seq<Field>,
    id: int,
) -> bool {
    &&& family.name@ == name
    &&& family.model.names() == entity_path(module, "Model"@)
    &&& family.active_model.names() == entity_path(module, "ActiveModel"@)
    &&& is_create_form(family.create, name, fields, id)
    &&& is_partial_form(family.partial, name, fields, id)
    &&& texts(family.from_entity_fields@) == Seq::new(fields.len(), |i: int| fields[i].name@)
    &&& is_merge(family.to_active_model_fields@, fields, id)
}

/// Why nothing is derived from `input`, if nothing is.
pub open spec fn refusal(input: DeriveInput) -> Option<GenerationError> {
    if attribute_value(input.attrs@, "module"@, 0).is_none() {
        Some(GenerationError::ModuleMissing)
    } else if !(input.data is Record) {
        Some(GenerationError::NotARecord)
    } else if first_marked(input.data->Record_0@, "idField"@, 0).is_none() {
        Some(GenerationError::IdFieldMissing)
    } else {
        None
    }
}

fn join(a: &str, b: &str, c: &str, d: &str) -> (text: String)
    ensures
        text@ == a@ + b@ + c@ + d@,
{
    String::from_str(a).concat(b).concat(c).concat(d)
}

fn entity_type(module: &str, item: &str) -> (path: TypePath)
    ensures
        path.names() == entity_path(module@, item@),
{
    let text = join("crate::entity::", module, "::", item);
    build_type_path(text.as_str())
}

fn models_type(module: &str, prefix: &str, capitalized: &str) -> (path: TypePath)
    ensures
        path.names() == models_path(module@, prefix@, capitalized@),
{
    let text = join("crate::", module, "::models::", prefix).concat(capitalized);
    build_type_path(text.as_str())
}

fn text_eq(a: &String, b: &String) -> (same: bool)
    ensures
        same == (a@ == b@),
{
    *a == *b
}

/// Derives the model family of a record: its creation form and its
/// partial-update form without the identifier field, and the conversions
/// from and onto a stored row.
pub fn crud_model(input: &DeriveInput) -> (derived: Result<ModelFamily, GenerationError>)
    ensures
        match derived {
            Ok(family) => refusal(*input).is_none() && is_family(
                family,
                input.ident@,
                attribute_value(input.attrs@, "module"@, 0).unwrap()@,
                input.data->Record_0@,
                first_marked(input.data->Record_0@, "idField"@, 0).unwrap(),
            ),
            Err(e) => refusal(*input) == Some(e),
        },
{
    let module = match get_attribute_value(input, "module") {
        Some(module) => module,
        None => {
            return Err(GenerationError::ModuleMissing);
        },
    };
    let model = entity_type(module.as_str(), "Model");
    let active_model = entity_type(module.as_str(), "ActiveModel");
    let fields = match &input.data {
        Data::Record(fields) => fields,
        _ => {
            return Err(GenerationError::NotARecord);
        },
    };
    if !has_field_by_name("idField", fields) {
        return Err(GenerationError::IdFieldMissing);
    }
    let id = get_field_by_name("idField", fields);
    let mut create: Vec<Member> = Vec::new();
    let mut partial: Vec<Member> = Vec::new();
    let mut from_entity_fields: Vec<String> = Vec::new();
    let mut to_active_model_fields: Vec<Assignment> = Vec::new();
    let mut i: usize = 0;
    while i < fields.len()
        invariant
            i <= fields@.len(),
            id < fields@.len(),
            create@.len() == (if i <= id {
                i as int
            } else {
                i - 1
            }),
            partial@.len() == create@.len(),
            forall|k: int|
                0 <= k < create@.len() ==> {
                    &&& (#[trigger] create@[k]).name@ == fields@[source_of(k, id as int)].name@
                    &&& create@[k].ty@ == fields@[source_of(k, id as int)].ty@
                },
            forall|k: int|
                0 <= k < partial@.len() ==> {
                    &&& (#[trigger] partial@[k]).name@ == fields@[source_of(k, id as int)].name@
                    &&& partial@[k].ty@ == optional(fields@[source_of(k, id as int)].ty@)
                },
            from_entity_fields@.len() == i,
            forall|j: int| 0 <= j < i ==> (#[trigger] from_entity_fields@[j])@ == fields@[j].name@,
            to_active_model_fields@.len() == i,
            forall|j: int|
                0 <= j < i ==> (#[trigger] to_active_model_fields@[j]) is Identifier == (
                fields@[j].name@ == fields@[id as int].name@),
            forall|j: int|
                0 <= j < i && (#[trigger] to_active_model_fields@[j]) is Merged
                    ==> to_active_model_fields@[j]->Merged_0@ == fields@[j].name@,
        decreases fields@.len() - i,
    {
        let field = &fields[i];
        if i != id {
            create.push(Member { name: field.name.clone(), ty: field.ty.clone() });
            partial.push(
                Member {
                    name: field.name.clone(),
                    ty: String::from_str("Option<").concat(field.ty.as_str()).concat(">"),
                },
            );
        }
        from_entity_fields.push(field.name.clone());
        if text_eq(&field.name, &fields[id].name) {
            to_active_model_fields.push(Assignment::Identifier);
        } else {
            to_active_model_fields.push(Assignment::Merged(field.name.clone()));
        }
        i += 1;
    }
    assert(texts(from_entity_fields@) =~= Seq::new(fields@.len(), |i: int| fields@[i].name@));
    let family = ModelFamily {
        name: input.ident.clone(),
        model,
        active_model,
        create: StructDef { name: String::from_str("Post").concat(input.ident.as_str()), members: create },
        partial: StructDef {
            name: String::from_str("Partial").concat(input.ident.as_str()),
            members: partial,
        },
        from_entity_fields,
        to_active_model_fields,
    };
    Ok(family)
}

/// The upper camel case form of a text, as the crate `heck` computes it.
pub uninterp spec fn upper_camel_case(text: Seq<char>) -> Seq<char>;

/// Calls `heck::AsUpperCamelCase` on `text` and prints the result into a
/// string. Nothing is claimed of the result beyond that it is what `heck`
/// gives for this text.
#[verifier::external_body]
fn to_upper_camel_case(text: &str) -> (camel: String)
    ensures
        camel@ == upper_camel_case(text@),
{
    format!("{}", heck::AsUpperCamelCase(text))
}

/// Whether `binding` names the types of the controller of `module`, whose
/// models are called after `capitalized`.
pub open spec fn is_controller_binding(
    binding: ControllerBinding,
    module: Seq<char>,
    capitalized: Seq<char>,
) -> bool {
    &&& binding.model.names() == models_path(module, ""@, capitalized)
    &&& binding.post_model.names() == models_path(module, "Post"@, capitalized)
    &&& binding.partial_model.names() == models_path(module, "Partial"@, capitalized)
    &&& binding.service.names() == split_path(
        "crate::"@ + module + "::service::"@ + capitalized + "Service"@,
        0,
    )
}

/// Whether `binding` names the types of the service of `module`, whose
/// models are called after `capitalized`.
pub open spec fn is_service_binding(
    binding: ServiceBinding,
    module: Seq<char>,
    capitalized: Seq<char>,
) -> bool {
    &&& binding.model.names() == models_path(module, ""@, capitalized)
    &&& binding.active_model.names() == entity_path(module, "ActiveModel"@)
    &&& binding.model_from_entity.names() == split_path(
        "crate::"@ + module + "::models::"@ + capitalized + "::from_entity"@,
        0,
    )
    &&& binding.post_model.names() == models_path(module, "Post"@, capitalized)
    &&& binding.partial_model.names() == models_path(module, "Partial"@, capitalized)
    &&& binding.entity.names() == entity_path(module, "Entity"@)
}

/// Names the types of the controller of `module`, given the upper camel
/// case form of the module's name.
pub fn controller_binding(module: &str, capitalized: &str) -> (binding: ControllerBinding)
    ensures
        is_controller_binding(binding, module@, capitalized@),
{
    let service = join("crate::", module, "::service::", capitalized).concat("Service");
    ControllerBinding {
        model: models_type(module, "", capitalized),
        post_model: models_type(module, "Post", capitalized),
        partial_model: models_type(module, "Partial", capitalized),
        service: build_type_path(service.as_str()),
    }
}

/// Names the types of the service of `module`, given the upper camel case
/// form of the module's name.
pub fn service_binding(module: &str, capitalized: &str) -> (binding: ServiceBinding)
    ensures
        is_service_binding(binding, module@, capitalized@),
{
    let from_entity = join("crate::", module, "::models::", capitalized).concat("::from_entity");
    ServiceBinding {
        model: models_type(module, "", capitalized),
        active_model: entity_type(module, "ActiveModel"),
        model_from_entity: build_type_path(from_entity.as_str()),
        post_model: models_type(module, "Post", capitalized),
        partial_model: models_type(module, "Partial", capitalized),
        entity: entity_type(module, "Entity"),
    }
}

/// Binds the controller of a resource to the models and the service of the
/// module that the declaration names.
pub fn crud_controller(input: &DeriveInput) -> (derived: Result<
    ControllerBinding,
    GenerationError,
>)
    ensures
        match derived {
            Ok(binding) => {
                &&& attribute_value(input.attrs@, "module"@, 0).is_some()
                &&& is_controller_binding(
                    binding,
                    attribute_value(input.attrs@, "module"@, 0).unwrap()@,
                    upper_camel_case(attribute_value(input.attrs@, "module"@, 0).unwrap()@),
                )
            },
            Err(e) => e == GenerationError::ModuleMissing && attribute_value(
                input.attrs@,
                "module"@,
                0,
            ).is_none(),
        },
{
    let module = match get_attribute_value(input, "module") {
        Some(module) => module,
        None => {
            return Err(GenerationError::ModuleMissing);
        },
    };
    let capitalized = to_upper_camel_case(module.as_str());
    Ok(controller_binding(module.as_str(), capitalized.as_str()))
}

/// Binds the service of a resource to the models and the entity of the
/// module that the declaration names.
pub fn crud_service(input: &DeriveInput) -> (derived: Result<ServiceBinding, GenerationError>)
    ensures
        match derived {
            Ok(binding) => {
                &&& attribute_value(input.attrs@, "module"@, 0).is_some()
                &&& is_service_binding(
                    binding,
                    attribute_value(input.attrs@, "module"@, 0).unwrap()@,
                    upper_camel_case(attribute_value(input.attrs@, "module"@, 0).unwrap()@),
                )
            },
            Err(e) => e == GenerationError::ModuleMissing && attribute_value(
                input.attrs@,
                "module"@,
                0,
            ).is_none(),
        },
{
    let module = match get_attribute_value(input, "module") {
        Some(module) => module,
        None => {
            return Err(GenerationError::ModuleMissing);
        },
    };
    let capitalized = to_upper_camel_case(module.as_str());
    Ok(service_binding(module.as_str(), capitalized.as_str()))
}

} // verus!
