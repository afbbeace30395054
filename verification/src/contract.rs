//! The contracts that every resource implements: how a model is built from a
//! stored row, how a request body becomes a row to write, and what the store
//! needs to know about rows.

use vstd::prelude::*;

verus! {

/// One column of a row that is about to be written.
#[derive(Clone, Debug, PartialEq, Eq)]
pub enum ActiveValue<T> {
    /// The column is written with this value.
    Assigned(T),
    /// The column already holds this value and is not written.
    Unchanged(T),
    /// The column is left to the store.
    NotSet,
}

impl<T> ActiveValue<T> {
    /// The value carried by the column, if it carries one.
    pub open spec fn value(self) -> Option<T> {
        match self {
            ActiveValue::Assigned(v) => Some(v),
            ActiveValue::Unchanged(v) => Some(v),
            ActiveValue::NotSet => None,
        }
    }

    /// Whether the column carries a value.
    pub fn is_present(&self) -> (present: bool)
        ensures
            present == self.value().is_some(),
    {
        match self {
            ActiveValue::Assigned(_) => true,
            ActiveValue::Unchanged(_) => true,
            ActiveValue::NotSet => false,
        }
    }

    /// Takes the value out of the column, or `fallback` where it has none.
    pub fn into_value_or(self, fallback: T) -> (v: T)
        ensures
            v == (match self.value() {
                Some(x) => x,
                None => fallback,
            }),
    {
        match self {
            ActiveValue::Assigned(v) => v,
            ActiveValue::Unchanged(v) => v,
            ActiveValue::NotSet => fallback,
        }
    }
}

/// A stored row: it has an identifier and can be copied out of the store.
pub trait ModelTrait: Sized {
    /// The identifier of the row.
    spec fn key(&self) -> i32;

    fn id(&self) -> (id: i32)
        ensures
            id == self.key(),
    ;

    /// An equal copy of the row.
    fn duplicate(&self) -> (copy: Self)
        ensures
            copy == *self,
    ;
}

/// The write form of a row of type `E`: each column is set or left out.
pub trait ActiveModelTrait<E: ModelTrait>: Sized {
    /// The identifier the write is aimed at, if the form names one.
    spec fn target(&self) -> Option<i32>;

    /// Whether every business column carries a value.
    spec fn complete(&self) -> bool;

    /// The row that a complete form describes, stored under `id`.
    spec fn row(self, id: i32) -> E;

    /// The form that rewrites `row` as it is.
    spec fn of_row(row: E) -> Self;

    /// A row built from a form is stored under the identifier it was given.
    proof fn row_key(self, id: i32)
        ensures
            self.row(id).key() == id,
    ;

    /// The form of a stored row is complete, aims at that row and describes it.
    proof fn of_row_round_trip(row: E)
        ensures
            Self::of_row(row).complete(),
            Self::of_row(row).target() == Some(row.key()),
            Self::of_row(row).row(row.key()) == row,
    ;

    fn primary_key(&self) -> (k: Option<i32>)
        ensures
            k == self.target(),
    ;

    fn is_complete(&self) -> (c: bool)
        ensures
            c == self.complete(),
    ;

    fn into_row(self, id: i32) -> (row: E)
        requires
            self.complete(),
        ensures
            row == self.row(id),
    ;

    fn from_row(row: E) -> (form: Self)
        ensures
            form == Self::of_row(row),
    ;
}

/// Builds the model that clients see from a stored row.
pub trait FromEntity<EntityModel>: Sized {
    /// The model that stands for `entity`.
    spec fn model_of(entity: EntityModel) -> Self;

    fn from_entity(entity: EntityModel) -> (model: Self)
        ensures
            model == Self::model_of(entity),
    ;
}

/// Merges a partial update onto the row that is stored now.
pub trait ToActiveModel<ActiveModel: ActiveModelTrait<Model>, Model: ModelTrait>: Sized {
    /// The write form in which present fields come from `self` and absent
    /// fields, and the identifier, from `placeholder`.
    spec fn merged(self, placeholder: Model) -> ActiveModel;

    /// Whether no field is present.
    spec fn is_blank(&self) -> bool;

    /// A merge is a complete write aimed at the placeholder's row.
    proof fn merged_targets_placeholder(self, placeholder: Model)
        ensures
            self.merged(placeholder).complete(),
            self.merged(placeholder).target() == Some(placeholder.key()),
    ;

    /// Merging an update without fields writes the placeholder back.
    proof fn blank_merge_keeps_row(self, placeholder: Model)
        requires
            self.is_blank(),
        ensures
            self.merged(placeholder).row(placeholder.key()) == placeholder,
    ;

    fn into_active_model(self, placeholder: Model) -> (active: ActiveModel)
        ensures
            active == self.merged(placeholder),
    ;
}

/// Turns a creation request into the write form of a new row.
pub trait IntoActiveModel<ActiveModel: ActiveModelTrait<Model>, Model: ModelTrait>: Sized {
    /// The write form with every business column set and no identifier.
    spec fn fresh(self) -> ActiveModel;

    /// A creation request is a complete write that names no row.
    proof fn fresh_is_insertable(self)
        ensures
            self.fresh().complete(),
            self.fresh().target().is_none(),
    ;

    fn into_active_model(self) -> (active: ActiveModel)
        ensures
            active == self.fresh(),
    ;
}

} // verus!
