//! The five operations of a resource on its table: list, get, create, update
//! and delete, for any model family that meets the contracts.

use vstd::prelude::*;
use vstd::pervasive::unreached;
use crate::contract::{ActiveModelTrait, FromEntity, IntoActiveModel, ModelTrait, ToActiveModel};
use crate::store::{removes, rewrites, Table};

verus! {

/// The models that stand for `rows`, in the same order.
pub open spec fn models_of<E, M: FromEntity<E>>(rows: Seq<E>) -> Seq<M> {
    Seq::new(rows.len(), |i: int| M::model_of(rows[i]))
}

/// The model of the row stored under `id`, if there is one.
pub open spec fn found_model<E, M: FromEntity<E>>(rows: Map<i32, E>, id: i32) -> Option<M> {
    if rows.dom().contains(id) {
        Some(M::model_of(rows[id]))
    } else {
        None
    }
}

/// The row that a creation request describes, under the identifier `id`.
pub open spec fn created_row<E: ModelTrait, A: ActiveModelTrait<E>, C: IntoActiveModel<A, E>>(
    form: C,
    id: i32,
) -> E {
    form.fresh().row(id)
}

/// The row that replaces `prior` when `form` is merged onto it.
pub open spec fn updated_row<E: ModelTrait, A: ActiveModelTrait<E>, P: ToActiveModel<A, E>>(
    form: P,
    prior: E,
) -> E {
    form.merged(prior).row(prior.key())
}

/// Builds the model of each row that a listing returned.
pub fn listed<E: ModelTrait, M: FromEntity<E>>(rows: &Vec<E>) -> (models: Vec<M>)
    ensures
        models@ == models_of::<E, M>(rows@),
{
    let mut models: Vec<M> = Vec::new();
    let mut i: usize = 0;
    while i < rows.len()
        invariant
            i <= rows@.len(),
            models@ == models_of::<E, M>(rows@.take(i as int)),
        decreases rows@.len() - i,
    {
        models.push(M::from_entity(rows[i].duplicate()));
        assert(models@ =~= models_of::<E, M>(rows@.take(i + 1)));
        i += 1;
    }
    assert(rows@.take(i as int) =~= rows@);
    models
}

/// Builds the model of what a lookup returned. A lookup that failed counts
/// as a lookup that found nothing.
pub fn looked_up<E, M: FromEntity<E>, X>(found: Result<Option<E>, X>) -> (model: Option<M>)
    ensures
        model == (match found {
            Ok(Some(row)) => Some(M::model_of(row)),
            _ => None,
        }),
{
    match found {
        Ok(Some(row)) => Some(M::from_entity(row)),
        _ => None,
    }
}

/// Decides what an update writes: the merge of `form` onto the row that was
/// found, or nothing where no row was found.
pub fn merge_onto<E: ModelTrait, A: ActiveModelTrait<E>, P: ToActiveModel<A, E>>(
    form: P,
    found: Option<E>,
) -> (write: Option<A>)
    ensures
        write == (match found {
            Some(prior) => Some(form.merged(prior)),
            None => None,
        }),
{
    match found {
        Some(prior) => Some(form.into_active_model(prior)),
        None => None,
    }
}

/// Decides what a delete removes: the row that was found, or nothing where
/// no row was found.
pub fn removal_of<E: ModelTrait, A: ActiveModelTrait<E>>(found: Option<E>) -> (write: Option<A>)
    ensures
        write == (match found {
            Some(row) => Some(A::of_row(row)),
            None => None,
        }),
{
    match found {
        Some(row) => Some(A::from_row(row)),
        None => None,
    }
}

/// Reports a delete that the store carried out. A delete that the store
/// failed is no outcome of this step: the caller gives the request up.
pub fn deleted<X>(outcome: Result<(), X>) -> (done: Option<()>)
    requires
        outcome.is_ok(),
    ensures
        done == Some(()),
{
    Some(())
}

/// The model of every row of the table, in the table's order.
pub fn get_all<E: ModelTrait, M: FromEntity<E>>(table: &Table<E>) -> (models: Vec<M>)
    requires
        table.wf(),
    ensures
        models@ == models_of::<E, M>(table.listing()),
{
    let rows = table.all();
    listed(&rows)
}

/// The model of the row stored under `obj_id`, or nothing where no row is.
pub fn get_by_id<E: ModelTrait, M: FromEntity<E>>(obj_id: i32, table: &Table<E>) -> (model: Option<
    M,
>)
    requires
        table.wf(),
    ensures
        model == found_model::<E, M>(table@, obj_id),
{
    let found: Result<Option<E>, ()> = Ok(table.find_by_id(obj_id));
    looked_up(found)
}

/// Stores a new row with the fields of `form` under the table's next
/// identifier and returns its model.
pub fn create<E: ModelTrait, A: ActiveModelTrait<E>, M: FromEntity<E>, C: IntoActiveModel<A, E>>(
    form: C,
    table: &mut Table<E>,
) -> (model: M)
    requires
        old(table).wf(),
        old(table).has_room(),
    ensures
        final(table).wf(),
        model == M::model_of(created_row::<E, A, C>(form, old(table).next_key())),
        created_row::<E, A, C>(form, old(table).next_key()).key() == old(table).next_key(),
        !old(table)@.dom().contains(old(table).next_key()),
        final(table)@ == old(table)@.insert(
            old(table).next_key(),
            created_row::<E, A, C>(form, old(table).next_key()),
        ),
        final(table).listing() == old(table).listing().push(
            created_row::<E, A, C>(form, old(table).next_key()),
        ),
        final(table).next_key() == old(table).next_key() + 1,
{
    proof {
        form.fresh_is_insertable();
        form.fresh().row_key(table.next_key());
        table.lemma_listing();
    }
    let active: A = form.into_active_model();
    match table.insert(active) {
        Ok(row) => M::from_entity(row),
        Err(_) => unreached(),
    }
}

/// Merges `form` onto the row stored under `obj_id`, stores the result in its
/// place and returns its model. Where no row is stored under `obj_id`, the
/// table is left as it is and nothing is returned.
pub fn update<E: ModelTrait, A: ActiveModelTrait<E>, M: FromEntity<E>, P: ToActiveModel<A, E>>(
    obj_id: i32,
    form: P,
    table: &mut Table<E>,
) -> (model: Option<M>)
    requires
        old(table).wf(),
    ensures
        final(table).wf(),
        final(table).next_key() == old(table).next_key(),
        old(table)@.dom().contains(obj_id) ==> {
            &&& model == Some(M::model_of(updated_row::<E, A, P>(form, old(table)@[obj_id])))
            &&& final(table)@ == old(table)@.insert(
                obj_id,
                updated_row::<E, A, P>(form, old(table)@[obj_id]),
            )
            &&& rewrites(
                old(table).listing(),
                final(table).listing(),
                obj_id,
                updated_row::<E, A, P>(form, old(table)@[obj_id]),
            )
        },
        !old(table)@.dom().contains(obj_id) ==> model.is_none() && *final(table) == *old(table),
{
    proof {
        table.lemma_listing();
    }
    let found = table.find_by_id(obj_id);
    let write: Option<A> = merge_onto(form, found);
    match write {
        Some(active) => {
            proof {
                form.merged_targets_placeholder(table@[obj_id]);
            }
            match table.update(active) {
                Ok(row) => Some(M::from_entity(row)),
                Err(_) => unreached(),
            }
        },
        None => None,
    }
}

/// Removes the row stored under `obj_id`. Where no row is stored under
/// `obj_id`, the table is left as it is and nothing is returned.
pub fn delete<E: ModelTrait, A: ActiveModelTrait<E>>(obj_id: i32, table: &mut Table<E>) -> (done:
    Option<()>)
    requires
        old(table).wf(),
    ensures
        final(table).wf(),
        final(table).next_key() == old(table).next_key(),
        done.is_some() == old(table)@.dom().contains(obj_id),
        done.is_some() ==> final(table)@ == old(table)@.remove(obj_id),
        done.is_some() ==> removes(old(table).listing(), final(table).listing(), obj_id),
        done.is_none() ==> *final(table) == *old(table),
{
    proof {
        table.lemma_listing();
    }
    let found = table.find_by_id(obj_id);
    let write: Option<A> = removal_of(found);
    match write {
        Some(active) => {
            proof {
                A::of_row_round_trip(table@[obj_id]);
            }
            deleted(table.delete(active))
        },
        None => None,
    }
}

/// The five operations that the service of a resource offers, for the model
/// family `Model`, `CreateModel`, `PartialModel` stored as rows of type `E`
/// that are written through `A`.
pub trait CRUDServiceTrait<
    E: ModelTrait,
    A: ActiveModelTrait<E>,
    Model: FromEntity<E>,
    CreateModel: IntoActiveModel<A, E>,
    PartialModel: ToActiveModel<A, E>,
> {
    /// The model of every row, in the table's order.
    fn get_all(db: &Table<E>) -> (models: Vec<Model>)
        requires
            db.wf(),
        ensures
            models@ == models_of::<E, Model>(db.listing()),
    ;

    /// The model of the row stored under `obj_id`, or nothing.
    fn get_by_id(obj_id: i32, db: &Table<E>) -> (model: Option<Model>)
        requires
            db.wf(),
        ensures
            model == found_model::<E, Model>(db@, obj_id),
    ;

    /// Stores a new row under the next identifier and returns its model.
    fn create(form: CreateModel, db: &mut Table<E>) -> (model: Model)
        requires
            old(db).wf(),
            old(db).has_room(),
        ensures
            final(db).wf(),
            model == Model::model_of(created_row::<E, A, CreateModel>(form, old(db).next_key())),
            created_row::<E, A, CreateModel>(form, old(db).next_key()).key() == old(db).next_key(),
            !old(db)@.dom().contains(old(db).next_key()),
            final(db)@ == old(db)@.insert(
                old(db).next_key(),
                created_row::<E, A, CreateModel>(form, old(db).next_key()),
            ),
            final(db).next_key() == old(db).next_key() + 1,
    ;

    /// Merges `form` onto the row stored under `obj_id` and returns the model
    /// of the result, or leaves the table alone where there is no such row.
    fn update(obj_id: i32, form: PartialModel, db: &mut Table<E>) -> (model: Option<Model>)
        requires
            old(db).wf(),
        ensures
            final(db).wf(),
            final(db).next_key() == old(db).next_key(),
            old(db)@.dom().contains(obj_id) ==> {
                &&& model == Some(
                    Model::model_of(updated_row::<E, A, PartialModel>(form, old(db)@[obj_id])),
                )
                &&& final(db)@ == old(db)@.insert(
                    obj_id,
                    updated_row::<E, A, PartialModel>(form, old(db)@[obj_id]),
                )
                &&& rewrites(
                    old(db).listing(),
                    final(db).listing(),
                    obj_id,
                    updated_row::<E, A, PartialModel>(form, old(db)@[obj_id]),
                )
            },
            !old(db)@.dom().contains(obj_id) ==> model.is_none() && *final(db) == *old(db),
    ;

    /// Removes the row stored under `obj_id`, or leaves the table alone where
    /// there is no such row.
    fn delete(obj_id: i32, db: &mut Table<E>) -> (done: Option<()>)
        requires
            old(db).wf(),
        ensures
            final(db).wf(),
            final(db).next_key() == old(db).next_key(),
            done.is_some() == old(db)@.dom().contains(obj_id),
            done.is_some() ==> final(db)@ == old(db)@.remove(obj_id),
            done.is_some() ==> removes(
                old(db).listing(),
                final(db).listing(),
                obj_id,
            ),
            done.is_none() ==> *final(db) == *old(db),
    ;
}

/// A row that was just created is found under its new identifier, as the
/// model that `create` returned.
pub proof fn lemma_create_then_get<
    E: ModelTrait,
    A: ActiveModelTrait<E>,
    M: FromEntity<E>,
    C: IntoActiveModel<A, E>,
>(form: C, rows: Map<i32, E>, next: i32)
    ensures
        created_row::<E, A, C>(form, next).key() == next,
        found_model::<E, M>(rows.insert(next, created_row::<E, A, C>(form, next)), next) == Some(
            M::model_of(created_row::<E, A, C>(form, next)),
        ),
{
    form.fresh().row_key(next);
}

/// An update without fields changes nothing: the row it writes is the row
/// that was stored, so the table and the model stay as they were.
pub proof fn lemma_blank_update_is_noop<
    E: ModelTrait,
    A: ActiveModelTrait<E>,
    M: FromEntity<E>,
    P: ToActiveModel<A, E>,
>(form: P, rows: Map<i32, E>, id: i32)
    requires
        rows.dom().contains(id),
        rows[id].key() == id,
        form.is_blank(),
    ensures
        updated_row::<E, A, P>(form, rows[id]) == rows[id],
        rows.insert(id, updated_row::<E, A, P>(form, rows[id])) == rows,
        Some(M::model_of(updated_row::<E, A, P>(form, rows[id]))) == found_model::<E, M>(rows, id),
{
    form.blank_merge_keeps_row(rows[id]);
    assert(rows.insert(id, rows[id]) =~= rows);
}

/// An update writes under the identifier of the row it was merged onto, and
/// changes no other row.
pub proof fn lemma_update_keeps_others<
    E: ModelTrait,
    A: ActiveModelTrait<E>,
    P: ToActiveModel<A, E>,
>(form: P, rows: Map<i32, E>, id: i32, other: i32)
    requires
        rows.dom().contains(id),
        other != id,
    ensures
        updated_row::<E, A, P>(form, rows[id]).key() == rows[id].key(),
        rows.insert(id, updated_row::<E, A, P>(form, rows[id])).dom().contains(other)
            == rows.dom().contains(other),
        rows.dom().contains(other) ==> rows.insert(id, updated_row::<E, A, P>(form, rows[id]))[other]
            == rows[other],
{
    form.merged(rows[id]).row_key(rows[id].key());
}

/// After a delete, nothing is found under the identifier it was asked to
/// delete: neither where it removed the row nor where there was none and it
/// left the rows as they were.
pub proof fn lemma_delete_then_get<E, M: FromEntity<E>>(rows: Map<i32, E>, id: i32)
    ensures
        found_model::<E, M>(rows.remove(id), id).is_none(),
        !rows.dom().contains(id) ==> found_model::<E, M>(rows, id).is_none(),
{
}

/// Nothing is found under an identifier that the table has not assigned yet.
pub proof fn lemma_unassigned_is_absent<E: ModelTrait, M: FromEntity<E>>(table: Table<E>, id: i32)
    requires
        table.wf(),
        id >= table.next_key(),
    ensures
        found_model::<E, M>(table@, id).is_none(),
{
    table.lemma_listing();
}

} // verus!
