//! The HTTP shape of the five operations: which status, header and body each
//! outcome of the service becomes.

use vstd::prelude::*;
use vstd::string::StringExecFns;
use crate::contract::{ActiveModelTrait, FromEntity, IntoActiveModel, ModelTrait, ToActiveModel};
use crate::service;
use crate::store::{removes, rewrites, Table};

verus! {

pub const OK: u16 = 200;

pub const CREATED: u16 = 201;

pub const NO_CONTENT: u16 = 204;

pub const NOT_FOUND: u16 = 404;

/// What goes back to the client: a status, the `Location` header where the
/// operation sets one, and the body where there is one.
#[derive(Clone, Debug, PartialEq, Eq)]
pub struct Response<B> {
    pub status: u16,
    pub location: Option<String>,
    pub body: Option<B>,
}

/// A canonical model: it carries the identifier of its resource.
pub trait Identified {
    /// The identifier of the resource.
    spec fn ident(&self) -> i32;

    fn identifier(&self) -> (id: i32)
        ensures
            id == self.ident(),
    ;
}

/// The decimal digits of `n`, most significant first.
pub open spec fn digits(n: nat) -> Seq<char>
    decreases n,
{
    if n < 10 {
        seq![('0' as u8 + n as u8) as char]
    } else {
        digits(n / 10).push(('0' as u8 + (n % 10) as u8) as char)
    }
}

/// The decimal notation of `id`, with a minus sign where it is negative.
pub open spec fn decimal(id: i32) -> Seq<char> {
    if id < 0 {
        seq!['-'] + digits((-(id as int)) as nat)
    } else {
        digits(id as nat)
    }
}

/// The address of the resource `id` below the collection at `uri`.
pub open spec fn location_of(uri: Seq<char>, id: i32) -> Seq<char> {
    uri + seq!['/'] + decimal(id)
}

fn digit_text(d: u32) -> (text: &'static str)
    requires
        d < 10,
    ensures
        text@ == seq![('0' as u8 + d as u8) as char],
{
    proof {
        reveal_strlit("0");
        reveal_strlit("1");
        reveal_strlit("2");
        reveal_strlit("3");
        reveal_strlit("4");
        reveal_strlit("5");
        reveal_strlit("6");
        reveal_strlit("7");
        reveal_strlit("8");
        reveal_strlit("9");
    }
    let text = if d == 0 {
        "0"
    } else if d == 1 {
        "1"
    } else if d == 2 {
        "2"
    } else if d == 3 {
        "3"
    } else if d == 4 {
        "4"
    } else if d == 5 {
        "5"
    } else if d == 6 {
        "6"
    } else if d == 7 {
        "7"
    } else if d == 8 {
        "8"
    } else {
        "9"
    };
    assert(text@ =~= seq![('0' as u8 + d as u8) as char]);
    text
}

/// Writes `id` in decimal notation.
pub fn decimal_text(id: i32) -> (text: String)
    ensures
        text@ == decimal(id),
{
    let magnitude: u32 = if id < 0 {
        (-(id as i64)) as u32
    } else {
        id as u32
    };
    let mut rest: u32 = magnitude / 10;
    let mut text = String::from_str(digit_text(magnitude % 10));
    while rest > 0
        invariant
            digits(magnitude as nat) == (if rest > 0 {
                digits(rest as nat)
            } else {
                Seq::<char>::empty()
            }) + text@,
        decreases rest,
    {
        let ghost low = text@;
        text = String::from_str(digit_text(rest % 10)).concat(text.as_str());
        assert(digits(rest as nat) + low =~= (if rest / 10 > 0 {
            digits((rest / 10) as nat)
        } else {
            Seq::<char>::empty()
        }) + text@);
        rest = rest / 10;
    }
    assert(digits(magnitude as nat) =~= text@);
    if id < 0 {
        proof {
            reveal_strlit("-");
        }
        let signed = String::from_str("-").concat(text.as_str());
        assert(signed@ =~= decimal(id));
        signed
    } else {
        text
    }
}

/// Writes the address of the resource `id` below the collection at `uri`.
pub fn location(uri: &str, id: i32) -> (location: String)
    ensures
        location@ == location_of(uri@, id),
{
    proof {
        reveal_strlit("/");
    }
    let number = decimal_text(id);
    let location = String::from_str(uri).concat("/").concat(number.as_str());
    assert(location@ =~= location_of(uri@, id));
    location
}

/// The answer to a listing: 200 with every model.
pub fn listing_response<M>(models: Vec<M>) -> (response: Response<Vec<M>>)
    ensures
        response.status == OK,
        response.location.is_none(),
        response.body == Some(models),
{
    Response { status: OK, location: None, body: Some(models) }
}

/// The answer to a read or an update: 200 with the model, or 404 without a
/// body where there is none.
pub fn found_response<M>(found: Option<M>) -> (response: Response<M>)
    ensures
        response.status == (if found.is_some() {
            OK
        } else {
            NOT_FOUND
        }),
        response.location.is_none(),
        response.body == found,
{
    match found {
        Some(model) => Response { status: OK, location: None, body: Some(model) },
        None => Response { status: NOT_FOUND, location: None, body: None },
    }
}

/// The answer to a creation: 201 with the model, and the address of the new
/// resource below the request's URI in the `Location` header.
pub fn created_response<M: Identified>(uri: &str, model: M) -> (response: Response<M>)
    ensures
        response.status == CREATED,
        response.location.is_some(),
        response.location.unwrap()@ == location_of(uri@, model.ident()),
        response.body == Some(model),
{
    let location = location(uri, model.identifier());
    Response { status: CREATED, location: Some(location), body: Some(model) }
}

/// The answer to a delete: 204 where the resource was removed, 404 where
/// there was none; no body either way.
pub fn deleted_response(done: Option<()>) -> (response: Response<()>)
    ensures
        response.status == (if done.is_some() {
            NO_CONTENT
        } else {
            NOT_FOUND
        }),
        response.location.is_none(),
        response.body.is_none(),
{
    match done {
        Some(_) => Response { status: NO_CONTENT, location: None, body: None },
        None => Response { status: NOT_FOUND, location: None, body: None },
    }
}

/// The five HTTP operations of a resource, for the model family `Model`,
/// `CreateModel`, `PartialModel` stored as rows of type `E` that are written
/// through `A`.
pub trait CRUDControllerTrait<
    E: ModelTrait,
    A: ActiveModelTrait<E>,
    Model: FromEntity<E> + Identified,
    CreateModel: IntoActiveModel<A, E>,
    PartialModel: ToActiveModel<A, E>,
> {
    /// The model of a row carries the identifier of that row.
    proof fn model_keeps_identifier(entity: E)
        ensures
            Model::model_of(entity).ident() == entity.key(),
    ;

    /// `GET` on the collection: 200 with every model.
    fn reads(conn: &Table<E>) -> (response: Response<Vec<Model>>)
        requires
            conn.wf(),
        ensures
            response.status == OK,
            response.location.is_none(),
            response.body.is_some(),
            response.body.unwrap()@ == service::models_of::<E, Model>(conn.listing()),
    ;

    /// `GET` on one resource: 200 with its model, or 404 without a body.
    fn read(obj_id: i32, conn: &Table<E>) -> (response: Response<Model>)
        requires
            conn.wf(),
        ensures
            response.status == (if conn@.dom().contains(obj_id) {
                OK
            } else {
                NOT_FOUND
            }),
            response.location.is_none(),
            response.body == service::found_model::<E, Model>(conn@, obj_id),
    ;

    /// `POST` on the collection: 201 with the model of the row that was
    /// stored, and the address of that row below the request's URI.
    fn post(obj: CreateModel, conn: &mut Table<E>, uri: &str) -> (response: Response<Model>)
        requires
            old(conn).wf(),
            old(conn).has_room(),
        ensures
            final(conn).wf(),
            final(conn)@ == old(conn)@.insert(
                old(conn).next_key(),
                service::created_row::<E, A, CreateModel>(obj, old(conn).next_key()),
            ),
            final(conn).next_key() == old(conn).next_key() + 1,
            response.status == CREATED,
            response.body == Some(
                Model::model_of(
                    service::created_row::<E, A, CreateModel>(obj, old(conn).next_key()),
                ),
            ),
            response.body.unwrap().ident() == old(conn).next_key(),
            response.location.is_some(),
            response.location.unwrap()@ == location_of(uri@, old(conn).next_key()),
    ;

    /// `PATCH` on one resource: 200 with the changed model, or 404 without a
    /// body and without a change.
    fn patch(obj_id: i32, obj: PartialModel, conn: &mut Table<E>) -> (response: Response<Model>)
        requires
            old(conn).wf(),
        ensures
            final(conn).wf(),
            final(conn).next_key() == old(conn).next_key(),
            response.location.is_none(),
            old(conn)@.dom().contains(obj_id) ==> {
                &&& response.status == OK
                &&& response.body == Some(
                    Model::model_of(
                        service::updated_row::<E, A, PartialModel>(obj, old(conn)@[obj_id]),
                    ),
                )
                &&& final(conn)@ == old(conn)@.insert(
                    obj_id,
                    service::updated_row::<E, A, PartialModel>(obj, old(conn)@[obj_id]),
                )
                &&& rewrites(
                    old(conn).listing(),
                    final(conn).listing(),
                    obj_id,
                    service::updated_row::<E, A, PartialModel>(obj, old(conn)@[obj_id]),
                )
            },
            !old(conn)@.dom().contains(obj_id) ==> {
                &&& response.status == NOT_FOUND
                &&& response.body.is_none()
                &&& *final(conn) == *old(conn)
            },
    ;

    /// `DELETE` on one resource: 204 where it was removed, 404 where there
    /// was none; no body either way.
    fn delete(obj_id: i32, conn: &mut Table<E>) -> (response: Response<()>)
        requires
            old(conn).wf(),
        ensures
            final(conn).wf(),
            final(conn).next_key() == old(conn).next_key(),
            response.location.is_none(),
            response.body.is_none(),
            old(conn)@.dom().contains(obj_id) ==> {
                &&& response.status == NO_CONTENT
                &&& final(conn)@ == old(conn)@.remove(obj_id)
                &&& removes(old(conn).listing(), final(conn).listing(), obj_id)
            },
            !old(conn)@.dom().contains(obj_id) ==> {
                &&& response.status == NOT_FOUND
                &&& *final(conn) == *old(conn)
            },
    ;
}

} // verus!
