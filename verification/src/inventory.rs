//! Items in an inventory and what changes them.

use crate::http::Reply;
use crate::json::{array_of, array_view, json_result_is, member, object, Json, JsonValue, Member};
use crate::ragfair::RagfairError;
use crate::{data_of_reply, data_of_reply_spec, envelope_spec, Error, ErrorResponse};
use vstd::prelude::*;

verus! {

/// Item location
#[derive(Debug, Clone, Copy, PartialEq, Eq, Structural)]
pub struct Location {
    /// Inventory slot x
    pub x: u64,
    /// Inventory slot y
    pub y: u64,
    /// Inventory slot rotation
    pub r: u64,
    /// Item is searched (if searchable)
    pub is_searched: Option<bool>,
}

/// The location that an object holds: whole numbers under `x`, `y` and `r`, and a truth
/// value or nothing under `isSearched`. Anything else is rejected with [`Error::Json`].
pub open spec fn location_spec(json: JsonValue) -> Result<Location, Error> {
    match (json.u64_at("x"@), json.u64_at("y"@), json.u64_at("r"@), json.optional_bool_at(
        "isSearched"@,
    )) {
        (Some(x), Some(y), Some(r), Some(is_searched)) => Ok(Location { x, y, r, is_searched }),
        _ => Err(Error::Json),
    }
}

impl Location {
    /// Reads a location from an object.
    pub fn from_json(json: &Json) -> (r: Result<Location, Error>)
        ensures
            r == location_spec(json@),
    {
        match (json.u64_at("x"), json.u64_at("y"), json.u64_at("r"), json.optional_bool_at(
            "isSearched",
        )) {
            (Some(x), Some(y), Some(r), Some(is_searched)) => Ok(Location { x, y, r, is_searched }),
            _ => Err(Error::Json),
        }
    }
}

/// Item deleted from inventory.
#[derive(Debug, Clone, PartialEq)]
pub struct DeletedItem {
    /// Item ID
    pub id: String,
}

/// Light attachment info
#[derive(Debug, Clone, PartialEq)]
pub struct UpdLight {
    /// Light is active
    pub is_active: bool,
    /// Light mode
    pub selected_mode: u64,
}

/// Key info
#[derive(Debug, Clone, PartialEq)]
pub struct UpdKey {
    /// Number of usage
    pub number_of_usages: u64,
}
/// An item of the inventory that is given in a trade.
#[derive(Debug, PartialEq)]
pub struct BarterItem {
    /// Item ID from player's inventory.
    pub id: String,
    /// Amount of items: a JSON number.
    pub count: Json,
}

impl View for BarterItem {
    type V = (Seq<char>, JsonValue);

    open spec fn view(&self) -> (Seq<char>, JsonValue) {
        (self.id@, self.count@)
    }
}

/// The object that stands for an item given in a trade.
pub open spec fn barter_item_json(item: (Seq<char>, JsonValue)) -> JsonValue {
    JsonValue::Object(seq![("id"@, JsonValue::Text(item.0)), ("count"@, item.1)])
}

/// The array that stands for the items given in a trade.
pub open spec fn barter_items_json(items: Seq<BarterItem>) -> JsonValue {
    JsonValue::Array(Seq::new(items.len(), |i: int| barter_item_json(items[i]@)))
}

/// Writes the items given in a trade as a JSON array.
pub fn barter_items_to_json(items: &[BarterItem]) -> (j: Json)
    ensures
        j@ == barter_items_json(items@),
{
    let mut list: Vec<Json> = Vec::new();
    let mut i: usize = 0;
    while i < items.len()
        invariant
            i <= items.len(),
            list.len() == i,
            forall|k: int| 0 <= k < i ==> (#[trigger] list[k])@ == barter_item_json(items[k]@),
        decreases items.len() - i,
    {
        let mut members: Vec<Member> = Vec::new();
        members.push(member("id", Json::text(items[i].id.as_str())));
        members.push(member("count", items[i].count.duplicate()));
        let entry = object(members);
        assert(entry@->Object_0 =~= barter_item_json(items[i as int]@)->Object_0);
        list.push(entry);
        i += 1;
    }
    proof {
        array_view(list);
        assert(array_of(list@)->Array_0 =~= barter_items_json(items@)->Array_0);
    }
    Json::Array(list)
}

/// The body of a call that moves items: one action and a counter.
pub open spec fn moving_body(action: JsonValue, tm: u64) -> JsonValue {
    JsonValue::Object(
        seq![("data"@, JsonValue::Array(seq![action])), ("tm"@, JsonValue::Unsigned(tm))],
    )
}

/// Builds the body of a call that moves items.
pub fn moving(action: Json, tm: u64) -> (body: Json)
    ensures
        body@ == moving_body(action@, tm),
{
    let mut members: Vec<Member> = Vec::new();
    members.push(member("data", Json::array1(action)));
    members.push(member("tm", Json::Unsigned(tm)));
    let body = object(members);
    assert(body@->Object_0 =~= moving_body(action@, tm)->Object_0);
    body
}

/// The codes of a list of errors; `None` where the value is no array or an entry of it
/// is no error part of a reply.
pub open spec fn bad_requests_spec(list: JsonValue) -> Option<Seq<u64>> {
    match list {
        JsonValue::Array(entries) => if forall|i: int|
            0 <= i < entries.len() ==> envelope_spec(#[trigger] entries[i]) is Ok {
            Some(Seq::new(entries.len(), |i: int| envelope_spec(entries[i])->Ok_0.0))
        } else {
            None
        },
        _ => None,
    }
}

/// Reads the codes of a list of errors.
pub fn bad_requests(list: &Json) -> (codes: Option<Vec<u64>>)
    ensures
        match codes {
            Some(v) => bad_requests_spec(list@) == Some(v@),
            None => bad_requests_spec(list@) is None,
        },
{
    match list.as_array() {
        Some(entries) => {
            let ghost all = list@->Array_0;
            let mut codes: Vec<u64> = Vec::new();
            let mut i: usize = 0;
            while i < entries.len()
                invariant
                    i <= entries.len(),
                    list@ == JsonValue::Array(all),
                    all.len() == entries.len(),
                    forall|k: int| 0 <= k < entries.len() ==> all[k] == #[trigger] entries[k]@,
                    codes.len() == i,
                    forall|k: int|
                        0 <= k < i ==> envelope_spec(#[trigger] all[k]) is Ok && envelope_spec(
                            all[k],
                        )->Ok_0.0 == codes[k],
                decreases entries.len() - i,
            {
                assert(all[i as int] == entries[i as int]@);
                match ErrorResponse::from_json(&entries[i]) {
                    Ok(error) => {
                        codes.push(error.code);
                    },
                    Err(_) => {
                        return None;
                    },
                }
                i += 1;
            }
            assert(bad_requests_spec(list@)->Some_0 =~= codes@);
            Some(codes)
        },
        None => None,
    }
}

/// The error that the first entry of a list of errors stands for. In a purchase on the
/// flea market the codes 1503 and 1506 say that the offer is gone; any other code is kept
/// as an unknown one.
pub open spec fn moving_error(code: u64, buying: bool) -> Error {
    if buying && (code == 1503 || code == 1506) {
        Error::RagfairError(RagfairError::OfferNotFound)
    } else {
        Error::UnknownAPIError(code)
    }
}

/// What the data of the reply to a call that moves items gives. The data holds the
/// changes under `items` and a list of errors under `badRequest`; data of another shape
/// is rejected with [`Error::Json`]. Where the list is not empty its first entry decides
/// the error; else the changes are returned.
pub open spec fn moved_spec(data: JsonValue, buying: bool) -> Result<JsonValue, Error> {
    match (data.member("items"@), data.member("badRequest"@)) {
        (Some(items), Some(list)) => match bad_requests_spec(list) {
            Some(codes) => if codes.len() > 0 {
                Err(moving_error(codes[0], buying))
            } else {
                Ok(items)
            },
            None => Err(Error::Json),
        },
        _ => Err(Error::Json),
    }
}

/// Takes the changes to the inventory out of the data of the reply to a call that moves
/// items.
pub fn moved(data: Json, buying: bool) -> (r: Result<Json, Error>)
    ensures
        json_result_is(r, moved_spec(data@, buying)),
{
    let codes = match data.get("badRequest") {
        Some(list) => match bad_requests(list) {
            Some(codes) => codes,
            None => {
                return Err(Error::Json);
            },
        },
        None => {
            return Err(Error::Json);
        },
    };
    if codes.len() > 0 {
        let code = codes[0];
        if data.get("items").is_none() {
            return Err(Error::Json);
        }
        if buying && (code == 1503 || code == 1506) {
            return Err(Error::RagfairError(RagfairError::OfferNotFound));
        }
        return Err(Error::UnknownAPIError(code));
    }
    match data.take("items") {
        Some(items) => Ok(items),
        None => Err(Error::Json),
    }
}

/// What the reply to a call that moves items gives: the error of the reply, else what
/// its data gives.
pub open spec fn moving_result_spec(reply: Reply, buying: bool) -> Result<JsonValue, Error> {
    match data_of_reply_spec(reply) {
        Ok(data) => moved_spec(data, buying),
        Err(e) => Err(e),
    }
}

/// Takes the changes to the inventory out of the reply to a call that moves items.
pub fn moving_result(reply: &Reply, buying: bool) -> (r: Result<Json, Error>)
    ensures
        json_result_is(r, moving_result_spec(*reply, buying)),
{
    match data_of_reply(reply) {
        Ok(data) => moved(data, buying),
        Err(e) => Err(e),
    }
}

} // verus!
