//! The documents the user store is queried with: which user a request is
//! about, and what an upsert sets.
use vstd::prelude::*;
use crate::json::Json;
use crate::text::texts;
use crate::users::{DeleteUserReq, UpsertUserReq, User};

verus! {

/// A document with exactly one entry, under `key`.
pub open spec fn single_entry(doc: Json, key: Seq<char>) -> bool {
    doc matches Json::Object(es) && es@.len() == 1 && es@[0].0@ == key
}

/// The value of the only entry of a one-entry document.
pub open spec fn only_value(doc: Json) -> Json {
    match doc {
        Json::Object(es) => es@[0].1,
        _ => Json::Null,
    }
}

/// The strings of an array value, in order.
pub open spec fn string_items(v: Json) -> Option<Seq<Seq<char>>> {
    match v {
        Json::Array(items) => if forall|i: int|
            0 <= i < items@.len() ==> (#[trigger] items@[i]).text() is Some {
            Some(Seq::new(items@.len(), |i: int| items@[i].text().unwrap()))
        } else {
            None
        },
        _ => None,
    }
}

/// The filter that selects the user with the given id: `{ "_id": id }`.
pub fn id_filter(id: &str) -> (doc: Json)
    ensures
        single_entry(doc, "_id"@),
        only_value(doc).text() == Some(id@),
{
    let mut es: Vec<(String, Json)> = Vec::new();
    es.push(("_id".to_owned(), Json::String(id.to_owned())));
    Json::Object(es)
}

/// An update that sets the given fields: `{ "$set": fields }`.
pub fn set_update(fields: Json) -> (doc: Json)
    ensures
        single_entry(doc, "$set"@),
        only_value(doc) == fields,
{
    let mut es: Vec<(String, Json)> = Vec::new();
    es.push(("$set".to_owned(), fields));
    Json::Object(es)
}

fn string_array(v: &Vec<String>) -> (j: Json)
    ensures
        string_items(j) == Some(texts(v@)),
{
    let mut items: Vec<Json> = Vec::new();
    let n = v.len();
    let mut i: usize = 0;
    while i < n
        invariant
            n == v@.len(),
            i <= n,
            items@.len() == i,
            forall|k: int| 0 <= k < i ==> (#[trigger] items@[k]).text() == Some(v@[k]@),
        decreases n - i,
    {
        items.push(Json::String(v[i].clone()));
        i = i + 1;
    }
    let j = Json::Array(items);
    assert(string_items(j) matches Some(s) && s =~= texts(v@));
    j
}

/// The filter and the update of an upsert: select the user by id, and set
/// both the id and the favorites.
pub fn upsert_documents(req: &UpsertUserReq) -> (docs: (Json, Json))
    ensures
        single_entry(docs.0, "_id"@),
        only_value(docs.0).text() == Some(req.id@),
        single_entry(docs.1, "$set"@),
        only_value(docs.1) matches Json::Object(es) && es@.len() == 2 && es@[0].0@ == "_id"@
            && es@[0].1.text() == Some(req.id@) && es@[1].0@ == "animes"@ && string_items(es@[1].1)
            == Some(texts(req.animes@)),
{
    let filter = id_filter(req.id.as_str());
    let mut fields: Vec<(String, Json)> = Vec::new();
    fields.push(("_id".to_owned(), Json::String(req.id.clone())));
    fields.push(("animes".to_owned(), string_array(&req.animes)));
    let update = set_update(Json::Object(fields));
    (filter, update)
}

/// The filter that selects the user a delete request is about.
pub fn delete_filter(req: &DeleteUserReq) -> (doc: Json)
    ensures
        single_entry(doc, "_id"@),
        only_value(doc).text() == Some(req.id@),
{
    id_filter(req.id.as_str())
}

/// The user a delete answers with: the first one the filter found.
pub fn deleted_user(found: &Vec<User>) -> (u: User)
    requires
        found@.len() > 0,
    ensures
        u.id@ == found@[0].id@,
        texts(u.animes@) == texts(found@[0].animes@),
{
    let first = &found[0];
    let animes = first.animes.clone();
    proof {
        assert(texts(animes@) =~= texts(first.animes@));
    }
    User { id: first.id.clone(), animes }
}

} // verus!
