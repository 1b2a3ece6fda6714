//! Records as JSON documents: how a record is written, and how one is read
//! back from a document.

use crate::json::{json_string, json_string_member, quote, string_member};
use crate::record::{Herb, HerbView};
use crate::text::opt_text;
use crate::time::{parse_timestamp, text_timestamp, Timestamp};
use vstd::prelude::*;

verus! {

/// A record as JSON text: one object with the members `id`, `name`,
/// `farmer`, `location` and `created_at`, in this order, each a string.
pub open spec fn herb_json(h: HerbView) -> Seq<char> {
    "{\"id\":"@ + json_string(h.id) + ",\"name\":"@ + json_string(h.name) + ",\"farmer\":"@
        + json_string(h.farmer) + ",\"location\":"@ + json_string(h.location)
        + ",\"created_at\":"@ + json_string(h.created_at.text()) + "}"@
}

/// A record as the JSON text that replaces revision `rev` of its document:
/// the members of the record and `_rev`, in the order of their names.
pub open spec fn herb_json_with_rev(h: HerbView, rev: Seq<char>) -> Seq<char> {
    "{\"_rev\":"@ + json_string(rev) + ",\"created_at\":"@ + json_string(h.created_at.text())
        + ",\"farmer\":"@ + json_string(h.farmer) + ",\"id\":"@ + json_string(h.id)
        + ",\"location\":"@ + json_string(h.location) + ",\"name\":"@ + json_string(h.name)
        + "}"@
}

/// The view of an optional record.
pub open spec fn opt_herb(o: Option<Herb>) -> Option<HerbView> {
    match o {
        Some(h) => Some(h@),
        None => None,
    }
}

/// The record made of five members, where all five were found.
pub open spec fn assembled(
    id: Option<Seq<char>>,
    name: Option<Seq<char>>,
    farmer: Option<Seq<char>>,
    location: Option<Seq<char>>,
    created_at: Option<Timestamp>,
) -> Option<HerbView> {
    if id is Some && name is Some && farmer is Some && location is Some && created_at is Some {
        Some(
            HerbView {
                id: id->0,
                name: name->0,
                farmer: farmer->0,
                location: location->0,
                created_at: created_at->0,
            },
        )
    } else {
        None
    }
}

/// The creation time that a document names: its member `created_at` must
/// be a string that names an instant.
pub open spec fn document_timestamp(doc: Seq<char>) -> Option<Timestamp> {
    match json_string_member(doc, "created_at"@) {
        Some(text) => text_timestamp(text),
        None => None,
    }
}

/// The record that a JSON document holds: its members `id`, `name`,
/// `farmer` and `location` must be strings, and `created_at` a string
/// that names an instant. Other members are passed over.
pub open spec fn document_herb(doc: Seq<char>) -> Option<HerbView> {
    assembled(
        json_string_member(doc, "id"@),
        json_string_member(doc, "name"@),
        json_string_member(doc, "farmer"@),
        json_string_member(doc, "location"@),
        document_timestamp(doc),
    )
}

/// Writes a record as JSON text.
pub fn herb_to_json(herb: &Herb) -> (s: String)
    ensures
        s@ == herb_json(herb@),
{
    let mut s = "{\"id\":".to_owned();
    s.append(quote(herb.id.as_str()).as_str());
    s.append(",\"name\":");
    s.append(quote(herb.name.as_str()).as_str());
    s.append(",\"farmer\":");
    s.append(quote(herb.farmer.as_str()).as_str());
    s.append(",\"location\":");
    s.append(quote(herb.location.as_str()).as_str());
    s.append(",\"created_at\":");
    s.append(quote(herb.created_at.to_rfc3339().as_str()).as_str());
    s.append("}");
    s
}

/// Writes a record as the JSON text that replaces revision `rev` of its
/// document.
pub fn herb_to_json_with_rev(herb: &Herb, rev: &str) -> (s: String)
    ensures
        s@ == herb_json_with_rev(herb@, rev@),
{
    let mut s = "{\"_rev\":".to_owned();
    s.append(quote(rev).as_str());
    s.append(",\"created_at\":");
    s.append(quote(herb.created_at.to_rfc3339().as_str()).as_str());
    s.append(",\"farmer\":");
    s.append(quote(herb.farmer.as_str()).as_str());
    s.append(",\"id\":");
    s.append(quote(herb.id.as_str()).as_str());
    s.append(",\"location\":");
    s.append(quote(herb.location.as_str()).as_str());
    s.append(",\"name\":");
    s.append(quote(herb.name.as_str()).as_str());
    s.append("}");
    s
}

/// Makes a record of its five members, where all five were found.
pub fn assemble_herb(
    id: Option<String>,
    name: Option<String>,
    farmer: Option<String>,
    location: Option<String>,
    created_at: Option<Timestamp>,
) -> (r: Option<Herb>)
    ensures
        opt_herb(r) == assembled(
            opt_text(id),
            opt_text(name),
            opt_text(farmer),
            opt_text(location),
            created_at,
        ),
{
    match (id, name, farmer, location, created_at) {
        (Some(id), Some(name), Some(farmer), Some(location), Some(created_at)) => Some(
            Herb { id, name, farmer, location, created_at },
        ),
        _ => None,
    }
}

/// Reads a record from a JSON document.
pub fn herb_from_document(doc: &str) -> (r: Option<Herb>)
    ensures
        opt_herb(r) == document_herb(doc@),
{
    let id = string_member(doc, "id");
    let name = string_member(doc, "name");
    let farmer = string_member(doc, "farmer");
    let location = string_member(doc, "location");
    let created_at = match string_member(doc, "created_at") {
        Some(text) => parse_timestamp(text.as_str()),
        None => None,
    };
    assemble_herb(id, name, farmer, location, created_at)
}

} // verus!
