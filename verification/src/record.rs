//! The herb record, the payloads that create and change it, and the rules
//! that such payloads must meet.

use crate::text::{blank, lemma_blank_iff_trimmed_empty, opt_text, trimmed, trimmed_length};
use crate::time::Timestamp;
use vstd::prelude::*;

verus! {

/// The most characters a trimmed name or farmer may have.
pub const MAX_NAME_CHARS: usize = 100;

/// The most characters a trimmed location may have.
pub const MAX_LOCATION_CHARS: usize = 200;

/// A provenance record.
#[derive(Debug, PartialEq, Eq)]
pub struct Herb {
    pub id: String,
    pub name: String,
    pub farmer: String,
    pub location: String,
    pub created_at: Timestamp,
}

/// What a record holds.
pub struct HerbView {
    pub id: Seq<char>,
    pub name: Seq<char>,
    pub farmer: Seq<char>,
    pub location: Seq<char>,
    pub created_at: Timestamp,
}

impl View for Herb {
    type V = HerbView;

    open spec fn view(&self) -> HerbView {
        HerbView {
            id: self.id@,
            name: self.name@,
            farmer: self.farmer@,
            location: self.location@,
            created_at: self.created_at,
        }
    }
}

impl Clone for Herb {
    fn clone(&self) -> (r: Herb)
        ensures
            r@ == self@,
    {
        Herb {
            id: self.id.clone(),
            name: self.name.clone(),
            farmer: self.farmer.clone(),
            location: self.location.clone(),
            created_at: self.created_at,
        }
    }
}

/// A record together with its QR code as a data URI.
#[derive(Debug, PartialEq, Eq)]
pub struct HerbWithQr {
    pub herb: Herb,
    pub qr_code: String,
}

/// What a record with its QR code holds.
pub struct HerbWithQrView {
    pub herb: HerbView,
    pub qr_code: Seq<char>,
}

impl View for HerbWithQr {
    type V = HerbWithQrView;

    open spec fn view(&self) -> HerbWithQrView {
        HerbWithQrView { herb: self.herb@, qr_code: self.qr_code@ }
    }
}

impl Clone for HerbWithQr {
    fn clone(&self) -> (r: HerbWithQr)
        ensures
            r@ == self@,
    {
        HerbWithQr { herb: self.herb.clone(), qr_code: self.qr_code.clone() }
    }
}

/// The views of a list of records.
pub open spec fn herb_views(v: Seq<Herb>) -> Seq<HerbView> {
    Seq::new(v.len(), |i: int| v[i]@)
}

/// The payload that creates a record.
#[derive(Clone, Debug, PartialEq, Eq)]
pub struct AddHerbRequest {
    pub name: String,
    pub farmer: String,
    pub location: String,
}

/// The payload of a scan: the text that a reader took from a code.
#[derive(Clone, Debug, PartialEq, Eq)]
pub struct ScanRequest {
    pub data: String,
}

/// The payload that changes a record: each field may be absent.
#[derive(Clone, Debug, PartialEq, Eq)]
pub struct UpdateHerbRequest {
    pub name: Option<String>,
    pub farmer: Option<String>,
    pub location: Option<String>,
}

/// Why a creating payload is refused: the first rule it breaks, as the
/// message that names it. All three fields must hold more than white
/// space; then none may, once trimmed, have more characters than its
/// limit.
pub open spec fn add_fault(name: Seq<char>, farmer: Seq<char>, location: Seq<char>) -> Option<
    Seq<char>,
> {
    if blank(name) {
        Some("name is required"@)
    } else if blank(farmer) {
        Some("farmer is required"@)
    } else if blank(location) {
        Some("location is required"@)
    } else if trimmed(name).len() > MAX_NAME_CHARS {
        Some("name too long (max 100)"@)
    } else if trimmed(farmer).len() > MAX_NAME_CHARS {
        Some("farmer too long (max 100)"@)
    } else if trimmed(location).len() > MAX_LOCATION_CHARS {
        Some("location too long (max 200)"@)
    } else {
        None
    }
}

/// A field that is present must hold more than white space and, once
/// trimmed, at most `max` characters.
pub open spec fn field_fault(value: Option<Seq<char>>, max: nat) -> bool {
    value matches Some(v) && (blank(v) || trimmed(v).len() > max)
}

/// Why a changing payload is refused: the first field that is present and
/// breaks its rule, as the message that names it.
pub open spec fn update_fault(
    name: Option<Seq<char>>,
    farmer: Option<Seq<char>>,
    location: Option<Seq<char>>,
) -> Option<Seq<char>> {
    if field_fault(name, MAX_NAME_CHARS as nat) {
        Some("invalid name"@)
    } else if field_fault(farmer, MAX_NAME_CHARS as nat) {
        Some("invalid farmer"@)
    } else if field_fault(location, MAX_LOCATION_CHARS as nat) {
        Some("invalid location"@)
    } else {
        None
    }
}

/// The new value of a field: the one supplied, or else the old one.
pub open spec fn replaced(supplied: Option<Seq<char>>, old_value: Seq<char>) -> Seq<char> {
    match supplied {
        Some(v) => v,
        None => old_value,
    }
}

/// The record after a change: the fields that the payload supplies take
/// their new values, identifier and creation time stay.
pub open spec fn updated(
    herb: HerbView,
    name: Option<Seq<char>>,
    farmer: Option<Seq<char>>,
    location: Option<Seq<char>>,
) -> HerbView {
    HerbView {
        id: herb.id,
        name: replaced(name, herb.name),
        farmer: replaced(farmer, herb.farmer),
        location: replaced(location, herb.location),
        created_at: herb.created_at,
    }
}

/// Whether a present field breaks its rule.
fn breaks_rule(value: &Option<String>, max: usize) -> (b: bool)
    ensures
        b == field_fault(opt_text(*value), max as nat),
{
    match value {
        Some(v) => {
            proof {
                lemma_blank_iff_trimmed_empty(v@);
            }
            let n = trimmed_length(v.as_str());
            n == 0 || n > max
        },
        None => false,
    }
}

/// The supplied value, or else a copy of the old one.
fn pick(supplied: &Option<String>, old_value: &String) -> (r: String)
    ensures
        r@ == replaced(opt_text(*supplied), old_value@),
{
    match supplied {
        Some(v) => v.clone(),
        None => old_value.clone(),
    }
}

impl AddHerbRequest {
    /// Checks the payload against the rules for a new record, and names
    /// the first rule that it breaks.
    pub fn validate(&self) -> (r: Result<(), String>)
        ensures
            match r {
                Ok(_) => add_fault(self.name@, self.farmer@, self.location@) is None,
                Err(msg) => add_fault(self.name@, self.farmer@, self.location@) == Some(msg@),
            },
    {
        proof {
            lemma_blank_iff_trimmed_empty(self.name@);
            lemma_blank_iff_trimmed_empty(self.farmer@);
            lemma_blank_iff_trimmed_empty(self.location@);
        }
        let name = trimmed_length(self.name.as_str());
        let farmer = trimmed_length(self.farmer.as_str());
        let location = trimmed_length(self.location.as_str());
        if name == 0 {
            return Err("name is required".to_owned());
        }
        if farmer == 0 {
            return Err("farmer is required".to_owned());
        }
        if location == 0 {
            return Err("location is required".to_owned());
        }
        if name > MAX_NAME_CHARS {
            return Err("name too long (max 100)".to_owned());
        }
        if farmer > MAX_NAME_CHARS {
            return Err("farmer too long (max 100)".to_owned());
        }
        if location > MAX_LOCATION_CHARS {
            return Err("location too long (max 200)".to_owned());
        }
        Ok(())
    }
}

impl UpdateHerbRequest {
    /// Checks the fields that are present and, where none breaks its rule,
    /// gives the record with them in place. The fields that are absent,
    /// the identifier and the creation time are as in `herb`.
    pub fn apply(&self, herb: &Herb) -> (r: Result<Herb, String>)
        ensures
            match r {
                Ok(h) => {
                    &&& update_fault(
                        opt_text(self.name),
                        opt_text(self.farmer),
                        opt_text(self.location),
                    ) is None
                    &&& h@ == updated(
                        herb@,
                        opt_text(self.name),
                        opt_text(self.farmer),
                        opt_text(self.location),
                    )
                    &&& h@.id == herb@.id
                    &&& h@.created_at == herb@.created_at
                },
                Err(msg) => update_fault(
                    opt_text(self.name),
                    opt_text(self.farmer),
                    opt_text(self.location),
                ) == Some(msg@),
            },
    {
        if breaks_rule(&self.name, MAX_NAME_CHARS) {
            return Err("invalid name".to_owned());
        }
        if breaks_rule(&self.farmer, MAX_NAME_CHARS) {
            return Err("invalid farmer".to_owned());
        }
        if breaks_rule(&self.location, MAX_LOCATION_CHARS) {
            return Err("invalid location".to_owned());
        }
        Ok(
            Herb {
                id: herb.id.clone(),
                name: pick(&self.name, &herb.name),
                farmer: pick(&self.farmer, &herb.farmer),
                location: pick(&self.location, &herb.location),
                created_at: herb.created_at,
            },
        )
    }
}

/// A creating payload is accepted exactly when each of its fields, once
/// trimmed, has at least one character and no more than its limit: 100
/// for a name and a farmer, 200 for a location. One character more is
/// refused, and so is a field of white space alone; white space around a
/// field does not count.
pub proof fn lemma_add_accepted(name: Seq<char>, farmer: Seq<char>, location: Seq<char>)
    ensures
        add_fault(name, farmer, location) is None <==> {
            &&& 1 <= trimmed(name).len() <= 100
            &&& 1 <= trimmed(farmer).len() <= 100
            &&& 1 <= trimmed(location).len() <= 200
        },
{
    lemma_blank_iff_trimmed_empty(name);
    lemma_blank_iff_trimmed_empty(farmer);
    lemma_blank_iff_trimmed_empty(location);
}

/// A changing payload is accepted exactly when each field that it
/// supplies has, once trimmed, at least one character and no more than
/// its limit; the fields that it leaves out are not looked at.
pub proof fn lemma_update_accepted(
    name: Option<Seq<char>>,
    farmer: Option<Seq<char>>,
    location: Option<Seq<char>>,
)
    ensures
        update_fault(name, farmer, location) is None <==> {
            &&& name matches Some(v) ==> 1 <= trimmed(v).len() <= 100
            &&& farmer matches Some(v) ==> 1 <= trimmed(v).len() <= 100
            &&& location matches Some(v) ==> 1 <= trimmed(v).len() <= 200
        },
{
    if name is Some {
        lemma_blank_iff_trimmed_empty(name->0);
    }
    if farmer is Some {
        lemma_blank_iff_trimmed_empty(farmer->0);
    }
    if location is Some {
        lemma_blank_iff_trimmed_empty(location->0);
    }
}

/// A change keeps the identifier and the creation time, puts each
/// supplied value in its place and leaves the other fields as they were.
pub proof fn lemma_update_keeps_identity(
    herb: HerbView,
    name: Option<Seq<char>>,
    farmer: Option<Seq<char>>,
    location: Option<Seq<char>>,
)
    ensures
        updated(herb, name, farmer, location).id == herb.id,
        updated(herb, name, farmer, location).created_at == herb.created_at,
        updated(herb, name, farmer, location).name == if name is Some {
            name->0
        } else {
            herb.name
        },
        updated(herb, name, farmer, location).farmer == if farmer is Some {
            farmer->0
        } else {
            herb.farmer
        },
        updated(herb, name, farmer, location).location == if location is Some {
            location->0
        } else {
            herb.location
        },
        updated(herb, None, None, None) == herb,
{
}

} // verus!
