//! The endpoints: what each of them asks of the store, and what it
//! answers. An endpoint begins with a step and goes on, reply by reply,
//! until a step holds its response; the caller sends each request and
//! hands the reply back.

use crate::couchdb::{check_reply, read_doc, read_doc_with_rev, read_docs};
use crate::couchdb::{reply_body, reply_fault, reply_herb, reply_herbs, reply_revised};
use crate::couchdb::{CouchDb, CouchDbView, StoreReply, StoreReplyView, StoreRequest};
use crate::couchdb::{StoreError, StoreRequestView};
use crate::document::herb_json;
use crate::ident::{generate_id, herb_id};
use crate::json::json_string_member;
use crate::qr::{generate_qr_data_uri, generate_qr_png_bytes, png_data_uri, qr_payload, qr_png};
use crate::record::{add_fault, herb_views, update_fault, updated};
use crate::record::{AddHerbRequest, Herb, HerbView, HerbWithQr, HerbWithQrView};
use crate::record::{ScanRequest, UpdateHerbRequest};
use crate::scan::{extract_id_from_scanned_text, scanned_id};
use crate::text::{opt_str, opt_text};
use crate::time::Timestamp;
use vstd::prelude::*;

verus! {

/// What the endpoints share: the store, the database and, where codes are
/// to name a public page, the base URL of that page.
#[derive(Debug, PartialEq, Eq)]
pub struct AppState {
    pub couch: CouchDb,
    pub db_name: String,
    pub public_base_url: Option<String>,
}

/// What the shared state holds.
pub struct AppStateView {
    pub couch: CouchDbView,
    pub db_name: Seq<char>,
    pub public_base_url: Option<Seq<char>>,
}

impl View for AppState {
    type V = AppStateView;

    open spec fn view(&self) -> AppStateView {
        AppStateView {
            couch: self.couch@,
            db_name: self.db_name@,
            public_base_url: opt_text(self.public_base_url),
        }
    }
}

impl Clone for AppState {
    fn clone(&self) -> (r: AppState)
        ensures
            r@ == self@,
    {
        AppState {
            couch: self.couch.clone(),
            db_name: self.db_name.clone(),
            public_base_url: match &self.public_base_url {
                Some(base) => Some(base.clone()),
                None => None,
            },
        }
    }
}

/// The body of a response.
#[derive(Clone, Debug, PartialEq, Eq)]
pub enum Payload {
    /// Plain text.
    Text(String),
    /// A page.
    Html(String),
    /// A record, sent as JSON.
    Record(Herb),
    /// A record with its QR code, sent as one JSON object.
    RecordWithQr(HerbWithQr),
    /// A list of records, sent as a JSON array.
    Records(Vec<Herb>),
    /// A PNG image.
    Png(Vec<u8>),
}

/// What the body of a response holds.
pub enum PayloadView {
    Text(Seq<char>),
    Html(Seq<char>),
    Record(HerbView),
    RecordWithQr(HerbWithQrView),
    Records(Seq<HerbView>),
    Png(Seq<u8>),
}

impl View for Payload {
    type V = PayloadView;

    open spec fn view(&self) -> PayloadView {
        match self {
            Payload::Text(s) => PayloadView::Text(s@),
            Payload::Html(s) => PayloadView::Html(s@),
            Payload::Record(h) => PayloadView::Record(h@),
            Payload::RecordWithQr(h) => PayloadView::RecordWithQr(h@),
            Payload::Records(v) => PayloadView::Records(herb_views(v@)),
            Payload::Png(b) => PayloadView::Png(b@),
        }
    }
}

/// The response of an endpoint: an HTTP status and a body.
#[derive(Clone, Debug, PartialEq, Eq)]
pub struct Response {
    pub status: u16,
    pub body: Payload,
}

/// What a response holds.
pub struct ResponseView {
    pub status: u16,
    pub body: PayloadView,
}

impl View for Response {
    type V = ResponseView;

    open spec fn view(&self) -> ResponseView {
        ResponseView { status: self.status, body: self.body@ }
    }
}

/// What an endpoint waits for while a request is with the store.
#[derive(Clone, Debug, PartialEq, Eq)]
pub enum Pending {
    /// A reset: the removal of the database.
    ResetRemoval,
    /// A reset: the creation of the database.
    ResetCreation,
    /// A creation: the new document.
    AddStore { herb: Herb },
    /// A creation that the store refused: the document that is there.
    AddFetch,
    /// The record, to be answered with its QR code.
    Detail,
    /// The record, to be answered as it is.
    Public,
    /// The record, to be answered as a page.
    PublicHtml,
    /// The record, to be answered as the image of its QR code.
    QrImage,
    /// The record that a scanned text names.
    Scan,
    /// All records.
    Listing,
    /// A removal: the document, for its revision.
    DeleteFetch { id: String },
    /// A removal: the removal itself.
    DeleteRemoval { id: String },
    /// A change: the document, for its record and revision.
    UpdateFetch { id: String, payload: UpdateHerbRequest },
    /// A change: the new document.
    UpdateStore { herb: Herb },
}

/// What a pending endpoint holds.
pub enum PendingView {
    ResetRemoval,
    ResetCreation,
    AddStore { herb: HerbView },
    AddFetch,
    Detail,
    Public,
    PublicHtml,
    QrImage,
    Scan,
    Listing,
    DeleteFetch { id: Seq<char> },
    DeleteRemoval { id: Seq<char> },
    UpdateFetch {
        id: Seq<char>,
        name: Option<Seq<char>>,
        farmer: Option<Seq<char>>,
        location: Option<Seq<char>>,
    },
    UpdateStore { herb: HerbView },
}

impl View for Pending {
    type V = PendingView;

    open spec fn view(&self) -> PendingView {
        match self {
            Pending::ResetRemoval => PendingView::ResetRemoval,
            Pending::ResetCreation => PendingView::ResetCreation,
            Pending::AddStore { herb } => PendingView::AddStore { herb: herb@ },
            Pending::AddFetch => PendingView::AddFetch,
            Pending::Detail => PendingView::Detail,
            Pending::Public => PendingView::Public,
            Pending::PublicHtml => PendingView::PublicHtml,
            Pending::QrImage => PendingView::QrImage,
            Pending::Scan => PendingView::Scan,
            Pending::Listing => PendingView::Listing,
            Pending::DeleteFetch { id } => PendingView::DeleteFetch { id: id@ },
            Pending::DeleteRemoval { id } => PendingView::DeleteRemoval { id: id@ },
            Pending::UpdateFetch { id, payload } => PendingView::UpdateFetch {
                id: id@,
                name: opt_text(payload.name),
                farmer: opt_text(payload.farmer),
                location: opt_text(payload.location),
            },
            Pending::UpdateStore { herb } => PendingView::UpdateStore { herb: herb@ },
        }
    }
}

/// One step of an endpoint: a request to send, with what the endpoint
/// then waits for, or the response.
#[derive(Clone, Debug, PartialEq, Eq)]
pub enum Step {
    Send { request: StoreRequest, pending: Pending },
    Respond(Response),
}

/// What a step holds.
pub enum StepView {
    Send { request: StoreRequestView, pending: PendingView },
    Respond(ResponseView),
}

impl View for Step {
    type V = StepView;

    open spec fn view(&self) -> StepView {
        match self {
            Step::Send { request, pending } => StepView::Send {
                request: request@,
                pending: pending@,
            },
            Step::Respond(response) => StepView::Respond(response@),
        }
    }
}

/// The step that answers with plain text.
pub open spec fn answer_text(status: u16, text: Seq<char>) -> StepView {
    StepView::Respond(ResponseView { status, body: PayloadView::Text(text) })
}

/// The step that answers with a record.
pub open spec fn answer_record(status: u16, herb: HerbView) -> StepView {
    StepView::Respond(ResponseView { status, body: PayloadView::Record(herb) })
}

/// The step that answers with a response of success and another body.
pub open spec fn answer_ok(body: PayloadView) -> StepView {
    StepView::Respond(ResponseView { status: 200, body })
}

/// The page of a record. The fields stand in it as they are.
pub open spec fn product_page(h: HerbView) -> Seq<char> {
    PAGE_HEAD@ + h.name + PAGE_STYLE@ + h.name + PAGE_FARMER@ + h.farmer + PAGE_LOCATION@
        + h.location + PAGE_ID@ + h.id + PAGE_IMAGE@ + h.id + PAGE_LINK@ + h.id + PAGE_END@
}

/// The page of a record, up to its title.
pub const PAGE_HEAD: &'static str =
    "<!doctype html><html lang=\"en\"><head><meta charset=\"utf-8\"><meta name=\"viewport\" content=\"width=device-width, initial-scale=1\"><title>";

/// The page of a record, from its title to its heading.
pub const PAGE_STYLE: &'static str =
    "</title><style>body{font-family:sans-serif;margin:24px;}.card{max-width:640px;border:1px solid #eee;border-radius:12px;padding:20px;box-shadow:0 2px 8px rgba(0,0,0,0.06);}.row{margin:6px 0}code,a{color:#0a6;word-break:break-all}</style></head><body><div class=\"card\"><h1>";

/// The page of a record, from its heading to the farmer.
pub const PAGE_FARMER: &'static str = "</h1><div class=\"row\"><strong>Farmer:</strong> ";

/// The page of a record, from the farmer to the location.
pub const PAGE_LOCATION: &'static str = "</div><div class=\"row\"><strong>Location:</strong> ";

/// The page of a record, from the location to the identifier.
pub const PAGE_ID: &'static str = "</div><div class=\"row\"><strong>ID:</strong> <code>";

/// The page of a record, from the identifier to the address of the image.
pub const PAGE_IMAGE: &'static str = "</code></div><div class=\"row\"><img alt=\"QR\" src=\"/qr/";

/// The page of a record, from the image to the address of the record.
pub const PAGE_LINK: &'static str =
    "\" style=\"margin-top:12px;max-width:240px\"/></div><hr/><div class=\"row\"><a href=\"/p/";

/// The end of the page of a record.
pub const PAGE_END: &'static str = "\">View JSON</a></div></div></body></html>";

/// The page on which a scanned text can be pasted and sent.
pub const SCAN_PAGE: &'static str =
    r#"<!doctype html><html lang=\"en\"><head><meta charset=\"utf-8\"><meta name=\"viewport\" content=\"width=device-width, initial-scale=1\"><title>Scan Product</title><style>body{font-family:sans-serif;margin:24px;} .card{max-width:640px;border:1px solid #eee;border-radius:12px;padding:20px;box-shadow:0 2px 8px rgba(0,0,0,0.06);} textarea{width:100%;height:120px} pre{background:#f7f7f7;padding:12px;border-radius:8px;white-space:pre-wrap;word-break:break-all}</style></head><body><div class=\"card\"><h1>Scan Product</h1><p>Paste scanned QR text (URL/JSON/id) below. The page will POST to /scan and show the product.</p><textarea id=\"scan\" placeholder=\"Paste scanned content here...\"></textarea><br/><button id=\"btn\">Submit</button><pre id=\"out\"></pre></div><script>const btn=document.getElementById('btn');const area=document.getElementById('scan');const out=document.getElementById('out');btn.onclick=async()=>{out.textContent='Loading...';try{const res=await fetch('/scan',{method:'POST',headers:{'Content-Type':'application/json'},body:JSON.stringify({data:area.value})});const text=await res.text();try{const json=JSON.parse(text);out.textContent=JSON.stringify(json,null,2);}catch(e){out.textContent=text}}catch(e){out.textContent=String(e)}};</script></body></html>"#;

/// What the removal of a record answers.
pub open spec fn deleted_message(id: Seq<char>) -> Seq<char> {
    "Herb "@ + id + " deleted successfully"@
}

/// The record that a creating payload makes at the instant `now`.
pub open spec fn new_herb(
    name: Seq<char>,
    farmer: Seq<char>,
    location: Seq<char>,
    now: Timestamp,
) -> HerbView {
    HerbView { id: herb_id(name, farmer), name, farmer, location, created_at: now }
}

/// How a reset begins: with the removal of the database.
pub open spec fn reset_begins(s: AppStateView) -> StepView {
    StepView::Send { request: s.couch.delete_db(s.db_name), pending: PendingView::ResetRemoval }
}

/// How a creation begins: a payload that breaks a rule is answered with
/// that rule; for any other the new record is sent to the store.
pub open spec fn add_begins(
    s: AppStateView,
    name: Seq<char>,
    farmer: Seq<char>,
    location: Seq<char>,
    now: Timestamp,
) -> StepView {
    match add_fault(name, farmer, location) {
        Some(msg) => answer_text(400, msg),
        None => {
            let herb = new_herb(name, farmer, location, now);
            StepView::Send {
                request: s.couch.add_doc(s.db_name, herb.id, herb),
                pending: PendingView::AddStore { herb },
            }
        },
    }
}

/// How an endpoint begins that answers with the record `id`.
pub open spec fn fetch_begins(s: AppStateView, id: Seq<char>, pending: PendingView) -> StepView {
    StepView::Send { request: s.couch.get_doc(s.db_name, id), pending }
}

/// How a listing begins.
pub open spec fn list_begins(s: AppStateView) -> StepView {
    StepView::Send { request: s.couch.list_docs(s.db_name), pending: PendingView::Listing }
}

/// How a scan begins: a text that names no record is refused; for any
/// other the record that it names is fetched.
pub open spec fn scan_begins(s: AppStateView, data: Seq<char>) -> StepView {
    match scanned_id(data) {
        Some(id) => fetch_begins(s, id, PendingView::Scan),
        None => answer_text(400, "Unable to extract product id"@),
    }
}

/// The answer to a fetched record, or the answer `missing` where there is
/// none.
pub open spec fn record_or(reply: StoreReplyView, missing: Seq<char>) -> StepView {
    match reply_herb(reply) {
        Ok(h) => answer_record(200, h),
        Err(_) => answer_text(404, missing),
    }
}

/// How a change goes on once the document is fetched: without a record
/// and its revision it ends as not found; fields that break a rule are
/// refused; otherwise the changed record is sent to replace the revision
/// that was fetched.
pub open spec fn update_goes_on(
    s: AppStateView,
    id: Seq<char>,
    name: Option<Seq<char>>,
    farmer: Option<Seq<char>>,
    location: Option<Seq<char>>,
    reply: StoreReplyView,
) -> StepView {
    match reply_revised(reply) {
        Err(_) => answer_text(404, "Herb not found"@),
        Ok((h, rev)) => match update_fault(name, farmer, location) {
            Some(msg) => answer_text(400, msg),
            None => {
                let herb = updated(h, name, farmer, location);
                StepView::Send {
                    request: s.couch.update_doc(s.db_name, id, rev, herb),
                    pending: PendingView::UpdateStore { herb },
                }
            },
        },
    }
}

/// How a removal goes on once the document is fetched: the revision that
/// the document names is removed. Without a document, or without a
/// revision in it, nothing is removed and the removal ends as failed.
pub open spec fn delete_goes_on(s: AppStateView, id: Seq<char>, reply: StoreReplyView) -> StepView {
    match s.couch.delete_doc_next(s.db_name, id, reply) {
        Ok(request) => StepView::Send { request, pending: PendingView::DeleteRemoval { id } },
        Err(_) => answer_text(404, "Herb not found or deletion failed"@),
    }
}

/// The step that follows a reply of the store.
pub open spec fn resumed(s: AppStateView, pending: PendingView, reply: StoreReplyView) -> StepView {
    match pending {
        PendingView::ResetRemoval => StepView::Send {
            request: s.couch.create_db(s.db_name),
            pending: PendingView::ResetCreation,
        },
        PendingView::ResetCreation => if reply_fault(reply) is None {
            answer_text(200, "Database reset successfully"@)
        } else {
            answer_text(500, "Failed to reset database"@)
        },
        PendingView::AddStore { herb } => if reply_fault(reply) is None {
            answer_record(201, herb)
        } else {
            fetch_begins(s, herb.id, PendingView::AddFetch)
        },
        PendingView::AddFetch => match reply_herb(reply) {
            Ok(h) => answer_record(200, h),
            Err(_) => answer_text(500, "Failed to add herb"@),
        },
        PendingView::Detail => match reply_herb(reply) {
            Ok(h) => match qr_png(qr_payload(h, s.public_base_url)) {
                Ok(png) => answer_ok(
                    PayloadView::RecordWithQr(
                        HerbWithQrView { herb: h, qr_code: png_data_uri(png) },
                    ),
                ),
                Err(_) => answer_text(500, "Failed to encode QR code"@),
            },
            Err(_) => answer_text(404, "Herb not found"@),
        },
        PendingView::Public => record_or(reply, "Product not found"@),
        PendingView::PublicHtml => match reply_herb(reply) {
            Ok(h) => answer_ok(PayloadView::Html(product_page(h))),
            Err(_) => answer_text(404, "Product not found"@),
        },
        PendingView::QrImage => match reply_herb(reply) {
            Ok(h) => match qr_png(qr_payload(h, s.public_base_url)) {
                Ok(png) => answer_ok(PayloadView::Png(png)),
                Err(_) => answer_text(500, "Failed to encode QR code"@),
            },
            Err(_) => answer_text(404, "Herb not found"@),
        },
        PendingView::Scan => record_or(reply, "Product not found"@),
        PendingView::Listing => match reply_herbs(reply) {
            Ok(herbs) => answer_ok(PayloadView::Records(herbs)),
            Err(_) => answer_text(500, "Failed to fetch herbs"@),
        },
        PendingView::DeleteFetch { id } => delete_goes_on(s, id, reply),
        PendingView::DeleteRemoval { id } => if reply_fault(reply) is None {
            answer_text(200, deleted_message(id))
        } else {
            answer_text(404, "Herb not found or deletion failed"@)
        },
        PendingView::UpdateFetch { id, name, farmer, location } => update_goes_on(
            s,
            id,
            name,
            farmer,
            location,
            reply,
        ),
        PendingView::UpdateStore { herb } => if reply_fault(reply) is None {
            answer_record(200, herb)
        } else {
            answer_text(500, "Failed to update herb"@)
        },
    }
}

/// The requests that an endpoint may still send while it waits.
pub open spec fn requests_left(pending: PendingView) -> nat {
    match pending {
        PendingView::ResetRemoval => 1,
        PendingView::AddStore { herb } => 1,
        PendingView::DeleteFetch { id } => 1,
        PendingView::UpdateFetch { id, name, farmer, location } => 1,
        _ => 0,
    }
}

/// The step that answers with plain text.
fn text_step(status: u16, text: &str) -> (step: Step)
    ensures
        step@ == answer_text(status, text@),
{
    Step::Respond(Response { status, body: Payload::Text(text.to_owned()) })
}

/// The step that answers with a record.
fn record_step(status: u16, herb: Herb) -> (step: Step)
    ensures
        step@ == answer_record(status, herb@),
{
    Step::Respond(Response { status, body: Payload::Record(herb) })
}

/// The step that fetches the record `id`.
fn fetch_step(state: &AppState, id: &str, pending: Pending) -> (step: Step)
    ensures
        step@ == fetch_begins(state@, id@, pending@),
{
    Step::Send { request: state.couch.get_doc(state.db_name.as_str(), id), pending }
}

/// The public base URL, where one is set.
fn public_base(state: &AppState) -> (base: Option<&str>)
    ensures
        opt_str(base) == state@.public_base_url,
{
    match &state.public_base_url {
        Some(base) => Some(base.as_str()),
        None => None,
    }
}

/// The greeting at the root.
pub fn root() -> (text: String)
    ensures
        text@ == "Hello from Backend!"@,
{
    "Hello from Backend!".to_owned()
}

/// The answer that tells that the server is up.
pub fn health_check() -> (response: Response)
    ensures
        response@ == (ResponseView { status: 200, body: PayloadView::Text("OK"@) }),
{
    Response { status: 200, body: Payload::Text("OK".to_owned()) }
}

/// The answer with the page on which a scanned text can be pasted and
/// sent.
pub fn scan_page() -> (response: Response)
    ensures
        response@ == (ResponseView { status: 200, body: PayloadView::Html(SCAN_PAGE@) }),
{
    Response { status: 200, body: Payload::Html(SCAN_PAGE.to_owned()) }
}

/// The page of a record.
pub fn render_product_page(herb: &Herb) -> (page: String)
    ensures
        page@ == product_page(herb@),
{
    let mut page = PAGE_HEAD.to_owned();
    page.append(herb.name.as_str());
    page.append(PAGE_STYLE);
    page.append(herb.name.as_str());
    page.append(PAGE_FARMER);
    page.append(herb.farmer.as_str());
    page.append(PAGE_LOCATION);
    page.append(herb.location.as_str());
    page.append(PAGE_ID);
    page.append(herb.id.as_str());
    page.append(PAGE_IMAGE);
    page.append(herb.id.as_str());
    page.append(PAGE_LINK);
    page.append(herb.id.as_str());
    page.append(PAGE_END);
    page
}

/// Begins a reset of the database.
pub fn reset_db(state: &AppState) -> (step: Step)
    ensures
        step@ == reset_begins(state@),
{
    Step::Send {
        request: state.couch.reset_db(state.db_name.as_str()),
        pending: Pending::ResetRemoval,
    }
}

/// Begins the creation of a record at the instant `now`.
pub fn add_herb(state: &AppState, payload: AddHerbRequest, now: Timestamp) -> (step: Step)
    ensures
        step@ == add_begins(state@, payload.name@, payload.farmer@, payload.location@, now),
{
    match payload.validate() {
        Err(msg) => Step::Respond(Response { status: 400, body: Payload::Text(msg) }),
        Ok(_) => {
            let id = generate_id(payload.name.as_str(), payload.farmer.as_str());
            let herb = Herb {
                id,
                name: payload.name,
                farmer: payload.farmer,
                location: payload.location,
                created_at: now,
            };
            let request = state.couch.add_doc(state.db_name.as_str(), herb.id.as_str(), &herb);
            Step::Send { request, pending: Pending::AddStore { herb } }
        },
    }
}

/// Begins the answer with the record `id` and its QR code.
pub fn get_herb(state: &AppState, id: &str) -> (step: Step)
    ensures
        step@ == fetch_begins(state@, id@, PendingView::Detail),
{
    fetch_step(state, id, Pending::Detail)
}

/// Begins the answer with the record `id`.
pub fn get_public_product(state: &AppState, id: &str) -> (step: Step)
    ensures
        step@ == fetch_begins(state@, id@, PendingView::Public),
{
    fetch_step(state, id, Pending::Public)
}

/// Begins the answer with the page of the record `id`.
pub fn get_public_product_html(state: &AppState, id: &str) -> (step: Step)
    ensures
        step@ == fetch_begins(state@, id@, PendingView::PublicHtml),
{
    fetch_step(state, id, Pending::PublicHtml)
}

/// Begins the answer with the QR code of the record `id` as an image.
pub fn get_qr_png(state: &AppState, id: &str) -> (step: Step)
    ensures
        step@ == fetch_begins(state@, id@, PendingView::QrImage),
{
    fetch_step(state, id, Pending::QrImage)
}

/// Begins the answer with all records.
pub fn list_herbs(state: &AppState) -> (step: Step)
    ensures
        step@ == list_begins(state@),
{
    Step::Send {
        request: state.couch.list_docs(state.db_name.as_str()),
        pending: Pending::Listing,
    }
}

/// Begins the removal of the record `id`.
pub fn delete_herb(state: &AppState, id: &str) -> (step: Step)
    ensures
        step@ == fetch_begins(state@, id@, PendingView::DeleteFetch { id: id@ }),
{
    Step::Send {
        request: state.couch.delete_doc(state.db_name.as_str(), id),
        pending: Pending::DeleteFetch { id: id.to_owned() },
    }
}

/// Begins a change of the record `id`.
pub fn update_herb(state: &AppState, id: &str, payload: UpdateHerbRequest) -> (step: Step)
    ensures
        step@ == fetch_begins(
            state@,
            id@,
            PendingView::UpdateFetch {
                id: id@,
                name: opt_text(payload.name),
                farmer: opt_text(payload.farmer),
                location: opt_text(payload.location),
            },
        ),
{
    Step::Send {
        request: state.couch.get_doc_with_rev(state.db_name.as_str(), id),
        pending: Pending::UpdateFetch { id: id.to_owned(), payload },
    }
}

/// Begins the answer to a scan.
pub fn scan_product(state: &AppState, payload: &ScanRequest) -> (step: Step)
    ensures
        step@ == scan_begins(state@, payload.data@),
{
    match extract_id_from_scanned_text(payload.data.as_str()) {
        Some(id) => fetch_step(state, id.as_str(), Pending::Scan),
        None => text_step(400, "Unable to extract product id"),
    }
}

/// The answer to a fetched record, or the answer `missing` where there is
/// none.
fn record_or_missing(reply: &StoreReply, missing: &str) -> (step: Step)
    ensures
        step@ == record_or(reply@, missing@),
{
    match read_doc(reply) {
        Ok(herb) => record_step(200, herb),
        Err(_) => text_step(404, missing),
    }
}

/// The answer with a record and its QR code.
fn detail_step(state: &AppState, reply: &StoreReply) -> (step: Step)
    ensures
        step@ == resumed(state@, PendingView::Detail, reply@),
{
    match read_doc(reply) {
        Ok(herb) => match generate_qr_data_uri(&herb, public_base(state)) {
            Ok(qr_code) => Step::Respond(
                Response { status: 200, body: Payload::RecordWithQr(HerbWithQr { herb, qr_code }) },
            ),
            Err(_) => text_step(500, "Failed to encode QR code"),
        },
        Err(_) => text_step(404, "Herb not found"),
    }
}

/// The answer with the QR code of a record as an image.
fn image_step(state: &AppState, reply: &StoreReply) -> (step: Step)
    ensures
        step@ == resumed(state@, PendingView::QrImage, reply@),
{
    match read_doc(reply) {
        Ok(herb) => match generate_qr_png_bytes(&herb, public_base(state)) {
            Ok(png) => Step::Respond(Response { status: 200, body: Payload::Png(png) }),
            Err(_) => text_step(500, "Failed to encode QR code"),
        },
        Err(_) => text_step(404, "Herb not found"),
    }
}

/// The step of a removal that follows the fetch of the document.
fn delete_step(state: &AppState, id: String, reply: &StoreReply) -> (step: Step)
    ensures
        step@ == delete_goes_on(state@, id@, reply@),
{
    match state.couch.delete_doc_next(state.db_name.as_str(), id.as_str(), reply) {
        Ok(request) => Step::Send { request, pending: Pending::DeleteRemoval { id } },
        Err(_) => text_step(404, "Herb not found or deletion failed"),
    }
}

/// The answer to a removal that was carried out.
fn deleted_step(id: &str) -> (step: Step)
    ensures
        step@ == answer_text(200, deleted_message(id@)),
{
    let mut text = "Herb ".to_owned();
    text.append(id);
    text.append(" deleted successfully");
    Step::Respond(Response { status: 200, body: Payload::Text(text) })
}

/// The step of a change that follows the fetch of the document.
fn update_step(
    state: &AppState,
    id: String,
    payload: UpdateHerbRequest,
    reply: &StoreReply,
) -> (step: Step)
    ensures
        step@ == update_goes_on(
            state@,
            id@,
            opt_text(payload.name),
            opt_text(payload.farmer),
            opt_text(payload.location),
            reply@,
        ),
{
    match read_doc_with_rev(reply) {
        Err(_) => text_step(404, "Herb not found"),
        Ok((found, rev)) => match payload.apply(&found) {
            Err(msg) => Step::Respond(Response { status: 400, body: Payload::Text(msg) }),
            Ok(herb) => {
                let request = state.couch.update_doc(
                    state.db_name.as_str(),
                    id.as_str(),
                    rev.as_str(),
                    &herb,
                );
                Step::Send { request, pending: Pending::UpdateStore { herb } }
            },
        },
    }
}

/// The step that follows a reply of the store. An endpoint that waits
/// sends at most one more request.
pub fn resume(state: &AppState, pending: Pending, reply: &StoreReply) -> (step: Step)
    ensures
        step@ == resumed(state@, pending@, reply@),
        step@ matches StepView::Send { pending: next, .. } ==> requests_left(next)
            < requests_left(pending@),
{
    let carried_out = check_reply(reply).is_ok();
    match pending {
        Pending::ResetRemoval => Step::Send {
            request: state.couch.reset_db_next(state.db_name.as_str(), reply),
            pending: Pending::ResetCreation,
        },
        Pending::ResetCreation => if carried_out {
            text_step(200, "Database reset successfully")
        } else {
            text_step(500, "Failed to reset database")
        },
        Pending::AddStore { herb } => if carried_out {
            record_step(201, herb)
        } else {
            fetch_step(state, herb.id.as_str(), Pending::AddFetch)
        },
        Pending::AddFetch => match read_doc(reply) {
            Ok(herb) => record_step(200, herb),
            Err(_) => text_step(500, "Failed to add herb"),
        },
        Pending::Detail => detail_step(state, reply),
        Pending::Public => record_or_missing(reply, "Product not found"),
        Pending::PublicHtml => match read_doc(reply) {
            Ok(herb) => Step::Respond(
                Response { status: 200, body: Payload::Html(render_product_page(&herb)) },
            ),
            Err(_) => text_step(404, "Product not found"),
        },
        Pending::QrImage => image_step(state, reply),
        Pending::Scan => record_or_missing(reply, "Product not found"),
        Pending::Listing => match read_docs(reply) {
            Ok(herbs) => Step::Respond(Response { status: 200, body: Payload::Records(herbs) }),
            Err(_) => text_step(500, "Failed to fetch herbs"),
        },
        Pending::DeleteFetch { id } => delete_step(state, id, reply),
        Pending::DeleteRemoval { id } => if carried_out {
            deleted_step(id.as_str())
        } else {
            text_step(404, "Herb not found or deletion failed")
        },
        Pending::UpdateFetch { id, payload } => update_step(state, id, payload, reply),
        Pending::UpdateStore { herb } => if carried_out {
            record_step(200, herb)
        } else {
            text_step(500, "Failed to update herb")
        },
    }
}

/// Every endpoint answers after at most two requests: what it begins
/// with leaves at most one more, and each reply leaves fewer than before.
pub proof fn lemma_two_requests_at_most(
    s: AppStateView,
    pending: PendingView,
    reply: StoreReplyView,
)
    ensures
        requests_left(pending) <= 1,
        resumed(s, pending, reply) matches StepView::Send { pending: next, .. } ==> requests_left(
            next,
        ) < requests_left(pending),
{
}

/// Creating twice is creating once. Two creations with the same name and
/// farmer make records with the same identifier and send them to the same
/// address, whenever they happen; where the store refuses the second, the
/// endpoint fetches the document at that address, and answers with the
/// record found there as a success.
pub proof fn lemma_create_is_idempotent(
    s: AppStateView,
    name: Seq<char>,
    farmer: Seq<char>,
    location: Seq<char>,
    first: Timestamp,
    second: Timestamp,
    refusal: StoreReplyView,
    fetched: StoreReplyView,
)
    requires
        add_fault(name, farmer, location) is None,
        reply_fault(refusal) is Some,
        reply_herb(fetched) is Ok,
    ensures
        add_begins(s, name, farmer, location, first) matches StepView::Send {
            request: r1,
            pending: PendingView::AddStore { herb: h1 },
        } && add_begins(s, name, farmer, location, second) matches StepView::Send {
            request: r2,
            pending: PendingView::AddStore { herb: h2 },
        } && {
            &&& h1.id == herb_id(name, farmer)
            &&& h2.id == h1.id
            &&& r2.url == r1.url
            &&& r2.method == r1.method
            &&& resumed(s, PendingView::AddStore { herb: h2 }, refusal) == fetch_begins(
                s,
                h1.id,
                PendingView::AddFetch,
            )
            &&& resumed(s, PendingView::AddFetch, fetched) == answer_record(
                200,
                reply_herb(fetched)->Ok_0,
            )
        },
{
}

/// A change keeps what a record is: where the store holds the record
/// `h` at some revision and the payload breaks no rule, the record that is
/// sent in the place of that revision, and answered once the store has
/// taken it, has the identifier and the creation time of `h`, the supplied
/// values in their places and the other fields as they were.
pub proof fn lemma_change_keeps_identity(
    s: AppStateView,
    id: Seq<char>,
    name: Option<Seq<char>>,
    farmer: Option<Seq<char>>,
    location: Option<Seq<char>>,
    fetched: StoreReplyView,
    stored: StoreReplyView,
)
    requires
        reply_revised(fetched) is Ok,
        update_fault(name, farmer, location) is None,
        reply_fault(stored) is None,
    ensures
        update_goes_on(s, id, name, farmer, location, fetched) matches StepView::Send {
            request,
            pending: PendingView::UpdateStore { herb },
        } && {
            let h = reply_revised(fetched)->Ok_0.0;
            let rev = reply_revised(fetched)->Ok_0.1;
            &&& herb.id == h.id
            &&& herb.created_at == h.created_at
            &&& herb == updated(h, name, farmer, location)
            &&& json_string_member(reply_body(fetched), "_rev"@) == Some(rev)
            &&& request == s.couch.update_doc(s.db_name, id, rev, herb)
            &&& resumed(s, PendingView::UpdateStore { herb }, stored) == answer_record(200, herb)
        },
{
}

/// A removal is answered as done only once the store has removed the
/// revision that was read. Where the fetched document names the revision
/// `rev`, the endpoint asks the store to remove exactly that revision of
/// the document; in every other case it answers that the removal failed
/// and asks nothing. Once the store has answered the removal, the
/// endpoint answers with a success exactly when the store did.
pub proof fn lemma_removal_is_confirmed(
    s: AppStateView,
    id: Seq<char>,
    fetched: StoreReplyView,
    removed: StoreReplyView,
)
    ensures
        json_string_member(reply_body(fetched), "_rev"@) matches Some(rev) ==> (reply_fault(
            fetched,
        ) is None ==> delete_goes_on(s, id, fetched) == (StepView::Send {
            request: s.couch.delete_revision(s.db_name, id, rev),
            pending: PendingView::DeleteRemoval { id },
        })),
        reply_fault(fetched) is Some || json_string_member(reply_body(fetched), "_rev"@) is None
            ==> delete_goes_on(s, id, fetched) == answer_text(
            404,
            "Herb not found or deletion failed"@,
        ),
        delete_goes_on(s, id, fetched) matches StepView::Respond(response) ==> response.status
            == 404,
        reply_fault(removed) is None ==> resumed(s, PendingView::DeleteRemoval { id }, removed)
            == answer_text(200, deleted_message(id)),
        reply_fault(removed) is Some ==> resumed(s, PendingView::DeleteRemoval { id }, removed)
            == answer_text(404, "Herb not found or deletion failed"@),
{
}

/// What is fetched is what is answered: where the store answers a fetch
/// with a document that holds the record `h`, the endpoints that answer
/// with a record answer with `h`; where it answers with a failure, as it
/// does for a record that was removed, they answer that nothing was
/// found.
pub proof fn lemma_fetch_answers_what_the_store_holds(s: AppStateView, fetched: StoreReplyView)
    ensures
        reply_herb(fetched) matches Ok(h) ==> {
            &&& resumed(s, PendingView::Public, fetched) == answer_record(200, h)
            &&& resumed(s, PendingView::Scan, fetched) == answer_record(200, h)
            &&& resumed(s, PendingView::PublicHtml, fetched) == answer_ok(
                PayloadView::Html(product_page(h)),
            )
        },
        reply_herb(fetched) is Err ==> {
            &&& resumed(s, PendingView::Public, fetched) == answer_text(404, "Product not found"@)
            &&& resumed(s, PendingView::Scan, fetched) == answer_text(404, "Product not found"@)
            &&& resumed(s, PendingView::PublicHtml, fetched) == answer_text(
                404,
                "Product not found"@,
            )
            &&& resumed(s, PendingView::Detail, fetched) == answer_text(404, "Herb not found"@)
            &&& resumed(s, PendingView::QrImage, fetched) == answer_text(404, "Herb not found"@)
        },
{
}

/// What was created is found again. A created record is answered as it
/// was sent to the store; a fetch of its identifier asks the store at the
/// address that the record was sent to; and where the store answers that
/// fetch with a document that holds the record, the endpoint answers with
/// the very record that the creation answered with.
pub proof fn lemma_created_is_found_again(
    s: AppStateView,
    name: Seq<char>,
    farmer: Seq<char>,
    location: Seq<char>,
    now: Timestamp,
    stored: StoreReplyView,
    fetched: StoreReplyView,
)
    requires
        add_fault(name, farmer, location) is None,
        reply_fault(stored) is None,
        reply_herb(fetched) == Ok::<HerbView, StoreError>(new_herb(name, farmer, location, now)),
    ensures
        add_begins(s, name, farmer, location, now) matches StepView::Send {
            request: put,
            pending: PendingView::AddStore { herb },
        } && fetch_begins(s, herb.id, PendingView::Public) matches StepView::Send {
            request: get,
            pending,
        } && {
            &&& herb == new_herb(name, farmer, location, now)
            &&& put.body == Some(herb_json(herb))
            &&& get.url == put.url
            &&& resumed(s, PendingView::AddStore { herb }, stored) == answer_record(201, herb)
            &&& resumed(s, pending, fetched) == answer_record(200, herb)
        },
{
}

} // verus!
