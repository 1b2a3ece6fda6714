//! The document store: the requests that its HTTP API takes, and what its
//! replies mean. Nothing here sends anything: a request is a value that
//! the caller sends, and the reply is a value that the caller hands back.

use crate::document::{document_herb, herb_from_document, herb_json, herb_json_with_rev};
use crate::document::{herb_to_json, herb_to_json_with_rev, opt_herb};
use crate::json::{array_member, is_json, json_array_member, json_member, json_string_member};
use crate::json::{member, parses, string_member};
use crate::record::{herb_views, Herb, HerbView};
use crate::text::{opt_text, texts};
use vstd::prelude::*;

verus! {

/// The HTTP methods that the store is asked with.
#[derive(Clone, Copy, Debug, PartialEq, Eq, Structural)]
pub enum Method {
    Get,
    Put,
    Delete,
}

/// One request to the store, with the credentials for basic
/// authentication and, where it has one, a body of JSON text.
#[derive(Clone, Debug, PartialEq, Eq)]
pub struct StoreRequest {
    pub method: Method,
    pub url: String,
    pub username: String,
    pub password: String,
    pub body: Option<String>,
}

/// What a request holds.
pub struct StoreRequestView {
    pub method: Method,
    pub url: Seq<char>,
    pub username: Seq<char>,
    pub password: Seq<char>,
    pub body: Option<Seq<char>>,
}

impl View for StoreRequest {
    type V = StoreRequestView;

    open spec fn view(&self) -> StoreRequestView {
        StoreRequestView {
            method: self.method,
            url: self.url@,
            username: self.username@,
            password: self.password@,
            body: opt_text(self.body),
        }
    }
}

/// What came back for a request: nothing, where the store could not be
/// reached, or a status and a body.
#[derive(Clone, Debug, PartialEq, Eq)]
pub enum StoreReply {
    Unreachable,
    Answered { status: u16, body: String },
}

/// What a reply holds.
pub enum StoreReplyView {
    Unreachable,
    Answered { status: u16, body: Seq<char> },
}

impl View for StoreReply {
    type V = StoreReplyView;

    open spec fn view(&self) -> StoreReplyView {
        match self {
            StoreReply::Unreachable => StoreReplyView::Unreachable,
            StoreReply::Answered { status, body } => StoreReplyView::Answered {
                status: *status,
                body: body@,
            },
        }
    }
}

/// Why an operation on the store failed.
#[derive(Clone, Copy, Debug, PartialEq, Eq, Structural)]
pub enum StoreError {
    /// The store could not be reached.
    Unreachable,
    /// The store answered with a status that is no success.
    Status(u16),
    /// The store answered with a body that is not what was asked for.
    Malformed,
}

/// The statuses that mean success.
pub open spec fn succeeded(status: u16) -> bool {
    200 <= status < 300
}

/// The address of a database.
pub open spec fn db_url(base: Seq<char>, db: Seq<char>) -> Seq<char> {
    base + "/"@ + db
}

/// The address of a document.
pub open spec fn doc_url(base: Seq<char>, db: Seq<char>, id: Seq<char>) -> Seq<char> {
    base + "/"@ + db + "/"@ + id
}

/// The address that lists all documents of a database with their bodies.
pub open spec fn all_docs_url(base: Seq<char>, db: Seq<char>) -> Seq<char> {
    db_url(base, db) + "/_all_docs?include_docs=true"@
}

/// The address of one revision of a document.
pub open spec fn revision_url(base: Seq<char>, db: Seq<char>, id: Seq<char>, rev: Seq<char>) -> Seq<
    char,
> {
    doc_url(base, db, id) + "?rev="@ + rev
}

/// Why a reply is a failure, if it is one: the store was not reached, or
/// its status is no success.
pub open spec fn reply_fault(reply: StoreReplyView) -> Option<StoreError> {
    match reply {
        StoreReplyView::Unreachable => Some(StoreError::Unreachable),
        StoreReplyView::Answered { status, body } => if succeeded(status) {
            None
        } else {
            Some(StoreError::Status(status))
        },
    }
}

/// The body of a reply.
pub open spec fn reply_body(reply: StoreReplyView) -> Seq<char> {
    match reply {
        StoreReplyView::Unreachable => Seq::empty(),
        StoreReplyView::Answered { status, body } => body,
    }
}

/// The record that a reply holds: the reply must be a success, and its
/// body a document with a record.
pub open spec fn reply_herb(reply: StoreReplyView) -> Result<HerbView, StoreError> {
    match reply_fault(reply) {
        Some(e) => Err(e),
        None => match document_herb(reply_body(reply)) {
            Some(h) => Ok(h),
            None => Err(StoreError::Malformed),
        },
    }
}

/// The record that a reply holds, with the revision of its document: the
/// reply must be a success, its body a document with a record, and the
/// member `_rev` of that document a string.
pub open spec fn reply_revised(reply: StoreReplyView) -> Result<(HerbView, Seq<char>), StoreError> {
    match reply_herb(reply) {
        Err(e) => Err(e),
        Ok(h) => match json_string_member(reply_body(reply), "_rev"@) {
            Some(rev) => Ok((h, rev)),
            None => Err(StoreError::Malformed),
        },
    }
}

/// Why the reply to the removal of a database is a failure, if it is one.
/// A database that was not there is as good as removed.
pub open spec fn removal_fault(reply: StoreReplyView) -> Option<StoreError> {
    match reply {
        StoreReplyView::Unreachable => Some(StoreError::Unreachable),
        StoreReplyView::Answered { status, body } => if succeeded(status) || status == 404 {
            None
        } else {
            Some(StoreError::Status(status))
        },
    }
}

/// The documents that a listing holds: for each row that has a member
/// `doc`, that member.
pub open spec fn rows_docs(rows: Seq<Seq<char>>) -> Seq<Seq<char>>
    decreases rows.len(),
{
    if rows.len() == 0 {
        Seq::empty()
    } else {
        match json_member(rows.last(), "doc"@) {
            Some(doc) => rows_docs(rows.drop_last()).push(doc),
            None => rows_docs(rows.drop_last()),
        }
    }
}

/// The rows of a listing: the items of its member `rows`, or none where
/// it has no such array.
pub open spec fn listing_rows(body: Seq<char>) -> Seq<Seq<char>> {
    match json_array_member(body, "rows"@) {
        Some(rows) => rows,
        None => Seq::empty(),
    }
}

/// The records that documents hold, while each of them holds one.
pub open spec fn docs_herbs(docs: Seq<Seq<char>>) -> Option<Seq<HerbView>> {
    if forall|i: int| 0 <= i < docs.len() ==> (#[trigger] document_herb(docs[i])) is Some {
        Some(Seq::new(docs.len(), |i: int| document_herb(docs[i])->0))
    } else {
        None
    }
}

/// The records that a reply to a listing holds: the reply must be a
/// success and its body JSON text, and every document in its rows must
/// hold a record.
pub open spec fn reply_herbs(reply: StoreReplyView) -> Result<Seq<HerbView>, StoreError> {
    match reply_fault(reply) {
        Some(e) => Err(e),
        None => if !is_json(reply_body(reply)) {
            Err(StoreError::Malformed)
        } else {
            match docs_herbs(rows_docs(listing_rows(reply_body(reply)))) {
                Some(herbs) => Ok(herbs),
                None => Err(StoreError::Malformed),
            }
        },
    }
}

/// The connection to a store: where it is, and who asks.
#[derive(Debug, PartialEq, Eq)]
pub struct CouchDb {
    base_url: String,
    username: String,
    password: String,
}

/// What a connection holds.
pub struct CouchDbView {
    pub base_url: Seq<char>,
    pub username: Seq<char>,
    pub password: Seq<char>,
}

impl CouchDbView {
    /// The request of this connection with a method, an address and a
    /// body.
    pub open spec fn request(
        self,
        method: Method,
        url: Seq<char>,
        body: Option<Seq<char>>,
    ) -> StoreRequestView {
        StoreRequestView { method, url, username: self.username, password: self.password, body }
    }

    /// The request that creates a database.
    pub open spec fn create_db(self, db: Seq<char>) -> StoreRequestView {
        self.request(Method::Put, db_url(self.base_url, db), None)
    }

    /// The request that removes a database.
    pub open spec fn delete_db(self, db: Seq<char>) -> StoreRequestView {
        self.request(Method::Delete, db_url(self.base_url, db), None)
    }

    /// The request that stores a new document.
    pub open spec fn add_doc(
        self,
        db: Seq<char>,
        id: Seq<char>,
        doc: HerbView,
    ) -> StoreRequestView {
        self.request(Method::Put, doc_url(self.base_url, db, id), Some(herb_json(doc)))
    }

    /// The request that fetches a document.
    pub open spec fn get_doc(self, db: Seq<char>, id: Seq<char>) -> StoreRequestView {
        self.request(Method::Get, doc_url(self.base_url, db, id), None)
    }

    /// The request that replaces revision `rev` of a document.
    pub open spec fn update_doc(
        self,
        db: Seq<char>,
        id: Seq<char>,
        rev: Seq<char>,
        doc: HerbView,
    ) -> StoreRequestView {
        self.request(
            Method::Put,
            doc_url(self.base_url, db, id),
            Some(herb_json_with_rev(doc, rev)),
        )
    }

    /// The request that lists all documents with their bodies.
    pub open spec fn list_docs(self, db: Seq<char>) -> StoreRequestView {
        self.request(Method::Get, all_docs_url(self.base_url, db), None)
    }

    /// The request that removes revision `rev` of a document.
    pub open spec fn delete_revision(
        self,
        db: Seq<char>,
        id: Seq<char>,
        rev: Seq<char>,
    ) -> StoreRequestView {
        self.request(Method::Delete, revision_url(self.base_url, db, id, rev), None)
    }

    /// What follows the reply to the fetch that begins a removal: the
    /// request that removes the revision that the document names. It is a
    /// failure where the reply is one, and where the document names no
    /// revision: nothing is removed without one.
    pub open spec fn delete_doc_next(
        self,
        db: Seq<char>,
        id: Seq<char>,
        reply: StoreReplyView,
    ) -> Result<StoreRequestView, StoreError> {
        match reply_fault(reply) {
            Some(e) => Err(e),
            None => match json_string_member(reply_body(reply), "_rev"@) {
                Some(rev) => Ok(self.delete_revision(db, id, rev)),
                None => Err(StoreError::Malformed),
            },
        }
    }
}

impl View for CouchDb {
    type V = CouchDbView;

    closed spec fn view(&self) -> CouchDbView {
        CouchDbView {
            base_url: self.base_url@,
            username: self.username@,
            password: self.password@,
        }
    }
}

impl Clone for CouchDb {
    fn clone(&self) -> (r: CouchDb)
        ensures
            r@ == self@,
    {
        CouchDb {
            base_url: self.base_url.clone(),
            username: self.username.clone(),
            password: self.password.clone(),
        }
    }
}

/// The view of a request or a failure.
pub open spec fn request_result(r: Result<StoreRequest, StoreError>) -> Result<
    StoreRequestView,
    StoreError,
> {
    match r {
        Ok(request) => Ok(request@),
        Err(e) => Err(e),
    }
}

impl CouchDb {
    /// The connection to the store at `base_url`, for this user.
    pub fn new(base_url: &str, username: &str, password: &str) -> (r: CouchDb)
        ensures
            r@ == (CouchDbView { base_url: base_url@, username: username@, password: password@ }),
    {
        CouchDb {
            base_url: base_url.to_owned(),
            username: username.to_owned(),
            password: password.to_owned(),
        }
    }

    /// The request of this connection with a method, an address and a
    /// body.
    fn request(&self, method: Method, url: String, body: Option<String>) -> (r: StoreRequest)
        ensures
            r@ == self@.request(method, url@, opt_text(body)),
    {
        StoreRequest {
            method,
            url,
            username: self.username.clone(),
            password: self.password.clone(),
            body,
        }
    }

    /// The address of a database.
    fn db_address(&self, db: &str) -> (url: String)
        ensures
            url@ == db_url(self@.base_url, db@),
    {
        let mut url = self.base_url.clone();
        url.append("/");
        url.append(db);
        url
    }

    /// The address of a document.
    fn doc_address(&self, db: &str, id: &str) -> (url: String)
        ensures
            url@ == doc_url(self@.base_url, db@, id@),
    {
        let mut url = self.db_address(db);
        url.append("/");
        url.append(id);
        url
    }

    /// The request that creates the database `db`.
    pub fn create_db(&self, db: &str) -> (r: StoreRequest)
        ensures
            r@ == self@.create_db(db@),
    {
        self.request(Method::Put, self.db_address(db), None)
    }

    /// The request that removes the database `db`.
    pub fn delete_db(&self, db: &str) -> (r: StoreRequest)
        ensures
            r@ == self@.delete_db(db@),
    {
        self.request(Method::Delete, self.db_address(db), None)
    }

    /// The request that begins a reset of the database `db`: its removal.
    pub fn reset_db(&self, db: &str) -> (r: StoreRequest)
        ensures
            r@ == self@.delete_db(db@),
    {
        self.delete_db(db)
    }

    /// The request that ends a reset of the database `db`: its creation,
    /// whatever came back for the removal.
    pub fn reset_db_next(&self, db: &str, removal: &StoreReply) -> (r: StoreRequest)
        ensures
            r@ == self@.create_db(db@),
    {
        self.create_db(db)
    }

    /// The request that stores `doc` as the new document `id`.
    pub fn add_doc(&self, db: &str, id: &str, doc: &Herb) -> (r: StoreRequest)
        ensures
            r@ == self@.add_doc(db@, id@, doc@),
    {
        self.request(Method::Put, self.doc_address(db, id), Some(herb_to_json(doc)))
    }

    /// The request that fetches the document `id`.
    pub fn get_doc(&self, db: &str, id: &str) -> (r: StoreRequest)
        ensures
            r@ == self@.get_doc(db@, id@),
    {
        self.request(Method::Get, self.doc_address(db, id), None)
    }

    /// The request that fetches the document `id` for its record and its
    /// revision.
    pub fn get_doc_with_rev(&self, db: &str, id: &str) -> (r: StoreRequest)
        ensures
            r@ == self@.get_doc(db@, id@),
    {
        self.get_doc(db, id)
    }

    /// The request that puts `doc` in the place of revision `rev` of the
    /// document `id`.
    pub fn update_doc(&self, db: &str, id: &str, rev: &str, doc: &Herb) -> (r: StoreRequest)
        ensures
            r@ == self@.update_doc(db@, id@, rev@, doc@),
    {
        self.request(
            Method::Put,
            self.doc_address(db, id),
            Some(herb_to_json_with_rev(doc, rev)),
        )
    }

    /// The request that lists all documents of `db` with their bodies.
    pub fn list_docs(&self, db: &str) -> (r: StoreRequest)
        ensures
            r@ == self@.list_docs(db@),
    {
        let mut url = self.db_address(db);
        url.append("/_all_docs?include_docs=true");
        self.request(Method::Get, url, None)
    }

    /// The request that begins the removal of the document `id`: the
    /// fetch that tells its revision.
    pub fn delete_doc(&self, db: &str, id: &str) -> (r: StoreRequest)
        ensures
            r@ == self@.get_doc(db@, id@),
    {
        self.get_doc(db, id)
    }

    /// What follows the reply to the fetch that begins a removal: the
    /// request that removes the revision that was read. Between the fetch
    /// and the removal another writer may change the document: the store
    /// then refuses the removal, and the removal has failed.
    pub fn delete_doc_next(&self, db: &str, id: &str, fetched: &StoreReply) -> (r: Result<
        StoreRequest,
        StoreError,
    >)
        ensures
            request_result(r) == self@.delete_doc_next(db@, id@, fetched@),
    {
        match fetched {
            StoreReply::Unreachable => Err(StoreError::Unreachable),
            StoreReply::Answered { status, body } => {
                if !is_success(*status) {
                    return Err(StoreError::Status(*status));
                }
                match string_member(body.as_str(), "_rev") {
                    Some(rev) => {
                        let mut url = self.doc_address(db, id);
                        url.append("?rev=");
                        url.append(rev.as_str());
                        Ok(self.request(Method::Delete, url, None))
                    },
                    None => Err(StoreError::Malformed),
                }
            },
        }
    }
}

/// Whether a status means success.
pub fn is_success(status: u16) -> (b: bool)
    ensures
        b == succeeded(status),
{
    200 <= status && status < 300
}

/// Whether the store carried out what it was asked: it was reached, and
/// its status is a success.
pub fn check_reply(reply: &StoreReply) -> (r: Result<(), StoreError>)
    ensures
        match r {
            Ok(_) => reply_fault(reply@) is None,
            Err(e) => reply_fault(reply@) == Some(e),
        },
{
    match reply {
        StoreReply::Unreachable => Err(StoreError::Unreachable),
        StoreReply::Answered { status, body } => {
            if is_success(*status) {
                Ok(())
            } else {
                Err(StoreError::Status(*status))
            }
        },
    }
}

/// Whether the store removed a database: it was reached, and its status
/// is a success or tells that the database was not there.
pub fn check_removed(reply: &StoreReply) -> (r: Result<(), StoreError>)
    ensures
        match r {
            Ok(_) => removal_fault(reply@) is None,
            Err(e) => removal_fault(reply@) == Some(e),
        },
{
    match reply {
        StoreReply::Unreachable => Err(StoreError::Unreachable),
        StoreReply::Answered { status, body } => {
            if is_success(*status) || *status == 404 {
                Ok(())
            } else {
                Err(StoreError::Status(*status))
            }
        },
    }
}

/// The view of a record or a failure.
pub open spec fn herb_result(r: Result<Herb, StoreError>) -> Result<HerbView, StoreError> {
    match r {
        Ok(h) => Ok(h@),
        Err(e) => Err(e),
    }
}

/// The view of a list of records or a failure.
pub open spec fn herbs_result(r: Result<Vec<Herb>, StoreError>) -> Result<
    Seq<HerbView>,
    StoreError,
> {
    match r {
        Ok(v) => Ok(herb_views(v@)),
        Err(e) => Err(e),
    }
}

/// The record in the reply to a fetch.
pub fn read_doc(reply: &StoreReply) -> (r: Result<Herb, StoreError>)
    ensures
        herb_result(r) == reply_herb(reply@),
{
    match reply {
        StoreReply::Unreachable => Err(StoreError::Unreachable),
        StoreReply::Answered { status, body } => {
            if !is_success(*status) {
                return Err(StoreError::Status(*status));
            }
            match herb_from_document(body.as_str()) {
                Some(herb) => Ok(herb),
                None => Err(StoreError::Malformed),
            }
        },
    }
}

/// The view of a record with its revision, or a failure.
pub open spec fn revised_result(r: Result<(Herb, String), StoreError>) -> Result<
    (HerbView, Seq<char>),
    StoreError,
> {
    match r {
        Ok((herb, rev)) => Ok((herb@, rev@)),
        Err(e) => Err(e),
    }
}

/// The record in the reply to a fetch, with the revision that the
/// document names. A document that names no revision is a failure: no
/// change can be sent without one.
pub fn read_doc_with_rev(reply: &StoreReply) -> (r: Result<(Herb, String), StoreError>)
    ensures
        revised_result(r) == reply_revised(reply@),
{
    match read_doc(reply) {
        Err(e) => Err(e),
        Ok(herb) => match reply {
            StoreReply::Unreachable => Err(StoreError::Unreachable),
            StoreReply::Answered { status, body } => match string_member(body.as_str(), "_rev") {
                Some(rev) => Ok((herb, rev)),
                None => Err(StoreError::Malformed),
            },
        },
    }
}

/// The documents of the first `n` rows are among those of all rows, at
/// the same places.
proof fn lemma_rows_docs_prefix(rows: Seq<Seq<char>>, n: int)
    requires
        0 <= n <= rows.len(),
    ensures
        rows_docs(rows.take(n)).len() <= rows_docs(rows).len(),
        forall|i: int|
            0 <= i < rows_docs(rows.take(n)).len() ==> rows_docs(rows.take(n))[i] == rows_docs(
                rows,
            )[i],
    decreases rows.len() - n,
{
    if n < rows.len() {
        lemma_rows_docs_prefix(rows, n + 1);
        assert(rows.take(n + 1).drop_last() == rows.take(n));
    } else {
        assert(rows.take(n) == rows);
    }
}

/// The records in the reply to a listing. One document without a record
/// fails the whole listing.
pub fn read_docs(reply: &StoreReply) -> (r: Result<Vec<Herb>, StoreError>)
    ensures
        herbs_result(r) == reply_herbs(reply@),
{
    match reply {
        StoreReply::Unreachable => Err(StoreError::Unreachable),
        StoreReply::Answered { status, body } => {
            if !is_success(*status) {
                return Err(StoreError::Status(*status));
            }
            if !parses(body.as_str()) {
                return Err(StoreError::Malformed);
            }
            let rows = match array_member(body.as_str(), "rows") {
                Some(rows) => rows,
                None => Vec::new(),
            };
            let ghost all = listing_rows(body@);
            proof {
                assert(texts(rows@) == all);
                assert(all.take(0) == Seq::<Seq<char>>::empty());
            }
            let mut herbs: Vec<Herb> = Vec::new();
            let mut i: usize = 0;
            while i < rows.len()
                invariant
                    i <= rows@.len(),
                    reply_fault(reply@) is None,
                    is_json(reply_body(reply@)),
                    all == listing_rows(reply_body(reply@)),
                    texts(rows@) == all,
                    herbs@.len() == rows_docs(all.take(i as int)).len(),
                    forall|k: int|
                        0 <= k < herbs@.len() ==> document_herb(
                            #[trigger] rows_docs(all.take(i as int))[k],
                        ) == Some(herbs@[k]@),
                decreases rows@.len() - i,
            {
                let ghost seen = rows_docs(all.take(i as int));
                proof {
                    assert(all.take(i + 1).drop_last() == all.take(i as int));
                    assert(all.take(i + 1).last() == rows@[i as int]@);
                }
                match member(rows[i].as_str(), "doc") {
                    Some(doc) => {
                        match herb_from_document(doc.as_str()) {
                            Some(herb) => {
                                herbs.push(herb);
                            },
                            None => {
                                proof {
                                    let docs = rows_docs(all);
                                    lemma_rows_docs_prefix(all, i + 1);
                                    let k = seen.len() as int;
                                    assert(rows_docs(all.take(i + 1))[k] == doc@);
                                    assert(document_herb(docs[k]) is None);
                                }
                                return Err(StoreError::Malformed);
                            },
                        }
                    },
                    None => {},
                }
                i = i + 1;
            }
            proof {
                assert(all.take(i as int) == all);
                let docs = rows_docs(all);
                assert(herb_views(herbs@) == Seq::new(
                    docs.len(),
                    |k: int| document_herb(docs[k])->0,
                ));
            }
            Ok(herbs)
        },
    }
}

} // verus!
