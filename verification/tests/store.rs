use herb_backend::couchdb::{
    check_removed, check_reply, is_success, read_doc, read_doc_with_rev, read_docs, CouchDb,
    Method, StoreError, StoreReply, StoreRequest,
};
use herb_backend::record::Herb;
use herb_backend::time::Timestamp;

fn couch() -> CouchDb {
    CouchDb::new("http://127.0.0.1:5984", "admin", "secret")
}

fn herb(id: &str, name: &str) -> Herb {
    Herb {
        id: id.to_string(),
        name: name.to_string(),
        farmer: "Asha".to_string(),
        location: "Kerala".to_string(),
        created_at: Timestamp::new(1_431_648_000, 0).unwrap(),
    }
}

fn request(method: Method, url: &str, body: Option<&str>) -> StoreRequest {
    StoreRequest {
        method,
        url: url.to_string(),
        username: "admin".to_string(),
        password: "secret".to_string(),
        body: body.map(String::from),
    }
}

fn answered(status: u16, body: &str) -> StoreReply {
    StoreReply::Answered { status, body: body.to_string() }
}

fn doc(id: &str, name: &str, rev: &str) -> String {
    format!(
        "{{\"_id\":\"{id}\",\"_rev\":\"{rev}\",\"id\":\"{id}\",\"name\":\"{name}\",\"farmer\":\"Asha\",\"location\":\"Kerala\",\"created_at\":\"2015-05-15T00:00:00Z\"}}"
    )
}

#[test]
fn requests_for_a_database() {
    let c = couch();
    assert_eq!(c.create_db("herbs"), request(Method::Put, "http://127.0.0.1:5984/herbs", None));
    assert_eq!(c.delete_db("herbs"), request(Method::Delete, "http://127.0.0.1:5984/herbs", None));
}

#[test]
fn a_reset_removes_and_then_creates() {
    let c = couch();
    assert_eq!(c.reset_db("herbs"), c.delete_db("herbs"));
    for reply in [StoreReply::Unreachable, answered(404, "{}"), answered(200, "{\"ok\":true}")] {
        assert_eq!(c.reset_db_next("herbs", &reply), c.create_db("herbs"));
    }
}

#[test]
fn the_request_that_stores_a_document() {
    let h = herb("herb_1", "Tulsi");
    assert_eq!(
        couch().add_doc("herbs", "herb_1", &h),
        request(
            Method::Put,
            "http://127.0.0.1:5984/herbs/herb_1",
            Some("{\"id\":\"herb_1\",\"name\":\"Tulsi\",\"farmer\":\"Asha\",\"location\":\"Kerala\",\"created_at\":\"2015-05-15T00:00:00Z\"}")
        )
    );
}

#[test]
fn the_request_that_fetches_a_document() {
    let c = couch();
    let expected = request(Method::Get, "http://127.0.0.1:5984/herbs/herb_1", None);
    assert_eq!(c.get_doc("herbs", "herb_1"), expected);
    assert_eq!(c.get_doc_with_rev("herbs", "herb_1"), expected);
    assert_eq!(c.delete_doc("herbs", "herb_1"), expected);
}

#[test]
fn the_request_that_replaces_a_revision() {
    let h = herb("herb_1", "Tulsi");
    assert_eq!(
        couch().update_doc("herbs", "herb_1", "2-abc", &h),
        request(
            Method::Put,
            "http://127.0.0.1:5984/herbs/herb_1",
            Some("{\"_rev\":\"2-abc\",\"created_at\":\"2015-05-15T00:00:00Z\",\"farmer\":\"Asha\",\"id\":\"herb_1\",\"location\":\"Kerala\",\"name\":\"Tulsi\"}")
        )
    );
}

#[test]
fn the_request_that_lists_all_documents() {
    assert_eq!(
        couch().list_docs("herbs"),
        request(Method::Get, "http://127.0.0.1:5984/herbs/_all_docs?include_docs=true", None)
    );
}

#[test]
fn addresses_are_put_together_as_given() {
    let c = CouchDb::new("http://db:5984/", "u", "p");
    assert_eq!(c.get_doc("my db", "a/b").url, "http://db:5984//my db/a/b");
    assert_eq!(c.get_doc("herbs", "").url, "http://db:5984//herbs/");
    assert_eq!(c.get_doc("herbs", "x").username, "u");
    assert_eq!(c.get_doc("herbs", "x").password, "p");
}

#[test]
fn a_removal_names_the_revision_that_was_read() {
    let c = couch();
    let fetched = answered(200, &doc("herb_1", "Tulsi", "3-f00"));
    assert_eq!(
        c.delete_doc_next("herbs", "herb_1", &fetched),
        Ok(request(Method::Delete, "http://127.0.0.1:5984/herbs/herb_1?rev=3-f00", None))
    );
}

#[test]
fn nothing_is_removed_without_a_revision() {
    let c = couch();
    for body in ["{\"id\":\"herb_1\"}", "{\"_rev\":7}", "{\"_rev\":null}", "[]", "{}"] {
        assert_eq!(
            c.delete_doc_next("herbs", "herb_1", &answered(200, body)),
            Err(StoreError::Malformed),
            "{}",
            body
        );
    }
}

#[test]
fn a_removal_fails_where_the_fetch_failed() {
    let c = couch();
    assert_eq!(
        c.delete_doc_next("herbs", "herb_1", &StoreReply::Unreachable),
        Err(StoreError::Unreachable)
    );
    assert_eq!(
        c.delete_doc_next("herbs", "herb_1", &answered(404, "{\"error\":\"not_found\"}")),
        Err(StoreError::Status(404))
    );
    assert_eq!(
        c.delete_doc_next("herbs", "herb_1", &answered(200, "<html>")),
        Err(StoreError::Malformed)
    );
}

#[test]
fn statuses_of_success() {
    for status in [200u16, 201, 202, 204, 299] {
        assert!(is_success(status));
    }
    for status in [0u16, 100, 199, 300, 304, 400, 404, 409, 412, 500, 503, 600, u16::MAX] {
        assert!(!is_success(status));
    }
}

#[test]
fn a_reply_is_checked_for_its_status() {
    assert_eq!(check_reply(&answered(200, "")), Ok(()));
    assert_eq!(check_reply(&answered(201, "{\"ok\":true}")), Ok(()));
    assert_eq!(check_reply(&answered(409, "{\"error\":\"conflict\"}")), Err(StoreError::Status(409)));
    assert_eq!(check_reply(&answered(500, "")), Err(StoreError::Status(500)));
    assert_eq!(check_reply(&StoreReply::Unreachable), Err(StoreError::Unreachable));
}

#[test]
fn the_removal_of_a_database_may_find_none() {
    assert_eq!(check_removed(&answered(200, "{\"ok\":true}")), Ok(()));
    assert_eq!(check_removed(&answered(202, "")), Ok(()));
    assert_eq!(check_removed(&answered(404, "{\"error\":\"not_found\"}")), Ok(()));
    assert_eq!(check_removed(&answered(401, "")), Err(StoreError::Status(401)));
    assert_eq!(check_removed(&answered(500, "")), Err(StoreError::Status(500)));
    assert_eq!(check_removed(&StoreReply::Unreachable), Err(StoreError::Unreachable));
}

#[test]
fn a_record_is_read_from_a_reply() {
    let reply = answered(200, &doc("herb_1", "Tulsi", "1-a"));
    assert_eq!(read_doc(&reply), Ok(herb("herb_1", "Tulsi")));
}

#[test]
fn no_record_is_read_from_a_failure() {
    let body = doc("herb_1", "Tulsi", "1-a");
    assert_eq!(read_doc(&answered(404, &body)), Err(StoreError::Status(404)));
    assert_eq!(read_doc(&answered(304, &body)), Err(StoreError::Status(304)));
    assert_eq!(read_doc(&StoreReply::Unreachable), Err(StoreError::Unreachable));
    assert_eq!(read_doc(&answered(200, "{\"ok\":true}")), Err(StoreError::Malformed));
    assert_eq!(read_doc(&answered(200, "")), Err(StoreError::Malformed));
}

#[test]
fn a_record_is_read_with_its_revision() {
    let reply = answered(200, &doc("herb_1", "Tulsi", "5-abc"));
    assert_eq!(read_doc_with_rev(&reply), Ok((herb("herb_1", "Tulsi"), "5-abc".to_string())));
}

#[test]
fn a_record_without_a_revision_cannot_be_changed() {
    let body = "{\"id\":\"herb_1\",\"name\":\"Tulsi\",\"farmer\":\"Asha\",\"location\":\"Kerala\",\"created_at\":\"2015-05-15T00:00:00Z\"}";
    assert_eq!(read_doc(&answered(200, body)), Ok(herb("herb_1", "Tulsi")));
    assert_eq!(read_doc_with_rev(&answered(200, body)), Err(StoreError::Malformed));
    let body = body.replace("{\"id\"", "{\"_rev\":3,\"id\"");
    assert_eq!(read_doc_with_rev(&answered(200, &body)), Err(StoreError::Malformed));
    let body = body.replace("\"_rev\":3", "\"_rev\":\"\"");
    assert_eq!(
        read_doc_with_rev(&answered(200, &body)),
        Ok((herb("herb_1", "Tulsi"), String::new()))
    );
}

#[test]
fn no_record_with_revision_is_read_from_a_failure() {
    let body = doc("herb_1", "Tulsi", "1-a");
    assert_eq!(read_doc_with_rev(&answered(404, &body)), Err(StoreError::Status(404)));
    assert_eq!(read_doc_with_rev(&StoreReply::Unreachable), Err(StoreError::Unreachable));
    assert_eq!(read_doc_with_rev(&answered(200, "{\"_rev\":\"1-a\"}")), Err(StoreError::Malformed));
}

#[test]
fn records_are_read_from_a_listing() {
    let body = format!(
        "{{\"total_rows\":2,\"offset\":0,\"rows\":[{{\"id\":\"herb_1\",\"key\":\"herb_1\",\"value\":{{\"rev\":\"1-a\"}},\"doc\":{}}},{{\"id\":\"herb_2\",\"doc\":{}}}]}}",
        doc("herb_1", "Tulsi", "1-a"),
        doc("herb_2", "Neem", "4-b")
    );
    assert_eq!(
        read_docs(&answered(200, &body)),
        Ok(vec![herb("herb_1", "Tulsi"), herb("herb_2", "Neem")])
    );
}

#[test]
fn rows_without_a_document_are_passed_over() {
    let body = format!(
        "{{\"rows\":[{{\"id\":\"a\"}},{{\"id\":\"herb_2\",\"doc\":{}}},7,\"x\",{{\"id\":\"b\"}}]}}",
        doc("herb_2", "Neem", "4-b")
    );
    assert_eq!(read_docs(&answered(200, &body)), Ok(vec![herb("herb_2", "Neem")]));
}

#[test]
fn a_listing_without_rows_is_empty() {
    assert_eq!(read_docs(&answered(200, "{\"rows\":[]}")), Ok(vec![]));
    assert_eq!(read_docs(&answered(200, "{\"total_rows\":0}")), Ok(vec![]));
    assert_eq!(read_docs(&answered(200, "{\"rows\":{}}")), Ok(vec![]));
    assert_eq!(read_docs(&answered(200, "[]")), Ok(vec![]));
}

#[test]
fn one_document_without_a_record_fails_the_listing() {
    let body = format!(
        "{{\"rows\":[{{\"doc\":{}}},{{\"doc\":{{\"_id\":\"_design/x\",\"views\":{{}}}}}},{{\"doc\":{}}}]}}",
        doc("herb_1", "Tulsi", "1-a"),
        doc("herb_2", "Neem", "4-b")
    );
    assert_eq!(read_docs(&answered(200, &body)), Err(StoreError::Malformed));
    assert_eq!(read_docs(&answered(200, "{\"rows\":[{\"doc\":null}]}")), Err(StoreError::Malformed));
}

#[test]
fn no_records_are_read_from_a_failure() {
    assert_eq!(read_docs(&StoreReply::Unreachable), Err(StoreError::Unreachable));
    assert_eq!(read_docs(&answered(500, "{\"rows\":[]}")), Err(StoreError::Status(500)));
    assert_eq!(read_docs(&answered(200, "rows")), Err(StoreError::Malformed));
    assert_eq!(read_docs(&answered(200, "")), Err(StoreError::Malformed));
}

#[test]
fn a_connection_can_be_copied() {
    let c = couch();
    let d = c.clone();
    assert_eq!(c, d);
    assert_eq!(c.list_docs("herbs"), d.list_docs("herbs"));
}
