use retarus::common::creds::Credentials;
use retarus::fax::client::{ClientSDK, ClientSDKBuilder};
use retarus::fax::document::Document;
use retarus::fax::job::JobBuilder;
use retarus::fax::job_error::JobError;
use retarus::general::failover::{Reply, Step};
use retarus::general::uri::Region;

#[test]
fn test_build_client() {
    let creds = Credentials::new("abc", "password123");
    let client = ClientSDKBuilder::default().set_credentiale(creds);
    let _a = client.build();
}

#[test]
fn client_test_build_client() {
    let creds = Credentials::new("abc", "password123");
    let client = retarus::fax::_async::client::ClientSDKBuilder::default().set_credentiale(creds);
    let _a = client.build();
}

#[test]
fn test_job_builder() {
    let number = "+490000000000";
    let numbers = vec!["+499000000000".to_string(), "+49800000000000".to_string()];
    let job = JobBuilder::default()
        .add_recipient(number.to_string())
        .add_recipients(numbers)
        .build();
    assert_eq!(job.recipients.len(), 3)
}

#[test]
fn test_bulk_action() {}

#[test]
fn job_builder_keeps_order_and_replaces_documents() {
    let doc = Document::new("a.pdf".to_string(), b"abc".to_vec(), None);
    let other = Document::new("b.pdf".to_string(), b"xyz".to_vec(), None);
    let job = JobBuilder::default()
        .add_recipients(vec!["1".to_string(), "2".to_string()])
        .add_recipient("3".to_string())
        .add_document(doc)
        .add_documents(vec![other.clone()])
        .build();
    let numbers: Vec<&str> = job.recipients.iter().map(|n| n.number.as_str()).collect();
    assert_eq!(numbers, vec!["1", "2", "3"]);
    assert_eq!(job.documents.len(), 1);
    assert_eq!(job.documents[0].name, "b.pdf");
}

#[test]
fn document_encodes_content_and_defaults_charset() {
    let doc = Document::new("important_document.pdf".to_string(), b"abc_content".to_vec(), None);
    assert_eq!(doc.name, "important_document.pdf");
    assert_eq!(doc.data, "YWJjX2NvbnRlbnQ=");
    assert_eq!(doc.charset, "utf-8");
    let latin = Document::new("x.txt".to_string(), vec![0xff, 0x00], Some("iso-8859-1".to_string()));
    assert_eq!(latin.data, "/wA=");
    assert_eq!(latin.charset, "iso-8859-1");
    let empty = Document::new("e".to_string(), Vec::new(), None);
    assert_eq!(empty.data, "");
}

#[test]
fn status_codes_map_to_job_errors() {
    assert_eq!(JobError::match_status_code(400), JobError::BadRequest);
    assert_eq!(JobError::match_status_code(404), JobError::NotFound);
    assert_eq!(JobError::match_status_code(409), JobError::Conflict);
    assert_eq!(JobError::match_status_code(500), JobError::InternalServerError);
    assert_eq!(JobError::match_status_code(418), JobError::UnkownError);
    assert_eq!(JobError::Conflict.message(), "Duplicate job");
    assert_eq!(JobError::BadRequest.message(), "Client authorization is missing");
}

fn europe_client() -> ClientSDK {
    ClientSDK::builder()
        .set_customer_number("12345".to_string())
        .set_credentiale(Credentials::new("abc", "password123"))
        .build()
}

#[test]
fn send_job_goes_once_to_the_primary_address() {
    let client = europe_client();
    for reply in [
        Reply::Answered { status: 201, body: "{\"jobId\":\"FJ1\"}".to_string() },
        Reply::Answered { status: 500, body: "boom".to_string() },
        Reply::Answered { status: 404, body: String::new() },
    ] {
        let mut walk = client.send_job_walk(None);
        match walk.begin() {
            Step::Call(uri) => assert_eq!(uri, "https://faxws-ha.de.retarus.com/rest/v1/12345/fax"),
            other => panic!("unexpected {:?}", other),
        }
        let step = walk.advance(reply);
        assert!(matches!(step, Step::Finished(_)));
        assert!(walk.is_finished());
        assert_eq!(walk.calls(), 1);
    }
}

#[test]
fn report_walk_uses_candidates_and_customer_override() {
    let client = europe_client();
    let mut walk = client.report_walk("FJ1", Some("999".to_string()));
    match walk.begin() {
        Step::Call(uri) => assert_eq!(uri, "https://faxws.de2.retarus.com/rest/v1/999/fax/reports/FJ1"),
        other => panic!("unexpected {:?}", other),
    }
    match walk.advance(Reply::Answered { status: 404, body: String::new() }) {
        Step::Call(uri) => assert_eq!(uri, "https://faxws.de1.retarus.com/rest/v1/999/fax/reports/FJ1"),
        other => panic!("unexpected {:?}", other),
    }
    let mut bulk = client.reports_walk(None);
    match bulk.begin() {
        Step::Call(uri) => assert_eq!(uri, "https://faxws.de2.retarus.com/rest/v1/12345/fax/reports"),
        other => panic!("unexpected {:?}", other),
    }
}

#[test]
fn customer_number_override_wins() {
    let client = europe_client();
    assert_eq!(client.customer_number_for(None), "12345");
    assert_eq!(client.customer_number_for(Some("7".to_string())), "7");
}

#[test]
fn bulk_requests_name_their_action() {
    let get = ClientSDK::bulk_get_request(vec!["a".to_string()]);
    assert_eq!(get.action, "GET");
    assert_eq!(get.job_ids, vec!["a".to_string()]);
    let delete = ClientSDK::bulk_delete_request(vec!["a".to_string(), "b".to_string()]);
    assert_eq!(delete.action, "DELETE");
    assert_eq!(delete.job_ids.len(), 2);
}

#[test]
fn builder_defaults_to_europe() {
    let b = ClientSDK::builder();
    assert_eq!(b.region, Region::Europe);
    assert_eq!(b.customer_number, "");
    let client = b.set_region(Region::Switzerland).build();
    assert_eq!(client.region_uri.ha_addr, "https://faxws-ha.ch.retarus.com");
    assert_eq!(client.region_uri.servers, vec!["https://faxws.ch1.retarus.com".to_string()]);
}
