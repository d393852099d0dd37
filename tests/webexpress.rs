use retarus::common::creds::Credentials;
use retarus::webexpress::client::WebexpressClient;
use retarus::webexpress::job::{WebexpressJob, WebexpressJobBuilder};

fn list_job() -> WebexpressJob {
    WebexpressJob::minimal(
        "RetarusCustomerTest".to_string(),
        "Customers with a high order volume".to_string(),
        "distributionlist".to_string(),
        "assets/test.csv".to_string(),
        "utf-8".to_string(),
        "+49".to_string(),
    )
}

#[test]
fn minimal_job_names_first_row_columns() {
    let job = list_job();
    assert_eq!(job.dlu_firstrowcolumnnames, "on");
    assert!(job.j_username.is_none());
    assert_eq!(job.dlu_defaultcountrycode, "+49");
}

#[test]
fn upload_goes_to_the_portal_with_the_clients_login() {
    let client = WebexpressClient::builder()
        .set_credentiale(Credentials::new("webexpress_username", "webexpress_password"))
        .build();
    assert_eq!(client.upload_uri(), "https://webexpress.retarus.com/PicoPortal/autoLogin/listImport");
    let job = client.prepare_job(list_job());
    assert_eq!(job.j_username.as_deref(), Some("webexpress_username"));
    assert_eq!(job.j_password.as_deref(), Some("webexpress_password"));
    let fields = job.form_fields();
    let names: Vec<&str> = fields.iter().map(|f| f.0.as_str()).collect();
    assert_eq!(
        names,
        vec![
            "j_username",
            "j_password",
            "dlu_listcomment",
            "dlu_listname",
            "dlu_type",
            "dlu_charset",
            "dlu_visibility",
            "dlu_defaultcountrycode",
            "dlu_firstrowcolumnnames",
        ]
    );
    assert_eq!(fields[6].1, "company");
    assert_eq!(fields[3].1, "RetarusCustomerTest");
}

#[test]
fn empty_builder_job_settings() {
    let b = WebexpressJobBuilder::default();
    assert_eq!(b.dlu_listname, "");
    assert!(b.dlu_visibility.is_none());
    let b2 = WebexpressJob::builder();
    assert_eq!(b2.dlu_file, "");
}
