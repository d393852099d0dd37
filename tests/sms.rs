use retarus::common::creds::Credentials;
use retarus::sms::client::SmsClient;
use retarus::sms::models::{SmsFilter, SmsJob, SmsJobError, UtcTimestamp};
use retarus::general::failover::Step;

#[test]
fn three_messages_fit_and_a_fourth_is_refused() {
    let b = SmsJob::builder()
        .add_message("one".to_string(), vec!["490000000000".to_string()])
        .add_message("two".to_string(), vec![])
        .add_message("three".to_string(), vec!["1".to_string(), "2".to_string()]);
    assert_eq!(b.message_count(), 3);
    let refused = b.try_add_message("four".to_string(), vec!["1".to_string()]);
    assert!(matches!(refused, Err(SmsJobError::TooManyMessages)));
}

#[test]
fn message_lists_its_recipients() {
    let job = SmsJob::builder()
        .add_message("Hallo Welt".to_string(), vec!["490000000000".to_string(), "491".to_string()])
        .build();
    let m = &job.messages()[0];
    assert_eq!(m.text, "Hallo Welt");
    let dsts: Vec<&str> = m.recipients.iter().map(|r| r.dst.as_str()).collect();
    assert_eq!(dsts, vec!["490000000000", "491"]);
    assert!(m.recipients[0].customer_ref.is_none());
    assert!(job.options().is_none());
}

#[test]
fn try_add_message_below_the_cap_adds() {
    let b = SmsJob::builder().try_add_message("x".to_string(), vec![]).ok().unwrap();
    assert_eq!(b.message_count(), 1);
}

#[test]
fn add_messages_appends() {
    let first = SmsJob::builder().add_message("a".to_string(), vec![]).build();
    let msgs = first.messages().clone();
    let job = SmsJob::builder().add_message("b".to_string(), vec![]).add_messages(msgs).build();
    let texts: Vec<&str> = job.messages().iter().map(|m| m.text.as_str()).collect();
    assert_eq!(texts, vec!["b", "a"]);
}

#[test]
fn empty_filter_is_a_question_mark() {
    assert_eq!(SmsFilter::builder().build().create_filter_string(), "?");
}

#[test]
fn filter_lists_parameters_in_order() {
    let f = SmsFilter::builder().set_limit(-5).set_offset(10).only_job_ids(true).build();
    assert_eq!(f.create_filter_string(), "?jobIdsOnly=true&offset=10&limit=-5&");
    let g = SmsFilter::builder().set_limit(i64::MIN).only_job_ids(false).build();
    assert_eq!(g.create_filter_string(), "?jobIdsOnly=false&limit=-9223372036854775808&");
    let h = SmsFilter::builder().set_offset(0).build();
    assert_eq!(h.create_filter_string(), "?offset=0&");
}

#[test]
fn timestamps_are_written_as_chrono_writes_them() {
    let from = UtcTimestamp::from_unix(1431648000, 0).unwrap();
    assert_eq!(from.text(), "2015-05-15 00:00:00 UTC");
    assert_eq!(from.timestamp(), 1431648000);
    let to = UtcTimestamp::from_unix(1431648001, 0).unwrap();
    let f = SmsFilter::builder().set_from_ts(from).set_to_ts(to).build();
    assert_eq!(
        f.create_filter_string(),
        "?fromTs=2015-05-15 00:00:00 UTC&toTs=2015-05-15 00:00:01 UTC&"
    );
    assert!(UtcTimestamp::from_unix(i64::MAX, 0).is_none());
}

#[test]
fn sms_client_routes() {
    let client = SmsClient::builder().set_credentials(Credentials::new("user", "secret")).build();
    let mut send = client.send_sms_walk();
    match send.begin() {
        Step::Call(uri) => assert_eq!(uri, "https://sms4a.eu.retarus.com/rest/v1/jobs"),
        other => panic!("unexpected {:?}", other),
    }
    let mut get = client.get_sms_job_walk("J1");
    match get.begin() {
        Step::Call(uri) => assert_eq!(uri, "https://sms4a.de1.retarus.com/rest/v1/jobs/J1"),
        other => panic!("unexpected {:?}", other),
    }
    let filter = SmsFilter::builder().set_limit(2).build();
    let mut list = client.list_jobs_walk(&filter);
    match list.begin() {
        Step::Call(uri) => assert_eq!(uri, "https://sms4a.de1.retarus.com/rest/v1/jobs?limit=2&"),
        other => panic!("unexpected {:?}", other),
    }
}
