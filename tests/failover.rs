use retarus::general::failover::{CandidateWalk, ClientError, Policy, Reply, Step};

fn three() -> Vec<String> {
    vec!["https://a".to_string(), "https://b".to_string(), "https://c".to_string()]
}

fn expect_call(step: Step) -> String {
    match step {
        Step::Call(uri) => uri,
        other => panic!("expected a call, got {:?}", other),
    }
}

fn not_found() -> Reply {
    Reply::Answered { status: 404, body: "missing".to_string() }
}

#[test]
fn third_candidate_answers_after_two_not_found() {
    let mut walk = CandidateWalk::query(three());
    let mut called = vec![expect_call(walk.begin())];
    called.push(expect_call(walk.advance(not_found())));
    called.push(expect_call(walk.advance(not_found())));
    let last = walk.advance(Reply::Answered { status: 200, body: "{\"jobId\":\"J3\"}".to_string() });
    match last {
        Step::Finished(Ok(body)) => assert_eq!(body, "{\"jobId\":\"J3\"}"),
        other => panic!("unexpected {:?}", other),
    }
    assert_eq!(called, three());
    assert_eq!(walk.calls(), 3);
    assert!(walk.is_finished());
}

#[test]
fn server_error_stops_the_walk_at_once() {
    let mut walk = CandidateWalk::query(three());
    assert_eq!(expect_call(walk.begin()), "https://a");
    let last = walk.advance(Reply::Answered { status: 500, body: "internal failure".to_string() });
    match last {
        Step::Finished(Err(ClientError::Server { status, body })) => {
            assert_eq!(status, 500);
            assert!(body.contains("internal failure"));
        }
        other => panic!("unexpected {:?}", other),
    }
    assert_eq!(walk.calls(), 1);
    assert!(walk.is_finished());
}

#[test]
fn all_not_found_gives_no_report_found() {
    let mut walk = CandidateWalk::query(three());
    let mut calls = 0;
    let mut step = walk.begin();
    loop {
        match step {
            Step::Call(_) => {
                calls += 1;
                step = walk.advance(not_found());
            }
            Step::Finished(result) => {
                assert!(matches!(result, Err(ClientError::NoReportFound)));
                break;
            }
        }
    }
    assert_eq!(calls, 3);
    assert_eq!(walk.calls(), 3);
}

#[test]
fn transport_failure_is_terminal() {
    let mut walk = CandidateWalk::query(three());
    walk.begin();
    match walk.advance(Reply::Unreachable { reason: "connection refused".to_string() }) {
        Step::Finished(Err(ClientError::Transport(reason))) => assert_eq!(reason, "connection refused"),
        other => panic!("unexpected {:?}", other),
    }
    assert_eq!(walk.calls(), 1);
}

#[test]
fn created_counts_as_success() {
    let mut walk = CandidateWalk::query(three());
    walk.begin();
    assert!(matches!(
        walk.advance(Reply::Answered { status: 201, body: "ok".to_string() }),
        Step::Finished(Ok(_))
    ));
}

#[test]
fn empty_candidate_list_finds_nothing() {
    let mut walk = CandidateWalk::query(Vec::new());
    assert!(matches!(walk.begin(), Step::Finished(Err(ClientError::NoReportFound))));
    assert_eq!(walk.calls(), 0);
}

#[test]
fn submission_is_called_once_whatever_the_reply() {
    for (status, ok) in [(200u16, true), (201, true), (404, false), (503, false)] {
        let mut walk = CandidateWalk::submit("https://primary/rest/v1/jobs".to_string());
        assert_eq!(walk.policy(), Policy::Submit);
        assert_eq!(expect_call(walk.begin()), "https://primary/rest/v1/jobs");
        match walk.advance(Reply::Answered { status, body: "b".to_string() }) {
            Step::Finished(result) => assert_eq!(result.is_ok(), ok),
            other => panic!("unexpected {:?}", other),
        }
        assert_eq!(walk.calls(), 1);
    }
}
