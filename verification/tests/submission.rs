use hedera::submission::{
    classify, Classification, NodeFailure, NodeResponse, Step, Submission, STATUS_BUSY, STATUS_OK,
    STATUS_PLATFORM_NOT_ACTIVE, STATUS_PLATFORM_TRANSACTION_NOT_CREATED,
};

const INVALID_SIGNATURE: i32 = 7;

#[test]
fn answers_are_classified() {
    assert_eq!(classify(NodeResponse::Precheck { status: STATUS_OK }), Classification::Accepted);
    assert_eq!(classify(NodeResponse::Precheck { status: STATUS_BUSY }), Classification::Busy);
    assert_eq!(
        classify(NodeResponse::Precheck { status: STATUS_PLATFORM_NOT_ACTIVE }),
        Classification::Busy
    );
    assert_eq!(
        classify(NodeResponse::Precheck { status: STATUS_PLATFORM_TRANSACTION_NOT_CREATED }),
        Classification::Busy
    );
    assert_eq!(
        classify(NodeResponse::Precheck { status: INVALID_SIGNATURE }),
        Classification::Rejected
    );
    assert_eq!(classify(NodeResponse::TransportFailure), Classification::TransportFailure);
}

#[test]
fn submission_needs_a_node_and_an_attempt() {
    assert!(Submission::new(0, 3, vec![]).is_none());
    assert!(Submission::new(2, 0, vec![]).is_none());
    let s = Submission::new(2, 3, vec![]).unwrap();
    assert_eq!(s.attempt(), 0);
    assert_eq!(s.node_index(), 0);
}

#[test]
fn acceptance_ends_the_submission() {
    let s = Submission::new(2, 3, vec![]).unwrap();
    match s.on_response(NodeResponse::Precheck { status: STATUS_OK }) {
        Step::Accepted { node_index, attempt } => {
            assert_eq!(node_index, 0);
            assert_eq!(attempt, 0);
        }
        other => panic!("unexpected step {:?}", other),
    }
}

#[test]
fn rejection_is_not_retried() {
    let s = Submission::new(2, 3, vec![]).unwrap();
    match s.on_response(NodeResponse::Precheck { status: INVALID_SIGNATURE }) {
        Step::Rejected { status, node_index, attempt } => {
            assert_eq!(status, INVALID_SIGNATURE);
            assert_eq!(node_index, 0);
            assert_eq!(attempt, 0);
        }
        other => panic!("unexpected step {:?}", other),
    }
}

#[test]
fn retries_are_exhausted_exactly_at_max_attempts() {
    let responses = [
        NodeResponse::Precheck { status: STATUS_BUSY },
        NodeResponse::TransportFailure,
        NodeResponse::Precheck { status: STATUS_PLATFORM_NOT_ACTIVE },
    ];
    let mut s = Submission::new(2, 3, vec![100, 250]).unwrap();
    let mut delays = vec![];
    for (i, response) in responses.iter().enumerate() {
        assert_eq!(s.attempt(), i);
        assert_eq!(s.node_index(), i % 2);
        match s.on_response(*response) {
            Step::Retry { submission, delay_ms } => {
                assert!(i < 2);
                delays.push(delay_ms);
                s = submission;
            }
            Step::Exhausted { failures } => {
                assert_eq!(i, 2);
                assert_eq!(
                    failures,
                    vec![
                        NodeFailure { node_index: 0, attempt: 0, response: responses[0] },
                        NodeFailure { node_index: 1, attempt: 1, response: responses[1] },
                        NodeFailure { node_index: 0, attempt: 2, response: responses[2] },
                    ]
                );
                assert_eq!(delays, vec![100, 250]);
                return;
            }
            other => panic!("unexpected step {:?}", other),
        }
    }
    panic!("the submission must give up at the third attempt");
}

#[test]
fn last_delay_serves_later_attempts() {
    let mut s = Submission::new(1, 4, vec![10]).unwrap();
    for _ in 0..3 {
        match s.on_response(NodeResponse::TransportFailure) {
            Step::Retry { submission, delay_ms } => {
                assert_eq!(delay_ms, 10);
                assert_eq!(submission.node_index(), 0);
                s = submission;
            }
            other => panic!("unexpected step {:?}", other),
        }
    }
    match s.on_response(NodeResponse::TransportFailure) {
        Step::Exhausted { failures } => assert_eq!(failures.len(), 4),
        other => panic!("unexpected step {:?}", other),
    }
}

#[test]
fn empty_schedule_means_no_delay() {
    let s = Submission::new(3, 2, vec![]).unwrap();
    match s.on_response(NodeResponse::Precheck { status: STATUS_BUSY }) {
        Step::Retry { submission, delay_ms } => {
            assert_eq!(delay_ms, 0);
            assert_eq!(submission.node_index(), 1);
            assert_eq!(submission.attempt(), 1);
        }
        other => panic!("unexpected step {:?}", other),
    }
}

#[test]
fn single_attempt_is_exhausted_by_one_failure() {
    let s = Submission::new(2, 1, vec![5]).unwrap();
    match s.on_response(NodeResponse::TransportFailure) {
        Step::Exhausted { failures } => {
            assert_eq!(
                failures,
                vec![NodeFailure {
                    node_index: 0,
                    attempt: 0,
                    response: NodeResponse::TransportFailure
                }]
            );
        }
        other => panic!("unexpected step {:?}", other),
    }
}

#[test]
fn acceptance_after_failures_names_the_attempt_and_its_node() {
    let s = Submission::new(2, 5, vec![1]).unwrap();
    let s = match s.on_response(NodeResponse::TransportFailure) {
        Step::Retry { submission, .. } => submission,
        other => panic!("unexpected step {:?}", other),
    };
    let s = match s.on_response(NodeResponse::Precheck { status: STATUS_BUSY }) {
        Step::Retry { submission, .. } => submission,
        other => panic!("unexpected step {:?}", other),
    };
    let s = match s.on_response(NodeResponse::Precheck { status: STATUS_BUSY }) {
        Step::Retry { submission, .. } => submission,
        other => panic!("unexpected step {:?}", other),
    };
    match s.on_response(NodeResponse::Precheck { status: STATUS_OK }) {
        Step::Accepted { node_index, attempt } => assert_eq!((node_index, attempt), (1, 3)),
        other => panic!("unexpected step {:?}", other),
    }
}

#[test]
fn rejection_after_a_failure_names_the_code() {
    let s = Submission::new(3, 2, vec![]).unwrap();
    let s = match s.on_response(NodeResponse::TransportFailure) {
        Step::Retry { submission, .. } => submission,
        other => panic!("unexpected step {:?}", other),
    };
    match s.on_response(NodeResponse::Precheck { status: INVALID_SIGNATURE }) {
        Step::Rejected { status, node_index, attempt } => {
            assert_eq!((status, node_index, attempt), (INVALID_SIGNATURE, 1, 1));
        }
        other => panic!("unexpected step {:?}", other),
    }
}
