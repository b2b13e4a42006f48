use grpc_deliver::outcome::DeliveryOutcome;
use grpc_deliver::pipeline::{expects_event, start, step, Action, Event, PipelineState};

/// Drive one attempt to its terminal state with the given answers, returning
/// every action the machine emitted.
fn drive(events: Vec<Event>) -> Vec<Action> {
    let (mut state, first) = start();
    let mut actions = vec![first];
    for event in events {
        assert!(
            expects_event(&state, &event),
            "driver handed the machine an event it does not expect"
        );
        let (next, action) = step(state, event);
        actions.push(action);
        state = next;
    }
    actions
}

fn report_count(actions: &[Action]) -> usize {
    actions
        .iter()
        .filter(|a| matches!(a, Action::Report { .. }))
        .count()
}

#[test]
fn successful_delivery_sends_bytes_verbatim_and_reports_250_ok() {
    let body = b"Subject: hi\r\n\r\nbody".to_vec();
    let actions = drive(vec![
        Event::MessageRead { body: Some(body.clone()) },
        Event::TransactionIdRead { id: Some("abc123".to_string()) },
        Event::EndpointRead { url: Some("grpc://svc:50051".to_string()) },
        Event::Dialed { error: None },
        Event::Called { error: None },
    ]);
    assert_eq!(
        actions,
        vec![
            Action::ReadMessage,
            Action::ReadTransactionId,
            Action::ReadEndpoint,
            Action::Dial { url: "grpc://svc:50051".to_string() },
            Action::Call { transaction_id: "abc123".to_string(), rfc822: body },
            Action::Report {
                outcome: DeliveryOutcome { status: 250, reason: "OK".to_string() },
            },
        ]
    );
}

#[test]
fn message_read_failure_reports_generic_reason_and_never_dials() {
    let actions = drive(vec![Event::MessageRead { body: None }]);
    assert_eq!(
        actions,
        vec![
            Action::ReadMessage,
            Action::Report {
                outcome: DeliveryOutcome {
                    status: 421,
                    reason: "Temporary local error".to_string(),
                },
            },
        ]
    );
    assert!(!actions.iter().any(|a| matches!(a, Action::Dial { .. })));
}

#[test]
fn transaction_id_failure_reports_generic_reason() {
    let actions = drive(vec![
        Event::MessageRead { body: Some(b"mail".to_vec()) },
        Event::TransactionIdRead { id: None },
    ]);
    assert_eq!(
        *actions.last().unwrap(),
        Action::Report {
            outcome: DeliveryOutcome { status: 421, reason: "Temporary local error".to_string() },
        }
    );
    assert!(!actions.iter().any(|a| matches!(a, Action::Dial { .. })));
}

#[test]
fn missing_url_reports_generic_reason_and_never_dials() {
    let actions = drive(vec![
        Event::MessageRead { body: Some(b"mail".to_vec()) },
        Event::TransactionIdRead { id: Some("tx-1".to_string()) },
        Event::EndpointRead { url: None },
    ]);
    assert_eq!(
        actions,
        vec![
            Action::ReadMessage,
            Action::ReadTransactionId,
            Action::ReadEndpoint,
            Action::Report {
                outcome: DeliveryOutcome {
                    status: 421,
                    reason: "Temporary local error".to_string(),
                },
            },
        ]
    );
    assert!(!actions.iter().any(|a| matches!(a, Action::Dial { .. })));
    assert!(!actions.iter().any(|a| matches!(a, Action::Call { .. })));
}

#[test]
fn connection_refused_reports_the_connection_error_text_and_never_calls() {
    let actions = drive(vec![
        Event::MessageRead { body: Some(b"mail".to_vec()) },
        Event::TransactionIdRead { id: Some("tx-2".to_string()) },
        Event::EndpointRead { url: Some("grpc://down:1".to_string()) },
        Event::Dialed { error: Some("connection refused".to_string()) },
    ]);
    assert_eq!(
        *actions.last().unwrap(),
        Action::Report {
            outcome: DeliveryOutcome { status: 421, reason: "connection refused".to_string() },
        }
    );
    assert!(!actions.iter().any(|a| matches!(a, Action::Call { .. })));
}

#[test]
fn remote_call_error_reports_the_call_error_text() {
    let actions = drive(vec![
        Event::MessageRead { body: Some(b"mail".to_vec()) },
        Event::TransactionIdRead { id: Some("tx-3".to_string()) },
        Event::EndpointRead { url: Some("grpc://svc:50051".to_string()) },
        Event::Dialed { error: None },
        Event::Called { error: Some("quota exceeded".to_string()) },
    ]);
    assert_eq!(
        *actions.last().unwrap(),
        Action::Report {
            outcome: DeliveryOutcome { status: 421, reason: "quota exceeded".to_string() },
        }
    );
}

#[test]
fn every_terminal_run_reports_exactly_once() {
    let runs = vec![
        vec![Event::MessageRead { body: None }],
        vec![
            Event::MessageRead { body: Some(b"m".to_vec()) },
            Event::TransactionIdRead { id: None },
        ],
        vec![
            Event::MessageRead { body: Some(b"m".to_vec()) },
            Event::TransactionIdRead { id: Some("t".to_string()) },
            Event::EndpointRead { url: None },
        ],
        vec![
            Event::MessageRead { body: Some(b"m".to_vec()) },
            Event::TransactionIdRead { id: Some("t".to_string()) },
            Event::EndpointRead { url: Some("grpc://s:1".to_string()) },
            Event::Dialed { error: Some("no route to host".to_string()) },
        ],
        vec![
            Event::MessageRead { body: Some(b"m".to_vec()) },
            Event::TransactionIdRead { id: Some("t".to_string()) },
            Event::EndpointRead { url: Some("grpc://s:1".to_string()) },
            Event::Dialed { error: None },
            Event::Called { error: None },
        ],
    ];
    for events in runs {
        let actions = drive(events);
        assert_eq!(report_count(&actions), 1);
        assert!(matches!(actions.last().unwrap(), Action::Report { .. }));
    }
}

#[test]
fn terminal_state_expects_no_further_event() {
    let (state, _) = start();
    let (state, _) = step(state, Event::MessageRead { body: None });
    assert!(matches!(state, PipelineState::Reporting { .. }));
    assert!(!expects_event(&state, &Event::MessageRead { body: None }));
    assert!(!expects_event(&state, &Event::Called { error: None }));
}

#[test]
fn states_reject_mismatched_events() {
    let (state, _) = start();
    assert!(expects_event(&state, &Event::MessageRead { body: None }));
    assert!(!expects_event(&state, &Event::TransactionIdRead { id: None }));
    assert!(!expects_event(&state, &Event::Dialed { error: None }));
    let (state, _) = step(state, Event::MessageRead { body: Some(b"m".to_vec()) });
    assert!(!expects_event(&state, &Event::MessageRead { body: None }));
    assert!(expects_event(&state, &Event::TransactionIdRead { id: None }));
}

#[test]
fn empty_message_body_is_still_sent_verbatim() {
    let actions = drive(vec![
        Event::MessageRead { body: Some(Vec::new()) },
        Event::TransactionIdRead { id: Some("t".to_string()) },
        Event::EndpointRead { url: Some("grpc://s:1".to_string()) },
        Event::Dialed { error: None },
    ]);
    assert_eq!(
        *actions.last().unwrap(),
        Action::Call { transaction_id: "t".to_string(), rfc822: Vec::new() }
    );
}
