use consul_api::{
    is_not_found_status, is_ok_status, lookup_answer, normalize_event, normalize_event_payload,
    normalize_events, UserEvent,
    AgentTTLCheckUpdateRequestBody, EnableMaintenanceModeRequestQuery, KVReadKeyQuery,
    RegisterServiceRequestQuery, StatusQuery,
};

#[test]
fn ok_status_is_exactly_200() {
    assert!(is_ok_status(200));
    assert!(!is_ok_status(201));
    assert!(!is_ok_status(204));
    assert!(!is_ok_status(404));
    assert!(!is_ok_status(500));
}

#[test]
fn not_found_status_is_exactly_404() {
    assert!(is_not_found_status(404));
    assert!(!is_not_found_status(200));
    assert!(!is_not_found_status(400));
}

#[test]
fn the_encoded_null_payload_becomes_none() {
    assert_eq!(normalize_event_payload(Some("bnVsbA==".to_string())), None);
    assert_eq!(normalize_event_payload(None), None);
    assert_eq!(normalize_event_payload(Some("eyJ2ZXJzaW9uIjogIjEuMC4wIn0=".to_string())), Some("eyJ2ZXJzaW9uIjogIjEuMC4wIn0=".to_string()));
    assert_eq!(normalize_event_payload(Some("bnVsbA".to_string())), Some("bnVsbA".to_string()));
    assert_eq!(normalize_event_payload(Some(String::new())), Some(String::new()));
}

#[test]
fn normalizing_twice_changes_nothing() {
    for p in [None, Some("bnVsbA==".to_string()), Some("abc".to_string())] {
        let once = normalize_event_payload(p);
        assert_eq!(normalize_event_payload(once.clone()), once);
    }
}

fn event(name: &str, payload: Option<&str>) -> UserEvent {
    UserEvent {
        id: format!("id-{name}"),
        name: name.to_string(),
        payload: payload.map(|p| p.to_string()),
        node_filter: "node".to_string(),
        service_filter: "svc".to_string(),
        tag_filter: "tag".to_string(),
        version: 1,
        l_time: 7,
    }
}

#[test]
fn an_event_keeps_everything_but_the_null_payload() {
    assert_eq!(normalize_event(event("deploy", Some("bnVsbA=="))), event("deploy", None));
    assert_eq!(normalize_event(event("deploy", Some("eyJ2IjoxfQ=="))), event("deploy", Some("eyJ2IjoxfQ==")));
    assert_eq!(normalize_event(event("deploy", None)), event("deploy", None));
}

#[test]
fn events_are_normalized_in_order() {
    let out = normalize_events(vec![
        event("a", Some("YQ==")),
        event("test-event-12345", Some("bnVsbA==")),
        event("c", None),
    ]);
    assert_eq!(out, vec![event("a", Some("YQ==")), event("test-event-12345", None), event("c", None)]);
    assert_eq!(normalize_events(vec![]), Vec::<UserEvent>::new());
}

#[test]
fn lookups_answer_none_exactly_for_404() {
    assert_eq!(lookup_answer(404, Some(b"x".to_vec())), None);
    assert_eq!(lookup_answer::<Vec<u8>>(404, None), None);
    assert_eq!(lookup_answer(200, Some(b"test-value".to_vec())), Some(b"test-value".to_vec()));
    assert_eq!(lookup_answer(200, Some(Vec::<u8>::new())), Some(vec![]));
    assert_eq!(lookup_answer(500, Some(3)), Some(3));
}

#[test]
fn query_values_can_be_built_from_defaults() {
    let q = KVReadKeyQuery { raw: Some(true), ..Default::default() };
    assert_eq!(q.raw, Some(true));
    assert_eq!(q.dc, None);
    let q = EnableMaintenanceModeRequestQuery {
        service_id: "test-service-maintenance-12345".to_string(),
        enable: true,
        reason: Some("Testing maintenance mode".to_string()),
    };
    assert!(q.enable);
    assert_eq!(RegisterServiceRequestQuery::default().replace_existing_checks, None);
    assert_eq!(StatusQuery::default().dc, None);
    let b = AgentTTLCheckUpdateRequestBody { status: Some("passing".to_string()), output: Some("Test output".to_string()) };
    assert_eq!(b.status.as_deref(), Some("passing"));
}
