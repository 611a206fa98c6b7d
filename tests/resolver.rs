use jj::resolver::{decode_status, ResolveError, StatusEntry};
use jj::state::InstanceState;

fn entry(id: Option<&str>, name: Option<&str>) -> StatusEntry {
    StatusEntry {
        instance_id: id.map(|s| s.to_string()),
        state_name: name.map(|s| s.to_string()),
    }
}

#[test]
fn resolves_the_entry_for_the_instance() {
    let resp = Ok(Some(vec![entry(Some("i-123"), Some("running"))]));
    assert_eq!(decode_status("i-123", resp).unwrap(), InstanceState::Running);
}

#[test]
fn picks_the_first_entry_with_the_matching_id() {
    let resp = Ok(Some(vec![
        entry(Some("i-999"), Some("stopped")),
        entry(None, Some("pending")),
        entry(Some("i-123"), Some("stopping")),
        entry(Some("i-123"), Some("running")),
    ]));
    assert_eq!(decode_status("i-123", resp).unwrap(), InstanceState::Stopping);
}

#[test]
fn query_failure_is_a_remote_query_error() {
    match decode_status("i-123", Err("connection reset".to_string())) {
        Err(ResolveError::RemoteQuery(msg)) => assert_eq!(msg, "connection reset"),
        other => panic!("unexpected {:?}", other),
    }
}

#[test]
fn missing_statuses_are_malformed() {
    assert!(matches!(decode_status("i-123", Ok(None)), Err(ResolveError::MalformedResponse)));
    assert!(matches!(
        decode_status("i-123", Ok(Some(vec![]))),
        Err(ResolveError::MalformedResponse)
    ));
    assert!(matches!(
        decode_status("i-123", Ok(Some(vec![entry(Some("i-456"), Some("running"))]))),
        Err(ResolveError::MalformedResponse)
    ));
}

#[test]
fn missing_state_name_is_malformed() {
    let resp = Ok(Some(vec![entry(Some("i-123"), None)]));
    assert!(matches!(decode_status("i-123", resp), Err(ResolveError::MalformedResponse)));
}

#[test]
fn unknown_state_name_is_an_unknown_state_error() {
    let resp = Ok(Some(vec![entry(Some("i-123"), Some("hibernating"))]));
    match decode_status("i-123", resp) {
        Err(ResolveError::UnknownState(e)) => assert_eq!(e.raw, "hibernating"),
        other => panic!("unexpected {:?}", other),
    }
}

#[test]
fn resolving_twice_without_change_agrees() {
    let make = || Ok(Some(vec![entry(Some("i-123"), Some("pending"))]));
    let first = decode_status("i-123", make()).unwrap();
    let second = decode_status("i-123", make()).unwrap();
    assert_eq!(first, second);
    assert_eq!(first, InstanceState::Pending);
}
