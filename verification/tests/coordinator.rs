use asyncfetch::{
    AsyncFetch, BasicAuthCredential, Error, FetchRequest, ProgressNotification, RequestOutcome,
};
use crossbeam_channel::unbounded;

fn plain_request(remote: &str, branch: &str) -> FetchRequest {
    FetchRequest {
        remote: remote.to_string(),
        branch: branch.to_string(),
        basic_credential: None,
    }
}

#[test]
fn new_coordinator_is_idle() {
    let (sender, _receiver) = unbounded();
    let coordinator = AsyncFetch::new(&sender);
    assert!(!coordinator.is_pending());
    assert_eq!(coordinator.last_result(), None);
    assert_eq!(coordinator.progress(), None);
}

#[test]
fn successful_cycle_stores_bytes_and_goes_idle() {
    let (sender, _receiver) = unbounded();
    let mut coordinator = AsyncFetch::new(&sender);

    let outcome = coordinator.request(plain_request("origin", "main"));
    let started = match outcome {
        Ok(RequestOutcome::Started(params, _task_sender)) => params,
        _ => panic!("an idle coordinator must start a task"),
    };
    assert_eq!(started.remote, "origin");
    assert_eq!(started.branch, "main");
    assert!(coordinator.is_pending());

    coordinator.complete(Ok(1500));
    assert_eq!(coordinator.last_result(), Some((1500, String::new())));
    assert!(!coordinator.is_pending());
}

#[test]
fn failed_cycle_stores_error_text_and_goes_idle() {
    let (sender, _receiver) = unbounded();
    let mut coordinator = AsyncFetch::new(&sender);

    let outcome = coordinator.request(plain_request("origin", "main"));
    assert!(matches!(outcome, Ok(RequestOutcome::Started(_, _))));

    coordinator.complete(Err("auth failed".to_string()));
    assert_eq!(coordinator.last_result(), Some((0, "auth failed".to_string())));
    assert!(!coordinator.is_pending());
}

#[test]
fn second_request_before_completion_is_a_silent_noop() {
    let (sender, _receiver) = unbounded();
    let mut coordinator = AsyncFetch::new(&sender);

    let first = coordinator.request(plain_request("origin", "main"));
    let first_params = match first {
        Ok(RequestOutcome::Started(params, _)) => params,
        _ => panic!("the first request must start a task"),
    };

    let second = coordinator.request(plain_request("origin", "other"));
    assert!(matches!(second, Ok(RequestOutcome::AlreadyPending)));
    assert!(coordinator.is_pending());

    // Only the first task exists; its outcome is the one stored.
    assert_eq!(first_params.branch, "main");
    coordinator.complete(Ok(1500));
    assert_eq!(coordinator.last_result(), Some((1500, String::new())));
    assert!(!coordinator.is_pending());
}

#[test]
fn progress_is_none_right_after_a_request_is_accepted() {
    let (sender, _receiver) = unbounded();
    let mut coordinator = AsyncFetch::new(&sender);

    let first = coordinator.request(plain_request("origin", "main"));
    assert!(matches!(first, Ok(RequestOutcome::Started(_, _))));
    assert_eq!(coordinator.progress(), None);

    let stop = coordinator.apply_progress(ProgressNotification::Transfer {
        objects: 3,
        total_objects: 10,
        bytes: 512,
    });
    assert!(!stop);
    assert!(coordinator.progress().is_some());

    coordinator.complete(Ok(42));

    // The previous cycle left a non-empty snapshot behind; accepting a new
    // request resets it to none.
    let again = coordinator.request(plain_request("origin", "main"));
    assert!(matches!(again, Ok(RequestOutcome::Started(_, _))));
    assert_eq!(coordinator.progress(), None);
}

#[test]
fn latest_progress_event_replaces_the_previous_one() {
    let (sender, _receiver) = unbounded();
    let mut coordinator = AsyncFetch::new(&sender);
    let outcome = coordinator.request(plain_request("origin", "main"));
    assert!(matches!(outcome, Ok(RequestOutcome::Started(_, _))));

    coordinator.apply_progress(ProgressNotification::Packing { current: 1, total: 4 });
    coordinator.apply_progress(ProgressNotification::Transfer {
        objects: 2,
        total_objects: 4,
        bytes: 256,
    });
    assert_eq!(
        coordinator.progress(),
        Some(ProgressNotification::Transfer { objects: 2, total_objects: 4, bytes: 256 })
    );
}

#[test]
fn done_sentinel_stops_the_relay_and_is_never_stored() {
    let (sender, _receiver) = unbounded();
    let mut coordinator = AsyncFetch::new(&sender);
    let outcome = coordinator.request(plain_request("origin", "main"));
    assert!(matches!(outcome, Ok(RequestOutcome::Started(_, _))));

    coordinator.apply_progress(ProgressNotification::Packing { current: 2, total: 4 });
    let stop = coordinator.apply_progress(ProgressNotification::Done);
    assert!(stop);
    assert_eq!(
        coordinator.progress(),
        Some(ProgressNotification::Packing { current: 2, total: 4 })
    );
}

#[test]
fn losing_the_install_race_surfaces_the_busy_error() {
    let (sender, _receiver) = unbounded();
    let mut coordinator = AsyncFetch::new(&sender);
    let outcome = coordinator.request(plain_request("origin", "main"));
    assert!(matches!(outcome, Ok(RequestOutcome::Started(_, _))));

    // A direct install while a request is in flight is the residual race:
    // it must be surfaced, not silently swallowed.
    let raced = coordinator.set_request(&plain_request("origin", "other"));
    assert_eq!(raced, Err(Error::Busy));
    assert!(coordinator.is_pending());
}

#[test]
fn result_persists_until_the_next_cycle_overwrites_it() {
    let (sender, _receiver) = unbounded();
    let mut coordinator = AsyncFetch::new(&sender);

    let outcome = coordinator.request(plain_request("origin", "main"));
    assert!(matches!(outcome, Ok(RequestOutcome::Started(_, _))));
    coordinator.complete(Ok(3));
    assert_eq!(coordinator.last_result(), Some((3, String::new())));

    let outcome = coordinator.request(plain_request("origin", "main"));
    assert!(matches!(outcome, Ok(RequestOutcome::Started(_, _))));
    // The previous result stays readable while the new cycle runs.
    assert_eq!(coordinator.last_result(), Some((3, String::new())));

    coordinator.complete(Err("network unreachable".to_string()));
    assert_eq!(coordinator.last_result(), Some((0, "network unreachable".to_string())));
}

#[test]
fn storing_a_result_does_not_end_the_cycle_by_itself() {
    let (sender, _receiver) = unbounded();
    let mut coordinator = AsyncFetch::new(&sender);
    let outcome = coordinator.request(plain_request("origin", "main"));
    assert!(matches!(outcome, Ok(RequestOutcome::Started(_, _))));

    coordinator.set_result(Ok(7));
    assert!(coordinator.is_pending());
    assert_eq!(coordinator.last_result(), Some((7, String::new())));

    coordinator.clear_request();
    assert!(!coordinator.is_pending());
    assert_eq!(coordinator.last_result(), Some((7, String::new())));
}

#[test]
fn duplicated_request_carries_the_same_values() {
    let request = FetchRequest {
        remote: "origin".to_string(),
        branch: "main".to_string(),
        basic_credential: Some(BasicAuthCredential {
            username: Some("user".to_string()),
            password: Some("pw".to_string()),
        }),
    };
    let copy = request.duplicate();
    assert_eq!(copy.remote, request.remote);
    assert_eq!(copy.branch, request.branch);
    let original_credential = request.basic_credential.as_ref().unwrap();
    let copied_credential = copy.basic_credential.as_ref().unwrap();
    assert_eq!(copied_credential.username, original_credential.username);
    assert_eq!(copied_credential.password, original_credential.password);
}

#[test]
fn error_messages_name_the_condition() {
    assert_eq!(Error::Busy.message(), "pending request");
    assert_eq!(Error::Channel.message(), "channel disconnected");
}
