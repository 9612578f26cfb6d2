use seedy::{
    build_service_index, process_one, step, Action, ContainerSpec, Decision, EventField, LoopState,
    Message, Opt, Outcome, SeedyError, ServiceRecord, ServiceSpec, SkipReason, StringMap, TaskSpec,
};

const IMAGE: &str = "123456789012.dkr.ecr.rp-north-1.amazonaws.com/bittrance/ze-image:latest";

fn notification(action_type: &str, repository: &str) -> String {
    format!(
        "{{\"account\":\"123456789012\",\"region\":\"rp-north-1\",\"detail\":{{\
         \"action-type\":\"{}\",\"result\":\"SUCCESS\",\"repository-name\":\"{}\",\
         \"image-digest\":\"sha256:1234\",\"image-tag\":\"latest\"}}}}",
        action_type, repository
    )
}

fn message(body: &str, handle: &str) -> Message {
    Message { body: Some(body.to_owned()), receipt_handle: Some(handle.to_owned()) }
}

fn push(handle: &str) -> Message {
    message(&notification("PUSH", "bittrance/ze-image"), handle)
}

fn service(id: &str, version_token: u64, image: &str) -> ServiceRecord {
    ServiceRecord {
        id: id.to_owned(),
        version_token,
        spec: ServiceSpec {
            name: format!("{}-service", id),
            labels: StringMap::new(),
            task_template: TaskSpec {
                container_spec: Some(ContainerSpec { image: Some(image.to_owned()) }),
                force_update: None,
            },
        },
    }
}

fn services() -> Vec<ServiceRecord> {
    vec![
        service("other", 7, "bittrance/other-image:latest@sha512:9999"),
        service("foo", 1, &format!("{}@sha512:5678", IMAGE)),
    ]
}

fn options() -> Opt {
    Opt { filter_label: None, queue_name: "some-queue".to_owned(), quiet: false, verbose: 0 }
}

fn token(text: &str) -> Outcome {
    Outcome::Authenticated { tokens: vec![Some(base64::encode(text))] }
}

/// Polls `messages`, lists the usual services, and returns what follows.
fn open_batch(messages: Vec<Message>) -> (LoopState, Action) {
    let opt = options();
    let (state, action) = LoopState::start();
    assert!(matches!(state, LoopState::Polling));
    assert!(matches!(action, Action::Poll));
    let (state, action) = step(state, Outcome::Polled { messages }, &opt);
    assert!(matches!(state, LoopState::Listing { .. }));
    assert!(matches!(action, Action::ListServices));
    step(state, Outcome::Listed { services: services() }, &opt)
}

fn assert_ack(action: &Action, handle: &str) {
    match action {
        Action::Ack { receipt_handle } => assert_eq!(handle, receipt_handle),
        _ => panic!("no acknowledgement"),
    }
}

#[test]
fn push_for_running_service_gives_one_update() {
    let opt = options();
    let mut updates = 0;
    let (state, action) = open_batch(vec![push("handle-1")]);
    assert!(matches!(state, LoopState::Authenticating { .. }));
    match &action {
        Action::Authenticate { account_id, region } => {
            assert_eq!("123456789012", account_id);
            assert_eq!("rp-north-1", region);
        },
        _ => panic!("no request for authorization"),
    }
    let (state, action) = step(state, token("foo:bar"), &opt);
    assert!(matches!(state, LoopState::Applying { .. }));
    match &action {
        Action::Apply { service_id, version_token, spec, credentials } => {
            updates += 1;
            assert_eq!("foo", service_id);
            assert_eq!(1, *version_token);
            let container_spec = spec.task_template.container_spec.as_ref().unwrap();
            assert_eq!(Some(format!("{}@sha256:1234", IMAGE)), container_spec.image);
            assert_eq!(Some(1), spec.task_template.force_update);
            assert_eq!("foo-service", spec.name);
            let credentials = credentials.as_ref().unwrap();
            assert_eq!("foo", credentials.username);
            assert_eq!("bar", credentials.password);
        },
        _ => panic!("no update"),
    }
    let (state, action) = step(state, Outcome::Applied, &opt);
    assert!(matches!(state, LoopState::Acking { .. }));
    assert_ack(&action, "handle-1");
    let (state, action) = step(state, Outcome::Acked, &opt);
    assert!(matches!(state, LoopState::Polling));
    assert!(matches!(action, Action::Poll));
    assert_eq!(1, updates);
}

#[test]
fn messages_are_taken_in_order() {
    let opt = options();
    let batch = vec![
        message(&notification("DELETE", "bittrance/ze-image"), "h1"),
        message(&notification("PUSH", "bittrance/unknown"), "h2"),
        message("{", "h3"),
        Message { body: None, receipt_handle: Some("h4".to_owned()) },
        push("h5"),
    ];
    let (state, action) = open_batch(batch);
    assert_ack(&action, "h1");
    let (state, action) = step(state, Outcome::Acked, &opt);
    assert_ack(&action, "h2");
    let (state, action) = step(state, Outcome::Acked, &opt);
    assert!(matches!(state, LoopState::Skipping { .. }));
    assert!(matches!(
        action,
        Action::Skip { reason: SkipReason::Malformed { error: SeedyError::MalformedEvent } }
    ));
    let (state, action) = step(state, Outcome::Skipped, &opt);
    assert_ack(&action, "h4");
    let (state, action) = step(state, Outcome::Acked, &opt);
    assert!(matches!(action, Action::Authenticate { .. }));
    let (state, action) = step(state, Outcome::Authenticated { tokens: Vec::new() }, &opt);
    match &action {
        Action::Apply { service_id, credentials, .. } => {
            assert_eq!("foo", service_id);
            assert!(credentials.is_none());
        },
        _ => panic!("no update"),
    }
    let (state, action) = step(state, Outcome::Applied, &opt);
    assert_ack(&action, "h5");
    let (state, action) = step(state, Outcome::Acked, &opt);
    assert!(matches!(state, LoopState::Polling));
    assert!(matches!(action, Action::Poll));
}

#[test]
fn empty_batch_polls_again() {
    let (state, action) = open_batch(Vec::new());
    assert!(matches!(state, LoopState::Polling));
    assert!(matches!(action, Action::Poll));
}

#[test]
fn failed_poll_or_listing_halts() {
    let opt = options();
    let (state, _) = LoopState::start();
    let (state, action) = step(state, Outcome::Failed, &opt);
    assert!(matches!(state, LoopState::Polling));
    assert!(matches!(action, Action::Halt));
    let (state, _) = step(state, Outcome::Polled { messages: vec![push("h1")] }, &opt);
    let (state, action) = step(state, Outcome::Failed, &opt);
    assert!(matches!(state, LoopState::Polling));
    assert!(matches!(action, Action::Halt));
}

#[test]
fn outcome_of_another_action_counts_as_failure() {
    let opt = options();
    let (state, _) = LoopState::start();
    let (_, action) = step(state, Outcome::Applied, &opt);
    assert!(matches!(action, Action::Halt));
    let (state, _) = open_batch(vec![push("h1")]);
    let (_, action) = step(state, Outcome::Acked, &opt);
    assert!(matches!(action, Action::Skip { reason: SkipReason::AuthenticationFailed }));
}

#[test]
fn failed_authorization_leaves_message() {
    let opt = options();
    let (state, _) = open_batch(vec![push("h1"), push("h2")]);
    let (state, action) = step(state, Outcome::Failed, &opt);
    assert!(matches!(state, LoopState::Skipping { .. }));
    assert!(matches!(action, Action::Skip { reason: SkipReason::AuthenticationFailed }));
    let (state, action) = step(state, Outcome::Skipped, &opt);
    assert!(matches!(state, LoopState::Authenticating { .. }));
    assert!(matches!(action, Action::Authenticate { .. }));
}

#[test]
fn failed_update_leaves_message() {
    let opt = options();
    let (state, _) = open_batch(vec![push("h1")]);
    let (state, _) = step(state, token("foo:bar"), &opt);
    let (state, action) = step(state, Outcome::Failed, &opt);
    assert!(matches!(action, Action::Skip { reason: SkipReason::UpdateFailed }));
    let (state, action) = step(state, Outcome::Skipped, &opt);
    assert!(matches!(state, LoopState::Polling));
    assert!(matches!(action, Action::Poll));
}

#[test]
fn unreadable_token_leaves_message() {
    let opt = options();
    let (state, _) = open_batch(vec![push("h1")]);
    let (state, action) = step(state, token("no colon"), &opt);
    assert!(matches!(state, LoopState::Skipping { .. }));
    assert!(matches!(
        action,
        Action::Skip {
            reason: SkipReason::BadCredential { error: SeedyError::MalformedCredential }
        }
    ));
    let (state, _) = open_batch(vec![push("h1")]);
    let (_, action) = step(state, Outcome::Authenticated { tokens: vec![None] }, &opt);
    assert!(matches!(action, Action::Skip { reason: SkipReason::BadCredential { .. } }));
}

#[test]
fn message_without_handle_is_not_acknowledged() {
    let opt = options();
    let bare = Message {
        body: Some(notification("DELETE", "bittrance/ze-image")),
        receipt_handle: None,
    };
    let (state, action) = open_batch(vec![bare]);
    assert!(matches!(state, LoopState::Skipping { .. }));
    assert!(matches!(action, Action::Skip { reason: SkipReason::NoReceiptHandle }));
    let pushed = Message {
        body: Some(notification("PUSH", "bittrance/ze-image")),
        receipt_handle: None,
    };
    let (state, _) = open_batch(vec![pushed]);
    let (state, _) = step(state, token("foo:bar"), &opt);
    let (_, action) = step(state, Outcome::Applied, &opt);
    assert!(matches!(action, Action::Skip { reason: SkipReason::NoReceiptHandle }));
}

#[test]
fn notification_without_action_type_is_skipped() {
    let raw = "{\"account\":\"1\",\"region\":\"r\",\"detail\":{\"result\":\"SUCCESS\"}}";
    let (state, action) = open_batch(vec![message(raw, "h1")]);
    assert!(matches!(state, LoopState::Skipping { .. }));
    assert!(matches!(
        action,
        Action::Skip {
            reason: SkipReason::Malformed {
                error: SeedyError::MissingField { field: EventField::ActionType }
            }
        }
    ));
}

#[test]
fn notification_without_detail_is_skipped() {
    let (_, action) = open_batch(vec![message("{\"account\":\"1\"}", "h1")]);
    assert!(matches!(
        action,
        Action::Skip {
            reason: SkipReason::Malformed {
                error: SeedyError::MissingField { field: EventField::Detail }
            }
        }
    ));
}

#[test]
fn label_filter_reaches_the_catalog() {
    let opt = Opt {
        filter_label: Some(("some".to_owned(), "label".to_owned())),
        queue_name: "some-queue".to_owned(),
        quiet: false,
        verbose: 0,
    };
    let (state, _) = LoopState::start();
    let (state, _) = step(state, Outcome::Polled { messages: vec![push("h1")] }, &opt);
    let (_, action) = step(state, Outcome::Listed { services: services() }, &opt);
    assert_ack(&action, "h1");
}

#[test]
fn process_one_tells_the_cases_apart() {
    let catalog = build_service_index(services(), &options());
    assert!(matches!(process_one(&push("h"), &catalog), Decision::Update(_)));
    match process_one(&push("h"), &catalog) {
        Decision::Update(event) => {
            assert_eq!(IMAGE, event.image());
            assert_eq!("sha256:1234", event.image_digest);
        },
        _ => panic!("no update"),
    }
    let unknown = message(&notification("PUSH", "bittrance/unknown"), "h");
    assert!(matches!(process_one(&unknown, &catalog), Decision::Pass));
    let pull = message(&notification("PULL", "bittrance/ze-image"), "h");
    assert!(matches!(process_one(&pull, &catalog), Decision::Pass));
    let empty = Message { body: None, receipt_handle: None };
    assert!(matches!(process_one(&empty, &catalog), Decision::Pass));
    let broken = message("[]", "h");
    assert!(matches!(
        process_one(&broken, &catalog),
        Decision::Reject(SeedyError::MalformedEvent)
    ));
    let none = build_service_index(Vec::new(), &options());
    assert!(matches!(process_one(&push("h"), &none), Decision::Pass));
}

#[test]
fn service_missing_from_catalog_is_skipped() {
    let opt = options();
    let event = match process_one(&push("h1"), &build_service_index(services(), &opt)) {
        Decision::Update(event) => event,
        _ => panic!("no update"),
    };
    let batch = seedy::Batch {
        messages: vec![push("h1")],
        cursor: 0,
        catalog: StringMap::new(),
    };
    let state = LoopState::Authenticating { batch, event };
    let (state, action) = step(state, token("foo:bar"), &opt);
    assert!(matches!(state, LoopState::Skipping { .. }));
    assert!(matches!(action, Action::Skip { reason: SkipReason::ServiceGone }));
}

#[test]
fn batch_advances_to_its_end_and_no_further() {
    let batch = seedy::Batch {
        messages: vec![push("h1"), push("h2")],
        cursor: 0,
        catalog: StringMap::new(),
    };
    let batch = batch.advance();
    assert_eq!(1, batch.cursor);
    let batch = batch.advance();
    assert_eq!(2, batch.cursor);
    let batch = batch.advance();
    assert_eq!(2, batch.cursor);
    assert_eq!(2, batch.messages.len());
}

#[test]
fn state_past_the_end_of_the_batch_polls_again() {
    let opt = options();
    let batch = seedy::Batch {
        messages: vec![push("h1")],
        cursor: 5,
        catalog: StringMap::new(),
    };
    let (state, action) = step(LoopState::Acking { batch }, Outcome::Acked, &opt);
    assert!(matches!(state, LoopState::Polling));
    assert!(matches!(action, Action::Poll));
}
