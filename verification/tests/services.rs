use seedy::{
    build_service_index, docker_credentials_from_auth_token, extract_service_image, split_label,
    update_spec, ContainerSpec, Event, Opt, ServiceRecord, ServiceSpec, StringMap, TaskSpec,
    STACK_IMAGE_LABEL,
};

fn message_event() -> Event {
    Event {
        account_id: String::from("123456789012"),
        region: String::from("rp-north-1"),
        repository_name: String::from("bittrance/ze-image"),
        image_tag: String::from("latest"),
        image_digest: String::from("sha256:1234"),
    }
}

fn service_spec(service_labels: Option<StringMap<String>>, image: Option<String>) -> ServiceRecord {
    ServiceRecord {
        id: "foo".to_owned(),
        version_token: 1,
        spec: ServiceSpec {
            name: "ze-service".to_owned(),
            labels: service_labels.unwrap_or(StringMap::new()),
            task_template: TaskSpec {
                container_spec: Some(ContainerSpec { image }),
                force_update: None,
            },
        },
    }
}

fn stack_label(image: &str) -> Option<StringMap<String>> {
    let mut service_labels = StringMap::new();
    service_labels.insert(STACK_IMAGE_LABEL.to_owned(), image.to_owned());
    Some(service_labels)
}

fn filter_label(key: &str, value: &str) -> Option<StringMap<String>> {
    let mut service_labels = StringMap::new();
    service_labels.insert(key.to_owned(), value.to_owned());
    Some(service_labels)
}

fn options(filter: Option<&str>) -> Opt {
    Opt {
        filter_label: filter.map(|label| split_label(label).unwrap()),
        queue_name: "some-queue".to_owned(),
        quiet: false,
        verbose: 0,
    }
}

#[test]
fn test_extract_service_image_from_container_spec_without_sha() {
    let service = service_spec(None, Some("bittrance/ze-image:latest".to_owned()));
    let image = extract_service_image(&service);
    assert_eq!(Some("bittrance/ze-image:latest".to_owned()), image);
}

#[test]
fn test_extract_service_image_from_container_spec_with_sha() {
    let service = service_spec(
        None,
        Some("bittrance/ze-image:latest@sha512:12341243".to_owned()),
    );
    let image = extract_service_image(&service);
    assert_eq!(Some("bittrance/ze-image:latest".to_owned()), image);
}

#[test]
fn test_extract_service_image_from_container_spec_with_label() {
    let service = service_spec(stack_label("bittrance/ze-image:latest"), None);
    let image = extract_service_image(&service);
    assert_eq!(Some("bittrance/ze-image:latest".to_owned()), image);
}

#[test]
fn test_extract_service_image_from_container_spec_with_label_with_sha() {
    let service = service_spec(stack_label("bittrance/ze-image:latest@sha512:1234"), None);
    let image = extract_service_image(&service);
    assert_ne!(Some("bittrance/ze-image:latest".to_owned()), image);
}

#[test]
fn test_extract_service_image_from_container_with_nothing() {
    let service = service_spec(None, None);
    let image = extract_service_image(&service);
    assert_eq!(None, image);
}

#[test]
fn test_docker_credentials_from_auth_token() {
    let encoded = base64::encode("foo:bar");
    let credentials = docker_credentials_from_auth_token(encoded).unwrap();
    assert_eq!("foo".to_owned(), credentials.username);
    assert_eq!("bar".to_owned(), credentials.password);
}

#[test]
fn test_update_spec_adds_digest() {
    let service = service_spec(
        None,
        Some(
            "123456789012.dkr.ecr.rp-north-1.amazonaws.com/bittrance/ze-image:latest@sha512:5678"
                .to_owned(),
        ),
    );
    let updated_spec = update_spec(&service, &message_event());
    assert_eq!(
        Some(
            "123456789012.dkr.ecr.rp-north-1.amazonaws.com/bittrance/ze-image:latest@sha256:1234"
                .to_owned()
        ),
        updated_spec
            .task_template
            .container_spec
            .and_then(|spec| spec.image)
    );
}

#[test]
fn test_build_service_index() {
    let service = service_spec(None, Some("bittrance/ze-image:latest".to_owned()));
    let opt = options(None);
    let index = build_service_index(vec![service], &opt);
    assert_eq!(1, index.len());
}

#[test]
fn test_build_service_index_with_label_filter_includes() {
    let service = service_spec(
        filter_label("some", "label"),
        Some("bittrance/ze-image:latest".to_owned()),
    );
    let opt = options(Some("some=label"));
    let index = build_service_index(vec![service], &opt);
    assert_eq!(1, index.len());
}

#[test]
fn test_build_service_index_with_label_filter_excludes() {
    let service = service_spec(
        filter_label("some", "label"),
        Some("bittrance/ze-image:latest".to_owned()),
    );
    let opt = options(Some("some=other"));
    let index = build_service_index(vec![service], &opt);
    assert_eq!(0, index.len());
}

#[test]
fn label_is_taken_as_it_stands() {
    let service = service_spec(stack_label("bittrance/ze-image:latest@sha512:1234"), None);
    assert_eq!(
        Some("bittrance/ze-image:latest@sha512:1234".to_owned()),
        extract_service_image(&service)
    );
}

#[test]
fn label_goes_before_declared_image() {
    let service = service_spec(
        stack_label("bittrance/ze-image:latest"),
        Some("other/image:1@sha256:99".to_owned()),
    );
    assert_eq!(
        Some("bittrance/ze-image:latest".to_owned()),
        extract_service_image(&service)
    );
}

#[test]
fn declared_image_is_cut_at_first_at_sign() {
    let service = service_spec(None, Some("a/b:1@sha256:12@34".to_owned()));
    assert_eq!(Some("a/b:1".to_owned()), extract_service_image(&service));
    let service = service_spec(None, Some("@sha256:12".to_owned()));
    assert_eq!(Some(String::new()), extract_service_image(&service));
}

#[test]
fn index_finds_service_by_reference() {
    let service = service_spec(None, Some("bittrance/ze-image:latest@sha512:5678".to_owned()));
    let index = build_service_index(vec![service], &options(None));
    assert_eq!("foo", index.get("bittrance/ze-image:latest").unwrap().id);
    assert!(index.get("bittrance/ze-image:latest@sha512:5678").is_none());
}

#[test]
fn index_leaves_out_service_without_reference() {
    let with_image = service_spec(None, Some("a:1".to_owned()));
    let without = service_spec(None, None);
    let index = build_service_index(vec![without, with_image], &options(None));
    assert_eq!(1, index.len());
    assert!(index.contains_key("a:1"));
}

#[test]
fn index_keeps_the_later_of_two_services() {
    let mut first = service_spec(None, Some("a:1@sha256:1".to_owned()));
    first.id = "first".to_owned();
    let mut second = service_spec(stack_label("a:1"), None);
    second.id = "second".to_owned();
    let mut third = service_spec(None, Some("b:1".to_owned()));
    third.id = "third".to_owned();
    let index = build_service_index(vec![first, second, third], &options(None));
    assert_eq!(2, index.len());
    assert_eq!("second", index.get("a:1").unwrap().id);
    assert_eq!("third", index.get("b:1").unwrap().id);
}

#[test]
fn filter_needs_key_and_value() {
    let mut labelled = service_spec(filter_label("some", "label"), Some("a:1".to_owned()));
    labelled.id = "labelled".to_owned();
    let mut other = service_spec(filter_label("some", "other"), Some("b:1".to_owned()));
    other.id = "other".to_owned();
    let mut bare = service_spec(None, Some("c:1".to_owned()));
    bare.id = "bare".to_owned();
    let mut swapped = service_spec(filter_label("label", "some"), Some("d:1".to_owned()));
    swapped.id = "swapped".to_owned();
    let index = build_service_index(
        vec![labelled, other, bare, swapped],
        &options(Some("some=label")),
    );
    assert_eq!(1, index.len());
    assert_eq!("labelled", index.get("a:1").unwrap().id);
}

#[test]
fn no_filter_lets_all_in() {
    let labelled = service_spec(filter_label("some", "label"), Some("a:1".to_owned()));
    let other = service_spec(filter_label("some", "other"), Some("b:1".to_owned()));
    let bare = service_spec(None, Some("c:1".to_owned()));
    let index = build_service_index(vec![labelled, other, bare], &options(None));
    assert_eq!(3, index.len());
}

#[test]
fn empty_listing_gives_empty_index() {
    let index = build_service_index(Vec::new(), &options(None));
    assert_eq!(0, index.len());
}

#[test]
fn update_spec_sets_marker_and_keeps_the_rest() {
    let mut service = service_spec(
        filter_label("some", "label"),
        Some(
            "123456789012.dkr.ecr.rp-north-1.amazonaws.com/bittrance/ze-image:latest@sha512:5678"
                .to_owned(),
        ),
    );
    service.version_token = 1;
    let updated = update_spec(&service, &message_event());
    assert_eq!(Some(1), updated.task_template.force_update);
    assert_eq!("ze-service", updated.name);
    assert_eq!(1, updated.labels.len());
    assert_eq!("label", updated.labels.get("some").unwrap());
    assert_eq!(
        Some(
            "123456789012.dkr.ecr.rp-north-1.amazonaws.com/bittrance/ze-image:latest@sha256:1234"
                .to_owned()
        ),
        updated.task_template.container_spec.unwrap().image
    );
    assert_eq!(None, service.spec.task_template.force_update);
}

#[test]
fn update_spec_does_not_look_at_the_old_image() {
    let mut service = service_spec(None, None);
    service.version_token = 18446744073709551615;
    let updated = update_spec(&service, &message_event());
    assert_eq!(
        Some(
            "123456789012.dkr.ecr.rp-north-1.amazonaws.com/bittrance/ze-image:latest@sha256:1234"
                .to_owned()
        ),
        updated.task_template.container_spec.unwrap().image
    );
    assert_eq!(Some(18446744073709551615), updated.task_template.force_update);
}

#[test]
fn update_spec_makes_up_no_container_spec() {
    let mut service = service_spec(stack_label("bittrance/ze-image:latest"), None);
    service.spec.task_template.container_spec = None;
    service.version_token = 4;
    let updated = update_spec(&service, &message_event());
    assert!(updated.task_template.container_spec.is_none());
    assert_eq!(Some(4), updated.task_template.force_update);
    assert_eq!("ze-service", updated.name);
    assert_eq!(
        "bittrance/ze-image:latest",
        updated.labels.get(STACK_IMAGE_LABEL).unwrap()
    );
}

#[test]
fn service_without_container_spec_has_no_declared_image() {
    let mut service = service_spec(None, Some("a:1".to_owned()));
    service.spec.task_template.container_spec = None;
    assert_eq!(None, extract_service_image(&service));
    let index = build_service_index(vec![service], &options(None));
    assert_eq!(0, index.len());
}
