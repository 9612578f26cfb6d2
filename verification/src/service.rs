//! The services that run in the cluster, and the catalog that leads from an
//! image to the service to update.

use crate::events::{Event, EventView};
use crate::options::Opt;
use crate::string_map::StringMap;
use crate::text::{before, same_text, truncate_at};
use vstd::prelude::*;

verus! {

/// The label under which a stack deployment records the image of a
/// service.
pub const STACK_IMAGE_LABEL: &'static str = "com.docker.stack.image";

/// What the library reads and writes of a container's specification.
#[derive(Debug)]
pub struct ContainerSpec {
    /// The image that the containers run; it may end in `@` and a digest.
    pub image: Option<String>,
}

/// What the library reads and writes of the specification of a service's
/// tasks.
#[derive(Debug)]
pub struct TaskSpec {
    /// A service whose tasks are no containers has none.
    pub container_spec: Option<ContainerSpec>,
    /// A counter whose change makes the orchestrator restart the service's
    /// tasks.
    pub force_update: Option<u64>,
}

/// What the library reads and writes of a service's specification. What
/// else the orchestrator keeps there stays with the caller.
#[derive(Debug)]
pub struct ServiceSpec {
    pub name: String,
    pub labels: StringMap<String>,
    pub task_template: TaskSpec,
}

/// One running service, as the orchestrator listed it.
#[derive(Debug)]
pub struct ServiceRecord {
    pub id: String,
    /// The version under which the orchestrator takes an update; it turns
    /// down an update that names an older one.
    pub version_token: u64,
    pub spec: ServiceSpec,
}

/// A [`ContainerSpec`] with its image as a sequence of characters.
pub struct ContainerSpecView {
    pub image: Option<Seq<char>>,
}

/// A [`TaskSpec`] with its container specification as a view.
pub struct TaskSpecView {
    pub container_spec: Option<ContainerSpecView>,
    pub force_update: Option<u64>,
}

/// A [`ServiceSpec`] with its strings as sequences of characters and its
/// labels as a map.
pub struct ServiceSpecView {
    pub name: Seq<char>,
    pub labels: Map<Seq<char>, Seq<char>>,
    pub task_template: TaskSpecView,
}

/// A [`ServiceRecord`] with its identifier and its specification as views.
pub struct ServiceRecordView {
    pub id: Seq<char>,
    pub version_token: u64,
    pub spec: ServiceSpecView,
}

/// A string, if any, as characters.
pub open spec fn text_view(text: Option<String>) -> Option<Seq<char>> {
    match text {
        Some(text) => Some(text@),
        None => None,
    }
}

impl View for ContainerSpec {
    type V = ContainerSpecView;

    open spec fn view(&self) -> ContainerSpecView {
        ContainerSpecView { image: text_view(self.image) }
    }
}

impl View for TaskSpec {
    type V = TaskSpecView;

    open spec fn view(&self) -> TaskSpecView {
        TaskSpecView {
            container_spec: match self.container_spec {
                Some(container_spec) => Some(container_spec@),
                None => None,
            },
            force_update: self.force_update,
        }
    }
}

impl View for ServiceSpec {
    type V = ServiceSpecView;

    open spec fn view(&self) -> ServiceSpecView {
        ServiceSpecView {
            name: self.name@,
            labels: self.labels@.map_values(|value: String| value@),
            task_template: self.task_template@,
        }
    }
}

impl ServiceSpecView {
    /// The image that the specification declares: that of its container
    /// specification, where it has one and that one names an image.
    pub open spec fn declared_image(self) -> Option<Seq<char>> {
        match self.task_template.container_spec {
            Some(container_spec) => container_spec.image,
            None => None,
        }
    }
}

impl View for ServiceRecord {
    type V = ServiceRecordView;

    open spec fn view(&self) -> ServiceRecordView {
        ServiceRecordView { id: self.id@, version_token: self.version_token, spec: self.spec@ }
    }
}

/// The views of a list of services.
pub open spec fn records_view(services: Seq<ServiceRecord>) -> Seq<ServiceRecordView> {
    services.map_values(|service: ServiceRecord| service@)
}

/// The view of a catalog.
pub open spec fn catalog_view(catalog: StringMap<ServiceRecord>) -> Map<
    Seq<char>,
    ServiceRecordView,
> {
    catalog@.map_values(|service: ServiceRecord| service@)
}

/// The image reference under which a service is entered in the catalog.
///
/// The stack image label decides where the service has one, and is taken
/// as it stands. Else it is the declared image up to its first `@`. A
/// service with neither has no reference.
pub open spec fn service_image(service: ServiceRecordView) -> Option<Seq<char>> {
    if service.spec.labels.contains_key(STACK_IMAGE_LABEL@) {
        Some(service.spec.labels[STACK_IMAGE_LABEL@])
    } else {
        match service.spec.declared_image() {
            Some(image) => Some(before(image, '@')),
            None => None,
        }
    }
}

/// Whether the label filter lets a service in: with no filter every
/// service, with one those that carry the key with just that value.
pub open spec fn admits(filter: Option<(Seq<char>, Seq<char>)>, service: ServiceRecordView) -> bool {
    match filter {
        Some((key, value)) => service.spec.labels.contains_key(key) && service.spec.labels[key]
            == value,
        None => true,
    }
}

/// Whether a service enters the catalog.
pub open spec fn listed(filter: Option<(Seq<char>, Seq<char>)>, service: ServiceRecordView) -> bool {
    admits(filter, service) && service_image(service) is Some
}

/// The catalog of a listing: every service that the filter admits and that
/// has an image reference, under that reference. The services are entered
/// in the order of the listing, so of two with one reference the later one
/// stays.
pub open spec fn catalog_of(
    services: Seq<ServiceRecordView>,
    filter: Option<(Seq<char>, Seq<char>)>,
) -> Map<Seq<char>, ServiceRecordView>
    decreases services.len(),
{
    if services.len() == 0 {
        Map::empty()
    } else {
        let rest = catalog_of(services.drop_last(), filter);
        let service = services.last();
        if listed(filter, service) {
            rest.insert(service_image(service)->0, service)
        } else {
            rest
        }
    }
}

/// The image reference under which `service` is entered in the catalog.
pub fn extract_service_image(service: &ServiceRecord) -> (r: Option<String>)
    ensures
        text_view(r) == service_image(service@),
{
    match service.spec.labels.get(STACK_IMAGE_LABEL) {
        Some(image) => Some(image.clone()),
        None => match &service.spec.task_template.container_spec {
            Some(container_spec) => match &container_spec.image {
                Some(image) => Some(truncate_at(image.as_str(), '@')),
                None => None,
            },
            None => None,
        },
    }
}

/// Whether the label filter of `opt` lets `service` in.
pub fn passes_filter(service: &ServiceRecord, opt: &Opt) -> (r: bool)
    ensures
        r == admits(opt.filter(), service@),
{
    match &opt.filter_label {
        Some((key, value)) => match service.spec.labels.get(key.as_str()) {
            Some(found) => same_text(found.as_str(), value.as_str()),
            None => false,
        },
        None => true,
    }
}

/// Builds the catalog of a listing.
pub fn build_service_index(services: Vec<ServiceRecord>, opt: &Opt) -> (r: StringMap<
    ServiceRecord,
>)
    ensures
        catalog_view(r) == catalog_of(records_view(services@), opt.filter()),
{
    let mut index: StringMap<ServiceRecord> = StringMap::new();
    let ghost all = services@;
    assert(catalog_view(index) =~= catalog_of(records_view(all.take(0)), opt.filter()));
    for service in it: services
        invariant
            it.seq() == all,
            catalog_view(index) == catalog_of(
                records_view(all.take(it.index() as int)),
                opt.filter(),
            ),
    {
        let ghost n = it.index() as int;
        assert(records_view(all.take(n + 1)).drop_last() =~= records_view(all.take(n)));
        assert(records_view(all.take(n + 1)).last() == service@);
        if passes_filter(&service, opt) {
            match extract_service_image(&service) {
                Some(image) => {
                    index.insert(image, service);
                    assert(catalog_view(index) =~= catalog_of(
                        records_view(all.take(n + 1)),
                        opt.filter(),
                    ));
                },
                None => {},
            }
        }
    }
    assert(all.take(all.len() as int) =~= all);
    index
}

/// The specification that rolls a service onto a pushed image. Its
/// container specification names the image of the event with its digest,
/// whatever image it named before, or none; a service without a container
/// specification gets none. The service's version becomes the counter that
/// forces a restart. Nothing else changes.
pub open spec fn planned_spec(service: ServiceRecordView, event: EventView) -> ServiceSpecView {
    ServiceSpecView {
        task_template: TaskSpecView {
            container_spec: match service.spec.task_template.container_spec {
                Some(container_spec) => Some(
                    ContainerSpecView { image: Some(event.pinned_image()) },
                ),
                None => None,
            },
            force_update: Some(service.version_token),
        },
        ..service.spec
    }
}

/// Computes the specification that rolls `service` onto the image of
/// `event`.
pub fn update_spec(service: &ServiceRecord, event: &Event) -> (r: ServiceSpec)
    ensures
        r@ == planned_spec(service@, event@),
{
    let container_spec = match &service.spec.task_template.container_spec {
        Some(_) => Some(ContainerSpec { image: Some(event.pinned_image()) }),
        None => None,
    };
    ServiceSpec {
        name: service.spec.name.clone(),
        labels: service.spec.labels.clone(),
        task_template: TaskSpec { container_spec, force_update: Some(service.version_token) },
    }
}

/// A service without a stack image label is entered under its declared
/// image, cut before the first `@`; one with the label under the label's
/// value, which is not cut; one with neither has no reference.
pub proof fn lemma_service_image(service: ServiceRecordView)
    ensures
        service.spec.labels.contains_key(STACK_IMAGE_LABEL@) ==> service_image(service) == Some(
            service.spec.labels[STACK_IMAGE_LABEL@],
        ),
        !service.spec.labels.contains_key(STACK_IMAGE_LABEL@) ==> service_image(service) == match
            service.spec.declared_image() {
            Some(image) => Some(before(image, '@')),
            None => None,
        },
        service_image(service) is None <==> !service.spec.labels.contains_key(STACK_IMAGE_LABEL@)
            && service.spec.declared_image() is None,
{
}

/// `i` is the last place in the listing of a service that is entered under
/// `key`.
pub open spec fn last_listed_at(
    services: Seq<ServiceRecordView>,
    filter: Option<(Seq<char>, Seq<char>)>,
    key: Seq<char>,
    i: int,
) -> bool {
    &&& 0 <= i < services.len()
    &&& listed(filter, services[i])
    &&& service_image(services[i]) == Some(key)
    &&& forall|j: int|
        i < j < services.len() ==> !(listed(filter, #[trigger] services[j]) && service_image(
            services[j],
        ) == Some(key))
}

/// The catalog holds a reference exactly if some listed service is
/// entered under it, and holds under it the last such service of the
/// listing. So no reference leads to two services, and of two services
/// with one reference the later one stays.
pub proof fn lemma_catalog_lookup(
    services: Seq<ServiceRecordView>,
    filter: Option<(Seq<char>, Seq<char>)>,
    key: Seq<char>,
)
    ensures
        catalog_of(services, filter).contains_key(key) <==> exists|i: int|
            0 <= i < services.len() && listed(filter, #[trigger] services[i]) && service_image(
                services[i],
            ) == Some(key),
        catalog_of(services, filter).contains_key(key) ==> exists|i: int|
            #[trigger] last_listed_at(services, filter, key, i) && catalog_of(services, filter)[key]
                == services[i],
    decreases services.len(),
{
    if services.len() > 0 {
        let front = services.drop_last();
        let last = services.last();
        let n = services.len() - 1;
        lemma_catalog_lookup(front, filter, key);
        let enters = listed(filter, last) && service_image(last) == Some(key);
        if enters {
            assert(listed(filter, services[n]) && service_image(services[n]) == Some(key));
            assert(last_listed_at(services, filter, key, n));
        } else {
            if catalog_of(services, filter).contains_key(key) {
                assert(catalog_of(front, filter).contains_key(key));
                let i = choose|i: int| #[trigger]
                    last_listed_at(front, filter, key, i) && catalog_of(front, filter)[key]
                        == front[i];
                assert(services[i] == front[i]);
                assert forall|j: int| i < j < services.len() implies !(listed(
                    filter,
                    #[trigger] services[j],
                ) && service_image(services[j]) == Some(key)) by {
                    if j < n {
                        assert(front[j] == services[j]);
                    }
                }
                assert(last_listed_at(services, filter, key, i));
            }
            if exists|i: int|
                0 <= i < services.len() && listed(filter, #[trigger] services[i]) && service_image(
                    services[i],
                ) == Some(key) {
                let i = choose|i: int|
                    0 <= i < services.len() && listed(filter, #[trigger] services[i])
                        && service_image(services[i]) == Some(key);
                assert(i < n);
                assert(front[i] == services[i]);
            }
        }
    }
}

/// What the label filter does to the catalog. Every service in the catalog
/// passes the filter and stands under its own reference: with the filter
/// `key=value` it carries just that pair, so one that carries the key with
/// another value, or not at all, is not in it. And a service of the
/// listing that passes the filter and has a reference finds its reference
/// in the catalog; without a filter that is every service with a
/// reference.
pub proof fn lemma_catalog_filter(
    services: Seq<ServiceRecordView>,
    filter: Option<(Seq<char>, Seq<char>)>,
)
    ensures
        forall|key: Seq<char>| #[trigger]
            catalog_of(services, filter).contains_key(key) ==> admits(
                filter,
                catalog_of(services, filter)[key],
            ) && service_image(catalog_of(services, filter)[key]) == Some(key),
        forall|i: int|
            0 <= i < services.len() && admits(filter, #[trigger] services[i]) && service_image(
                services[i],
            ) is Some ==> catalog_of(services, filter).contains_key(service_image(services[i])->0),
        filter is None ==> forall|i: int|
            0 <= i < services.len() && service_image(#[trigger] services[i]) is Some
                ==> catalog_of(services, filter).contains_key(service_image(services[i])->0),
        catalog_of(services, filter).dom().finite(),
        catalog_of(services, filter).len() <= services.len(),
    decreases services.len(),
{
    if services.len() > 0 {
        let front = services.drop_last();
        lemma_catalog_filter(front, filter);
        assert forall|i: int|
            0 <= i < services.len() && admits(filter, #[trigger] services[i]) && service_image(
                services[i],
            ) is Some implies catalog_of(services, filter).contains_key(
            service_image(services[i])->0,
        ) by {
            if i < services.len() - 1 {
                assert(front[i] == services[i]);
            }
        }
    }
}

/// The planned specification differs from the service's own in the image
/// of its container specification and in the counter that forces a
/// restart, and in nothing else that the library holds. A container
/// specification is not made up: a service without one is planned without
/// one. And the plan does not depend on the image that the service ran
/// before.
pub proof fn lemma_plan_changes_image_only(
    service: ServiceRecordView,
    event: EventView,
    image: Option<Seq<char>>,
)
    ensures
        planned_spec(service, event).name == service.spec.name,
        planned_spec(service, event).labels == service.spec.labels,
        planned_spec(service, event).task_template.force_update == Some(service.version_token),
        service.spec.task_template.container_spec is None ==> planned_spec(
            service,
            event,
        ).task_template.container_spec is None,
        service.spec.task_template.container_spec is Some ==> planned_spec(
            service,
            event,
        ).declared_image() == Some(event.image() + "@"@ + event.image_digest),
        service.spec.task_template.container_spec is Some ==> planned_spec(
            ServiceRecordView {
                spec: ServiceSpecView {
                    task_template: TaskSpecView {
                        container_spec: Some(ContainerSpecView { image }),
                        ..service.spec.task_template
                    },
                    ..service.spec
                },
                ..service
            },
            event,
        ) == planned_spec(service, event),
{
}

} // verus!
