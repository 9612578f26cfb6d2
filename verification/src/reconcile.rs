//! The reconciliation loop as a state machine.
//!
//! The loop polls the queue, lists the services, and then takes the
//! notifications of the batch one by one: a push that concerns a listed
//! service is authenticated with the registry and applied to the
//! orchestrator, and the notification is acknowledged once the update went
//! through. The machine decides; the caller does the outside work. It
//! starts with [`LoopState::start`], performs the [`Action`] it is handed,
//! and reports the [`Outcome`] to [`step`], which hands it the next one.
//!
//! Matching a message against the catalog takes no outside work, so the
//! loop does not rest there: it matches a message as it turns to it, and
//! rests again where it needs the registry, the orchestrator or the queue.
//! A message that it leaves on the queue is reported as skipped, so that
//! every message ends in an acknowledgement or in a skip.

use crate::credentials::{
    credentials_from_authorization, credentials_of_authorization, tokens_view, CredentialsView,
    RegistryCredentials,
};
use crate::error::SeedyError;
use crate::events::{decoded_text, parse_ecr_event, Event, EventView};
use crate::options::Opt;
use crate::service::{
    build_service_index, catalog_of, catalog_view, planned_spec, records_view, text_view,
    update_spec, ServiceRecord, ServiceRecordView, ServiceSpec, ServiceSpecView,
};
use crate::string_map::StringMap;
use vstd::prelude::*;

verus! {

/// One message of the queue.
#[derive(Debug)]
pub struct Message {
    /// The text of a notification.
    pub body: Option<String>,
    /// What the queue wants back to take the message off.
    pub receipt_handle: Option<String>,
}

/// A [`Message`] with its strings as sequences of characters.
pub struct MessageView {
    pub body: Option<Seq<char>>,
    pub receipt_handle: Option<Seq<char>>,
}

impl View for Message {
    type V = MessageView;

    open spec fn view(&self) -> MessageView {
        MessageView { body: text_view(self.body), receipt_handle: text_view(self.receipt_handle) }
    }
}

/// The views of a list of messages.
pub open spec fn messages_view(messages: Seq<Message>) -> Seq<MessageView> {
    messages.map_values(|message: Message| message@)
}

/// What is to be done about one message.
pub enum Decision {
    /// It asks for nothing: it has no body, tells of something other than
    /// a successful push, or of an image that no listed service runs.
    Pass,
    /// It cannot be read.
    Reject(SeedyError),
    /// A listed service is to be rolled onto the pushed image.
    Update(Event),
}

/// A [`Decision`] with its event as a view.
pub enum DecisionView {
    Pass,
    Reject(SeedyError),
    Update(EventView),
}

impl View for Decision {
    type V = DecisionView;

    open spec fn view(&self) -> DecisionView {
        match self {
            Decision::Pass => DecisionView::Pass,
            Decision::Reject(e) => DecisionView::Reject(*e),
            Decision::Update(event) => DecisionView::Update(event@),
        }
    }
}

/// What is to be done about a message, given the catalog of the batch.
pub open spec fn decision_of(
    message: MessageView,
    catalog: Map<Seq<char>, ServiceRecordView>,
) -> DecisionView {
    match message.body {
        None => DecisionView::Pass,
        Some(body) => match decoded_text(body) {
            Err(e) => DecisionView::Reject(e),
            Ok(None) => DecisionView::Pass,
            Ok(Some(event)) => if catalog.contains_key(event.image()) {
                DecisionView::Update(event)
            } else {
                DecisionView::Pass
            },
        },
    }
}

/// Decides what is to be done about one message.
pub fn process_one(message: &Message, services_by_image: &StringMap<ServiceRecord>) -> (r:
    Decision)
    ensures
        r@ == decision_of(message@, catalog_view(*services_by_image)),
{
    match &message.body {
        None => Decision::Pass,
        Some(body) => match parse_ecr_event(body.as_str()) {
            Err(e) => Decision::Reject(e),
            Ok(None) => Decision::Pass,
            Ok(Some(event)) => {
                let image = event.image();
                if services_by_image.contains_key(image.as_str()) {
                    Decision::Update(event)
                } else {
                    Decision::Pass
                }
            },
        },
    }
}

/// The messages of one poll, the catalog they are matched against, and how
/// far the loop has come with them.
#[derive(Debug)]
pub struct Batch {
    pub messages: Vec<Message>,
    /// The place of the message in work; all before it are done with.
    pub cursor: usize,
    pub catalog: StringMap<ServiceRecord>,
}

/// A [`Batch`] with its messages and its catalog as views.
pub struct BatchView {
    pub messages: Seq<MessageView>,
    pub cursor: nat,
    pub catalog: Map<Seq<char>, ServiceRecordView>,
}

impl View for Batch {
    type V = BatchView;

    open spec fn view(&self) -> BatchView {
        BatchView {
            messages: messages_view(self.messages@),
            cursor: self.cursor as nat,
            catalog: catalog_view(self.catalog),
        }
    }
}

impl BatchView {
    /// The message in work, if any is left.
    pub open spec fn current(self) -> Option<MessageView> {
        if self.cursor < self.messages.len() {
            Some(self.messages[self.cursor as int])
        } else {
            None
        }
    }

    /// The batch with the message in work behind it.
    pub open spec fn advanced(self) -> BatchView {
        if self.cursor < self.messages.len() {
            BatchView { cursor: self.cursor + 1, ..self }
        } else {
            self
        }
    }
}

impl Batch {
    /// Leaves the message in work behind.
    pub fn advance(self) -> (r: Batch)
        ensures
            r@ == self@.advanced(),
    {
        if self.cursor < self.messages.len() {
            Batch { messages: self.messages, cursor: self.cursor + 1, catalog: self.catalog }
        } else {
            self
        }
    }
}

/// Why the loop leaves a message on the queue. The queue delivers it again
/// later.
#[derive(Debug)]
pub enum SkipReason {
    /// The message cannot be read.
    Malformed { error: SeedyError },
    /// The message came without a receipt handle.
    NoReceiptHandle,
    /// The registry did not answer the request for credentials.
    AuthenticationFailed,
    /// The registry answered with a token that cannot be read.
    BadCredential { error: SeedyError },
    /// The service is no longer in the catalog.
    ServiceGone,
    /// The orchestrator turned the update down.
    UpdateFailed,
}

/// What the caller is to do next.
pub enum Action {
    /// Wait for messages on the queue.
    Poll,
    /// List the services that run in the cluster.
    ListServices,
    /// Ask the registry of this account and region for authorization.
    Authenticate { account_id: String, region: String },
    /// Update a service to a new specification, under the version that it
    /// was listed with.
    Apply {
        service_id: String,
        version_token: u64,
        spec: ServiceSpec,
        credentials: Option<RegistryCredentials>,
    },
    /// Take a message off the queue.
    Ack { receipt_handle: String },
    /// Nothing outside: the message in work stays on the queue.
    Skip { reason: SkipReason },
    /// Give up: the queue or the orchestrator cannot be reached.
    Halt,
}

/// An [`Action`] with its strings and its specification as views.
pub enum ActionView {
    Poll,
    ListServices,
    Authenticate { account_id: Seq<char>, region: Seq<char> },
    Apply {
        service_id: Seq<char>,
        version_token: u64,
        spec: ServiceSpecView,
        credentials: Option<CredentialsView>,
    },
    Ack { receipt_handle: Seq<char> },
    Skip { reason: SkipReason },
    Halt,
}

impl View for Action {
    type V = ActionView;

    open spec fn view(&self) -> ActionView {
        match self {
            Action::Poll => ActionView::Poll,
            Action::ListServices => ActionView::ListServices,
            Action::Authenticate { account_id, region } => ActionView::Authenticate {
                account_id: account_id@,
                region: region@,
            },
            Action::Apply { service_id, version_token, spec, credentials } => ActionView::Apply {
                service_id: service_id@,
                version_token: *version_token,
                spec: spec@,
                credentials: match credentials {
                    Some(credentials) => Some(credentials@),
                    None => None,
                },
            },
            Action::Ack { receipt_handle } => ActionView::Ack { receipt_handle: receipt_handle@ },
            Action::Skip { reason } => ActionView::Skip { reason: *reason },
            Action::Halt => ActionView::Halt,
        }
    }
}

/// How the action that the caller was handed went.
pub enum Outcome {
    /// The queue delivered these messages, possibly none.
    Polled { messages: Vec<Message> },
    /// The orchestrator listed these services.
    Listed { services: Vec<ServiceRecord> },
    /// The registry returned authorization entries with these tokens.
    Authenticated { tokens: Vec<Option<String>> },
    /// The orchestrator took the update.
    Applied,
    /// The queue took the message off.
    Acked,
    /// The message was left where it is.
    Skipped,
    /// The action failed. The loop does not ask why: an update that the
    /// orchestrator turned down and one that did not reach it are the same
    /// to it, and both leave the message on the queue.
    Failed,
}

/// An [`Outcome`] with what it carries as views.
pub enum OutcomeView {
    Polled { messages: Seq<MessageView> },
    Listed { services: Seq<ServiceRecordView> },
    Authenticated { tokens: Seq<Option<Seq<char>>> },
    Applied,
    Acked,
    Skipped,
    Failed,
}

impl View for Outcome {
    type V = OutcomeView;

    open spec fn view(&self) -> OutcomeView {
        match self {
            Outcome::Polled { messages } => OutcomeView::Polled {
                messages: messages_view(messages@),
            },
            Outcome::Listed { services } => OutcomeView::Listed {
                services: records_view(services@),
            },
            Outcome::Authenticated { tokens } => OutcomeView::Authenticated {
                tokens: tokens_view(tokens@),
            },
            Outcome::Applied => OutcomeView::Applied,
            Outcome::Acked => OutcomeView::Acked,
            Outcome::Skipped => OutcomeView::Skipped,
            Outcome::Failed => OutcomeView::Failed,
        }
    }
}

/// Where the loop stands.
pub enum LoopState {
    /// Waiting for messages.
    Polling,
    /// Waiting for the listing against which the messages are matched.
    Listing { messages: Vec<Message> },
    /// Leaving the message in work on the queue.
    Skipping { batch: Batch },
    /// Waiting for the registry's authorization for the event of the
    /// message in work.
    Authenticating { batch: Batch, event: Event },
    /// Waiting for the orchestrator to take the update.
    Applying { batch: Batch },
    /// Waiting for the queue to take the message in work off.
    Acking { batch: Batch },
}

/// A [`LoopState`] with what it holds as views.
pub enum LoopStateView {
    Polling,
    Listing { messages: Seq<MessageView> },
    Skipping { batch: BatchView },
    Authenticating { batch: BatchView, event: EventView },
    Applying { batch: BatchView },
    Acking { batch: BatchView },
}

impl View for LoopState {
    type V = LoopStateView;

    open spec fn view(&self) -> LoopStateView {
        match self {
            LoopState::Polling => LoopStateView::Polling,
            LoopState::Listing { messages } => LoopStateView::Listing {
                messages: messages_view(messages@),
            },
            LoopState::Skipping { batch } => LoopStateView::Skipping { batch: batch@ },
            LoopState::Authenticating { batch, event } => LoopStateView::Authenticating {
                batch: batch@,
                event: event@,
            },
            LoopState::Applying { batch } => LoopStateView::Applying { batch: batch@ },
            LoopState::Acking { batch } => LoopStateView::Acking { batch: batch@ },
        }
    }
}

/// The message in work is done with, but for taking it off the queue: the
/// loop acknowledges it, or skips it if it has no receipt handle.
pub open spec fn acknowledge(batch: BatchView) -> (LoopStateView, ActionView) {
    match batch.current() {
        Some(MessageView { receipt_handle: Some(receipt_handle), .. }) => (
            LoopStateView::Acking { batch },
            ActionView::Ack { receipt_handle },
        ),
        _ => (
            LoopStateView::Skipping { batch },
            ActionView::Skip { reason: SkipReason::NoReceiptHandle },
        ),
    }
}

/// The loop looks at the message in work, which it has not looked at
/// before. With none left it polls again. A message that asks for nothing
/// is acknowledged, one that cannot be read is skipped, and for a push
/// that concerns a listed service the registry is asked for
/// authorization.
pub open spec fn examine(batch: BatchView) -> (LoopStateView, ActionView) {
    match batch.current() {
        None => (LoopStateView::Polling, ActionView::Poll),
        Some(message) => match decision_of(message, batch.catalog) {
            DecisionView::Pass => acknowledge(batch),
            DecisionView::Reject(error) => (
                LoopStateView::Skipping { batch },
                ActionView::Skip { reason: SkipReason::Malformed { error } },
            ),
            DecisionView::Update(event) => (
                LoopStateView::Authenticating { batch, event },
                ActionView::Authenticate { account_id: event.account_id, region: event.region },
            ),
        },
    }
}

/// The registry has answered: with credentials that can be read, or with
/// none, the update of the matched service is applied; else the message is
/// skipped.
pub open spec fn authorized(batch: BatchView, event: EventView, tokens: Seq<Option<Seq<char>>>) -> (
    LoopStateView,
    ActionView,
) {
    match credentials_of_authorization(tokens) {
        Err(error) => (
            LoopStateView::Skipping { batch },
            ActionView::Skip { reason: SkipReason::BadCredential { error } },
        ),
        Ok(credentials) => if batch.catalog.contains_key(event.image()) {
            let service = batch.catalog[event.image()];
            (
                LoopStateView::Applying { batch },
                ActionView::Apply {
                    service_id: service.id,
                    version_token: service.version_token,
                    spec: planned_spec(service, event),
                    credentials,
                },
            )
        } else {
            (
                LoopStateView::Skipping { batch },
                ActionView::Skip { reason: SkipReason::ServiceGone },
            )
        },
    }
}

/// The state that follows `state` on `outcome`, and the action to perform
/// next.
///
/// An outcome other than the success of the action that the state waits
/// for counts as its failure. A failure of polling or listing halts the
/// loop; a failure on one message leaves that message on the queue and the
/// loop goes on to the next.
pub open spec fn next(
    state: LoopStateView,
    outcome: OutcomeView,
    filter: Option<(Seq<char>, Seq<char>)>,
) -> (LoopStateView, ActionView) {
    match state {
        LoopStateView::Polling => match outcome {
            OutcomeView::Polled { messages } => (
                LoopStateView::Listing { messages },
                ActionView::ListServices,
            ),
            _ => (LoopStateView::Polling, ActionView::Halt),
        },
        LoopStateView::Listing { messages } => match outcome {
            OutcomeView::Listed { services } => examine(
                BatchView { messages, cursor: 0, catalog: catalog_of(services, filter) },
            ),
            _ => (LoopStateView::Polling, ActionView::Halt),
        },
        LoopStateView::Skipping { batch } => examine(batch.advanced()),
        LoopStateView::Authenticating { batch, event } => match outcome {
            OutcomeView::Authenticated { tokens } => authorized(batch, event, tokens),
            _ => (
                LoopStateView::Skipping { batch },
                ActionView::Skip { reason: SkipReason::AuthenticationFailed },
            ),
        },
        LoopStateView::Applying { batch } => match outcome {
            OutcomeView::Applied => acknowledge(batch),
            _ => (
                LoopStateView::Skipping { batch },
                ActionView::Skip { reason: SkipReason::UpdateFailed },
            ),
        },
        LoopStateView::Acking { batch } => examine(batch.advanced()),
    }
}

fn acknowledge_message(batch: Batch) -> (r: (LoopState, Action))
    ensures
        (r.0@, r.1@) == acknowledge(batch@),
{
    if batch.cursor < batch.messages.len() {
        match &batch.messages[batch.cursor].receipt_handle {
            Some(receipt_handle) => {
                let action = Action::Ack { receipt_handle: receipt_handle.clone() };
                return (LoopState::Acking { batch }, action);
            },
            None => {},
        }
    }
    (
        LoopState::Skipping { batch },
        Action::Skip { reason: SkipReason::NoReceiptHandle },
    )
}

fn examine_message(batch: Batch) -> (r: (LoopState, Action))
    ensures
        (r.0@, r.1@) == examine(batch@),
{
    if batch.cursor >= batch.messages.len() {
        return (LoopState::Polling, Action::Poll);
    }
    match process_one(&batch.messages[batch.cursor], &batch.catalog) {
        Decision::Pass => acknowledge_message(batch),
        Decision::Reject(error) => (
            LoopState::Skipping { batch },
            Action::Skip { reason: SkipReason::Malformed { error } },
        ),
        Decision::Update(event) => {
            let action = Action::Authenticate {
                account_id: event.account_id.clone(),
                region: event.region.clone(),
            };
            (LoopState::Authenticating { batch, event }, action)
        },
    }
}

fn apply_update(batch: Batch, event: Event, tokens: Vec<Option<String>>) -> (r: (
    LoopState,
    Action,
))
    ensures
        (r.0@, r.1@) == authorized(batch@, event@, tokens_view(tokens@)),
{
    match credentials_from_authorization(&tokens) {
        Err(error) => (
            LoopState::Skipping { batch },
            Action::Skip { reason: SkipReason::BadCredential { error } },
        ),
        Ok(credentials) => {
            let image = event.image();
            match batch.catalog.get(image.as_str()) {
                Some(service) => {
                    let action = Action::Apply {
                        service_id: service.id.clone(),
                        version_token: service.version_token,
                        spec: update_spec(service, &event),
                        credentials,
                    };
                    (LoopState::Applying { batch }, action)
                },
                None => (
                    LoopState::Skipping { batch },
                    Action::Skip { reason: SkipReason::ServiceGone },
                ),
            }
        },
    }
}

impl LoopState {
    /// The state in which the loop starts, and its first action.
    pub fn start() -> (r: (LoopState, Action))
        ensures
            r.0@ == LoopStateView::Polling,
            r.1@ == ActionView::Poll,
    {
        (LoopState::Polling, Action::Poll)
    }
}

/// Takes the loop one step on: from the state it was in and the outcome of
/// the action it had asked for, to the state that follows and the action
/// to perform next.
pub fn step(state: LoopState, outcome: Outcome, opt: &Opt) -> (r: (LoopState, Action))
    ensures
        (r.0@, r.1@) == next(state@, outcome@, opt.filter()),
{
    match state {
        LoopState::Polling => match outcome {
            Outcome::Polled { messages } => (LoopState::Listing { messages }, Action::ListServices),
            _ => (LoopState::Polling, Action::Halt),
        },
        LoopState::Listing { messages } => match outcome {
            Outcome::Listed { services } => {
                let catalog = build_service_index(services, opt);
                examine_message(Batch { messages, cursor: 0, catalog })
            },
            _ => (LoopState::Polling, Action::Halt),
        },
        LoopState::Skipping { batch } => examine_message(batch.advance()),
        LoopState::Authenticating { batch, event } => match outcome {
            Outcome::Authenticated { tokens } => apply_update(batch, event, tokens),
            _ => (
                LoopState::Skipping { batch },
                Action::Skip { reason: SkipReason::AuthenticationFailed },
            ),
        },
        LoopState::Applying { batch } => match outcome {
            Outcome::Applied => acknowledge_message(batch),
            _ => (
                LoopState::Skipping { batch },
                Action::Skip { reason: SkipReason::UpdateFailed },
            ),
        },
        LoopState::Acking { batch } => examine_message(batch.advance()),
    }
}

/// The batch that a state works on.
pub open spec fn batch_of(state: LoopStateView) -> Option<BatchView> {
    match state {
        LoopStateView::Polling => None,
        LoopStateView::Listing { .. } => None,
        LoopStateView::Skipping { batch } => Some(batch),
        LoopStateView::Authenticating { batch, .. } => Some(batch),
        LoopStateView::Applying { batch } => Some(batch),
        LoopStateView::Acking { batch } => Some(batch),
    }
}

/// A state that works on a batch has a message in work. The loop starts
/// in such a state and never leaves them.
pub open spec fn in_work(state: LoopStateView) -> bool {
    match batch_of(state) {
        Some(batch) => batch.current() is Some,
        None => true,
    }
}

/// Every step leads from a state with a message in work to another one.
pub proof fn lemma_step_keeps_message_in_work(
    state: LoopStateView,
    outcome: OutcomeView,
    filter: Option<(Seq<char>, Seq<char>)>,
)
    requires
        in_work(state),
    ensures
        in_work(LoopStateView::Polling),
        in_work(next(state, outcome, filter).0),
{
}

/// Within a batch the loop takes the messages in the order of their
/// receipt, one at a time, and matches them all against one catalog. A
/// step leaves the messages and the catalog as they are. It stays with the
/// message in work until that one has been acknowledged or skipped, and
/// then moves on to the one behind it; behind the last one it polls
/// again.
pub proof fn lemma_step_keeps_order(
    state: LoopStateView,
    outcome: OutcomeView,
    filter: Option<(Seq<char>, Seq<char>)>,
)
    requires
        in_work(state),
    ensures
        match (batch_of(state), batch_of(next(state, outcome, filter).0)) {
            (Some(before), Some(after)) => {
                &&& after.messages == before.messages
                &&& after.catalog == before.catalog
                &&& after.cursor == if state is Acking || state is Skipping {
                    before.cursor + 1
                } else {
                    before.cursor
                }
            },
            (Some(before), None) => {
                &&& state is Acking || state is Skipping
                &&& before.cursor + 1 == before.messages.len()
                &&& next(state, outcome, filter) == (LoopStateView::Polling, ActionView::Poll)
            },
            _ => true,
        },
{
}

/// The listing is asked for once per batch, and the catalog of the batch
/// is the one of that listing.
pub proof fn lemma_listing_opens_batch(
    messages: Seq<MessageView>,
    services: Seq<ServiceRecordView>,
    filter: Option<(Seq<char>, Seq<char>)>,
)
    ensures
        next(LoopStateView::Polling, OutcomeView::Polled { messages }, filter) == (
            LoopStateView::Listing { messages },
            ActionView::ListServices,
        ),
        match batch_of(
            next(LoopStateView::Listing { messages }, OutcomeView::Listed { services }, filter).0,
        ) {
            Some(batch) => batch.messages == messages && batch.catalog == catalog_of(
                services,
                filter,
            ),
            None => messages.len() == 0,
        },
{
}

/// A message is taken off the queue only when its update has gone through
/// or when it asks for nothing; and it is the message in work that is
/// taken off.
pub proof fn lemma_ack_is_earned(
    state: LoopStateView,
    outcome: OutcomeView,
    filter: Option<(Seq<char>, Seq<char>)>,
)
    ensures
        next(state, outcome, filter).1 matches ActionView::Ack { receipt_handle } ==> {
            &&& next(state, outcome, filter).0 matches LoopStateView::Acking { batch }
            &&& batch.current() matches Some(message)
            &&& message.receipt_handle == Some(receipt_handle)
            &&& {
                ||| state == (LoopStateView::Applying { batch }) && outcome is Applied
                ||| decision_of(message, batch.catalog) is Pass
            }
        },
{
}

/// An update is asked for only after the registry has answered, and only
/// for the service that the catalog holds under the image of the event:
/// under the version that the service was listed with, and with the
/// specification planned for it, whose container specification, if the
/// service has one, names the image of the event with its digest.
pub proof fn lemma_apply_is_planned(
    state: LoopStateView,
    outcome: OutcomeView,
    filter: Option<(Seq<char>, Seq<char>)>,
)
    ensures
        next(state, outcome, filter).1 matches ActionView::Apply {
            service_id,
            version_token,
            spec,
            credentials,
        } ==> {
            &&& state matches LoopStateView::Authenticating { batch, event }
            &&& outcome matches OutcomeView::Authenticated { tokens }
            &&& credentials_of_authorization(tokens) == Ok::<Option<CredentialsView>, SeedyError>(
                credentials,
            )
            &&& batch.catalog.contains_key(event.image())
            &&& service_id == batch.catalog[event.image()].id
            &&& version_token == batch.catalog[event.image()].version_token
            &&& spec == planned_spec(batch.catalog[event.image()], event)
            &&& spec.task_template.force_update == Some(version_token)
            &&& spec.task_template.container_spec is Some ==> spec.declared_image() == Some(
                event.pinned_image(),
            )
            &&& next(state, outcome, filter).0 == (LoopStateView::Applying { batch })
        },
{
}

/// A request to the registry or an update that fails costs the message
/// nothing but time: it stays on the queue, and the loop goes on to the
/// next message.
pub proof fn lemma_failure_leaves_message(
    state: LoopStateView,
    outcome: OutcomeView,
    filter: Option<(Seq<char>, Seq<char>)>,
)
    requires
        state is Authenticating || state is Applying,
        outcome is Failed,
    ensures
        next(state, outcome, filter).1 is Skip,
        next(state, outcome, filter).0 == (LoopStateView::Skipping { batch: batch_of(state)->0 }),
{
}

} // verus!
