//! Push notifications of the registry, and the events decoded from them.

use crate::error::{EventField, SeedyError};
use crate::json::{json_from_str, json_get, json_model, json_parsed, member, Json};
use crate::text::same_text;
use vstd::prelude::*;
use vstd::string::*;

verus! {

/// A successful push of one image tag.
#[derive(Debug, PartialEq, Eq)]
pub struct Event {
    pub account_id: String,
    pub region: String,
    pub repository_name: String,
    pub image_digest: String,
    pub image_tag: String,
}

/// An [`Event`] with its strings as sequences of characters.
pub struct EventView {
    pub account_id: Seq<char>,
    pub region: Seq<char>,
    pub repository_name: Seq<char>,
    pub image_digest: Seq<char>,
    pub image_tag: Seq<char>,
}

impl View for Event {
    type V = EventView;

    open spec fn view(&self) -> EventView {
        EventView {
            account_id: self.account_id@,
            region: self.region@,
            repository_name: self.repository_name@,
            image_digest: self.image_digest@,
            image_tag: self.image_tag@,
        }
    }
}

impl EventView {
    /// The reference of the pushed image without its digest:
    /// `{account}.dkr.ecr.{region}.amazonaws.com/{repository}:{tag}`.
    /// Services are matched to events by it.
    pub open spec fn image(self) -> Seq<char> {
        self.account_id + ".dkr.ecr."@ + self.region + ".amazonaws.com/"@ + self.repository_name
            + ":"@ + self.image_tag
    }

    /// The reference of the pushed image with its digest behind an `@`.
    pub open spec fn pinned_image(self) -> Seq<char> {
        self.image() + "@"@ + self.image_digest
    }
}

impl Clone for Event {
    fn clone(&self) -> (r: Self)
        ensures
            r@ == self@,
    {
        Event {
            account_id: self.account_id.clone(),
            region: self.region.clone(),
            repository_name: self.repository_name.clone(),
            image_digest: self.image_digest.clone(),
            image_tag: self.image_tag.clone(),
        }
    }
}

impl Event {
    /// The reference of the pushed image without its digest.
    pub fn image(&self) -> (r: String)
        ensures
            r@ == self@.image(),
    {
        let mut r = self.account_id.clone();
        r.append(".dkr.ecr.");
        r.append(self.region.as_str());
        r.append(".amazonaws.com/");
        r.append(self.repository_name.as_str());
        r.append(":");
        r.append(self.image_tag.as_str());
        r
    }

    /// The reference of the pushed image with its digest.
    pub fn pinned_image(&self) -> (r: String)
        ensures
            r@ == self@.pinned_image(),
    {
        let mut r = self.image();
        r.append("@");
        r.append(self.image_digest.as_str());
        r
    }
}

/// What a decoder returns, with the event as its view.
pub open spec fn decoded_view(r: Result<Option<Event>, SeedyError>) -> Result<
    Option<EventView>,
    SeedyError,
> {
    match r {
        Ok(Some(event)) => Ok(Some(event@)),
        Ok(None) => Ok(None),
        Err(e) => Err(e),
    }
}

/// The string that `object` holds under the name of `field`.
pub open spec fn required_text(object: Json, field: EventField) -> Result<Seq<char>, SeedyError> {
    match member(object, field.name()) {
        None => Err(SeedyError::MissingField { field }),
        Some(Json::Text(text)) => Ok(text),
        Some(_) => Err(SeedyError::UnexpectedType { field }),
    }
}

/// Whether `detail` tells of a push that succeeded. A `detail` that lacks
/// its action type or its result tells nothing and is an error, the
/// action type being looked for first. With both there, only the strings
/// `PUSH` and `SUCCESS` make a trigger; any other pair, be it of members
/// that are no strings, does not.
pub open spec fn trigger_of(detail: Json) -> Result<bool, SeedyError> {
    match (
        member(detail, EventField::ActionType.name()),
        member(detail, EventField::ActionResult.name()),
    ) {
        (None, _) => Err(SeedyError::MissingField { field: EventField::ActionType }),
        (_, None) => Err(SeedyError::MissingField { field: EventField::ActionResult }),
        (Some(action), Some(result)) => Ok(
            action == Json::Text("PUSH"@) && result == Json::Text("SUCCESS"@),
        ),
    }
}

/// The event of a successful push, its five strings taken from `doc` and
/// its `detail`; the first of them that is missing or no string is the
/// error.
pub open spec fn push_event(doc: Json, detail: Json) -> Result<EventView, SeedyError> {
    match required_text(doc, EventField::Account) {
        Err(e) => Err(e),
        Ok(account_id) => match required_text(doc, EventField::Region) {
            Err(e) => Err(e),
            Ok(region) => match required_text(detail, EventField::RepositoryName) {
                Err(e) => Err(e),
                Ok(repository_name) => match required_text(detail, EventField::ImageDigest) {
                    Err(e) => Err(e),
                    Ok(image_digest) => match required_text(detail, EventField::ImageTag) {
                        Err(e) => Err(e),
                        Ok(image_tag) => Ok(
                            EventView {
                                account_id,
                                region,
                                repository_name,
                                image_digest,
                                image_tag,
                            },
                        ),
                    },
                },
            },
        },
    }
}

/// What a notification decodes to.
///
/// A document that is no object, or whose `detail` is missing or no
/// object, is an error, and so is a `detail` without `action-type` or
/// without `result`. A notification of anything but a successful push is
/// one to pass over: `Ok(None)`. Otherwise the event is assembled by
/// [`push_event`], and the first of its five strings that is missing or no
/// string is the error.
///
/// The five strings are asked of a successful push only. A notification
/// that is passed over is not looked at any further, so it is passed over
/// also where it lacks one of them: what is no trigger is no trigger,
/// whatever else it holds.
pub open spec fn decoded(doc: Json) -> Result<Option<EventView>, SeedyError> {
    if !(doc is Object) {
        Err(SeedyError::MalformedEvent)
    } else {
        match member(doc, EventField::Detail.name()) {
            None => Err(SeedyError::MissingField { field: EventField::Detail }),
            Some(detail) => if !(detail is Object) {
                Err(SeedyError::UnexpectedType { field: EventField::Detail })
            } else {
                match trigger_of(detail) {
                    Err(e) => Err(e),
                    Ok(false) => Ok(None),
                    Ok(true) => match push_event(doc, detail) {
                        Err(e) => Err(e),
                        Ok(event) => Ok(Some(event)),
                    },
                }
            },
        }
    }
}

/// What the text of a notification decodes to.
pub open spec fn decoded_text(text: Seq<char>) -> Result<Option<EventView>, SeedyError> {
    match json_parsed(text) {
        None => Err(SeedyError::MalformedEvent),
        Some(doc) => decoded(doc),
    }
}

/// The string that `object` holds under the name of `field`.
pub fn extract_string_value(object: &serde_json::Value, field: EventField) -> (r: Result<
    String,
    SeedyError,
>)
    ensures
        match required_text(json_model(*object), field) {
            Ok(text) => r is Ok && r->Ok_0@ == text,
            Err(e) => r == Err::<String, SeedyError>(e),
        },
{
    match json_get(object, field.key()) {
        None => Err(SeedyError::MissingField { field }),
        Some(value) => match value.as_str() {
            Some(text) => Ok(text.to_owned()),
            None => Err(SeedyError::UnexpectedType { field }),
        },
    }
}

/// Whether `value` is the string `expected`.
fn is_text(value: &serde_json::Value, expected: &str) -> (r: bool)
    ensures
        r == (json_model(*value) == Json::Text(expected@)),
{
    match value.as_str() {
        Some(text) => same_text(text, expected),
        None => false,
    }
}

/// Whether `detail` tells of a push that succeeded.
fn is_trigger(detail: &serde_json::Value) -> (r: Result<bool, SeedyError>)
    ensures
        r == trigger_of(json_model(*detail)),
{
    let action = match json_get(detail, EventField::ActionType.key()) {
        None => {
            return Err(SeedyError::MissingField { field: EventField::ActionType });
        },
        Some(action) => action,
    };
    let result = match json_get(detail, EventField::ActionResult.key()) {
        None => {
            return Err(SeedyError::MissingField { field: EventField::ActionResult });
        },
        Some(result) => result,
    };
    Ok(is_text(action, "PUSH") && is_text(result, "SUCCESS"))
}

/// Decodes a parsed notification.
pub fn decode_event(doc: &serde_json::Value) -> (r: Result<Option<Event>, SeedyError>)
    ensures
        decoded_view(r) == decoded(json_model(*doc)),
{
    if !doc.is_object() {
        return Err(SeedyError::MalformedEvent);
    }
    let detail = match json_get(doc, EventField::Detail.key()) {
        None => {
            return Err(SeedyError::MissingField { field: EventField::Detail });
        },
        Some(detail) => detail,
    };
    if !detail.is_object() {
        return Err(SeedyError::UnexpectedType { field: EventField::Detail });
    }
    if !is_trigger(detail)? {
        return Ok(None);
    }
    let account_id = extract_string_value(doc, EventField::Account)?;
    let region = extract_string_value(doc, EventField::Region)?;
    let repository_name = extract_string_value(detail, EventField::RepositoryName)?;
    let image_digest = extract_string_value(detail, EventField::ImageDigest)?;
    let image_tag = extract_string_value(detail, EventField::ImageTag)?;
    Ok(Some(Event { account_id, region, repository_name, image_digest, image_tag }))
}

/// Decodes the text of a notification.
///
/// The text is read by `serde_json`; what it reads is named by
/// [`json_parsed`], and [`decode_event`] does the rest.
pub fn parse_ecr_event(event_str: &str) -> (r: Result<Option<Event>, SeedyError>)
    ensures
        decoded_view(r) == decoded_text(event_str@),
{
    match json_from_str(event_str) {
        Ok(doc) => decode_event(&doc),
        Err(_) => Err(SeedyError::MalformedEvent),
    }
}

/// A notification of a successful push decodes to the event that holds
/// its five strings as they stand: the account and the region of the
/// document, and the repository, the digest and the tag of its `detail`.
/// The image of that event is
/// `{account}.dkr.ecr.{region}.amazonaws.com/{repository}:{tag}`.
pub proof fn lemma_push_decodes(
    doc: Json,
    detail: Json,
    account: Seq<char>,
    region: Seq<char>,
    repository: Seq<char>,
    digest: Seq<char>,
    tag: Seq<char>,
)
    requires
        doc is Object,
        detail is Object,
        member(doc, "detail"@) == Some(detail),
        member(detail, "action-type"@) == Some(Json::Text("PUSH"@)),
        member(detail, "result"@) == Some(Json::Text("SUCCESS"@)),
        member(doc, "account"@) == Some(Json::Text(account)),
        member(doc, "region"@) == Some(Json::Text(region)),
        member(detail, "repository-name"@) == Some(Json::Text(repository)),
        member(detail, "image-digest"@) == Some(Json::Text(digest)),
        member(detail, "image-tag"@) == Some(Json::Text(tag)),
    ensures
        decoded(doc) matches Ok(Some(event)) && event == (EventView {
            account_id: account,
            region,
            repository_name: repository,
            image_digest: digest,
            image_tag: tag,
        }) && event.image() == account + ".dkr.ecr."@ + region + ".amazonaws.com/"@ + repository
            + ":"@ + tag,
{
}

/// A notification whose action type is not `PUSH`, or whose result is not
/// `SUCCESS`, is passed over, whatever else it holds or lacks. The
/// notification has to be an object with an object as its `detail`, and
/// the `detail` has to name an action type and a result.
pub proof fn lemma_other_notification_is_passed_over(
    doc: Json,
    detail: Json,
    action: Json,
    result: Json,
)
    requires
        doc is Object,
        detail is Object,
        member(doc, "detail"@) == Some(detail),
        member(detail, "action-type"@) == Some(action),
        member(detail, "result"@) == Some(result),
        action != Json::Text("PUSH"@) || result != Json::Text("SUCCESS"@),
    ensures
        decoded(doc) == Ok::<Option<EventView>, SeedyError>(None),
{
}

/// A notification without `action-type` or without `result` is an error,
/// not one to pass over, whatever else it holds.
pub proof fn lemma_action_and_result_are_required(doc: Json, detail: Json)
    requires
        doc is Object,
        detail is Object,
        member(doc, "detail"@) == Some(detail),
    ensures
        member(detail, "action-type"@) is None ==> decoded(doc) == Err::<
            Option<EventView>,
            SeedyError,
        >(SeedyError::MissingField { field: EventField::ActionType }),
        member(detail, "action-type"@) is Some && member(detail, "result"@) is None ==> decoded(doc)
            == Err::<Option<EventView>, SeedyError>(
            SeedyError::MissingField { field: EventField::ActionResult },
        ),
        decoded(doc) is Ok ==> member(detail, "action-type"@) is Some && member(
            detail,
            "result"@,
        ) is Some,
{
}

} // verus!
