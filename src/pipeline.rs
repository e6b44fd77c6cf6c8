//! The delivery pipeline as a state machine. Each call of `step` takes the
//! event that answers the last action and returns the next action; the
//! platform layer performs the actions (the identity check, decoding the
//! image, building and recording the intent, rendering, submitting).
use crate::encoding::{base64_decoded, decode_base64};
use crate::model::{
    base_content, compose_intent, content_model, intent_model, AvatarSource, DeliveryRequest,
    DeliveryRequestView, MessageIntent, MessageIntentView, NotificationContent,
    NotificationContentView,
};
use crate::request_id::new_request_identifier;
use vstd::prelude::*;
use vstd::slice::slice_to_vec;

verus! {

/// The avatar used when the caller hands in no image bytes: a PNG, in
/// standard base64.
pub const PLACEHOLDER_AVATAR_PNG: &'static str = "iVBORw0KGgoAAAANSUhEUgAAAIAAAACACAYAAADDPmHLAAABLUlEQVR4nO3SIQEAMAzAsOmcfx+7jIMGhBd0bvfomt8BGAADYAAMgAEwAAbAABgAA2AADIABMAAGwAAYAANgAAyAATAABsAAGAADYAAMgAEwAAbAABgAA2AADIABMAAGwAAYAANggDgDxBkgzgBxBogzQJwB4gwQZ4A4A8QZIM4AcQaIM0CcAeIMEGeAOAPEGSDOAHEGiDNAnAHiDBBngDgDxBkgzgBxBogzQJwB4gwQZ4A4A8QZIM4AcQaIM0CcAeIMEGeAOAPEGSDOAHEGiDNAnAHiDBBngDgDxBkgzgBxBogzQJwB4gwQZ4A4A8QZIM4AcQaIM0CcAeIMEGeAOAPEGSDOAHEGiDNAnAHiDBBngDgDxBkgzgBxBogzQJwB4gwQZ4A4A8QZIM4AcQ+TX4oVvvtE5AAAAABJRU5ErkJggg==";

/// Where a pipeline stands: which answer it waits for, or how it ended.
#[derive(Clone, Copy, Debug, PartialEq, Eq, Structural)]
pub enum Stage {
    /// Waits to learn whether the process has the identity that the
    /// notification centre requires.
    AwaitingEnvironment,
    /// Waits for the platform to decode the image from the given source.
    AwaitingImage(AvatarSource),
    /// Waits for the intent to be built and recorded as an interaction.
    AwaitingIntent,
    /// Waits for the content to be rendered with the intent as provider.
    AwaitingContent,
    /// Waits for the delivery request to be handed to the notification centre.
    AwaitingSubmission,
    /// Ended; `true` when the request was submitted.
    Finished(bool),
}

/// What the platform layer reports after performing an action.
#[derive(Clone, Copy, Debug, PartialEq, Eq, Structural)]
pub enum Event {
    Environment { has_identity: bool },
    ImageDecoded { ok: bool },
    IntentComposed,
    ContentRendered { ok: bool },
    Submitted,
}

/// What the pipeline asks the platform layer to do next.
#[derive(Clone, Debug)]
pub enum Action {
    /// Check that the process carries an application identity.
    CheckEnvironment,
    /// Decode these bytes into an image.
    DecodeImage { bytes: Vec<u8> },
    /// Build this intent (with the decoded image, if any), set the image
    /// under its parameter and record it as an incoming interaction.
    ComposeIntent { intent: MessageIntent },
    /// Render this content with the intent as provider.
    RenderContent { content: NotificationContent },
    /// Submit this request, with the rendered content, for immediate delivery.
    Submit { request: DeliveryRequest },
    /// The call is over, with this result.
    Finish { success: bool },
    /// The event did not answer the pending action: nothing to do.
    Wait,
}

pub ghost enum ActionView {
    CheckEnvironment,
    DecodeImage { bytes: Seq<u8> },
    ComposeIntent { intent: MessageIntentView },
    RenderContent { content: NotificationContentView },
    Submit { request: DeliveryRequestView },
    Finish { success: bool },
    Wait,
}

impl View for Action {
    type V = ActionView;

    open spec fn view(&self) -> ActionView {
        match self {
            Action::CheckEnvironment => ActionView::CheckEnvironment,
            Action::DecodeImage { bytes } => ActionView::DecodeImage { bytes: bytes@ },
            Action::ComposeIntent { intent } => ActionView::ComposeIntent { intent: intent@ },
            Action::RenderContent { content } => ActionView::RenderContent { content: content@ },
            Action::Submit { request } => ActionView::Submit { request: request@ },
            Action::Finish { success } => ActionView::Finish { success: *success },
            Action::Wait => ActionView::Wait,
        }
    }
}

/// One call's inputs and where it stands.
pub struct Pipeline {
    title: String,
    body: String,
    sender_name: String,
    sender_image: Option<Vec<u8>>,
    conversation_id: String,
    stage: Stage,
}

pub ghost struct PipelineView {
    pub title: Seq<char>,
    pub body: Seq<char>,
    pub sender_name: Seq<char>,
    pub sender_image: Option<Seq<u8>>,
    pub conversation_id: Seq<char>,
    pub stage: Stage,
}

impl View for Pipeline {
    type V = PipelineView;

    closed spec fn view(&self) -> PipelineView {
        PipelineView {
            title: self.title@,
            body: self.body@,
            sender_name: self.sender_name@,
            sender_image: match self.sender_image {
                Some(b) => Some(b@),
                None => None,
            },
            conversation_id: self.conversation_id@,
            stage: self.stage,
        }
    }
}

/// The bytes of the embedded placeholder avatar.
pub open spec fn placeholder_bytes() -> Option<Seq<u8>> {
    base64_decoded(PLACEHOLDER_AVATAR_PNG@)
}

/// The stage a pipeline moves to when the identity check succeeds: the
/// caller's bytes are decoded if there are any, else the placeholder's.
pub open spec fn image_stage(m: PipelineView) -> Stage {
    match m.sender_image {
        Some(_) => Stage::AwaitingImage(AvatarSource::Supplied),
        None => match placeholder_bytes() {
            Some(_) => Stage::AwaitingImage(AvatarSource::Placeholder),
            None => Stage::AwaitingIntent,
        },
    }
}

/// The stage after `e` arrives in `m`. An event that does not answer the
/// pending action leaves the stage as it is.
pub open spec fn next_stage(m: PipelineView, e: Event) -> Stage {
    match (m.stage, e) {
        (Stage::AwaitingEnvironment, Event::Environment { has_identity }) => {
            if has_identity {
                image_stage(m)
            } else {
                Stage::Finished(false)
            }
        },
        (Stage::AwaitingImage(_), Event::ImageDecoded { .. }) => Stage::AwaitingIntent,
        (Stage::AwaitingIntent, Event::IntentComposed) => Stage::AwaitingContent,
        (Stage::AwaitingContent, Event::ContentRendered { ok }) => {
            if ok {
                Stage::AwaitingSubmission
            } else {
                Stage::Finished(false)
            }
        },
        (Stage::AwaitingSubmission, Event::Submitted) => Stage::Finished(true),
        _ => m.stage,
    }
}

/// The intent a pipeline composes, with `avatar` as the sender's image.
pub open spec fn pipeline_intent(m: PipelineView, avatar: AvatarSource) -> MessageIntentView {
    intent_model(m.sender_name, avatar, m.body, m.conversation_id)
}

/// The action after `e` arrives in `m`; `identifier` names the delivery
/// request, where one is made.
pub open spec fn next_action(m: PipelineView, e: Event, identifier: Seq<char>) -> ActionView {
    match (m.stage, e) {
        (Stage::AwaitingEnvironment, Event::Environment { has_identity }) => {
            if !has_identity {
                ActionView::Finish { success: false }
            } else {
                match m.sender_image {
                    Some(b) => ActionView::DecodeImage { bytes: b },
                    None => match placeholder_bytes() {
                        Some(p) => ActionView::DecodeImage { bytes: p },
                        None => ActionView::ComposeIntent {
                            intent: pipeline_intent(m, AvatarSource::Absent),
                        },
                    },
                }
            }
        },
        (Stage::AwaitingImage(source), Event::ImageDecoded { ok }) => ActionView::ComposeIntent {
            intent: pipeline_intent(
                m,
                if ok {
                    source
                } else {
                    AvatarSource::Absent
                },
            ),
        },
        (Stage::AwaitingIntent, Event::IntentComposed) => ActionView::RenderContent {
            content: content_model(m.title, m.body),
        },
        (Stage::AwaitingContent, Event::ContentRendered { ok }) => {
            if ok {
                ActionView::Submit {
                    request: DeliveryRequestView {
                        identifier,
                        content: content_model(m.title, m.body),
                    },
                }
            } else {
                ActionView::Finish { success: false }
            }
        },
        (Stage::AwaitingSubmission, Event::Submitted) => ActionView::Finish { success: true },
        _ => ActionView::Wait,
    }
}

/// The identifier of the request an action submits (empty for other actions).
pub open spec fn submitted_identifier(a: ActionView) -> Seq<char> {
    match a {
        ActionView::Submit { request } => request.identifier,
        _ => Seq::empty(),
    }
}

pub open spec fn with_stage(m: PipelineView, stage: Stage) -> PipelineView {
    PipelineView { stage, ..m }
}

impl Pipeline {
    /// Starts a call; its first action is the identity check.
    pub fn start(
        title: &str,
        body: &str,
        sender_name: &str,
        sender_image: Option<&[u8]>,
        conversation_id: &str,
    ) -> (r: (Pipeline, Action))
        ensures
            r.0@ == (PipelineView {
                title: title@,
                body: body@,
                sender_name: sender_name@,
                sender_image: match sender_image {
                    Some(b) => Some(b@),
                    None => None::<Seq<u8>>,
                },
                conversation_id: conversation_id@,
                stage: Stage::AwaitingEnvironment,
            }),
            r.1@ == ActionView::CheckEnvironment,
    {
        let sender_image = match sender_image {
            Some(b) => Some(slice_to_vec(b)),
            None => None,
        };
        let p = Pipeline {
            title: title.to_string(),
            body: body.to_string(),
            sender_name: sender_name.to_string(),
            sender_image,
            conversation_id: conversation_id.to_string(),
            stage: Stage::AwaitingEnvironment,
        };
        (p, Action::CheckEnvironment)
    }

    pub fn stage(&self) -> (r: Stage)
        ensures
            r == self@.stage,
    {
        self.stage
    }

    /// The result of the call: `Some` once it has ended.
    pub fn outcome(&self) -> (r: Option<bool>)
        ensures
            r == (match self@.stage {
                Stage::Finished(b) => Some(b),
                _ => None,
            }),
    {
        match self.stage {
            Stage::Finished(b) => Some(b),
            _ => None,
        }
    }

    /// Takes the answer to the pending action and returns the next action;
    /// a delivery request made here is named `identifier`.
    pub fn advance(&mut self, event: Event, identifier: String) -> (a: Action)
        ensures
            final(self)@ == with_stage(old(self)@, next_stage(old(self)@, event)),
            a@ == next_action(old(self)@, event, identifier@),
    {
        let ghost m = self@;
        let (stage, action) = match (self.stage, event) {
            (Stage::AwaitingEnvironment, Event::Environment { has_identity }) => {
                if !has_identity {
                    (Stage::Finished(false), Action::Finish { success: false })
                } else {
                    match &self.sender_image {
                        Some(b) => (
                            Stage::AwaitingImage(AvatarSource::Supplied),
                            Action::DecodeImage { bytes: slice_to_vec(b.as_slice()) },
                        ),
                        None => match decode_base64(PLACEHOLDER_AVATAR_PNG) {
                            Some(p) => (
                                Stage::AwaitingImage(AvatarSource::Placeholder),
                                Action::DecodeImage { bytes: p },
                            ),
                            None => (
                                Stage::AwaitingIntent,
                                Action::ComposeIntent { intent: self.intent(AvatarSource::Absent) },
                            ),
                        },
                    }
                }
            },
            (Stage::AwaitingImage(source), Event::ImageDecoded { ok }) => {
                let avatar = if ok {
                    source
                } else {
                    AvatarSource::Absent
                };
                (Stage::AwaitingIntent, Action::ComposeIntent { intent: self.intent(avatar) })
            },
            (Stage::AwaitingIntent, Event::IntentComposed) => (
                Stage::AwaitingContent,
                Action::RenderContent { content: base_content(&self.title, &self.body) },
            ),
            (Stage::AwaitingContent, Event::ContentRendered { ok }) => {
                if ok {
                    let content = base_content(&self.title, &self.body);
                    (
                        Stage::AwaitingSubmission,
                        Action::Submit { request: DeliveryRequest { identifier, content } },
                    )
                } else {
                    (Stage::Finished(false), Action::Finish { success: false })
                }
            },
            (Stage::AwaitingSubmission, Event::Submitted) => (
                Stage::Finished(true),
                Action::Finish { success: true },
            ),
            _ => (self.stage, Action::Wait),
        };
        self.stage = stage;
        action
    }

    /// Takes the answer to the pending action and returns the next action; a
    /// delivery request made here gets a fresh random identifier.
    pub fn step(&mut self, event: Event) -> (a: Action)
        ensures
            final(self)@ == with_stage(old(self)@, next_stage(old(self)@, event)),
            a@ == next_action(old(self)@, event, submitted_identifier(a@)),
            a@ is Submit ==> submitted_identifier(a@).len() == 36,
    {
        let needs_identifier = match (self.stage, event) {
            (Stage::AwaitingContent, Event::ContentRendered { ok }) => ok,
            _ => false,
        };
        let identifier = if needs_identifier {
            new_request_identifier()
        } else {
            String::new()
        };
        self.advance(event, identifier)
    }

    fn intent(&self, avatar: AvatarSource) -> (r: MessageIntent)
        ensures
            r@ == pipeline_intent(self@, avatar),
    {
        compose_intent(&self.sender_name, avatar, &self.body, &self.conversation_id)
    }
}

} // verus!
