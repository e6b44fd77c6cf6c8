//! The records a communication notification is built from, and their models.
use vstd::prelude::*;

verus! {

broadcast use vstd::string::group_string_axioms;

/// Named visual parameter of an intent under which the sender's avatar is set.
pub const SENDER_PARAMETER: &'static str = "sender";

/// Category identifier of the notification content.
pub const MESSAGE_CATEGORY: &'static str = "message";

/// Handle of the participant who sent the message.
pub const SENDER_HANDLE: &'static str = "1234";

/// Handle of the local user.
pub const SELF_HANDLE: &'static str = "5678";

/// Where the image attached to a participant came from.
#[derive(Clone, Copy, Debug, PartialEq, Eq, Structural)]
pub enum AvatarSource {
    /// Bytes handed in by the caller, decoded by the platform.
    Supplied,
    /// The embedded placeholder image.
    Placeholder,
    /// No image.
    Absent,
}

/// Whether a message arrives at the local user or is sent by them.
#[derive(Clone, Copy, Debug, PartialEq, Eq, Structural)]
pub enum Direction {
    Incoming,
    Outgoing,
}

/// One party of a conversation.
#[derive(Clone, Debug)]
pub struct Participant {
    pub handle: String,
    pub display_name: Option<String>,
    pub avatar: AvatarSource,
    pub is_self: bool,
}

pub ghost struct ParticipantView {
    pub handle: Seq<char>,
    pub display_name: Option<Seq<char>>,
    pub avatar: AvatarSource,
    pub is_self: bool,
}

pub open spec fn opt_string_view(s: Option<String>) -> Option<Seq<char>> {
    match s {
        Some(t) => Some(t@),
        None => None,
    }
}

impl View for Participant {
    type V = ParticipantView;

    open spec fn view(&self) -> ParticipantView {
        ParticipantView {
            handle: self.handle@,
            display_name: opt_string_view(self.display_name),
            avatar: self.avatar,
            is_self: self.is_self,
        }
    }
}

/// A conversational message: who sent it to whom, its text, the conversation
/// it belongs to, and the image set under a named visual parameter.
#[derive(Clone, Debug)]
pub struct MessageIntent {
    pub sender: Participant,
    pub recipient: Participant,
    pub text: String,
    pub conversation_id: String,
    pub direction: Direction,
    pub image_parameter: String,
    pub parameter_image: AvatarSource,
}

pub ghost struct MessageIntentView {
    pub sender: ParticipantView,
    pub recipient: ParticipantView,
    pub text: Seq<char>,
    pub conversation_id: Seq<char>,
    pub direction: Direction,
    pub image_parameter: Seq<char>,
    pub parameter_image: AvatarSource,
}

impl View for MessageIntent {
    type V = MessageIntentView;

    open spec fn view(&self) -> MessageIntentView {
        MessageIntentView {
            sender: self.sender@,
            recipient: self.recipient@,
            text: self.text@,
            conversation_id: self.conversation_id@,
            direction: self.direction,
            image_parameter: self.image_parameter@,
            parameter_image: self.parameter_image,
        }
    }
}

/// The base content of a notification, before the platform attaches the
/// sender's metadata to it.
#[derive(Clone, Debug)]
pub struct NotificationContent {
    pub title: String,
    pub body: String,
    pub category_identifier: String,
}

pub ghost struct NotificationContentView {
    pub title: Seq<char>,
    pub body: Seq<char>,
    pub category_identifier: Seq<char>,
}

impl View for NotificationContent {
    type V = NotificationContentView;

    open spec fn view(&self) -> NotificationContentView {
        NotificationContentView {
            title: self.title@,
            body: self.body@,
            category_identifier: self.category_identifier@,
        }
    }
}

/// A request to present content at once (it carries no trigger).
#[derive(Clone, Debug)]
pub struct DeliveryRequest {
    pub identifier: String,
    pub content: NotificationContent,
}

pub ghost struct DeliveryRequestView {
    pub identifier: Seq<char>,
    pub content: NotificationContentView,
}

impl View for DeliveryRequest {
    type V = DeliveryRequestView;

    open spec fn view(&self) -> DeliveryRequestView {
        DeliveryRequestView { identifier: self.identifier@, content: self.content@ }
    }
}

/// The participant who sent the message.
pub open spec fn sender_model(name: Seq<char>, avatar: AvatarSource) -> ParticipantView {
    ParticipantView {
        handle: SENDER_HANDLE@,
        display_name: Some(name),
        avatar,
        is_self: false,
    }
}

/// The local user: no name and no image.
pub open spec fn self_model() -> ParticipantView {
    ParticipantView { handle: SELF_HANDLE@, display_name: None, avatar: AvatarSource::Absent, is_self: true }
}

/// An incoming message from the sender to the local user, with the sender's
/// image set under the sender parameter.
pub open spec fn intent_model(
    sender_name: Seq<char>,
    avatar: AvatarSource,
    text: Seq<char>,
    conversation_id: Seq<char>,
) -> MessageIntentView {
    MessageIntentView {
        sender: sender_model(sender_name, avatar),
        recipient: self_model(),
        text,
        conversation_id,
        direction: Direction::Incoming,
        image_parameter: SENDER_PARAMETER@,
        parameter_image: avatar,
    }
}

pub open spec fn content_model(title: Seq<char>, body: Seq<char>) -> NotificationContentView {
    NotificationContentView { title, body, category_identifier: MESSAGE_CATEGORY@ }
}

/// Builds a participant from its parts.
pub fn build_participant(
    handle: &str,
    display_name: Option<&str>,
    avatar: AvatarSource,
    is_self: bool,
) -> (r: Participant)
    ensures
        r@.handle == handle@,
        r@.display_name == (match display_name {
            Some(n) => Some(n@),
            None => None::<Seq<char>>,
        }),
        r@.avatar == avatar,
        r@.is_self == is_self,
{
    let display_name = match display_name {
        Some(n) => Some(n.to_string()),
        None => None,
    };
    Participant { handle: handle.to_string(), display_name, avatar, is_self }
}

/// Composes the incoming message that `sender_name` sends to the local user
/// in conversation `conversation_id`, with `avatar` as the sender's image.
pub fn compose_intent(
    sender_name: &str,
    avatar: AvatarSource,
    text: &str,
    conversation_id: &str,
) -> (r: MessageIntent)
    ensures
        r@ == intent_model(sender_name@, avatar, text@, conversation_id@),
{
    let sender = build_participant(SENDER_HANDLE, Some(sender_name), avatar, false);
    let recipient = build_participant(SELF_HANDLE, None, AvatarSource::Absent, true);
    MessageIntent {
        sender,
        recipient,
        text: text.to_string(),
        conversation_id: conversation_id.to_string(),
        direction: Direction::Incoming,
        image_parameter: SENDER_PARAMETER.to_string(),
        parameter_image: avatar,
    }
}

/// The base content of a message notification.
pub fn base_content(title: &str, body: &str) -> (r: NotificationContent)
    ensures
        r@ == content_model(title@, body@),
{
    NotificationContent {
        title: title.to_string(),
        body: body.to_string(),
        category_identifier: MESSAGE_CATEGORY.to_string(),
    }
}

} // verus!
