//! Construction and delivery plan for a rich "communication" notification: a
//! message from a named sender, with an avatar, rendered by the host's
//! notification centre in conversation style.
//!
//! The library holds the records the notification is built from and the
//! decisions of the delivery pipeline, as a state machine that a platform
//! layer drives: it performs each requested action and reports the event.

mod encoding;
pub mod laws;
pub mod model;
pub mod pipeline;
mod request_id;

pub use model::{
    AvatarSource, DeliveryRequest, Direction, MessageIntent, NotificationContent, Participant,
};
pub use pipeline::{Action, Event, Pipeline, Stage};
