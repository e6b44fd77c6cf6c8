use communication_notification::{
    Action, AvatarSource, Direction, Event, Pipeline, Stage,
};

const PNG_SIGNATURE: [u8; 8] = [0x89, b'P', b'N', b'G', 0x0d, 0x0a, 0x1a, 0x0a];

fn scenario(bytes: Option<&[u8]>) -> (Pipeline, Action) {
    Pipeline::start("title", "body", "sender", bytes, "conv-id")
}

/// Drives a pipeline as a host with an identity whose platform decodes the
/// image as `decoded` says and renders as `rendered` says; returns every
/// action taken.
fn drive(p: &mut Pipeline, first: Action, decoded: bool, rendered: bool) -> Vec<Action> {
    let mut actions = vec![first];
    loop {
        let event = match actions.last().unwrap() {
            Action::CheckEnvironment => Event::Environment { has_identity: true },
            Action::DecodeImage { .. } => Event::ImageDecoded { ok: decoded },
            Action::ComposeIntent { .. } => Event::IntentComposed,
            Action::RenderContent { .. } => Event::ContentRendered { ok: rendered },
            Action::Submit { .. } => Event::Submitted,
            Action::Finish { .. } | Action::Wait => return actions,
        };
        actions.push(p.step(event));
    }
}

fn submitted(actions: &[Action]) -> Vec<String> {
    actions
        .iter()
        .filter_map(|a| match a {
            Action::Submit { request } => Some(request.identifier.clone()),
            _ => None,
        })
        .collect()
}

fn composed_image(actions: &[Action]) -> Option<AvatarSource> {
    actions.iter().find_map(|a| match a {
        Action::ComposeIntent { intent } => Some(intent.parameter_image),
        _ => None,
    })
}

#[test]
fn ready_host_delivers_message_notification() {
    let (mut p, first) = scenario(None);
    assert!(matches!(first, Action::CheckEnvironment));
    let actions = drive(&mut p, first, true, true);
    assert_eq!(p.outcome(), Some(true));
    assert!(matches!(actions.last(), Some(Action::Finish { success: true })));
    let mut requests = 0;
    for a in &actions {
        match a {
            Action::ComposeIntent { intent } => {
                assert_eq!(intent.image_parameter, "sender");
                assert_eq!(intent.parameter_image, AvatarSource::Placeholder);
                assert_eq!(intent.sender.avatar, AvatarSource::Placeholder);
                assert_eq!(intent.sender.display_name.as_deref(), Some("sender"));
                assert!(!intent.sender.is_self);
                assert!(intent.recipient.is_self);
                assert_eq!(intent.recipient.display_name, None);
                assert_eq!(intent.direction, Direction::Incoming);
                assert_eq!(intent.text, "body");
            }
            Action::Submit { request } => {
                requests += 1;
                assert_eq!(request.content.category_identifier, "message");
                assert_eq!(request.content.title, "title");
                assert_eq!(request.content.body, "body");
            }
            _ => {}
        }
    }
    assert_eq!(requests, 1);
}

#[test]
fn bare_process_returns_false_without_submitting() {
    let (mut p, _) = scenario(None);
    let a = p.step(Event::Environment { has_identity: false });
    assert!(matches!(a, Action::Finish { success: false }));
    assert_eq!(p.outcome(), Some(false));
    // Nothing that arrives afterwards leads to a submission.
    for e in [
        Event::ImageDecoded { ok: true },
        Event::IntentComposed,
        Event::ContentRendered { ok: true },
        Event::Submitted,
    ] {
        assert!(matches!(p.step(e), Action::Wait));
    }
    assert_eq!(p.outcome(), Some(false));
}

#[test]
fn render_failure_returns_false_without_submitting() {
    let (mut p, first) = scenario(None);
    let actions = drive(&mut p, first, true, false);
    assert_eq!(p.outcome(), Some(false));
    assert!(submitted(&actions).is_empty());
    assert!(matches!(actions.last(), Some(Action::Finish { success: false })));
    assert!(matches!(p.step(Event::Submitted), Action::Wait));
}

#[test]
fn identifiers_differ_between_calls() {
    let (mut a, fa) = scenario(None);
    let (mut b, fb) = scenario(None);
    let ia = submitted(&drive(&mut a, fa, true, true));
    let ib = submitted(&drive(&mut b, fb, true, true));
    assert_eq!(ia.len(), 1);
    assert_eq!(ib.len(), 1);
    assert_ne!(ia[0], ib[0]);
    for id in [&ia[0], &ib[0]] {
        assert_eq!(id.len(), 36);
        for (i, c) in id.chars().enumerate() {
            if [8, 13, 18, 23].contains(&i) {
                assert_eq!(c, '-');
            } else {
                assert!(c.is_ascii_hexdigit());
            }
        }
    }
}

#[test]
fn missing_bytes_decode_the_placeholder() {
    let (mut p, _) = scenario(None);
    match p.step(Event::Environment { has_identity: true }) {
        Action::DecodeImage { bytes } => assert_eq!(&bytes[..8], &PNG_SIGNATURE),
        other => panic!("unexpected action {:?}", other),
    }
    assert_eq!(p.stage(), Stage::AwaitingImage(AvatarSource::Placeholder));
}

#[test]
fn supplied_bytes_are_decoded_as_given() {
    let bytes = [1u8, 2, 3];
    let (mut p, _) = scenario(Some(&bytes));
    match p.step(Event::Environment { has_identity: true }) {
        Action::DecodeImage { bytes: b } => assert_eq!(b, vec![1, 2, 3]),
        other => panic!("unexpected action {:?}", other),
    }
    assert_eq!(p.stage(), Stage::AwaitingImage(AvatarSource::Supplied));
}

#[test]
fn malformed_bytes_end_like_missing_bytes() {
    let junk = [0u8, 1, 2, 3];
    let (mut bad, fb) = scenario(Some(&junk));
    let bad_actions = drive(&mut bad, fb, false, true);
    let (mut none, fnone) = scenario(None);
    let none_actions = drive(&mut none, fnone, true, true);
    assert_eq!(bad.outcome(), Some(true));
    assert_eq!(bad.outcome(), none.outcome());
    assert_eq!(submitted(&bad_actions).len(), submitted(&none_actions).len());
    assert_eq!(composed_image(&bad_actions), Some(AvatarSource::Absent));
    assert_eq!(composed_image(&none_actions), Some(AvatarSource::Placeholder));
}

#[test]
fn supplied_image_is_attached_to_sender() {
    let bytes = [7u8; 16];
    let (mut p, first) = scenario(Some(&bytes));
    let actions = drive(&mut p, first, true, true);
    assert_eq!(composed_image(&actions), Some(AvatarSource::Supplied));
    assert_eq!(p.outcome(), Some(true));
}

#[test]
fn conversation_id_reaches_the_intent_unchanged() {
    for id in ["conv-id", "", "thread 42 / ünïcode"] {
        let (mut p, first) = Pipeline::start("t", "b", "s", None, id);
        let actions = drive(&mut p, first, true, true);
        let intent = actions
            .iter()
            .find_map(|a| match a {
                Action::ComposeIntent { intent } => Some(intent.clone()),
                _ => None,
            })
            .unwrap();
        assert_eq!(intent.conversation_id, id);
        assert_eq!(p.outcome(), Some(true));
    }
}

#[test]
fn advance_names_request_with_given_identifier() {
    let (mut p, _) = scenario(None);
    p.advance(Event::Environment { has_identity: true }, String::new());
    p.advance(Event::ImageDecoded { ok: true }, String::new());
    p.advance(Event::IntentComposed, String::new());
    match p.advance(Event::ContentRendered { ok: true }, "req-1".to_string()) {
        Action::Submit { request } => assert_eq!(request.identifier, "req-1"),
        other => panic!("unexpected action {:?}", other),
    }
    assert_eq!(p.stage(), Stage::AwaitingSubmission);
    assert!(matches!(
        p.advance(Event::Submitted, String::new()),
        Action::Finish { success: true }
    ));
}

#[test]
fn out_of_order_event_is_ignored() {
    let (mut p, _) = scenario(None);
    assert!(matches!(p.step(Event::Submitted), Action::Wait));
    assert_eq!(p.stage(), Stage::AwaitingEnvironment);
    assert_eq!(p.outcome(), None);
}
