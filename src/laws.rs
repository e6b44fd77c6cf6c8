//! What holds of every run of the pipeline, over any sequence of events.
use crate::model::AvatarSource;
use crate::pipeline::{
    image_stage, next_action, next_stage, pipeline_intent, placeholder_bytes, with_stage,
    ActionView, Event, PipelineView, Stage,
};
use vstd::prelude::*;

verus! {

/// The pipeline after the events in `events` arrive, in order.
pub open spec fn run(m: PipelineView, events: Seq<Event>) -> PipelineView
    decreases events.len(),
{
    if events.len() == 0 {
        m
    } else {
        run(with_stage(m, next_stage(m, events[0])), events.drop_first())
    }
}

/// How many delivery requests are submitted while the events in `events`
/// arrive.
pub open spec fn submissions(m: PipelineView, events: Seq<Event>) -> nat
    decreases events.len(),
{
    if events.len() == 0 {
        0
    } else {
        (if next_action(m, events[0], Seq::empty()) is Submit {
            1nat
        } else {
            0nat
        }) + submissions(with_stage(m, next_stage(m, events[0])), events.drop_first())
    }
}

/// Whether a stage still comes before the submission of a request.
pub open spec fn before_submission(s: Stage) -> bool {
    match s {
        Stage::AwaitingEnvironment | Stage::AwaitingImage(_) | Stage::AwaitingIntent
        | Stage::AwaitingContent => true,
        _ => false,
    }
}

/// The events that a host with an identity answers the actions with, when
/// rendering succeeds; `decoded` says whether the image decodes.
pub open spec fn cooperative_events(m: PipelineView, decoded: bool) -> Seq<Event> {
    if image_stage(m) is AwaitingImage {
        seq![
            Event::Environment { has_identity: true },
            Event::ImageDecoded { ok: decoded },
            Event::IntentComposed,
            Event::ContentRendered { ok: true },
            Event::Submitted,
        ]
    } else {
        seq![
            Event::Environment { has_identity: true },
            Event::IntentComposed,
            Event::ContentRendered { ok: true },
            Event::Submitted,
        ]
    }
}

proof fn lemma_unfold(m: PipelineView, e: Event, events: Seq<Event>)
    ensures
        run(m, seq![e] + events) == run(with_stage(m, next_stage(m, e)), events),
        submissions(m, seq![e] + events) == (if next_action(m, e, Seq::empty()) is Submit {
            1nat
        } else {
            0nat
        }) + submissions(with_stage(m, next_stage(m, e)), events),
{
    let all = seq![e] + events;
    assert(all[0] == e);
    assert(all.drop_first() =~= events);
}

/// Once a call has ended, no event changes it or submits anything.
pub proof fn finished_is_final(m: PipelineView, events: Seq<Event>)
    requires
        m.stage is Finished,
    ensures
        run(m, events) == m,
        submissions(m, events) == 0,
    decreases events.len(),
{
    if events.len() > 0 {
        assert(with_stage(m, next_stage(m, events[0])) == m);
        finished_is_final(m, events.drop_first());
    }
}

/// A call submits at most one request before it submits, and none after.
pub proof fn submits_at_most_once(m: PipelineView, events: Seq<Event>)
    ensures
        submissions(m, events) <= (if before_submission(m.stage) {
            1nat
        } else {
            0nat
        }),
    decreases events.len(),
{
    if events.len() > 0 {
        let m2 = with_stage(m, next_stage(m, events[0]));
        submits_at_most_once(m2, events.drop_first());
        if m.stage is Finished {
            finished_is_final(m, events);
        }
    }
}

/// A call whose process has no identity ends with `false` at once, and
/// submits nothing, whatever events follow.
pub proof fn no_identity_no_submission(m: PipelineView, id: Seq<char>, events: Seq<Event>)
    requires
        m.stage == Stage::AwaitingEnvironment,
    ensures
        next_action(m, Event::Environment { has_identity: false }, id) == (ActionView::Finish {
            success: false,
        }),
        run(m, seq![Event::Environment { has_identity: false }] + events).stage == Stage::Finished(
            false,
        ),
        submissions(m, seq![Event::Environment { has_identity: false }] + events) == 0,
{
    let e = Event::Environment { has_identity: false };
    lemma_unfold(m, e, events);
    finished_is_final(with_stage(m, next_stage(m, e)), events);
}

/// On a host with an identity where rendering succeeds, a call submits
/// exactly one request and ends with `true`, whether or not its image
/// decodes, and whatever bytes it was given.
pub proof fn cooperative_host_submits_once(m: PipelineView, decoded: bool)
    requires
        m.stage == Stage::AwaitingEnvironment,
    ensures
        submissions(m, cooperative_events(m, decoded)) == 1,
        run(m, cooperative_events(m, decoded)).stage == Stage::Finished(true),
{
    reveal_with_fuel(run, 6);
    reveal_with_fuel(submissions, 6);
}

/// With no bytes from the caller, the embedded placeholder is decoded, and
/// once decoded it is the sender's image in the composed intent.
pub proof fn missing_bytes_use_placeholder(m: PipelineView, id: Seq<char>)
    requires
        m.stage == Stage::AwaitingEnvironment,
        m.sender_image is None,
        placeholder_bytes() is Some,
    ensures
        next_action(m, Event::Environment { has_identity: true }, id) == (ActionView::DecodeImage {
            bytes: placeholder_bytes().unwrap(),
        }),
        next_stage(m, Event::Environment { has_identity: true }) == Stage::AwaitingImage(
            AvatarSource::Placeholder,
        ),
        next_action(
            with_stage(m, Stage::AwaitingImage(AvatarSource::Placeholder)),
            Event::ImageDecoded { ok: true },
            id,
        ) == (ActionView::ComposeIntent { intent: pipeline_intent(m, AvatarSource::Placeholder) }),
        pipeline_intent(m, AvatarSource::Placeholder).parameter_image == AvatarSource::Placeholder,
        pipeline_intent(m, AvatarSource::Placeholder).sender.avatar == AvatarSource::Placeholder,
{
}

/// An image that fails to decode leaves the sender without an image, and
/// the call goes on exactly as it would have with a decoded image.
pub proof fn failed_decode_changes_no_outcome(m: PipelineView, id: Seq<char>, events: Seq<Event>)
    requires
        m.stage is AwaitingImage,
    ensures
        next_action(m, Event::ImageDecoded { ok: false }, id) == (ActionView::ComposeIntent {
            intent: pipeline_intent(m, AvatarSource::Absent),
        }),
        run(m, seq![Event::ImageDecoded { ok: false }] + events) == run(
            m,
            seq![Event::ImageDecoded { ok: true }] + events,
        ),
        submissions(m, seq![Event::ImageDecoded { ok: false }] + events) == submissions(
            m,
            seq![Event::ImageDecoded { ok: true }] + events,
        ),
{
    lemma_unfold(m, Event::ImageDecoded { ok: false }, events);
    lemma_unfold(m, Event::ImageDecoded { ok: true }, events);
}

/// When rendering fails, the call ends with `false` and submits nothing,
/// whatever events follow.
pub proof fn render_failure_submits_nothing(m: PipelineView, id: Seq<char>, events: Seq<Event>)
    requires
        m.stage == Stage::AwaitingContent,
    ensures
        next_action(m, Event::ContentRendered { ok: false }, id) == (ActionView::Finish {
            success: false,
        }),
        run(m, seq![Event::ContentRendered { ok: false }] + events).stage == Stage::Finished(false),
        submissions(m, seq![Event::ContentRendered { ok: false }] + events) == 0,
{
    let e = Event::ContentRendered { ok: false };
    lemma_unfold(m, e, events);
    finished_is_final(with_stage(m, next_stage(m, e)), events);
}

/// The conversation identifier never changes, and every intent a call
/// composes carries it as given.
pub proof fn conversation_id_kept(m: PipelineView, events: Seq<Event>, e: Event, id: Seq<char>)
    ensures
        run(m, events).conversation_id == m.conversation_id,
        next_action(m, e, id) matches ActionView::ComposeIntent { intent }
            ==> intent.conversation_id == m.conversation_id,
    decreases events.len(),
{
    if events.len() > 0 {
        conversation_id_kept(with_stage(m, next_stage(m, events[0])), events.drop_first(), e, id);
    }
}

} // verus!
