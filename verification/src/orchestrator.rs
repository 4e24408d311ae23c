use vstd::prelude::*;

use crate::events::Event;
use crate::frame_context::FrameContext;
use crate::loop_context::{advance_cursor, lemma_wf_facts, push_to_last, LoopContext};

verus! {

/// What the mode-cycling keyboard chord does next, given the recorder's
/// current mode: Recording -> Playing, Playing -> Idle, Idle -> Recording.
#[derive(Debug, Clone, Copy, PartialEq, Eq, Structural)]
pub enum ModeAction {
    StartRecording,
    StartPlayback,
    StopPlayback,
}

/// Decides which transition the mode-cycling chord performs, from the
/// recorder's current mode.  The caller performs the action: capturing a
/// fresh snapshot for `StartRecording`, or restoring the stored one for
/// `StartPlayback`.
pub fn next_mode_action<S>(ctx: &LoopContext<S>) -> (r: ModeAction)
    ensures
        ctx.is_recording() ==> r == ModeAction::StartPlayback,
        (!ctx.is_recording() && ctx.is_playing()) ==> r == ModeAction::StopPlayback,
        (!ctx.is_recording() && !ctx.is_playing()) ==> r == ModeAction::StartRecording,
{
    if ctx.recording() {
        ModeAction::StartPlayback
    } else if ctx.playing_back() {
        ModeAction::StopPlayback
    } else {
        ModeAction::StartRecording
    }
}

/// Leaves playback and injects a synthetic `ClearInputs` event into the live
/// queue, so that no key appears held down across the playback boundary.
pub fn stop_playback<S>(ctx: &mut LoopContext<S>, input: &mut FrameContext)
    requires
        old(ctx).wf(),
    ensures
        final(ctx).wf(),
        !final(ctx).is_playing(),
        final(ctx).is_recording() == old(ctx).is_recording(),
        final(ctx).has_snapshot() == old(ctx).has_snapshot(),
        old(ctx).has_snapshot() ==> final(ctx).snapshot_view() == old(ctx).snapshot_view(),
        final(ctx).log() == old(ctx).log(),
        final(ctx).cursor() == old(ctx).cursor(),
        final(input).queue() == old(input).queue().push(Event::ClearInputs),
        final(input).viewport() == old(input).viewport(),
{
    ctx.end_playback();
    input.enqueue_event(Event::ClearInputs);
}

/// The per-frame input stage of the frame orchestrator: begins the
/// recorder's frame, then mirrors the live queue into the recorder while
/// recording, or replaces the live queue with the recorded slot while
/// playing back.  Idle, it leaves everything untouched.
///
/// Returns true exactly when the playback wrapped around: the caller must
/// then restore the hosted state from the recorder's snapshot before running
/// the hosted simulation's update for this frame.
pub fn frame_input_stage<S>(ctx: &mut LoopContext<S>, input: &mut FrameContext) -> (restore: bool)
    requires
        old(ctx).wf(),
    ensures
        final(ctx).wf(),
        final(ctx).is_recording() == old(ctx).is_recording(),
        final(ctx).is_playing() == old(ctx).is_playing(),
        final(ctx).has_snapshot() == old(ctx).has_snapshot(),
        old(ctx).has_snapshot() ==> final(ctx).snapshot_view() == old(ctx).snapshot_view(),
        final(input).viewport() == old(input).viewport(),
        (!old(ctx).is_recording() && !old(ctx).is_playing()) ==> {
            &&& *final(ctx) == *old(ctx)
            &&& *final(input) == *old(input)
            &&& !restore
        },
        old(ctx).is_recording() ==> {
            &&& final(ctx).log() == old(ctx).log().push(old(input).queue())
            &&& final(ctx).cursor() == old(ctx).cursor()
            &&& final(input).queue() == old(input).queue()
            &&& !restore
        },
        old(ctx).is_playing() ==> {
            &&& final(ctx).log() == old(ctx).log()
            &&& final(ctx).cursor() == advance_cursor(
                old(ctx).cursor(),
                old(ctx).log().len() as int,
            )
            &&& (restore <==> old(ctx).cursor() + 1 >= old(ctx).log().len())
            &&& final(input).queue() == final(ctx).log()[final(ctx).cursor()]
        },
{
    proof {
        lemma_wf_facts(*old(ctx));
    }
    let restore = ctx.begin_frame();
    proof {
        lemma_wf_facts(*ctx);
    }
    if ctx.recording() {
        let ghost log0 = ctx.log();
        let ghost q = input.queue();
        let n = input.event_count();
        proof {
            assert(q.take(0) =~= Seq::<Event>::empty());
        }
        let mut i: usize = 0;
        while i < n
            invariant
                ctx.wf(),
                ctx.is_recording(),
                !ctx.is_playing(),
                ctx.has_snapshot(),
                ctx.snapshot_view() == old(ctx).snapshot_view(),
                ctx.cursor() == old(ctx).cursor(),
                i <= n,
                n == q.len(),
                *input == *old(input),
                q == input.queue(),
                log0 == old(ctx).log().push(Seq::<Event>::empty()),
                ctx.log() == old(ctx).log().push(q.take(i as int)),
            decreases n - i,
        {
            let ghost before = ctx.log();
            ctx.push_event(input.event_at(i));
            proof {
                assert(q.take(i as int).push(q[i as int]) =~= q.take(i + 1));
                assert(push_to_last(before, q[i as int]) =~= old(ctx).log().push(
                    q.take(i + 1),
                ));
            }
            i = i + 1;
        }
        proof {
            assert(q.take(n as int) =~= q);
        }
    } else if ctx.playing_back() {
        input.clear_events();
        let slot = ctx.playback_events();
        let m = slot.len();
        let mut i: usize = 0;
        while i < m
            invariant
                m == slot@.len(),
                i <= m,
                slot@ == ctx.log()[ctx.cursor()],
                input.queue() == slot@.take(i as int),
                input.viewport() == old(input).viewport(),
            decreases m - i,
        {
            input.enqueue_event(slot[i]);
            proof {
                assert(slot@.take(i as int).push(slot@[i as int]) =~= slot@.take(i + 1));
            }
            i = i + 1;
        }
        proof {
            assert(slot@.take(m as int) =~= slot@);
        }
    }
    restore
}

} // verus!
