use vstd::prelude::*;

use crate::events::Event;

verus! {

/// Where the playback cursor stands after one more frame over a log of `n`
/// slots: one past `c`, wrapping to the start when the end is reached.
pub open spec fn advance_cursor(c: int, n: int) -> int {
    if c + 1 >= n {
        0
    } else {
        c + 1
    }
}

/// The log with `e` appended to its last slot.
pub open spec fn push_to_last(log: Seq<Seq<Event>>, e: Event) -> Seq<Seq<Event>>
    recommends
        log.len() >= 1,
{
    log.update(log.len() - 1, log.last().push(e))
}

/// Returned by `begin_playback` when no recording has ever been made: there
/// is no snapshot to restore, so playback cannot begin.
#[derive(Debug, Clone, Copy, PartialEq, Eq, Structural)]
pub struct NoRecordingError;

/// The loop recorder: owns the recording/playback mode, the snapshot taken
/// when the current recording began, and the per-frame event log.
///
/// The snapshot type `S` is opaque to the recorder.  The caller captures a
/// snapshot of the hosted simulation's state and hands it to
/// `begin_recording`; the recorder hands it back (unchanged) whenever the
/// hosted state must be restored: at `begin_playback` and each time the
/// playback cursor wraps around.
pub struct LoopContext<S> {
    state: Option<S>,
    events: Vec<Vec<Event>>,
    frame_index: usize,
    recording: bool,
    playing_back: bool,
}

impl<S> LoopContext<S> {
    /// The recorded log: one sequence of events per frame, index 0 the first
    /// recorded frame.
    pub closed spec fn log(self) -> Seq<Seq<Event>> {
        Seq::new(self.events@.len(), |i: int| self.events@[i]@)
    }

    /// The playback cursor: which slot of the log the current frame reads.
    pub closed spec fn cursor(self) -> int {
        self.frame_index as int
    }

    pub closed spec fn is_recording(self) -> bool {
        self.recording
    }

    pub closed spec fn is_playing(self) -> bool {
        self.playing_back
    }

    pub closed spec fn has_snapshot(self) -> bool {
        self.state.is_some()
    }

    /// The snapshot captured when the current recording began.
    pub closed spec fn snapshot_view(self) -> S
        recommends
            self.has_snapshot(),
    {
        self.state.unwrap()
    }

    /// Well-formedness: recording and playback are mutually exclusive; either
    /// mode implies a snapshot exists; a snapshot implies the log has at
    /// least the slot that `begin_recording` opened; and during playback the
    /// cursor points at a slot of the log.
    pub closed spec fn wf(self) -> bool {
        &&& !(self.recording && self.playing_back)
        &&& (self.recording ==> self.state.is_some())
        &&& (self.playing_back ==> self.state.is_some())
        &&& (self.state.is_some() ==> self.events@.len() >= 1)
        &&& (self.playing_back ==> (self.frame_index as int) < self.events@.len())
    }

    /// A fresh recorder: idle, no snapshot, empty log.
    pub fn new() -> (r: Self)
        ensures
            r.wf(),
            !r.is_recording(),
            !r.is_playing(),
            !r.has_snapshot(),
            r.log() == Seq::<Seq<Event>>::empty(),
            r.cursor() == 0,
    {
        let r = LoopContext {
            state: None,
            events: Vec::new(),
            frame_index: 0,
            recording: false,
            playing_back: false,
        };
        proof {
            assert(r.log() =~= Seq::<Seq<Event>>::empty());
        }
        r
    }

    /// Whether input events are currently being recorded.
    pub fn recording(&self) -> (r: bool)
        ensures
            r == self.is_recording(),
    {
        self.recording
    }

    /// Whether recorded input is currently being played back.
    pub fn playing_back(&self) -> (r: bool)
        ensures
            r == self.is_playing(),
    {
        self.playing_back
    }

    /// Begins a new recording: stores `snapshot` (a capture of the hosted
    /// state, which any later playback restores), discards any previous log
    /// and snapshot, and opens the empty slot for frame 0, so the first
    /// frame of the recording is capturable without a separate step.
    /// Any previous mode is left.
    pub fn begin_recording(&mut self, snapshot: S)
        ensures
            final(self).wf(),
            final(self).is_recording(),
            !final(self).is_playing(),
            final(self).has_snapshot(),
            final(self).snapshot_view() == snapshot,
            final(self).log() == seq![Seq::<Event>::empty()],
            final(self).cursor() == 0,
    {
        self.state = Some(snapshot);
        self.events = Vec::new();
        self.frame_index = 0;
        self.recording = true;
        self.playing_back = false;
        self.begin_recording_new_frame();
        proof {
            assert(final(self).log() =~= seq![Seq::<Event>::empty()]);
        }
    }

    /// Opens the log slot for a new recorded frame.
    fn begin_recording_new_frame(&mut self)
        requires
            old(self).is_recording(),
        ensures
            final(self).log() == old(self).log().push(Seq::<Event>::empty()),
            final(self).is_recording() == old(self).is_recording(),
            final(self).is_playing() == old(self).is_playing(),
            final(self).has_snapshot() == old(self).has_snapshot(),
            final(self).snapshot_view() == old(self).snapshot_view(),
            final(self).cursor() == old(self).cursor(),
            old(self).wf() ==> final(self).wf(),
    {
        self.events.push(Vec::new());
        proof {
            assert(final(self).log() =~= old(self).log().push(Seq::<Event>::empty()));
        }
    }

    /// Stops capturing input.  The log and the snapshot remain intact for a
    /// later playback.  Already being idle is a safe no-op.
    pub fn end_recording(&mut self)
        requires
            old(self).wf(),
        ensures
            final(self).wf(),
            !final(self).is_recording(),
            final(self).is_playing() == old(self).is_playing(),
            final(self).has_snapshot() == old(self).has_snapshot(),
            old(self).has_snapshot() ==> final(self).snapshot_view() == old(self).snapshot_view(),
            final(self).log() == old(self).log(),
            final(self).cursor() == old(self).cursor(),
            !old(self).is_recording() ==> *final(self) == *old(self),
    {
        self.recording = false;
    }

    /// Appends `event` to the current frame's slot of the log.
    ///
    /// Valid only while recording: `begin_recording` guarantees a slot for
    /// the current frame exists.
    pub fn push_event(&mut self, event: Event)
        requires
            old(self).wf(),
            old(self).is_recording(),
        ensures
            final(self).wf(),
            final(self).log() == push_to_last(old(self).log(), event),
            final(self).is_recording(),
            !final(self).is_playing(),
            final(self).has_snapshot(),
            final(self).snapshot_view() == old(self).snapshot_view(),
            final(self).cursor() == old(self).cursor(),
    {
        let mut slot = self.events.pop().unwrap();
        slot.push(event);
        self.events.push(slot);
        proof {
            assert(final(self).log() =~= push_to_last(old(self).log(), event));
        }
    }

    /// Starts playback from the beginning of the recording.  If currently
    /// recording, ends the recording first.  Fails, changing nothing, when
    /// no recording was ever begun (there is no snapshot to restore).
    ///
    /// On success the caller must restore the hosted state from `snapshot()`
    /// before running the hosted simulation's next frame.
    pub fn begin_playback(&mut self) -> (r: Result<(), NoRecordingError>)
        requires
            old(self).wf(),
        ensures
            final(self).wf(),
            r is Ok <==> old(self).has_snapshot(),
            !final(self).is_recording(),
            r is Err ==> *final(self) == *old(self),
            r is Ok ==> {
                &&& final(self).is_playing()
                &&& final(self).cursor() == 0
                &&& final(self).log() == old(self).log()
                &&& final(self).has_snapshot()
                &&& final(self).snapshot_view() == old(self).snapshot_view()
            },
    {
        if self.state.is_some() {
            if self.recording {
                self.end_recording();
            }
            self.frame_index = 0;
            self.playing_back = true;
            Ok(())
        } else {
            Err(NoRecordingError)
        }
    }

    /// Stops substituting recorded input.  The log and the snapshot remain
    /// for a future playback.  Already being idle is a safe no-op.
    pub fn end_playback(&mut self)
        requires
            old(self).wf(),
        ensures
            final(self).wf(),
            !final(self).is_playing(),
            final(self).is_recording() == old(self).is_recording(),
            final(self).has_snapshot() == old(self).has_snapshot(),
            old(self).has_snapshot() ==> final(self).snapshot_view() == old(self).snapshot_view(),
            final(self).log() == old(self).log(),
            final(self).cursor() == old(self).cursor(),
            !old(self).is_playing() ==> *final(self) == *old(self),
    {
        self.playing_back = false;
    }

    /// Per-frame bookkeeping; call exactly once per orchestrator frame,
    /// before any event is pushed or read for that frame.
    ///
    /// Idle: a no-op.  Recording: opens the slot for the new frame.
    /// Playing back: advances the cursor, wrapping to slot 0 when the end of
    /// the log is reached.  Returns true exactly when the cursor wrapped:
    /// the caller must then restore the hosted state from `snapshot()`, so
    /// that the replay loops deterministically from the recorded start.
    pub fn begin_frame(&mut self) -> (restore: bool)
        requires
            old(self).wf(),
        ensures
            final(self).wf(),
            final(self).is_recording() == old(self).is_recording(),
            final(self).is_playing() == old(self).is_playing(),
            final(self).has_snapshot() == old(self).has_snapshot(),
            old(self).has_snapshot() ==> final(self).snapshot_view() == old(self).snapshot_view(),
            (!old(self).is_recording() && !old(self).is_playing()) ==> {
                &&& *final(self) == *old(self)
                &&& !restore
            },
            old(self).is_recording() ==> {
                &&& final(self).log() == old(self).log().push(Seq::<Event>::empty())
                &&& final(self).cursor() == old(self).cursor()
                &&& !restore
            },
            old(self).is_playing() ==> {
                &&& final(self).log() == old(self).log()
                &&& final(self).cursor() == advance_cursor(old(self).cursor(), old(self).log().len() as int)
                &&& (restore <==> old(self).cursor() + 1 >= old(self).log().len())
                &&& (restore ==> final(self).cursor() == 0)
            },
    {
        let mut restore = false;
        if self.recording {
            self.begin_recording_new_frame();
        }
        if self.playing_back {
            restore = self.begin_playback_new_frame();
        }
        restore
    }

    /// Advances the playback cursor by one frame, wrapping to the start of
    /// the log when the end of the recording is reached.  Returns true on a
    /// wrap: the caller must then restore the snapshot.
    fn begin_playback_new_frame(&mut self) -> (restore: bool)
        requires
            old(self).wf(),
            old(self).is_playing(),
        ensures
            final(self).wf(),
            final(self).is_recording() == old(self).is_recording(),
            final(self).is_playing() == old(self).is_playing(),
            final(self).has_snapshot() == old(self).has_snapshot(),
            final(self).snapshot_view() == old(self).snapshot_view(),
            final(self).log() == old(self).log(),
            final(self).cursor() == advance_cursor(old(self).cursor(), old(self).log().len() as int),
            (restore <==> old(self).cursor() + 1 >= old(self).log().len()),
    {
        let n = self.events.len();
        self.frame_index = self.frame_index + 1;
        if self.frame_index >= n {
            self.frame_index = 0;
            true
        } else {
            false
        }
    }

    /// The recorded slot for the current playback frame, to be substituted
    /// for live input.  Valid only while playing back.
    pub fn playback_events(&self) -> (r: &Vec<Event>)
        requires
            self.wf(),
            self.is_playing(),
        ensures
            r@ == self.log()[self.cursor()],
    {
        &self.events[self.frame_index]
    }

    /// The snapshot captured when the current recording began; the caller
    /// restores the hosted state from it when playback (re)starts.
    pub fn snapshot(&self) -> (r: &S)
        requires
            self.has_snapshot(),
        ensures
            *r == self.snapshot_view(),
    {
        self.state.as_ref().unwrap()
    }
}

/// Mode exclusivity: a well-formed recorder is never recording and playing
/// back at the same time; at every observable point at most one of the two
/// mode queries is true.
pub proof fn lemma_mode_exclusive<S>(ctx: LoopContext<S>)
    requires
        ctx.wf(),
    ensures
        !(ctx.is_recording() && ctx.is_playing()),
{
}

/// What well-formedness guarantees at every observable point: exclusive
/// modes, a snapshot whenever a mode is active, a log with at least the slot
/// `begin_recording` opened whenever a snapshot exists, and a cursor that
/// stands on a slot of the log during playback.
pub proof fn lemma_wf_facts<S>(ctx: LoopContext<S>)
    requires
        ctx.wf(),
    ensures
        !(ctx.is_recording() && ctx.is_playing()),
        ctx.is_recording() ==> ctx.has_snapshot(),
        ctx.is_playing() ==> ctx.has_snapshot(),
        ctx.has_snapshot() ==> ctx.log().len() >= 1,
        ctx.is_playing() ==> 0 <= ctx.cursor() < ctx.log().len(),
{
}

} // verus!
