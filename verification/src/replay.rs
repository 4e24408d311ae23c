use vstd::prelude::*;
use vstd::arithmetic::div_mod::{
    lemma_fundamental_div_mod, lemma_fundamental_div_mod_converse, lemma_mod_bound,
};

use crate::events::Event;
use crate::loop_context::{advance_cursor, push_to_last};

verus! {

/// The log as it stands right after a recording begins: a single empty slot,
/// opened for frame 0.
pub open spec fn initial_log() -> Seq<Seq<Event>> {
    seq![Seq::<Event>::empty()]
}

/// The log after each event of `es` has been pushed in turn onto its last
/// slot, as one `push_event` call per event does.
pub open spec fn fill_slot(log: Seq<Seq<Event>>, es: Seq<Event>) -> Seq<Seq<Event>>
    recommends
        log.len() >= 1,
    decreases es.len(),
{
    if es.len() == 0 {
        log
    } else {
        fill_slot(push_to_last(log, es[0]), es.drop_first())
    }
}

/// Pushing events one at a time appends exactly those events to the last
/// slot of the log and touches no other slot.
pub proof fn lemma_fill_slot(log: Seq<Seq<Event>>, es: Seq<Event>)
    requires
        log.len() >= 1,
    ensures
        fill_slot(log, es) == log.update(log.len() - 1, log.last() + es),
    decreases es.len(),
{
    if es.len() == 0 {
        assert(log.last() + es =~= log.last());
        assert(log.update(log.len() - 1, log.last()) =~= log);
    } else {
        let log1 = push_to_last(log, es[0]);
        lemma_fill_slot(log1, es.drop_first());
        assert(log1.last() == log.last().push(es[0]));
        assert(log.last().push(es[0]) + es.drop_first() =~= log.last() + es);
        assert(log1.update(log.len() - 1, log1.last() + es.drop_first()) =~= log.update(
            log.len() - 1,
            log.last() + es,
        ));
    }
}

/// The log built by a whole recording session whose consecutive frames
/// consumed `frames[0]`, `frames[1]`, and so on: `begin_recording` opens
/// slot 0, each later frame is opened by `begin_frame`, and each slot is
/// filled by one `push_event` call per event of that frame.
pub open spec fn session_log(frames: Seq<Seq<Event>>) -> Seq<Seq<Event>>
    recommends
        frames.len() >= 1,
    decreases frames.len(),
{
    if frames.len() <= 1 {
        fill_slot(initial_log(), frames[0])
    } else {
        fill_slot(session_log(frames.drop_last()).push(Seq::<Event>::empty()), frames.last())
    }
}

/// Replay fidelity, recording half: the log a recording session builds is
/// exactly the per-frame event sequences that were pushed, frame by frame
/// and event by event, in order.
pub proof fn lemma_session_log_exact(frames: Seq<Seq<Event>>)
    requires
        frames.len() >= 1,
    ensures
        session_log(frames) == frames,
    decreases frames.len(),
{
    if frames.len() == 1 {
        lemma_fill_slot(initial_log(), frames[0]);
        assert(Seq::<Event>::empty() + frames[0] =~= frames[0]);
        assert(initial_log().update(0, frames[0]) =~= frames);
    } else {
        lemma_session_log_exact(frames.drop_last());
        let base = frames.drop_last().push(Seq::<Event>::empty());
        lemma_fill_slot(base, frames.last());
        assert(base.last() == Seq::<Event>::empty());
        assert(Seq::<Event>::empty() + frames.last() =~= frames.last());
        assert(base.update(base.len() - 1, frames.last()) =~= frames);
    }
}

/// Where the playback cursor stands after `j` `begin_frame` advances over a
/// log of `n` slots, starting from slot 0 where `begin_playback` put it.
pub open spec fn cursor_after_frames(j: nat, n: int) -> int
    recommends
        n >= 1,
    decreases j,
{
    if j == 0 {
        0
    } else {
        advance_cursor(cursor_after_frames((j - 1) as nat, n), n)
    }
}

/// Looping: the playback cursor cycles through the log.  After `j` frame
/// advances it stands on slot `j % n`; in particular it wraps back to the
/// first recorded frame exactly when a whole multiple of the log length has
/// been consumed.
pub proof fn lemma_cursor_wraps(j: nat, n: int)
    requires
        n >= 1,
    ensures
        cursor_after_frames(j, n) == (j as int) % n,
    decreases j,
{
    if j == 0 {
        assert(0int % n == 0) by {
            lemma_fundamental_div_mod_converse(0, n, 0, 0);
        }
    } else {
        let i = (j - 1) as nat;
        lemma_cursor_wraps(i, n);
        let c = (i as int) % n;
        lemma_mod_bound(i as int, n);
        lemma_fundamental_div_mod(i as int, n);
        let q = (i as int) / n;
        if c + 1 >= n {
            assert((q + 1) * n == n * q + n) by (nonlinear_arith);
            assert(j as int == (q + 1) * n + 0);
            lemma_fundamental_div_mod_converse(j as int, n, q + 1, 0);
        } else {
            assert(q * n == n * q) by (nonlinear_arith);
            assert(j as int == q * n + (c + 1));
            lemma_fundamental_div_mod_converse(j as int, n, q, c + 1);
        }
    }
}

/// Replay fidelity and looping, combined: a recording whose frames consumed
/// the event sequences `frames` plays those sequences back indefinitely,
/// frame-exactly and in order — after `j` playback frame advances the slot
/// delivered for substitution is `frames[j % frames.len()]`.
pub proof fn lemma_replay_fidelity(frames: Seq<Seq<Event>>, j: nat)
    requires
        frames.len() >= 1,
    ensures
        session_log(frames) == frames,
        cursor_after_frames(j, frames.len() as int) == (j as int) % (frames.len() as int),
        session_log(frames)[cursor_after_frames(j, frames.len() as int)] == frames[(
        j as int) % (frames.len() as int)],
{
    lemma_session_log_exact(frames);
    lemma_cursor_wraps(j, frames.len() as int);
    lemma_mod_bound(j as int, frames.len() as int);
}

} // verus!
