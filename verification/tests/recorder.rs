use dev_client::events::{Event, Key};
use dev_client::loop_context::{LoopContext, NoRecordingError};

fn press(key: Key) -> Event {
    Event::KeyPressed { key }
}

fn release(key: Key) -> Event {
    Event::KeyReleased { key }
}

#[test]
fn test_end_recording_when_idle_is_noop() {
    let mut ctx: LoopContext<u64> = LoopContext::new();
    assert!(!ctx.recording());
    assert!(!ctx.playing_back());
    ctx.end_recording();
    assert!(!ctx.recording());
    assert!(!ctx.playing_back());

    ctx.begin_recording(3);
    ctx.push_event(press(Key::Up));
    ctx.end_recording();
    let rec_before = ctx.recording();
    let play_before = ctx.playing_back();
    ctx.end_recording();
    assert_eq!(ctx.recording(), rec_before);
    assert_eq!(ctx.playing_back(), play_before);
}

#[test]
fn test_end_playback_when_idle_is_noop() {
    let mut ctx: LoopContext<u64> = LoopContext::new();
    ctx.end_playback();
    assert!(!ctx.recording());
    assert!(!ctx.playing_back());

    ctx.begin_recording(3);
    ctx.end_recording();
    ctx.begin_playback().unwrap();
    ctx.end_playback();
    let rec_before = ctx.recording();
    let play_before = ctx.playing_back();
    ctx.end_playback();
    assert_eq!(ctx.recording(), rec_before);
    assert_eq!(ctx.playing_back(), play_before);
}

#[test]
fn test_replay_fidelity_over_two_cycles() {
    let frame0 = vec![press(Key::Up)];
    let frame1: Vec<Event> = vec![];
    let frame2 = vec![release(Key::Up), press(Key::Left), Event::ClearInputs];
    let frames = [frame0, frame1, frame2];

    let mut ctx: LoopContext<u64> = LoopContext::new();
    ctx.begin_recording(77);
    for e in &frames[0] {
        ctx.push_event(*e);
    }
    for frame in &frames[1..] {
        ctx.begin_frame();
        for e in frame {
            ctx.push_event(*e);
        }
    }
    ctx.end_recording();

    ctx.begin_playback().unwrap();
    for _cycle in 0..2 {
        for (i, frame) in frames.iter().enumerate() {
            if !(_cycle == 0 && i == 0) {
                ctx.begin_frame();
            }
            assert_eq!(ctx.playback_events(), frame);
        }
    }
}

#[test]
fn test_looping_restores_snapshot() {
    // The hosted simulation's state, modelled as a counter the update
    // mutates each frame.
    let mut hosted: u64 = 10;

    let mut ctx: LoopContext<u64> = LoopContext::new();
    ctx.begin_recording(hosted);
    let at_recording_start = hosted;
    for _frame in 0..3 {
        hosted += 1; // the hosted update mutates its state
        ctx.begin_frame();
    }
    ctx.end_recording();
    assert_eq!(hosted, 13);

    ctx.begin_playback().unwrap();
    hosted = *ctx.snapshot();
    assert_eq!(hosted, at_recording_start);

    // Four slots were recorded; the fourth begin_frame wraps the cursor back
    // to 0 and asks for a restore.
    let mut wrapped = false;
    for _frame in 0..4 {
        hosted += 1;
        wrapped = ctx.begin_frame();
    }
    assert!(wrapped);
    hosted = *ctx.snapshot();
    assert_eq!(hosted, at_recording_start);
}

#[test]
fn test_modes_are_exclusive_at_every_point() {
    let mut ctx: LoopContext<u64> = LoopContext::new();
    let check = |c: &LoopContext<u64>| {
        assert!(!(c.recording() && c.playing_back()));
    };
    check(&ctx);
    ctx.begin_recording(1);
    check(&ctx);
    ctx.push_event(press(Key::Down));
    check(&ctx);
    ctx.begin_frame();
    check(&ctx);
    ctx.end_recording();
    check(&ctx);
    ctx.begin_playback().unwrap();
    check(&ctx);
    ctx.begin_frame();
    check(&ctx);
    ctx.end_playback();
    check(&ctx);
}

#[test]
fn test_begin_playback_ends_recording_first() {
    let mut ctx: LoopContext<u64> = LoopContext::new();
    ctx.begin_recording(42);
    assert!(ctx.recording());
    ctx.begin_playback().unwrap();
    assert!(!ctx.recording());
    assert!(ctx.playing_back());
}

#[test]
fn test_scenario_record_two_frames_then_loop() {
    let mut ctx: LoopContext<u64> = LoopContext::new();
    ctx.begin_recording(0);
    // frame 0
    ctx.push_event(press(Key::Up));
    // frame 1
    ctx.begin_frame();
    ctx.push_event(release(Key::Up));
    ctx.push_event(press(Key::Right));
    ctx.end_recording();

    ctx.begin_playback().unwrap();
    assert_eq!(ctx.playback_events(), &vec![press(Key::Up)]);
    let wrapped = ctx.begin_frame();
    assert!(!wrapped);
    assert_eq!(ctx.playback_events(), &vec![release(Key::Up), press(Key::Right)]);
    let wrapped = ctx.begin_frame();
    assert!(wrapped);
    assert_eq!(ctx.playback_events(), &vec![press(Key::Up)]);
}

#[test]
fn test_begin_playback_without_recording_fails() {
    let hosted: u64 = 5;
    let mut ctx: LoopContext<u64> = LoopContext::new();
    let result = ctx.begin_playback();
    assert_eq!(result, Err(NoRecordingError));
    assert!(!ctx.recording());
    assert!(!ctx.playing_back());
    // No snapshot was restored, so the hosted state is untouched.
    assert_eq!(hosted, 5);
}

#[test]
fn test_new_recording_discards_old_log() {
    let mut ctx: LoopContext<u64> = LoopContext::new();
    ctx.begin_recording(1);
    ctx.push_event(press(Key::Left));
    ctx.begin_frame();
    ctx.push_event(press(Key::Right));
    ctx.end_recording();

    ctx.begin_recording(2);
    ctx.push_event(press(Key::Down));
    ctx.end_recording();
    ctx.begin_playback().unwrap();
    assert_eq!(*ctx.snapshot(), 2);
    assert_eq!(ctx.playback_events(), &vec![press(Key::Down)]);
    // A one-slot recording wraps on every frame advance.
    assert!(ctx.begin_frame());
    assert_eq!(ctx.playback_events(), &vec![press(Key::Down)]);
}
