use punktfunk_webos::loading::{plane_config, LoadAction, LoadReply, Loading, OpusPlane, VideoInfo};
use punktfunk_webos::ndl::NdlVideo;

const MS: u64 = 1_000_000;
const TIMEOUT: u64 = 3_000 * MS;

fn ok(now_ns: u64) -> LoadReply {
    LoadReply { ok: true, completed: false, now_ns, unloads: 0 }
}

fn completed(now_ns: u64) -> LoadReply {
    LoadReply { completed: true, ..ok(now_ns) }
}

fn failed(now_ns: u64) -> LoadReply {
    LoadReply { ok: false, ..ok(now_ns) }
}

/// Brings a load with audio to the point where the load has been requested at 5 ms.
fn requested() -> Loading {
    let mut l = NdlVideo::load(3840, 2160, 2, true, TIMEOUT);
    assert!(matches!(l.next(ok(0)), LoadAction::ResolveSymbols));
    assert!(matches!(l.next(ok(0)), LoadAction::Init));
    assert!(matches!(l.next(ok(0)), LoadAction::CountUnloads));
    assert!(matches!(l.next(LoadReply { unloads: 4, ..ok(0) }), LoadAction::Arm));
    match l.next(ok(5 * MS)) {
        LoadAction::Issue { info } => {
            assert_eq!(info.video, VideoInfo { width: 3840, height: 2160, kind: 2, unknown1: 0 });
            assert_eq!(info.audio, Some(plane_config()));
        }
        other => panic!("{other:?}"),
    }
    l
}

/// Follows a load from the unload to the video-only request.
fn falls_back(l: &mut Loading) {
    assert!(matches!(l.next(ok(0)), LoadAction::Settle { unloads_before: 4 }));
    assert!(matches!(l.next(ok(0)), LoadAction::Arm));
    match l.next(ok(100 * MS)) {
        LoadAction::Issue { info } => assert_eq!(info.audio, None),
        other => panic!("{other:?}"),
    }
}

#[test]
fn the_audio_plane_is_stereo_opus() {
    let plane = OpusPlane {
        kind: 3,
        unknown1: 0,
        channels: 2,
        unknown2: 0,
        sample_rate_khz: 48,
        stream_header: false,
    };
    assert_eq!(plane_config(), plane);
}

#[test]
fn an_audio_load_primes_until_it_completes() {
    let mut l = requested();
    // Eight packets of lead at the start, none fed twice.
    let mut action = l.next(ok(10 * MS));
    for pts in (0..40).step_by(5) {
        assert!(matches!(action, LoadAction::FeedSilence { pts_ms } if pts_ms == pts), "{action:?}");
        action = l.next(ok(10 * MS));
    }
    assert!(matches!(action, LoadAction::AwaitCompletion));
    // 12 ms later the target is 52 ms.
    action = l.next(ok(22 * MS));
    for pts in [40, 45, 50] {
        assert!(matches!(action, LoadAction::FeedSilence { pts_ms } if pts_ms == pts), "{action:?}");
        action = l.next(ok(22 * MS));
    }
    assert!(matches!(action, LoadAction::AwaitCompletion));
    match l.next(completed(30 * MS)) {
        LoadAction::Done { video } => {
            assert!(video.audio && video.load_confirmed);
            // The last stamp fed, not the next one.
            assert_eq!(video.last_audio_pts_ms, 50);
            assert_eq!(video.load_requested_ns, 5 * MS);
            assert_eq!(video.load_instant_ns, 30 * MS);
            assert_eq!((video.last_real_feed_ms, video.last_video_feed_ms), (0, 0));
            assert!(!video.video_drives_clock);
            assert!(video.pending_hdr.is_none() && video.applied_hdr.is_none());
        }
        other => panic!("{other:?}"),
    }
    assert!(matches!(l.next(ok(0)), LoadAction::Ended));
}

#[test]
fn an_audio_load_that_takes_too_long_is_retried_without_audio() {
    let mut l = requested();
    let mut action = l.next(ok(10 * MS));
    while matches!(action, LoadAction::FeedSilence { .. }) {
        action = l.next(ok(10 * MS));
    }
    assert!(matches!(l.next(ok(10 * MS + TIMEOUT)), LoadAction::Discard));
    assert!(matches!(l.next(ok(0)), LoadAction::Unload));
    falls_back(&mut l);
    assert!(matches!(l.next(ok(110 * MS)), LoadAction::WaitCompleted));
    match l.next(ok(900 * MS)) {
        LoadAction::Done { video } => {
            assert!(!video.audio && !video.load_confirmed);
            assert_eq!(video.last_audio_pts_ms, 0);
            assert_eq!(video.load_requested_ns, 100 * MS);
        }
        other => panic!("{other:?}"),
    }
}

#[test]
fn a_refused_audio_load_is_retried_without_audio() {
    let mut l = requested();
    assert!(matches!(l.next(failed(10 * MS)), LoadAction::Unload));
    falls_back(&mut l);
    assert!(matches!(l.next(failed(0)), LoadAction::Failed));
    assert!(matches!(l.next(ok(0)), LoadAction::Ended));
}

#[test]
fn refused_silence_ends_priming() {
    // The load had completed meanwhile: the session stands, and the refused stamp counts as fed.
    let mut l = requested();
    l.next(ok(10 * MS));
    l.next(ok(10 * MS));
    match l.next(LoadReply { ok: false, ..completed(12 * MS) }) {
        LoadAction::Done { video } => assert_eq!((video.audio, video.last_audio_pts_ms), (true, 5)),
        other => panic!("{other:?}"),
    }
    // It had not: the session is dropped.
    let mut l = requested();
    l.next(ok(10 * MS));
    assert!(matches!(l.next(failed(12 * MS)), LoadAction::Discard));
}

#[test]
fn a_load_without_audio_goes_straight_to_the_request() {
    let mut l = NdlVideo::load(1280, 720, 1, false, TIMEOUT);
    l.next(ok(0));
    l.next(ok(0));
    assert!(matches!(l.next(ok(0)), LoadAction::Arm));
    assert!(matches!(l.next(ok(7)), LoadAction::Issue { info } if info.audio.is_none()));
    assert!(matches!(l.next(ok(8)), LoadAction::WaitCompleted));
    assert!(matches!(l.next(completed(9)), LoadAction::Done { video } if video.load_confirmed && !video.audio));
}

#[test]
fn preparation_failures_fail_the_load() {
    for steps in 0..3 {
        let mut l = NdlVideo::load(1280, 720, 1, true, TIMEOUT);
        for _ in 0..steps {
            l.next(ok(0));
        }
        assert!(matches!(l.next(failed(0)), LoadAction::Failed));
        assert!(matches!(l.next(ok(0)), LoadAction::Ended));
    }
}

#[test]
fn eight_packets_of_silence_end_at_the_stamp_of_the_eighth() {
    let mut l = requested();
    let mut action = l.next(ok(10 * MS));
    let mut fed = Vec::new();
    while let LoadAction::FeedSilence { pts_ms } = action {
        fed.push(pts_ms);
        action = l.next(ok(10 * MS));
    }
    assert_eq!(fed, [0, 5, 10, 15, 20, 25, 30, 35]);
    match l.next(completed(11 * MS)) {
        LoadAction::Done { video } => {
            assert_eq!(video.last_audio_pts_ms, 35);
            assert_eq!(video.audio_plane_lead_ms(11 * MS), 35);
        }
        other => panic!("{other:?}"),
    }
}

#[test]
fn a_load_that_completes_at_once_has_fed_nothing() {
    let mut l = requested();
    match l.next(completed(10 * MS)) {
        LoadAction::Done { video } => assert_eq!((video.audio, video.last_audio_pts_ms), (true, 0)),
        other => panic!("{other:?}"),
    }
}
