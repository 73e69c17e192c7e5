use punktfunk_webos::clock::{ClockAction, ClockPhase, ClockPlane, ClockReply, Metronome};
use punktfunk_webos::ndl::NdlVideo;

const MS: u64 = 1_000_000;

fn session() -> NdlVideo {
    NdlVideo {
        load_instant_ns: 0,
        load_requested_ns: 0,
        audio: true,
        last_audio_pts_ms: 60,
        last_real_feed_ms: 0,
        video_drives_clock: false,
        video_clock_base_ms: 0,
        last_video_feed_ms: 0,
        load_confirmed: true,
        pending_hdr: None,
        applied_hdr: None,
    }
}

fn at(now_ns: u64) -> ClockReply {
    ClockReply { ok: true, now_ns, stop: false }
}

/// Runs a plane from `Polling` to the next sleep, reading the clock as `now_ns` throughout.
fn round(plane: &mut ClockPlane, video: &mut NdlVideo, now_ns: u64) -> (Vec<i64>, u64) {
    let mut fed = Vec::new();
    loop {
        match plane.next(video, at(now_ns)) {
            ClockAction::Feed { pts_ms } => fed.push(pts_ms),
            ClockAction::Sleep { ns } => {
                assert_eq!(plane.next(video, at(now_ns)), ClockAction::Poll);
                return (fed, ns);
            }
            ClockAction::Ended => panic!("ended"),
            _ => {}
        }
    }
}

#[test]
fn a_software_clock_takes_the_primed_stamp_as_its_base() {
    let mut v = session();
    let plane = v.run_clock_plane(false, 7);
    assert_eq!((plane.base_ms, plane.pts_ms, plane.filling), (60, 60, false));
    assert_eq!(plane.metronome, Metronome { next_tick_ns: 7 });
    assert_eq!(plane.phase, ClockPhase::Polling);
    assert!(v.video_drives_clock);
    assert_eq!(v.video_clock_base_ms, 60);
}

#[test]
fn a_clock_for_real_audio_has_no_base() {
    let mut v = session();
    let plane = v.run_clock_plane(true, 0);
    assert_eq!((plane.base_ms, plane.pts_ms), (0, 60));
    assert!(!v.video_drives_clock);
}

#[test]
fn a_burst_restores_the_lead() {
    let mut v = session();
    let mut plane = v.run_clock_plane(false, 0);
    let (fed, ns) = round(&mut plane, &mut v, 3 * MS);
    // Target 60 + 3 + 40.
    assert_eq!(fed, (65..=105).step_by(5).collect::<Vec<i64>>());
    assert_eq!(v.last_audio_pts_ms, 105);
    assert_eq!(plane.pts_ms, 105);
    assert_eq!(ns, 17 * MS);
    // Nothing to feed 2 ms later.
    let (fed, _) = round(&mut plane, &mut v, 5 * MS);
    assert!(fed.is_empty());
}

#[test]
fn bursts_and_the_video_feed_share_one_timeline() {
    let mut v = session();
    let mut plane = v.run_clock_plane(false, 0);
    round(&mut plane, &mut v, 0);
    let mut by_video = v;
    let mut playing = by_video.play(0, 0, false).unwrap();
    let mut reply = punktfunk_webos::playing::PlayReply { ok: true, now_ns: 30 * MS, first_frame: false };
    while !matches!(playing.next(&mut by_video, reply), punktfunk_webos::playing::PlayAction::Submit { .. }) {
        reply.now_ns += 1;
    }
    round(&mut plane, &mut v, 30 * MS);
    assert_eq!(v.last_audio_pts_ms, by_video.last_audio_pts_ms);
}

#[test]
fn the_plane_yields_to_a_recent_picture() {
    let mut v = session();
    let mut plane = v.run_clock_plane(false, 0);
    v.last_video_feed_ms = 1_000;
    assert!(round(&mut plane, &mut v, 1_049 * MS).0.is_empty());
    assert!(!round(&mut plane, &mut v, 1_050 * MS).0.is_empty());
    // A clock that video does not drive does not yield.
    v.last_video_feed_ms = 2_000;
    v.video_drives_clock = false;
    assert!(!round(&mut plane, &mut v, 2_001 * MS).0.is_empty());
}

#[test]
fn the_plane_yields_to_real_audio_for_the_grace_period() {
    let mut v = session();
    let mut plane = v.run_clock_plane(true, 0);
    assert!(round(&mut plane, &mut v, 299 * MS).0.is_empty());
    assert!(!plane.filling);
    let (fed, _) = round(&mut plane, &mut v, 300 * MS);
    assert_eq!((fed.first(), fed.last()), (Some(&65), Some(&340)));
    assert!(plane.filling);
    v.last_real_feed_ms = 310;
    assert!(round(&mut plane, &mut v, 320 * MS).0.is_empty());
    assert!(!plane.filling);
}

#[test]
fn stopping_releases_the_clock() {
    let mut v = session();
    let mut plane = v.run_clock_plane(false, 0);
    assert_eq!(plane.next(&mut v, ClockReply { stop: true, ..at(0) }), ClockAction::Ended);
    assert!(!v.video_drives_clock);
    assert_eq!(plane.next(&mut v, at(0)), ClockAction::Ended);
}

#[test]
fn a_refused_packet_ends_the_plane_and_counts() {
    let mut v = session();
    let mut plane = v.run_clock_plane(false, 0);
    assert_eq!(plane.next(&mut v, at(0)), ClockAction::Lock);
    assert_eq!(plane.next(&mut v, at(0)), ClockAction::Feed { pts_ms: 65 });
    assert_eq!(plane.next(&mut v, ClockReply { ok: false, ..at(0) }), ClockAction::Ended);
    assert_eq!(v.last_audio_pts_ms, 65);
    assert!(!v.video_drives_clock);
}

#[test]
fn the_lock_wait_does_not_consume_the_lead() {
    let mut v = session();
    let mut plane = v.run_clock_plane(false, 0);
    assert_eq!(plane.next(&mut v, at(0)), ClockAction::Lock);
    // The decoder was busy for 50 ms.
    let mut last = 0;
    let mut action = plane.next(&mut v, at(50 * MS));
    while let ClockAction::Feed { pts_ms } = action {
        last = pts_ms;
        action = plane.next(&mut v, at(50 * MS));
    }
    assert_eq!(action, ClockAction::ReadClock);
    assert_eq!(last, 150);
}

#[test]
fn late_rounds_skip_ticks_but_keep_the_grid() {
    let mut m = Metronome { next_tick_ns: 100 };
    m.advance();
    assert_eq!(m.next_tick_ns, 100 + 20 * MS);
    let mut polls = 0;
    let ns = loop {
        polls += 1;
        if let Some(ns) = m.remaining(75 * MS) {
            break ns;
        }
    };
    assert_eq!(polls, 4);
    assert_eq!(m.next_tick_ns, 100 + 80 * MS);
    assert_eq!(ns, 5 * MS + 100);
}
