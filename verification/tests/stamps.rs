use punktfunk_webos::clock::{ClockAction, ClockReply};
use punktfunk_webos::loading::{LoadAction, LoadReply};
use punktfunk_webos::ndl::NdlVideo;
use punktfunk_webos::playing::{PlayAction, PlayReply};

const MS: u64 = 1_000_000;

/// Loads a session with audio, collecting the stamps of its silence; it begins at `done_ns`.
fn load(handed: &mut Vec<(i64, bool)>, done_ns: u64) -> NdlVideo {
    let reply = |completed, now_ns| LoadReply { ok: true, completed, now_ns, unloads: 0 };
    let mut l = NdlVideo::load(1920, 1080, 2, true, 3_000 * MS);
    loop {
        match l.next(reply(false, 0)) {
            LoadAction::FeedSilence { pts_ms } => handed.push((pts_ms, true)),
            LoadAction::AwaitCompletion => break,
            _ => {}
        }
    }
    match l.next(reply(true, done_ns)) {
        LoadAction::Done { video } => video,
        other => panic!("{other:?}"),
    }
}

fn packet(video: &mut NdlVideo, handed: &mut Vec<(i64, bool)>, now_ns: u64) {
    let feed = video.play_audio(now_ns).unwrap();
    handed.push((feed.pts_ms, false));
}

/// Feeds one picture; its silence is refused from the `refused_at`-th packet on.
fn picture(video: &mut NdlVideo, handed: &mut Vec<(i64, bool)>, now_ns: u64, refused_at: usize) {
    let mut p = video.play(now_ns, now_ns, true).unwrap();
    let mut fed = 0;
    let mut ok = true;
    loop {
        match p.next(video, PlayReply { ok, now_ns, first_frame: false }) {
            PlayAction::FeedSilence { pts_ms } => {
                handed.push((pts_ms, true));
                fed += 1;
                ok = fed < refused_at;
            }
            PlayAction::Done => return,
            _ => ok = true,
        }
    }
}

#[test]
fn stamps_stay_in_order_whoever_feeds() {
    let mut handed = Vec::new();
    let mut own = Vec::new();
    let mut video = load(&mut handed, 10 * MS);
    let mut plane = video.run_clock_plane(false, 10 * MS);
    assert_eq!((plane.base_ms, handed.len()), (35, 8));
    for now_ms in [10, 60, 61, 130, 200, 201, 290] {
        let now_ns = now_ms * MS;
        let mut action = ClockAction::Poll;
        loop {
            if let ClockAction::Feed { pts_ms } = action {
                handed.push((pts_ms, true));
                own.push(pts_ms);
            }
            action = plane.next(&mut video, ClockReply { ok: true, now_ns, stop: false });
            if matches!(action, ClockAction::Poll) {
                break;
            }
        }
        assert_eq!(plane.base_ms, 35);
        if now_ms == 10 {
            // Base, player clock and lead.
            assert_eq!(video.last_audio_pts_ms, 35 + 0 + 40);
        }
        packet(&mut video, &mut handed, now_ns + 5 * MS);
        picture(&mut video, &mut handed, now_ns + 40 * MS, if now_ms == 200 { 2 } else { 99 });
        packet(&mut video, &mut handed, now_ns + 40 * MS);
    }
    assert_eq!(handed[8], (40, true));
    // The plane's own packets, whatever came between them.
    assert_eq!(own[0], 40);
    assert!(own.windows(2).all(|w| w[0] + 5 <= w[1]));
    assert!(!video.video_drives_clock);
    let mut highest = -1;
    for (pts_ms, silent) in handed {
        assert!(pts_ms >= highest);
        assert!(!silent || pts_ms >= highest + 5 || highest == -1);
        highest = pts_ms;
    }
    assert_eq!(highest, video.last_audio_pts_ms);
}
