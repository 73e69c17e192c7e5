use punktfunk_webos::hdr::HdrInfo;
use punktfunk_webos::ndl::{NdlVideo, NotReady};
use punktfunk_webos::playing::{PlayAction, PlayPhase, PlayReply};

const MS: u64 = 1_000_000;

fn driving() -> NdlVideo {
    NdlVideo {
        load_instant_ns: 0,
        load_requested_ns: 0,
        audio: true,
        last_audio_pts_ms: 100,
        last_real_feed_ms: 0,
        video_drives_clock: true,
        video_clock_base_ms: 60,
        last_video_feed_ms: 0,
        load_confirmed: true,
        pending_hdr: None,
        applied_hdr: None,
    }
}

fn info(n: u32) -> HdrInfo {
    HdrInfo {
        display_primaries_x0: n,
        display_primaries_y0: 0,
        display_primaries_x1: 0,
        display_primaries_y1: 0,
        display_primaries_x2: 0,
        display_primaries_y2: 0,
        white_point_x: 0,
        white_point_y: 0,
        max_display_mastering_luminance: 0,
        min_display_mastering_luminance: 0,
        max_content_light_level: 0,
        max_pic_average_light_level: 0,
        transfer_characteristics: 0,
        color_primaries: 0,
        matrix_coeffs: 0,
        reserved: 0,
    }
}

fn reply(ok: bool, now_ns: u64, first_frame: bool) -> PlayReply {
    PlayReply { ok, now_ns, first_frame }
}

#[test]
fn a_frame_before_the_load_is_ready_is_refused() {
    let mut v = NdlVideo { load_confirmed: false, ..driving() };
    assert_eq!(v.play(5, 999 * MS, false), Err(NotReady));
    assert!(!v.load_confirmed);
    let p = v.play(17_999_999, 999 * MS, true).unwrap();
    assert!(v.load_confirmed);
    assert_eq!((p.pts_ms, p.phase), (17, PlayPhase::Locking));
}

#[test]
fn a_picture_tops_the_clock_up_first_when_the_lead_has_decayed() {
    let mut v = driving();
    let mut p = v.play(33 * MS, 0, false).unwrap();
    // The lead is 100 - 20 = 80 and the target lead 100: decayed by exactly the margin.
    let mut action = p.next(&mut v, reply(true, 20 * MS, false));
    for pts in [105, 110, 115, 120] {
        assert_eq!(action, PlayAction::FeedSilence { pts_ms: pts });
        assert_eq!(v.last_audio_pts_ms, 100);
        action = p.next(&mut v, reply(true, 20 * MS, false));
    }
    assert_eq!(action, PlayAction::Submit { pts_ms: 33 });
    assert_eq!(v.last_audio_pts_ms, 120);
    assert!(v.video_drives_clock);
    assert_eq!(p.next(&mut v, reply(true, 21 * MS, false)), PlayAction::MarkFed);
    assert_eq!(v.last_video_feed_ms, 21);
    assert_eq!(p.next(&mut v, reply(true, 21 * MS, false)), PlayAction::Done);
    assert_eq!(p.next(&mut v, reply(true, 21 * MS, true)), PlayAction::Done);
}

#[test]
fn no_top_up_while_the_lead_holds() {
    let mut v = driving();
    let mut p = v.play(0, 0, false).unwrap();
    assert_eq!(p.next(&mut v, reply(true, 19 * MS, false)), PlayAction::Submit { pts_ms: 0 });
    let mut v = NdlVideo { video_drives_clock: false, ..driving() };
    let mut p = v.play(0, 0, false).unwrap();
    assert_eq!(p.next(&mut v, reply(true, 900 * MS, false)), PlayAction::Submit { pts_ms: 0 });
}

#[test]
fn after_a_top_up_the_next_is_due_a_margin_later() {
    let mut v = driving();
    let mut p = v.play(0, 0, false).unwrap();
    while p.next(&mut v, reply(true, 20 * MS, false)) != (PlayAction::Submit { pts_ms: 0 }) {}
    let mut p = v.play(0, 0, false).unwrap();
    assert_eq!(p.next(&mut v, reply(true, 39 * MS, false)), PlayAction::Submit { pts_ms: 0 });
    let mut p = v.play(0, 0, false).unwrap();
    assert_eq!(p.next(&mut v, reply(true, 40 * MS, false)), PlayAction::FeedSilence { pts_ms: 125 });
}

#[test]
fn refused_silence_does_not_fail_the_picture() {
    let mut v = driving();
    let mut p = v.play(50 * MS, 0, false).unwrap();
    p.next(&mut v, reply(true, 20 * MS, false));
    p.next(&mut v, reply(true, 20 * MS, false));
    assert_eq!(p.next(&mut v, reply(false, 20 * MS, false)), PlayAction::Submit { pts_ms: 50 });
    assert!(!v.video_drives_clock);
    assert_eq!(v.last_audio_pts_ms, 110);
}

#[test]
fn a_refused_picture_fails() {
    let mut v = driving();
    let mut p = v.play(0, 0, false).unwrap();
    p.next(&mut v, reply(true, 0, false));
    assert_eq!(p.next(&mut v, reply(false, 5 * MS, false)), PlayAction::Failed);
    assert_eq!(v.last_video_feed_ms, 0);
    // It stays refused.
    assert_eq!(p.next(&mut v, reply(true, 6 * MS, true)), PlayAction::Failed);
    assert_eq!(v.last_video_feed_ms, 0);
}

#[test]
fn the_first_picture_releases_held_metadata() {
    let mut v = NdlVideo { pending_hdr: Some(info(1)), ..driving() };
    let mut p = v.play(0, 0, false).unwrap();
    p.next(&mut v, reply(true, 0, false));
    p.next(&mut v, reply(true, 0, false));
    assert_eq!(p.next(&mut v, reply(true, 0, true)), PlayAction::ApplyHdr { info: info(1) });
    assert_eq!(v.pending_hdr, None);
    assert_eq!(p.next(&mut v, reply(true, 0, false)), PlayAction::Done);
    assert_eq!(v.applied_hdr, Some(info(1)));
}

#[test]
fn metadata_that_is_refused_is_not_counted_as_applied() {
    let mut v = NdlVideo { pending_hdr: Some(info(1)), applied_hdr: Some(info(2)), ..driving() };
    let mut p = v.play(0, 0, false).unwrap();
    p.next(&mut v, reply(true, 0, false));
    p.next(&mut v, reply(true, 0, false));
    p.next(&mut v, reply(true, 0, true));
    assert_eq!(p.next(&mut v, reply(false, 0, false)), PlayAction::Done);
    assert_eq!((v.pending_hdr, v.applied_hdr), (None, Some(info(2))));
}

#[test]
fn later_pictures_leave_held_metadata_alone() {
    let mut v = NdlVideo { pending_hdr: Some(info(1)), ..driving() };
    let mut p = v.play(0, 0, false).unwrap();
    p.next(&mut v, reply(true, 0, false));
    p.next(&mut v, reply(true, 0, false));
    assert_eq!(p.next(&mut v, reply(true, 0, false)), PlayAction::Done);
    assert_eq!(v.pending_hdr, Some(info(1)));
}
