use punktfunk_webos::hdr::{hdr_info, ColorInfo, HdrInfo, HdrMeta};
use punktfunk_webos::ndl::{AudioFeed, NdlVideo, NotOpus, NotReady, SilenceRun, VideoSinkCaps, OPUS_SILENCE, PLANE_LEAD_MS};

const MS: u64 = 1_000_000;

fn session() -> NdlVideo {
    NdlVideo {
        load_instant_ns: 100 * MS,
        load_requested_ns: 50 * MS,
        audio: true,
        last_audio_pts_ms: 55,
        last_real_feed_ms: 0,
        video_drives_clock: false,
        video_clock_base_ms: 0,
        last_video_feed_ms: 0,
        load_confirmed: true,
        pending_hdr: None,
        applied_hdr: None,
    }
}

fn meta(max_cll: u16) -> HdrMeta {
    HdrMeta {
        display_primaries: [[1, 2], [3, 4], [5, 6]],
        white_point: [7, 8],
        max_display_mastering_luminance: 10_000_000,
        min_display_mastering_luminance: 9,
        max_cll,
        max_fall: 400,
    }
}

const COLOR: ColorInfo = ColorInfo { primaries: 9, transfer: 16, matrix: 10 };

#[test]
fn constants() {
    assert_eq!(PLANE_LEAD_MS, 40);
    assert_eq!(OPUS_SILENCE, [0xec, 0xff, 0xfe]);
}

#[test]
fn the_player_clock_counts_from_the_load() {
    let v = session();
    assert_eq!(v.elapsed_ns(103 * MS + 1), 3 * MS + 1);
    assert_eq!(v.elapsed_ns(99 * MS), 0);
    assert_eq!(v.audio_plane_lead_ms(103 * MS + 1), 52);
    assert_eq!(v.audio_plane_lead_ms(200 * MS), -45);
    assert!(v.has_audio_plane());
}

#[test]
fn frames_are_held_until_the_load_completes_or_is_overdue() {
    let fresh = NdlVideo { load_confirmed: false, ..session() };
    let mut v = fresh;
    assert_eq!(v.ensure_loaded(1_049 * MS, false), Err(NotReady));
    assert!(!v.load_confirmed);
    assert_eq!(v.ensure_loaded(1_050 * MS, false), Ok(()));
    assert!(v.load_confirmed);
    let mut v = fresh;
    assert_eq!(v.ensure_loaded(51 * MS, true), Ok(()));
    assert_eq!(v.ensure_loaded(51 * MS, false), Ok(()));
}

#[test]
fn real_audio_is_stamped_with_the_lead_and_never_back() {
    let mut v = session();
    assert_eq!(v.play_audio(110 * MS), Some(AudioFeed { pts_ms: 55, now_ms: 10 }));
    let feed = v.play_audio(130 * MS).unwrap();
    assert_eq!(feed, AudioFeed { pts_ms: 70, now_ms: 30 });
    assert_eq!((v.last_audio_pts_ms, v.last_real_feed_ms), (70, 0));
    v.audio_accepted(&feed);
    assert_eq!(v.last_real_feed_ms, 30);
    assert_eq!(v.play_audio(120 * MS).unwrap().pts_ms, 70);
}

#[test]
fn audio_is_dropped_before_the_load_is_confirmed() {
    let mut v = NdlVideo { load_confirmed: false, ..session() };
    assert_eq!(v.play_audio(200 * MS), None);
    assert_eq!(v.last_audio_pts_ms, 55);
}

#[test]
fn only_opus_is_taken() {
    let mut v = session();
    assert_eq!(v.feed(false, 130 * MS), Err(NotOpus));
    assert_eq!(v.last_audio_pts_ms, 55);
    assert_eq!(v.feed(true, 130 * MS), Ok(Some(AudioFeed { pts_ms: 70, now_ms: 30 })));
}

#[test]
fn silence_runs_packet_by_packet_to_the_first_stamp_past_the_target() {
    let mut v = session();
    let mut run = v.feed_silence_locked(40, 67);
    assert_eq!(run, SilenceRun { pts_ms: 55, target_ms: 67 });
    let mut stamps = Vec::new();
    while let Some(pts) = run.next_stamp() {
        stamps.push(pts);
    }
    assert_eq!(stamps, vec![60, 65, 70]);
    v.settle_silence(&run);
    assert_eq!(v.last_audio_pts_ms, 70);
    assert_eq!(v.feed_silence_locked(80, 60).next_stamp(), None);
}

#[test]
fn settling_never_moves_the_stamp_back() {
    let mut v = session();
    v.settle_silence(&SilenceRun { pts_ms: 20, target_ms: 20 });
    assert_eq!(v.last_audio_pts_ms, 55);
}

#[test]
fn a_burst_aims_at_base_plus_clock_plus_lead() {
    let v = session();
    assert_eq!(v.burst_silence(0, 500, 110 * MS), SilenceRun { pts_ms: 55, target_ms: 550 });
    assert_eq!(v.burst_silence(60, 0, 110 * MS), SilenceRun { pts_ms: 60, target_ms: 50 });
}

#[test]
fn metadata_is_laid_out_for_the_decoder() {
    assert_eq!(
        hdr_info(&meta(1000), &COLOR),
        HdrInfo {
            display_primaries_x0: 1,
            display_primaries_y0: 2,
            display_primaries_x1: 3,
            display_primaries_y1: 4,
            display_primaries_x2: 5,
            display_primaries_y2: 6,
            white_point_x: 7,
            white_point_y: 8,
            max_display_mastering_luminance: 10_000_000,
            min_display_mastering_luminance: 9,
            max_content_light_level: 1000,
            max_pic_average_light_level: 400,
            transfer_characteristics: 16,
            color_primaries: 9,
            matrix_coeffs: 10,
            reserved: 0,
        }
    );
}

#[test]
fn metadata_is_held_until_the_decoder_presents_and_the_newest_wins() {
    let mut v = session();
    assert_eq!(v.set_color_info(Some(&meta(1)), &COLOR, false), None);
    assert_eq!(v.set_color_info(Some(&meta(2)), &COLOR, false), None);
    let newest = hdr_info(&meta(2), &COLOR);
    assert_eq!(v.pending_hdr, Some(newest));
    assert_eq!(v.replay_pending_hdr(), Some(newest));
    assert_eq!(v.pending_hdr, None);
    v.hdr_accepted(newest);
    assert_eq!(v.replay_pending_hdr(), None);
}

#[test]
fn metadata_is_not_applied_twice() {
    let mut v = session();
    let info = v.set_color_info(Some(&meta(1)), &COLOR, true).unwrap();
    assert_eq!(info, hdr_info(&meta(1), &COLOR));
    // Refused: it is due again.
    assert_eq!(v.set_color_info(Some(&meta(1)), &COLOR, true), Some(info));
    v.hdr_accepted(info);
    assert_eq!(v.set_color_info(Some(&meta(1)), &COLOR, true), None);
    assert_eq!(v.apply_hdr_info(hdr_info(&meta(3), &COLOR)), Some(hdr_info(&meta(3), &COLOR)));
    assert!(v.set_color_info(Some(&meta(2)), &COLOR, true).is_some());
    assert_eq!(v.set_color_info(None, &COLOR, true), None);
}

#[test]
fn metadata_for_a_presenting_decoder_replaces_what_was_held() {
    let mut v = NdlVideo { pending_hdr: Some(hdr_info(&meta(1), &COLOR)), ..session() };
    assert!(v.set_color_info(Some(&meta(2)), &COLOR, true).is_some());
    assert_eq!(v.pending_hdr, None);
}

#[test]
fn a_flush_waits_for_the_load() {
    let v = NdlVideo { load_confirmed: false, ..session() };
    assert!(!v.flush(false));
    assert!(v.flush(true));
    assert!(session().flush(false));
}

#[test]
fn queue_depth_drops_what_is_negative() {
    assert_eq!(NdlVideo::queue_depth(Some(3)), Some(3));
    assert_eq!(NdlVideo::queue_depth(Some(0)), Some(0));
    assert_eq!(NdlVideo::queue_depth(Some(-1)), None);
    assert_eq!(NdlVideo::queue_depth(None), None);
}

#[test]
fn the_sink_takes_everything() {
    assert_eq!(
        NdlVideo::caps(),
        VideoSinkCaps { pts: true, partial_au: true, flush: true, render_queue: true }
    );
}

#[test]
fn once_ready_frames_stay_welcome() {
    let mut v = NdlVideo { load_confirmed: false, ..session() };
    assert_eq!(v.ensure_loaded(60 * MS, false), Err(NotReady));
    assert_eq!(v.ensure_loaded(60 * MS, true), Ok(()));
    assert_eq!(v.ensure_loaded(61 * MS, false), Ok(()));
    let mut overdue = NdlVideo { load_confirmed: false, ..session() };
    assert_eq!(overdue.ensure_loaded(1_050 * MS, false), Ok(()));
    assert_eq!(overdue.ensure_loaded(9_000 * MS, false), Ok(()));
}
