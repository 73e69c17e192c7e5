use punktfunk_webos::hdr::HdrMeta;
use punktfunk_webos::pump::{
    audio_drain, AudioAction, AudioPump, Frame, FrameFlags, FramePart, Loss, PacingHealth, PollAction, PollEvent,
    PumpAction, SinkResult, VideoPump, HEARTBEAT_NS, VIDEO_LOG_INTERVAL_NS,
};

const FLAGS: FrameFlags = FrameFlags { sof: 1, recovery_anchor: 0x100, recovery_point: 0x200 };
const WINDOW: u64 = 1_000;

fn new_pump() -> VideoPump {
    VideoPump::new(true, FLAGS, WINDOW, 10, 0)
}

fn frame(flags: u32, part: Option<FramePart>) -> Frame {
    Frame { frame_index: 7, pts_ns: 99, flags, part }
}

fn whole() -> Frame {
    frame(0, None)
}

fn tail() -> Frame {
    frame(0, Some(FramePart { first: false }))
}

#[test]
fn polling_decides_what_the_pump_does() {
    let mut p = new_pump();
    assert_eq!(p.on_poll(PollEvent::Delivery, HEARTBEAT_NS), PollAction::Handle);
    assert_eq!(p.on_poll(PollEvent::NoFrame, HEARTBEAT_NS - 1), PollAction::Idle { log: false });
    assert_eq!(p.on_poll(PollEvent::NoFrame, HEARTBEAT_NS), PollAction::Idle { log: true });
    assert_eq!(p.on_poll(PollEvent::NoFrame, HEARTBEAT_NS + 1), PollAction::Idle { log: false });
    assert_eq!(p.on_poll(PollEvent::Stopped, 9 * HEARTBEAT_NS), PollAction::End { error: false });
    assert_eq!(p.on_poll(PollEvent::Closed, 0), PollAction::End { error: false });
    assert_eq!(p.on_poll(PollEvent::Failed, 0), PollAction::End { error: true });
}

#[test]
fn heartbeat_figures() {
    let mut p = new_pump();
    assert!(!p.heartbeat_due(HEARTBEAT_NS - 1));
    assert!(p.heartbeat_due(HEARTBEAT_NS));
    let pacing = PacingHealth { jitter_ns: 2_999, late_stamps: 4 };
    let beat = p.heartbeat(Some(3), pacing, Some(38), HEARTBEAT_NS);
    assert_eq!((beat.render_backlog, beat.pacing_jitter_us, beat.pacing_late), (3, 2, 4));
    assert_eq!((beat.audio_plane_lead_ms, beat.report), (Some(38), None));
    let beat = p.heartbeat(None, PacingHealth { jitter_ns: -5, late_stamps: 0 }, None, HEARTBEAT_NS);
    assert_eq!((beat.render_backlog, beat.pacing_jitter_us, beat.audio_plane_lead_ms), (-1, 0, None));
    let beat = p.heartbeat(None, PacingHealth { jitter_ns: i64::MAX, late_stamps: 0 }, Some(i64::MIN), HEARTBEAT_NS);
    assert_eq!((beat.pacing_jitter_us, beat.audio_plane_lead_ms), (u32::MAX, Some(i32::MAX)));
}

#[test]
fn the_detail_is_reported_on_its_own_cadence() {
    let mut p = new_pump();
    p.cadence.observe(true, 5, 5, None, 0);
    let pacing = PacingHealth { jitter_ns: 0, late_stamps: 9 };
    let report = p.heartbeat(None, pacing, None, VIDEO_LOG_INTERVAL_NS).report.unwrap();
    assert_eq!((report.late_window, report.cadence.aus), (9, 1));
    assert_eq!(p.cadence.aus, 0);
    assert_eq!(p.cadence.last_arrival_ns, Some(5));
    assert_eq!(p.heartbeat(None, pacing, None, 2 * VIDEO_LOG_INTERVAL_NS - 1).report, None);
    let pacing = PacingHealth { late_stamps: 12, ..pacing };
    let report = p.heartbeat(None, pacing, None, 2 * VIDEO_LOG_INTERVAL_NS).report.unwrap();
    assert_eq!((report.late_window, report.cadence.aus), (3, 0));
}

#[test]
fn announced_drops_are_not_loss_again() {
    let mut p = new_pump();
    let loss = p.note_loss(&whole(), 3, 10, 100);
    assert_eq!(loss, Loss { gap_width: 3, dropped: false });
    assert!(loss.is_lost());
    assert_eq!((p.drop_credit, p.drop_credit_expiry_ns), (3, Some(1_100)));
    assert!(!p.note_loss(&whole(), 0, 12, 200).is_lost());
    assert_eq!(p.drop_credit, 1);
    assert_eq!(p.note_loss(&whole(), 0, 14, 300), Loss { gap_width: 0, dropped: true });
    assert_eq!((p.drop_credit, p.drop_credit_expiry_ns), (0, None));
}

#[test]
fn credit_lapses() {
    let mut p = new_pump();
    p.note_loss(&whole(), 3, 10, 100);
    let mut late = p;
    assert!(!p.note_loss(&whole(), 0, 11, 1_099).is_lost());
    assert!(late.note_loss(&whole(), 0, 11, 1_100).is_lost());
    assert_eq!((late.drop_credit, late.drop_credit_expiry_ns), (0, None));
}

#[test]
fn a_new_gap_extends_the_credit() {
    let mut p = new_pump();
    p.note_loss(&whole(), 1, 10, 0);
    p.note_loss(&whole(), 2, 10, 900);
    assert_eq!((p.drop_credit, p.drop_credit_expiry_ns), (3, Some(1_900)));
}

#[test]
fn drops_without_gaps_are_loss() {
    let mut p = new_pump();
    assert!(!p.note_loss(&whole(), 0, 10, 0).is_lost());
    assert!(p.note_loss(&whole(), 0, 11, 0).is_lost());
    // A count that went back is no drop.
    assert!(!p.note_loss(&whole(), 0, 2, 0).is_lost());
    assert_eq!(p.last_dropped_seen, 2);
}

#[test]
fn tails_show_no_gap() {
    let mut p = new_pump();
    assert_eq!(p.note_loss(&tail(), 9, 10, 0), Loss { gap_width: 0, dropped: false });
    assert_eq!(p.drop_credit, 0);
}

#[test]
fn credit_saturates() {
    let mut p = VideoPump { drop_credit: u64::MAX - 1, drop_credit_expiry_ns: Some(u128::MAX), ..new_pump() };
    p.note_loss(&whole(), u32::MAX, 10, u64::MAX);
    assert_eq!(p.drop_credit, u64::MAX);
    assert_eq!(p.drop_credit_expiry_ns, Some(u64::MAX as u128 + WINDOW as u128));
}

#[test]
fn wire_frames_carry_the_flags_meaning() {
    let p = new_pump();
    let none = Loss { gap_width: 0, dropped: false };
    let w = p.wire_frame(&whole(), &none);
    assert_eq!((w.pts_ns, w.index, w.part), (99, 7, None));
    assert!(!w.reanchor && !w.recovery_mark && !w.loss);
    assert!(p.wire_frame(&frame(1, None), &none).reanchor);
    assert!(p.wire_frame(&frame(0x100, None), &none).reanchor);
    assert!(p.wire_frame(&frame(0x200, None), &none).recovery_mark);
    assert!(p.wire_frame(&frame(0x200, Some(FramePart { first: true })), &none).recovery_mark);
    assert!(!p.wire_frame(&frame(0x200, Some(FramePart { first: false })), &none).recovery_mark);
    assert!(p.wire_frame(&whole(), &Loss { gap_width: 0, dropped: true }).loss);
    assert!(p.wire_frame(&whole(), &Loss { gap_width: 1, dropped: false }).loss);
}

#[test]
fn outcomes_ask_for_actions() {
    let presented = |decode_us| SinkResult::Presented { decode_us };
    assert_eq!(VideoPump::on_sink_result(presented(Some(8)), false), PumpAction::ReportDecode { us: 8 });
    assert_eq!(VideoPump::on_sink_result(presented(None), false), PumpAction::Nothing);
    assert_eq!(VideoPump::on_sink_result(SinkResult::Held, true), PumpAction::Nothing);
    assert_eq!(VideoPump::on_sink_result(SinkResult::NeedKeyframe, false), PumpAction::RequestKeyframe);
}

#[test]
fn the_newest_metadata_is_forwarded() {
    let meta = |max_cll| HdrMeta {
        display_primaries: [[0; 2]; 3],
        white_point: [0; 2],
        max_display_mastering_luminance: 0,
        min_display_mastering_luminance: 0,
        max_cll,
        max_fall: 0,
    };
    let p = new_pump();
    assert_eq!(p.forward_hdr_meta(&vec![meta(1), meta(2)]), Some(meta(2)));
    assert_eq!(p.forward_hdr_meta(&Vec::new()), None);
    let sdr = VideoPump { is_hdr: false, ..p };
    assert_eq!(sdr.forward_hdr_meta(&vec![meta(1)]), None);
}

#[test]
fn the_audio_pump_ends_with_the_transport() {
    assert_eq!(audio_drain(PollEvent::Delivery), AudioAction::Play);
    assert_eq!(audio_drain(PollEvent::NoFrame), AudioAction::Wait);
    assert_eq!(audio_drain(PollEvent::Stopped), AudioAction::End);
    assert_eq!(audio_drain(PollEvent::Closed), AudioAction::End);
    assert_eq!(audio_drain(PollEvent::Failed), AudioAction::End);
}

#[test]
fn the_audio_log_line_is_due_every_so_many_packets() {
    let mut p = AudioPump::new();
    let due = (0..9_000).filter(|_| p.on_packet(true)).count();
    assert_eq!((due, p.packets), (3, 9_000));
    let mut p = AudioPump { packets: 2_999 };
    assert!(!p.on_packet(false));
    assert!(p.on_packet(true));
    let mut p = AudioPump { packets: u32::MAX };
    assert!(p.on_packet(true));
    assert_eq!(p.packets, 0);
}

#[test]
fn a_dead_decoder_is_told_of_once() {
    let told = |mut flag: bool| {
        let mut told = 0;
        for result in [SinkResult::Held, SinkResult::Dead, SinkResult::Held, SinkResult::Dead] {
            if VideoPump::on_sink_result(result, flag) == (PumpAction::EndSession { first: true }) {
                told += 1;
            }
            flag = flag || result == SinkResult::Dead;
        }
        told
    };
    assert_eq!(told(false), 1);
    assert_eq!(told(true), 0);
    assert_eq!(VideoPump::on_sink_result(SinkResult::Dead, true), PumpAction::EndSession { first: false });
}

#[test]
fn pumps_go_on_until_they_are_stopped() {
    let events = [PollEvent::Delivery, PollEvent::NoFrame, PollEvent::Delivery, PollEvent::Stopped, PollEvent::Delivery];
    let mut p = new_pump();
    let (mut handled, mut played) = (0, 0);
    for event in events {
        match p.on_poll(event, 0) {
            PollAction::Handle => handled += 1,
            PollAction::Idle { log } => assert!(!log),
            PollAction::End { error } => {
                assert!(!error);
                break;
            }
        }
    }
    for event in events {
        match audio_drain(event) {
            AudioAction::Play => played += 1,
            AudioAction::Wait => {}
            AudioAction::End => break,
        }
    }
    assert_eq!((handled, played), (2, 2));
}

#[test]
fn late_windows_add_up() {
    let mut p = new_pump();
    let late = |late_stamps| PacingHealth { jitter_ns: 0, late_stamps };
    let one = p.heartbeat(None, late(4), None, VIDEO_LOG_INTERVAL_NS).report;
    let none = p.heartbeat(None, late(5), None, VIDEO_LOG_INTERVAL_NS + 1).report;
    let two = p.heartbeat(None, late(9), None, 2 * VIDEO_LOG_INTERVAL_NS).report;
    assert_eq!(one.map(|r| r.late_window), Some(4));
    assert_eq!(none, None);
    assert_eq!(two.map(|r| r.late_window), Some(5));
}
