use punktfunk_webos::delivery::{DeliveryAction, DeliveryReply};
use punktfunk_webos::pump::{Frame, FrameFlags, FramePart, Loss, PumpAction, SinkResult, VideoPump, HEARTBEAT_NS};

const FLAGS: FrameFlags = FrameFlags { sof: 1, recovery_anchor: 2, recovery_point: 4 };

fn frame(part: Option<FramePart>) -> Frame {
    Frame { frame_index: 7, pts_ns: 50, flags: 4, part }
}

#[test]
fn the_first_delivery_boosts_and_later_ones_do_not() {
    let mut p = VideoPump::new(false, FLAGS, 10, 0, 0);
    let (mut d, action) = p.on_frame(frame(None));
    assert_eq!(action, DeliveryAction::BoostHotThreads);
    assert_eq!(d.next(&mut p, DeliveryReply::at(0)), DeliveryAction::Observe);
    let (_, action) = p.on_frame(frame(None));
    assert_eq!(action, DeliveryAction::Observe);
}

#[test]
fn a_delivery_goes_through_the_pump_in_order() {
    let mut p = VideoPump { hot_threads_boosted: true, ..VideoPump::new(false, FLAGS, 10, 0, 0) };
    let (mut d, _) = p.on_frame(frame(None));
    let seen = DeliveryReply { realtime_ns: Some(100), clock_offset_ns: 5, ..DeliveryReply::at(1) };
    assert_eq!(d.next(&mut p, seen), DeliveryAction::ReadClock);
    assert_eq!((p.cadence.aus, p.cadence.pre_ndl_age_sum_ns), (1, 55));
    assert_eq!(d.next(&mut p, DeliveryReply::at(2)), DeliveryAction::CountLoss { index: Some(7) });
    let counted = DeliveryReply { gap_width: 2, dropped: 0, ..DeliveryReply::at(3) };
    match d.next(&mut p, counted) {
        DeliveryAction::Submit { wire, loss } => {
            assert_eq!(loss, Loss { gap_width: 2, dropped: false });
            assert!(wire.loss && wire.recovery_mark && !wire.reanchor);
        }
        other => panic!("{other:?}"),
    }
    let outcome = DeliveryReply { sink: SinkResult::NeedKeyframe, ..DeliveryReply::at(4) };
    assert_eq!(d.next(&mut p, outcome), DeliveryAction::React { action: PumpAction::RequestKeyframe });
    assert_eq!(d.next(&mut p, DeliveryReply::at(5)), DeliveryAction::Done);
    assert_eq!(d.next(&mut p, outcome), DeliveryAction::Done);
}

#[test]
fn a_due_heartbeat_comes_before_the_picture() {
    let mut p = VideoPump { hot_threads_boosted: true, ..VideoPump::new(false, FLAGS, 10, 0, 0) };
    let (mut d, _) = p.on_frame(frame(None));
    d.next(&mut p, DeliveryReply::at(0));
    assert_eq!(d.next(&mut p, DeliveryReply::at(HEARTBEAT_NS)), DeliveryAction::PollStage);
    let polled = DeliveryReply { backlog: Some(2), plane_lead_ms: Some(40), ..DeliveryReply::at(HEARTBEAT_NS) };
    match d.next(&mut p, polled) {
        DeliveryAction::Publish { beat } => {
            assert_eq!((beat.render_backlog, beat.audio_plane_lead_ms), (2, Some(40)));
        }
        other => panic!("{other:?}"),
    }
    assert_eq!(d.next(&mut p, DeliveryReply::at(0)), DeliveryAction::CountLoss { index: Some(7) });
    // The next heartbeat is an interval away.
    let (mut d, _) = p.on_frame(frame(None));
    d.next(&mut p, DeliveryReply::at(0));
    assert!(matches!(d.next(&mut p, DeliveryReply::at(2 * HEARTBEAT_NS - 1)), DeliveryAction::CountLoss { .. }));
}

#[test]
fn tails_are_not_counted_twice() {
    let mut p = VideoPump { hot_threads_boosted: true, ..VideoPump::new(false, FLAGS, 10, 0, 0) };
    let (mut d, _) = p.on_frame(frame(Some(FramePart { first: false })));
    d.next(&mut p, DeliveryReply::at(0));
    assert_eq!(p.cadence.aus, 0);
    assert_eq!(d.next(&mut p, DeliveryReply::at(0)), DeliveryAction::CountLoss { index: None });
    let counted = DeliveryReply { gap_width: 9, ..DeliveryReply::at(0) };
    assert!(matches!(
        d.next(&mut p, counted),
        DeliveryAction::Submit { wire, loss } if !wire.recovery_mark && loss.gap_width == 0
    ));
}

#[test]
fn every_delivery_is_submitted_once() {
    for first_ever in [true, false] {
        for now in [0, HEARTBEAT_NS] {
            let mut p = VideoPump { hot_threads_boosted: !first_ever, ..VideoPump::new(false, FLAGS, 10, 0, 0) };
            let (mut d, _) = p.on_frame(frame(None));
            let submitted = (0..20)
                .filter(|_| matches!(d.next(&mut p, DeliveryReply::at(now)), DeliveryAction::Submit { .. }))
                .count();
            assert_eq!(submitted, 1);
        }
    }
}

#[test]
fn a_dead_decoder_sets_the_shared_flag_before_it_is_told_of() {
    for was_dead in [false, true] {
        let mut p = VideoPump { hot_threads_boosted: true, ..VideoPump::new(false, FLAGS, 10, 0, 0) };
        let (mut d, mut action) = p.on_frame(frame(None));
        while !matches!(action, DeliveryAction::Submit { .. }) {
            action = d.next(&mut p, DeliveryReply::at(0));
        }
        let dead = DeliveryReply { sink: SinkResult::Dead, ..DeliveryReply::at(0) };
        assert_eq!(d.next(&mut p, dead), DeliveryAction::MarkDead);
        let marked = DeliveryReply { was_dead, ..DeliveryReply::at(0) };
        let told = PumpAction::EndSession { first: !was_dead };
        assert_eq!(d.next(&mut p, marked), DeliveryAction::React { action: told });
        assert_eq!(d.next(&mut p, DeliveryReply::at(0)), DeliveryAction::Done);
    }
}
