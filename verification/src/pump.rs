//! The pumps that drain the transport into the pipeline: what each delivery, timeout and outcome
//! asks for.

use vstd::prelude::*;

use crate::cadence::{CadenceSnapshot, CadenceWindow, Tick};
use crate::hdr::HdrMeta;

verus! {

/// Cadence of the pump's liveness check, in ns.
pub const HEARTBEAT_NS: u64 = 2_000_000_000;

/// How often the heartbeat's detail reaches the log, in ns.
pub const VIDEO_LOG_INTERVAL_NS: u64 = 15_000_000_000;

/// How many audio packets go by between two log lines.
pub const AUDIO_LOG_PACKETS: u32 = 3_000;

/// One piece of an access unit that is delivered slice by slice.
#[derive(Clone, Copy, Debug, PartialEq, Eq, Structural)]
pub struct FramePart {
    /// Whether the piece is the first one of its access unit.
    pub first: bool,
}

/// What the transport says about a delivery.
#[derive(Clone, Copy, Debug, PartialEq, Eq, Structural)]
pub struct Frame {
    pub frame_index: u32,
    pub pts_ns: u64,
    pub flags: u32,
    /// Nothing for an access unit that comes in one piece.
    pub part: Option<FramePart>,
}

/// Which bits of a frame's flags mean what.
#[derive(Clone, Copy, Debug, PartialEq, Eq, Structural)]
pub struct FrameFlags {
    /// Start of frame.
    pub sof: u32,
    pub recovery_anchor: u32,
    pub recovery_point: u32,
}

/// What the video stage is told about a delivery.
#[derive(Clone, Copy, Debug, PartialEq, Eq, Structural)]
pub struct WireFrame {
    pub pts_ns: u64,
    pub index: u32,
    pub part: Option<FramePart>,
    pub reanchor: bool,
    /// A recovery boundary; counted once for an access unit in pieces.
    pub recovery_mark: bool,
    pub loss: bool,
}

/// How loss reaches a frame.
#[derive(Clone, Copy, Debug, PartialEq, Eq, Structural)]
pub struct Loss {
    /// How many frames are missing before this one.
    pub gap_width: u32,
    /// Whether the transport gave up on a frame that no gap had announced.
    pub dropped: bool,
}

/// What became of a delivery in the video stage.
#[derive(Clone, Copy, Debug, PartialEq, Eq, Structural)]
pub enum SinkResult {
    Presented { decode_us: Option<u32> },
    Held,
    NeedKeyframe,
    Dead,
}

/// What a delivery's outcome asks for.
#[derive(Clone, Copy, Debug, PartialEq, Eq, Structural)]
pub enum PumpAction {
    Nothing,
    ReportDecode { us: u32 },
    RequestKeyframe,
    /// The decoder failed for good and the session ends; `first` asks to tell so.
    EndSession { first: bool },
}

/// What one round of a pump brought. The stop flag is read first, and a delivery is waited for only
/// where it is not set.
#[derive(Clone, Copy, Debug, PartialEq, Eq, Structural)]
pub enum PollEvent {
    /// The stop flag was set, and nothing was waited for.
    Stopped,
    Delivery,
    /// Nothing arrived within the wait.
    NoFrame,
    /// The session was closed.
    Closed,
    /// The transport failed.
    Failed,
}

/// What the video pump does with it.
#[derive(Clone, Copy, Debug, PartialEq, Eq, Structural)]
pub enum PollAction {
    /// Handle the delivery, then forward HDR metadata.
    Handle,
    /// Forward HDR metadata; `log` tells whether the idle line is due.
    Idle { log: bool },
    /// Stop pumping, without another round; `error` tells a failure from an end that was asked for.
    End { error: bool },
}

/// What the audio pump does with it.
#[derive(Clone, Copy, Debug, PartialEq, Eq, Structural)]
pub enum AudioAction {
    Play,
    Wait,
    End,
}

/// How well the stage paces the picture.
#[derive(Clone, Copy, Debug, PartialEq, Eq, Structural)]
pub struct PacingHealth {
    pub jitter_ns: i64,
    /// Frames that were handed over too late to pace, over the whole session.
    pub late_stamps: u64,
}

/// The figures that a heartbeat publishes.
#[derive(Clone, Copy, Debug, PartialEq, Eq, Structural)]
pub struct Heartbeat {
    /// Depth of the decoder's backlog; -1 where it is unknown.
    pub render_backlog: i32,
    pub pacing_jitter_us: u32,
    pub pacing_late: u64,
    /// Left as it was where there is none.
    pub audio_plane_lead_ms: Option<i32>,
    /// The detail for the log, on its slower cadence.
    pub report: Option<VideoReport>,
}

/// The detail that a heartbeat logs.
#[derive(Clone, Copy, Debug, PartialEq, Eq, Structural)]
pub struct VideoReport {
    pub cadence: CadenceSnapshot,
    /// Late stamps since the last report.
    pub late_window: u64,
}

/// State of the video pump.
#[derive(Clone, Copy, Debug, PartialEq, Eq, Structural)]
pub struct VideoPump {
    /// Whether the host's HDR metadata is worth draining.
    pub is_hdr: bool,
    pub flags: FrameFlags,
    /// How long a gap covers the drops that are counted for it, in ns.
    pub drop_credit_window_ns: u64,
    /// The transport's count of drops as of the last frame.
    pub last_dropped_seen: u64,
    /// Drops that gaps have announced and that have not been counted yet.
    pub drop_credit: u64,
    /// When the credit lapses, in ns.
    pub drop_credit_expiry_ns: Option<u128>,
    pub hot_threads_boosted: bool,
    pub cadence: CadenceWindow,
    pub last_pacing_late_logged: u64,
    pub heartbeat: Tick,
    pub video_log: Tick,
}

/// Jitter in whole microseconds, zero where it is negative, at most the largest `u32`.
pub open spec fn jitter_us(jitter_ns: i64) -> u32 {
    let us = jitter_ns as int / 1_000;
    if jitter_ns <= 0 {
        0
    } else if us > u32::MAX {
        u32::MAX
    } else {
        us as u32
    }
}

/// A lead as it is published: the largest `i32` where it does not fit.
pub open spec fn lead_figure(ms: i64) -> i32 {
    if i32::MIN <= ms <= i32::MAX {
        ms as i32
    } else {
        i32::MAX
    }
}

impl Frame {
    /// Whether this is the first, or only, piece of its access unit.
    pub open spec fn au_first(self) -> bool {
        self.part matches Some(part) ==> part.first
    }

    /// Whether this is the first, or only, piece of its access unit.
    pub fn is_au_first(&self) -> (b: bool)
        ensures
            b == self.au_first(),
    {
        match self.part {
            Some(part) => part.first,
            None => true,
        }
    }
}

impl Loss {
    /// Whether loss reaches the frame at all.
    pub open spec fn lost(self) -> bool {
        self.gap_width > 0 || self.dropped
    }

    /// Whether loss reaches the frame at all.
    pub fn is_lost(&self) -> (b: bool)
        ensures
            b == self.lost(),
    {
        self.gap_width > 0 || self.dropped
    }
}

impl VideoPump {
    /// There is credit exactly while it has a time to lapse.
    pub open spec fn wf(self) -> bool {
        self.drop_credit == 0 <==> self.drop_credit_expiry_ns is None
    }

    /// A pump for a session on which the transport has counted `frames_dropped` drops so far.
    pub fn new(
        is_hdr: bool,
        flags: FrameFlags,
        drop_credit_window_ns: u64,
        frames_dropped: u64,
        now_ns: u64,
    ) -> (p: VideoPump)
        ensures
            p.wf(),
            p == (VideoPump {
                is_hdr,
                flags,
                drop_credit_window_ns,
                last_dropped_seen: frames_dropped,
                drop_credit: 0,
                drop_credit_expiry_ns: None,
                hot_threads_boosted: false,
                cadence: crate::cadence::empty_window(),
                last_pacing_late_logged: 0,
                heartbeat: Tick { interval_ns: HEARTBEAT_NS, last_ns: now_ns },
                video_log: Tick { interval_ns: VIDEO_LOG_INTERVAL_NS, last_ns: now_ns },
            }),
    {
        VideoPump {
            is_hdr,
            flags,
            drop_credit_window_ns,
            last_dropped_seen: frames_dropped,
            drop_credit: 0,
            drop_credit_expiry_ns: None,
            hot_threads_boosted: false,
            cadence: CadenceWindow::default(),
            last_pacing_late_logged: 0,
            heartbeat: Tick::new(HEARTBEAT_NS, now_ns),
            video_log: Tick::new(VIDEO_LOG_INTERVAL_NS, now_ns),
        }
    }

    /// What one round of the pump asks for.
    pub open spec fn poll_action(self, event: PollEvent, now_ns: u64) -> PollAction {
        match event {
            PollEvent::Stopped => PollAction::End { error: false },
            PollEvent::Delivery => PollAction::Handle,
            PollEvent::NoFrame => PollAction::Idle { log: self.heartbeat.due_at(now_ns) },
            PollEvent::Closed => PollAction::End { error: false },
            PollEvent::Failed => PollAction::End { error: true },
        }
    }

    /// The pump after one round: the idle line goes by the heartbeat's interval.
    pub open spec fn polled(self, event: PollEvent, now_ns: u64) -> VideoPump {
        if event == PollEvent::NoFrame && self.heartbeat.due_at(now_ns) {
            self.rearmed(now_ns)
        } else {
            self
        }
    }

    /// Decides one round of the pump.
    pub fn on_poll(&mut self, event: PollEvent, now_ns: u64) -> (action: PollAction)
        ensures
            action == old(self).poll_action(event, now_ns),
            *final(self) == old(self).polled(event, now_ns),
    {
        match event {
            PollEvent::Stopped => PollAction::End { error: false },
            PollEvent::Delivery => PollAction::Handle,
            PollEvent::NoFrame => PollAction::Idle { log: self.heartbeat.due(now_ns) },
            PollEvent::Closed => PollAction::End { error: false },
            PollEvent::Failed => PollAction::End { error: true },
        }
    }

    /// The pump with its heartbeat armed again from `now_ns`.
    pub open spec fn rearmed(self, now_ns: u64) -> VideoPump {
        VideoPump { heartbeat: Tick { last_ns: now_ns, ..self.heartbeat }, ..self }
    }

    /// Whether a heartbeat is due; if so, the next one is due an interval later.
    pub fn heartbeat_due(&mut self, now_ns: u64) -> (due: bool)
        ensures
            due == old(self).heartbeat.due_at(now_ns),
            *final(self) == if due {
                old(self).rearmed(now_ns)
            } else {
                *old(self)
            },
    {
        self.heartbeat.due(now_ns)
    }

    /// The figures of a heartbeat, from what the stage reports.
    pub open spec fn figures(
        self,
        backlog: Option<i32>,
        pacing: PacingHealth,
        plane_lead_ms: Option<i64>,
        now_ns: u64,
    ) -> Heartbeat {
        Heartbeat {
            render_backlog: match backlog {
                Some(depth) => depth,
                None => -1i32,
            },
            pacing_jitter_us: jitter_us(pacing.jitter_ns),
            pacing_late: pacing.late_stamps,
            audio_plane_lead_ms: match plane_lead_ms {
                Some(ms) => Some(lead_figure(ms)),
                None => None,
            },
            report: if self.video_log.due_at(now_ns) {
                Some(
                    VideoReport {
                        cadence: self.cadence.snapshot(),
                        late_window: crate::ndl::since(
                            pacing.late_stamps,
                            self.last_pacing_late_logged,
                        ),
                    },
                )
            } else {
                None
            },
        }
    }

    /// The pump once such a heartbeat is out: where its detail was due, the log window is closed
    /// and the next one runs from now.
    pub open spec fn beaten(self, pacing: PacingHealth, now_ns: u64) -> VideoPump {
        if self.video_log.due_at(now_ns) {
            VideoPump {
                cadence: self.cadence.cleared(),
                last_pacing_late_logged: pacing.late_stamps,
                video_log: Tick { last_ns: now_ns, ..self.video_log },
                ..self
            }
        } else {
            self
        }
    }

    /// The figures of a heartbeat, from what the stage reports.
    pub fn heartbeat(
        &mut self,
        backlog: Option<i32>,
        pacing: PacingHealth,
        plane_lead_ms: Option<i64>,
        now_ns: u64,
    ) -> (beat: Heartbeat)
        ensures
            beat == old(self).figures(backlog, pacing, plane_lead_ms, now_ns),
            *final(self) == old(self).beaten(pacing, now_ns),
    {
        let render_backlog: i32 = match backlog {
            Some(depth) => depth,
            None => -1,
        };
        let jitter_us: i64 = if pacing.jitter_ns > 0 {
            pacing.jitter_ns / 1_000
        } else {
            0
        };
        let pacing_jitter_us: u32 = if jitter_us <= 0xffff_ffff {
            jitter_us as u32
        } else {
            0xffff_ffff
        };
        let audio_plane_lead_ms: Option<i32> = match plane_lead_ms {
            Some(ms) => Some(
                if -0x8000_0000 <= ms && ms <= 0x7fff_ffff {
                    ms as i32
                } else {
                    0x7fff_ffff
                },
            ),
            None => None,
        };
        let mut report: Option<VideoReport> = None;
        if self.video_log.due(now_ns) {
            let cadence = self.cadence.take();
            let late_window: u64 = pacing.late_stamps.saturating_sub(self.last_pacing_late_logged);
            self.last_pacing_late_logged = pacing.late_stamps;
            report = Some(VideoReport { cadence, late_window });
        }
        Heartbeat {
            render_backlog,
            pacing_jitter_us,
            pacing_late: pacing.late_stamps,
            audio_plane_lead_ms,
            report,
        }
    }

    /// The credit that is left at a clock reading.
    pub open spec fn credit_at(self, now_ns: u64) -> u64 {
        match self.drop_credit_expiry_ns {
            Some(expiry) if now_ns >= expiry => 0,
            _ => self.drop_credit,
        }
    }

    /// Drops that the transport has counted since the last frame.
    pub open spec fn new_drops(self, dropped_now: u64) -> u64 {
        crate::ndl::since(dropped_now, self.last_dropped_seen)
    }

    /// The credit that covers the drops counted at a frame that a gap of this width precedes.
    pub open spec fn covering(self, gap_width: u32, now_ns: u64) -> u64 {
        crate::cadence::sat_add(self.credit_at(now_ns), gap_width as int)
    }

    /// How loss reaches a frame that a gap of this width precedes: by the gap, or by drops beyond
    /// those that gaps have announced.
    pub open spec fn loss_at(self, gap_width: u32, dropped_now: u64, now_ns: u64) -> Loss {
        Loss {
            gap_width,
            dropped: self.new_drops(dropped_now) > self.covering(gap_width, now_ns),
        }
    }

    /// The pump once the drops up to such a frame are counted. A gap announces as many drops as it
    /// is wide; drops use the credit up; what is left lapses a window after the last gap.
    pub open spec fn noted(self, gap_width: u32, dropped_now: u64, now_ns: u64) -> VideoPump {
        let left = crate::ndl::since(
            self.covering(gap_width, now_ns),
            self.new_drops(dropped_now),
        );
        VideoPump {
            last_dropped_seen: dropped_now,
            drop_credit: left,
            drop_credit_expiry_ns: if left == 0 {
                None
            } else if gap_width > 0 {
                Some((now_ns + self.drop_credit_window_ns) as u128)
            } else {
                self.drop_credit_expiry_ns
            },
            ..self
        }
    }

    /// Takes a frame's sequence gap and the transport's count of drops, and says how loss reaches
    /// the frame. Only the first piece of an access unit can show a gap.
    pub fn note_loss(
        &mut self,
        frame: &Frame,
        reported_gap: u32,
        dropped_now: u64,
        now_ns: u64,
    ) -> (loss: Loss)
        requires
            old(self).wf(),
        ensures
            final(self).wf(),
            frame.au_first() ==> {
                &&& loss == old(self).loss_at(reported_gap, dropped_now, now_ns)
                &&& *final(self) == old(self).noted(reported_gap, dropped_now, now_ns)
            },
            !frame.au_first() ==> {
                &&& loss == old(self).loss_at(0, dropped_now, now_ns)
                &&& *final(self) == old(self).noted(0, dropped_now, now_ns)
            },
    {
        let gap_width: u32 = if frame.is_au_first() {
            reported_gap
        } else {
            0
        };
        let dropped_delta: u64 = dropped_now.saturating_sub(self.last_dropped_seen);
        self.last_dropped_seen = dropped_now;
        if let Some(expiry) = self.drop_credit_expiry_ns {
            if now_ns as u128 >= expiry {
                self.drop_credit = 0;
                self.drop_credit_expiry_ns = None;
            }
        }
        if gap_width > 0 {
            self.drop_credit = self.drop_credit.saturating_add(gap_width as u64);
            self.drop_credit_expiry_ns = Some(
                now_ns as u128 + self.drop_credit_window_ns as u128,
            );
        }
        let credited: u64 = if dropped_delta <= self.drop_credit {
            dropped_delta
        } else {
            self.drop_credit
        };
        self.drop_credit = self.drop_credit - credited;
        if self.drop_credit == 0 {
            self.drop_credit_expiry_ns = None;
        }
        Loss { gap_width, dropped: dropped_delta > credited }
    }

    /// What the stage is told about a delivery.
    pub open spec fn wire(self, frame: Frame, loss: Loss) -> WireFrame {
        WireFrame {
            pts_ns: frame.pts_ns,
            index: frame.frame_index,
            part: frame.part,
            reanchor: frame.flags & self.flags.sof != 0 || frame.flags & self.flags.recovery_anchor
                != 0,
            recovery_mark: frame.flags & self.flags.recovery_point != 0 && frame.au_first(),
            loss: loss.lost(),
        }
    }

    /// What the stage is told about a delivery.
    pub fn wire_frame(&self, frame: &Frame, loss: &Loss) -> (wire: WireFrame)
        ensures
            wire == self.wire(*frame, *loss),
    {
        WireFrame {
            pts_ns: frame.pts_ns,
            index: frame.frame_index,
            part: frame.part,
            reanchor: frame.flags & self.flags.sof != 0 || frame.flags & self.flags.recovery_anchor
                != 0,
            recovery_mark: frame.flags & self.flags.recovery_point != 0 && frame.is_au_first(),
            loss: loss.is_lost(),
        }
    }

    /// What the outcome of a delivery asks for, where `was_dead` is what the shared flag of a dead
    /// decoder held before.
    pub open spec fn reaction(result: SinkResult, was_dead: bool) -> PumpAction {
        match result {
            SinkResult::Presented { decode_us: Some(us) } => PumpAction::ReportDecode { us },
            SinkResult::Presented { decode_us: None } => PumpAction::Nothing,
            SinkResult::Held => PumpAction::Nothing,
            SinkResult::NeedKeyframe => PumpAction::RequestKeyframe,
            SinkResult::Dead => PumpAction::EndSession { first: !was_dead },
        }
    }

    /// What the outcome of a delivery asks for, where `was_dead` is what the shared flag of a dead
    /// decoder held before.
    pub fn on_sink_result(result: SinkResult, was_dead: bool) -> (action: PumpAction)
        ensures
            action == Self::reaction(result, was_dead),
    {
        match result {
            SinkResult::Presented { decode_us } => match decode_us {
                Some(us) => PumpAction::ReportDecode { us },
                None => PumpAction::Nothing,
            },
            SinkResult::Held => PumpAction::Nothing,
            SinkResult::NeedKeyframe => PumpAction::RequestKeyframe,
            SinkResult::Dead => PumpAction::EndSession { first: !was_dead },
        }
    }

    /// Which of the metadata that the host has queued reaches the decoder: the newest, and none
    /// unless the session is HDR.
    pub fn forward_hdr_meta(&self, queued: &Vec<HdrMeta>) -> (latest: Option<HdrMeta>)
        ensures
            latest == if self.is_hdr && queued@.len() > 0 {
                Some(queued@.last())
            } else {
                None
            },
    {
        if !self.is_hdr || queued.len() == 0 {
            return None;
        }
        Some(queued[queued.len() - 1])
    }
}

/// What one round of an audio pump asks for.
pub open spec fn audio_action(event: PollEvent) -> AudioAction {
    match event {
        PollEvent::Stopped => AudioAction::End,
        PollEvent::Delivery => AudioAction::Play,
        PollEvent::NoFrame => AudioAction::Wait,
        PollEvent::Closed => AudioAction::End,
        PollEvent::Failed => AudioAction::End,
    }
}

/// Decides one round of an audio pump: the stop flag and any end of the transport end it.
pub fn audio_drain(event: PollEvent) -> (action: AudioAction)
    ensures
        action == audio_action(event),
{
    match event {
        PollEvent::Stopped => AudioAction::End,
        PollEvent::Delivery => AudioAction::Play,
        PollEvent::NoFrame => AudioAction::Wait,
        PollEvent::Closed => AudioAction::End,
        PollEvent::Failed => AudioAction::End,
    }
}

/// Counts the packets that an audio pump has played; the count wraps.
#[derive(Clone, Copy, Debug, PartialEq, Eq, Structural)]
pub struct AudioPump {
    pub packets: u32,
}

impl AudioPump {
    pub fn new() -> (p: AudioPump)
        ensures
            p == (AudioPump { packets: 0 }),
    {
        AudioPump { packets: 0 }
    }

    /// The count once a packet went to the sink, and whether a log line is due.
    pub open spec fn after_packet(self, ok: bool) -> (AudioPump, bool) {
        let packets: u32 = if self.packets == u32::MAX {
            0
        } else {
            (self.packets + 1) as u32
        };
        if ok {
            (AudioPump { packets }, packets % AUDIO_LOG_PACKETS == 0)
        } else {
            (self, false)
        }
    }

    /// A packet went to the sink, which took it or not: whether a log line is due, which it is at
    /// every so many packets taken.
    pub fn on_packet(&mut self, ok: bool) -> (log: bool)
        ensures
            (*final(self), log) == old(self).after_packet(ok),
            !ok ==> !log && *final(self) == *old(self),
            ok ==> {
                &&& final(self).packets == if old(self).packets == u32::MAX {
                    0
                } else {
                    old(self).packets + 1
                }
                &&& log == (final(self).packets % AUDIO_LOG_PACKETS == 0)
            },
    {
        if !ok {
            return false;
        }
        self.packets = self.packets.wrapping_add(1);
        self.packets % AUDIO_LOG_PACKETS == 0
    }
}

/// Whether a round ends its pump.
pub open spec fn ends(event: PollEvent) -> bool {
    event == PollEvent::Stopped || event == PollEvent::Closed || event == PollEvent::Failed
}

/// How many of these rounds take place: none after the first that ends the pump.
pub open spec fn rounds(events: Seq<PollEvent>) -> nat
    decreases events.len(),
{
    if events.len() == 0 {
        0
    } else if ends(events[0]) {
        1
    } else {
        1 + rounds(events.drop_first())
    }
}

/// What the rounds of a video pump ask for, one after the other, where each brings an event at a
/// clock reading and `End` stops the pump.
pub open spec fn pump_run(pump: VideoPump, events: Seq<PollEvent>, clock: Seq<u64>) -> Seq<PollAction>
    decreases events.len(),
{
    if events.len() == 0 {
        seq![]
    } else {
        let action = pump.poll_action(events[0], clock[0]);
        if action is End {
            seq![action]
        } else {
            seq![action] + pump_run(
                pump.polled(events[0], clock[0]),
                events.drop_first(),
                clock.drop_first(),
            )
        }
    }
}

/// What the rounds of an audio pump ask for, one after the other, where `End` stops the pump.
pub open spec fn audio_run(events: Seq<PollEvent>) -> Seq<AudioAction>
    decreases events.len(),
{
    if events.len() == 0 {
        seq![]
    } else {
        let action = audio_action(events[0]);
        if action is End {
            seq![action]
        } else {
            seq![action] + audio_run(events.drop_first())
        }
    }
}

/// A video pump handles every delivery of its rounds once and in order, goes on through idle ones,
/// and stops at the first round that finds the stop flag set or the transport at its end: nothing
/// that would have come after it is waited for.
pub proof fn law_pump_run(pump: VideoPump, events: Seq<PollEvent>, clock: Seq<u64>)
    requires
        clock.len() == events.len(),
    ensures
        pump_run(pump, events, clock).len() == rounds(events) <= events.len(),
        forall|i: int|
            0 <= i < rounds(events) ==> {
                let action = #[trigger] pump_run(pump, events, clock)[i];
                &&& action is Handle <==> events[i] == PollEvent::Delivery
                &&& action is Idle <==> events[i] == PollEvent::NoFrame
                &&& action is End <==> ends(events[i])
                &&& action is End ==> i == rounds(events) - 1
            },
    decreases events.len(),
{
    if events.len() > 0 && !ends(events[0]) {
        let next = pump.polled(events[0], clock[0]);
        let rest = pump_run(next, events.drop_first(), clock.drop_first());
        law_pump_run(next, events.drop_first(), clock.drop_first());
        let all = pump_run(pump, events, clock);
        assert forall|i: int| 0 < i < rounds(events) implies #[trigger] all[i] == rest[i - 1]
            && events[i] == events.drop_first()[i - 1] by {}
    }
}

/// An audio pump plays every packet of its rounds once and in order, goes on through idle ones, and
/// stops at the first round that finds the stop flag set or the transport at its end.
pub proof fn law_audio_run(events: Seq<PollEvent>)
    ensures
        audio_run(events).len() == rounds(events) <= events.len(),
        forall|i: int|
            0 <= i < rounds(events) ==> {
                let action = #[trigger] audio_run(events)[i];
                &&& action == AudioAction::Play <==> events[i] == PollEvent::Delivery
                &&& action == AudioAction::Wait <==> events[i] == PollEvent::NoFrame
                &&& action == AudioAction::End <==> ends(events[i])
                &&& action == AudioAction::End ==> i == rounds(events) - 1
            },
    decreases events.len(),
{
    if events.len() > 0 && !ends(events[0]) {
        let rest = audio_run(events.drop_first());
        law_audio_run(events.drop_first());
        let all = audio_run(events);
        assert forall|i: int| 0 < i < rounds(events) implies #[trigger] all[i] == rest[i - 1]
            && events[i] == events.drop_first()[i - 1] by {}
    }
}

/// How often these outcomes, one after the other, ask to tell of a dead decoder, where the shared
/// flag holds `was_dead` before the first and is set by every dead one.
pub open spec fn announcements(was_dead: bool, results: Seq<SinkResult>) -> nat
    decreases results.len(),
{
    if results.len() == 0 {
        0
    } else {
        let rest = announcements(was_dead || results[0] == SinkResult::Dead, results.drop_first());
        if VideoPump::reaction(results[0], was_dead) == (PumpAction::EndSession { first: true }) {
            1 + rest
        } else {
            rest
        }
    }
}

/// A dead decoder is told of once, however often the stage answers so, and not at all where the
/// shared flag was set before.
pub proof fn law_end_told_once(was_dead: bool, results: Seq<SinkResult>)
    ensures
        announcements(was_dead, results) == if !was_dead && results.contains(SinkResult::Dead) {
            1nat
        } else {
            0
        },
    decreases results.len(),
{
    if results.len() > 0 {
        let rest = results.drop_first();
        law_end_told_once(was_dead || results[0] == SinkResult::Dead, rest);
        assert(results.contains(SinkResult::Dead) <==> results[0] == SinkResult::Dead
            || rest.contains(SinkResult::Dead)) by {
            if rest.contains(SinkResult::Dead) {
                let k = choose|k: int| 0 <= k < rest.len() && rest[k] == SinkResult::Dead;
                assert(results[k + 1] == SinkResult::Dead);
            }
            if results.contains(SinkResult::Dead) && results[0] != SinkResult::Dead {
                let k = choose|k: int| 0 <= k < results.len() && results[k] == SinkResult::Dead;
                assert(rest[k - 1] == SinkResult::Dead);
            }
        }
    }
}

impl VideoPump {
    /// Drops that a gap announced are not reported as loss again when the transport counts them
    /// within the window; those beyond, and those counted after it, are.
    pub proof fn law_announced_drops(
        self,
        gap_width: u32,
        dropped_at_gap: u64,
        gap_ns: u64,
        dropped_later: u64,
        later_ns: u64,
    )
        requires
            self.wf(),
            gap_width > 0,
            self.drop_credit == 0,
            self.last_dropped_seen == dropped_at_gap,
            dropped_at_gap <= dropped_later,
        ensures
            self.loss_at(gap_width, dropped_at_gap, gap_ns).lost(),
            ({
                let loss = self.noted(gap_width, dropped_at_gap, gap_ns).loss_at(
                    0,
                    dropped_later,
                    later_ns,
                );
                let drops = dropped_later - dropped_at_gap;
                if later_ns < gap_ns + self.drop_credit_window_ns {
                    loss.lost() <==> drops > gap_width
                } else {
                    loss.lost() <==> drops > 0
                }
            }),
    {
    }

    /// The late stamps of successive reports add up to what the stage has counted, and each report
    /// covers the same window as the cadence beside it.
    pub proof fn law_late_windows_add_up(
        self,
        first: PacingHealth,
        second: PacingHealth,
        first_ns: u64,
        second_ns: u64,
    )
        requires
            self.last_pacing_late_logged <= first.late_stamps <= second.late_stamps,
            self.video_log.due_at(first_ns),
            self.beaten(first, first_ns).video_log.due_at(second_ns),
        ensures
            ({
                let next = self.beaten(first, first_ns);
                let one = self.figures(None, first, None, first_ns).report;
                let two = next.figures(None, second, None, second_ns).report;
                &&& one is Some
                &&& two is Some
                &&& one->0.late_window + two->0.late_window == second.late_stamps
                    - self.last_pacing_late_logged
                &&& one->0.cadence == self.cadence.snapshot()
                &&& two->0.cadence == self.cadence.cleared().snapshot()
            }),
    {
    }

    /// Where no gap was ever seen, every drop that the transport counts is loss, and nothing else.
    pub proof fn law_drops_without_gaps(self, dropped_now: u64, now_ns: u64)
        requires
            self.wf(),
            self.drop_credit == 0,
        ensures
            self.loss_at(0, dropped_now, now_ns).lost() <==> dropped_now > self.last_dropped_seen,
            self.noted(0, dropped_now, now_ns).drop_credit == 0,
    {
    }

    /// Drops and credit settle against each other: either all drops are covered and the rest of
    /// the credit stays, or all the credit is used up; and only with credit left does the pump
    /// wait for it to lapse.
    pub proof fn law_credit_settles(self, gap_width: u32, dropped_now: u64, now_ns: u64)
        requires
            self.wf(),
        ensures
            ({
                let after = self.noted(gap_width, dropped_now, now_ns);
                let drops = self.new_drops(dropped_now);
                &&& after.wf()
                &&& if self.loss_at(gap_width, dropped_now, now_ns).dropped {
                    after.drop_credit == 0
                } else {
                    after.drop_credit + drops == self.covering(gap_width, now_ns)
                }
            }),
    {
    }
}

/// Jitter is published in whole microseconds as long as it fits, and never as less than none.
pub proof fn law_jitter(jitter_ns: i64)
    ensures
        0 <= jitter_ns && jitter_us(jitter_ns) < u32::MAX ==> jitter_us(jitter_ns) * 1_000
            <= jitter_ns < (jitter_us(jitter_ns) + 1) * 1_000,
        jitter_us(jitter_ns) == u32::MAX ==> jitter_ns >= u32::MAX * 1_000,
        jitter_ns < 0 ==> jitter_us(jitter_ns) == 0,
{
}

/// A lead is published as it is, negative ones too; one that does not fit as the largest that does.
pub proof fn law_lead(ms: i64)
    ensures
        i32::MIN <= ms <= i32::MAX <==> lead_figure(ms) == ms,
        !(i32::MIN <= ms <= i32::MAX) ==> lead_figure(ms) == i32::MAX,
{
}

/// One frame as loss is counted: the gap before it, the transport's count of drops, the clock.
#[derive(Clone, Copy, Debug, PartialEq, Eq, Structural)]
pub struct Counted {
    pub gap_width: u32,
    pub dropped: u64,
    pub now_ns: u64,
}

impl VideoPump {
    /// The pump once these frames have been counted one after the other.
    pub open spec fn counted(self, frames: Seq<Counted>) -> VideoPump
        decreases frames.len(),
    {
        if frames.len() == 0 {
            self
        } else {
            let last = frames.last();
            self.counted(frames.drop_last()).noted(last.gap_width, last.dropped, last.now_ns)
        }
    }

    /// How loss reaches the last of these frames, the others having been counted before it.
    pub open spec fn last_loss(self, frames: Seq<Counted>) -> Loss {
        let last = frames.last();
        self.counted(frames.drop_last()).loss_at(last.gap_width, last.dropped, last.now_ns)
    }

    /// A gap announces as many drops as it is wide, for a window from when it was seen, however
    /// many frames without a gap come in between. Within the window no frame is lost as long as
    /// the drops counted since the gap are no more than the gap is wide; the credit that is left is
    /// the difference, and it lapses a window after the gap and at no other time.
    pub proof fn law_gap_covers_its_window(self, gap: Counted, frames: Seq<Counted>)
        requires
            self.wf(),
            self.drop_credit == 0,
            gap.gap_width > 0,
            self.last_dropped_seen == gap.dropped,
            forall|i: int|
                0 <= i < frames.len() ==> (#[trigger] frames[i]).gap_width == 0 && frames[i].now_ns
                    < gap.now_ns + self.drop_credit_window_ns && gap.dropped <= frames[i].dropped
                    <= gap.dropped + gap.gap_width,
            forall|i: int, j: int|
                0 <= i < j < frames.len() ==> (#[trigger] frames[i]).dropped <= (
                #[trigger] frames[j]).dropped,
        ensures
            self.loss_at(gap.gap_width, gap.dropped, gap.now_ns).lost(),
            ({
                let before = self.noted(gap.gap_width, gap.dropped, gap.now_ns);
                let after = before.counted(frames);
                let seen = if frames.len() == 0 {
                    gap.dropped
                } else {
                    frames.last().dropped
                };
                &&& frames.len() > 0 ==> !before.last_loss(frames).lost()
                &&& after.drop_credit == gap.dropped + gap.gap_width - seen
                &&& after.last_dropped_seen == seen
                &&& after.drop_credit > 0 ==> after.drop_credit_expiry_ns == Some(
                    (gap.now_ns + self.drop_credit_window_ns) as u128,
                )
                &&& after.wf()
                &&& after.drop_credit_window_ns == self.drop_credit_window_ns
            }),
        decreases frames.len(),
    {
        if frames.len() > 0 {
            let rest = frames.drop_last();
            assert forall|i: int| 0 <= i < rest.len() implies (#[trigger] rest[i]).gap_width == 0
                && rest[i].now_ns < gap.now_ns + self.drop_credit_window_ns && gap.dropped
                <= rest[i].dropped <= gap.dropped + gap.gap_width by {
                assert(rest[i] == frames[i]);
            }
            self.law_gap_covers_its_window(gap, rest);
            assert(frames.last() == frames[frames.len() - 1]);
            if rest.len() > 0 {
                assert(rest.last() == frames[frames.len() - 2]);
                assert(frames[frames.len() - 2].dropped <= frames[frames.len() - 1].dropped);
            }
        }
    }

    /// The time at which credit lapses is a window after the last gap: a frame with a gap sets it,
    /// a frame without one leaves it, and only with the credit itself does it go.
    pub proof fn law_lapse_goes_by_the_last_gap(self, frame: Counted)
        requires
            self.wf(),
        ensures
            ({
                let after = self.noted(frame.gap_width, frame.dropped, frame.now_ns);
                &&& after.drop_credit > 0 && frame.gap_width > 0 ==> (
                after.drop_credit_expiry_ns matches Some(at) && at == frame.now_ns
                    + self.drop_credit_window_ns)
                &&& after.drop_credit > 0 && frame.gap_width == 0 ==> after.drop_credit_expiry_ns
                    == self.drop_credit_expiry_ns
                &&& after.drop_credit == 0 <==> after.drop_credit_expiry_ns is None
            }),
    {
    }

    /// Credit at a frame is what was left, unless its time has come, and what the gap adds. Drops
    /// beyond it are loss and use it up; drops within it are not and are taken off it. The count of
    /// drops is remembered, and nothing else of the pump changes.
    pub proof fn law_credit(self, frame: Counted)
        requires
            self.wf(),
        ensures
            ({
                let after = self.noted(frame.gap_width, frame.dropped, frame.now_ns);
                let loss = self.loss_at(frame.gap_width, frame.dropped, frame.now_ns);
                let lapsed = self.drop_credit_expiry_ns matches Some(at) && frame.now_ns >= at;
                let held = if lapsed {
                    0int
                } else {
                    self.drop_credit as int
                };
                let drops = if frame.dropped > self.last_dropped_seen {
                    frame.dropped - self.last_dropped_seen
                } else {
                    0
                };
                &&& loss.gap_width == frame.gap_width
                &&& loss.lost() <==> frame.gap_width > 0 || loss.dropped
                &&& held + frame.gap_width <= u64::MAX ==> {
                    &&& loss.dropped <==> drops > held + frame.gap_width
                    &&& loss.dropped ==> after.drop_credit == 0
                    &&& !loss.dropped ==> after.drop_credit + drops == held + frame.gap_width
                }
                &&& held + frame.gap_width > u64::MAX ==> !loss.dropped && after.drop_credit + drops
                    == u64::MAX
                &&& after.last_dropped_seen == frame.dropped
                &&& self == (VideoPump {
                    last_dropped_seen: self.last_dropped_seen,
                    drop_credit: self.drop_credit,
                    drop_credit_expiry_ns: self.drop_credit_expiry_ns,
                    ..after
                })
            }),
    {
    }

    /// What the stage is told of a delivery's flags depends on nothing but the flags and the piece:
    /// it reanchors exactly where the flags share a bit with the start-of-frame flag or with the
    /// recovery-anchor flag, whatever the loss and whichever the piece; it marks a recovery exactly
    /// where they share one with the recovery-point flag and the piece is the first or only one.
    pub proof fn law_flags(self, frame: Frame, loss: Loss, other: Frame, other_loss: Loss)
        requires
            frame.flags == other.flags,
        ensures
            self.wire(frame, loss).reanchor <==> frame.flags & self.flags.sof != 0 || frame.flags
                & self.flags.recovery_anchor != 0,
            self.wire(frame, loss).reanchor == self.wire(other, other_loss).reanchor,
            self.wire(frame, loss).recovery_mark <==> frame.flags & self.flags.recovery_point != 0
                && (frame.part is None || frame.part->0.first),
            (frame.part is None || frame.part->0.first) == (other.part is None
                || other.part->0.first) ==> self.wire(frame, loss).recovery_mark == self.wire(
                other,
                other_loss,
            ).recovery_mark,
    {
    }

    /// The stage is told a delivery's stamp, index and piece as they are, and of loss exactly where
    /// a gap precedes it or a drop went unannounced, whatever its flags.
    pub proof fn law_wire(self, frame: Frame, loss: Loss)
        ensures
            self.wire(frame, loss).pts_ns == frame.pts_ns,
            self.wire(frame, loss).index == frame.frame_index,
            self.wire(frame, loss).part == frame.part,
            !self.wire(frame, loss).loss <==> loss.gap_width == 0 && !loss.dropped,
    {
    }

    /// A round is logged as idle exactly where nothing arrived and a heartbeat's interval has gone
    /// by since the last one, which it then counts as; an end is an error exactly where the
    /// transport failed. Nothing else of the pump changes.
    pub proof fn law_round(self, event: PollEvent, now_ns: u64)
        ensures
            ({
                let after = self.polled(event, now_ns);
                let idle_line = event is NoFrame && (now_ns >= self.heartbeat.last_ns
                    + self.heartbeat.interval_ns || self.heartbeat.interval_ns == 0);
                &&& self.poll_action(event, now_ns) matches PollAction::Idle { log } ==> log
                    == idle_line
                &&& self.poll_action(event, now_ns) matches PollAction::End { error } ==> (error
                    <==> event is Failed)
                &&& idle_line ==> after.heartbeat.last_ns == now_ns
                &&& !idle_line ==> after == self
                &&& after.heartbeat.interval_ns == self.heartbeat.interval_ns
                &&& self == (VideoPump { heartbeat: self.heartbeat, ..after })
            }),
    {
    }

    /// A heartbeat publishes what the stage reports: the backlog, with minus one for none, the
    /// pacing's count, and a lead only where there is one. The detail is reported exactly once per
    /// log interval; it holds the late stamps counted since the last report and the closed
    /// window's figures, and from then on both count anew. Otherwise nothing of the pump changes.
    pub proof fn law_heartbeat(
        self,
        backlog: Option<i32>,
        pacing: PacingHealth,
        plane_lead_ms: Option<i64>,
        now_ns: u64,
    )
        ensures
            ({
                let beat = self.figures(backlog, pacing, plane_lead_ms, now_ns);
                let after = self.beaten(pacing, now_ns);
                let due = now_ns >= self.video_log.last_ns + self.video_log.interval_ns
                    || self.video_log.interval_ns == 0;
                &&& backlog is Some ==> Some(beat.render_backlog) == backlog
                &&& backlog is None ==> beat.render_backlog == -1
                &&& beat.pacing_late == pacing.late_stamps
                &&& pacing.jitter_ns >= 0 && beat.pacing_jitter_us < u32::MAX
                    ==> beat.pacing_jitter_us * 1_000 <= pacing.jitter_ns < (beat.pacing_jitter_us
                    + 1) * 1_000
                &&& pacing.jitter_ns < 0 ==> beat.pacing_jitter_us == 0
                &&& beat.audio_plane_lead_ms is Some <==> plane_lead_ms is Some
                &&& plane_lead_ms matches Some(ms) ==> (i32::MIN <= ms <= i32::MAX
                    ==> beat.audio_plane_lead_ms->0 == ms)
                &&& beat.report is Some <==> due
                &&& beat.report matches Some(report) ==> {
                    &&& report.cadence == self.cadence.snapshot()
                    &&& pacing.late_stamps >= self.last_pacing_late_logged ==> report.late_window
                        + self.last_pacing_late_logged == pacing.late_stamps
                    &&& pacing.late_stamps < self.last_pacing_late_logged ==> report.late_window
                        == 0
                    &&& after.last_pacing_late_logged == pacing.late_stamps
                    &&& after.video_log.last_ns == now_ns
                    &&& after.video_log.interval_ns == self.video_log.interval_ns
                    &&& after.cadence.snapshot().aus == 0
                    &&& self == (VideoPump {
                        cadence: self.cadence,
                        last_pacing_late_logged: self.last_pacing_late_logged,
                        video_log: self.video_log,
                        ..after
                    })
                }
                &&& !due ==> after == self
            }),
    {
    }

    /// What an outcome asks for: the decode time is reported exactly where the stage gave one, a
    /// keyframe is requested exactly where the stage needs one, the session ends exactly where the
    /// decoder is dead, told where it was not so before; anything else asks for nothing.
    pub proof fn law_outcome(result: SinkResult, was_dead: bool)
        ensures
            ({
                let action = Self::reaction(result, was_dead);
                &&& action is ReportDecode <==> result is Presented && result->decode_us is Some
                &&& action is ReportDecode ==> result->decode_us == Some(action->us)
                &&& action is RequestKeyframe <==> result is NeedKeyframe
                &&& action is EndSession <==> result is Dead
                &&& action is EndSession ==> action->first != was_dead
                &&& action is Nothing <==> result is Held || (result is Presented
                    && result->decode_us is None)
            }),
    {
    }
}

/// The pump's heartbeat comes every two seconds and its detail every fifteen, counted from when the
/// last one came.
pub proof fn law_pump_intervals(last_ns: u64, now_ns: u64)
    ensures
        (Tick { interval_ns: HEARTBEAT_NS, last_ns }).due_at(now_ns) <==> now_ns >= last_ns
            + 2_000_000_000,
        (Tick { interval_ns: VIDEO_LOG_INTERVAL_NS, last_ns }).due_at(now_ns) <==> now_ns
            >= last_ns + 15_000_000_000,
{
}

/// How many of these packets the sink took.
pub open spec fn taken(packets: Seq<bool>) -> nat
    decreases packets.len(),
{
    if packets.len() == 0 {
        0
    } else if packets.last() {
        taken(packets.drop_last()) + 1
    } else {
        taken(packets.drop_last())
    }
}

/// An audio pump that begins at none, once these packets went to the sink.
pub open spec fn pumped(packets: Seq<bool>) -> AudioPump
    decreases packets.len(),
{
    if packets.len() == 0 {
        AudioPump { packets: 0 }
    } else {
        pumped(packets.drop_last()).after_packet(packets.last()).0
    }
}

/// An audio pump counts the packets that the sink took and no others, and asks for a line in the
/// log at every three-thousandth of them.
pub proof fn law_audio_log(packets: Seq<bool>, ok: bool)
    requires
        packets.len() < u32::MAX,
    ensures
        pumped(packets).packets == taken(packets) <= packets.len(),
        pumped(packets).after_packet(ok).1 <==> ok && (taken(packets) + 1) % 3_000 == 0,
    decreases packets.len(),
{
    if packets.len() > 0 {
        law_audio_log(packets.drop_last(), ok);
    }
}

} // verus!
