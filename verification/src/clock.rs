//! The clock plane: silence that keeps the decoder's audio plane ahead of the player clock, and
//! the metronome that paces it.

use vstd::prelude::*;

use crate::ndl::{NdlVideo, SilenceRun};

verus! {

/// Gap between clock-plane top-ups, in ns.
pub const PRIME_RETRY_NS: u64 = 20_000_000;

/// How recent the last picture must be for the video feed to own the clock, in ms.
pub const VIDEO_CLOCK_WATCHDOG_MS: i64 = 50;

/// How long the clock plane waits for real audio before it fills silence itself, in ms.
pub const REAL_FEED_GRACE_MS: i64 = 300;

/// Fixed deadlines, one `PRIME_RETRY_NS` apart.
#[derive(Clone, Copy, Debug, PartialEq, Eq, Structural)]
pub struct Metronome {
    pub next_tick_ns: u64,
}

impl Metronome {
    /// Moves on to the next deadline.
    pub fn advance(&mut self)
        requires
            old(self).next_tick_ns <= u64::MAX - PRIME_RETRY_NS,
        ensures
            final(self).next_tick_ns == old(self).next_tick_ns + PRIME_RETRY_NS,
    {
        self.next_tick_ns = self.next_tick_ns + PRIME_RETRY_NS;
    }

    /// How long to sleep until the deadline. A deadline that has passed is given up for the one
    /// after it, and the clock is to be read again.
    pub fn remaining(&mut self, now_ns: u64) -> (r: Option<u64>)
        requires
            now_ns <= u64::MAX - PRIME_RETRY_NS,
        ensures
            r is Some <==> old(self).next_tick_ns > now_ns,
            r matches Some(ns) ==> {
                &&& *final(self) == *old(self)
                &&& now_ns + ns == old(self).next_tick_ns
            },
            r is None ==> final(self).next_tick_ns == old(self).next_tick_ns + PRIME_RETRY_NS,
    {
        if self.next_tick_ns <= now_ns {
            self.advance();
            None
        } else {
            Some(self.next_tick_ns - now_ns)
        }
    }
}

/// A running clock plane.
#[derive(Clone, Copy, Debug, PartialEq, Eq, Structural)]
pub struct ClockPlane {
    /// Whether real audio, while it flows, takes the plane over.
    pub yields_to_real: bool,
    /// Constant offset of the stamps from the player clock.
    pub base_ms: i64,
    /// The stamp that the last burst reached.
    pub pts_ms: i64,
    /// Whether silence is standing in for real audio.
    pub filling: bool,
    pub metronome: Metronome,
    pub phase: ClockPhase,
}

/// Which action the caller is performing.
#[derive(Clone, Copy, Debug, PartialEq, Eq, Structural)]
pub enum ClockPhase {
    Polling,
    Locking,
    Feeding(SilenceRun),
    Ticking,
    Sleeping,
    Ended,
}

/// What the caller does next. The decoder is held from `Lock` to the last `Feed` after it.
#[derive(Clone, Copy, Debug, PartialEq, Eq, Structural)]
pub enum ClockAction {
    /// Read the stop flag and the clock.
    Poll,
    /// Wait until the decoder is free, then read the clock.
    Lock,
    /// Feed one silent packet, `OPUS_SILENCE`.
    Feed { pts_ms: i64 },
    /// Read the clock.
    ReadClock,
    /// Sleep.
    Sleep { ns: u64 },
    /// Nothing: the clock plane is over.
    Ended,
}

/// What the caller saw while performing an action.
#[derive(Clone, Copy, Debug, PartialEq, Eq, Structural)]
pub struct ClockReply {
    /// Whether the decoder took the packet it was handed.
    pub ok: bool,
    /// The clock.
    pub now_ns: u64,
    /// The stop flag.
    pub stop: bool,
}

impl ClockPlane {
    /// The base leaves room for every clock reading, and so does a run that is being fed.
    pub open spec fn wf(self) -> bool {
        &&& 0 <= self.base_ms <= crate::ndl::MAX_CLOCK_BASE_MS
        &&& self.phase matches ClockPhase::Feeding(run) ==> run.wf()
    }

    /// Whether real audio was fed within the grace period.
    pub open spec fn real_audio_flows(video: NdlVideo, now_ns: u64) -> bool {
        video.player_ms(now_ns) - video.last_real_feed_ms < REAL_FEED_GRACE_MS
    }

    /// Whether the video feed carries the clock: it is meant to, and a picture was fed recently.
    pub open spec fn video_carries(video: NdlVideo, now_ns: u64) -> bool {
        &&& video.video_drives_clock
        &&& video.last_video_feed_ms > 0
        &&& video.player_ms(now_ns) - video.last_video_feed_ms < VIDEO_CLOCK_WATCHDOG_MS
    }

    /// Whether another feed owns the plane at a clock reading.
    pub open spec fn yields(self, video: NdlVideo, now_ns: u64) -> bool {
        if self.yields_to_real {
            Self::real_audio_flows(video, now_ns)
        } else {
            Self::video_carries(video, now_ns)
        }
    }

    /// The silence of one burst.
    pub open spec fn burst(self, video: NdlVideo, now_ns: u64) -> SilenceRun {
        SilenceRun {
            pts_ms: crate::ndl::max_int(self.pts_ms as int, video.last_audio_pts_ms as int) as i64,
            target_ms: video.clock_target(self.base_ms as int, now_ns) as i64,
        }
    }

    /// The plane on its way to the next tick.
    pub open spec fn to_tick(self) -> ClockPlane {
        ClockPlane {
            metronome: Metronome {
                next_tick_ns: (self.metronome.next_tick_ns + PRIME_RETRY_NS) as u64,
            },
            phase: ClockPhase::Ticking,
            ..self
        }
    }

    /// The session once this clock plane is over: the video feed no longer drives the clock,
    /// unless real audio owned it all along.
    pub open spec fn released(self, video: NdlVideo) -> NdlVideo {
        NdlVideo {
            video_drives_clock: self.yields_to_real && video.video_drives_clock,
            ..video
        }
    }

    /// The plane in another phase.
    pub open spec fn at(self, phase: ClockPhase) -> ClockPlane {
        ClockPlane { phase, ..self }
    }

    /// The next packet of a run is fed; at its end, the plane waits for the next tick.
    pub open spec fn feeding(self, video: NdlVideo, run: SilenceRun) -> (
        ClockPlane,
        NdlVideo,
        ClockAction,
    ) {
        if run.pts_ms < run.target_ms {
            (
                self.at(ClockPhase::Feeding(run.advanced())),
                video,
                ClockAction::Feed { pts_ms: run.advanced().pts_ms },
            )
        } else {
            (
                ClockPlane { pts_ms: run.pts_ms, ..self.to_tick() },
                video.settled(run),
                ClockAction::ReadClock,
            )
        }
    }

    /// What follows the outcome of an action.
    pub open spec fn follow(self, video: NdlVideo, reply: ClockReply) -> (
        ClockPlane,
        NdlVideo,
        ClockAction,
    ) {
        match self.phase {
            ClockPhase::Polling => if reply.stop {
                (self.at(ClockPhase::Ended), self.released(video), ClockAction::Ended)
            } else if self.yields(video, reply.now_ns) {
                (
                    ClockPlane {
                        filling: self.filling && !self.yields_to_real,
                        ..self.to_tick()
                    },
                    video,
                    ClockAction::ReadClock,
                )
            } else {
                (
                    ClockPlane {
                        filling: self.filling || self.yields_to_real,
                        ..self.at(ClockPhase::Locking)
                    },
                    video,
                    ClockAction::Lock,
                )
            },
            ClockPhase::Locking => self.feeding(video, self.burst(video, reply.now_ns)),
            ClockPhase::Feeding(run) => if reply.ok {
                self.feeding(video, run)
            } else {
                (
                    self.at(ClockPhase::Ended),
                    self.released(video.settled(run)),
                    ClockAction::Ended,
                )
            },
            ClockPhase::Ticking => if reply.now_ns < self.metronome.next_tick_ns {
                (
                    self.at(ClockPhase::Sleeping),
                    video,
                    ClockAction::Sleep {
                        ns: (self.metronome.next_tick_ns - reply.now_ns) as u64,
                    },
                )
            } else {
                (self.to_tick(), video, ClockAction::ReadClock)
            },
            ClockPhase::Sleeping => (self.at(ClockPhase::Polling), video, ClockAction::Poll),
            ClockPhase::Ended => (self, video, ClockAction::Ended),
        }
    }

    /// Takes the outcome of one action and says which is next.
    pub fn next(&mut self, video: &mut NdlVideo, reply: ClockReply) -> (action: ClockAction)
        requires
            old(self).wf(),
            old(video).wf(),
            old(self).metronome.next_tick_ns <= u64::MAX - PRIME_RETRY_NS,
            reply.now_ns <= u64::MAX - PRIME_RETRY_NS,
        ensures
            final(self).wf(),
            final(video).wf(),
            (*final(self), *final(video), action) == old(self).follow(*old(video), reply),
            final(video).last_audio_pts_ms >= old(video).last_audio_pts_ms,
    {
        match self.phase {
            ClockPhase::Polling => {
                if reply.stop {
                    return self.end(video);
                }
                let now_ms: i64 = (video.elapsed_ns(reply.now_ns) / 1_000_000) as i64;
                if self.yields_to_real {
                    if now_ms - video.last_real_feed_ms < REAL_FEED_GRACE_MS {
                        self.filling = false;
                        return self.wait_for_tick();
                    }
                    self.filling = true;
                } else if video.video_drives_clock && video.last_video_feed_ms > 0 && now_ms
                    - video.last_video_feed_ms < VIDEO_CLOCK_WATCHDOG_MS {
                    return self.wait_for_tick();
                }
                self.phase = ClockPhase::Locking;
                ClockAction::Lock
            },
            ClockPhase::Locking => {
                let run = video.burst_silence(self.pts_ms, self.base_ms, reply.now_ns);
                self.feed_next(video, run)
            },
            ClockPhase::Feeding(run) => {
                if reply.ok {
                    self.feed_next(video, run)
                } else {
                    video.settle_silence(&run);
                    self.end(video)
                }
            },
            ClockPhase::Ticking => match self.metronome.remaining(reply.now_ns) {
                Some(ns) => {
                    self.phase = ClockPhase::Sleeping;
                    ClockAction::Sleep { ns }
                },
                None => ClockAction::ReadClock,
            },
            ClockPhase::Sleeping => {
                self.phase = ClockPhase::Polling;
                ClockAction::Poll
            },
            ClockPhase::Ended => ClockAction::Ended,
        }
    }

    /// Feeds the next packet of a run; at its end, waits for the next tick.
    fn feed_next(&mut self, video: &mut NdlVideo, run: SilenceRun) -> (action: ClockAction)
        requires
            old(self).wf(),
            old(video).wf(),
            run.wf(),
            old(self).metronome.next_tick_ns <= u64::MAX - PRIME_RETRY_NS,
        ensures
            final(self).wf(),
            final(video).wf(),
            (*final(self), *final(video), action) == old(self).feeding(*old(video), run),
    {
        let mut run = run;
        match run.next_stamp() {
            Some(pts_ms) => {
                self.phase = ClockPhase::Feeding(run);
                ClockAction::Feed { pts_ms }
            },
            None => {
                video.settle_silence(&run);
                self.pts_ms = run.pts_ms;
                self.wait_for_tick()
            },
        }
    }

    fn wait_for_tick(&mut self) -> (action: ClockAction)
        requires
            old(self).metronome.next_tick_ns <= u64::MAX - PRIME_RETRY_NS,
        ensures
            *final(self) == old(self).to_tick(),
            action == ClockAction::ReadClock,
    {
        self.metronome.advance();
        self.phase = ClockPhase::Ticking;
        ClockAction::ReadClock
    }

    fn end(&mut self, video: &mut NdlVideo) -> (action: ClockAction)
        ensures
            *final(self) == (ClockPlane { phase: ClockPhase::Ended, ..*old(self) }),
            *final(video) == old(self).released(*old(video)),
            action == ClockAction::Ended,
    {
        if !self.yields_to_real {
            video.video_drives_clock = false;
        }
        self.phase = ClockPhase::Ended;
        ClockAction::Ended
    }
}

impl NdlVideo {
    /// The session and its clock plane as the plane starts.
    pub open spec fn clock_started(self, yields_to_real: bool, now_ns: u64) -> (
        NdlVideo,
        ClockPlane,
    ) {
        let plane = ClockPlane {
            yields_to_real,
            base_ms: if yields_to_real {
                0
            } else {
                self.last_audio_pts_ms
            },
            pts_ms: self.last_audio_pts_ms,
            filling: false,
            metronome: Metronome { next_tick_ns: now_ns },
            phase: ClockPhase::Polling,
        };
        if yields_to_real {
            (self, plane)
        } else {
            (
                NdlVideo {
                    video_clock_base_ms: self.last_audio_pts_ms,
                    video_drives_clock: true,
                    ..self
                },
                plane,
            )
        }
    }

    /// Starts the clock plane. Unless it yields to real audio, its base is the stamp reached so
    /// far, and from here on the video feed drives the clock on that same base. The first action
    /// is `Poll`.
    pub fn run_clock_plane(&mut self, yields_to_real: bool, now_ns: u64) -> (plane: ClockPlane)
        requires
            old(self).wf(),
            !yields_to_real ==> old(self).last_audio_pts_ms <= crate::ndl::MAX_CLOCK_BASE_MS,
        ensures
            final(self).wf(),
            plane.wf(),
            (*final(self), plane) == old(self).clock_started(yields_to_real, now_ns),
            plane == (ClockPlane {
                yields_to_real,
                base_ms: if yields_to_real {
                    0
                } else {
                    old(self).last_audio_pts_ms
                },
                pts_ms: old(self).last_audio_pts_ms,
                filling: false,
                metronome: Metronome { next_tick_ns: now_ns },
                phase: ClockPhase::Polling,
            }),
            yields_to_real ==> *final(self) == *old(self),
            !yields_to_real ==> *final(self) == (NdlVideo {
                video_clock_base_ms: old(self).last_audio_pts_ms,
                video_drives_clock: true,
                ..*old(self)
            }),
    {
        let base_ms: i64 = if yields_to_real {
            0
        } else {
            self.last_audio_pts_ms
        };
        if !yields_to_real {
            self.video_clock_base_ms = base_ms;
            self.video_drives_clock = true;
        }
        ClockPlane {
            yields_to_real,
            base_ms,
            pts_ms: self.last_audio_pts_ms,
            filling: false,
            metronome: Metronome { next_tick_ns: now_ns },
            phase: ClockPhase::Polling,
        }
    }
}

/// The deadline once these clock readings have been taken, each of which gives up a deadline that
/// has passed.
pub open spec fn deadline_after(next_ns: int, readings: Seq<u64>) -> int
    decreases readings.len(),
{
    if readings.len() == 0 {
        next_ns
    } else if next_ns <= readings[0] {
        deadline_after(next_ns + PRIME_RETRY_NS, readings.drop_first())
    } else {
        deadline_after(next_ns, readings.drop_first())
    }
}

/// Deadlines stay whole intervals apart, however late the clock is read, and a late reading skips
/// no deadline that is still to come.
pub proof fn law_metronome(next_ns: int, readings: Seq<u64>, latest: u64)
    requires
        forall|i: int| 0 <= i < readings.len() ==> #[trigger] readings[i] <= latest,
    ensures
        (deadline_after(next_ns, readings) - next_ns) % PRIME_RETRY_NS as int == 0,
        deadline_after(next_ns, readings) >= next_ns,
        deadline_after(next_ns, readings) <= crate::ndl::max_int(
            next_ns,
            latest + PRIME_RETRY_NS,
        ),
    decreases readings.len(),
{
    if readings.len() > 0 {
        let rest = readings.drop_first();
        assert forall|i: int| 0 <= i < rest.len() implies #[trigger] rest[i] <= latest by {
            assert(rest[i] == readings[i + 1]);
        }
        if next_ns <= readings[0] {
            law_metronome(next_ns + PRIME_RETRY_NS, rest, latest);
        } else {
            law_metronome(next_ns, rest, latest);
        }
    }
}

/// The plane and the session once these replies have come in one after the other.
pub open spec fn after_replies(
    plane: ClockPlane,
    video: NdlVideo,
    replies: Seq<ClockReply>,
) -> (ClockPlane, NdlVideo)
    decreases replies.len(),
{
    if replies.len() == 0 {
        (plane, video)
    } else {
        let (next, after, _action) = plane.follow(video, replies[0]);
        after_replies(next, after, replies.drop_first())
    }
}

proof fn lemma_feeding_to_the_end(
    plane: ClockPlane,
    run: SilenceRun,
    video: NdlVideo,
    replies: Seq<ClockReply>,
)
    requires
        plane.phase == ClockPhase::Feeding(run),
        run.wf(),
        replies.len() == run.stamps().len() + 1,
        forall|i: int| 0 <= i < replies.len() ==> (#[trigger] replies[i]).ok,
    ensures
        after_replies(plane, video, replies) == (
            ClockPlane { pts_ms: run.end().pts_ms, ..plane.to_tick() },
            video.settled(run.end()),
        ),
    decreases replies.len(),
{
    let rest = replies.drop_first();
    assert forall|i: int| 0 <= i < rest.len() implies (#[trigger] rest[i]).ok by {
        assert(rest[i] == replies[i + 1]);
    }
    assert(replies[0].ok);
    if run.pts_ms < run.target_ms {
        assert(run.stamps().len() == 1 + run.advanced().stamps().len());
        let next = plane.at(ClockPhase::Feeding(run.advanced()));
        lemma_feeding_to_the_end(next, run.advanced(), video, rest);
        assert(next.to_tick() == plane.to_tick());
    } else {
        assert(rest.len() == 0);
        reveal_with_fuel(after_replies, 2);
    }
}

/// A burst that the decoder takes to its end leaves the audio plane's stamps at the clock's target
/// or later, less than a packet past it unless they already were, and the plane goes on to the
/// next tick.
pub proof fn law_burst(plane: ClockPlane, video: NdlVideo, replies: Seq<ClockReply>)
    requires
        plane.wf(),
        video.wf(),
        plane.phase == ClockPhase::Locking,
        replies.len() > 0,
        replies.len() == plane.burst(video, replies[0].now_ns).stamps().len() + 1,
        forall|i: int| 1 <= i < replies.len() ==> (#[trigger] replies[i]).ok,
    ensures
        ({
            let target = video.clock_target(plane.base_ms as int, replies[0].now_ns);
            let (next, after) = after_replies(plane, video, replies);
            let from = crate::ndl::max_int(plane.pts_ms as int, video.last_audio_pts_ms as int);
            &&& after.last_audio_pts_ms >= target
            &&& from < target ==> after.last_audio_pts_ms < target + crate::ndl::PRIME_PACKET_MS
            &&& after == (NdlVideo { last_audio_pts_ms: after.last_audio_pts_ms, ..video })
            &&& next.phase == ClockPhase::Ticking
            &&& next.pts_ms == after.last_audio_pts_ms
        }),
{
    let run = plane.burst(video, replies[0].now_ns);
    run.law_run();
    let rest = replies.drop_first();
    assert forall|i: int| 0 <= i < rest.len() implies (#[trigger] rest[i]).ok by {
        assert(rest[i] == replies[i + 1]);
    }
    if run.pts_ms < run.target_ms {
        assert(run.stamps().len() == 1 + run.advanced().stamps().len());
        lemma_feeding_to_the_end(
            plane.at(ClockPhase::Feeding(run.advanced())),
            run.advanced(),
            video,
            rest,
        );
    } else {
        assert(rest.len() == 0);
        reveal_with_fuel(after_replies, 2);
    }
}

/// Where the video feed drives the clock of a plane, it aims for the same stamp as the plane's own
/// bursts do, and nothing that the plane or a picture does moves either base.
pub proof fn law_one_timeline(
    plane: ClockPlane,
    video: NdlVideo,
    now_ns: u64,
    reply: ClockReply,
    p: crate::playing::Playing,
    played: crate::playing::PlayReply,
)
    requires
        plane.wf(),
        video.wf(),
        plane.base_ms == video.video_clock_base_ms,
    ensures
        video.top_up(now_ns) matches Some(run) ==> run.target_ms == plane.burst(
            video,
            now_ns,
        ).target_ms,
        plane.follow(video, reply).0.base_ms == plane.base_ms,
        plane.follow(video, reply).1.video_clock_base_ms == video.video_clock_base_ms,
        p.follow(video, played).1.video_clock_base_ms == video.video_clock_base_ms,
{
}

/// However a software clock ends, by the stop flag or by a packet that was refused, the video feed
/// no longer drives it; a clock that yields to real audio leaves that as it was.
pub proof fn law_clock_released(plane: ClockPlane, video: NdlVideo, reply: ClockReply)
    requires
        plane.phase != ClockPhase::Ended,
        plane.follow(video, reply).2 == ClockAction::Ended,
    ensures
        plane.follow(video, reply).0.phase == ClockPhase::Ended,
        !plane.yields_to_real ==> !plane.follow(video, reply).1.video_drives_clock,
        plane.yields_to_real ==> plane.follow(video, reply).1.video_drives_clock
            == video.video_drives_clock,
{
}

/// A picture that the decoder takes keeps a clock plane that the video feed drives off the decoder
/// for the watchdog's time, and no longer.
pub proof fn law_watchdog(
    plane: ClockPlane,
    p: crate::playing::Playing,
    video: NdlVideo,
    reply: crate::playing::PlayReply,
    later_ns: u64,
)
    requires
        video.wf(),
        !plane.yields_to_real,
        video.video_drives_clock,
        p.phase == crate::playing::PlayPhase::Submitting,
        reply.ok,
        video.player_ms(reply.now_ns) > 0,
    ensures
        plane.yields(p.follow(video, reply).1, later_ns) <==> video.player_ms(later_ns)
            - video.player_ms(reply.now_ns) < VIDEO_CLOCK_WATCHDOG_MS,
{
}

/// A real packet that the decoder takes keeps a clock plane that yields to real audio off the
/// decoder for the grace period, and no longer.
pub proof fn law_real_audio_owns_plane(
    plane: ClockPlane,
    video: NdlVideo,
    fed_ns: u64,
    later_ns: u64,
)
    requires
        video.wf(),
        plane.yields_to_real,
        video.last_real_feed_ms == video.player_ms(fed_ns),
    ensures
        plane.yields(video, later_ns) <==> video.player_ms(later_ns) - video.player_ms(fed_ns)
            < REAL_FEED_GRACE_MS,
{
}

/// A poll ends the plane where the stop flag is set. Otherwise it asks for the decoder exactly where
/// no other feed owns the plane, whatever the plane did before: a plane that yields to real audio is
/// owned for three hundred milliseconds after a real packet; a software plane is owned by a video
/// feed that drives its clock for fifty milliseconds after a picture. While it is owned, the plane
/// waits for the next tick, and the session is left alone.
pub proof fn law_poll(plane: ClockPlane, video: NdlVideo, reply: ClockReply)
    requires
        plane.phase == ClockPhase::Polling,
        plane.metronome.next_tick_ns <= u64::MAX - PRIME_RETRY_NS,
    ensures
        ({
            let (next, after, action) = plane.follow(video, reply);
            let now_ms = video.player_ms(reply.now_ns);
            let owned = if plane.yields_to_real {
                now_ms < video.last_real_feed_ms + 300
            } else {
                video.video_drives_clock && video.last_video_feed_ms > 0 && now_ms
                    < video.last_video_feed_ms + 50
            };
            &&& action is Ended <==> reply.stop
            &&& action is Lock <==> !reply.stop && !owned
            &&& action is ReadClock <==> !reply.stop && owned
            &&& !reply.stop ==> after == video
            &&& action is Lock ==> next.phase is Locking && next.metronome == plane.metronome
            &&& action is ReadClock ==> next.phase is Ticking && next.metronome.next_tick_ns
                == plane.metronome.next_tick_ns + 20_000_000
            &&& next.base_ms == plane.base_ms && next.pts_ms == plane.pts_ms
                && next.yields_to_real == plane.yields_to_real
            &&& plane.yields_to_real && !reply.stop ==> next.filling == !owned
            &&& !plane.yields_to_real ==> next.filling == plane.filling
        }),
{
}

/// What a poll asks for does not depend on anything that the plane did before: two planes that
/// yield alike ask for the same.
pub proof fn law_poll_has_no_memory(
    plane: ClockPlane,
    other: ClockPlane,
    video: NdlVideo,
    reply: ClockReply,
)
    requires
        plane.phase == ClockPhase::Polling,
        other.phase == ClockPhase::Polling,
        plane.yields_to_real == other.yields_to_real,
    ensures
        plane.follow(video, reply).2 == other.follow(video, reply).2,
        plane.follow(video, reply).1 == other.follow(video, reply).1,
{
}

/// Once the decoder is held, silence is fed exactly where the stamps are below the base, the player
/// clock as it is then, and forty milliseconds together; it starts a packet above the higher of
/// what the plane and the session have reached. Otherwise the plane waits for the next tick.
pub proof fn law_hold(plane: ClockPlane, video: NdlVideo, reply: ClockReply)
    requires
        plane.wf(),
        video.wf(),
        plane.phase == ClockPhase::Locking,
        plane.metronome.next_tick_ns <= u64::MAX - PRIME_RETRY_NS,
    ensures
        ({
            let (next, after, action) = plane.follow(video, reply);
            let target = plane.base_ms + video.player_ms(reply.now_ns) + 40;
            let from = if plane.pts_ms > video.last_audio_pts_ms {
                plane.pts_ms
            } else {
                video.last_audio_pts_ms
            };
            let behind = from < target;
            &&& video == (NdlVideo { last_audio_pts_ms: video.last_audio_pts_ms, ..after })
            &&& behind ==> after == video
            &&& !behind ==> after.last_audio_pts_ms == from
            &&& action is Feed <==> behind
            &&& action is ReadClock <==> !behind
            &&& behind ==> action->pts_ms == from + 5 && next.phase == (
            ClockPhase::Feeding(
                SilenceRun {
                    pts_ms: (from + 5) as i64,
                    target_ms: target as i64,
                },
            )) && next.metronome == plane.metronome && next.pts_ms == plane.pts_ms
            &&& !behind ==> next.phase is Ticking && next.metronome.next_tick_ns
                == plane.metronome.next_tick_ns + 20_000_000 && next.pts_ms == from
        }),
{
}

/// A burst goes on packet by packet while it is taken and below its target. At the end the session
/// and the plane are at the last stamp, and the plane waits for the next tick; a packet that is
/// refused ends the plane, and its stamp counts.
pub proof fn law_feed(plane: ClockPlane, run: SilenceRun, video: NdlVideo, reply: ClockReply)
    requires
        plane.wf(),
        video.wf(),
        plane.phase == ClockPhase::Feeding(run),
        run.pts_ms >= video.last_audio_pts_ms,
        plane.metronome.next_tick_ns <= u64::MAX - PRIME_RETRY_NS,
    ensures
        ({
            let (next, after, action) = plane.follow(video, reply);
            &&& action is Feed <==> reply.ok && run.pts_ms < run.target_ms
            &&& action is ReadClock <==> reply.ok && run.pts_ms >= run.target_ms
            &&& action is Ended <==> !reply.ok
            &&& action is Feed ==> after == video && action->pts_ms == run.pts_ms + 5
                && next.metronome == plane.metronome && next.phase == (ClockPhase::Feeding(
                SilenceRun { pts_ms: (run.pts_ms + 5) as i64, target_ms: run.target_ms },
            ))
            &&& !(action is Feed) ==> after.last_audio_pts_ms == run.pts_ms && video == (NdlVideo {
                last_audio_pts_ms: video.last_audio_pts_ms,
                video_drives_clock: video.video_drives_clock,
                ..after
            })
            &&& action is ReadClock ==> next.pts_ms == run.pts_ms && next.phase is Ticking
                && next.metronome.next_tick_ns == plane.metronome.next_tick_ns + 20_000_000
                && after.video_drives_clock == video.video_drives_clock
            &&& action is Ended ==> after.video_drives_clock == (plane.yields_to_real
                && video.video_drives_clock)
        }),
{
}

/// A plane that waits sleeps exactly until its deadline, and only where the deadline is still to
/// come; one that has passed is given up for the one twenty milliseconds later. After the sleep it
/// polls again. The session is left alone all along.
pub proof fn law_wait(
    plane: ClockPlane,
    video: NdlVideo,
    reply: ClockReply,
    slept: ClockReply,
)
    requires
        plane.phase == ClockPhase::Ticking,
        plane.metronome.next_tick_ns <= u64::MAX - PRIME_RETRY_NS,
    ensures
        ({
            let (next, after, action) = plane.follow(video, reply);
            let tick_ns = plane.metronome.next_tick_ns;
            &&& after == video
            &&& action is Sleep <==> reply.now_ns < tick_ns
            &&& action is Sleep ==> {
                &&& action->ns > 0
                &&& reply.now_ns + action->ns == tick_ns
                &&& next.follow(after, slept) == (
                    ClockPlane { phase: ClockPhase::Polling, ..plane },
                    video,
                    ClockAction::Poll,
                )
            }
            &&& !(action is Sleep) ==> action is ReadClock && next == (ClockPlane {
                metronome: Metronome { next_tick_ns: (tick_ns + 20_000_000) as u64 },
                ..plane
            })
        }),
{
}

/// A plane ends only by the stop flag at a poll or by a packet that was refused, and then stays
/// ended.
pub proof fn law_plane_ends(
    plane: ClockPlane,
    video: NdlVideo,
    reply: ClockReply,
    later: ClockReply,
)
    ensures
        plane.follow(video, reply).2 is Ended <==> {
            ||| plane.phase is Polling && reply.stop
            ||| plane.phase is Feeding && !reply.ok
            ||| plane.phase is Ended
        },
        plane.follow(video, reply).2 is Ended ==> {
            let (next, after, _action) = plane.follow(video, reply);
            next.follow(after, later) == (next, after, ClockAction::Ended)
        },
{
}

/// A software clock goes on from the stamp that the session has reached: it and the video feed, which
/// drives it from then on, aim forty milliseconds past that stamp and the player clock together. A
/// clock for real audio has no base and leaves the session alone. Either way the first tick counts
/// from the start.
pub proof fn law_clock_starts(video: NdlVideo, yields_to_real: bool, now_ns: u64, later_ns: u64)
    requires
        video.wf(),
        !yields_to_real ==> video.last_audio_pts_ms <= crate::ndl::MAX_CLOCK_BASE_MS,
    ensures
        ({
            let (after, plane) = video.clock_started(yields_to_real, now_ns);
            let base_ms = if yields_to_real {
                0int
            } else {
                video.last_audio_pts_ms as int
            };
            &&& plane.phase is Polling
            &&& plane.yields_to_real == yields_to_real
            &&& plane.metronome.next_tick_ns == now_ns
            &&& !plane.filling
            &&& plane.burst(after, later_ns).target_ms == base_ms + video.player_ms(later_ns) + 40
            &&& plane.burst(after, later_ns).pts_ms == video.last_audio_pts_ms
            &&& yields_to_real ==> after == video
            &&& !yields_to_real ==> after.video_drives_clock && after.video_clock_base_ms
                == plane.base_ms && video == (NdlVideo {
                video_drives_clock: video.video_drives_clock,
                video_clock_base_ms: video.video_clock_base_ms,
                ..after
            })
        }),
{
}

} // verus!
