//! One loaded NDL v2 decode session: when frames may be fed, how audio and silence are stamped,
//! when HDR metadata reaches the decoder.
//!
//! Clock readings are nanoseconds of one monotonic clock. The caller reads the clock and talks to
//! the decoder; this module says what to hand it and keeps the session's state.

use vstd::prelude::*;

use crate::hdr::{hdr_info, ColorInfo, HdrInfo, HdrMeta};

verus! {

/// How long past the load request frames are held while the load has not reported completion.
pub const FEED_ANYWAY_AFTER_NS: u64 = 1_000_000_000;

/// One empty Opus frame that declares stereo, matching the load.
pub const OPUS_SILENCE: [u8; 3] = [0xec, 0xff, 0xfe];

/// Duration of one silent packet, in ms.
pub const PRIME_PACKET_MS: i64 = 5;

/// How far ahead of the clock the stamps of silence may run, in packets.
pub const PRIME_LEAD: i64 = 8;

/// Lead of the audio plane's stamps over the player clock, in ms.
pub const PLANE_LEAD_MS: i64 = PRIME_LEAD * PRIME_PACKET_MS;

/// How far the lead may decay before the video feed tops the clock plane up, in ms.
pub const VIDEO_CLOCK_ASSIST_MARGIN_MS: i64 = 20;

/// Largest clock base, in ms: with it no stamp can leave the range of `i64` at any clock reading.
pub const MAX_CLOCK_BASE_MS: i64 = 9_223_353_590_110_702_053;

/// A loaded decode session.
#[derive(Clone, Copy, Debug)]
pub struct NdlVideo {
    /// Clock reading that stamps count from.
    pub load_instant_ns: u64,
    /// Clock reading at which the load was requested.
    pub load_requested_ns: u64,
    /// Whether this load got an audio plane.
    pub audio: bool,
    /// Highest audio stamp fed so far (ms), zero before the first. A stamp that the decoder was
    /// handed and refused counts as fed.
    pub last_audio_pts_ms: i64,
    /// Player-clock ms at the last real packet fed.
    pub last_real_feed_ms: i64,
    /// Whether the video feed carries the silent clock itself.
    pub video_drives_clock: bool,
    /// Constant offset of the silent clock, captured when it starts.
    pub video_clock_base_ms: i64,
    /// Player-clock ms at the last successful video feed.
    pub last_video_feed_ms: i64,
    /// Whether this load counts as completed.
    pub load_confirmed: bool,
    /// HDR metadata that arrived before the video plane had taken a frame.
    pub pending_hdr: Option<HdrInfo>,
    /// HDR metadata last taken by the decoder.
    pub applied_hdr: Option<HdrInfo>,
}

/// Frames cannot be fed yet.
#[derive(Clone, Copy, Debug, PartialEq, Eq, Structural)]
pub struct NotReady;

/// The samples are not an Opus packet.
#[derive(Clone, Copy, Debug, PartialEq, Eq, Structural)]
pub struct NotOpus;

/// A run of silent packets that is being fed: each next stamp is one packet after the last.
#[derive(Clone, Copy, Debug, PartialEq, Eq, Structural)]
pub struct SilenceRun {
    /// The stamp that the run has reached.
    pub pts_ms: i64,
    /// The run ends at the first stamp that is not below this.
    pub target_ms: i64,
}

/// One real audio packet to feed.
#[derive(Clone, Copy, Debug, PartialEq, Eq, Structural)]
pub struct AudioFeed {
    pub pts_ms: i64,
    /// Player-clock ms at which the packet was taken.
    pub now_ms: i64,
}

/// What a video sink can do.
#[derive(Clone, Copy, Debug, PartialEq, Eq, Structural)]
pub struct VideoSinkCaps {
    /// Takes stamps.
    pub pts: bool,
    /// Takes access units in pieces.
    pub partial_au: bool,
    pub flush: bool,
    /// Tells the depth of its render queue.
    pub render_queue: bool,
}

/// The larger of two numbers.
pub open spec fn max_int(a: int, b: int) -> int {
    if a >= b {
        a
    } else {
        b
    }
}

/// The time from `since` to `now`, zero where the clock went back.
pub open spec fn since(now_ns: u64, since_ns: u64) -> u64 {
    if now_ns >= since_ns {
        (now_ns - since_ns) as u64
    } else {
        0
    }
}

impl SilenceRun {
    /// No stamp of the run leaves the range of `i64`.
    pub open spec fn wf(self) -> bool {
        self.target_ms <= i64::MAX - PRIME_PACKET_MS
    }

    /// The run one packet further.
    pub open spec fn advanced(self) -> SilenceRun {
        SilenceRun { pts_ms: (self.pts_ms + PRIME_PACKET_MS) as i64, ..self }
    }

    /// The next stamp to feed; nothing once the target is reached.
    pub fn next_stamp(&mut self) -> (r: Option<i64>)
        requires
            old(self).wf(),
        ensures
            final(self).wf(),
            old(self).pts_ms < old(self).target_ms ==> {
                &&& *final(self) == old(self).advanced()
                &&& final(self).pts_ms == old(self).pts_ms + PRIME_PACKET_MS
                &&& r == Some(final(self).pts_ms)
            },
            old(self).pts_ms >= old(self).target_ms ==> r is None && *final(self) == *old(self),
    {
        if self.pts_ms < self.target_ms {
            self.pts_ms = self.pts_ms + PRIME_PACKET_MS;
            Some(self.pts_ms)
        } else {
            None
        }
    }
}

impl NdlVideo {
    /// Stamps are never negative, and the clock base leaves room for every clock reading.
    pub open spec fn wf(self) -> bool {
        &&& 0 <= self.last_audio_pts_ms
        &&& 0 <= self.last_real_feed_ms
        &&& 0 <= self.last_video_feed_ms
        &&& 0 <= self.video_clock_base_ms <= MAX_CLOCK_BASE_MS
    }

    /// The player clock at a clock reading, in ms.
    pub open spec fn player_ms(self, now_ns: u64) -> int {
        since(now_ns, self.load_instant_ns) as int / 1_000_000
    }

    /// Nanoseconds since the load, the domain of video stamps.
    pub fn elapsed_ns(&self, now_ns: u64) -> (ns: u64)
        ensures
            ns == since(now_ns, self.load_instant_ns),
    {
        now_ns.saturating_sub(self.load_instant_ns)
    }

    /// The player clock, in ms.
    fn elapsed_ms(&self, now_ns: u64) -> (ms: i64)
        ensures
            ms == self.player_ms(now_ns),
            0 <= ms <= 18_446_744_073_709,
    {
        (self.elapsed_ns(now_ns) / 1_000_000) as i64
    }

    pub fn has_audio_plane(&self) -> (b: bool)
        ensures
            b == self.audio,
    {
        self.audio
    }

    /// Whether frames may be fed at `now_ns`, `completed` telling whether the load has reported
    /// completion.
    pub open spec fn ready(self, now_ns: u64, completed: bool) -> bool {
        ||| self.load_confirmed
        ||| completed
        ||| since(now_ns, self.load_requested_ns) >= FEED_ANYWAY_AFTER_NS
    }

    /// Lets frames through once the load is completed, or overdue.
    pub fn ensure_loaded(&mut self, now_ns: u64, completed: bool) -> (r: Result<(), NotReady>)
        ensures
            r is Ok <==> old(self).ready(now_ns, completed),
            r is Ok ==> *final(self) == (NdlVideo { load_confirmed: true, ..*old(self) }),
            r is Err ==> *final(self) == *old(self),
    {
        if self.load_confirmed {
            return Ok(());
        }
        let elapsed: u64 = now_ns.saturating_sub(self.load_requested_ns);
        if !completed && elapsed < FEED_ANYWAY_AFTER_NS {
            return Err(NotReady);
        }
        self.load_confirmed = true;
        Ok(())
    }

    /// How far the audio plane's stamps run ahead of the player clock, in ms.
    pub open spec fn lead_ms(self, now_ns: u64) -> int {
        self.last_audio_pts_ms - self.player_ms(now_ns)
    }

    /// How far the audio plane's stamps run ahead of the player clock, in ms.
    pub fn audio_plane_lead_ms(&self, now_ns: u64) -> (ms: i64)
        requires
            self.wf(),
        ensures
            ms == self.lead_ms(now_ns),
            ms == self.last_audio_pts_ms - self.player_ms(now_ns),
    {
        self.last_audio_pts_ms - self.elapsed_ms(now_ns)
    }

    /// The stamp of a real packet at a clock reading: the lead over the player clock, or the
    /// highest stamp fed if that is later.
    pub open spec fn real_stamp(self, now_ns: u64) -> int {
        max_int(self.last_audio_pts_ms as int, self.player_ms(now_ns) + PLANE_LEAD_MS)
    }

    /// Takes one Opus packet for the audio plane: the stamp to feed it with, or nothing while the
    /// load is not confirmed, when the packet is dropped. The stamp counts as fed from here on.
    pub fn play_audio(&mut self, now_ns: u64) -> (r: Option<AudioFeed>)
        requires
            old(self).wf(),
        ensures
            final(self).wf(),
            r is Some <==> old(self).load_confirmed,
            r is None ==> *final(self) == *old(self),
            r matches Some(feed) ==> {
                &&& feed.now_ms == old(self).player_ms(now_ns)
                &&& feed.pts_ms == old(self).real_stamp(now_ns)
                &&& *final(self) == (NdlVideo { last_audio_pts_ms: feed.pts_ms, ..*old(self) })
            },
            final(self).last_audio_pts_ms >= old(self).last_audio_pts_ms,
    {
        if !self.load_confirmed {
            return None;
        }
        let now_ms: i64 = self.elapsed_ms(now_ns);
        let target_ms: i64 = now_ms + PLANE_LEAD_MS;
        let pts_ms: i64 = if self.last_audio_pts_ms >= target_ms {
            self.last_audio_pts_ms
        } else {
            target_ms
        };
        self.last_audio_pts_ms = pts_ms;
        Some(AudioFeed { pts_ms, now_ms })
    }

    /// The decoder took a real packet.
    pub fn audio_accepted(&mut self, feed: &AudioFeed)
        requires
            old(self).wf(),
            0 <= feed.now_ms,
        ensures
            final(self).wf(),
            *final(self) == (NdlVideo { last_real_feed_ms: feed.now_ms, ..*old(self) }),
    {
        self.last_real_feed_ms = feed.now_ms;
    }

    /// Takes one packet of samples. The plane takes Opus only and refuses everything else.
    pub fn feed(&mut self, is_opus: bool, now_ns: u64) -> (r: Result<Option<AudioFeed>, NotOpus>)
        requires
            old(self).wf(),
        ensures
            final(self).wf(),
            r is Err <==> !is_opus,
            r is Err ==> *final(self) == *old(self),
            r matches Ok(fed) ==> {
                &&& fed is Some <==> old(self).load_confirmed
                &&& fed is None ==> *final(self) == *old(self)
                &&& fed matches Some(feed) ==> {
                    &&& feed.now_ms == old(self).player_ms(now_ns)
                    &&& feed.pts_ms == old(self).real_stamp(now_ns)
                    &&& *final(self) == (NdlVideo { last_audio_pts_ms: feed.pts_ms, ..*old(self) })
                }
            },
    {
        if is_opus {
            Ok(self.play_audio(now_ns))
        } else {
            Err(NotOpus)
        }
    }

    /// Starts a run of silence from `from_ms`, or from the highest stamp fed if that is later.
    pub fn feed_silence_locked(&self, from_ms: i64, target_ms: i64) -> (run: SilenceRun)
        requires
            target_ms <= i64::MAX - PRIME_PACKET_MS,
        ensures
            run.wf(),
            run.pts_ms == max_int(from_ms as int, self.last_audio_pts_ms as int),
            run.target_ms == target_ms,
    {
        let pts_ms: i64 = if from_ms >= self.last_audio_pts_ms {
            from_ms
        } else {
            self.last_audio_pts_ms
        };
        SilenceRun { pts_ms, target_ms }
    }

    /// The session after a run of silence got as far as `run`.
    pub open spec fn settled(self, run: SilenceRun) -> NdlVideo {
        NdlVideo {
            last_audio_pts_ms: max_int(
                self.last_audio_pts_ms as int,
                run.pts_ms as int,
            ) as i64,
            ..self
        }
    }

    /// Records how far a run of silence got, whether it was completed or refused half-way; a
    /// stamp that was refused counts.
    pub fn settle_silence(&mut self, run: &SilenceRun)
        requires
            old(self).wf(),
        ensures
            final(self).wf(),
            *final(self) == old(self).settled(*run),
            final(self).last_audio_pts_ms >= old(self).last_audio_pts_ms,
    {
        if run.pts_ms > self.last_audio_pts_ms {
            self.last_audio_pts_ms = run.pts_ms;
        }
    }

    /// The stamp that the silent clock with this base aims for at a clock reading.
    pub open spec fn clock_target(self, base_ms: int, now_ns: u64) -> int {
        base_ms + self.player_ms(now_ns) + PLANE_LEAD_MS
    }

    /// Starts a run of silence up to a fixed lead over the player clock.
    pub fn burst_silence(&self, from_ms: i64, base_ms: i64, now_ns: u64) -> (run: SilenceRun)
        requires
            self.wf(),
            0 <= base_ms <= MAX_CLOCK_BASE_MS,
        ensures
            run.wf(),
            run.pts_ms == max_int(from_ms as int, self.last_audio_pts_ms as int),
            run.target_ms == self.clock_target(base_ms as int, now_ns),
    {
        let now_ms: i64 = self.elapsed_ms(now_ns);
        self.feed_silence_locked(from_ms, base_ms + now_ms + PLANE_LEAD_MS)
    }

    /// The silence that goes before a picture: while the video feed drives the clock and the
    /// lead has decayed by the margin, a run up to the clock's target.
    pub open spec fn top_up(self, now_ns: u64) -> Option<SilenceRun> {
        let target = self.clock_target(self.video_clock_base_ms as int, now_ns);
        if self.video_drives_clock && self.last_audio_pts_ms <= target
            - VIDEO_CLOCK_ASSIST_MARGIN_MS {
            Some(SilenceRun { pts_ms: self.last_audio_pts_ms, target_ms: target as i64 })
        } else {
            None
        }
    }

    /// The decoder took a picture.
    pub(crate) fn video_fed(&mut self, now_ns: u64)
        requires
            old(self).wf(),
        ensures
            final(self).wf(),
            *final(self) == (NdlVideo {
                last_video_feed_ms: old(self).player_ms(now_ns) as i64,
                ..*old(self)
            }),
    {
        self.last_video_feed_ms = self.elapsed_ms(now_ns);
    }

    /// What to hand to the decoder so that it has `info`: nothing where it already has.
    pub open spec fn hdr_due(self, info: Option<HdrInfo>) -> Option<HdrInfo> {
        if self.applied_hdr == info {
            None
        } else {
            info
        }
    }

    /// Takes the HDR metadata that was held back: the result is what to hand to the decoder.
    pub fn replay_pending_hdr(&mut self) -> (r: Option<HdrInfo>)
        ensures
            *final(self) == (NdlVideo { pending_hdr: None, ..*old(self) }),
            r == old(self).hdr_due(old(self).pending_hdr),
    {
        match self.pending_hdr.take() {
            Some(info) => self.apply_hdr_info(info),
            None => None,
        }
    }

    /// What to hand to the decoder so that it has `info`: nothing where it already has.
    pub fn apply_hdr_info(&self, info: HdrInfo) -> (r: Option<HdrInfo>)
        ensures
            r == self.hdr_due(Some(info)),
    {
        match self.applied_hdr {
            Some(applied) => if applied == info {
                None
            } else {
                Some(info)
            },
            None => Some(info),
        }
    }

    /// The decoder took HDR metadata.
    pub fn hdr_accepted(&mut self, info: HdrInfo)
        ensures
            *final(self) == (NdlVideo { applied_hdr: Some(info), ..*old(self) }),
    {
        self.applied_hdr = Some(info);
    }

    /// The session once it has taken metadata in the decoder's form, and what to hand over.
    pub open spec fn metadata_taken(self, info: HdrInfo, presenting: bool) -> (
        NdlVideo,
        Option<HdrInfo>,
    ) {
        if presenting {
            (NdlVideo { pending_hdr: None, ..self }, self.hdr_due(Some(info)))
        } else {
            (NdlVideo { pending_hdr: Some(info), ..self }, None)
        }
    }

    /// Takes HDR metadata. Until the decoder presents (`presenting`), the newest is held back;
    /// from then on the result is what to hand to the decoder, if it does not have it already.
    pub fn set_color_info(
        &mut self,
        meta: Option<&HdrMeta>,
        color: &ColorInfo,
        presenting: bool,
    ) -> (r: Option<HdrInfo>)
        ensures
            meta is None ==> r is None && *final(self) == *old(self),
            meta matches Some(m) ==> exists|info: HdrInfo|
                crate::hdr::describes(info, *m, *color) && (*final(self), r) == old(
                    self,
                ).metadata_taken(info, presenting),
            meta matches Some(m) ==> {
                &&& !presenting ==> {
                    &&& r is None
                    &&& final(self).pending_hdr matches Some(held) && crate::hdr::describes(held, *m, *color)
                    &&& *final(self) == (NdlVideo {
                        pending_hdr: final(self).pending_hdr,
                        ..*old(self)
                    })
                }
                &&& presenting ==> {
                    &&& *final(self) == (NdlVideo { pending_hdr: None, ..*old(self) })
                    &&& match r {
                        Some(info) => {
                            &&& crate::hdr::describes(info, *m, *color)
                            &&& old(self).applied_hdr != Some(info)
                        },
                        None => {
                            &&& old(self).applied_hdr matches Some(info)
                            &&& crate::hdr::describes(info, *m, *color)
                        },
                    }
                }
            },
    {
        let m = match meta {
            Some(m) => m,
            None => {
                return None;
            },
        };
        let info = hdr_info(m, color);
        if !presenting {
            self.pending_hdr = Some(info);
            return None;
        }
        self.pending_hdr = None;
        self.apply_hdr_info(info)
    }

    /// Whether a flush reaches the decoder: not before the load is completed.
    pub fn flush(&self, completed: bool) -> (b: bool)
        ensures
            b == (self.load_confirmed || completed),
    {
        self.load_confirmed || completed
    }

    /// The depth of the decoder's render queue as the stage counts it: unknown where the decoder
    /// reports none or a negative one.
    pub fn queue_depth(reported: Option<i32>) -> (depth: Option<u32>)
        ensures
            depth is Some <==> reported is Some && reported->0 >= 0,
            depth matches Some(d) ==> d == reported->0,
    {
        match reported {
            Some(d) if d >= 0 => Some(d as u32),
            _ => None,
        }
    }

    /// What the session can do as a video sink.
    pub fn caps() -> (caps: VideoSinkCaps)
        ensures
            caps == (VideoSinkCaps {
                pts: true,
                partial_au: true,
                flush: true,
                render_queue: true,
            }),
    {
        VideoSinkCaps { pts: true, partial_au: true, flush: true, render_queue: true }
    }
}

impl SilenceRun {
    /// How far the run is from its target, in ms.
    pub open spec fn distance(self) -> nat {
        if self.pts_ms < self.target_ms {
            (self.target_ms - self.pts_ms) as nat
        } else {
            0
        }
    }

    /// The stamps that the run has still to feed, in order.
    pub open spec fn stamps(self) -> Seq<i64>
        decreases self.distance(),
        when self.wf()
    {
        if self.pts_ms < self.target_ms {
            seq![self.advanced().pts_ms] + self.advanced().stamps()
        } else {
            seq![]
        }
    }

    /// The run once it has been fed to its end.
    pub open spec fn end(self) -> SilenceRun
        decreases self.distance(),
        when self.wf()
    {
        if self.pts_ms < self.target_ms {
            self.advanced().end()
        } else {
            self
        }
    }

    /// A run feeds one packet after another without a hole, and ends with the first stamp that
    /// reaches the target.
    pub proof fn law_run(self)
        requires
            self.wf(),
        ensures
            forall|i: int|
                0 <= i < self.stamps().len() ==> #[trigger] self.stamps()[i] == self.pts_ms + (i
                    + 1) * PRIME_PACKET_MS,
            self.end().pts_ms == self.pts_ms + self.stamps().len() * PRIME_PACKET_MS,
            self.end().target_ms == self.target_ms,
            self.end().pts_ms >= self.target_ms,
            self.pts_ms < self.target_ms ==> self.end().pts_ms < self.target_ms + PRIME_PACKET_MS,
            self.pts_ms >= self.target_ms ==> self.end() == self,
        decreases self.distance(),
    {
        if self.pts_ms < self.target_ms {
            let next = self.advanced();
            next.law_run();
            assert forall|i: int| 0 <= i < self.stamps().len() implies #[trigger] self.stamps()[i]
                == self.pts_ms + (i + 1) * PRIME_PACKET_MS by {
                if i > 0 {
                    assert(self.stamps()[i] == next.stamps()[i - 1]);
                }
            }
        }
    }
}

impl NdlVideo {
    /// A top-up that is fed to its end restores the clock's lead, and no other is due until the
    /// player clock has moved on by the margin.
    pub proof fn law_top_up(self, run: SilenceRun, now_ns: u64, later_ns: u64)
        requires
            self.wf(),
            self.top_up(now_ns) == Some(run),
        ensures
            self.settled(run.end()).last_audio_pts_ms >= self.clock_target(
                self.video_clock_base_ms as int,
                now_ns,
            ),
            self.player_ms(later_ns) < self.player_ms(now_ns) + VIDEO_CLOCK_ASSIST_MARGIN_MS
                ==> self.settled(run.end()).top_up(later_ns) is None,
    {
        run.law_run();
    }

    /// Once frames may be fed, they may be fed at any later time, whether or not the load reports
    /// completion again.
    pub proof fn law_ready_stays(
        self,
        now_ns: u64,
        completed: bool,
        later_ns: u64,
        completed_later: bool,
    )
        requires
            self.ready(now_ns, completed),
        ensures
            (NdlVideo { load_confirmed: true, ..self }).ready(later_ns, completed_later),
            !completed && later_ns >= now_ns ==> self.ready(later_ns, completed_later),
    {
    }

    /// Metadata that the decoder has taken is not handed to it again; any other is.
    pub proof fn law_hdr_once(self, info: HdrInfo, other: HdrInfo)
        requires
            self.applied_hdr == Some(info),
        ensures
            self.hdr_due(Some(info)) is None,
            other != info ==> self.hdr_due(Some(other)) == Some(other),
    {
    }
}

/// The time that went by is what must be added to the earlier reading to get the later one; where
/// the clock went back, none did.
pub proof fn law_since(now_ns: u64, since_ns: u64)
    ensures
        since_ns <= now_ns ==> since_ns + since(now_ns, since_ns) == now_ns,
        now_ns < since_ns ==> since(now_ns, since_ns) == 0,
{
}

impl NdlVideo {
    /// The player clock counts the whole milliseconds that have gone by since the load.
    pub proof fn law_player_clock(self, now_ns: u64)
        ensures
            now_ns >= self.load_instant_ns ==> {
                &&& self.load_instant_ns + self.player_ms(now_ns) * 1_000_000 <= now_ns
                &&& now_ns < self.load_instant_ns + (self.player_ms(now_ns) + 1) * 1_000_000
            },
            now_ns < self.load_instant_ns ==> self.player_ms(now_ns) == 0,
    {
    }

    /// Frames are held back exactly while the load is neither confirmed nor reported complete and
    /// less than a second has gone by since it was requested.
    pub proof fn law_held_back(self, now_ns: u64, completed: bool)
        ensures
            !self.ready(now_ns, completed) <==> !self.load_confirmed && !completed && now_ns
                < self.load_requested_ns + 1_000_000_000,
    {
    }

    /// A real packet is stamped with a lead of forty milliseconds over the player clock, never
    /// below what was fed before, and with nothing above the larger of the two.
    pub proof fn law_real_stamp(self, now_ns: u64)
        ensures
            self.real_stamp(now_ns) >= self.player_ms(now_ns) + 40,
            self.real_stamp(now_ns) >= self.last_audio_pts_ms,
            self.real_stamp(now_ns) - 40 == self.player_ms(now_ns) || self.real_stamp(now_ns)
                == self.last_audio_pts_ms,
    {
    }

    /// A run of silence moves the session's stamp up to where the run got, never down, and touches
    /// nothing else of the session.
    pub proof fn law_settled(self, run: SilenceRun)
        ensures
            self.settled(run).last_audio_pts_ms >= self.last_audio_pts_ms,
            self.settled(run).last_audio_pts_ms >= run.pts_ms,
            self.settled(run).last_audio_pts_ms == self.last_audio_pts_ms || self.settled(
                run,
            ).last_audio_pts_ms == run.pts_ms,
            self == (NdlVideo {
                last_audio_pts_ms: self.last_audio_pts_ms,
                ..self.settled(run)
            }),
    {
    }

    /// The silent clock aims forty milliseconds past its base and the player clock together, so
    /// that it moves on exactly as they do.
    pub proof fn law_clock_target(self, base_ms: int, now_ns: u64, moved_ms: int)
        ensures
            self.clock_target(base_ms, now_ns) - self.player_ms(now_ns) - base_ms == 40,
            self.clock_target(base_ms + moved_ms, now_ns) == self.clock_target(base_ms, now_ns)
                + moved_ms,
    {
    }

    /// Silence is due before a picture exactly while the video feed drives the clock and the lead
    /// over the player clock is at most the base and twenty milliseconds. It then starts a packet
    /// above what was fed and brings the lead to the base and forty milliseconds, less than a
    /// packet more.
    pub proof fn law_top_up_due(self, now_ns: u64)
        requires
            self.wf(),
        ensures
            self.top_up(now_ns) is Some <==> self.video_drives_clock && self.last_audio_pts_ms
                - self.player_ms(now_ns) <= self.video_clock_base_ms + 20,
            self.top_up(now_ns) matches Some(run) ==> {
                let lead = run.end().pts_ms - self.player_ms(now_ns);
                &&& run.wf()
                &&& run.stamps().len() > 0
                &&& run.stamps()[0] == self.last_audio_pts_ms + 5
                &&& self.video_clock_base_ms + 40 <= lead < self.video_clock_base_ms + 45
            },
    {
        if let Some(run) = self.top_up(now_ns) {
            run.law_run();
        }
    }

    /// Metadata is handed to the decoder unchanged, exactly where there is some and the decoder
    /// does not have the very same.
    pub proof fn law_hdr_due(self, info: Option<HdrInfo>)
        ensures
            self.hdr_due(info) is Some <==> info is Some && self.applied_hdr != info,
            self.hdr_due(info) is Some ==> self.hdr_due(info) == info,
    {
    }
}

impl NdlVideo {
    /// The lead falls by as much as the player clock moves on and rises by as much as the stamp
    /// does; it is negative where the clock has overtaken the stamp.
    pub proof fn law_lead(self, now_ns: u64, fed_ms: i64)
        ensures
            self.player_ms(now_ns) + self.lead_ms(now_ns) == self.last_audio_pts_ms,
            (NdlVideo { last_audio_pts_ms: fed_ms, ..self }).lead_ms(now_ns) - self.lead_ms(now_ns)
                == fed_ms - self.last_audio_pts_ms,
    {
    }

    /// Until the decoder presents, metadata is held and the newest replaces what was; once it
    /// presents, metadata is handed over unless the decoder has it, and what was held is forgotten,
    /// so that nothing older can follow. Nothing else of the session changes.
    pub proof fn law_newest_metadata(self, first: HdrInfo, second: HdrInfo)
        ensures
            ({
                let (held, none) = self.metadata_taken(first, false);
                let (newer, none_either) = held.metadata_taken(second, false);
                let (shown, handed) = newer.metadata_taken(first, true);
                &&& none is None && none_either is None
                &&& held.pending_hdr == Some(first)
                &&& newer.pending_hdr == Some(second)
                &&& shown.pending_hdr is None
                &&& handed is None <==> self.applied_hdr == Some(first)
                &&& handed is Some ==> handed == Some(first)
                &&& self == (NdlVideo { pending_hdr: self.pending_hdr, ..held })
                &&& self == (NdlVideo { pending_hdr: self.pending_hdr, ..newer })
                &&& self == (NdlVideo { pending_hdr: self.pending_hdr, ..shown })
            }),
    {
    }
}

} // verus!
