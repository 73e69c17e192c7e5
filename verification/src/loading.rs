//! Loading a decode session: with an audio plane first, where one is asked for, and without one
//! where that does not come up.

use vstd::prelude::*;

use crate::ndl::NdlVideo;

verus! {

/// The audio plane that a load asks for.
#[derive(Clone, Copy, Debug, PartialEq, Eq, Structural)]
pub struct OpusPlane {
    pub kind: i32,
    pub unknown1: i32,
    pub channels: i32,
    pub unknown2: i32,
    pub sample_rate_khz: i32,
    /// Whether a stream header goes along.
    pub stream_header: bool,
}

/// Opus, stereo, 48 kHz, without a stream header; the fields of unknown meaning are zero.
pub open spec fn stereo_opus() -> OpusPlane {
    OpusPlane {
        kind: 3,
        unknown1: 0,
        channels: 2,
        unknown2: 0,
        sample_rate_khz: 48,
        stream_header: false,
    }
}

/// The audio plane that every load with audio asks for.
pub fn plane_config() -> (plane: OpusPlane)
    ensures
        plane == stereo_opus(),
{
    OpusPlane {
        kind: 3,
        unknown1: 0,
        channels: 2,
        unknown2: 0,
        sample_rate_khz: 48,
        stream_header: false,
    }
}

/// The video stream of a load.
#[derive(Clone, Copy, Debug, PartialEq, Eq, Structural)]
pub struct VideoInfo {
    pub width: i32,
    pub height: i32,
    /// The decoder's number for the codec.
    pub kind: i32,
    pub unknown1: i32,
}

/// What a load is requested with; no audio plane stands for a silent one.
#[derive(Clone, Copy, Debug, PartialEq, Eq, Structural)]
pub struct DataInfo {
    pub video: VideoInfo,
    pub audio: Option<OpusPlane>,
}

/// Silence that is being fed until an audio-enabled load reports completion.
#[derive(Clone, Copy, Debug, PartialEq, Eq, Structural)]
pub struct Prime {
    /// Clock reading at which the load was requested.
    pub requested_ns: u64,
    /// Clock reading at which priming began.
    pub start_ns: u64,
    /// Stamp of the next silent packet.
    pub pts_ms: i64,
    /// The current batch ends before the first stamp that is not below this.
    pub target_ms: i64,
}

/// A load in progress.
#[derive(Clone, Copy, Debug, PartialEq, Eq, Structural)]
pub struct Loading {
    pub video: VideoInfo,
    /// Whether an audio plane is asked for.
    pub audio: bool,
    /// How long an audio-enabled load may take to report completion, in ns.
    pub timeout_ns: u64,
    /// The count of unloads when the audio-enabled attempt began.
    pub unloads_before: u64,
    pub phase: LoadPhase,
}

/// Which action the caller is performing.
#[derive(Clone, Copy, Debug, PartialEq, Eq, Structural)]
pub enum LoadPhase {
    CheckingPoison,
    Resolving,
    Initialising,
    Counting,
    Arming { audio: bool },
    Issuing { audio: bool, requested_ns: u64 },
    Priming(Prime),
    Awaiting(Prime),
    Waiting { requested_ns: u64 },
    Discarding,
    Unloading,
    Settling,
    Ended,
}

/// What the caller does next. While silence is fed, the decoder is held.
#[derive(Clone, Copy, Debug)]
pub enum LoadAction {
    /// Check that the decoder is still usable in this process.
    CheckPoisoned,
    /// Look up the decoder's functions.
    ResolveSymbols,
    /// Initialise the decoder, on first use.
    Init,
    /// Read the count of unloads.
    CountUnloads,
    /// Forget any earlier completion report, then read the clock.
    Arm,
    /// Request the load, then read the clock.
    Issue { info: DataInfo },
    /// Feed one silent packet, `OPUS_SILENCE`.
    FeedSilence { pts_ms: i64 },
    /// Give the load a short while to report completion, then read the clock.
    AwaitCompletion,
    /// Wait out the load's completion report.
    WaitCompleted,
    /// Drop the session that was just loaded.
    Discard,
    /// Unload whatever the decoder holds.
    Unload,
    /// Wait until the unloads since the given count have settled.
    Settle { unloads_before: u64 },
    /// The session is loaded.
    Done { video: NdlVideo },
    /// Report the error of the action just performed.
    Failed,
    /// Nothing: the load is over.
    Ended,
}

/// What the caller saw while performing an action.
#[derive(Clone, Copy, Debug, PartialEq, Eq, Structural)]
pub struct LoadReply {
    /// Whether the action succeeded.
    pub ok: bool,
    /// Whether the load has reported completion.
    pub completed: bool,
    /// The clock.
    pub now_ns: u64,
    /// The count of unloads.
    pub unloads: u64,
}

/// A session as it is loaded at `now_ns`.
pub open spec fn fresh_session(
    now_ns: u64,
    requested_ns: u64,
    audio: bool,
    primed_pts_ms: i64,
    confirmed: bool,
) -> NdlVideo {
    NdlVideo {
        load_instant_ns: now_ns,
        load_requested_ns: requested_ns,
        audio,
        last_audio_pts_ms: primed_pts_ms,
        last_real_feed_ms: 0,
        video_drives_clock: false,
        video_clock_base_ms: 0,
        last_video_feed_ms: 0,
        load_confirmed: confirmed,
        pending_hdr: None,
        applied_hdr: None,
    }
}

/// A session as it is loaded at `now_ns`.
fn new_session(
    now_ns: u64,
    requested_ns: u64,
    audio: bool,
    primed_pts_ms: i64,
    confirmed: bool,
) -> (video: NdlVideo)
    ensures
        video == fresh_session(now_ns, requested_ns, audio, primed_pts_ms, confirmed),
{
    NdlVideo {
        load_instant_ns: now_ns,
        load_requested_ns: requested_ns,
        audio,
        last_audio_pts_ms: primed_pts_ms,
        last_real_feed_ms: 0,
        video_drives_clock: false,
        video_clock_base_ms: 0,
        last_video_feed_ms: 0,
        load_confirmed: confirmed,
        pending_hdr: None,
        applied_hdr: None,
    }
}

impl Prime {
    /// Stamps are whole packets from zero on and stay close to the clock.
    pub open spec fn wf(self) -> bool {
        &&& 0 <= self.pts_ms <= 18_446_744_073_754
        &&& self.pts_ms % crate::ndl::PRIME_PACKET_MS == 0
    }

    /// The stamp that the batch begun at `now_ns` is to reach.
    pub open spec fn target_at(self, now_ns: u64) -> int {
        crate::ndl::since(now_ns, self.start_ns) as int / 1_000_000 + crate::ndl::PLANE_LEAD_MS
    }

    /// The stamp of the last packet before the next one, zero where there was none.
    pub open spec fn last_fed(self) -> i64 {
        if self.pts_ms >= crate::ndl::PRIME_PACKET_MS {
            (self.pts_ms - crate::ndl::PRIME_PACKET_MS) as i64
        } else {
            0
        }
    }

    /// The stamp of the last packet before the next one, zero where there was none.
    pub fn last_fed_ms(&self) -> (ms: i64)
        ensures
            ms == self.last_fed(),
    {
        if self.pts_ms >= crate::ndl::PRIME_PACKET_MS {
            self.pts_ms - crate::ndl::PRIME_PACKET_MS
        } else {
            0
        }
    }
}

impl NdlVideo {
    /// Starts loading a session. `timeout_ns` bounds how long an audio-enabled load may take to
    /// report completion. The first action is `CheckPoisoned`.
    pub fn load(width: i32, height: i32, kind: i32, audio: bool, timeout_ns: u64) -> (l: Loading)
        ensures
            l.wf(),
            l == Loading::begun(width, height, kind, audio, timeout_ns),
            l == (Loading {
                video: VideoInfo { width, height, kind, unknown1: 0 },
                audio,
                timeout_ns,
                unloads_before: 0,
                phase: LoadPhase::CheckingPoison,
            }),
    {
        Loading {
            video: VideoInfo { width, height, kind, unknown1: 0 },
            audio,
            timeout_ns,
            unloads_before: 0,
            phase: LoadPhase::CheckingPoison,
        }
    }
}

impl Loading {
    pub open spec fn wf(self) -> bool {
        match self.phase {
            LoadPhase::Counting => self.audio,
            LoadPhase::Arming { audio } => audio ==> self.audio,
            LoadPhase::Issuing { audio, .. } => audio ==> self.audio,
            LoadPhase::Priming(p) => self.audio && p.wf() && p.pts_ms < p.target_ms
                <= 18_446_744_073_749,
            LoadPhase::Awaiting(p) => self.audio && p.wf(),
            LoadPhase::Discarding => self.audio,
            LoadPhase::Unloading => self.audio,
            LoadPhase::Settling => self.audio,
            _ => true,
        }
    }

    /// What this load is requested with, with or without the audio plane.
    pub open spec fn data_info(self, audio: bool) -> DataInfo {
        DataInfo {
            video: self.video,
            audio: if audio {
                Some(stereo_opus())
            } else {
                None
            },
        }
    }

    /// The audio-enabled attempt ends, silence having been fed up to `fed_ms`: it stands only if
    /// the load reported completion.
    pub open spec fn primed(self, p: Prime, fed_ms: i64, confirmed: bool, now_ns: u64) -> (
        LoadPhase,
        LoadAction,
    ) {
        if confirmed {
            (
                LoadPhase::Ended,
                LoadAction::Done {
                    video: fresh_session(now_ns, p.requested_ns, true, fed_ms, true),
                },
            )
        } else {
            (LoadPhase::Discarding, LoadAction::Discard)
        }
    }

    /// Priming goes on: until the load reports completion or takes too long, the next batch of
    /// silence is fed up to a fixed lead over the clock.
    pub open spec fn prime_round(self, p: Prime, completed: bool, now_ns: u64) -> (
        LoadPhase,
        LoadAction,
    ) {
        if completed {
            self.primed(p, p.last_fed(), true, now_ns)
        } else if crate::ndl::since(now_ns, p.start_ns) >= self.timeout_ns {
            self.primed(p, p.last_fed(), false, now_ns)
        } else {
            self.prime_batch(Prime { target_ms: p.target_at(now_ns) as i64, ..p })
        }
    }

    /// Feeds the next packet of a batch; at its end, gives the load a while.
    pub open spec fn prime_batch(self, p: Prime) -> (LoadPhase, LoadAction) {
        if p.pts_ms < p.target_ms {
            (LoadPhase::Priming(p), LoadAction::FeedSilence { pts_ms: p.pts_ms })
        } else {
            (LoadPhase::Awaiting(p), LoadAction::AwaitCompletion)
        }
    }

    /// What follows the outcome of an action. Silence that is refused ends the priming, and its
    /// stamp counts as fed.
    pub open spec fn follow(self, reply: LoadReply) -> (LoadPhase, LoadAction) {
        match self.phase {
            LoadPhase::CheckingPoison => if reply.ok {
                (LoadPhase::Resolving, LoadAction::ResolveSymbols)
            } else {
                (LoadPhase::Ended, LoadAction::Failed)
            },
            LoadPhase::Resolving => if reply.ok {
                (LoadPhase::Initialising, LoadAction::Init)
            } else {
                (LoadPhase::Ended, LoadAction::Failed)
            },
            LoadPhase::Initialising => if !reply.ok {
                (LoadPhase::Ended, LoadAction::Failed)
            } else if self.audio {
                (LoadPhase::Counting, LoadAction::CountUnloads)
            } else {
                (LoadPhase::Arming { audio: false }, LoadAction::Arm)
            },
            LoadPhase::Counting => (LoadPhase::Arming { audio: true }, LoadAction::Arm),
            LoadPhase::Arming { audio } => (
                LoadPhase::Issuing { audio, requested_ns: reply.now_ns },
                LoadAction::Issue { info: self.data_info(audio) },
            ),
            LoadPhase::Issuing { audio, requested_ns } => if audio && reply.ok {
                let p = Prime { requested_ns, start_ns: reply.now_ns, pts_ms: 0, target_ms: 0 };
                self.prime_round(p, reply.completed, reply.now_ns)
            } else if audio {
                (LoadPhase::Unloading, LoadAction::Unload)
            } else if reply.ok {
                (LoadPhase::Waiting { requested_ns }, LoadAction::WaitCompleted)
            } else {
                (LoadPhase::Ended, LoadAction::Failed)
            },
            LoadPhase::Priming(p) => if reply.ok {
                self.prime_batch(
                    Prime { pts_ms: (p.pts_ms + crate::ndl::PRIME_PACKET_MS) as i64, ..p },
                )
            } else {
                self.primed(p, p.pts_ms, reply.completed, reply.now_ns)
            },
            LoadPhase::Awaiting(p) => self.prime_round(p, reply.completed, reply.now_ns),
            LoadPhase::Waiting { requested_ns } => (
                LoadPhase::Ended,
                LoadAction::Done {
                    video: fresh_session(reply.now_ns, requested_ns, false, 0, reply.completed),
                },
            ),
            LoadPhase::Discarding => (LoadPhase::Unloading, LoadAction::Unload),
            LoadPhase::Unloading => (
                LoadPhase::Settling,
                LoadAction::Settle { unloads_before: self.unloads_before },
            ),
            LoadPhase::Settling => (LoadPhase::Arming { audio: false }, LoadAction::Arm),
            LoadPhase::Ended => (LoadPhase::Ended, LoadAction::Ended),
        }
    }

    /// Takes the outcome of one action and says which is next.
    pub fn next(&mut self, reply: LoadReply) -> (action: LoadAction)
        requires
            old(self).wf(),
        ensures
            final(self).wf(),
            (final(self).phase, action) == old(self).follow(reply),
            *final(self) == (Loading {
                phase: final(self).phase,
                unloads_before: if old(self).phase == LoadPhase::Counting {
                    reply.unloads
                } else {
                    old(self).unloads_before
                },
                ..*old(self)
            }),
    {
        match self.phase {
            LoadPhase::CheckingPoison => if reply.ok {
                self.go(LoadPhase::Resolving, LoadAction::ResolveSymbols)
            } else {
                self.go(LoadPhase::Ended, LoadAction::Failed)
            },
            LoadPhase::Resolving => if reply.ok {
                self.go(LoadPhase::Initialising, LoadAction::Init)
            } else {
                self.go(LoadPhase::Ended, LoadAction::Failed)
            },
            LoadPhase::Initialising => if !reply.ok {
                self.go(LoadPhase::Ended, LoadAction::Failed)
            } else if self.audio {
                self.go(LoadPhase::Counting, LoadAction::CountUnloads)
            } else {
                self.go(LoadPhase::Arming { audio: false }, LoadAction::Arm)
            },
            LoadPhase::Counting => {
                self.unloads_before = reply.unloads;
                self.go(LoadPhase::Arming { audio: true }, LoadAction::Arm)
            },
            LoadPhase::Arming { audio } => {
                let info = DataInfo {
                    video: self.video,
                    audio: if audio {
                        Some(plane_config())
                    } else {
                        None
                    },
                };
                self.go(
                    LoadPhase::Issuing { audio, requested_ns: reply.now_ns },
                    LoadAction::Issue { info },
                )
            },
            LoadPhase::Issuing { audio, requested_ns } => if audio && reply.ok {
                let p = Prime { requested_ns, start_ns: reply.now_ns, pts_ms: 0, target_ms: 0 };
                self.prime_audio(p, reply.completed, reply.now_ns)
            } else if audio {
                self.go(LoadPhase::Unloading, LoadAction::Unload)
            } else if reply.ok {
                self.go(LoadPhase::Waiting { requested_ns }, LoadAction::WaitCompleted)
            } else {
                self.go(LoadPhase::Ended, LoadAction::Failed)
            },
            LoadPhase::Priming(p) => if reply.ok {
                self.feed_batch(Prime { pts_ms: p.pts_ms + crate::ndl::PRIME_PACKET_MS, ..p })
            } else {
                self.finish_audio(p, p.pts_ms, reply.completed, reply.now_ns)
            },
            LoadPhase::Awaiting(p) => self.prime_audio(p, reply.completed, reply.now_ns),
            LoadPhase::Waiting { requested_ns } => {
                let video = new_session(reply.now_ns, requested_ns, false, 0, reply.completed);
                self.go(LoadPhase::Ended, LoadAction::Done { video })
            },
            LoadPhase::Discarding => self.go(LoadPhase::Unloading, LoadAction::Unload),
            LoadPhase::Unloading => {
                let unloads_before: u64 = self.unloads_before;
                self.go(LoadPhase::Settling, LoadAction::Settle { unloads_before })
            },
            LoadPhase::Settling => self.go(LoadPhase::Arming { audio: false }, LoadAction::Arm),
            LoadPhase::Ended => LoadAction::Ended,
        }
    }

    fn go(&mut self, phase: LoadPhase, action: LoadAction) -> (a: LoadAction)
        ensures
            *final(self) == (Loading { phase, ..*old(self) }),
            a == action,
    {
        self.phase = phase;
        action
    }

    /// One round of priming.
    fn prime_audio(&mut self, p: Prime, completed: bool, now_ns: u64) -> (action: LoadAction)
        requires
            old(self).audio,
            p.wf(),
        ensures
            final(self).wf(),
            (final(self).phase, action) == old(self).prime_round(p, completed, now_ns),
            *final(self) == (Loading { phase: final(self).phase, ..*old(self) }),
    {
        if completed {
            return self.finish_audio(p, p.last_fed_ms(), true, now_ns);
        }
        let elapsed_ns: u64 = now_ns.saturating_sub(p.start_ns);
        if elapsed_ns >= self.timeout_ns {
            return self.finish_audio(p, p.last_fed_ms(), false, now_ns);
        }
        let target_ms: i64 = (elapsed_ns / 1_000_000) as i64 + crate::ndl::PLANE_LEAD_MS;
        self.feed_batch(Prime { target_ms, ..p })
    }

    fn feed_batch(&mut self, p: Prime) -> (action: LoadAction)
        requires
            old(self).audio,
            p.wf(),
            p.target_ms <= 18_446_744_073_749,
        ensures
            final(self).wf(),
            (final(self).phase, action) == old(self).prime_batch(p),
            *final(self) == (Loading { phase: final(self).phase, ..*old(self) }),
    {
        if p.pts_ms < p.target_ms {
            self.go(LoadPhase::Priming(p), LoadAction::FeedSilence { pts_ms: p.pts_ms })
        } else {
            self.go(LoadPhase::Awaiting(p), LoadAction::AwaitCompletion)
        }
    }

    /// Ends the audio-enabled attempt, silence having been fed up to `fed_ms`.
    fn finish_audio(&mut self, p: Prime, fed_ms: i64, confirmed: bool, now_ns: u64) -> (action:
        LoadAction)
        requires
            old(self).audio,
        ensures
            final(self).wf(),
            (final(self).phase, action) == old(self).primed(p, fed_ms, confirmed, now_ns),
            *final(self) == (Loading { phase: final(self).phase, ..*old(self) }),
    {
        if confirmed {
            let video = new_session(now_ns, p.requested_ns, true, fed_ms, true);
            self.go(LoadPhase::Ended, LoadAction::Done { video })
        } else {
            self.go(LoadPhase::Discarding, LoadAction::Discard)
        }
    }
}

/// How far a load has come; only priming stays where it is.
pub open spec fn progress(phase: LoadPhase) -> int {
    match phase {
        LoadPhase::CheckingPoison => 0,
        LoadPhase::Resolving => 1,
        LoadPhase::Initialising => 2,
        LoadPhase::Counting => 3,
        LoadPhase::Arming { audio: true } => 4,
        LoadPhase::Issuing { audio: true, .. } => 5,
        LoadPhase::Priming(_) => 6,
        LoadPhase::Awaiting(_) => 6,
        LoadPhase::Discarding => 7,
        LoadPhase::Unloading => 8,
        LoadPhase::Settling => 9,
        LoadPhase::Arming { audio: false } => 10,
        LoadPhase::Issuing { audio: false, .. } => 11,
        LoadPhase::Waiting { .. } => 12,
        LoadPhase::Ended => 13,
    }
}

/// Whether the load is in its audio-enabled attempt, clearing up after it included.
pub open spec fn attempting_audio(phase: LoadPhase) -> bool {
    3 <= progress(phase) <= 9
}

impl Loading {
    /// A load never goes back, so that each of its two attempts is made at most once, and priming,
    /// the one phase that lasts, ends when the load reports completion or takes too long.
    pub proof fn law_progress(self, reply: LoadReply)
        requires
            self.wf(),
        ensures
            ({
                let next = self.follow(reply).0;
                &&& progress(next) >= progress(self.phase)
                &&& progress(next) == progress(self.phase) ==> progress(next) == 6 || progress(next)
                    == 13
                &&& self.phase matches LoadPhase::Awaiting(p) ==> {
                    reply.completed || crate::ndl::since(reply.now_ns, p.start_ns)
                        >= self.timeout_ns ==> progress(next) > 6
                }
            }),
    {
    }

    /// The session that a load ends with has an audio plane only if one was asked for and the load
    /// reported completion with it.
    pub proof fn law_audio_only_if_confirmed(self, reply: LoadReply)
        requires
            self.wf(),
        ensures
            self.follow(reply).1 matches LoadAction::Done { video } ==> {
                &&& video.wf()
                &&& video.audio ==> self.audio && video.load_confirmed
            },
    {
    }

    /// The audio-enabled attempt cannot make the load fail: it ends in a session or in the attempt
    /// without audio.
    pub proof fn law_audio_falls_back(self, reply: LoadReply)
        requires
            self.wf(),
            attempting_audio(self.phase),
        ensures
            self.follow(reply).1 !is Failed,
            !attempting_audio(self.follow(reply).0) ==> {
                ||| self.follow(reply).0 == (LoadPhase::Arming { audio: false })
                ||| self.follow(reply).1 matches LoadAction::Done { video } && video.audio
            },
    {
    }

    /// The load once a reply has come in.
    pub open spec fn stepped(self, reply: LoadReply) -> Loading {
        Loading {
            phase: self.follow(reply).0,
            unloads_before: if self.phase == LoadPhase::Counting {
                reply.unloads
            } else {
                self.unloads_before
            },
            ..self
        }
    }

    /// The stamps of the silence that is fed as these replies come in one after the other.
    pub open spec fn fed(self, replies: Seq<LoadReply>) -> Seq<i64>
        decreases replies.len(),
    {
        if replies.len() == 0 {
            seq![]
        } else {
            let rest = self.stepped(replies[0]).fed(replies.drop_first());
            match self.follow(replies[0]).1 {
                LoadAction::FeedSilence { pts_ms } => seq![pts_ms] + rest,
                _ => rest,
            }
        }
    }

    /// The stamp that the next silent packet will have, if there is one.
    pub open spec fn upcoming(self) -> int {
        match self.phase {
            LoadPhase::Priming(p) => p.pts_ms + crate::ndl::PRIME_PACKET_MS,
            LoadPhase::Awaiting(p) => p.pts_ms as int,
            _ => 0,
        }
    }

    /// The load once these replies have come in one after the other.
    pub open spec fn after(self, replies: Seq<LoadReply>) -> Loading
        decreases replies.len(),
    {
        if replies.len() == 0 {
            self
        } else {
            self.stepped(replies[0]).after(replies.drop_first())
        }
    }

    proof fn lemma_after(self, replies: Seq<LoadReply>)
        requires
            self.wf(),
        ensures
            self.after(replies).wf(),
            progress(self.after(replies).phase) >= progress(self.phase),
            progress(self.after(replies).phase) <= 6 ==> self.after(replies).upcoming()
                == self.upcoming() + self.fed(replies).len() * crate::ndl::PRIME_PACKET_MS,
        decreases replies.len(),
    {
        if replies.len() > 0 {
            let next = self.stepped(replies[0]);
            self.law_progress(replies[0]);
            next.lemma_after(replies.drop_first());
            match self.follow(replies[0]).1 {
                LoadAction::FeedSilence { .. } => {
                    assert(next.upcoming() == self.upcoming() + crate::ndl::PRIME_PACKET_MS);
                },
                _ => {
                    if progress(next.phase) <= 6 {
                        assert(next.upcoming() == self.upcoming());
                    }
                },
            }
        }
    }

    proof fn lemma_fed(self, replies: Seq<LoadReply>)
        requires
            self.wf(),
        ensures
            forall|i: int|
                0 <= i < self.fed(replies).len() ==> #[trigger] self.fed(replies)[i]
                    == self.upcoming() + i * crate::ndl::PRIME_PACKET_MS,
            progress(self.phase) > 6 ==> self.fed(replies).len() == 0,
        decreases replies.len(),
    {
        if replies.len() > 0 {
            let next = self.stepped(replies[0]);
            next.lemma_fed(replies.drop_first());
            let rest = next.fed(replies.drop_first());
            match self.follow(replies[0]).1 {
                LoadAction::FeedSilence { pts_ms } => {
                    assert(pts_ms == self.upcoming());
                    assert(next.upcoming() == self.upcoming() + crate::ndl::PRIME_PACKET_MS);
                    assert forall|i: int|
                        0 <= i < self.fed(replies).len() implies #[trigger] self.fed(replies)[i]
                        == self.upcoming() + i * crate::ndl::PRIME_PACKET_MS by {
                        if i > 0 {
                            assert(self.fed(replies)[i] == rest[i - 1]);
                        }
                    }
                },
                _ => {
                    assert(self.fed(replies) == rest);
                    if progress(next.phase) <= 6 {
                        assert(next.upcoming() == self.upcoming());
                    }
                },
            }
        }
    }

    /// From its start, a load feeds silence one packet after another from stamp zero on, without a
    /// hole, whatever happens in between.
    pub proof fn law_prime_stamps(self, replies: Seq<LoadReply>)
        requires
            self.wf(),
            self.phase == LoadPhase::CheckingPoison,
        ensures
            forall|i: int|
                0 <= i < self.fed(replies).len() ==> #[trigger] self.fed(replies)[i] == i
                    * crate::ndl::PRIME_PACKET_MS,
    {
        self.lemma_fed(replies);
    }

    /// A session with an audio plane starts out from the highest stamp that its priming handed to
    /// the decoder, the last one, whether the decoder took it or not; from zero where it handed
    /// over none.
    pub proof fn law_session_continues_prime(
        self,
        replies: Seq<LoadReply>,
        last: LoadReply,
        video: NdlVideo,
    )
        requires
            self.wf(),
            self.phase == LoadPhase::CheckingPoison,
            self.after(replies).follow(last).1 == (LoadAction::Done { video }),
            video.audio,
        ensures
            video.wf(),
            video.last_audio_pts_ms == if self.fed(replies).len() == 0 {
                0
            } else {
                self.fed(replies).last() as int
            },
            forall|i: int|
                0 <= i < self.fed(replies).len() ==> #[trigger] self.fed(replies)[i]
                    <= video.last_audio_pts_ms,
    {
        self.lemma_after(replies);
        self.lemma_fed(replies);
        self.after(replies).law_audio_only_if_confirmed(last);
    }
}

impl Loading {
    /// A load as it begins.
    pub open spec fn begun(
        width: i32,
        height: i32,
        kind: i32,
        audio: bool,
        timeout_ns: u64,
    ) -> Loading {
        Loading {
            video: VideoInfo { width, height, kind, unknown1: 0 },
            audio,
            timeout_ns,
            unloads_before: 0,
            phase: LoadPhase::CheckingPoison,
        }
    }

    /// What a load requests from the decoder as these replies come in one after the other.
    pub open spec fn requests(self, replies: Seq<LoadReply>) -> Seq<DataInfo>
        decreases replies.len(),
    {
        if replies.len() == 0 {
            seq![]
        } else {
            let rest = self.stepped(replies[0]).requests(replies.drop_first());
            match self.follow(replies[0]).1 {
                LoadAction::Issue { info } => seq![info] + rest,
                _ => rest,
            }
        }
    }

    proof fn lemma_requests(self, replies: Seq<LoadReply>)
        requires
            self.wf(),
        ensures
            ({
                let requests = self.requests(replies);
                let left = if self.audio && progress(self.phase) <= 4 {
                    2int
                } else if progress(self.phase) <= 10 {
                    1
                } else {
                    0
                };
                &&& requests.len() <= left
                &&& forall|i: int|
                    0 <= i < requests.len() ==> (#[trigger] requests[i]).video.width
                        == self.video.width && requests[i].video.height == self.video.height
                        && requests[i].video.kind == self.video.kind
                        && requests[i].video.unknown1 == self.video.unknown1
                &&& left == 2 && requests.len() > 0 ==> (requests[0].audio matches Some(plane)
                    && plane.kind == 3 && plane.channels == 2 && plane.sample_rate_khz == 48
                    && plane.unknown1 == 0 && plane.unknown2 == 0 && !plane.stream_header)
                &&& left == 2 && requests.len() > 1 ==> requests[1].audio is None
                &&& left == 1 && requests.len() > 0 ==> requests[0].audio is None
            }),
        decreases replies.len(),
    {
        if replies.len() > 0 {
            let next = self.stepped(replies[0]);
            let rest = next.requests(replies.drop_first());
            self.law_progress(replies[0]);
            next.lemma_requests(replies.drop_first());
            let all = self.requests(replies);
            match self.follow(replies[0]).1 {
                LoadAction::Issue { info } => {
                    assert(all == seq![info] + rest);
                    assert forall|i: int| 0 < i < all.len() implies #[trigger] all[i] == rest[i
                        - 1] by {}
                },
                _ => {
                    assert(all == rest);
                },
            }
        }
    }

    /// Whatever replies come in, every request of a load is for the width, height and codec that
    /// the load was started with. A load with audio asks for the stereo Opus plane in its first
    /// request and for none in its second, which is its last; a load without makes one request and
    /// asks for none.
    pub proof fn law_requests(
        width: i32,
        height: i32,
        kind: i32,
        audio: bool,
        timeout_ns: u64,
        replies: Seq<LoadReply>,
    )
        ensures
            ({
                let requests = Loading::begun(width, height, kind, audio, timeout_ns).requests(
                    replies,
                );
                &&& requests.len() <= if audio { 2int } else { 1 }
                &&& forall|i: int|
                    0 <= i < requests.len() ==> {
                        let video = (#[trigger] requests[i]).video;
                        &&& video.width == width
                        &&& video.height == height
                        &&& video.kind == kind
                        &&& video.unknown1 == 0
                        &&& requests[i].audio is Some <==> audio && i == 0
                        &&& requests[i].audio matches Some(plane) ==> {
                            &&& plane.kind == 3
                            &&& plane.channels == 2
                            &&& plane.sample_rate_khz == 48
                            &&& plane.unknown1 == 0
                            &&& plane.unknown2 == 0
                            &&& !plane.stream_header
                        }
                    }
            }),
    {
        Loading::begun(width, height, kind, audio, timeout_ns).lemma_requests(replies);
    }

    /// A load prepares the decoder in order before it requests anything: it checks, looks up and
    /// initialises, and then, with audio only, counts the unloads. A step that fails ends the load.
    pub proof fn law_preparation(
        self,
        checked: LoadReply,
        resolved: LoadReply,
        initialised: LoadReply,
        counted: LoadReply,
    )
        requires
            self.phase == LoadPhase::CheckingPoison,
        ensures
            ({
                let two = self.stepped(checked);
                let three = two.stepped(resolved);
                let four = three.stepped(initialised);
                &&& !checked.ok ==> self.follow(checked).1 is Failed && two.phase is Ended
                &&& checked.ok ==> self.follow(checked).1 is ResolveSymbols
                &&& checked.ok && !resolved.ok ==> two.follow(resolved).1 is Failed
                    && three.phase is Ended
                &&& checked.ok && resolved.ok ==> two.follow(resolved).1 is Init
                &&& checked.ok && resolved.ok && !initialised.ok ==> three.follow(initialised).1
                    is Failed && four.phase is Ended
                &&& checked.ok && resolved.ok && initialised.ok ==> if self.audio {
                    &&& three.follow(initialised).1 is CountUnloads
                    &&& four.follow(counted).1 is Arm
                    &&& four.stepped(counted).unloads_before == counted.unloads
                } else {
                    three.follow(initialised).1 is Arm
                }
            }),
    {
    }

    /// A request follows right after arming; its time is the clock as it was read in between.
    pub proof fn law_request_follows_arming(self, audio: bool, armed: LoadReply)
        requires
            self.phase == (LoadPhase::Arming { audio }),
        ensures
            self.follow(armed).1 matches LoadAction::Issue { info } && (info.audio is Some
                <==> audio) && info.video == self.video,
            self.follow(armed).0 == (LoadPhase::Issuing { audio, requested_ns: armed.now_ns }),
    {
    }

    /// What becomes of a request. With audio, a refusal leads to an unload; otherwise priming
    /// begins with stamp zero, unless the load has already completed or is given no time at all.
    /// Without audio, a refusal fails the load; otherwise its completion is waited for.
    pub proof fn law_request_outcome(self, audio: bool, requested_ns: u64, reply: LoadReply)
        requires
            self.phase == (LoadPhase::Issuing { audio, requested_ns }),
        ensures
            ({
                let action = self.follow(reply).1;
                &&& audio && !reply.ok ==> action is Unload
                &&& audio && reply.ok && reply.completed ==> (action matches LoadAction::Done {
                    video,
                } && video.audio && video.load_confirmed && video.load_requested_ns == requested_ns
                    && video.last_audio_pts_ms == 0)
                &&& audio && reply.ok && !reply.completed ==> if self.timeout_ns == 0 {
                    action is Discard
                } else {
                    &&& action is FeedSilence
                    &&& action->pts_ms == 0
                    &&& self.follow(reply).0 == LoadPhase::Priming(
                        Prime { requested_ns, start_ns: reply.now_ns, pts_ms: 0, target_ms: 40 },
                    )
                }
                &&& !audio && !reply.ok ==> action is Failed && self.follow(reply).0 is Ended
                &&& !audio && reply.ok ==> action is WaitCompleted && self.follow(reply).0 == (
                LoadPhase::Waiting { requested_ns })
            }),
    {
    }

    /// One packet of a batch. Where it is taken, the next one is five milliseconds on, as long as
    /// that is below the batch's target; then the load is given a while. Where it is refused, the
    /// session stands if the load has completed, and is dropped if not.
    pub proof fn law_prime_packet(self, p: Prime, reply: LoadReply)
        requires
            self.wf(),
            self.phase == LoadPhase::Priming(p),
        ensures
            ({
                let (next, action) = self.follow(reply);
                let further = Prime { pts_ms: (p.pts_ms + 5) as i64, ..p };
                &&& action is FeedSilence <==> reply.ok && p.pts_ms + 5 < p.target_ms
                &&& action is FeedSilence ==> action->pts_ms == p.pts_ms + 5 && next
                    == LoadPhase::Priming(further)
                &&& action is AwaitCompletion <==> reply.ok && p.pts_ms + 5 >= p.target_ms
                &&& action is AwaitCompletion ==> next == LoadPhase::Awaiting(further)
                &&& action is Done <==> !reply.ok && reply.completed
                &&& action matches LoadAction::Done { video } ==> video.last_audio_pts_ms
                    == p.pts_ms && video.load_requested_ns == p.requested_ns
                    && video.load_confirmed
                &&& action is Discard <==> !reply.ok && !reply.completed
            }),
    {
    }

    /// One round of priming. A load that has completed is done, with what was fed; one that has had
    /// its time is dropped; any other is fed up to forty milliseconds past the time that priming
    /// has taken, going on from the stamp that was reached.
    pub proof fn law_prime_round(self, p: Prime, reply: LoadReply)
        requires
            self.wf(),
            self.phase == LoadPhase::Awaiting(p),
        ensures
            ({
                let (next, action) = self.follow(reply);
                let taken_ns = if reply.now_ns > p.start_ns {
                    reply.now_ns - p.start_ns
                } else {
                    0
                };
                let target = taken_ns / 1_000_000 + 40;
                let goes_on = !reply.completed && taken_ns < self.timeout_ns;
                &&& action is Done <==> reply.completed
                &&& action matches LoadAction::Done { video } ==> {
                    &&& video.load_requested_ns == p.requested_ns
                    &&& p.pts_ms >= 5 ==> video.last_audio_pts_ms + 5 == p.pts_ms
                }
                &&& action is Discard <==> !reply.completed && taken_ns >= self.timeout_ns
                &&& action is FeedSilence <==> goes_on && p.pts_ms < target
                &&& action is FeedSilence ==> action->pts_ms == p.pts_ms && next
                    == LoadPhase::Priming(Prime { target_ms: target as i64, ..p })
                &&& action is AwaitCompletion <==> goes_on && p.pts_ms >= target
                &&& action is AwaitCompletion ==> (next matches LoadPhase::Awaiting(q) && q.pts_ms
                    == p.pts_ms && q.start_ns == p.start_ns && q.requested_ns == p.requested_ns)
            }),
    {
    }

    /// A load without audio that was waited out gives a session without an audio plane, confirmed
    /// exactly where the load reported completion.
    pub proof fn law_waited_out(self, requested_ns: u64, reply: LoadReply)
        requires
            self.phase == (LoadPhase::Waiting { requested_ns }),
        ensures
            self.follow(reply).1 matches LoadAction::Done { video } && {
                &&& !video.audio
                &&& video.load_confirmed == reply.completed
                &&& video.load_requested_ns == requested_ns
                &&& video.last_audio_pts_ms == 0
            },
    {
    }

    /// A session counts from the moment it is loaded and has nothing behind it: no picture, no real
    /// packet, no clock, no metadata. The load is then over.
    pub proof fn law_fresh_session(self, reply: LoadReply, later: LoadReply)
        requires
            self.wf(),
        ensures
            self.follow(reply).1 matches LoadAction::Done { video } ==> {
                &&& video.load_instant_ns == reply.now_ns
                &&& video.last_real_feed_ms == 0
                &&& video.last_video_feed_ms == 0
                &&& video.video_clock_base_ms == 0
                &&& !video.video_drives_clock
                &&& video.pending_hdr is None
                &&& video.applied_hdr is None
                &&& self.stepped(reply).follow(later).1 is Ended
            },
            self.follow(reply).1 is Failed ==> self.stepped(reply).follow(later).1 is Ended,
    {
    }

    /// An audio-enabled attempt that came to nothing is cleared up before the other is made: a
    /// session is dropped, then the decoder is unloaded, then the unloads since the count taken
    /// before the attempt are waited out, and then the attempt without audio is armed.
    pub proof fn law_clearing_up(
        self,
        dropped: LoadReply,
        unloaded: LoadReply,
        settled: LoadReply,
    )
        requires
            self.phase == LoadPhase::Discarding,
        ensures
            ({
                let two = self.stepped(dropped);
                let three = two.stepped(unloaded);
                let four = three.stepped(settled);
                &&& self.follow(dropped).1 is Unload
                &&& two.follow(unloaded).1 matches LoadAction::Settle { unloads_before }
                    && unloads_before == self.unloads_before
                &&& three.follow(settled).1 is Arm
                &&& four.phase == (LoadPhase::Arming { audio: false })
            }),
    {
    }

    /// The count of unloads is taken once, by the reply to that action, and kept.
    pub proof fn law_unloads_counted_once(self, reply: LoadReply)
        ensures
            self.phase is Counting ==> self.stepped(reply).unloads_before == reply.unloads,
            !(self.phase is Counting) ==> self.stepped(reply).unloads_before
                == self.unloads_before,
            self.follow(reply).1 matches LoadAction::Settle { unloads_before } ==> unloads_before
                == self.unloads_before,
    {
    }
}

} // verus!
