//! Feeding one access unit to the decoder.

use vstd::prelude::*;

use crate::hdr::HdrInfo;
use crate::ndl::{NdlVideo, NotReady, SilenceRun};

verus! {

/// One access unit on its way to the decoder.
#[derive(Clone, Copy, Debug, PartialEq, Eq, Structural)]
pub struct Playing {
    /// The stamp of the picture.
    pub pts_ms: i64,
    pub phase: PlayPhase,
}

/// Which action the caller is performing.
#[derive(Clone, Copy, Debug, PartialEq, Eq, Structural)]
pub enum PlayPhase {
    Locking,
    ToppingUp(SilenceRun),
    Submitting,
    Marking,
    Replaying(HdrInfo),
    /// The access unit was fed.
    Ended,
    /// The decoder refused the access unit.
    Refused,
}

/// What the caller does next. The decoder is held from `Lock` to `MarkFed`.
#[derive(Clone, Copy, Debug, PartialEq, Eq, Structural)]
pub enum PlayAction {
    /// Wait until the decoder is free, then read the clock.
    Lock,
    /// Feed one silent packet, `OPUS_SILENCE`.
    FeedSilence { pts_ms: i64 },
    /// Feed the access unit, then read the clock.
    Submit { pts_ms: i64 },
    /// Count the frame as fed, telling whether it is the first one of the load.
    MarkFed,
    /// Hand over HDR metadata.
    ApplyHdr { info: HdrInfo },
    /// The access unit was fed.
    Done,
    /// The decoder refused the access unit.
    Failed,
}

/// What the caller saw while performing an action.
#[derive(Clone, Copy, Debug, PartialEq, Eq, Structural)]
pub struct PlayReply {
    /// Whether the decoder took what it was handed.
    pub ok: bool,
    /// The clock.
    pub now_ns: u64,
    /// Whether the frame just marked is the first one of the load.
    pub first_frame: bool,
}

impl NdlVideo {
    /// Takes one access unit stamped `pts_ns` since the load, at `now_ns`. While the load is
    /// neither completed nor overdue, the frame is refused. The first action is `Lock`.
    pub fn play(&mut self, pts_ns: u64, now_ns: u64, completed: bool) -> (r: Result<
        Playing,
        NotReady,
    >)
        ensures
            r is Ok <==> old(self).ready(now_ns, completed),
            r is Err ==> *final(self) == *old(self),
            r is Ok ==> *final(self) == (NdlVideo { load_confirmed: true, ..*old(self) }),
            r matches Ok(playing) ==> {
                &&& playing.wf()
                &&& playing.pts_ms == pts_ns as int / 1_000_000
                &&& playing.phase == PlayPhase::Locking
            },
    {
        match self.ensure_loaded(now_ns, completed) {
            Ok(()) => {
                let pts_ms: i64 = (pts_ns / 1_000_000) as i64;
                Ok(Playing { pts_ms, phase: PlayPhase::Locking })
            },
            Err(e) => Err(e),
        }
    }

    /// Starts the silence that goes before a picture, if any is due.
    fn begin_top_up(&self, now_ns: u64) -> (r: Option<SilenceRun>)
        requires
            self.wf(),
        ensures
            r == self.top_up(now_ns),
            r matches Some(run) ==> run.wf() && run.pts_ms < run.target_ms,
    {
        if !self.video_drives_clock {
            return None;
        }
        let now_ms: i64 = (self.elapsed_ns(now_ns) / 1_000_000) as i64;
        let target_lead_ms: i64 = self.video_clock_base_ms + crate::ndl::PLANE_LEAD_MS;
        let current_lead_ms: i64 = self.last_audio_pts_ms - now_ms;
        if current_lead_ms <= target_lead_ms - crate::ndl::VIDEO_CLOCK_ASSIST_MARGIN_MS {
            Some(self.feed_silence_locked(self.last_audio_pts_ms, now_ms + target_lead_ms))
        } else {
            None
        }
    }
}

impl Playing {
    pub open spec fn wf(self) -> bool {
        self.phase matches PlayPhase::ToppingUp(run) ==> run.wf()
    }

    /// The access unit in another phase.
    pub open spec fn at(self, phase: PlayPhase) -> Playing {
        Playing { phase, ..self }
    }

    /// What follows the outcome of an action. Refused silence is no failure of the picture: the
    /// video feed stops driving the clock, and the picture is fed all the same.
    pub open spec fn follow(self, video: NdlVideo, reply: PlayReply) -> (
        Playing,
        NdlVideo,
        PlayAction,
    ) {
        let submit = PlayAction::Submit { pts_ms: self.pts_ms };
        match self.phase {
            PlayPhase::Locking => match video.top_up(reply.now_ns) {
                Some(run) => (
                    self.at(PlayPhase::ToppingUp(run.advanced())),
                    video,
                    PlayAction::FeedSilence { pts_ms: run.advanced().pts_ms },
                ),
                None => (self.at(PlayPhase::Submitting), video, submit),
            },
            PlayPhase::ToppingUp(run) => if reply.ok && run.pts_ms < run.target_ms {
                (
                    self.at(PlayPhase::ToppingUp(run.advanced())),
                    video,
                    PlayAction::FeedSilence { pts_ms: run.advanced().pts_ms },
                )
            } else {
                (
                    self.at(PlayPhase::Submitting),
                    NdlVideo {
                        video_drives_clock: video.video_drives_clock && reply.ok,
                        ..video.settled(run)
                    },
                    submit,
                )
            },
            PlayPhase::Submitting => if reply.ok {
                (
                    self.at(PlayPhase::Marking),
                    NdlVideo {
                        last_video_feed_ms: video.player_ms(reply.now_ns) as i64,
                        ..video
                    },
                    PlayAction::MarkFed,
                )
            } else {
                (self.at(PlayPhase::Refused), video, PlayAction::Failed)
            },
            PlayPhase::Marking => if reply.first_frame {
                let shown = NdlVideo { pending_hdr: None, ..video };
                match video.hdr_due(video.pending_hdr) {
                    Some(info) => (
                        self.at(PlayPhase::Replaying(info)),
                        shown,
                        PlayAction::ApplyHdr { info },
                    ),
                    None => (self.at(PlayPhase::Ended), shown, PlayAction::Done),
                }
            } else {
                (self.at(PlayPhase::Ended), video, PlayAction::Done)
            },
            PlayPhase::Replaying(info) => (
                self.at(PlayPhase::Ended),
                if reply.ok {
                    NdlVideo { applied_hdr: Some(info), ..video }
                } else {
                    video
                },
                PlayAction::Done,
            ),
            PlayPhase::Ended => (self, video, PlayAction::Done),
            PlayPhase::Refused => (self, video, PlayAction::Failed),
        }
    }

    /// Takes the outcome of one action and says which is next.
    pub fn next(&mut self, video: &mut NdlVideo, reply: PlayReply) -> (action: PlayAction)
        requires
            old(self).wf(),
            old(video).wf(),
        ensures
            final(self).wf(),
            final(video).wf(),
            (*final(self), *final(video), action) == old(self).follow(*old(video), reply),
            final(video).last_audio_pts_ms >= old(video).last_audio_pts_ms,
    {
        match self.phase {
            PlayPhase::Locking => match video.begin_top_up(reply.now_ns) {
                Some(run) => {
                    let mut run = run;
                    match run.next_stamp() {
                        Some(pts_ms) => {
                            self.phase = PlayPhase::ToppingUp(run);
                            PlayAction::FeedSilence { pts_ms }
                        },
                        None => self.submit(),
                    }
                },
                None => self.submit(),
            },
            PlayPhase::ToppingUp(run) => {
                let mut run = run;
                if reply.ok {
                    match run.next_stamp() {
                        Some(pts_ms) => {
                            self.phase = PlayPhase::ToppingUp(run);
                            return PlayAction::FeedSilence { pts_ms };
                        },
                        None => {},
                    }
                } else {
                    video.video_drives_clock = false;
                }
                video.settle_silence(&run);
                self.submit()
            },
            PlayPhase::Submitting => {
                if reply.ok {
                    video.video_fed(reply.now_ns);
                    self.phase = PlayPhase::Marking;
                    PlayAction::MarkFed
                } else {
                    self.phase = PlayPhase::Refused;
                    PlayAction::Failed
                }
            },
            PlayPhase::Marking => {
                if reply.first_frame {
                    match video.replay_pending_hdr() {
                        Some(info) => {
                            self.phase = PlayPhase::Replaying(info);
                            return PlayAction::ApplyHdr { info };
                        },
                        None => {},
                    }
                }
                self.phase = PlayPhase::Ended;
                PlayAction::Done
            },
            PlayPhase::Replaying(info) => {
                if reply.ok {
                    video.hdr_accepted(info);
                }
                self.phase = PlayPhase::Ended;
                PlayAction::Done
            },
            PlayPhase::Ended => PlayAction::Done,
            PlayPhase::Refused => PlayAction::Failed,
        }
    }

    fn submit(&mut self) -> (action: PlayAction)
        ensures
            *final(self) == (Playing { phase: PlayPhase::Submitting, ..*old(self) }),
            action == (PlayAction::Submit { pts_ms: old(self).pts_ms }),
    {
        self.phase = PlayPhase::Submitting;
        PlayAction::Submit { pts_ms: self.pts_ms }
    }
}

/// Whether, as these replies come in one after the other, the picture is submitted, with nothing
/// but silence fed before it.
pub open spec fn reaches_submit(p: Playing, video: NdlVideo, replies: Seq<PlayReply>) -> bool
    decreases replies.len(),
{
    if replies.len() == 0 {
        false
    } else {
        let (next, after, action) = p.follow(video, replies[0]);
        match action {
            PlayAction::Submit { pts_ms } => pts_ms == p.pts_ms,
            PlayAction::FeedSilence { .. } => reaches_submit(next, after, replies.drop_first()),
            _ => false,
        }
    }
}

proof fn lemma_topping_up_submits(
    p: Playing,
    run: SilenceRun,
    video: NdlVideo,
    replies: Seq<PlayReply>,
)
    requires
        p.phase == PlayPhase::ToppingUp(run),
        run.wf(),
        replies.len() > run.stamps().len(),
    ensures
        reaches_submit(p, video, replies),
    decreases replies.len(),
{
    if replies[0].ok && run.pts_ms < run.target_ms {
        assert(run.stamps().len() == 1 + run.advanced().stamps().len());
        lemma_topping_up_submits(
            p.at(PlayPhase::ToppingUp(run.advanced())),
            run.advanced(),
            video,
            replies.drop_first(),
        );
    }
}

/// Once the decoder is held, the picture is submitted whatever becomes of the silence before it:
/// no refusal of silence keeps it back.
pub proof fn law_picture_follows_silence(p: Playing, video: NdlVideo, replies: Seq<PlayReply>)
    requires
        video.wf(),
        p.phase == PlayPhase::Locking,
        replies.len() > 0,
        video.top_up(replies[0].now_ns) matches Some(run) ==> replies.len() > run.stamps().len(),
    ensures
        reaches_submit(p, video, replies),
{
    match video.top_up(replies[0].now_ns) {
        Some(run) => {
            assert(run.wf());
            assert(run.stamps().len() == 1 + run.advanced().stamps().len());
            lemma_topping_up_submits(
                p.at(PlayPhase::ToppingUp(run.advanced())),
                run.advanced(),
                video,
                replies.drop_first(),
            );
        },
        None => {},
    }
}

/// HDR metadata that was held back is handed to the decoder right after its first picture, and
/// once the decoder has taken it, it counts as applied and nothing is held back any more.
pub proof fn law_held_hdr(
    p: Playing,
    video: NdlVideo,
    info: HdrInfo,
    marked: PlayReply,
    taken: PlayReply,
)
    requires
        p.phase == PlayPhase::Marking,
        marked.first_frame,
        taken.ok,
        video.pending_hdr == Some(info),
        video.applied_hdr != Some(info),
    ensures
        ({
            let (next, after, action) = p.follow(video, marked);
            let (last, done, end) = next.follow(after, taken);
            &&& action == PlayAction::ApplyHdr { info }
            &&& end == PlayAction::Done
            &&& done.applied_hdr == Some(info)
            &&& done.pending_hdr is None
        }),
{
}

/// Once the decoder is held, the first packet of silence is asked for exactly where the lead has
/// decayed, one packet above what was fed; otherwise the picture is submitted under its own stamp.
/// Nothing of the session changes yet.
pub proof fn law_picture_begins(p: Playing, video: NdlVideo, reply: PlayReply)
    requires
        video.wf(),
        p.phase == PlayPhase::Locking,
    ensures
        ({
            let (next, after, action) = p.follow(video, reply);
            let decayed = video.video_drives_clock && video.last_audio_pts_ms - video.player_ms(
                reply.now_ns,
            ) <= video.video_clock_base_ms + 20;
            &&& after == video
            &&& next.pts_ms == p.pts_ms
            &&& decayed ==> action is FeedSilence && action->FeedSilence_pts_ms
                == video.last_audio_pts_ms + 5
            &&& !decayed ==> action is Submit && action->Submit_pts_ms == p.pts_ms
        }),
{
}

/// The silence that a picture asks for before it is submitted, as these replies come in.
pub open spec fn silence_before(p: Playing, video: NdlVideo, replies: Seq<PlayReply>) -> Seq<i64>
    decreases replies.len(),
{
    if replies.len() == 0 {
        seq![]
    } else {
        let (next, after, action) = p.follow(video, replies[0]);
        match action {
            PlayAction::FeedSilence { pts_ms } => seq![pts_ms] + silence_before(
                next,
                after,
                replies.drop_first(),
            ),
            _ => seq![],
        }
    }
}

/// The session at the first action that asks for no silence, as these replies come in.
pub open spec fn after_silence(p: Playing, video: NdlVideo, replies: Seq<PlayReply>) -> NdlVideo
    decreases replies.len(),
{
    if replies.len() == 0 {
        video
    } else {
        let (next, after, action) = p.follow(video, replies[0]);
        match action {
            PlayAction::FeedSilence { .. } => after_silence(next, after, replies.drop_first()),
            _ => after,
        }
    }
}

proof fn lemma_silence_is_fed(
    p: Playing,
    run: SilenceRun,
    video: NdlVideo,
    replies: Seq<PlayReply>,
)
    requires
        p.phase == PlayPhase::ToppingUp(run),
        run.wf(),
        run.pts_ms >= video.last_audio_pts_ms,
        replies.len() > run.stamps().len(),
        forall|i: int| 0 <= i < replies.len() ==> (#[trigger] replies[i]).ok,
    ensures
        silence_before(p, video, replies) == run.stamps(),
        after_silence(p, video, replies) == (NdlVideo {
            last_audio_pts_ms: run.end().pts_ms,
            ..video
        }),
    decreases replies.len(),
{
    assert(replies[0].ok);
    if run.pts_ms < run.target_ms {
        assert(run.stamps() == seq![run.advanced().pts_ms] + run.advanced().stamps());
        let rest = replies.drop_first();
        assert forall|i: int| 0 <= i < rest.len() implies (#[trigger] rest[i]).ok by {
            assert(rest[i] == replies[i + 1]);
        }
        lemma_silence_is_fed(
            p.at(PlayPhase::ToppingUp(run.advanced())),
            run.advanced(),
            video,
            rest,
        );
    }
}

/// Where the decoder takes it, the silence before a picture runs packet by packet from what was fed
/// to the first stamp that leads the player clock by the base and forty milliseconds, and only the
/// session's stamp moves, to the last of them. Where none is due, none is fed and nothing moves.
pub proof fn law_silence_before_picture(p: Playing, video: NdlVideo, replies: Seq<PlayReply>)
    requires
        video.wf(),
        p.phase == PlayPhase::Locking,
        replies.len() > 0,
        video.top_up(replies[0].now_ns) matches Some(run) ==> replies.len() > run.stamps().len(),
        forall|i: int| 0 <= i < replies.len() ==> (#[trigger] replies[i]).ok,
    ensures
        ({
            let fed = silence_before(p, video, replies);
            let after = after_silence(p, video, replies);
            let target = video.video_clock_base_ms + video.player_ms(replies[0].now_ns) + 40;
            &&& forall|i: int|
                0 <= i < fed.len() ==> #[trigger] fed[i] == video.last_audio_pts_ms + (i + 1) * 5
            &&& after.last_audio_pts_ms == video.last_audio_pts_ms + fed.len() * 5
            &&& video == (NdlVideo { last_audio_pts_ms: video.last_audio_pts_ms, ..after })
            &&& fed.len() > 0 ==> target <= after.last_audio_pts_ms < target + 5
            &&& fed.len() == 0 ==> !video.video_drives_clock || video.last_audio_pts_ms + 20
                > target
        }),
{
    assert(replies[0].ok);
    match video.top_up(replies[0].now_ns) {
        Some(run) => {
            let rest = replies.drop_first();
            assert forall|i: int| 0 <= i < rest.len() implies (#[trigger] rest[i]).ok by {
                assert(rest[i] == replies[i + 1]);
            }
            assert(run.stamps() == seq![run.advanced().pts_ms] + run.advanced().stamps());
            lemma_silence_is_fed(
                p.at(PlayPhase::ToppingUp(run.advanced())),
                run.advanced(),
                video,
                rest,
            );
            run.law_run();
            assert(silence_before(p, video, replies) == run.stamps());
        },
        None => {},
    }
}

/// Silence that is refused counts as fed, takes the clock from the video feed and changes nothing
/// else; the picture is submitted next, under its own stamp.
pub proof fn law_silence_refused(
    p: Playing,
    run: SilenceRun,
    video: NdlVideo,
    reply: PlayReply,
)
    requires
        p.phase == PlayPhase::ToppingUp(run),
        run.pts_ms >= video.last_audio_pts_ms,
        !reply.ok,
    ensures
        ({
            let (next, after, action) = p.follow(video, reply);
            &&& after.last_audio_pts_ms == run.pts_ms
            &&& !after.video_drives_clock
            &&& video == (NdlVideo {
                last_audio_pts_ms: video.last_audio_pts_ms,
                video_drives_clock: video.video_drives_clock,
                ..after
            })
            &&& action is Submit && action->Submit_pts_ms == p.pts_ms
        }),
{
}

/// A picture that the decoder takes is dated by the player clock, which is all that changes, and is
/// then counted. One that it refuses changes nothing, and has failed whatever is replied later.
pub proof fn law_picture_outcome(
    p: Playing,
    video: NdlVideo,
    reply: PlayReply,
    later: PlayReply,
)
    requires
        p.phase == PlayPhase::Submitting,
    ensures
        ({
            let (next, after, action) = p.follow(video, reply);
            &&& action is MarkFed <==> reply.ok
            &&& action is Failed <==> !reply.ok
            &&& reply.ok ==> after.last_video_feed_ms == video.player_ms(reply.now_ns) && video == (
            NdlVideo { last_video_feed_ms: video.last_video_feed_ms, ..after })
            &&& !reply.ok ==> after == video && next.follow(after, later) == (
                next,
                video,
                PlayAction::Failed,
            )
        }),
{
}

/// Once a picture is counted, held metadata goes to the decoder exactly where the picture was the
/// first one and the decoder does not have it yet; the first picture leaves nothing held, a later
/// one changes nothing. Otherwise the picture is done with.
pub proof fn law_picture_counted(p: Playing, video: NdlVideo, reply: PlayReply)
    requires
        p.phase == PlayPhase::Marking,
    ensures
        ({
            let (next, after, action) = p.follow(video, reply);
            let due = reply.first_frame && video.pending_hdr is Some && video.applied_hdr
                != video.pending_hdr;
            &&& action is ApplyHdr <==> due
            &&& due ==> Some(action->info) == video.pending_hdr
            &&& !due ==> action is Done
            &&& reply.first_frame ==> after.pending_hdr is None && video == (NdlVideo {
                pending_hdr: video.pending_hdr,
                ..after
            })
            &&& !reply.first_frame ==> after == video
        }),
{
}

/// Held metadata counts as applied exactly where the decoder took it, and either way the picture is
/// done with and stays so.
pub proof fn law_metadata_outcome(
    p: Playing,
    info: HdrInfo,
    video: NdlVideo,
    reply: PlayReply,
    later: PlayReply,
)
    requires
        p.phase == PlayPhase::Replaying(info),
    ensures
        ({
            let (next, after, action) = p.follow(video, reply);
            &&& action is Done
            &&& reply.ok ==> after.applied_hdr == Some(info) && video == (NdlVideo {
                applied_hdr: video.applied_hdr,
                ..after
            })
            &&& !reply.ok ==> after == video
            &&& next.follow(after, later) == (next, after, PlayAction::Done)
        }),
{
}

} // verus!
