//! The order of the audio stamps that the decoder is handed, however real packets, pictures and the
//! clock plane take turns.

use vstd::prelude::*;

use crate::clock::{ClockAction, ClockPhase, ClockPlane, ClockReply};
use crate::loading::{LoadAction, LoadPhase, LoadReply, Loading};
use crate::ndl::{NdlVideo, PRIME_PACKET_MS};
use crate::playing::{PlayAction, PlayPhase, PlayReply, Playing};

verus! {

/// A session with the picture and the clock plane that feed it.
#[derive(Clone, Copy, Debug)]
pub struct Feeds {
    pub video: NdlVideo,
    pub picture: Playing,
    pub plane: ClockPlane,
}

/// One step of any of those who feed a session.
#[derive(Clone, Copy, Debug)]
pub enum FeedStep {
    /// A real packet is taken and handed over, under one hold of the decoder.
    Real { now_ns: u64 },
    /// The picture goes one step further.
    Picture { played: PlayReply },
    /// The clock plane goes one step further.
    Clock { reply: ClockReply },
    /// The next picture begins.
    NewPicture { picture: Playing },
    /// Another clock plane begins.
    NewPlane { plane: ClockPlane },
    /// Anything else that leaves the session with `video`.
    Other { video: NdlVideo },
}

/// A stamp that the decoder is handed, whether it takes it or not.
#[derive(Clone, Copy, Debug, PartialEq, Eq, Structural)]
pub struct Handed {
    pub pts_ms: i64,
    pub silent: bool,
}

impl Feeds {
    /// Whether the picture holds the decoder.
    pub open spec fn picture_holds(self) -> bool {
        self.picture.phase is ToppingUp || self.picture.phase is Submitting
            || self.picture.phase is Marking
    }

    /// Whether the clock plane holds the decoder.
    pub open spec fn plane_holds(self) -> bool {
        self.plane.phase is Feeding
    }

    /// The decoder has one holder at most, and a run of silence is never behind the session.
    pub open spec fn wf(self) -> bool {
        &&& self.video.wf()
        &&& self.picture.wf()
        &&& self.plane.wf()
        &&& !(self.picture_holds() && self.plane_holds())
        &&& self.picture.phase matches PlayPhase::ToppingUp(run) ==> run.pts_ms
            >= self.video.last_audio_pts_ms
        &&& self.plane.phase matches ClockPhase::Feeding(run) ==> run.pts_ms
            >= self.video.last_audio_pts_ms
    }

    /// Whether a step can be taken: whoever needs the decoder waits until it is free, a picture or
    /// a plane is not replaced while it holds the decoder, and nothing else moves the stamps.
    pub open spec fn allows(self, step: FeedStep) -> bool {
        match step {
            FeedStep::Real { .. } => !self.picture_holds() && !self.plane_holds(),
            FeedStep::Picture { .. } => self.picture.phase is Locking ==> !self.plane_holds(),
            FeedStep::Clock { .. } => self.plane.phase is Locking ==> !self.picture_holds(),
            FeedStep::NewPicture { picture } => !self.picture_holds() && picture.phase
                == PlayPhase::Locking,
            FeedStep::NewPlane { plane } => !self.plane_holds() && plane.wf() && plane.phase
                == ClockPhase::Polling,
            FeedStep::Other { video } => video.wf() && video.last_audio_pts_ms
                == self.video.last_audio_pts_ms,
        }
    }

    /// What a step leads to.
    pub open spec fn stepped(self, step: FeedStep) -> Feeds {
        match step {
            FeedStep::Real { now_ns } => if self.video.load_confirmed {
                Feeds {
                    video: NdlVideo {
                        last_audio_pts_ms: self.video.real_stamp(now_ns) as i64,
                        ..self.video
                    },
                    ..self
                }
            } else {
                self
            },
            FeedStep::Picture { played } => {
                let (picture, video, _action) = self.picture.follow(self.video, played);
                Feeds { video, picture, ..self }
            },
            FeedStep::Clock { reply } => {
                let (plane, video, _action) = self.plane.follow(self.video, reply);
                Feeds { video, plane, ..self }
            },
            FeedStep::NewPicture { picture } => Feeds { picture, ..self },
            FeedStep::NewPlane { plane } => Feeds { plane, ..self },
            FeedStep::Other { video } => Feeds { video, ..self },
        }
    }

    /// The stamp that a step hands to the decoder, if it does.
    pub open spec fn handed(self, step: FeedStep) -> Option<Handed> {
        match step {
            FeedStep::Real { now_ns } => if self.video.load_confirmed {
                Some(Handed { pts_ms: self.video.real_stamp(now_ns) as i64, silent: false })
            } else {
                None
            },
            FeedStep::Picture { played } => match self.picture.follow(self.video, played).2 {
                PlayAction::FeedSilence { pts_ms } => Some(Handed { pts_ms, silent: true }),
                _ => None,
            },
            FeedStep::Clock { reply } => match self.plane.follow(self.video, reply).2 {
                ClockAction::Feed { pts_ms } => Some(Handed { pts_ms, silent: true }),
                _ => None,
            },
            _ => None,
        }
    }

    /// The stamp reached so far: that of the run being fed, or else the session's.
    pub open spec fn level(self) -> int {
        match (self.picture.phase, self.plane.phase) {
            (PlayPhase::ToppingUp(run), _) => run.pts_ms as int,
            (_, ClockPhase::Feeding(run)) => run.pts_ms as int,
            _ => self.video.last_audio_pts_ms as int,
        }
    }

    /// Whether these steps can be taken one after the other.
    pub open spec fn allows_all(self, steps: Seq<FeedStep>) -> bool
        decreases steps.len(),
    {
        steps.len() > 0 ==> self.allows(steps[0]) && self.stepped(steps[0]).allows_all(
            steps.drop_first(),
        )
    }

    /// What these steps lead to.
    pub open spec fn after(self, steps: Seq<FeedStep>) -> Feeds
        decreases steps.len(),
    {
        if steps.len() == 0 {
            self
        } else {
            self.stepped(steps[0]).after(steps.drop_first())
        }
    }

    /// The stamps that these steps hand to the decoder, in order.
    pub open spec fn handed_all(self, steps: Seq<FeedStep>) -> Seq<Handed>
        decreases steps.len(),
    {
        if steps.len() == 0 {
            seq![]
        } else {
            let rest = self.stepped(steps[0]).handed_all(steps.drop_first());
            match self.handed(steps[0]) {
                Some(first) => seq![first] + rest,
                None => rest,
            }
        }
    }

    proof fn lemma_step(self, step: FeedStep)
        requires
            self.wf(),
            self.allows(step),
        ensures
            self.stepped(step).wf(),
            self.stepped(step).level() >= self.level(),
            self.stepped(step).video.last_audio_pts_ms >= self.video.last_audio_pts_ms,
            self.handed(step) matches Some(h) ==> {
                &&& self.stepped(step).level() == h.pts_ms
                &&& h.silent ==> h.pts_ms >= self.level() + PRIME_PACKET_MS
            },
    {
    }

    /// Over any interleaving of real packets, pictures and the clock plane, the stamps that the
    /// decoder is handed never fall, those it refuses among them; silence is stamped at least one
    /// packet above all that came before; and the session's own stamp never falls.
    pub proof fn law_stamp_order(self, steps: Seq<FeedStep>)
        requires
            self.wf(),
            self.allows_all(steps),
        ensures
            self.after(steps).wf(),
            self.after(steps).video.last_audio_pts_ms >= self.video.last_audio_pts_ms,
            in_order(self.handed_all(steps)),
            forall|i: int|
                0 <= i < self.handed_all(steps).len() ==> {
                    let h = #[trigger] self.handed_all(steps)[i];
                    &&& h.pts_ms >= self.level()
                    &&& h.silent ==> h.pts_ms >= self.level() + PRIME_PACKET_MS
                },
        decreases steps.len(),
    {
        if steps.len() > 0 {
            self.lemma_step(steps[0]);
            let next = self.stepped(steps[0]);
            let rest = next.handed_all(steps.drop_first());
            next.law_stamp_order(steps.drop_first());
            let all = self.handed_all(steps);
            if self.handed(steps[0]) is Some {
                assert(all == seq![self.handed(steps[0])->0] + rest);
                assert forall|i: int| 0 < i < all.len() implies #[trigger] all[i] == rest[i - 1] by {}
            } else {
                assert(all == rest);
            }
        }
    }
}

impl Feeds {
    /// The stamps among them that the clock plane hands over, in order.
    pub open spec fn clock_handed(self, steps: Seq<FeedStep>) -> Seq<i64>
        decreases steps.len(),
    {
        if steps.len() == 0 {
            seq![]
        } else {
            let rest = self.stepped(steps[0]).clock_handed(steps.drop_first());
            match (steps[0], self.handed(steps[0])) {
                (FeedStep::Clock { .. }, Some(first)) => seq![first.pts_ms] + rest,
                _ => rest,
            }
        }
    }

    /// Over a whole run of one clock plane, whatever real packets and pictures come in between, its
    /// base stays what it was at the start, and the stamps of its own packets rise by at least one
    /// packet each, the first from the stamp reached at the start, which is the session's or above.
    pub proof fn law_clock_run(self, steps: Seq<FeedStep>)
        requires
            self.wf(),
            self.allows_all(steps),
            same_plane(steps),
        ensures
            self.after(steps).wf(),
            self.after(steps).plane.base_ms == self.plane.base_ms,
            self.after(steps).plane.yields_to_real == self.plane.yields_to_real,
            self.level() >= self.video.last_audio_pts_ms,
            forall|i: int|
                0 <= i < self.clock_handed(steps).len() ==> #[trigger] self.clock_handed(steps)[i]
                    >= self.level() + PRIME_PACKET_MS,
            forall|i: int, j: int|
                0 <= i < j < self.clock_handed(steps).len() ==> #[trigger] self.clock_handed(
                    steps,
                )[i] + PRIME_PACKET_MS <= #[trigger] self.clock_handed(steps)[j],
        decreases steps.len(),
    {
        if steps.len() > 0 {
            self.lemma_step(steps[0]);
            let next = self.stepped(steps[0]);
            let rest = next.clock_handed(steps.drop_first());
            assert(same_plane(steps.drop_first())) by {
                assert forall|i: int| 0 <= i < steps.drop_first().len() implies !(
                #[trigger] steps.drop_first()[i] is NewPlane) by {
                    assert(steps.drop_first()[i] == steps[i + 1]);
                }
            }
            next.law_clock_run(steps.drop_first());
            assert(!(steps[0] is NewPlane));
            let all = self.clock_handed(steps);
            if steps[0] is Clock && self.handed(steps[0]) is Some {
                assert(all == seq![self.handed(steps[0])->0.pts_ms] + rest);
                assert forall|i: int| 0 < i < all.len() implies #[trigger] all[i] == rest[i - 1] by {}
            } else {
                assert(all == rest);
            }
        }
    }

    /// A tick that feeds, and whose packets the decoder takes, leaves the session's stamp at the
    /// base that the clock plane had at the start, plus the player clock as it was read once the
    /// decoder was held, plus the lead, or later; and so it stays. The tick begins with step
    /// `from`, and after step `to` the plane no longer feeds.
    pub proof fn law_clock_tick(self, steps: Seq<FeedStep>, from: int, to: int)
        requires
            self.wf(),
            self.allows_all(steps),
            same_plane(steps),
            0 <= from < to <= steps.len(),
            self.after(steps.take(from)).plane.phase is Locking,
            steps[from] is Clock,
            forall|i: int|
                from < i < to ==> ((#[trigger] steps[i]) matches FeedStep::Clock { reply }
                    ==> reply.ok),
            !(self.after(steps.take(to)).plane.phase is Feeding),
        ensures
            self.after(steps.take(to)).video.last_audio_pts_ms >= self.after(
                steps.take(from),
            ).video.clock_target(self.plane.base_ms as int, steps[from]->Clock_reply.now_ns),
    {
        let begun = self.after(steps.take(from));
        let tick = steps.subrange(from, to);
        let target = begun.video.clock_target(
            self.plane.base_ms as int,
            steps[from]->Clock_reply.now_ns,
        );
        self.lemma_split(steps.take(to), from);
        assert(steps.take(to).take(from) =~= steps.take(from));
        assert(steps.take(to).skip(from) =~= tick);
        self.lemma_prefix(steps, to);
        self.lemma_prefix(steps, from);
        assert(same_plane(steps.take(from)));
        self.law_clock_run(steps.take(from));
        assert(tick[0] == steps[from]);
        begun.lemma_step(tick[0]);
        let rest = tick.drop_first();
        assert forall|i: int| 0 <= i < rest.len() implies {
            &&& !(#[trigger] rest[i] is NewPlane)
            &&& rest[i] matches FeedStep::Clock { reply } ==> reply.ok
        } by {
            assert(rest[i] == steps[from + 1 + i]);
        }
        begun.stepped(tick[0]).lemma_reaches(rest, target);
    }

    /// A target that the session's stamp has reached, or that the run being fed will reach, is
    /// still so after steps in which the decoder takes every packet of the plane.
    proof fn lemma_reaches(self, steps: Seq<FeedStep>, target: int)
        requires
            self.wf(),
            self.allows_all(steps),
            forall|i: int|
                0 <= i < steps.len() ==> {
                    &&& !(#[trigger] steps[i] is NewPlane)
                    &&& steps[i] matches FeedStep::Clock { reply } ==> reply.ok
                },
            self.reaches(target),
        ensures
            self.after(steps).reaches(target),
        decreases steps.len(),
    {
        if steps.len() > 0 {
            assert(!(steps[0] is NewPlane));
            self.lemma_step(steps[0]);
            let rest = steps.drop_first();
            assert forall|i: int| 0 <= i < rest.len() implies {
                &&& !(#[trigger] rest[i] is NewPlane)
                &&& rest[i] matches FeedStep::Clock { reply } ==> reply.ok
            } by {
                assert(rest[i] == steps[i + 1]);
            }
            self.stepped(steps[0]).lemma_reaches(rest, target);
        }
    }

    /// Whether the session's stamp has reached a target, or the plane's run is on its way there.
    spec fn reaches(self, target: int) -> bool {
        ||| self.video.last_audio_pts_ms >= target
        ||| self.plane.phase matches ClockPhase::Feeding(run) && run.target_ms >= target
    }

    proof fn lemma_prefix(self, steps: Seq<FeedStep>, n: int)
        requires
            self.allows_all(steps),
            0 <= n <= steps.len(),
        ensures
            self.allows_all(steps.take(n)),
        decreases n,
    {
        if n > 0 {
            self.stepped(steps[0]).lemma_prefix(steps.drop_first(), n - 1);
            assert(steps.take(n).drop_first() =~= steps.drop_first().take(n - 1));
        }
    }

    /// Steps can be taken in two goes.
    proof fn lemma_split(self, steps: Seq<FeedStep>, n: int)
        requires
            0 <= n <= steps.len(),
        ensures
            self.after(steps) == self.after(steps.take(n)).after(steps.skip(n)),
            self.allows_all(steps) ==> self.after(steps.take(n)).allows_all(steps.skip(n)),
        decreases n,
    {
        if n == 0 {
            assert(steps.skip(0) =~= steps);
        } else {
            self.stepped(steps[0]).lemma_split(steps.drop_first(), n - 1);
            assert(steps.take(n).drop_first() =~= steps.drop_first().take(n - 1));
            assert(steps.drop_first().skip(n - 1) =~= steps.skip(n));
        }
    }
}

/// Whether these steps are all of one clock plane.
pub open spec fn same_plane(steps: Seq<FeedStep>) -> bool {
    forall|i: int| 0 <= i < steps.len() ==> !(#[trigger] steps[i] is NewPlane)
}

/// Stamps that never fall, with every silent one at least one packet above all before it.
pub open spec fn in_order(handed: Seq<Handed>) -> bool {
    forall|i: int, j: int|
        0 <= i < j < handed.len() ==> {
            &&& (#[trigger] handed[i]).pts_ms <= (#[trigger] handed[j]).pts_ms
            &&& handed[j].silent ==> handed[i].pts_ms + PRIME_PACKET_MS <= handed[j].pts_ms
        }
}

/// The stamps of silence.
pub open spec fn silence(stamps: Seq<i64>) -> Seq<Handed> {
    stamps.map_values(|pts_ms: i64| Handed { pts_ms, silent: true })
}

/// The order holds from the load on: the silence that primed a session comes first, and whatever is
/// handed to the decoder afterwards goes on from it.
pub proof fn law_stamp_order_from_load(
    load: Loading,
    replies: Seq<LoadReply>,
    last: LoadReply,
    feeds: Feeds,
    steps: Seq<FeedStep>,
)
    requires
        load.wf(),
        load.phase == LoadPhase::CheckingPoison,
        load.after(replies).follow(last).1 == (LoadAction::Done { video: feeds.video }),
        feeds.video.audio,
        feeds.picture.phase == PlayPhase::Locking,
        feeds.plane.wf(),
        feeds.plane.phase == ClockPhase::Polling,
        feeds.allows_all(steps),
    ensures
        in_order(silence(load.fed(replies)) + feeds.handed_all(steps)),
{
    load.law_session_continues_prime(replies, last, feeds.video);
    load.law_prime_stamps(replies);
    feeds.law_stamp_order(steps);
    let primed = silence(load.fed(replies));
    let all = primed + feeds.handed_all(steps);
    assert forall|i: int, j: int| 0 <= i < j < all.len() implies {
        &&& (#[trigger] all[i]).pts_ms <= (#[trigger] all[j]).pts_ms
        &&& all[j].silent ==> all[i].pts_ms + PRIME_PACKET_MS <= all[j].pts_ms
    } by {
        if i < primed.len() {
            assert(all[i].pts_ms == load.fed(replies)[i]);
        } else {
            assert(all[i] == feeds.handed_all(steps)[i - primed.len()]);
        }
        if j < primed.len() {
            assert(all[j].pts_ms == load.fed(replies)[j]);
        } else {
            assert(all[j] == feeds.handed_all(steps)[j - primed.len()]);
        }
    }
}

impl Feeds {
    /// Nobody's step but the plane's own, and no new plane, moves the plane.
    proof fn lemma_plane_stays(self, steps: Seq<FeedStep>)
        requires
            forall|i: int|
                0 <= i < steps.len() ==> !((#[trigger] steps[i]) is Clock) && !(steps[i]
                    is NewPlane),
        ensures
            self.after(steps).plane == self.plane,
        decreases steps.len(),
    {
        if steps.len() > 0 {
            assert(!(steps[0] is Clock) && !(steps[0] is NewPlane));
            let rest = steps.drop_first();
            assert forall|i: int| 0 <= i < rest.len() implies !((#[trigger] rest[i]) is Clock) && !(
            rest[i] is NewPlane) by {
                assert(rest[i] == steps[i + 1]);
            }
            self.stepped(steps[0]).lemma_plane_stays(rest);
        }
    }

    /// Without real packets that are taken, the time of the last one stays, and so does the load.
    proof fn lemma_no_real_packet(self, steps: Seq<FeedStep>)
        requires
            forall|i: int| 0 <= i < steps.len() ==> !((#[trigger] steps[i]) is Other),
        ensures
            self.after(steps).video.last_real_feed_ms == self.video.last_real_feed_ms,
            self.after(steps).video.load_instant_ns == self.video.load_instant_ns,
        decreases steps.len(),
    {
        if steps.len() > 0 {
            assert(!(steps[0] is Other));
            let rest = steps.drop_first();
            assert forall|i: int| 0 <= i < rest.len() implies !((#[trigger] rest[i]) is Other) by {
                assert(rest[i] == steps[i + 1]);
            }
            self.stepped(steps[0]).lemma_no_real_packet(rest);
        }
    }

    /// While no other feed owns it, every tick of a clock plane feeds, whatever the ticks before it
    /// did. Step `poll` is a poll that finds the stop flag unset and the plane unowned, step `hold`
    /// is the plane's next one, and after step `to` the plane no longer feeds, the decoder having
    /// taken its packets: the session's stamp is then at the base, the player clock as read at
    /// `hold`, and forty milliseconds together, or later.
    pub proof fn law_unowned_plane_feeds(self, steps: Seq<FeedStep>, poll: int, hold: int, to: int)
        requires
            self.wf(),
            self.allows_all(steps),
            same_plane(steps),
            0 <= poll < hold < to <= steps.len(),
            ({
                let at = self.after(steps.take(poll));
                &&& at.plane.phase is Polling
                &&& steps[poll] matches FeedStep::Clock { reply } && {
                    let now_ms = at.video.player_ms(reply.now_ns);
                    &&& !reply.stop
                    &&& self.plane.yields_to_real ==> now_ms >= at.video.last_real_feed_ms + 300
                    &&& !self.plane.yields_to_real ==> !at.video.video_drives_clock
                        || at.video.last_video_feed_ms == 0 || now_ms
                        >= at.video.last_video_feed_ms + 50
                }
            }),
            forall|i: int| poll < i < hold ==> !((#[trigger] steps[i]) is Clock),
            steps[hold] is Clock,
            forall|i: int|
                hold < i < to ==> ((#[trigger] steps[i]) matches FeedStep::Clock { reply }
                    ==> reply.ok),
            !(self.after(steps.take(to)).plane.phase is Feeding),
        ensures
            self.after(steps.take(to)).video.last_audio_pts_ms >= self.plane.base_ms + self.after(
                steps.take(hold),
            ).video.player_ms(steps[hold]->Clock_reply.now_ns) + 40,
    {
        let at = self.after(steps.take(poll));
        self.lemma_prefix(steps, poll);
        assert(same_plane(steps.take(poll)));
        self.law_clock_run(steps.take(poll));
        self.lemma_split(steps.take(hold), poll);
        assert(steps.take(hold).take(poll) =~= steps.take(poll));
        let between = steps.take(hold).skip(poll);
        assert(between[0] == steps[poll]);
        let rest = between.drop_first();
        assert forall|i: int| 0 <= i < rest.len() implies !((#[trigger] rest[i]) is Clock) && !(
        rest[i] is NewPlane) by {
            assert(rest[i] == steps[poll + 1 + i]);
        }
        let locking = at.stepped(steps[poll]);
        assert(locking.plane.phase is Locking);
        locking.lemma_plane_stays(rest);
        assert(self.after(steps.take(hold)).plane == locking.plane);
        self.law_clock_tick(steps, hold, to);
    }

    /// Where the host's audio is dead, the picture stays paced: as long as no real packet is taken,
    /// every tick of a plane that yields to real audio, polled three hundred milliseconds or more
    /// after the last one, leaves the session's stamp forty milliseconds past the base and the
    /// player clock, or later.
    pub proof fn law_dead_audio_stays_paced(
        self,
        steps: Seq<FeedStep>,
        poll: int,
        hold: int,
        to: int,
    )
        requires
            self.wf(),
            self.allows_all(steps),
            same_plane(steps),
            self.plane.yields_to_real,
            forall|i: int| 0 <= i < steps.len() ==> !((#[trigger] steps[i]) is Other),
            0 <= poll < hold < to <= steps.len(),
            self.after(steps.take(poll)).plane.phase is Polling,
            steps[poll] matches FeedStep::Clock { reply } && !reply.stop && self.video.player_ms(
                reply.now_ns,
            ) >= self.video.last_real_feed_ms + 300,
            forall|i: int| poll < i < hold ==> !((#[trigger] steps[i]) is Clock),
            steps[hold] is Clock,
            forall|i: int|
                hold < i < to ==> ((#[trigger] steps[i]) matches FeedStep::Clock { reply }
                    ==> reply.ok),
            !(self.after(steps.take(to)).plane.phase is Feeding),
        ensures
            self.after(steps.take(to)).video.last_audio_pts_ms >= self.plane.base_ms
                + self.video.player_ms(steps[hold]->Clock_reply.now_ns) + 40,
    {
        self.lemma_no_real_packet(steps.take(poll));
        self.lemma_no_real_packet(steps.take(hold));
        self.law_unowned_plane_feeds(steps, poll, hold, to);
    }
}

} // verus!
