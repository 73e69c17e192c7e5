//! One delivery on its way through the video pump.

use vstd::prelude::*;

use crate::pump::{Frame, Heartbeat, Loss, PacingHealth, PumpAction, SinkResult, VideoPump, WireFrame};

verus! {

/// One delivery on its way through the video pump.
#[derive(Clone, Copy, Debug, PartialEq, Eq, Structural)]
pub struct Delivery {
    pub frame: Frame,
    pub phase: DeliveryPhase,
}

/// Which action the caller is performing.
#[derive(Clone, Copy, Debug, PartialEq, Eq, Structural)]
pub enum DeliveryPhase {
    Boosting,
    Observing,
    Beating,
    PollingStage,
    Publishing,
    CountingLoss,
    Submitting,
    Marking,
    Reacting,
    Ended,
}

/// What the caller does next.
#[derive(Clone, Copy, Debug, PartialEq, Eq, Structural)]
pub enum DeliveryAction {
    /// Boost the threads that the transport has registered as hot.
    BoostHotThreads,
    /// Read the clock, the wall clock and the clock offset, and count the delivery's bytes.
    Observe,
    /// Read the clock.
    ReadClock,
    /// Ask the stage for its backlog, its pacing and the audio plane's lead, then read the clock.
    PollStage,
    /// Publish the figures of a heartbeat.
    Publish { beat: Heartbeat },
    /// Tell the transport which frame this is, where an index is given, and learn the gap before
    /// it; then read the transport's count of drops and the clock.
    CountLoss { index: Option<u32> },
    /// Hand the delivery to the stage.
    Submit { wire: WireFrame, loss: Loss },
    /// Set the shared flag of a dead decoder, telling what it held before.
    MarkDead,
    /// Do what the outcome asks for.
    React { action: PumpAction },
    /// Nothing: the delivery is done with.
    Done,
}

/// What the caller saw while performing an action.
#[derive(Clone, Copy, Debug, PartialEq, Eq, Structural)]
pub struct DeliveryReply {
    /// The clock.
    pub now_ns: u64,
    /// The wall clock.
    pub realtime_ns: Option<i128>,
    /// Offset of the host's clock from the wall clock; zero while it is unset.
    pub clock_offset_ns: i64,
    pub backlog: Option<i32>,
    pub pacing: PacingHealth,
    pub plane_lead_ms: Option<i64>,
    /// Frames missing before this one.
    pub gap_width: u32,
    /// The transport's count of drops.
    pub dropped: u64,
    /// What became of the delivery in the stage.
    pub sink: SinkResult,
    /// What the shared flag of a dead decoder held before.
    pub was_dead: bool,
}

impl DeliveryReply {
    /// A reply that says nothing but the time.
    pub fn at(now_ns: u64) -> (reply: DeliveryReply)
        ensures
            reply == (DeliveryReply {
                now_ns,
                realtime_ns: None,
                clock_offset_ns: 0,
                backlog: None,
                pacing: PacingHealth { jitter_ns: 0, late_stamps: 0 },
                plane_lead_ms: None,
                gap_width: 0,
                dropped: 0,
                sink: SinkResult::Held,
                was_dead: false,
            }),
    {
        DeliveryReply {
            now_ns,
            realtime_ns: None,
            clock_offset_ns: 0,
            backlog: None,
            pacing: PacingHealth { jitter_ns: 0, late_stamps: 0 },
            plane_lead_ms: None,
            gap_width: 0,
            dropped: 0,
            sink: SinkResult::Held,
            was_dead: false,
        }
    }
}

impl VideoPump {
    /// Takes a delivery. The very first one has the hot threads boosted before anything else: by
    /// then they are all registered.
    pub fn on_frame(&mut self, frame: Frame) -> (r: (Delivery, DeliveryAction))
        ensures
            r.0.frame == frame,
            !old(self).hot_threads_boosted ==> {
                &&& r.0.phase == DeliveryPhase::Boosting
                &&& r.1 == DeliveryAction::BoostHotThreads
            },
            old(self).hot_threads_boosted ==> {
                &&& r.0.phase == DeliveryPhase::Observing
                &&& r.1 == DeliveryAction::Observe
            },
            *final(self) == (VideoPump { hot_threads_boosted: true, ..*old(self) }),
    {
        if self.hot_threads_boosted {
            (Delivery { frame, phase: DeliveryPhase::Observing }, DeliveryAction::Observe)
        } else {
            self.hot_threads_boosted = true;
            (Delivery { frame, phase: DeliveryPhase::Boosting }, DeliveryAction::BoostHotThreads)
        }
    }
}

impl Delivery {
    /// The delivery in another phase.
    pub open spec fn at(self, phase: DeliveryPhase) -> Delivery {
        Delivery { phase, ..self }
    }

    /// Counting loss: only the first piece of an access unit shows a gap.
    pub open spec fn count_loss(self) -> DeliveryAction {
        DeliveryAction::CountLoss {
            index: if self.frame.au_first() {
                Some(self.frame.frame_index)
            } else {
                None
            },
        }
    }

    /// The gap before this delivery.
    pub open spec fn gap(self, reply: DeliveryReply) -> u32 {
        if self.frame.au_first() {
            reply.gap_width
        } else {
            0
        }
    }

    /// What follows the outcome of an action.
    pub open spec fn follow(self, pump: VideoPump, reply: DeliveryReply) -> (
        Delivery,
        VideoPump,
        DeliveryAction,
    ) {
        let now_ns = reply.now_ns;
        match self.phase {
            DeliveryPhase::Boosting => (
                self.at(DeliveryPhase::Observing),
                pump,
                DeliveryAction::Observe,
            ),
            DeliveryPhase::Observing => (
                self.at(DeliveryPhase::Beating),
                if self.frame.au_first() {
                    VideoPump {
                        cadence: pump.cadence.with_au(
                            self.frame.pts_ns,
                            now_ns,
                            reply.realtime_ns,
                            reply.clock_offset_ns,
                        ),
                        ..pump
                    }
                } else {
                    pump
                },
                DeliveryAction::ReadClock,
            ),
            DeliveryPhase::Beating => if pump.heartbeat.due_at(now_ns) {
                (
                    self.at(DeliveryPhase::PollingStage),
                    pump.rearmed(now_ns),
                    DeliveryAction::PollStage,
                )
            } else {
                (self.at(DeliveryPhase::CountingLoss), pump, self.count_loss())
            },
            DeliveryPhase::PollingStage => (
                self.at(DeliveryPhase::Publishing),
                pump.beaten(reply.pacing, now_ns),
                DeliveryAction::Publish {
                    beat: pump.figures(reply.backlog, reply.pacing, reply.plane_lead_ms, now_ns),
                },
            ),
            DeliveryPhase::Publishing => (
                self.at(DeliveryPhase::CountingLoss),
                pump,
                self.count_loss(),
            ),
            DeliveryPhase::CountingLoss => {
                let loss = pump.loss_at(self.gap(reply), reply.dropped, now_ns);
                (
                    self.at(DeliveryPhase::Submitting),
                    pump.noted(self.gap(reply), reply.dropped, now_ns),
                    DeliveryAction::Submit { wire: pump.wire(self.frame, loss), loss },
                )
            },
            DeliveryPhase::Submitting => if reply.sink == SinkResult::Dead {
                (self.at(DeliveryPhase::Marking), pump, DeliveryAction::MarkDead)
            } else {
                (
                    self.at(DeliveryPhase::Reacting),
                    pump,
                    DeliveryAction::React { action: VideoPump::reaction(reply.sink, false) },
                )
            },
            DeliveryPhase::Marking => (
                self.at(DeliveryPhase::Reacting),
                pump,
                DeliveryAction::React {
                    action: VideoPump::reaction(SinkResult::Dead, reply.was_dead),
                },
            ),
            DeliveryPhase::Reacting => (
                self.at(DeliveryPhase::Ended),
                pump,
                DeliveryAction::Done,
            ),
            DeliveryPhase::Ended => (self, pump, DeliveryAction::Done),
        }
    }

    /// Takes the outcome of one action and says which is next.
    pub fn next(&mut self, pump: &mut VideoPump, reply: DeliveryReply) -> (action: DeliveryAction)
        requires
            old(pump).wf(),
        ensures
            final(pump).wf(),
            (*final(self), *final(pump), action) == old(self).follow(*old(pump), reply),
    {
        match self.phase {
            DeliveryPhase::Boosting => {
                self.phase = DeliveryPhase::Observing;
                DeliveryAction::Observe
            },
            DeliveryPhase::Observing => {
                pump.cadence.observe(
                    self.frame.is_au_first(),
                    self.frame.pts_ns,
                    reply.now_ns,
                    reply.realtime_ns,
                    reply.clock_offset_ns,
                );
                self.phase = DeliveryPhase::Beating;
                DeliveryAction::ReadClock
            },
            DeliveryPhase::Beating => {
                if pump.heartbeat_due(reply.now_ns) {
                    self.phase = DeliveryPhase::PollingStage;
                    DeliveryAction::PollStage
                } else {
                    self.to_count_loss()
                }
            },
            DeliveryPhase::PollingStage => {
                let beat = pump.heartbeat(
                    reply.backlog,
                    reply.pacing,
                    reply.plane_lead_ms,
                    reply.now_ns,
                );
                self.phase = DeliveryPhase::Publishing;
                DeliveryAction::Publish { beat }
            },
            DeliveryPhase::Publishing => self.to_count_loss(),
            DeliveryPhase::CountingLoss => {
                let loss = pump.note_loss(
                    &self.frame,
                    reply.gap_width,
                    reply.dropped,
                    reply.now_ns,
                );
                let wire = pump.wire_frame(&self.frame, &loss);
                self.phase = DeliveryPhase::Submitting;
                DeliveryAction::Submit { wire, loss }
            },
            DeliveryPhase::Submitting => {
                if reply.sink == SinkResult::Dead {
                    self.phase = DeliveryPhase::Marking;
                    return DeliveryAction::MarkDead;
                }
                let action = VideoPump::on_sink_result(reply.sink, false);
                self.phase = DeliveryPhase::Reacting;
                DeliveryAction::React { action }
            },
            DeliveryPhase::Marking => {
                let action = VideoPump::on_sink_result(SinkResult::Dead, reply.was_dead);
                self.phase = DeliveryPhase::Reacting;
                DeliveryAction::React { action }
            },
            DeliveryPhase::Reacting => {
                self.phase = DeliveryPhase::Ended;
                DeliveryAction::Done
            },
            DeliveryPhase::Ended => DeliveryAction::Done,
        }
    }

    fn to_count_loss(&mut self) -> (action: DeliveryAction)
        ensures
            *final(self) == old(self).at(DeliveryPhase::CountingLoss),
            action == old(self).count_loss(),
    {
        self.phase = DeliveryPhase::CountingLoss;
        DeliveryAction::CountLoss {
            index: if self.frame.is_au_first() {
                Some(self.frame.frame_index)
            } else {
                None
            },
        }
    }
}

/// How many actions a delivery has behind it at most.
pub open spec fn progress(phase: DeliveryPhase) -> int {
    match phase {
        DeliveryPhase::Boosting => 0,
        DeliveryPhase::Observing => 1,
        DeliveryPhase::Beating => 2,
        DeliveryPhase::PollingStage => 3,
        DeliveryPhase::Publishing => 4,
        DeliveryPhase::CountingLoss => 5,
        DeliveryPhase::Submitting => 6,
        DeliveryPhase::Marking => 7,
        DeliveryPhase::Reacting => 8,
        DeliveryPhase::Ended => 9,
    }
}

/// How often a delivery is handed to the stage as these replies come in one after the other.
pub open spec fn submissions(d: Delivery, pump: VideoPump, replies: Seq<DeliveryReply>) -> nat
    decreases replies.len(),
{
    if replies.len() == 0 {
        0
    } else {
        let (next, after, action) = d.follow(pump, replies[0]);
        let rest = submissions(next, after, replies.drop_first());
        if action is Submit {
            1 + rest
        } else {
            rest
        }
    }
}

proof fn lemma_submissions(d: Delivery, pump: VideoPump, replies: Seq<DeliveryReply>)
    ensures
        progress(d.phase) > 5 ==> submissions(d, pump, replies) == 0,
        progress(d.phase) <= 5 && replies.len() + progress(d.phase) > 5 ==> submissions(
            d,
            pump,
            replies,
        ) == 1,
    decreases replies.len(),
{
    if replies.len() > 0 {
        let (next, after, _action) = d.follow(pump, replies[0]);
        lemma_submissions(next, after, replies.drop_first());
    }
}

/// Every delivery is handed to the stage exactly once, within a fixed number of actions, whatever
/// the replies are.
pub proof fn law_submitted_once(d: Delivery, pump: VideoPump, replies: Seq<DeliveryReply>)
    requires
        d.phase == DeliveryPhase::Boosting || d.phase == DeliveryPhase::Observing,
        replies.len() >= 6,
    ensures
        submissions(d, pump, replies) == 1,
{
    lemma_submissions(d, pump, replies);
}

/// Once the hot threads have been boosted, nothing in a delivery has them boosted again.
pub proof fn law_hot_threads_once(d: Delivery, pump: VideoPump, reply: DeliveryReply)
    requires
        pump.hot_threads_boosted,
    ensures
        d.follow(pump, reply).1.hot_threads_boosted,
        d.follow(pump, reply).2 != DeliveryAction::BoostHotThreads,
{
}

/// The pieces of an access unit after the first leave the cadence alone, show no gap and carry no
/// recovery mark.
pub proof fn law_tails(d: Delivery, pump: VideoPump, reply: DeliveryReply)
    requires
        !d.frame.au_first(),
    ensures
        d.phase == DeliveryPhase::Observing ==> d.follow(pump, reply).1 == pump,
        d.follow(pump, reply).2 matches DeliveryAction::Submit { wire, loss } ==> {
            &&& !wire.recovery_mark
            &&& loss.gap_width == 0
        },
        d.follow(pump, reply).2 matches DeliveryAction::CountLoss { index } ==> index is None,
{
}

/// A first or only piece is taken into the cadence under its own stamp and the clock as it was
/// read, and nothing else of the pump changes; then the clock is read.
pub proof fn law_observed(d: Delivery, pump: VideoPump, reply: DeliveryReply)
    requires
        d.phase == DeliveryPhase::Observing,
        d.frame.part is None || d.frame.part->0.first,
    ensures
        ({
            let (next, after, action) = d.follow(pump, reply);
            let seen = crate::cadence::Arrival {
                pts_ns: d.frame.pts_ns,
                now_ns: reply.now_ns,
                realtime_ns: reply.realtime_ns,
                clock_offset_ns: reply.clock_offset_ns,
            };
            &&& action is ReadClock
            &&& next.frame == d.frame
            &&& after.cadence == pump.cadence.with_arrival(seen)
            &&& after.cadence.last_host_pts_ns == Some(d.frame.pts_ns)
            &&& after.cadence.last_arrival_ns == Some(reply.now_ns)
            &&& pump == (VideoPump { cadence: pump.cadence, ..after })
        }),
{
}

/// The stage is polled exactly where a heartbeat's interval has gone by, and the next one then runs
/// from that reading. Whatever it reports is published. Either way loss is counted next: the
/// transport is told the index of a first or only piece, and of no other.
pub proof fn law_beat(
    d: Delivery,
    pump: VideoPump,
    reply: DeliveryReply,
    polled: DeliveryReply,
    published: DeliveryReply,
)
    requires
        d.phase == DeliveryPhase::Beating,
        pump.heartbeat.interval_ns > 0,
    ensures
        ({
            let (next, after, action) = d.follow(pump, reply);
            let (then, beaten, publish) = next.follow(after, polled);
            let (last, counting, count) = then.follow(beaten, published);
            let due = reply.now_ns >= pump.heartbeat.last_ns + pump.heartbeat.interval_ns;
            let index = if d.frame.part is None || d.frame.part->0.first {
                Some(d.frame.frame_index)
            } else {
                None
            };
            &&& action is PollStage <==> due
            &&& due ==> {
                &&& after.heartbeat.last_ns == reply.now_ns
                &&& pump == (VideoPump { heartbeat: pump.heartbeat, ..after })
                &&& after.heartbeat.interval_ns == pump.heartbeat.interval_ns
                &&& publish == (DeliveryAction::Publish {
                    beat: after.figures(
                        polled.backlog,
                        polled.pacing,
                        polled.plane_lead_ms,
                        polled.now_ns,
                    ),
                })
                &&& publish->beat.pacing_late == polled.pacing.late_stamps
                &&& polled.backlog is Some ==> Some(publish->beat.render_backlog) == polled.backlog
                &&& beaten == after.beaten(polled.pacing, polled.now_ns)
                &&& counting == beaten
                &&& count == (DeliveryAction::CountLoss { index })
            }
            &&& !due ==> after == pump && action == (DeliveryAction::CountLoss { index })
        }),
{
}

/// Once loss is counted, the delivery is handed over as it came: its own stamp, index and piece,
/// with the flags' meaning and with the loss that its gap and the count of drops give. A gap that
/// is reported for a later piece is not believed.
pub proof fn law_handed_over(d: Delivery, pump: VideoPump, reply: DeliveryReply)
    requires
        d.phase == DeliveryPhase::CountingLoss,
        pump.wf(),
    ensures
        ({
            let (next, after, action) = d.follow(pump, reply);
            let gap_width = if d.frame.part is None || d.frame.part->0.first {
                reply.gap_width
            } else {
                0
            };
            &&& action is Submit
            &&& action->wire.pts_ns == d.frame.pts_ns
            &&& action->wire.index == d.frame.frame_index
            &&& action->wire.part == d.frame.part
            &&& action->wire.reanchor <==> d.frame.flags & pump.flags.sof != 0 || d.frame.flags
                & pump.flags.recovery_anchor != 0
            &&& action->wire.recovery_mark <==> d.frame.flags & pump.flags.recovery_point != 0 && (
            d.frame.part is None || d.frame.part->0.first)
            &&& action->loss.gap_width == gap_width
            &&& action->loss == pump.loss_at(gap_width, reply.dropped, reply.now_ns)
            &&& action->wire.loss <==> gap_width > 0 || action->loss.dropped
            &&& after == pump.noted(gap_width, reply.dropped, reply.now_ns)
            &&& next.frame == d.frame
        }),
{
}

/// The outcome is acted upon: for a dead decoder the shared flag is set first, and what it held
/// decides whether to tell; for any other the reaction follows at once. Then the delivery is done
/// with and stays so. The pump does not change any more.
pub proof fn law_acted_upon(
    d: Delivery,
    pump: VideoPump,
    outcome: DeliveryReply,
    marked: DeliveryReply,
    later: DeliveryReply,
)
    requires
        d.phase == DeliveryPhase::Submitting,
    ensures
        ({
            let (next, after, action) = d.follow(pump, outcome);
            let (then, then_pump, told) = next.follow(after, marked);
            let (last, last_pump, done) = then.follow(then_pump, later);
            &&& after == pump && then_pump == pump && last_pump == pump
            &&& action is MarkDead <==> outcome.sink is Dead
            &&& outcome.sink is Dead ==> (told matches DeliveryAction::React {
                action: PumpAction::EndSession { first },
            } && first != marked.was_dead)
            &&& outcome.sink is Dead ==> done is Done
            &&& !(outcome.sink is Dead) ==> told is Done && done is Done
            &&& outcome.sink is NeedKeyframe ==> action == (DeliveryAction::React {
                action: PumpAction::RequestKeyframe,
            })
            &&& outcome.sink is Held ==> action == (DeliveryAction::React {
                action: PumpAction::Nothing,
            })
            &&& outcome.sink matches SinkResult::Presented { decode_us } ==> match decode_us {
                Some(us) => action == (DeliveryAction::React {
                    action: PumpAction::ReportDecode { us },
                }),
                None => action == (DeliveryAction::React { action: PumpAction::Nothing }),
            }
        }),
{
}

/// Boosting is followed by observing, with nothing of the pump changed.
pub proof fn law_boosted(d: Delivery, pump: VideoPump, reply: DeliveryReply)
    requires
        d.phase == DeliveryPhase::Boosting,
    ensures
        d.follow(pump, reply) == (
            Delivery { frame: d.frame, phase: DeliveryPhase::Observing },
            pump,
            DeliveryAction::Observe,
        ),
{
}

} // verus!
