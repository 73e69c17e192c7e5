//! Scheduling-priority boosts for the threads that carry the stream: which threads are boosted,
//! how often the scan for them runs, and what its summary counts.

use std::collections::HashSet;

use vstd::prelude::*;

use crate::text;

verus! {

/// Suffix of the name of a vendor decode thread.
pub const VENDOR_DECODE_THREAD_SUFFIX: &'static str = ":src";

/// How long a scan may find nothing new before it is taken to be complete, in ns.
pub const VENDOR_DECODE_THREAD_QUIET_PERIOD_NS: u64 = 500_000_000;

/// How long the scan may run in all, in ns.
pub const VENDOR_DECODE_THREAD_SCAN_TIMEOUT_NS: u64 = 5_000_000_000;

/// Gap between two passes of the scan, in ns.
pub const VENDOR_DECODE_THREAD_SCAN_POLL_NS: u64 = 100_000_000;

/// How many threads were boosted and how many the kernel refused to boost.
#[derive(Clone, Copy, Debug, PartialEq, Eq, Structural)]
pub struct Tally {
    pub boosted: usize,
    pub failed: usize,
}

/// How often `value` occurs in `outcomes`.
pub open spec fn occurrences(outcomes: Seq<bool>, value: bool) -> nat {
    outcomes.filter(|b: bool| b == value).len()
}

/// Counts the outcomes of boosting the hot threads, one for each of them.
pub fn boost_hot_threads(outcomes: &Vec<bool>) -> (tally: Tally)
    ensures
        tally.boosted == occurrences(outcomes@, true),
        tally.failed == occurrences(outcomes@, false),
        tally.boosted + tally.failed == outcomes@.len(),
{
    let mut tally = Tally { boosted: 0, failed: 0 };
    let mut i: usize = 0;
    proof {
        reveal(Seq::filter);
        assert(outcomes@.take(0) =~= Seq::<bool>::empty());
    }
    while i < outcomes.len()
        invariant
            i <= outcomes@.len(),
            tally.boosted == occurrences(outcomes@.take(i as int), true),
            tally.failed == occurrences(outcomes@.take(i as int), false),
            tally.boosted + tally.failed == i,
        decreases outcomes@.len() - i,
    {
        proof {
            reveal(Seq::filter);
            assert(outcomes@.take(i + 1).drop_last() =~= outcomes@.take(i as int));
        }
        if outcomes[i] {
            tally.boosted = tally.boosted + 1;
        } else {
            tally.failed = tally.failed + 1;
        }
        i += 1;
    }
    assert(outcomes@.take(i as int) =~= outcomes@);
    tally
}

/// Whether a thread of this name, as the kernel gives it, belongs to the vendor's decode pipeline.
pub open spec fn is_vendor_thread(comm: Seq<char>) -> bool {
    VENDOR_DECODE_THREAD_SUFFIX@.is_suffix_of(text::trimmed(comm))
}

/// Whether a thread is to be boosted, where `seen` are the threads found so far.
pub open spec fn to_boost(seen: Set<i32>, tid: i32, comm: Seq<char>) -> bool {
    is_vendor_thread(comm) && !seen.contains(tid)
}

/// Whether a scan is over at a clock reading.
pub open spec fn scan_over(found_any: bool, last_found_ns: u64, start_ns: u64, now_ns: u64) -> bool {
    ||| found_any && crate::ndl::since(now_ns, last_found_ns)
        >= VENDOR_DECODE_THREAD_QUIET_PERIOD_NS
    ||| crate::ndl::since(now_ns, start_ns) >= VENDOR_DECODE_THREAD_SCAN_TIMEOUT_NS
}

/// The scan for vendor decode threads: they appear some time after the decoder is loaded.
#[derive(Debug)]
pub struct VendorScan {
    pub start_ns: u64,
    /// When a pass last found a thread.
    pub last_found_ns: u64,
    /// The threads found so far.
    pub seen: HashSet<i32>,
    /// How many of them the current pass found.
    pub found: usize,
    /// How many of them the kernel refused to boost.
    pub failed: usize,
}

impl VendorScan {
    /// What was found, and what was refused, was seen.
    pub open spec fn wf(self) -> bool {
        &&& self.seen@.finite()
        &&& self.found <= self.seen@.len()
        &&& self.failed <= self.seen@.len()
    }

    pub fn new(now_ns: u64) -> (s: VendorScan)
        ensures
            s.wf(),
            s.start_ns == now_ns,
            s.last_found_ns == now_ns,
            s.seen@ == Set::<i32>::empty(),
            s.found == 0,
            s.failed == 0,
    {
        VendorScan { start_ns: now_ns, last_found_ns: now_ns, seen: HashSet::new(), found: 0, failed: 0 }
    }

    /// The thread that a directory entry of this name stands for, if it is one not seen yet.
    pub fn candidate(&self, entry_name: &str) -> (tid: Option<i32>)
        ensures
            tid == match text::i32_value(entry_name@) {
                Some(t) if !self.seen@.contains(t) => Some(t),
                _ => None,
            },
    {
        broadcast use vstd::std_specs::hash::group_hash_axioms;

        match text::parse_i32(entry_name) {
            Some(t) => if self.seen.contains(&t) {
                None
            } else {
                Some(t)
            },
            None => None,
        }
    }

    /// Takes a thread's name: whether the thread is to be boosted, being a vendor decode thread
    /// that was not seen yet. From here on it is seen.
    pub fn claim(&mut self, tid: i32, comm: &str) -> (boost: bool)
        requires
            old(self).wf(),
        ensures
            final(self).wf(),
            boost == to_boost(old(self).seen@, tid, comm@),
            final(self).seen@ == if boost {
                old(self).seen@.insert(tid)
            } else {
                old(self).seen@
            },
            final(self).found == old(self).found + if boost {
                1int
            } else {
                0
            },
            final(self).failed == old(self).failed,
            final(self).start_ns == old(self).start_ns,
            final(self).last_found_ns == old(self).last_found_ns,
    {
        broadcast use vstd::std_specs::hash::group_hash_axioms;

        if !text::ends_with(text::trim(comm), VENDOR_DECODE_THREAD_SUFFIX) {
            return false;
        }
        if self.seen.contains(&tid) {
            return false;
        }
        self.seen.insert(tid);
        // The set's length fits in `usize`, and so does every count of threads in it.
        let _seen: usize = self.seen.len();
        self.found = self.found + 1;
        true
    }

    /// The kernel refused to boost a thread that was claimed.
    pub fn refused(&mut self)
        requires
            old(self).wf(),
            old(self).failed < old(self).seen@.len(),
        ensures
            final(self).wf(),
            final(self).failed == old(self).failed + 1,
            final(self).seen == old(self).seen,
            final(self).found == old(self).found,
            final(self).start_ns == old(self).start_ns,
            final(self).last_found_ns == old(self).last_found_ns,
    {
        broadcast use vstd::std_specs::hash::group_hash_axioms;

        // The set's length fits in `usize`, and so does every count of threads in it.
        let _seen: usize = self.seen.len();
        self.failed = self.failed + 1;
    }

    /// Ends a pass: whether the scan is over, which it is once some thread was found and then
    /// none for the quiet period, or once it has run for its time.
    pub fn end_pass(&mut self, now_ns: u64) -> (over: bool)
        requires
            old(self).wf(),
        ensures
            final(self).wf(),
            over == scan_over(
                !old(self).seen@.is_empty(),
                final(self).last_found_ns,
                old(self).start_ns,
                now_ns,
            ),
            final(self).last_found_ns == if old(self).found > 0 {
                now_ns
            } else {
                old(self).last_found_ns
            },
            over == {
                ||| !old(self).seen@.is_empty() && crate::ndl::since(
                    now_ns,
                    final(self).last_found_ns,
                ) >= VENDOR_DECODE_THREAD_QUIET_PERIOD_NS
                ||| crate::ndl::since(now_ns, old(self).start_ns)
                    >= VENDOR_DECODE_THREAD_SCAN_TIMEOUT_NS
            },
            final(self).found == 0,
            final(self).seen == old(self).seen,
            final(self).failed == old(self).failed,
            final(self).start_ns == old(self).start_ns,
    {
        if self.found > 0 {
            self.last_found_ns = now_ns;
        }
        self.found = 0;
        let quiet = !self.seen.is_empty() && now_ns.saturating_sub(self.last_found_ns)
            >= VENDOR_DECODE_THREAD_QUIET_PERIOD_NS;
        quiet || now_ns.saturating_sub(self.start_ns) >= VENDOR_DECODE_THREAD_SCAN_TIMEOUT_NS
    }

    /// What the scan came to.
    pub fn summary(&self) -> (tally: Tally)
        requires
            self.wf(),
        ensures
            tally.failed == self.failed,
            tally.boosted + tally.failed == self.seen@.len(),
    {
        broadcast use vstd::std_specs::hash::group_hash_axioms;

        Tally { boosted: self.seen.len().saturating_sub(self.failed), failed: self.failed }
    }
}

/// The threads that are boosted, in order, as these threads are met under these names, any of
/// them any number of times.
pub open spec fn boosted(seen: Set<i32>, met: Seq<(i32, Seq<char>)>) -> Seq<i32>
    decreases met.len(),
{
    if met.len() == 0 {
        seq![]
    } else {
        let (tid, comm) = met[0];
        if to_boost(seen, tid, comm) {
            seq![tid] + boosted(seen.insert(tid), met.drop_first())
        } else {
            boosted(seen, met.drop_first())
        }
    }
}

/// However often a thread is met, it is boosted at most once, and only where it was not seen before.
pub proof fn law_boosted_once(seen: Set<i32>, met: Seq<(i32, Seq<char>)>)
    ensures
        boosted(seen, met).no_duplicates(),
        forall|i: int|
            0 <= i < boosted(seen, met).len() ==> !seen.contains(#[trigger] boosted(seen, met)[i]),
    decreases met.len(),
{
    if met.len() > 0 {
        let (tid, comm) = met[0];
        if to_boost(seen, tid, comm) {
            let rest = boosted(seen.insert(tid), met.drop_first());
            law_boosted_once(seen.insert(tid), met.drop_first());
            let all = boosted(seen, met);
            assert(all == seq![tid] + rest);
            assert forall|i: int| 0 <= i < all.len() implies !seen.contains(#[trigger] all[i]) by {
                if i > 0 {
                    assert(all[i] == rest[i - 1]);
                }
            }
            assert forall|i: int, j: int|
                0 <= i < all.len() && 0 <= j < all.len() && i != j implies all[i] != all[j] by {
                if i > 0 {
                    assert(all[i] == rest[i - 1]);
                }
                if j > 0 {
                    assert(all[j] == rest[j - 1]);
                }
            }
        } else {
            law_boosted_once(seen, met.drop_first());
        }
    }
}

/// The threads seen once these have been met under these names.
pub open spec fn seen_after(seen: Set<i32>, met: Seq<(i32, Seq<char>)>) -> Set<i32>
    decreases met.len(),
{
    if met.len() == 0 {
        seen
    } else {
        let (tid, comm) = met[0];
        if to_boost(seen, tid, comm) {
            seen_after(seen.insert(tid), met.drop_first())
        } else {
            seen_after(seen, met.drop_first())
        }
    }
}

/// A pass misses no vendor thread: every one that it meets is seen afterwards, and is boosted where
/// it was not seen before. It sees nothing else than what it boosts.
pub proof fn law_pass_is_complete(seen: Set<i32>, met: Seq<(i32, Seq<char>)>)
    ensures
        forall|i: int|
            0 <= i < met.len() && is_vendor_thread((#[trigger] met[i]).1) ==> {
                &&& seen_after(seen, met).contains(met[i].0)
                &&& seen.contains(met[i].0) || boosted(seen, met).contains(met[i].0)
            },
        forall|tid: i32| #[trigger]
            seen_after(seen, met).contains(tid) <==> seen.contains(tid) || boosted(
                seen,
                met,
            ).contains(tid),
    decreases met.len(),
{
    if met.len() > 0 {
        let (tid, comm) = met[0];
        let rest = met.drop_first();
        let all = boosted(seen, met);
        if to_boost(seen, tid, comm) {
            let later = boosted(seen.insert(tid), rest);
            law_pass_is_complete(seen.insert(tid), rest);
            assert(seen_after(seen, met) == seen_after(seen.insert(tid), rest));
            assert(all == seq![tid] + later);
            assert(all[0] == tid);
            assert forall|t: i32| #[trigger]
                all.contains(t) <==> t == tid || later.contains(t) by {
                if later.contains(t) {
                    let k = choose|k: int| 0 <= k < later.len() && later[k] == t;
                    assert(all[k + 1] == t);
                }
                if all.contains(t) && t != tid {
                    let k = choose|k: int| 0 <= k < all.len() && all[k] == t;
                    assert(later[k - 1] == t);
                }
            }
        } else {
            law_pass_is_complete(seen, rest);
            assert(seen_after(seen, met) == seen_after(seen, rest));
            assert(all == boosted(seen, rest));
        }
        assert forall|i: int|
            0 <= i < met.len() && is_vendor_thread((#[trigger] met[i]).1) implies {
            &&& seen_after(seen, met).contains(met[i].0)
            &&& seen.contains(met[i].0) || all.contains(met[i].0)
        } by {
            if i > 0 {
                assert(rest[i - 1] == met[i]);
            }
        }
    }
}

/// A second pass over the same listing, or over part of it in any order, boosts nothing.
pub proof fn law_second_pass_boosts_none(
    seen: Set<i32>,
    met: Seq<(i32, Seq<char>)>,
    again: Seq<(i32, Seq<char>)>,
)
    requires
        forall|i: int| 0 <= i < again.len() ==> met.contains(#[trigger] again[i]),
    ensures
        boosted(seen_after(seen, met), again).len() == 0,
    decreases again.len(),
{
    if again.len() > 0 {
        law_pass_is_complete(seen, met);
        assert(met.contains(again[0]));
        let rest = again.drop_first();
        assert forall|i: int| 0 <= i < rest.len() implies met.contains(#[trigger] rest[i]) by {
            assert(rest[i] == again[i + 1]);
        }
        law_second_pass_boosts_none(seen, met, rest);
    }
}

/// A vendor thread is one whose name, without the white space around it, ends in a colon and `src`.
pub proof fn law_vendor_names(comm: Seq<char>)
    ensures
        ({
            let name = text::trimmed(comm);
            is_vendor_thread(comm) <==> name.len() >= 4 && name[name.len() - 4] == ':'
                && name[name.len() - 3] == 's' && name[name.len() - 2] == 'r' && name[name.len()
                - 1] == 'c'
        }),
{
    reveal_strlit(":src");
    let name = text::trimmed(comm);
    let suffix = VENDOR_DECODE_THREAD_SUFFIX@;
    if name.len() >= 4 {
        let end = name.subrange(name.len() - 4, name.len() as int);
        assert(end[0] == name[name.len() - 4] && end[1] == name[name.len() - 3] && end[2]
            == name[name.len() - 2] && end[3] == name[name.len() - 1]);
        if name[name.len() - 4] == ':' && name[name.len() - 3] == 's' && name[name.len() - 2] == 'r'
            && name[name.len() - 1] == 'c' {
            assert(end =~= suffix);
        }
    }
}

/// A thread is boosted exactly where it is a vendor thread that was not seen, whatever its number
/// and whatever other threads were seen.
pub proof fn law_to_boost(seen: Set<i32>, other: Set<i32>, tid: i32, comm: Seq<char>)
    ensures
        to_boost(seen, tid, comm) <==> is_vendor_thread(comm) && !seen.contains(tid),
        seen.contains(tid) == other.contains(tid) ==> to_boost(seen, tid, comm) == to_boost(
            other,
            tid,
            comm,
        ),
{
}

/// Every outcome is counted once, as what it is.
pub proof fn law_tally(outcomes: Seq<bool>, more: bool)
    ensures
        occurrences(outcomes.push(more), more) == occurrences(outcomes, more) + 1,
        occurrences(outcomes.push(more), !more) == occurrences(outcomes, !more),
        occurrences(Seq::empty(), more) == 0,
{
    reveal(Seq::filter);
    assert(outcomes.push(more).drop_last() =~= outcomes);
}

/// A scan goes on for half a second after the last thread that it found, and for as long as it has
/// found none, but for no more than five seconds in all; its passes are a tenth of a second apart,
/// so that it sees fifty at most.
pub proof fn law_scan_ends(found_any: bool, last_found_ns: u64, start_ns: u64, now_ns: u64)
    ensures
        !scan_over(found_any, last_found_ns, start_ns, now_ns) <==> now_ns < start_ns
            + 5_000_000_000 && (!found_any || now_ns < last_found_ns + 500_000_000),
        VENDOR_DECODE_THREAD_SCAN_POLL_NS * 50 == 5_000_000_000,
{
}

} // verus!
