//! The debug output: it counts what passes and what is dropped, for each
//! classification, and reports the counts once per interval.
//!
//! Time is a count of nanoseconds on a clock that does not go backwards.

use vstd::prelude::*;

verus! {

/// The counters of one classification.
#[derive(Clone, Copy, Debug, PartialEq, Eq)]
pub struct DebugBucket {
    pub pass: u64,
    pub drop: u64,
}

/// The counts of one interval.
#[derive(Clone, Debug)]
pub struct Report {
    pub pass: u64,
    pub drop: u64,
    /// The counters of each classification seen, in the order of their
    /// first message.
    pub rows: Vec<(String, DebugBucket)>,
}

/// The debug output.
#[derive(Clone, Debug)]
pub struct Output {
    last: u64,
    update_time: u64,
    buckets: Vec<(String, DebugBucket)>,
    drop: u64,
    pass: u64,
}

/// The interval between two reports: one second.
pub const UPDATE_TIME_NS: u64 = 1_000_000_000;

/// The counters of `class` in `rows` from row `i` on: those of its first
/// row, or zero where it has none.
pub open spec fn tally_from(rows: Seq<(String, DebugBucket)>, class: Seq<char>, i: int) -> DebugBucket
    decreases rows.len() - i,
{
    if i < 0 || i >= rows.len() {
        DebugBucket { pass: 0, drop: 0 }
    } else if rows[i].0@ == class {
        rows[i].1
    } else {
        tally_from(rows, class, i + 1)
    }
}

/// The counters of `class` in `rows`.
pub open spec fn tally(rows: Seq<(String, DebugBucket)>, class: Seq<char>) -> DebugBucket {
    tally_from(rows, class, 0)
}

/// The counters after one more message, dropped or passed.
pub open spec fn bumped(b: DebugBucket, drop: bool) -> DebugBucket {
    if drop {
        DebugBucket { drop: (b.drop + 1) as u64, ..b }
    } else {
        DebugBucket { pass: (b.pass + 1) as u64, ..b }
    }
}

proof fn lemma_tally_updated(
    rows: Seq<(String, DebugBucket)>,
    k: int,
    row: (String, DebugBucket),
    class: Seq<char>,
    i: int,
)
    requires
        0 <= i <= rows.len(),
        0 <= k < rows.len(),
        row.0@ == rows[k].0@,
        forall|j: int| 0 <= j < k ==> (#[trigger] rows[j]).0@ != rows[k].0@,
    ensures
        tally_from(rows.update(k, row), class, i) == if class == row.0@ && i <= k {
            row.1
        } else {
            tally_from(rows, class, i)
        },
    decreases rows.len() - i,
{
    if i < rows.len() {
        lemma_tally_updated(rows, k, row, class, i + 1);
    }
}

proof fn lemma_tally_pushed(
    rows: Seq<(String, DebugBucket)>,
    row: (String, DebugBucket),
    class: Seq<char>,
    i: int,
)
    requires
        0 <= i <= rows.len(),
        forall|j: int| 0 <= j < rows.len() ==> (#[trigger] rows[j]).0@ != row.0@,
    ensures
        tally_from(rows.push(row), class, i) == if class == row.0@ {
            row.1
        } else {
            tally_from(rows, class, i)
        },
    decreases rows.len() - i,
{
    if i < rows.len() {
        lemma_tally_pushed(rows, row, class, i + 1);
    } else {
        assert(tally_from(rows.push(row), class, i + 1) == (DebugBucket { pass: 0, drop: 0 }));
    }
}

impl Output {
    /// When the running interval began.
    pub closed spec fn last(&self) -> u64 {
        self.last
    }

    /// How long an interval lasts.
    pub closed spec fn update_time(&self) -> u64 {
        self.update_time
    }

    /// How many messages passed in the running interval.
    pub closed spec fn passed(&self) -> u64 {
        self.pass
    }

    /// How many messages were dropped in the running interval.
    pub closed spec fn dropped(&self) -> u64 {
        self.drop
    }

    /// The counters of `class` in the running interval.
    pub closed spec fn count(&self, class: Seq<char>) -> DebugBucket {
        tally(self.buckets@, class)
    }

    /// No classification has counted more than the output as a whole.
    pub closed spec fn wf(&self) -> bool {
        forall|i: int|
            0 <= i < self.buckets@.len() ==> (#[trigger] self.buckets@[i]).1.pass <= self.pass
                && self.buckets@[i].1.drop <= self.drop
    }

    /// Is a report due at `now`?
    pub open spec fn due(&self, now: u64) -> bool {
        now > self.last() && now - self.last() > self.update_time()
    }

    /// An output whose first interval begins at `now`; the options are not
    /// looked at.
    pub fn new(_opts: &str, now: u64) -> (output: Output)
        ensures
            output.wf(),
            output.last() == now,
            output.update_time() == UPDATE_TIME_NS,
            output.passed() == 0,
            output.dropped() == 0,
            forall|class: Seq<char>| #[trigger]
                output.count(class) == (DebugBucket { pass: 0, drop: 0 }),
    {
        Output { last: now, update_time: UPDATE_TIME_NS, buckets: Vec::new(), pass: 0, drop: 0 }
    }

    /// How many messages passed and how many were dropped in the running
    /// interval.
    pub fn totals(&self) -> (counts: (u64, u64))
        ensures
            counts.0 == self.passed(),
            counts.1 == self.dropped(),
    {
        (self.pass, self.drop)
    }

    /// Counts one message of `classification` at `now`. Where more than
    /// one interval has gone by since the last report, the counts so far
    /// come back as a report, a new interval begins at `now`, and the
    /// message is the first to count in it.
    pub fn send(&mut self, classification: &str, drop: bool, now: u64) -> (report: Option<Report>)
        requires
            old(self).wf(),
            old(self).passed() < u64::MAX,
            old(self).dropped() < u64::MAX,
        ensures
            final(self).wf(),
            final(self).update_time() == old(self).update_time(),
            report.is_some() == old(self).due(now),
            report.is_some() ==> {
                &&& report.unwrap().pass == old(self).passed()
                &&& report.unwrap().drop == old(self).dropped()
                &&& forall|class: Seq<char>| #[trigger]
                    tally(report.unwrap().rows@, class) == old(self).count(class)
                &&& final(self).last() == now
                &&& final(self).passed() == if drop { 0int } else { 1int }
                &&& final(self).dropped() == if drop { 1int } else { 0int }
                &&& forall|class: Seq<char>| #[trigger]
                    final(self).count(class) == if class == classification@ {
                        bumped(DebugBucket { pass: 0, drop: 0 }, drop)
                    } else {
                        DebugBucket { pass: 0, drop: 0 }
                    }
            },
            report.is_none() ==> {
                &&& final(self).last() == old(self).last()
                &&& final(self).passed() == old(self).passed() + if drop { 0int } else { 1int }
                &&& final(self).dropped() == old(self).dropped() + if drop { 1int } else { 0int }
                &&& forall|class: Seq<char>| #[trigger]
                    final(self).count(class) == if class == classification@ {
                        bumped(old(self).count(class), drop)
                    } else {
                        old(self).count(class)
                    }
            },
    {
        let report = if now > self.last && now - self.last > self.update_time {
            let mut rows: Vec<(String, DebugBucket)> = Vec::new();
            std::mem::swap(&mut self.buckets, &mut rows);
            let report = Report { pass: self.pass, drop: self.drop, rows };
            self.last = now;
            self.pass = 0;
            self.drop = 0;
            Some(report)
        } else {
            None
        };
        let ghost rows = self.buckets@;
        let wanted = classification.to_owned();
        let mut i: usize = 0;
        let mut found: bool = false;
        while i < self.buckets.len() && !found
            invariant
                i <= self.buckets.len(),
                self.buckets@ == rows,
                wanted@ == classification@,
                !found ==> forall|j: int| 0 <= j < i ==> (#[trigger] rows[j]).0@ != wanted@,
                found ==> i < rows.len() && rows[i as int].0@ == wanted@ && forall|j: int|
                    0 <= j < i ==> (#[trigger] rows[j]).0@ != wanted@,
                tally(rows, wanted@) == tally_from(rows, wanted@, i as int),
            decreases self.buckets.len() - i + if found { 0int } else { 1int },
        {
            if self.buckets[i].0 == wanted {
                found = true;
            } else {
                i = i + 1;
            }
        }
        if found {
            let bucket = self.buckets[i].1;
            let counted = if drop {
                DebugBucket { pass: bucket.pass, drop: bucket.drop + 1 }
            } else {
                DebugBucket { pass: bucket.pass + 1, drop: bucket.drop }
            };
            self.buckets.set(i, (wanted, counted));
            proof {
                assert forall|class: Seq<char>| #[trigger]
                    tally(self.buckets@, class) == if class == classification@ {
                        bumped(tally(rows, class), drop)
                    } else {
                        tally(rows, class)
                    } by {
                    lemma_tally_updated(rows, i as int, (wanted, counted), class, 0);
                }
            }
        } else {
            let counted = if drop {
                DebugBucket { pass: 0, drop: 1 }
            } else {
                DebugBucket { pass: 1, drop: 0 }
            };
            self.buckets.push((wanted, counted));
            proof {
                assert forall|class: Seq<char>| #[trigger]
                    tally(self.buckets@, class) == if class == classification@ {
                        bumped(tally(rows, class), drop)
                    } else {
                        tally(rows, class)
                    } by {
                    lemma_tally_pushed(rows, (wanted, counted), class, 0);
                }
            }
        }
        if drop {
            self.drop = self.drop + 1;
        } else {
            self.pass = self.pass + 1;
        }
        report
    }
}

} // verus!
