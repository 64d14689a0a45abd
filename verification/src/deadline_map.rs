//! A two-generation map from pull ids to ack tokens.
//!
//! Entries live in a "green" bucket until that bucket has been open for one
//! deadline; the next insertion then retires green to "blue" and drops what
//! blue held before. Time is a count of nanoseconds.

use std::collections::HashMap;
use vstd::prelude::*;

verus! {

broadcast use vstd::std_specs::hash::group_hash_axioms;

/// The mathematical content of a [`DeadlineMap`].
pub struct Buckets {
    /// The retired generation.
    pub blue: Map<u64, Seq<char>>,
    /// The generation that takes insertions.
    pub green: Map<u64, Seq<char>>,
    /// When the green bucket was opened.
    pub green_opened: u64,
    /// How long a bucket takes insertions.
    pub deadline: u64,
}

impl Buckets {
    /// Two empty buckets, green opened at `now`.
    pub open spec fn empty(deadline: u64, now: u64) -> Buckets {
        Buckets { blue: Map::empty(), green: Map::empty(), green_opened: now, deadline }
    }

    /// Has the green bucket been open for a full deadline at `now`?
    pub open spec fn due(self, now: u64) -> bool {
        now >= self.green_opened && now - self.green_opened >= self.deadline
    }

    /// Blue is dropped, green becomes blue, a new green opens at `now`.
    pub open spec fn rotate(self, now: u64) -> Buckets {
        Buckets { blue: self.green, green: Map::empty(), green_opened: now, deadline: self.deadline }
    }

    /// The buckets as an insertion at `now` finds them.
    pub open spec fn settle(self, now: u64) -> Buckets {
        if self.due(now) {
            self.rotate(now)
        } else {
            self
        }
    }

    /// Rotation where it is due, then the entry goes into green.
    pub open spec fn insert(self, key: u64, token: Seq<char>, now: u64) -> Buckets {
        let s = self.settle(now);
        Buckets { green: s.green.insert(key, token), ..s }
    }

    /// The token held for `key`: green is asked first, then blue.
    pub open spec fn lookup(self, key: u64) -> Option<Seq<char>> {
        if self.green.contains_key(key) {
            Some(self.green[key])
        } else if self.blue.contains_key(key) {
            Some(self.blue[key])
        } else {
            None
        }
    }

    /// The entry that `lookup` finds is erased.
    pub open spec fn remove(self, key: u64) -> Buckets {
        if self.green.contains_key(key) {
            Buckets { green: self.green.remove(key), ..self }
        } else {
            Buckets { blue: self.blue.remove(key), ..self }
        }
    }

    /// Both buckets hold finitely many entries.
    pub open spec fn finite(self) -> bool {
        self.blue.dom().finite() && self.green.dom().finite()
    }

    /// The number of entries held, both buckets together.
    pub open spec fn size(self) -> nat {
        self.blue.len() + self.green.len()
    }
}

/// The tokens of a bucket as sequences of characters.
pub open spec fn tokens(m: Map<u64, String>) -> Map<u64, Seq<char>> {
    Map::new(|k: u64| m.contains_key(k), |k: u64| m[k]@)
}

/// Map from pull id to ack token that forgets entries two rotations old.
pub struct DeadlineMap {
    blue: HashMap<u64, String>,
    green: HashMap<u64, String>,
    green_opened: u64,
    deadline: u64,
}

impl View for DeadlineMap {
    type V = Buckets;

    closed spec fn view(&self) -> Buckets {
        Buckets {
            blue: tokens(self.blue@),
            green: tokens(self.green@),
            green_opened: self.green_opened,
            deadline: self.deadline,
        }
    }
}

impl DeadlineMap {
    /// An empty map whose green bucket opens at `now`.
    pub fn new(deadline: u64, now: u64) -> (m: DeadlineMap)
        ensures
            m@ == Buckets::empty(deadline, now),
    {
        let m = DeadlineMap { blue: HashMap::new(), green: HashMap::new(), green_opened: now, deadline };
        assert(tokens(m.blue@) =~= Map::empty());
        assert(tokens(m.green@) =~= Map::empty());
        m
    }

    /// Rotates where the green bucket has been open for a full deadline.
    fn rotate_if_due(&mut self, now: u64)
        ensures
            final(self)@ == old(self)@.settle(now),
    {
        if now >= self.green_opened && now - self.green_opened >= self.deadline {
            let mut retired: HashMap<u64, String> = HashMap::new();
            std::mem::swap(&mut self.green, &mut retired);
            self.blue = retired;
            self.green_opened = now;
            assert(tokens(self.green@) =~= Map::empty());
        }
    }

    /// Records `token` under `key`, after the rotation that `now` calls for.
    pub fn insert(&mut self, key: u64, token: String, now: u64)
        ensures
            final(self)@ == old(self)@.insert(key, token@, now),
    {
        self.rotate_if_due(now);
        let ghost before = self.green@;
        self.green.insert(key, token);
        assert(tokens(self.green@) =~= tokens(before).insert(key, token@));
    }

    /// Takes the token of `key` out, from green if it is there, else from blue.
    pub fn remove(&mut self, key: &u64) -> (taken: Option<String>)
        ensures
            final(self)@ == old(self)@.remove(*key),
            match old(self)@.lookup(*key) {
                Some(token) => taken.is_some() && taken.unwrap()@ == token,
                None => taken.is_none(),
            },
    {
        let ghost green = self.green@;
        let ghost blue = self.blue@;
        let taken = match self.green.remove(key) {
            Some(token) => {
                assert(tokens(self.green@) =~= tokens(green).remove(*key));
                Some(token)
            },
            None => {
                assert(self.green@ =~= green);
                let taken = self.blue.remove(key);
                assert(tokens(self.blue@) =~= tokens(blue).remove(*key));
                taken
            },
        };
        taken
    }

    /// How many entries the blue and the green bucket hold.
    pub fn sizes(&self) -> (n: (usize, usize))
        ensures
            n.0 == self@.blue.len(),
            n.1 == self@.green.len(),
            self@.finite(),
    {
        assert(tokens(self.blue@).dom() =~= self.blue@.dom());
        assert(tokens(self.green@).dom() =~= self.green@.dom());
        (self.blue.len(), self.green.len())
    }
}

/// One insertion, as a trace records it.
pub struct Insertion {
    pub key: u64,
    pub token: Seq<char>,
    pub at: u64,
}

/// The buckets after the insertions of `trace`, made in order on `start`.
pub open spec fn replay(start: Buckets, trace: Seq<Insertion>) -> Buckets
    decreases trace.len(),
{
    if trace.len() == 0 {
        start
    } else {
        replay(start, trace.drop_last()).insert(
            trace.last().key,
            trace.last().token,
            trace.last().at,
        )
    }
}

/// How many insertions of `trace` fall into the window of `width` that
/// begins at `from`.
pub open spec fn insertions_within(trace: Seq<Insertion>, from: int, width: int) -> nat
    decreases trace.len(),
{
    if trace.len() == 0 {
        0
    } else {
        let earlier = insertions_within(trace.drop_last(), from, width);
        if from <= trace.last().at < from + width {
            earlier + 1
        } else {
            earlier
        }
    }
}

/// The insertions of `trace` come at or after `opened`, and none comes
/// before an earlier one.
pub open spec fn in_order(opened: u64, trace: Seq<Insertion>) -> bool {
    &&& forall|i: int| 0 <= i < trace.len() ==> opened <= (#[trigger] trace[i]).at
    &&& forall|i: int, j: int|
        0 <= i <= j < trace.len() ==> (#[trigger] trace[i]).at <= (#[trigger] trace[j]).at
}

/// Each bucket holds no more than what was inserted within one window of
/// the deadline: green within the window that begins where it was opened,
/// blue within the window that the result names.
proof fn lemma_buckets_within_windows(deadline: u64, opened: u64, trace: Seq<Insertion>) -> (blue_from:
    int)
    requires
        deadline > 0,
        in_order(opened, trace),
    ensures
        replay(Buckets::empty(deadline, opened), trace).finite(),
        replay(Buckets::empty(deadline, opened), trace).deadline == deadline,
        replay(Buckets::empty(deadline, opened), trace).blue.len() <= insertions_within(
            trace,
            blue_from,
            deadline as int,
        ),
        replay(Buckets::empty(deadline, opened), trace).green.len() <= insertions_within(
            trace,
            replay(Buckets::empty(deadline, opened), trace).green_opened as int,
            deadline as int,
        ),
        opened <= replay(Buckets::empty(deadline, opened), trace).green_opened,
        trace.len() > 0 ==> replay(Buckets::empty(deadline, opened), trace).green_opened
            <= trace.last().at,
    decreases trace.len(),
{
    if trace.len() == 0 {
        0
    } else {
        let earlier = trace.drop_last();
        let last = trace.last();
        assert(last == trace[trace.len() - 1]);
        assert forall|i: int| 0 <= i < earlier.len() implies opened <= (#[trigger] earlier[i]).at by {
            assert(earlier[i] == trace[i]);
        }
        assert forall|i: int, j: int| 0 <= i <= j < earlier.len() implies (#[trigger] earlier[i]).at
            <= (#[trigger] earlier[j]).at by {
            assert(earlier[i] == trace[i]);
            assert(earlier[j] == trace[j]);
        }
        let blue_before = lemma_buckets_within_windows(deadline, opened, earlier);
        let before = replay(Buckets::empty(deadline, opened), earlier);
        if earlier.len() > 0 {
            assert(earlier.last() == trace[trace.len() - 2]);
        }
        assert(before.green_opened <= last.at);
        if before.due(last.at) {
            assert(Map::<u64, Seq<char>>::empty().insert(last.key, last.token).dom()
                =~= Set::<u64>::empty().insert(last.key));
            before.green_opened as int
        } else {
            blue_before
        }
    }
}

/// After any run of insertions whose times do not go backwards, on a map
/// with a deadline above 0, the map holds at most twice as many entries as
/// were inserted within any one window of the deadline's length.
pub proof fn lemma_size_bounded(deadline: u64, opened: u64, trace: Seq<Insertion>, bound: nat)
    requires
        deadline > 0,
        in_order(opened, trace),
        forall|from: int| #[trigger] insertions_within(trace, from, deadline as int) <= bound,
    ensures
        replay(Buckets::empty(deadline, opened), trace).size() <= 2 * bound,
{
    let blue_from = lemma_buckets_within_windows(deadline, opened, trace);
    let after = replay(Buckets::empty(deadline, opened), trace);
    assert(insertions_within(trace, blue_from, deadline as int) <= bound);
    assert(insertions_within(trace, after.green_opened as int, deadline as int) <= bound);
}

/// Where the key of an insertion ends up while later insertions, under
/// other keys, come less than one deadline after it: in green, or in blue
/// under a green bucket that was opened no earlier than the insertion.
proof fn lemma_held_in_a_bucket(
    start: Buckets,
    key: u64,
    token: Seq<char>,
    at: u64,
    later: Seq<Insertion>,
)
    requires
        forall|i: int|
            0 <= i < later.len() ==> (#[trigger] later[i]).key != key && at <= later[i].at
                && later[i].at - at < start.deadline,
    ensures
        replay(start.insert(key, token, at), later).lookup(key) == Some(token),
        replay(start.insert(key, token, at), later).deadline == start.deadline,
        !replay(start.insert(key, token, at), later).green.contains_key(key) ==> at <= replay(
            start.insert(key, token, at),
            later,
        ).green_opened,
    decreases later.len(),
{
    if later.len() > 0 {
        let earlier = later.drop_last();
        assert(later.last() == later[later.len() - 1]);
        assert forall|i: int| 0 <= i < earlier.len() implies (#[trigger] earlier[i]).key != key
            && at <= earlier[i].at && earlier[i].at - at < start.deadline by {
            assert(earlier[i] == later[i]);
        }
        lemma_held_in_a_bucket(start, key, token, at, earlier);
    }
}

/// A token stays available for one deadline: whatever else is inserted
/// less than one deadline after it, under other keys and not before it, a
/// lookup of its key still finds it.
pub proof fn lemma_held_within_deadline(
    start: Buckets,
    key: u64,
    token: Seq<char>,
    at: u64,
    later: Seq<Insertion>,
)
    requires
        forall|i: int|
            0 <= i < later.len() ==> (#[trigger] later[i]).key != key && at <= later[i].at
                && later[i].at - at < start.deadline,
    ensures
        replay(start.insert(key, token, at), later).lookup(key) == Some(token),
{
    lemma_held_in_a_bucket(start, key, token, at, later);
}

/// A token is gone after two rotations: once two insertions under other
/// keys have each found the green bucket due, a lookup of its key finds
/// nothing.
pub proof fn lemma_evicted_after_two_rotations(
    start: Buckets,
    key: u64,
    first: Insertion,
    second: Insertion,
)
    requires
        first.key != key,
        second.key != key,
        start.due(first.at),
        start.insert(first.key, first.token, first.at).due(second.at),
    ensures
        start.insert(first.key, first.token, first.at).insert(
            second.key,
            second.token,
            second.at,
        ).lookup(key).is_none(),
{
}

} // verus!
