//! The table of best runs: at most five records, best first.

use crate::difficulty::Difficulty;
use crate::screen::RecordRow;
use std::collections::VecDeque;
use vstd::prelude::*;

verus! {

/// Number of records that the table keeps.
pub const MAX_RECORDS: usize = 5;

/// Microseconds in a second.
pub const MICROS_PER_SECOND: u64 = 1_000_000;

/// The outcome of one run: the score reached, the time recorded for the run
/// in microseconds, and the difficulty it was played at.
#[derive(Clone, Copy, Debug, PartialEq, Eq, Structural)]
pub struct GameRecord {
    pub score: i32,
    pub duration: u64,
    pub difficulty: Difficulty,
}

impl GameRecord {
    /// This record ranks strictly below `other`: its score is lower, or the
    /// scores are equal and it was played at a lower difficulty.
    pub open spec fn ranks_below(self, other: GameRecord) -> bool {
        self.score < other.score || (self.score == other.score && self.difficulty.rank()
            < other.difficulty.rank())
    }

    /// Whether this record ranks strictly below `other`.
    pub fn is_below(&self, other: &GameRecord) -> (r: bool)
        ensures
            r == self.ranks_below(*other),
    {
        self.score < other.score || (self.score == other.score && self.difficulty.rank()
            < other.difficulty.rank())
    }

    /// The record as a line of the high-score screen, in place `index` of the
    /// table (counted from 0): places are shown from 1, and the duration as
    /// whole minutes and the whole seconds beyond them.
    pub open spec fn row(self, index: int) -> RecordRow {
        RecordRow {
            rank: (index + 1) as usize,
            difficulty: self.difficulty,
            score: self.score,
            minutes: (self.duration / MICROS_PER_SECOND) / 60,
            seconds: (self.duration / MICROS_PER_SECOND) % 60,
        }
    }
}

/// No record of the sequence ranks below a later one.
pub open spec fn best_first(s: Seq<GameRecord>) -> bool {
    forall|i: int, j: int| 0 <= i < j < s.len() ==> !(#[trigger] s[i]).ranks_below(#[trigger] s[j])
}

/// Index of the record that ranks lowest, the first of them if several rank
/// equally low. For the empty sequence the result is 0.
pub open spec fn lowest(s: Seq<GameRecord>) -> int
    decreases s.len(),
{
    if s.len() <= 1 {
        0
    } else {
        let before = lowest(s.drop_last());
        if s.last().ranks_below(s[before]) {
            s.len() - 1
        } else {
            before
        }
    }
}

/// First index at or after `from` whose record ranks below `record`, or the
/// sequence's length if there is none.
pub open spec fn place_from(s: Seq<GameRecord>, record: GameRecord, from: int) -> int
    decreases s.len() - from,
{
    if from < 0 || from >= s.len() || s[from].ranks_below(record) {
        from
    } else {
        place_from(s, record, from + 1)
    }
}

/// Where a new record goes: before the first record that ranks below it, and
/// so behind every record that ranks equal to it.
pub open spec fn place_for(s: Seq<GameRecord>, record: GameRecord) -> int {
    place_from(s, record, 0)
}

/// The records that stay when a new one arrives: all of them while there is
/// room, else all but the [`lowest`].
pub open spec fn kept(s: Seq<GameRecord>) -> Seq<GameRecord> {
    if s.len() >= MAX_RECORDS {
        s.remove(lowest(s))
    } else {
        s
    }
}

/// The table after a new record has arrived: room is made first, whatever the
/// new record's rank, and the record is then put in its place among the
/// records that stayed.
pub open spec fn with_record(s: Seq<GameRecord>, record: GameRecord) -> Seq<GameRecord> {
    kept(s).insert(place_for(kept(s), record), record)
}

/// Contents of a valid table: at most [`MAX_RECORDS`] records, best first.
pub open spec fn table_wf(s: Seq<GameRecord>) -> bool {
    &&& s.len() <= MAX_RECORDS
    &&& best_first(s)
}

/// The [`lowest`] record of a sequence that is not empty is one of its
/// records, none ranks below it, and every record before it ranks above it.
pub proof fn lemma_lowest_is_first_minimum(s: Seq<GameRecord>)
    requires
        s.len() > 0,
    ensures
        0 <= lowest(s) < s.len(),
        forall|j: int| 0 <= j < s.len() ==> !(#[trigger] s[j]).ranks_below(s[lowest(s)]),
        forall|j: int| 0 <= j < lowest(s) ==> s[lowest(s)].ranks_below(#[trigger] s[j]),
    decreases s.len(),
{
    if s.len() > 1 {
        let front = s.drop_last();
        lemma_lowest_is_first_minimum(front);
        assert(forall|j: int| 0 <= j < front.len() ==> front[j] == s[j]);
    }
}

/// The place that [`place_from`] finds lies between `from` and the end of the
/// sequence; no record from `from` up to it ranks below the new record, and
/// the record at it, if there is one, does.
pub proof fn lemma_place_from(s: Seq<GameRecord>, record: GameRecord, from: int)
    requires
        0 <= from <= s.len(),
    ensures
        from <= place_from(s, record, from) <= s.len(),
        forall|j: int|
            from <= j < place_from(s, record, from) ==> !(#[trigger] s[j]).ranks_below(record),
        place_from(s, record, from) < s.len() ==> s[place_from(s, record, from)].ranks_below(
            record,
        ),
    decreases s.len() - from,
{
    if from < s.len() && !s[from].ranks_below(record) {
        lemma_place_from(s, record, from + 1);
    }
}

/// Taking a record out of a table that is best first leaves it best first.
pub proof fn lemma_remove_keeps_order(s: Seq<GameRecord>, index: int)
    requires
        best_first(s),
        0 <= index < s.len(),
    ensures
        best_first(s.remove(index)),
{
    let t = s.remove(index);
    assert forall|i: int, j: int| 0 <= i < j < t.len() implies !(#[trigger] t[i]).ranks_below(
        #[trigger] t[j],
    ) by {
        let a = if i < index { i } else { i + 1 };
        let b = if j < index { j } else { j + 1 };
        assert(t[i] == s[a]);
        assert(t[j] == s[b]);
    }
}

/// A new record never makes the table invalid: afterwards it still holds at
/// most [`MAX_RECORDS`] records, and they are still best first.
pub proof fn lemma_with_record_wf(s: Seq<GameRecord>, record: GameRecord)
    requires
        table_wf(s),
    ensures
        table_wf(with_record(s, record)),
        with_record(s, record).len() == if s.len() < MAX_RECORDS {
            s.len() + 1
        } else {
            s.len()
        },
{
    let k = kept(s);
    if s.len() >= MAX_RECORDS {
        lemma_lowest_is_first_minimum(s);
        lemma_remove_keeps_order(s, lowest(s));
    }
    lemma_place_from(k, record, 0);
    let p = place_for(k, record);
    let t = with_record(s, record);
    assert forall|i: int, j: int| 0 <= i < j < t.len() implies !(#[trigger] t[i]).ranks_below(
        #[trigger] t[j],
    ) by {
        if j < p {
            assert(t[i] == k[i] && t[j] == k[j]);
        } else if j == p {
            assert(t[i] == k[i] && t[j] == record);
        } else if i < p {
            assert(t[i] == k[i] && t[j] == k[j - 1]);
        } else if i == p {
            assert(t[i] == record && t[j] == k[j - 1]);
            assert(k[p].ranks_below(record));
            assert(p < j - 1 ==> !k[p].ranks_below(k[j - 1]));
        } else {
            assert(t[i] == k[i - 1] && t[j] == k[j - 1]);
        }
    }
}

/// The table after the records of `arrivals` have come in one by one, in
/// their order in the sequence.
pub open spec fn with_records(s: Seq<GameRecord>, arrivals: Seq<GameRecord>) -> Seq<GameRecord>
    decreases arrivals.len(),
{
    if arrivals.len() == 0 {
        s
    } else {
        with_record(with_records(s, arrivals.drop_last()), arrivals.last())
    }
}

/// However many records come in, and in whatever order, a valid table stays
/// valid: it never holds more than [`MAX_RECORDS`] records, and they are
/// always best first. The empty table is valid, so this holds of every table
/// that has been filled from nothing.
pub proof fn lemma_with_records_wf(s: Seq<GameRecord>, arrivals: Seq<GameRecord>)
    requires
        table_wf(s),
    ensures
        table_wf(with_records(s, arrivals)),
        table_wf(with_records(Seq::empty(), arrivals)),
    decreases arrivals.len(),
{
    if arrivals.len() > 0 {
        lemma_with_records_wf(s, arrivals.drop_last());
        lemma_with_record_wf(with_records(s, arrivals.drop_last()), arrivals.last());
        lemma_with_record_wf(with_records(Seq::empty(), arrivals.drop_last()), arrivals.last());
    }
}

/// The new record is in the table afterwards, at its place, and the records
/// that stayed are around it in the order they had.
pub proof fn lemma_with_record_members(s: Seq<GameRecord>, record: GameRecord)
    requires
        table_wf(s),
    ensures
        with_record(s, record)[place_for(kept(s), record)] == record,
        with_record(s, record).remove(place_for(kept(s), record)) == kept(s),
        with_record(s, record).to_multiset() == kept(s).to_multiset().insert(record),
{
    let k = kept(s);
    lemma_place_from(k, record, 0);
    let p = place_for(k, record);
    assert(k.insert(p, record).remove(p) =~= k);
    vstd::seq_lib::to_multiset_insert(k, p, record);
}

/// The table of best runs.
pub struct RecordTable {
    entries: VecDeque<GameRecord>,
}

impl View for RecordTable {
    type V = Seq<GameRecord>;

    closed spec fn view(&self) -> Seq<GameRecord> {
        self.entries@
    }
}

impl RecordTable {
    /// The table holds at most [`MAX_RECORDS`] records, best first.
    pub open spec fn wf(&self) -> bool {
        table_wf(self@)
    }

    /// An empty table.
    pub fn new() -> (table: RecordTable)
        ensures
            table@ == Seq::<GameRecord>::empty(),
            table.wf(),
    {
        RecordTable { entries: VecDeque::with_capacity(MAX_RECORDS) }
    }

    /// Number of records in the table.
    pub fn len(&self) -> (n: usize)
        ensures
            n == self@.len(),
    {
        self.entries.len()
    }

    /// Whether the table is valid; see [`RecordTable::wf`].
    pub fn is_valid(&self) -> (valid: bool)
        ensures
            valid == self.wf(),
    {
        if self.entries.len() > MAX_RECORDS {
            return false;
        }
        if self.entries.len() == 0 {
            return true;
        }
        let mut i: usize = 1;
        while i < self.entries.len()
            invariant
                1 <= i <= self@.len(),
                best_first(self@.take(i as int)),
            decreases self@.len() - i,
        {
            if self.entries[i - 1].is_below(&self.entries[i]) {
                return false;
            }
            assert forall|a: int, b: int| 0 <= a < b < i + 1 implies !(#[trigger] self@.take(
                i + 1,
            )[a]).ranks_below(#[trigger] self@.take(i + 1)[b]) by {
                if b == i && a < i - 1 {
                    assert(!self@.take(i as int)[a].ranks_below(self@.take(i as int)[i - 1]));
                } else if b < i {
                    assert(!self@.take(i as int)[a].ranks_below(self@.take(i as int)[b]));
                }
            }
            i += 1;
        }
        assert(self@.take(i as int) =~= self@);
        true
    }

    /// Index of the [`lowest`] record.
    fn lowest_index(&self) -> (index: usize)
        requires
            self@.len() > 0,
        ensures
            index == lowest(self@),
            index < self@.len(),
    {
        let mut index: usize = 0;
        let mut i: usize = 1;
        assert(self@.take(1).len() == 1);
        while i < self.entries.len()
            invariant
                1 <= i <= self@.len(),
                index < i,
                index == lowest(self@.take(i as int)),
            decreases self@.len() - i,
        {
            assert(self@.take(i + 1).drop_last() =~= self@.take(i as int));
            if self.entries[i].is_below(&self.entries[index]) {
                index = i;
            }
            i += 1;
        }
        assert(self@.take(i as int) =~= self@);
        index
    }

    /// Index of the [`place_for`] a new record.
    fn place_of(&self, record: &GameRecord) -> (place: usize)
        ensures
            place == place_for(self@, *record),
            place <= self@.len(),
    {
        let mut place: usize = 0;
        while place < self.entries.len() && !self.entries[place].is_below(record)
            invariant
                place <= self@.len(),
                place_for(self@, *record) == place_from(self@, *record, place as int),
            decreases self@.len() - place,
        {
            place += 1;
        }
        place
    }

    /// Records a run. A full table first drops its [`lowest`] record, even if
    /// the new one ranks lower still; the new record then takes its place
    /// behind the records that rank at least as high. See [`with_record`].
    pub fn insert(&mut self, score: i32, duration: u64, difficulty: Difficulty)
        requires
            old(self).wf(),
        ensures
            final(self).wf(),
            final(self)@ == with_record(old(self)@, (GameRecord { score, duration, difficulty })),
    {
        let record = GameRecord { score, duration, difficulty };
        proof {
            lemma_with_record_wf(self@, record);
        }
        if self.entries.len() == MAX_RECORDS {
            let min_index = self.lowest_index();
            self.entries.remove(min_index);
        }
        let place = self.place_of(&record);
        self.entries.insert(place, record);
    }

    /// The records, best first.
    pub fn to_sorted_sequence(&self) -> (records: Vec<GameRecord>)
        ensures
            records@ == self@,
    {
        let mut records: Vec<GameRecord> = Vec::new();
        let mut i: usize = 0;
        while i < self.entries.len()
            invariant
                i <= self@.len(),
                records@ == self@.take(i as int),
            decreases self@.len() - i,
        {
            records.push(self.entries[i]);
            i += 1;
        }
        records
    }

    /// The lines of the high-score screen, one for each record, best first;
    /// see [`GameRecord::row`].
    pub fn rows(&self) -> (rows: Vec<RecordRow>)
        ensures
            rows@ == Seq::new(self@.len(), |i: int| self@[i].row(i)),
    {
        let mut rows: Vec<RecordRow> = Vec::new();
        let mut i: usize = 0;
        while i < self.entries.len()
            invariant
                i <= self@.len(),
                rows@ == Seq::new(i as nat, |j: int| self@[j].row(j)),
            decreases self@.len() - i,
        {
            let record = self.entries[i];
            let seconds = record.duration / MICROS_PER_SECOND;
            rows.push(
                RecordRow {
                    rank: i + 1,
                    difficulty: record.difficulty,
                    score: record.score,
                    minutes: seconds / 60,
                    seconds: seconds % 60,
                },
            );
            i += 1;
            assert(rows@ =~= Seq::new(i as nat, |j: int| self@[j].row(j)));
        }
        rows
    }
}

} // verus!
