//! Amount sampling: a table of amount ranges, each with a probability value,
//! and the rule that turns a percentage roll into one of the ranges.
//!
//! The rule is "smallest qualifying threshold wins": among the ranges whose
//! probability value is at least the roll, the one with the smallest value is
//! taken; when the roll exceeds every value, the range with the smallest value
//! overall is taken. It is not a cumulative distribution, and the values need
//! not sum to 100. Probability values and rolls are whole percentages, and
//! amounts are whole currency units.

use crate::chance::{roll_percent, uniform_between, ROLL_LIMIT};
use vstd::prelude::*;

verus! {

/// Amount handed out when the table holds no range to draw from.
pub const FALLBACK_AMOUNT: u64 = 1000;

/// Largest probability value a table accepts.
pub const MAX_PROBABILITY: u64 = 100;

/// An inclusive range of amounts, `min..=max`.
#[derive(Debug, Clone, Copy, PartialEq, Eq, Hash, Structural)]
pub struct AmountRange {
    pub min: u64,
    pub max: u64,
}

impl AmountRange {
    /// A range is well formed when it is not empty and not a single point.
    pub open spec fn wf(&self) -> bool {
        self.min < self.max
    }

    /// Whether `amount` lies within the inclusive bounds.
    pub open spec fn holds(&self, amount: u64) -> bool {
        self.min <= amount <= self.max
    }

    /// Two ranges overlap when they share more than an end point.
    pub open spec fn overlaps(&self, other: AmountRange) -> bool {
        self.min < other.max && other.min < self.max
    }

    /// Draws an amount from the range, both bounds included.
    pub fn sample(&self) -> (amount: u64)
        requires
            self.min <= self.max,
        ensures
            self.holds(amount),
    {
        uniform_between(self.min, self.max)
    }
}

/// One row of the table: a range and its probability value.
#[derive(Debug, Clone, Copy, PartialEq, Eq, Structural)]
pub struct WeightedRange {
    pub range: AmountRange,
    pub probability: u64,
}

/// Why a row was not accepted into a table.
#[derive(Debug, Clone, Copy, PartialEq, Eq, Structural)]
pub enum TableError {
    /// The range has `min >= max`.
    InvalidRange,
    /// The probability value is above 100.
    InvalidProbability,
    /// The range overlaps a different range that the table already holds.
    Overlapping,
}

/// The order in which rows are scanned: ascending by probability value; rows
/// with equal values are ordered by their range, lower bound first.
pub open spec fn scans_before(a: WeightedRange, b: WeightedRange) -> bool {
    a.probability < b.probability || (a.probability == b.probability && (a.range.min < b.range.min
        || (a.range.min == b.range.min && a.range.max <= b.range.max)))
}

/// Every row scans before all rows behind it.
pub open spec fn ascending(rows: Seq<WeightedRange>) -> bool {
    forall|i: int, j: int| 0 <= i < j < rows.len() ==> scans_before(rows[i], rows[j])
}

/// The rows that a roll can select: those with a probability value of at least
/// the roll.
pub open spec fn qualifies(row: WeightedRange, roll: u64) -> bool {
    row.probability >= roll
}

/// `row` is what `roll` selects from `rows`: the first qualifying row in scan
/// order, or, when no row qualifies, the first row in scan order.
pub open spec fn is_selected(rows: Seq<WeightedRange>, roll: u64, row: WeightedRange) -> bool {
    &&& rows.contains(row)
    &&& if exists|q: WeightedRange| rows.contains(q) && qualifies(q, roll) {
        &&& qualifies(row, roll)
        &&& forall|q: WeightedRange| rows.contains(q) && qualifies(q, roll) ==> scans_before(row, q)
    } else {
        forall|q: WeightedRange| rows.contains(q) ==> scans_before(row, q)
    }
}

/// What makes a sequence of rows a table: every range is well formed, every
/// probability value is at most 100, and no two rows overlap.
pub open spec fn valid_rows(rows: Seq<WeightedRange>) -> bool {
    &&& forall|i: int|
        0 <= i < rows.len() ==> (#[trigger] rows[i]).range.wf() && rows[i].probability
            <= MAX_PROBABILITY
    &&& forall|i: int, j: int|
        0 <= i < rows.len() && 0 <= j < rows.len() && i != j ==> !(#[trigger] rows[i]).range.overlaps(
            (#[trigger] rows[j]).range,
        )
}

/// The rows of the standard table.
pub open spec fn standard_rows() -> Seq<WeightedRange> {
    seq![
        WeightedRange { range: AmountRange { min: 1000, max: 3000 }, probability: 64 },
        WeightedRange { range: AmountRange { min: 3000, max: 5000 }, probability: 69 },
        WeightedRange { range: AmountRange { min: 5000, max: 10000 }, probability: 73 },
        WeightedRange { range: AmountRange { min: 10000, max: 20000 }, probability: 82 },
        WeightedRange { range: AmountRange { min: 20000, max: 50000 }, probability: 88 },
        WeightedRange { range: AmountRange { min: 50000, max: 100000 }, probability: 92 },
    ]
}

/// Position of the row with the given range, if the rows hold one.
pub open spec fn position_of(rows: Seq<WeightedRange>, range: AmountRange) -> Option<int> {
    if exists|i: int| 0 <= i < rows.len() && (#[trigger] rows[i]).range == range {
        Some(choose|i: int| 0 <= i < rows.len() && (#[trigger] rows[i]).range == range)
    } else {
        None
    }
}

/// Whether some row overlaps `range`.
pub open spec fn overlaps_any(rows: Seq<WeightedRange>, range: AmountRange) -> bool {
    exists|i: int| 0 <= i < rows.len() && (#[trigger] rows[i]).range.overlaps(range)
}

/// What inserting `probability` for `range` answers: the error for a row that
/// a table cannot hold, else the value that the range had before, if any.
pub open spec fn insert_outcome(rows: Seq<WeightedRange>, range: AmountRange, probability: u64)
    -> Result<Option<u64>, TableError> {
    if !range.wf() {
        Err(TableError::InvalidRange)
    } else if probability > MAX_PROBABILITY {
        Err(TableError::InvalidProbability)
    } else {
        match position_of(rows, range) {
            Some(i) => Ok(Some(rows[i].probability)),
            None => if overlaps_any(rows, range) {
                Err(TableError::Overlapping)
            } else {
                Ok(None)
            },
        }
    }
}

/// The rows after inserting `probability` for `range`: unchanged where the
/// row is rejected, the row's value replaced where the range is known, the
/// row appended where it is new.
pub open spec fn rows_after_insert(
    rows: Seq<WeightedRange>,
    range: AmountRange,
    probability: u64,
) -> Seq<WeightedRange> {
    match insert_outcome(rows, range, probability) {
        Err(_) => rows,
        Ok(Some(_)) => rows.update(
            position_of(rows, range).unwrap(),
            WeightedRange { range, probability },
        ),
        Ok(None) => rows.push(WeightedRange { range, probability }),
    }
}

fn comes_first(a: &WeightedRange, b: &WeightedRange) -> (first: bool)
    ensures
        first == scans_before(*a, *b),
{
    a.probability < b.probability || (a.probability == b.probability && (a.range.min < b.range.min
        || (a.range.min == b.range.min && a.range.max <= b.range.max)))
}

/// A table of amount ranges with their probability values. No two of its
/// ranges overlap, so a range occurs in at most one row.
#[derive(Debug)]
pub struct AmountProbabilities {
    rows: Vec<WeightedRange>,
}

impl View for AmountProbabilities {
    type V = Seq<WeightedRange>;

    closed spec fn view(&self) -> Seq<WeightedRange> {
        self.rows@
    }
}

impl Clone for AmountProbabilities {
    fn clone(&self) -> (copy: AmountProbabilities)
        ensures
            copy@ == self@,
    {
        AmountProbabilities { rows: self.rows() }
    }
}

impl AmountProbabilities {
    #[verifier::type_invariant]
    spec fn inv(&self) -> bool {
        valid_rows(self.rows@)
    }

    /// The table's invariant, for statements about tables as values.
    pub open spec fn wf(&self) -> bool {
        valid_rows(self@)
    }

    /// An empty table.
    pub fn new() -> (table: AmountProbabilities)
        ensures
            table@ == Seq::<WeightedRange>::empty(),
            table.wf(),
    {
        AmountProbabilities { rows: Vec::new() }
    }

    /// The table that a new traffic configuration starts with.
    pub fn standard() -> (table: AmountProbabilities)
        ensures
            table@ == standard_rows(),
            table.wf(),
    {
        let mut rows: Vec<WeightedRange> = Vec::new();
        rows.push(WeightedRange { range: AmountRange { min: 1000, max: 3000 }, probability: 64 });
        rows.push(WeightedRange { range: AmountRange { min: 3000, max: 5000 }, probability: 69 });
        rows.push(WeightedRange { range: AmountRange { min: 5000, max: 10000 }, probability: 73 });
        rows.push(WeightedRange { range: AmountRange { min: 10000, max: 20000 }, probability: 82 });
        rows.push(WeightedRange { range: AmountRange { min: 20000, max: 50000 }, probability: 88 });
        rows.push(WeightedRange { range: AmountRange { min: 50000, max: 100000 }, probability: 92 });
        assert(rows@ =~= standard_rows());
        AmountProbabilities { rows }
    }

    /// Number of rows.
    pub fn len(&self) -> (n: usize)
        ensures
            n == self@.len(),
            self.wf(),
    {
        proof {
            use_type_invariant(self);
        }
        self.rows.len()
    }

    /// Whether the table has no row.
    pub fn is_empty(&self) -> (empty: bool)
        ensures
            empty == (self@.len() == 0),
    {
        self.rows.len() == 0
    }

    /// The rows, in the order in which they were first inserted.
    pub fn rows(&self) -> (rows: Vec<WeightedRange>)
        ensures
            rows@ == self@,
            valid_rows(rows@),
    {
        proof {
            use_type_invariant(self);
        }
        let mut rows: Vec<WeightedRange> = Vec::new();
        let mut i: usize = 0;
        while i < self.rows.len()
            invariant
                i <= self.rows.len(),
                rows@ == self.rows@.subrange(0, i as int),
            decreases self.rows.len() - i,
        {
            rows.push(self.rows[i]);
            assert(rows@ =~= self.rows@.subrange(0, i + 1));
            i += 1;
        }
        assert(self.rows@.subrange(0, self.rows@.len() as int) =~= self.rows@);
        rows
    }

    /// The probability value stored for `range`, if the table holds that range.
    pub fn get(&self, range: AmountRange) -> (probability: Option<u64>)
        ensures
            match position_of(self@, range) {
                Some(i) => probability == Some(self@[i].probability),
                None => probability is None,
            },
    {
        proof {
            use_type_invariant(self);
        }
        let mut i: usize = 0;
        while i < self.rows.len()
            invariant
                i <= self.rows.len(),
                valid_rows(self.rows@),
                forall|k: int| 0 <= k < i ==> (#[trigger] self.rows@[k]).range != range,
            decreases self.rows.len() - i,
        {
            if self.rows[i].range.min == range.min && self.rows[i].range.max == range.max {
                proof {
                    lemma_position_is(self.rows@, range, i as int);
                }
                return Some(self.rows[i].probability);
            }
            i += 1;
        }
        None
    }

    /// Stores `probability` for `range`, as a map would: a range that the table
    /// already holds gets the new value and the old one is returned; a new
    /// range is appended. Rows that would break the table's invariant are
    /// rejected and leave the table as it was.
    pub fn insert(&mut self, range: AmountRange, probability: u64) -> (outcome: Result<
        Option<u64>,
        TableError,
    >)
        ensures
            final(self).wf(),
            outcome == insert_outcome(old(self)@, range, probability),
            final(self)@ == rows_after_insert(old(self)@, range, probability),
    {
        proof {
            use_type_invariant(&*self);
        }
        if range.min >= range.max {
            return Err(TableError::InvalidRange);
        }
        if probability > MAX_PROBABILITY {
            return Err(TableError::InvalidProbability);
        }
        let row = WeightedRange { range, probability };
        let mut rows = self.rows();
        let ghost before = rows@;
        let mut i: usize = 0;
        while i < rows.len()
            invariant
                i <= rows.len(),
                rows@ == before,
                self.rows@ == before,
                old(self)@ == before,
                valid_rows(before),
                range.wf(),
                probability <= MAX_PROBABILITY,
                row == (WeightedRange { range, probability }),
                forall|k: int| 0 <= k < i ==> (#[trigger] before[k]).range != range,
            decreases rows.len() - i,
        {
            if rows[i].range.min == range.min && rows[i].range.max == range.max {
                let previous = rows[i].probability;
                proof {
                    assert(before[i as int].range == range);
                    lemma_position_is(before, range, i as int);
                }
                rows.set(i, row);
                assert(valid_rows(rows@)) by {
                    let after = rows@;
                    assert(after == before.update(i as int, row));
                    assert forall|a: int, b: int|
                        0 <= a < after.len() && 0 <= b < after.len() && a != b implies !(
                    #[trigger] after[a]).range.overlaps((#[trigger] after[b]).range) by {
                        assert(after[a].range == before[a].range);
                        assert(after[b].range == before[b].range);
                    }
                }
                self.rows = rows;
                return Ok(Some(previous));
            }
            i += 1;
        }
        assert(position_of(before, range) is None);
        let mut j: usize = 0;
        while j < rows.len()
            invariant
                j <= rows.len(),
                rows@ == before,
                self.rows@ == before,
                old(self)@ == before,
                valid_rows(before),
                range.wf(),
                probability <= MAX_PROBABILITY,
                position_of(before, range) is None,
                forall|k: int| 0 <= k < j ==> !(#[trigger] before[k]).range.overlaps(range),
            decreases rows.len() - j,
        {
            if rows[j].range.min < range.max && range.min < rows[j].range.max {
                assert(before[j as int].range.overlaps(range));
                return Err(TableError::Overlapping);
            }
            j += 1;
        }
        rows.push(row);
        assert(valid_rows(rows@)) by {
            let after = rows@;
            assert forall|a: int, b: int|
                0 <= a < after.len() && 0 <= b < after.len() && a != b implies !(
            #[trigger] after[a]).range.overlaps((#[trigger] after[b]).range) by {
                if a < before.len() {
                    assert(after[a] == before[a]);
                }
                if b < before.len() {
                    assert(after[b] == before[b]);
                }
            }
        }
        self.rows = rows;
        Ok(None)
    }

    /// The rows in scan order: ascending by probability value.
    pub fn sorted_rows(&self) -> (sorted: Vec<WeightedRange>)
        ensures
            ascending(sorted@),
            sorted@.to_multiset() == self@.to_multiset(),
            sorted@.len() == self@.len(),
    {
        let mut sorted: Vec<WeightedRange> = Vec::new();
        let mut i: usize = 0;
        assert(self.rows@.subrange(0, 0) =~= sorted@);
        while i < self.rows.len()
            invariant
                i <= self.rows.len(),
                ascending(sorted@),
                sorted@.to_multiset() == self.rows@.subrange(0, i as int).to_multiset(),
            decreases self.rows.len() - i,
        {
            let row = self.rows[i];
            let mut at: usize = 0;
            while at < sorted.len() && comes_first(&sorted[at], &row)
                invariant
                    at <= sorted.len(),
                    forall|k: int| 0 <= k < at ==> scans_before(#[trigger] sorted@[k], row),
                decreases sorted.len() - at,
            {
                at += 1;
            }
            let ghost shorter = sorted@;
            sorted.insert(at, row);
            proof {
                lemma_insert_adds_one(shorter, at as int, row);
                let taken = self.rows@.subrange(0, i as int);
                assert(self.rows@.subrange(0, i + 1) =~= taken.push(row));
                vstd::seq_lib::to_multiset_build(taken, row);
                assert forall|a: int, b: int| 0 <= a < b < sorted@.len() implies scans_before(
                    sorted@[a],
                    sorted@[b],
                ) by {
                    if b == at {
                        assert(sorted@[a] == shorter[a]);
                    } else if a == at {
                        assert(sorted@[b] == shorter[b - 1]);
                        assert(!scans_before(shorter[at as int], row));
                        if at < b - 1 {
                            assert(scans_before(shorter[at as int], shorter[b - 1]));
                        }
                    } else {
                        let a0 = if a < at { a } else { a - 1 };
                        let b0 = if b < at { b } else { b - 1 };
                        assert(sorted@[a] == shorter[a0]);
                        assert(sorted@[b] == shorter[b0]);
                    }
                }
            }
            i += 1;
        }
        assert(self.rows@.subrange(0, self.rows@.len() as int) =~= self.rows@);
        proof {
            sorted@.to_multiset_ensures();
            self.rows@.to_multiset_ensures();
        }
        sorted
    }

    /// The row that `roll` selects: none from an empty table, otherwise the
    /// first qualifying row in scan order or, if none qualifies, the first row
    /// in scan order.
    pub fn select_range(&self, roll: u64) -> (selected: Option<WeightedRange>)
        ensures
            self@.len() == 0 <==> selected is None,
            selected matches Some(row) ==> is_selected(self@, roll, row) && row.range.wf(),
    {
        proof {
            use_type_invariant(self);
        }
        let sorted = self.sorted_rows();
        proof {
            sorted@.to_multiset_ensures();
            self.rows@.to_multiset_ensures();
            assert forall|q: WeightedRange| sorted@.contains(q) <==> self.rows@.contains(q) by {
                assert(sorted@.contains(q) <==> sorted@.to_multiset().count(q) > 0);
                assert(self.rows@.contains(q) <==> self.rows@.to_multiset().count(q) > 0);
            }
        }
        let mut k: usize = 0;
        while k < sorted.len()
            invariant
                k <= sorted.len(),
                ascending(sorted@),
                valid_rows(self.rows@),
                forall|q: WeightedRange| sorted@.contains(q) <==> self.rows@.contains(q),
                forall|j: int| 0 <= j < k ==> !qualifies(#[trigger] sorted@[j], roll),
            decreases sorted.len() - k,
        {
            if sorted[k].probability >= roll {
                let row = sorted[k];
                proof {
                    assert(sorted@.contains(row));
                    assert(self.rows@.contains(row));
                    assert forall|q: WeightedRange|
                        self.rows@.contains(q) && qualifies(q, roll) implies scans_before(
                        row,
                        q,
                    ) by {
                        assert(sorted@.contains(q));
                        let m = choose|m: int| 0 <= m < sorted@.len() && sorted@[m] == q;
                        if m < k {
                            assert(!qualifies(sorted@[m], roll));
                        }
                    }
                    lemma_row_of_table(self.rows@, row);
                }
                return Some(row);
            }
            k += 1;
        }
        if sorted.len() > 0 {
            let row = sorted[0];
            proof {
                assert(sorted@.contains(row));
                assert forall|q: WeightedRange| self.rows@.contains(q) implies scans_before(
                    row,
                    q,
                ) && !qualifies(q, roll) by {
                    assert(sorted@.contains(q));
                    let m = choose|m: int| 0 <= m < sorted@.len() && sorted@[m] == q;
                    assert(!qualifies(sorted@[m], roll));
                }
                lemma_row_of_table(self.rows@, row);
            }
            Some(row)
        } else {
            None
        }
    }

    /// Samples an amount: rolls a percentage, selects a range with it and draws
    /// an amount from that range. An empty table has no range to draw from and
    /// yields the fixed fallback amount; that is the degenerate case, not an
    /// error.
    pub fn generate_amount(&self) -> (amount: u64)
        ensures
            self@.len() == 0 ==> amount == FALLBACK_AMOUNT,
            self@.len() > 0 ==> exists|roll: u64, row: WeightedRange|
                #![trigger is_selected(self@, roll, row)]
                roll < ROLL_LIMIT && is_selected(self@, roll, row) && row.range.holds(amount),
    {
        let roll = roll_percent();
        match self.select_range(roll) {
            Some(row) => {
                let amount = row.range.sample();
                assert(roll < ROLL_LIMIT && is_selected(self@, roll, row) && row.range.holds(amount));
                amount
            },
            None => FALLBACK_AMOUNT,
        }
    }
}

/// A roll selects at most one row of a table.
pub proof fn lemma_selection_is_unique(
    rows: Seq<WeightedRange>,
    roll: u64,
    a: WeightedRange,
    b: WeightedRange,
)
    requires
        is_selected(rows, roll, a),
        is_selected(rows, roll, b),
    ensures
        a == b,
{
    assert(scans_before(a, b) && scans_before(b, a));
    assert(a.range == b.range);
}

/// A roll above every probability value of the table selects the row that
/// comes first in scan order.
pub proof fn lemma_roll_above_all_selects_first(
    rows: Seq<WeightedRange>,
    roll: u64,
    row: WeightedRange,
)
    requires
        is_selected(rows, roll, row),
        forall|q: WeightedRange| rows.contains(q) ==> q.probability < roll,
    ensures
        forall|q: WeightedRange| rows.contains(q) ==> scans_before(row, q),
{
}

/// A roll that some row qualifies for selects the qualifying row with the
/// smallest probability value.
pub proof fn lemma_smallest_qualifying_wins(
    rows: Seq<WeightedRange>,
    roll: u64,
    row: WeightedRange,
    other: WeightedRange,
)
    requires
        is_selected(rows, roll, row),
        rows.contains(other),
        other.probability >= roll,
    ensures
        row.probability >= roll,
        row.probability <= other.probability,
{
    assert(qualifies(other, roll));
}

proof fn lemma_row_of_table(rows: Seq<WeightedRange>, row: WeightedRange)
    requires
        valid_rows(rows),
        rows.contains(row),
    ensures
        row.range.wf(),
        row.probability <= MAX_PROBABILITY,
{
    let i = choose|i: int| 0 <= i < rows.len() && rows[i] == row;
    assert(rows[i].range.wf());
}

proof fn lemma_position_is(rows: Seq<WeightedRange>, range: AmountRange, i: int)
    requires
        valid_rows(rows),
        0 <= i < rows.len(),
        rows[i].range == range,
    ensures
        position_of(rows, range) == Some(i),
{
    let j = choose|j: int| 0 <= j < rows.len() && (#[trigger] rows[j]).range == range;
    if j != i {
        assert(rows[i].range.wf());
        assert(rows[i].range.overlaps(rows[j].range));
    }
}

proof fn lemma_insert_adds_one(rows: Seq<WeightedRange>, at: int, row: WeightedRange)
    requires
        0 <= at <= rows.len(),
    ensures
        rows.insert(at, row).to_multiset() == rows.to_multiset().insert(row),
{
    let longer = rows.insert(at, row);
    assert(longer.remove(at) =~= rows);
    vstd::seq_lib::to_multiset_remove(longer, at);
    longer.to_multiset_ensures();
    assert(longer.contains(row)) by {
        assert(longer[at] == row);
    }
    assert(longer.to_multiset() =~= rows.to_multiset().insert(row));
}

} // verus!
