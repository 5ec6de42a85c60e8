//! What a run of trials brought: one average for each bet.

use crate::average::Average;
use vstd::prelude::*;

verus! {

/// The lowest bet of a run.
pub const MIN_BET: u8 = 2;

/// The highest bet of a run.
pub const MAX_BET: u8 = 12;

/// The averages of a run, one row for each bet from `MIN_BET` up, in
/// ascending order of the bet. Its view holds the samples of each row.
pub struct Outcome {
    rows: Vec<Average>,
}

impl View for Outcome {
    type V = Seq<Seq<u8>>;

    closed spec fn view(&self) -> Seq<Seq<u8>> {
        Seq::new(self.rows@.len(), |row: int| self.rows@[row]@)
    }
}

impl Outcome {
    /// There is one row for each bet from `MIN_BET` to `MAX_BET`.
    pub open spec fn wf(&self) -> bool {
        self@.len() == MAX_BET - MIN_BET + 1
    }

    /// The samples taken at `bet`.
    pub open spec fn samples(&self, bet: int) -> Seq<u8>
        recommends
            self.wf(),
            MIN_BET <= bet <= MAX_BET,
    {
        self@[bet - MIN_BET]
    }

    /// An outcome of the given rows, the first of which is for `MIN_BET`.
    pub fn new(rows: Vec<Average>) -> (outcome: Outcome)
        requires
            rows@.len() == MAX_BET - MIN_BET + 1,
        ensures
            outcome.wf(),
            outcome@ == Seq::new(rows@.len(), |row: int| rows@[row]@),
    {
        Outcome { rows }
    }

    /// The number of rows.
    pub fn len(&self) -> (len: usize)
        ensures
            len == self@.len(),
    {
        self.rows.len()
    }

    /// The bet that row `row` is for.
    pub fn bet(&self, row: usize) -> (bet: u8)
        requires
            self.wf(),
            row < self@.len(),
        ensures
            bet == MIN_BET + row,
    {
        MIN_BET + row as u8
    }

    /// The average in row `row`.
    pub fn average(&self, row: usize) -> (average: &Average)
        requires
            row < self@.len(),
        ensures
            average@ == self@[row as int],
            average@ == self.samples(MIN_BET + row),
    {
        &self.rows[row]
    }
}

} // verus!
