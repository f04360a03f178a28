use vstd::prelude::*;

verus! {

/// The seven input columns of one invocation. Each holds one entry per row
/// (`None` for a null), or a single entry that stands for every row.
/// Numeric entries are bit patterns of binary64 numbers.
pub struct InputColumns {
    pub spot: Vec<Option<u64>>,
    pub strike: Vec<Option<u64>>,
    pub maturity: Vec<Option<u64>>,
    pub volatility: Vec<Option<u64>>,
    pub rate: Vec<Option<u64>>,
    pub dividend: Vec<Option<u64>>,
    pub is_call: Vec<Option<bool>>,
}

/// A column whose length is neither 1 nor the row count.
#[derive(Clone, Copy, Debug, PartialEq, Eq, Structural)]
pub struct ShapeMismatch {
    /// Position of the column: spot, strike, maturity, volatility, rate,
    /// dividend, is_call.
    pub column: usize,
    /// Its length.
    pub len: usize,
    /// The row count it should have had.
    pub expected: usize,
}

/// One decoded row, nulls replaced: a numeric null by `0.0` (bit pattern
/// `0`), a null option type by "call".
#[derive(Clone, Copy, Debug, PartialEq, Eq, Structural)]
pub struct OptionRow {
    pub spot: u64,
    pub strike: u64,
    pub maturity: u64,
    pub volatility: u64,
    pub rate: u64,
    pub dividend: u64,
    pub is_call: bool,
}

/// Entry `i` of a column after broadcasting: a single entry stands for every row.
pub open spec fn broadcast_cell<T>(col: Seq<T>, i: int) -> T {
    if col.len() == 1 {
        col[0]
    } else {
        col[i]
    }
}

/// A numeric entry with a null read as `0.0`.
pub open spec fn number_or_zero(v: Option<u64>) -> u64 {
    match v {
        Some(x) => x,
        None => 0,
    }
}

/// An option-type entry with a null read as "call".
pub open spec fn call_or_default(v: Option<bool>) -> bool {
    match v {
        Some(b) => b,
        None => true,
    }
}

impl InputColumns {
    /// The lengths of the seven columns, in order.
    pub open spec fn lens(self) -> Seq<nat> {
        seq![
            self.spot@.len(),
            self.strike@.len(),
            self.maturity@.len(),
            self.volatility@.len(),
            self.rate@.len(),
            self.dividend@.len(),
            self.is_call@.len(),
        ]
    }

    /// The number of rows, set by the spot column: every other column has
    /// this length or a single entry.
    pub open spec fn spec_row_count(self) -> nat {
        self.spot@.len()
    }

    /// Every column has length 1 or the row count.
    pub open spec fn shape_ok(self) -> bool {
        forall|j: int|
            0 <= j < 7 ==> (#[trigger] self.lens()[j] == 1 || self.lens()[j] == self.spec_row_count())
    }

    /// Row `i` after broadcasting and null substitution.
    pub open spec fn row(self, i: int) -> OptionRow {
        OptionRow {
            spot: number_or_zero(broadcast_cell(self.spot@, i)),
            strike: number_or_zero(broadcast_cell(self.strike@, i)),
            maturity: number_or_zero(broadcast_cell(self.maturity@, i)),
            volatility: number_or_zero(broadcast_cell(self.volatility@, i)),
            rate: number_or_zero(broadcast_cell(self.rate@, i)),
            dividend: number_or_zero(broadcast_cell(self.dividend@, i)),
            is_call: call_or_default(broadcast_cell(self.is_call@, i)),
        }
    }

    /// Checks the shapes of the columns and returns the row count; the error
    /// names the first column whose length is neither 1 nor the row count.
    pub fn row_count(&self) -> (r: Result<usize, ShapeMismatch>)
        ensures
            r.is_ok() <==> self.shape_ok(),
            r matches Ok(n) ==> n == self.spec_row_count(),
            r matches Err(e) ==> e.column < 7 && e.len == self.lens()[e.column as int]
                && e.expected == self.spec_row_count() && e.len != 1 && e.len != e.expected
                && forall|j: int| 0 <= j < e.column ==> (#[trigger] self.lens()[j] == 1 || self.lens()[j] == e.expected),
    {
        let lens: [usize; 7] = [
            self.spot.len(),
            self.strike.len(),
            self.maturity.len(),
            self.volatility.len(),
            self.rate.len(),
            self.dividend.len(),
            self.is_call.len(),
        ];
        assert(forall|j: int| 0 <= j < 7 ==> lens@[j] == self.lens()[j]);
        let n: usize = lens[0];
        let mut j: usize = 0;
        while j < 7
            invariant
                j <= 7,
                n == self.spec_row_count(),
                forall|m: int| 0 <= m < 7 ==> lens@[m] == self.lens()[m],
                forall|m: int| 0 <= m < j ==> (#[trigger] self.lens()[m] == 1 || self.lens()[m] == n),
            decreases 7 - j,
        {
            if lens[j] != 1 && lens[j] != n {
                return Err(ShapeMismatch { column: j, len: lens[j], expected: n });
            }
            j = j + 1;
        }
        Ok(n)
    }

    /// Row `i` after broadcasting and null substitution.
    pub fn decode_row(&self, i: usize) -> (r: OptionRow)
        requires
            self.shape_ok(),
            i < self.spec_row_count(),
        ensures
            r == self.row(i as int),
    {
        assert(self.lens()[0] == self.spot@.len());
        assert(self.lens()[1] == self.strike@.len());
        assert(self.lens()[2] == self.maturity@.len());
        assert(self.lens()[3] == self.volatility@.len());
        assert(self.lens()[4] == self.rate@.len());
        assert(self.lens()[5] == self.dividend@.len());
        assert(self.lens()[6] == self.is_call@.len());
        OptionRow {
            spot: number_at(&self.spot, i),
            strike: number_at(&self.strike, i),
            maturity: number_at(&self.maturity, i),
            volatility: number_at(&self.volatility, i),
            rate: number_at(&self.rate, i),
            dividend: number_at(&self.dividend, i),
            is_call: call_at(&self.is_call, i),
        }
    }
}

/// Entry `i` of a broadcast numeric column, a null read as `0.0`.
fn number_at(col: &Vec<Option<u64>>, i: usize) -> (r: u64)
    requires
        col@.len() == 1 || i < col@.len(),
    ensures
        r == number_or_zero(broadcast_cell(col@, i as int)),
{
    let j: usize = if col.len() == 1 { 0 } else { i };
    match col[j] {
        Some(x) => x,
        None => 0,
    }
}

/// Entry `i` of a broadcast option-type column, a null read as "call".
fn call_at(col: &Vec<Option<bool>>, i: usize) -> (r: bool)
    requires
        col@.len() == 1 || i < col@.len(),
    ensures
        r == call_or_default(broadcast_cell(col@, i as int)),
{
    let j: usize = if col.len() == 1 { 0 } else { i };
    match col[j] {
        Some(b) => b,
        None => true,
    }
}

} // verus!
