//! Validation and calendar preprocessing of a dated cash-flow series.
//!
//! The series arrives as paired sequences: signed amounts and millisecond
//! timestamps, in chronological order, the first entry being the reference
//! date. Preprocessing checks the structural contract (paired lengths, at
//! least one entry, representable timestamps, non-decreasing dates), applies
//! the same-day short circuit, and derives the whole-year span and the
//! per-entry elapsed day counts that the root solver discounts over.
use crate::calendar::days_between;
use crate::calendar::elapsed_day_count;
use crate::calendar::same_civil_day;
use crate::calendar::same_day;
use crate::calendar::timestamp_in_range;
use crate::calendar::timestamp_representable;
use crate::calendar::whole_years_between;
use crate::calendar::years_shift;
use vstd::prelude::*;

verus! {

/// A structurally invalid cash-flow series: the computation refuses these
/// inputs rather than produce a number.
#[derive(Clone, Copy, Debug, PartialEq, Eq, Structural)]
pub enum XirrError {
    /// The amounts and the timestamps are not the same length.
    LengthMismatch,
    /// The series is empty.
    NoCashFlows,
    /// A timestamp does not map to a valid calendar date-time.
    TimestampOutOfRange,
    /// The dates are not in non-decreasing order.
    NotChronological,
}

/// Outcome of preprocessing a valid series.
#[derive(Debug)]
pub enum Preprocessed {
    /// Every flow falls on one calendar day: the annualized return is
    /// undefined and the result is fixed at zero without entering the solver.
    SameDay,
    /// A series spanning more than one day, reduced to what the solver needs.
    Schedule {
        /// Completed twelve-month periods between the first and last date;
        /// scales the solver's initial guess.
        year_diff: u32,
        /// Whole days from the first date to each entry's date; the first
        /// entry is zero by construction.
        elapsed_days: Vec<i64>,
    },
}

/// Mathematical image of a [`Preprocessed`] value.
pub enum PreprocessedView {
    SameDay,
    Schedule { year_diff: int, elapsed_days: Seq<int> },
}

impl View for Preprocessed {
    type V = PreprocessedView;

    open spec fn view(&self) -> PreprocessedView {
        match self {
            Preprocessed::SameDay => PreprocessedView::SameDay,
            Preprocessed::Schedule { year_diff, elapsed_days } => PreprocessedView::Schedule {
                year_diff: *year_diff as int,
                elapsed_days: elapsed_days@.map_values(|x: i64| x as int),
            },
        }
    }
}

/// The timestamps are in non-decreasing order.
pub open spec fn chronological(ts: Seq<i64>) -> bool {
    forall|j: int| 0 <= j < ts.len() - 1 ==> ts[j] <= #[trigger] ts[j + 1]
}

/// Whole days from the first timestamp to each timestamp; zero for the
/// first entry.
pub open spec fn elapsed_days_seq(ts: Seq<i64>) -> Seq<int> {
    Seq::new(
        ts.len(),
        |i: int|
            if i == 0 {
                0
            } else {
                elapsed_day_count(ts[0], ts[i])
            },
    )
}

/// What preprocessing an amount count and a timestamp sequence yields.
pub open spec fn preprocess_spec(ts: Seq<i64>, n_amounts: nat) -> Result<
    PreprocessedView,
    XirrError,
> {
    if n_amounts != ts.len() {
        Err(XirrError::LengthMismatch)
    } else if ts.len() == 0 {
        Err(XirrError::NoCashFlows)
    } else if exists|i: int| 0 <= i < ts.len() && !timestamp_in_range(#[trigger] ts[i]) {
        Err(XirrError::TimestampOutOfRange)
    } else if same_civil_day(ts[0], ts[ts.len() - 1]) {
        Ok(PreprocessedView::SameDay)
    } else if !chronological(ts) {
        Err(XirrError::NotChronological)
    } else if years_shift(ts[0], ts[ts.len() - 1]) < 0 {
        Err(XirrError::NotChronological)
    } else {
        Ok(
            PreprocessedView::Schedule {
                year_diff: years_shift(ts[0], ts[ts.len() - 1]),
                elapsed_days: elapsed_days_seq(ts),
            },
        )
    }
}

/// Image of a preprocessing result.
pub open spec fn result_view(r: Result<Preprocessed, XirrError>) -> Result<
    PreprocessedView,
    XirrError,
> {
    match r {
        Ok(p) => Ok(p@),
        Err(e) => Err(e),
    }
}

/// Validate a cash-flow series and reduce it to the solver's inputs.
///
/// `amount_count` is the length of the paired amount sequence; only the
/// dates themselves are needed here.
pub fn preprocess(timestamps: &Vec<i64>, amount_count: usize) -> (r: Result<
    Preprocessed,
    XirrError,
>)
    ensures
        result_view(r) == preprocess_spec(timestamps@, amount_count as nat),
{
    let n = timestamps.len();
    if amount_count != n {
        return Err(XirrError::LengthMismatch);
    }
    if n == 0 {
        return Err(XirrError::NoCashFlows);
    }
    let mut i: usize = 0;
    while i < n
        invariant
            0 <= i <= n,
            n == timestamps@.len(),
            amount_count == n,
            1 <= n,
            forall|j: int| 0 <= j < i ==> timestamp_in_range(#[trigger] timestamps@[j]),
        decreases n - i,
    {
        if !timestamp_representable(timestamps[i]) {
            proof {
                assert(!timestamp_in_range(timestamps@[i as int]));
            }
            return Err(XirrError::TimestampOutOfRange);
        }
        i += 1;
    }
    let first = timestamps[0];
    let last = timestamps[n - 1];
    if same_day(first, last) {
        return Ok(Preprocessed::SameDay);
    }
    let mut k: usize = 1;
    while k < n
        invariant
            1 <= k <= n,
            n == timestamps@.len(),
            amount_count == n,
            first == timestamps@[0],
            last == timestamps@[n - 1],
            forall|j: int| 0 <= j < n ==> timestamp_in_range(#[trigger] timestamps@[j]),
            !same_civil_day(first, last),
            forall|j: int| 0 <= j < k - 1 ==> timestamps@[j] <= #[trigger] timestamps@[j + 1],
            forall|j: int| 0 <= j < k ==> timestamps@[0] <= #[trigger] timestamps@[j],
        decreases n - k,
    {
        if timestamps[k - 1] > timestamps[k] {
            proof {
                assert(timestamps@[k - 1] > timestamps@[k - 1 + 1]);
                assert(!chronological(timestamps@));
            }
            return Err(XirrError::NotChronological);
        }
        k += 1;
    }
    let year_diff: u32 = match whole_years_between(first, last) {
        None => {
            return Err(XirrError::NotChronological);
        },
        Some(y) => y,
    };
    let mut elapsed_days: Vec<i64> = Vec::new();
    let mut e: usize = 0;
    while e < n
        invariant
            0 <= e <= n,
            n == timestamps@.len(),
            first == timestamps@[0],
            forall|j: int| 0 <= j < n ==> timestamp_in_range(#[trigger] timestamps@[j]),
            forall|j: int| 0 <= j < n ==> timestamps@[0] <= #[trigger] timestamps@[j],
            elapsed_days@.len() == e,
            forall|j: int| 0 <= j < e ==> elapsed_days@[j] as int == elapsed_days_seq(
                timestamps@,
            )[j],
        decreases n - e,
    {
        if e == 0 {
            elapsed_days.push(0);
        } else {
            let d = days_between(first, timestamps[e]);
            elapsed_days.push(d);
        }
        e += 1;
    }
    proof {
        assert(elapsed_days@.map_values(|x: i64| x as int) =~= elapsed_days_seq(timestamps@));
    }
    Ok(Preprocessed::Schedule { year_diff, elapsed_days })
}

/// Law: a series whose every flow falls on the same calendar day as the
/// first one is the degenerate case — preprocessing short-circuits to
/// [`PreprocessedView::SameDay`], and the rate is fixed at zero without
/// entering the solver.
pub proof fn lemma_same_day_short_circuit(ts: Seq<i64>, n_amounts: nat)
    requires
        n_amounts == ts.len(),
        ts.len() >= 1,
        forall|i: int| 0 <= i < ts.len() ==> timestamp_in_range(#[trigger] ts[i]),
        forall|i: int| 0 <= i < ts.len() ==> #[trigger] same_civil_day(ts[0], ts[i]),
    ensures
        preprocess_spec(ts, n_amounts) == Ok::<PreprocessedView, XirrError>(
            PreprocessedView::SameDay,
        ),
{
    assert(same_civil_day(ts[0], ts[ts.len() - 1]));
}

/// Law: a series that spans more than one calendar day and whose dates are
/// out of order is rejected with an error; no rate is produced for it.
pub proof fn lemma_out_of_order_rejected(ts: Seq<i64>, n_amounts: nat)
    requires
        !chronological(ts),
        ts.len() >= 1,
        !same_civil_day(ts[0], ts[ts.len() - 1]),
    ensures
        preprocess_spec(ts, n_amounts) is Err,
{
}

} // verus!
