//! The weighted grade-point average over the courses that are counted.
//!
//! A course is seen here as a row: its credit weight, its grade in hundredths
//! of a percent, and whether it is checked. A checked row whose grade lies in
//! 0..=100% adds its grade point times its weight to the points and its weight
//! to the units; any other row adds nothing, so a grade outside the scale is
//! never averaged in. The average is points / units, read in hundredths of a
//! grade point, and 0 where the units are 0.
use crate::grade_scale::{in_scale, point_to_pa, spec_point_to_pa};
use crate::types::Course;
use vstd::prelude::*;

verus! {

/// Whether a row with this grade and check counts toward the average.
pub open spec fn counts(grade: int, check: bool) -> bool {
    check && in_scale(grade)
}

pub open spec fn row_points(r: (i32, i64, bool)) -> int {
    if counts(r.1 as int, r.2) {
        spec_point_to_pa(r.1 as int) * r.0
    } else {
        0
    }
}

pub open spec fn row_units(r: (i32, i64, bool)) -> int {
    if counts(r.1 as int, r.2) {
        r.0 as int
    } else {
        0
    }
}

/// The sum, over the counted rows, of grade point (in hundredths) times weight.
pub open spec fn total_points(rows: Seq<(i32, i64, bool)>) -> int
    decreases rows.len(),
{
    if rows.len() == 0 {
        0
    } else {
        total_points(rows.drop_last()) + row_points(rows.last())
    }
}

/// The sum of the weights of the counted rows.
pub open spec fn total_units(rows: Seq<(i32, i64, bool)>) -> int
    decreases rows.len(),
{
    if rows.len() == 0 {
        0
    } else {
        total_units(rows.drop_last()) + row_units(rows.last())
    }
}

/// The rows of parallel course, grade and check lists, as far as all three go.
pub open spec fn rows_of(courses: Seq<Course>, grades: Seq<i64>, checks: Seq<bool>) -> Seq<
    (i32, i64, bool),
> {
    let n = if courses.len() <= grades.len() && courses.len() <= checks.len() {
        courses.len()
    } else if grades.len() <= checks.len() {
        grades.len()
    } else {
        checks.len()
    };
    Seq::new(n, |i: int| (courses[i].unit, grades[i], checks[i]))
}

/// The weighted total behind a grade-point average.
#[derive(Clone, Copy, PartialEq, Eq, Structural, Debug)]
pub struct Gpa {
    /// Grade points in hundredths, each times its course's weight, summed.
    pub points: i128,
    /// The weights, summed.
    pub units: i128,
}

/// The bound on what one row adds to the points.
pub const ROW_POINTS_BOUND: i128 = 1_000_000_000_000;

/// The bound on what one row adds to the units.
pub const ROW_UNITS_BOUND: i128 = 10_000_000_000;

/// Points and units are within the per-row bounds times the row count.
pub open spec fn within_bounds(points: int, units: int, count: int) -> bool {
    -ROW_POINTS_BOUND * count <= points <= ROW_POINTS_BOUND * count && -ROW_UNITS_BOUND * count
        <= units <= ROW_UNITS_BOUND * count
}

impl Gpa {
    /// The average is 0 exactly where nothing is averaged: no units counted.
    pub fn is_empty(&self) -> (r: bool)
        ensures
            r == (self.units == 0),
    {
        self.units == 0
    }
}

pub proof fn lemma_totals_bounded(rows: Seq<(i32, i64, bool)>)
    ensures
        within_bounds(total_points(rows), total_units(rows), rows.len() as int),
    decreases rows.len(),
{
    if rows.len() > 0 {
        lemma_totals_bounded(rows.drop_last());
        lemma_row_bounded(rows.last());
        let n = rows.len() as int;
        assert(ROW_POINTS_BOUND * (n - 1) + ROW_POINTS_BOUND == ROW_POINTS_BOUND * n) by (
        nonlinear_arith);
        assert(ROW_UNITS_BOUND * (n - 1) + ROW_UNITS_BOUND == ROW_UNITS_BOUND * n) by (
        nonlinear_arith);
    }
}

proof fn lemma_row_bounded(r: (i32, i64, bool))
    ensures
        -ROW_POINTS_BOUND <= row_points(r) <= ROW_POINTS_BOUND,
        -ROW_UNITS_BOUND <= row_units(r) <= ROW_UNITS_BOUND,
{
    if counts(r.1 as int, r.2) {
        let pa = spec_point_to_pa(r.1 as int);
        let u = r.0 as int;
        assert(0 <= pa <= 433);
        assert(-433 * 2147483648 <= pa * u <= 433 * 2147483648) by (nonlinear_arith)
            requires
                0 <= pa <= 433,
                -2147483648 <= u <= 2147483647,
        ;
    }
}

/// Totals over two lists of rows, one after the other, add up.
pub proof fn lemma_totals_concat(a: Seq<(i32, i64, bool)>, b: Seq<(i32, i64, bool)>)
    ensures
        total_points(a + b) == total_points(a) + total_points(b),
        total_units(a + b) == total_units(a) + total_units(b),
    decreases b.len(),
{
    if b.len() == 0 {
        assert(a + b =~= a);
    } else {
        assert((a + b).drop_last() =~= a + b.drop_last());
        lemma_totals_concat(a, b.drop_last());
    }
}

/// The grade-point average of the courses whose check is set, over the
/// positions that all three lists have.
pub fn compute_gpa(courses: &[Course], grades: &[i64], checks: &[bool]) -> (r: Gpa)
    ensures
        r.points == total_points(rows_of(courses@, grades@, checks@)),
        r.units == total_units(rows_of(courses@, grades@, checks@)),
        courses@.len() == 0 ==> r.points == 0 && r.units == 0,
{
    let ghost rows = rows_of(courses@, grades@, checks@);
    let mut n = courses.len();
    if grades.len() < n {
        n = grades.len();
    }
    if checks.len() < n {
        n = checks.len();
    }
    assert(rows.len() == n);
    let mut points: i128 = 0;
    let mut units: i128 = 0;
    let mut i: usize = 0;
    while i < n
        invariant
            i <= n == rows.len(),
            n <= courses@.len(),
            n <= grades@.len(),
            n <= checks@.len(),
            rows == rows_of(courses@, grades@, checks@),
            points == total_points(rows.subrange(0, i as int)),
            units == total_units(rows.subrange(0, i as int)),
        decreases n - i,
    {
        proof {
            assert(rows.subrange(0, i + 1).drop_last() =~= rows.subrange(0, i as int));
            lemma_totals_bounded(rows.subrange(0, i as int));
            lemma_row_bounded(rows[i as int]);
            assert(ROW_POINTS_BOUND * i <= ROW_POINTS_BOUND * 18446744073709551615) by (
            nonlinear_arith)
                requires
                    i <= 18446744073709551615,
            ;
            assert(ROW_UNITS_BOUND * i <= ROW_UNITS_BOUND * 18446744073709551615) by (
            nonlinear_arith)
                requires
                    i <= 18446744073709551615,
            ;
        }
        let grade = grades[i];
        if checks[i] && 0 <= grade && grade <= 10000 {
            let unit = courses[i].unit as i128;
            let pa = point_to_pa(grade) as i128;
            points = points + pa * unit;
            units = units + unit;
        }
        i = i + 1;
    }
    assert(rows.subrange(0, n as int) =~= rows);
    Gpa { points, units }
}

/// With no check set, nothing is averaged: the points and the units are 0.
pub proof fn lemma_unchecked_average_nothing(rows: Seq<(i32, i64, bool)>)
    requires
        forall|i: int| 0 <= i < rows.len() ==> !(#[trigger] rows[i]).2,
    ensures
        total_points(rows) == 0,
        total_units(rows) == 0,
    decreases rows.len(),
{
    if rows.len() > 0 {
        assert(!rows[rows.len() - 1].2);
        lemma_unchecked_average_nothing(rows.drop_last());
    }
}

} // verus!
