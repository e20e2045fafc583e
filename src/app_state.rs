//! The shared application state and its reducer.
//!
//! Each course is held together with its grade record (grade, letter, check)
//! in one entry, so the courses and their grades cannot drift apart. There are
//! two sets of entries: the catalog's courses and the courses the user added.
//! The reducer takes actions that speak of whole columns (all the grades of a
//! set, all its checks, ...), as the pages build them, and lays each column
//! onto the entries by position.
use crate::gpa::{rows_of, total_points, total_units, Gpa, ROW_POINTS_BOUND, ROW_UNITS_BOUND};
use crate::gpa::{lemma_totals_bounded, lemma_totals_concat};
use crate::grade_scale::{point_to_pa, Letter};
use crate::types::Course;
use vstd::prelude::*;

verus! {

/// A course together with its grade record.
#[derive(PartialEq, Eq, Debug)]
pub struct CourseEntry {
    pub course: Course,
    /// The grade, in hundredths of a percent.
    pub grade: i64,
    /// The letter grade shown beside it; `None` where none is chosen.
    pub letter: Option<Letter>,
    /// Whether the course counts toward the average.
    pub check: bool,
}

impl Clone for CourseEntry {
    fn clone(&self) -> (r: Self)
        ensures
            r == *self,
    {
        CourseEntry {
            course: self.course.clone(),
            grade: self.grade,
            letter: self.letter,
            check: self.check,
        }
    }
}

/// The entry of a course with no grade record yet: grade 0, no letter, not
/// counted.
pub open spec fn blank_entry(c: Course) -> CourseEntry {
    CourseEntry { course: c, grade: 0, letter: None, check: false }
}

/// Entries for `courses`, one each, with the grade records of the parallel
/// lists where they reach and blank records beyond them.
pub open spec fn entries_from(
    courses: Seq<Course>,
    grades: Seq<i64>,
    letters: Seq<Option<Letter>>,
    checks: Seq<bool>,
) -> Seq<CourseEntry> {
    Seq::new(
        courses.len(),
        |i: int|
            CourseEntry {
                course: courses[i],
                grade: if i < grades.len() {
                    grades[i]
                } else {
                    0
                },
                letter: if i < letters.len() {
                    letters[i]
                } else {
                    None
                },
                check: if i < checks.len() {
                    checks[i]
                } else {
                    false
                },
            },
    )
}

/// The entries with their courses replaced by `v`: as many entries as `v`
/// has courses, each keeping the grade record at its position, if any.
pub open spec fn with_courses(es: Seq<CourseEntry>, v: Seq<Course>) -> Seq<CourseEntry> {
    Seq::new(
        v.len(),
        |i: int|
            if i < es.len() {
                CourseEntry { course: v[i], grade: es[i].grade, letter: es[i].letter, check: es[i].check }
            } else {
                blank_entry(v[i])
            },
    )
}

/// The entries with their grades replaced by `v` where it reaches.
pub open spec fn with_grades(es: Seq<CourseEntry>, v: Seq<i64>) -> Seq<CourseEntry> {
    Seq::new(
        es.len(),
        |i: int|
            if i < v.len() {
                CourseEntry { grade: v[i], ..es[i] }
            } else {
                es[i]
            },
    )
}

/// The entries with their letters replaced by `v` where it reaches.
pub open spec fn with_letters(es: Seq<CourseEntry>, v: Seq<Option<Letter>>) -> Seq<CourseEntry> {
    Seq::new(
        es.len(),
        |i: int|
            if i < v.len() {
                CourseEntry { letter: v[i], ..es[i] }
            } else {
                es[i]
            },
    )
}

/// The entries with their checks replaced by `v` where it reaches.
pub open spec fn with_checks(es: Seq<CourseEntry>, v: Seq<bool>) -> Seq<CourseEntry> {
    Seq::new(
        es.len(),
        |i: int|
            if i < v.len() {
                CourseEntry { check: v[i], ..es[i] }
            } else {
                es[i]
            },
    )
}

pub open spec fn courses_column(es: Seq<CourseEntry>) -> Seq<Course> {
    es.map_values(|e: CourseEntry| e.course)
}

pub open spec fn grades_column(es: Seq<CourseEntry>) -> Seq<i64> {
    es.map_values(|e: CourseEntry| e.grade)
}

pub open spec fn letters_column(es: Seq<CourseEntry>) -> Seq<Option<Letter>> {
    es.map_values(|e: CourseEntry| e.letter)
}

pub open spec fn checks_column(es: Seq<CourseEntry>) -> Seq<bool> {
    es.map_values(|e: CourseEntry| e.check)
}

/// The entries as the average sees them.
pub open spec fn entry_rows(es: Seq<CourseEntry>) -> Seq<(i32, i64, bool)> {
    es.map_values(|e: CourseEntry| (e.course.unit, e.grade, e.check))
}

/// The entries whose check is set, in order.
pub open spec fn checked_entries(es: Seq<CourseEntry>) -> Seq<CourseEntry> {
    es.filter(|e: CourseEntry| e.check)
}

/// The whole state: the catalog's entries and the user's.
pub struct AppStateView {
    pub courses: Seq<CourseEntry>,
    pub user_courses: Seq<CourseEntry>,
}

/// The application state: the catalog's courses and the user's, each with its
/// grade record.
pub struct AppState {
    pub courses: Vec<CourseEntry>,
    pub user_courses: Vec<CourseEntry>,
}

impl View for AppState {
    type V = AppStateView;

    open spec fn view(&self) -> AppStateView {
        AppStateView { courses: self.courses@, user_courses: self.user_courses@ }
    }
}

/// One column of one set, as a replacement for what the state holds.
pub enum AppStateValue {
    Courses(Vec<Course>),
    Grades(Vec<i64>),
    Checks(Vec<bool>),
    UserCourses(Vec<Course>),
    UserGrades(Vec<i64>),
    UserChecks(Vec<bool>),
    GradesLetter(Vec<Option<Letter>>),
    UserGradesLetter(Vec<Option<Letter>>),
}

/// What the reducer is asked to do.
pub enum AppStateAction {
    /// Replace both sets, each built from its parallel columns.
    UpdateAll {
        courses: Vec<Course>,
        grades: Vec<i64>,
        grades_letter: Vec<Option<Letter>>,
        checks: Vec<bool>,
        user_courses: Vec<Course>,
        user_grades: Vec<i64>,
        user_grades_letter: Vec<Option<Letter>>,
        user_checks: Vec<bool>,
    },
    /// Replace the catalog's set, built from its parallel columns.
    UpdateAllNonUser {
        courses: Vec<Course>,
        grades: Vec<i64>,
        grades_letter: Vec<Option<Letter>>,
        checks: Vec<bool>,
    },
    /// Replace the user's set, built from its parallel columns.
    UpdateAllUser {
        user_courses: Vec<Course>,
        user_grades: Vec<i64>,
        user_grades_letter: Vec<Option<Letter>>,
        user_checks: Vec<bool>,
    },
    /// Replace one column of one set, leaving everything else as it is.
    UpdateSingle { values: AppStateValue },
}

/// The state after one column of one set is replaced.
pub open spec fn apply_value(s: AppStateView, v: AppStateValue) -> AppStateView {
    match v {
        AppStateValue::Courses(c) => AppStateView { courses: with_courses(s.courses, c@), ..s },
        AppStateValue::Grades(g) => AppStateView { courses: with_grades(s.courses, g@), ..s },
        AppStateValue::GradesLetter(l) => AppStateView {
            courses: with_letters(s.courses, l@),
            ..s
        },
        AppStateValue::Checks(c) => AppStateView { courses: with_checks(s.courses, c@), ..s },
        AppStateValue::UserCourses(c) => AppStateView {
            user_courses: with_courses(s.user_courses, c@),
            ..s
        },
        AppStateValue::UserGrades(g) => AppStateView {
            user_courses: with_grades(s.user_courses, g@),
            ..s
        },
        AppStateValue::UserGradesLetter(l) => AppStateView {
            user_courses: with_letters(s.user_courses, l@),
            ..s
        },
        AppStateValue::UserChecks(c) => AppStateView {
            user_courses: with_checks(s.user_courses, c@),
            ..s
        },
    }
}

/// The state after one action.
pub open spec fn spec_reduce(s: AppStateView, a: AppStateAction) -> AppStateView {
    match a {
        AppStateAction::UpdateAll {
            courses,
            grades,
            grades_letter,
            checks,
            user_courses,
            user_grades,
            user_grades_letter,
            user_checks,
        } => AppStateView {
            courses: entries_from(courses@, grades@, grades_letter@, checks@),
            user_courses: entries_from(
                user_courses@,
                user_grades@,
                user_grades_letter@,
                user_checks@,
            ),
        },
        AppStateAction::UpdateAllNonUser { courses, grades, grades_letter, checks } => AppStateView {
            courses: entries_from(courses@, grades@, grades_letter@, checks@),
            ..s
        },
        AppStateAction::UpdateAllUser {
            user_courses,
            user_grades,
            user_grades_letter,
            user_checks,
        } => AppStateView {
            user_courses: entries_from(
                user_courses@,
                user_grades@,
                user_grades_letter@,
                user_checks@,
            ),
            ..s
        },
        AppStateAction::UpdateSingle { values } => apply_value(s, values),
    }
}

/// The state after a list of actions, in order.
pub open spec fn reduce_all(s: AppStateView, actions: Seq<AppStateAction>) -> AppStateView
    decreases actions.len(),
{
    if actions.len() == 0 {
        s
    } else {
        spec_reduce(reduce_all(s, actions.drop_last()), actions.last())
    }
}

/// Builds entries for `courses` from parallel grade, letter and check lists.
fn build_entries(
    courses: &Vec<Course>,
    grades: &Vec<i64>,
    letters: &Vec<Option<Letter>>,
    checks: &Vec<bool>,
) -> (r: Vec<CourseEntry>)
    ensures
        r@ == entries_from(courses@, grades@, letters@, checks@),
{
    let mut r: Vec<CourseEntry> = Vec::new();
    let mut i: usize = 0;
    while i < courses.len()
        invariant
            i <= courses@.len(),
            r@ == entries_from(courses@, grades@, letters@, checks@).subrange(0, i as int),
        decreases courses.len() - i,
    {
        let grade = if i < grades.len() {
            grades[i]
        } else {
            0
        };
        let letter = if i < letters.len() {
            letters[i]
        } else {
            None
        };
        let check = if i < checks.len() {
            checks[i]
        } else {
            false
        };
        r.push(CourseEntry { course: courses[i].clone(), grade, letter, check });
        i = i + 1;
        assert(r@ =~= entries_from(courses@, grades@, letters@, checks@).subrange(0, i as int));
    }
    assert(r@ =~= entries_from(courses@, grades@, letters@, checks@));
    r
}

/// Lays a course column onto the entries: one entry per course, each keeping
/// the grade record at its position, if any.
fn lay_courses(es: &Vec<CourseEntry>, v: &Vec<Course>) -> (r: Vec<CourseEntry>)
    ensures
        r@ == with_courses(es@, v@),
{
    let mut r: Vec<CourseEntry> = Vec::new();
    let mut i: usize = 0;
    while i < v.len()
        invariant
            i <= v@.len(),
            r@ == with_courses(es@, v@).subrange(0, i as int),
        decreases v.len() - i,
    {
        let course = v[i].clone();
        if i < es.len() {
            r.push(
                CourseEntry {
                    course,
                    grade: es[i].grade,
                    letter: es[i].letter,
                    check: es[i].check,
                },
            );
        } else {
            r.push(CourseEntry { course, grade: 0, letter: None, check: false });
        }
        i = i + 1;
        assert(r@ =~= with_courses(es@, v@).subrange(0, i as int));
    }
    assert(r@ =~= with_courses(es@, v@));
    r
}

/// Lays a grade column onto the entries where it reaches.
fn lay_grades(es: &mut Vec<CourseEntry>, v: &Vec<i64>)
    ensures
        final(es)@ == with_grades(old(es)@, v@),
{
    let ghost es0 = es@;
    let mut i: usize = 0;
    while i < v.len() && i < es.len()
        invariant
            i <= es@.len() == es0.len(),
            forall|j: int| 0 <= j < i ==> es@[j] == with_grades(es0, v@)[j],
            forall|j: int| i <= j < es@.len() ==> es@[j] == es0[j],
        decreases v.len() - i,
    {
        es[i].grade = v[i];
        i = i + 1;
    }
    assert(es@ =~= with_grades(es0, v@));
}

/// Lays a letter column onto the entries where it reaches.
fn lay_letters(es: &mut Vec<CourseEntry>, v: &Vec<Option<Letter>>)
    ensures
        final(es)@ == with_letters(old(es)@, v@),
{
    let ghost es0 = es@;
    let mut i: usize = 0;
    while i < v.len() && i < es.len()
        invariant
            i <= es@.len() == es0.len(),
            forall|j: int| 0 <= j < i ==> es@[j] == with_letters(es0, v@)[j],
            forall|j: int| i <= j < es@.len() ==> es@[j] == es0[j],
        decreases v.len() - i,
    {
        es[i].letter = v[i];
        i = i + 1;
    }
    assert(es@ =~= with_letters(es0, v@));
}

/// Lays a check column onto the entries where it reaches.
fn lay_checks(es: &mut Vec<CourseEntry>, v: &Vec<bool>)
    ensures
        final(es)@ == with_checks(old(es)@, v@),
{
    let ghost es0 = es@;
    let mut i: usize = 0;
    while i < v.len() && i < es.len()
        invariant
            i <= es@.len() == es0.len(),
            forall|j: int| 0 <= j < i ==> es@[j] == with_checks(es0, v@)[j],
            forall|j: int| i <= j < es@.len() ==> es@[j] == es0[j],
        decreases v.len() - i,
    {
        es[i].check = v[i];
        i = i + 1;
    }
    assert(es@ =~= with_checks(es0, v@));
}

/// The course column of a set of entries.
pub fn courses_of(es: &Vec<CourseEntry>) -> (r: Vec<Course>)
    ensures
        r@ == courses_column(es@),
{
    let mut r: Vec<Course> = Vec::new();
    let mut i: usize = 0;
    while i < es.len()
        invariant
            i <= es@.len(),
            r@ == courses_column(es@).subrange(0, i as int),
        decreases es.len() - i,
    {
        r.push(es[i].course.clone());
        i = i + 1;
        assert(r@ =~= courses_column(es@).subrange(0, i as int));
    }
    assert(r@ =~= courses_column(es@));
    r
}

/// The grade column of a set of entries.
pub fn grades_of(es: &Vec<CourseEntry>) -> (r: Vec<i64>)
    ensures
        r@ == grades_column(es@),
{
    let mut r: Vec<i64> = Vec::new();
    let mut i: usize = 0;
    while i < es.len()
        invariant
            i <= es@.len(),
            r@ == grades_column(es@).subrange(0, i as int),
        decreases es.len() - i,
    {
        r.push(es[i].grade);
        i = i + 1;
        assert(r@ =~= grades_column(es@).subrange(0, i as int));
    }
    assert(r@ =~= grades_column(es@));
    r
}

/// The letter column of a set of entries.
pub fn letters_of(es: &Vec<CourseEntry>) -> (r: Vec<Option<Letter>>)
    ensures
        r@ == letters_column(es@),
{
    let mut r: Vec<Option<Letter>> = Vec::new();
    let mut i: usize = 0;
    while i < es.len()
        invariant
            i <= es@.len(),
            r@ == letters_column(es@).subrange(0, i as int),
        decreases es.len() - i,
    {
        r.push(es[i].letter);
        i = i + 1;
        assert(r@ =~= letters_column(es@).subrange(0, i as int));
    }
    assert(r@ =~= letters_column(es@));
    r
}

/// The check column of a set of entries.
pub fn checks_of(es: &Vec<CourseEntry>) -> (r: Vec<bool>)
    ensures
        r@ == checks_column(es@),
{
    let mut r: Vec<bool> = Vec::new();
    let mut i: usize = 0;
    while i < es.len()
        invariant
            i <= es@.len(),
            r@ == checks_column(es@).subrange(0, i as int),
        decreases es.len() - i,
    {
        r.push(es[i].check);
        i = i + 1;
        assert(r@ =~= checks_column(es@).subrange(0, i as int));
    }
    assert(r@ =~= checks_column(es@));
    r
}

/// Adds the rows of `es` to totals already taken over `before`.
fn add_rows(es: &Vec<CourseEntry>, base: Gpa, Ghost(before): Ghost<Seq<(i32, i64, bool)>>) -> (r:
    Gpa)
    requires
        before.len() <= usize::MAX,
        base.points == total_points(before),
        base.units == total_units(before),
    ensures
        r.points == total_points(before + entry_rows(es@)),
        r.units == total_units(before + entry_rows(es@)),
{
    let ghost rows = entry_rows(es@);
    let mut points = base.points;
    let mut units = base.units;
    let mut i: usize = 0;
    while i < es.len()
        invariant
            i <= es@.len() == rows.len(),
            rows == entry_rows(es@),
            before.len() <= usize::MAX,
            points == total_points(before + rows.subrange(0, i as int)),
            units == total_units(before + rows.subrange(0, i as int)),
        decreases es.len() - i,
    {
        let ghost prefix = before + rows.subrange(0, i as int);
        proof {
            assert((before + rows.subrange(0, i + 1)).drop_last() =~= prefix);
            assert((before + rows.subrange(0, i + 1)).last() == rows[i as int]);
            lemma_totals_bounded(prefix);
            lemma_totals_bounded(seq![rows[i as int]]);
            lemma_totals_concat(prefix, seq![rows[i as int]]);
            assert(prefix + seq![rows[i as int]] =~= before + rows.subrange(0, i + 1));
            let n = prefix.len() as int;
            assert(ROW_POINTS_BOUND * n <= ROW_POINTS_BOUND * 36893488147419103230) by (
            nonlinear_arith)
                requires
                    n <= 36893488147419103230,
            ;
            assert(ROW_UNITS_BOUND * n <= ROW_UNITS_BOUND * 36893488147419103230) by (
            nonlinear_arith)
                requires
                    n <= 36893488147419103230,
            ;
        }
        let grade = es[i].grade;
        if es[i].check && 0 <= grade && grade <= 10000 {
            let unit = es[i].course.unit as i128;
            let pa = point_to_pa(grade) as i128;
            points = points + pa * unit;
            units = units + unit;
        }
        i = i + 1;
    }
    assert(rows.subrange(0, i as int) =~= rows);
    Gpa { points, units }
}

/// Appends to `out` the entries of `es` whose check is set, in order.
fn collect_checked(
    es: &Vec<CourseEntry>,
    out: &mut Vec<CourseEntry>,
    Ghost(before): Ghost<Seq<CourseEntry>>,
)
    requires
        old(out)@ == checked_entries(before),
    ensures
        final(out)@ == checked_entries(before + es@),
{
    let mut i: usize = 0;
    while i < es.len()
        invariant
            i <= es@.len(),
            out@ == checked_entries(before + es@.subrange(0, i as int)),
        decreases es.len() - i,
    {
        proof {
            let next = before + es@.subrange(0, i + 1);
            assert(next.drop_last() =~= before + es@.subrange(0, i as int));
            assert(next.last() == es@[i as int]);
            reveal(Seq::filter);
        }
        if es[i].check {
            out.push(es[i].clone());
        }
        i = i + 1;
    }
    assert(es@.subrange(0, i as int) =~= es@);
}

impl AppState {
    /// The empty state: no courses in either set.
    pub fn new() -> (r: AppState)
        ensures
            r@.courses.len() == 0,
            r@.user_courses.len() == 0,
    {
        AppState { courses: Vec::new(), user_courses: Vec::new() }
    }

    /// Applies one action; what it does not name is kept as it was.
    pub fn reduce(self, action: AppStateAction) -> (r: AppState)
        ensures
            r@ == spec_reduce(self@, action),
    {
        let AppState { mut courses, mut user_courses } = self;
        match action {
            AppStateAction::UpdateAll {
                courses: c,
                grades,
                grades_letter,
                checks,
                user_courses: uc,
                user_grades,
                user_grades_letter,
                user_checks,
            } => AppState {
                courses: build_entries(&c, &grades, &grades_letter, &checks),
                user_courses: build_entries(&uc, &user_grades, &user_grades_letter, &user_checks),
            },
            AppStateAction::UpdateAllNonUser { courses: c, grades, grades_letter, checks } => {
                AppState { courses: build_entries(&c, &grades, &grades_letter, &checks), user_courses }
            },
            AppStateAction::UpdateAllUser {
                user_courses: uc,
                user_grades,
                user_grades_letter,
                user_checks,
            } => AppState {
                courses,
                user_courses: build_entries(&uc, &user_grades, &user_grades_letter, &user_checks),
            },
            AppStateAction::UpdateSingle { values } => {
                match values {
                    AppStateValue::Courses(v) => {
                        courses = lay_courses(&courses, &v);
                    },
                    AppStateValue::Grades(v) => {
                        lay_grades(&mut courses, &v);
                    },
                    AppStateValue::GradesLetter(v) => {
                        lay_letters(&mut courses, &v);
                    },
                    AppStateValue::Checks(v) => {
                        lay_checks(&mut courses, &v);
                    },
                    AppStateValue::UserCourses(v) => {
                        user_courses = lay_courses(&user_courses, &v);
                    },
                    AppStateValue::UserGrades(v) => {
                        lay_grades(&mut user_courses, &v);
                    },
                    AppStateValue::UserGradesLetter(v) => {
                        lay_letters(&mut user_courses, &v);
                    },
                    AppStateValue::UserChecks(v) => {
                        lay_checks(&mut user_courses, &v);
                    },
                }
                AppState { courses, user_courses }
            },
        }
    }

    /// The grade-point average over both sets, the catalog's first.
    pub fn calculate_gpa(&self) -> (r: Gpa)
        ensures
            r.points == total_points(entry_rows(self@.courses + self@.user_courses)),
            r.units == total_units(entry_rows(self@.courses + self@.user_courses)),
    {
        let empty = Gpa { points: 0, units: 0 };
        let ghost none: Seq<(i32, i64, bool)> = Seq::empty();
        assert(none + entry_rows(self.courses@) =~= entry_rows(self.courses@));
        let catalog = add_rows(&self.courses, empty, Ghost(none));
        assert(entry_rows(self.courses@).len() == self.courses.len());
        let r = add_rows(&self.user_courses, catalog, Ghost(entry_rows(self.courses@)));
        assert(entry_rows(self.courses@) + entry_rows(self.user_courses@) =~= entry_rows(
            self@.courses + self@.user_courses,
        ));
        r
    }

    /// The counted entries of both sets, the catalog's first, in order.
    pub fn counted_courses(&self) -> (r: Vec<CourseEntry>)
        ensures
            r@ == checked_entries(self@.courses + self@.user_courses),
    {
        let mut r: Vec<CourseEntry> = Vec::new();
        let ghost none: Seq<CourseEntry> = Seq::empty();
        proof {
            reveal(Seq::filter);
            assert(checked_entries(none) =~= Seq::<CourseEntry>::empty());
            assert(none + self.courses@ =~= self.courses@);
        }
        collect_checked(&self.courses, &mut r, Ghost(none));
        collect_checked(&self.user_courses, &mut r, Ghost(self.courses@));
        r
    }
}

impl Default for AppState {
    fn default() -> (r: AppState)
        ensures
            r@.courses.len() == 0,
            r@.user_courses.len() == 0,
    {
        AppState::new()
    }
}

/// Replacing the catalog's grades changes nothing but grades: the catalog
/// keeps its length, courses, letters and checks, and the user's set is
/// untouched.
pub proof fn lemma_grades_only_touch_grades(s: AppStateView, grades: Vec<i64>)
    ensures
        ({
            let t = spec_reduce(s, AppStateAction::UpdateSingle { values: AppStateValue::Grades(grades) });
            &&& t.user_courses == s.user_courses
            &&& t.courses.len() == s.courses.len()
            &&& courses_column(t.courses) == courses_column(s.courses)
            &&& letters_column(t.courses) == letters_column(s.courses)
            &&& checks_column(t.courses) == checks_column(s.courses)
        }),
{
    let t = spec_reduce(s, AppStateAction::UpdateSingle { values: AppStateValue::Grades(grades) });
    assert(courses_column(t.courses) =~= courses_column(s.courses));
    assert(letters_column(t.courses) =~= letters_column(s.courses));
    assert(checks_column(t.courses) =~= checks_column(s.courses));
}

/// The rows that the state's average runs over are the rows of its parallel
/// course, grade and check columns, the catalog's followed by the user's: the
/// state's average is the average of the merged columns.
pub proof fn lemma_state_rows_are_merged_columns(s: AppStateView)
    ensures
        ({
            let all = s.courses + s.user_courses;
            entry_rows(all) == rows_of(courses_column(all), grades_column(all), checks_column(all))
        }),
{
    let all = s.courses + s.user_courses;
    assert(entry_rows(all) =~= rows_of(courses_column(all), grades_column(all), checks_column(all)));
}

} // verus!
