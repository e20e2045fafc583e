//! The decisions of the home page: how each user edit and each answer of the
//! catalog fetch becomes actions on the shared state, and what outside work
//! (a fetch, storing the theme) is to be done next.
use crate::app_state::{
    checks_of, courses_of, grades_of, letters_of, reduce_all, spec_reduce, AppState,
    AppStateAction, AppStateValue, AppStateView, CourseEntry,
};
use crate::app_state::{
    checks_column, courses_column, entries_from, grades_column, letters_column, with_checks,
    with_courses, with_grades, with_letters,
};
use crate::gpa::{total_points, total_units};
use crate::app_state::entry_rows;
use crate::grade_scale::{
    letter_to_point, parse_letter, point_to_letter, spec_letter_to_point, spec_point_to_letter,
    Letter,
};
use crate::parse::{lemma_parsed_grade_fits, parse_grade, parse_unit, spec_parse_grade, spec_parse_unit};
use crate::types::Course;
use vstd::prelude::*;

verus! {

/// The colour theme of the page.
#[derive(Clone, Copy, PartialEq, Eq, Structural, Debug)]
pub enum Theme {
    Light,
    Dark,
}

impl Theme {
    /// The theme kept under a stored name: `"dark"` is dark, anything else light.
    pub fn from_name(name: &str) -> (r: Theme)
        ensures
            r == (if name@ == seq!['d', 'a', 'r', 'k'] {
                Theme::Dark
            } else {
                Theme::Light
            }),
    {
        if name.unicode_len() == 4 && name.get_char(0) == 'd' && name.get_char(1) == 'a'
            && name.get_char(2) == 'r' && name.get_char(3) == 'k' {
            assert(name@ =~= seq!['d', 'a', 'r', 'k']);
            Theme::Dark
        } else {
            Theme::Light
        }
    }

    /// The name the theme is stored and shown under.
    pub fn name(&self) -> (r: &'static str)
        ensures
            r@ == (if *self == Theme::Dark {
                seq!['d', 'a', 'r', 'k']
            } else {
                seq!['l', 'i', 'g', 'h', 't']
            }),
    {
        match self {
            Theme::Dark => {
                proof {
                    reveal_strlit("dark");
                }
                "dark"
            },
            Theme::Light => {
                proof {
                    reveal_strlit("light");
                }
                "light"
            },
        }
    }

    /// The other theme.
    pub fn toggled(&self) -> (r: Theme)
        ensures
            r == spec_toggled_theme(*self),
    {
        match self {
            Theme::Light => Theme::Dark,
            Theme::Dark => Theme::Light,
        }
    }
}

pub open spec fn spec_toggled_theme(t: Theme) -> Theme {
    match t {
        Theme::Light => Theme::Dark,
        Theme::Dark => Theme::Light,
    }
}

/// What the home page is told.
pub enum Msg {
    /// The grade of catalog course `.0` was typed as `.1`.
    UpdateValue(usize, String),
    /// The letter of catalog course `.0` was chosen as `.1`.
    UpdateValueLetter(usize, String),
    ToggleCourseCheck(usize),
    /// Load the catalog.
    GetCourses,
    /// Fetch number `.0` answered with the catalog `.1`.
    GetCoursesSuccess(u64, Vec<Course>),
    /// Fetch number `.0` failed; `.1` says why.
    GetCoursesError(u64, String),
    AddNewCourseCard,
    UpdateUserCourseName(usize, String),
    /// The credit weight of user course `.0` was typed as `.1`.
    UpdateUserCourseUnit(usize, String),
    UpdateUserCourseGrade(usize, String),
    UpdateUserCourseGradeLetter(usize, String),
    ToggleUserCourseCheck(usize),
    ToggleTheme,
}

/// Outside work that the page asks for.
#[derive(Clone, Copy, PartialEq, Eq, Structural, Debug)]
pub enum Command {
    Nothing,
    /// Fetch the catalog, as fetch number `.0`, and answer with
    /// `GetCoursesSuccess` or `GetCoursesError` carrying that number.
    FetchCourses(u64),
    /// Keep the theme for the next visit.
    StoreTheme(Theme),
}

/// Where a page stands with its fetch, which decides what it shows.
#[derive(Clone, Copy, PartialEq, Eq, Structural, Debug)]
pub enum Phase {
    /// The fetch has not answered yet.
    Loading,
    /// The fetch failed.
    Failed,
    /// What was fetched is there to show.
    Ready,
}

/// What one message leads to: actions for the shared state, in order, and a command.
pub struct Update {
    pub actions: Vec<AppStateAction>,
    pub command: Command,
}

/// The home page's own state.
pub struct Home {
    /// Whether the catalog fetch has answered.
    pub loaded: bool,
    /// Why the catalog fetch failed, if it did.
    pub error: Option<String>,
    pub theme: Theme,
    /// The number of the latest catalog fetch; an answer to any other is
    /// stale and ignored.
    pub request: u64,
}

/// The number of the fetch after fetch `n`.
pub open spec fn next_request(n: u64) -> u64 {
    if n < u64::MAX {
        (n + 1) as u64
    } else {
        0
    }
}

/// One of the two sets: the user's where `user` holds, else the catalog's.
pub open spec fn set_of(s: AppStateView, user: bool) -> Seq<CourseEntry> {
    if user {
        s.user_courses
    } else {
        s.courses
    }
}

/// The state with one of its sets replaced.
pub open spec fn put_set(s: AppStateView, user: bool, es: Seq<CourseEntry>) -> AppStateView {
    if user {
        AppStateView { user_courses: es, ..s }
    } else {
        AppStateView { courses: es, ..s }
    }
}

/// Entry `i` takes grade `g` and the letter of `g`; nothing changes if there
/// is no entry `i`.
pub open spec fn graded(es: Seq<CourseEntry>, i: int, g: i64) -> Seq<CourseEntry> {
    if 0 <= i < es.len() {
        es.update(i, CourseEntry { grade: g, letter: spec_point_to_letter(g as int), ..es[i] })
    } else {
        es
    }
}

/// Entry `i` takes the letter written `text` (none if `text` is no letter)
/// and the percentage that `text` stands for.
pub open spec fn lettered(es: Seq<CourseEntry>, i: int, text: Seq<char>) -> Seq<CourseEntry> {
    if 0 <= i < es.len() {
        es.update(
            i,
            CourseEntry {
                grade: spec_letter_to_point(text) as i64,
                letter: parse_letter(text),
                ..es[i]
            },
        )
    } else {
        es
    }
}

/// Entry `i` has its check flipped.
pub open spec fn toggled(es: Seq<CourseEntry>, i: int) -> Seq<CourseEntry> {
    if 0 <= i < es.len() {
        es.update(i, CourseEntry { check: !es[i].check, ..es[i] })
    } else {
        es
    }
}

/// Entry `i` holds course `c` in place of its own, with its grade record kept.
pub open spec fn recoursed(es: Seq<CourseEntry>, i: int, c: Course) -> Seq<CourseEntry> {
    if 0 <= i < es.len() {
        es.update(i, CourseEntry { course: c, ..es[i] })
    } else {
        es
    }
}

/// `t` is `s` with one blank user course added: its id follows the catalog's
/// and the user's courses, its texts are empty, its weight and grade 0, its
/// letter A+, and it is not counted.
pub open spec fn added_blank(s: AppStateView, t: AppStateView) -> bool {
    let n = s.user_courses.len();
    let e = t.user_courses[n as int];
    &&& t.courses == s.courses
    &&& t.user_courses.len() == n + 1
    &&& t.user_courses.subrange(0, n as int) == s.user_courses
    &&& e.course.id == s.courses.len() + n
    &&& e.course.name@.len() == 0
    &&& e.course.teacher@.len() == 0
    &&& e.course.description@.len() == 0
    &&& e.course.image@.len() == 0
    &&& e.course.unit == 0
    &&& e.grade == 0
    &&& e.letter == Some(Letter::APlus)
    &&& !e.check
}

/// The state after message `m`, for every message but `AddNewCourseCard`.
pub open spec fn next_state(h: Home, s: AppStateView, m: Msg) -> AppStateView {
    match m {
        Msg::GetCoursesSuccess(r, c) => if r == h.request {
            AppStateView { courses: with_courses(s.courses, c@), ..s }
        } else {
            s
        },
        Msg::UpdateValue(i, text) => match spec_parse_grade(text@) {
            Some(g) => if h.loaded {
                put_set(s, false, graded(s.courses, i as int, g as i64))
            } else {
                s
            },
            None => s,
        },
        Msg::UpdateValueLetter(i, text) => put_set(s, false, lettered(s.courses, i as int, text@)),
        Msg::ToggleCourseCheck(i) => if h.loaded {
            put_set(s, false, toggled(s.courses, i as int))
        } else {
            s
        },
        Msg::UpdateUserCourseName(i, name) => if i < s.user_courses.len() {
            put_set(
                s,
                true,
                recoursed(
                    s.user_courses,
                    i as int,
                    Course { name: name, ..s.user_courses[i as int].course },
                ),
            )
        } else {
            s
        },
        Msg::UpdateUserCourseUnit(i, text) => match spec_parse_unit(text@) {
            Some(u) => if i < s.user_courses.len() {
                put_set(
                    s,
                    true,
                    recoursed(
                        s.user_courses,
                        i as int,
                        Course { unit: u as i32, ..s.user_courses[i as int].course },
                    ),
                )
            } else {
                s
            },
            None => s,
        },
        Msg::UpdateUserCourseGrade(i, text) => match spec_parse_grade(text@) {
            Some(g) => put_set(s, true, graded(s.user_courses, i as int, g as i64)),
            None => s,
        },
        Msg::UpdateUserCourseGradeLetter(i, text) => put_set(
            s,
            true,
            lettered(s.user_courses, i as int, text@),
        ),
        Msg::ToggleUserCourseCheck(i) => put_set(s, true, toggled(s.user_courses, i as int)),
        _ => s,
    }
}

/// The page's own state after message `m`.
pub open spec fn next_home(h: Home, m: Msg) -> Home {
    match m {
        Msg::GetCourses => Home { loaded: false, request: next_request(h.request), ..h },
        Msg::GetCoursesSuccess(r, _) => if r == h.request {
            Home { loaded: true, ..h }
        } else {
            h
        },
        Msg::GetCoursesError(r, e) => if r == h.request {
            Home { loaded: true, error: Some(e), ..h }
        } else {
            h
        },
        Msg::ToggleTheme => Home { theme: spec_toggled_theme(h.theme), ..h },
        _ => h,
    }
}

/// The outside work asked for after message `m`.
pub open spec fn next_command(h: Home, m: Msg) -> Command {
    match m {
        Msg::GetCourses => Command::FetchCourses(next_request(h.request)),
        Msg::ToggleTheme => Command::StoreTheme(spec_toggled_theme(h.theme)),
        _ => Command::Nothing,
    }
}

/// Whether the next user course's id, the count of all courses, fits a `usize`.
pub open spec fn room_for_user_course(s: AppStateView) -> bool {
    s.courses.len() + s.user_courses.len() <= usize::MAX
}

proof fn lemma_reduce_one(s: AppStateView, a: AppStateAction)
    ensures
        reduce_all(s, seq![a]) == spec_reduce(s, a),
{
    assert(seq![a].drop_last() =~= Seq::<AppStateAction>::empty());
    assert(seq![a].last() == a);
    assert(reduce_all(s, Seq::<AppStateAction>::empty()) == s);
}

proof fn lemma_reduce_two(s: AppStateView, a: AppStateAction, b: AppStateAction)
    ensures
        reduce_all(s, seq![a, b]) == spec_reduce(spec_reduce(s, a), b),
{
    assert(seq![a, b].drop_last() =~= seq![a]);
    assert(seq![a, b].last() == b);
    lemma_reduce_one(s, a);
}

/// One action, as a list.
fn one(a: AppStateAction) -> (r: Vec<AppStateAction>)
    ensures
        r@ == seq![a],
{
    let mut r: Vec<AppStateAction> = Vec::new();
    r.push(a);
    r
}

/// Two actions, in order, as a list.
fn two(a: AppStateAction, b: AppStateAction) -> (r: Vec<AppStateAction>)
    ensures
        r@ == seq![a, b],
{
    let mut r: Vec<AppStateAction> = Vec::new();
    r.push(a);
    r.push(b);
    r
}

/// Actions that give entry `i` of one set grade `g` and the letter of `g`.
fn grade_actions(state: &AppState, user: bool, i: usize, g: i64) -> (r: Vec<AppStateAction>)
    ensures
        reduce_all(state@, r@) == put_set(state@, user, graded(set_of(state@, user), i as int, g)),
{
    let es = if user {
        &state.user_courses
    } else {
        &state.courses
    };
    let mut grades = grades_of(es);
    let mut letters = letters_of(es);
    if i < grades.len() {
        grades.set(i, g);
        letters.set(i, point_to_letter(g));
    }
    let ghost gs = grades@;
    let ghost ls = letters@;
    let (a, b) = if user {
        (
            AppStateAction::UpdateSingle { values: AppStateValue::UserGradesLetter(letters) },
            AppStateAction::UpdateSingle { values: AppStateValue::UserGrades(grades) },
        )
    } else {
        (
            AppStateAction::UpdateSingle { values: AppStateValue::GradesLetter(letters) },
            AppStateAction::UpdateSingle { values: AppStateValue::Grades(grades) },
        )
    };
    proof {
        lemma_reduce_two(state@, a, b);
        assert(with_grades(with_letters(es@, ls), gs) =~= graded(es@, i as int, g));
    }
    two(a, b)
}

/// Actions that give entry `i` of one set the letter written `text` and the
/// percentage it stands for.
fn letter_actions(state: &AppState, user: bool, i: usize, text: &str) -> (r: Vec<
    AppStateAction,
>)
    ensures
        reduce_all(state@, r@) == put_set(
            state@,
            user,
            lettered(set_of(state@, user), i as int, text@),
        ),
{
    let es = if user {
        &state.user_courses
    } else {
        &state.courses
    };
    let mut grades = grades_of(es);
    let mut letters = letters_of(es);
    if i < grades.len() {
        grades.set(i, letter_to_point(text));
        letters.set(i, Letter::parse(text));
    }
    let ghost gs = grades@;
    let ghost ls = letters@;
    let (a, b) = if user {
        (
            AppStateAction::UpdateSingle { values: AppStateValue::UserGrades(grades) },
            AppStateAction::UpdateSingle { values: AppStateValue::UserGradesLetter(letters) },
        )
    } else {
        (
            AppStateAction::UpdateSingle { values: AppStateValue::Grades(grades) },
            AppStateAction::UpdateSingle { values: AppStateValue::GradesLetter(letters) },
        )
    };
    proof {
        lemma_reduce_two(state@, a, b);
        assert(with_letters(with_grades(es@, gs), ls) =~= lettered(es@, i as int, text@));
    }
    two(a, b)
}

/// Actions that flip the check of entry `i` of one set.
fn toggle_actions(state: &AppState, user: bool, i: usize) -> (r: Vec<AppStateAction>)
    ensures
        reduce_all(state@, r@) == put_set(state@, user, toggled(set_of(state@, user), i as int)),
{
    let es = if user {
        &state.user_courses
    } else {
        &state.courses
    };
    let mut checks = checks_of(es);
    if i < checks.len() {
        let flipped = !checks[i];
        checks.set(i, flipped);
    }
    let ghost cs = checks@;
    let a = if user {
        AppStateAction::UpdateSingle { values: AppStateValue::UserChecks(checks) }
    } else {
        AppStateAction::UpdateSingle { values: AppStateValue::Checks(checks) }
    };
    proof {
        lemma_reduce_one(state@, a);
        assert(with_checks(es@, cs) =~= toggled(es@, i as int));
    }
    one(a)
}

/// Actions that put course `c` in place of user course `i`.
fn user_course_actions(state: &AppState, i: usize, c: Course) -> (r: Vec<AppStateAction>)
    requires
        i < state@.user_courses.len(),
    ensures
        reduce_all(state@, r@) == put_set(state@, true, recoursed(state@.user_courses, i as int, c)),
{
    let es = &state.user_courses;
    let mut courses = courses_of(es);
    courses.set(i, c);
    let ghost cs = courses@;
    let a = AppStateAction::UpdateSingle { values: AppStateValue::UserCourses(courses) };
    proof {
        lemma_reduce_one(state@, a);
        assert(with_courses(es@, cs) =~= recoursed(es@, i as int, c));
    }
    one(a)
}

/// Actions that add a blank user course after the others.
fn add_course_actions(state: &AppState) -> (r: Vec<AppStateAction>)
    requires
        room_for_user_course(state@),
    ensures
        added_blank(state@, reduce_all(state@, r@)),
{
    let es = &state.user_courses;
    let mut courses = courses_of(es);
    let mut grades = grades_of(es);
    let mut letters = letters_of(es);
    let mut checks = checks_of(es);
    let blank = Course::blank(state.courses.len() + es.len());
    courses.push(blank);
    grades.push(0);
    letters.push(Some(Letter::APlus));
    checks.push(false);
    let ghost (cs, gs, ls, ks) = (courses@, grades@, letters@, checks@);
    let a = AppStateAction::UpdateAllUser {
        user_courses: courses,
        user_grades: grades,
        user_grades_letter: letters,
        user_checks: checks,
    };
    proof {
        lemma_reduce_one(state@, a);
        let t = entries_from(cs, gs, ls, ks);
        assert(t.subrange(0, es@.len() as int) =~= es@);
    }
    one(a)
}

/// Actions that lay a freshly loaded catalog over the catalog's entries,
/// keeping the grade record at each position that had one.
fn catalog_actions(state: &AppState, courses: Vec<Course>) -> (r: Vec<AppStateAction>)
    ensures
        reduce_all(state@, r@) == put_set(state@, false, with_courses(state@.courses, courses@)),
{
    let es = &state.courses;
    let ghost c = courses@;
    let a = AppStateAction::UpdateAllNonUser {
        courses,
        grades: grades_of(es),
        grades_letter: letters_of(es),
        checks: checks_of(es),
    };
    proof {
        lemma_reduce_one(state@, a);
        assert(entries_from(c, grades_column(es@), letters_column(es@), checks_column(es@))
            =~= with_courses(es@, c));
    }
    one(a)
}

/// No action.
fn none() -> (r: Vec<AppStateAction>)
    ensures
        r@ == Seq::<AppStateAction>::empty(),
{
    Vec::new()
}

impl Home {
    /// A page that has not heard from the catalog fetch yet, in the given theme.
    pub fn create(theme: Theme) -> (r: Home)
        ensures
            !r.loaded,
            r.error is None,
            r.theme == theme,
            r.request == 0,
    {
        Home { loaded: false, error: None, theme, request: 0 }
    }

    /// What the page shows: loading until the fetch answers, then the error
    /// if it failed, else the courses.
    pub fn phase(&self) -> (r: Phase)
        ensures
            r == (if !self.loaded {
                Phase::Loading
            } else if self.error is Some {
                Phase::Failed
            } else {
                Phase::Ready
            }),
    {
        if !self.loaded {
            Phase::Loading
        } else if self.error.is_some() {
            Phase::Failed
        } else {
            Phase::Ready
        }
    }

    /// Takes one message: updates the page's own state, and returns the
    /// actions for the shared state and the outside work to do.
    ///
    /// A grade or weight that does not read as a number changes nothing. An
    /// edit of a course that is not there changes nothing. Typed catalog
    /// grades, catalog checks and new user courses wait for the catalog
    /// fetch to have answered. An answer to a fetch other than the latest
    /// changes nothing.
    pub fn update(&mut self, state: &AppState, msg: Msg) -> (r: Update)
        ensures
            *final(self) == next_home(*old(self), msg),
            r.command == next_command(*old(self), msg),
            !(msg is AddNewCourseCard) ==> reduce_all(state@, r.actions@) == next_state(
                *old(self),
                state@,
                msg,
            ),
            msg is AddNewCourseCard ==> if old(self).loaded && room_for_user_course(state@) {
                added_blank(state@, reduce_all(state@, r.actions@))
            } else {
                reduce_all(state@, r.actions@) == state@
            },
    {
        proof {
            assert(reduce_all(state@, Seq::<AppStateAction>::empty()) == state@);
        }
        match msg {
            Msg::GetCourses => {
                self.loaded = false;
                self.request = if self.request < u64::MAX {
                    self.request + 1
                } else {
                    0
                };
                Update { actions: none(), command: Command::FetchCourses(self.request) }
            },
            Msg::GetCoursesSuccess(r, courses) => {
                if r != self.request {
                    return Update { actions: none(), command: Command::Nothing };
                }
                self.loaded = true;
                Update { actions: catalog_actions(state, courses), command: Command::Nothing }
            },
            Msg::GetCoursesError(r, e) => {
                if r == self.request {
                    self.loaded = true;
                    self.error = Some(e);
                }
                Update { actions: none(), command: Command::Nothing }
            },
            Msg::UpdateValue(i, text) => {
                let actions = match parse_grade(text.as_str()) {
                    Some(g) => if self.loaded {
                        grade_actions(state, false, i, g)
                    } else {
                        none()
                    },
                    None => none(),
                };
                Update { actions, command: Command::Nothing }
            },
            Msg::UpdateValueLetter(i, text) => Update {
                actions: letter_actions(state, false, i, text.as_str()),
                command: Command::Nothing,
            },
            Msg::ToggleCourseCheck(i) => {
                let actions = if self.loaded {
                    toggle_actions(state, false, i)
                } else {
                    none()
                };
                Update { actions, command: Command::Nothing }
            },
            Msg::AddNewCourseCard => {
                let actions = if self.loaded && state.user_courses.len() <= usize::MAX
                    - state.courses.len() {
                    add_course_actions(state)
                } else {
                    none()
                };
                Update { actions, command: Command::Nothing }
            },
            Msg::UpdateUserCourseName(i, name) => {
                let actions = if i < state.user_courses.len() {
                    let mut c = state.user_courses[i].course.clone();
                    c.name = name;
                    user_course_actions(state, i, c)
                } else {
                    none()
                };
                Update { actions, command: Command::Nothing }
            },
            Msg::UpdateUserCourseUnit(i, text) => {
                let actions = match parse_unit(text.as_str()) {
                    Some(u) => if i < state.user_courses.len() {
                        let mut c = state.user_courses[i].course.clone();
                        c.unit = u;
                        user_course_actions(state, i, c)
                    } else {
                        none()
                    },
                    None => none(),
                };
                Update { actions, command: Command::Nothing }
            },
            Msg::UpdateUserCourseGrade(i, text) => {
                let actions = match parse_grade(text.as_str()) {
                    Some(g) => grade_actions(state, true, i, g),
                    None => none(),
                };
                Update { actions, command: Command::Nothing }
            },
            Msg::UpdateUserCourseGradeLetter(i, text) => Update {
                actions: letter_actions(state, true, i, text.as_str()),
                command: Command::Nothing,
            },
            Msg::ToggleUserCourseCheck(i) => Update {
                actions: toggle_actions(state, true, i),
                command: Command::Nothing,
            },
            Msg::ToggleTheme => {
                let theme = self.theme.toggled();
                self.theme = theme;
                Update { actions: none(), command: Command::StoreTheme(theme) }
            },
        }
    }
}

/// Flipping a check twice, in either set, gives back the state it started
/// from, and so the same average.
pub proof fn lemma_toggle_twice_restores(h: Home, s: AppStateView, i: usize, user: bool)
    requires
        h.loaded,
    ensures
        ({
            let m1 = if user {
                Msg::ToggleUserCourseCheck(i)
            } else {
                Msg::ToggleCourseCheck(i)
            };
            let m2 = if user {
                Msg::ToggleUserCourseCheck(i)
            } else {
                Msg::ToggleCourseCheck(i)
            };
            let t = next_state(next_home(h, m1), next_state(h, s, m1), m2);
            &&& t == s
            &&& total_points(entry_rows(t.courses + t.user_courses)) == total_points(
                entry_rows(s.courses + s.user_courses),
            )
            &&& total_units(entry_rows(t.courses + t.user_courses)) == total_units(
                entry_rows(s.courses + s.user_courses),
            )
        }),
{
    assert(toggled(toggled(s.courses, i as int), i as int) =~= s.courses);
    assert(toggled(toggled(s.user_courses, i as int), i as int) =~= s.user_courses);
}

/// Adding a user course keeps the user's columns (courses, grades, letters,
/// checks) the same length, one more than before.
pub proof fn lemma_added_course_columns_align(s: AppStateView, t: AppStateView)
    requires
        added_blank(s, t),
    ensures
        courses_column(t.user_courses).len() == s.user_courses.len() + 1,
        grades_column(t.user_courses).len() == s.user_courses.len() + 1,
        letters_column(t.user_courses).len() == s.user_courses.len() + 1,
        checks_column(t.user_courses).len() == s.user_courses.len() + 1,
{
}

/// After a grade is typed for a course, the course holds that grade and the
/// letter of it.
pub proof fn lemma_typed_grade_sets_letter(h: Home, s: AppStateView, i: usize, text: String, user: bool)
    requires
        h.loaded,
        spec_parse_grade(text@) is Some,
        i < set_of(s, user).len(),
    ensures
        ({
            let g = spec_parse_grade(text@).unwrap();
            let m = if user {
                Msg::UpdateUserCourseGrade(i, text)
            } else {
                Msg::UpdateValue(i, text)
            };
            let e = set_of(next_state(h, s, m), user)[i as int];
            &&& e.grade == g
            &&& e.letter == spec_point_to_letter(g)
        }),
{
    lemma_parsed_grade_fits(text@);
}

/// After a letter is chosen for a course, the course holds that letter and
/// the percentage it stands for.
pub proof fn lemma_chosen_letter_sets_grade(h: Home, s: AppStateView, i: usize, text: String, user: bool)
    requires
        i < set_of(s, user).len(),
    ensures
        ({
            let m = if user {
                Msg::UpdateUserCourseGradeLetter(i, text)
            } else {
                Msg::UpdateValueLetter(i, text)
            };
            let e = set_of(next_state(h, s, m), user)[i as int];
            &&& e.letter == parse_letter(text@)
            &&& e.grade == spec_letter_to_point(text@)
        }),
{
}

} // verus!
