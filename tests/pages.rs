use gpa_calculator::app_state::{checks_of, grades_of};
use gpa_calculator::course_detail::{self, pick_course, CourseDetail, Props};
use gpa_calculator::home::{Command, Msg, Phase, Theme, Update};
use gpa_calculator::{point_to_letter, AppState, Course, Home, Letter};

fn course(id: usize, unit: i32) -> Course {
    Course {
        id,
        name: format!("Course {}", id),
        teacher: String::from("T"),
        description: String::from("D"),
        image: String::new(),
        unit,
    }
}

fn apply(mut state: AppState, up: Update) -> AppState {
    for a in up.actions {
        state = state.reduce(a);
    }
    state
}

fn step(home: &mut Home, state: AppState, msg: Msg) -> (AppState, Command) {
    let up = home.update(&state, msg);
    let command = up.command;
    (apply(state, up), command)
}

fn loaded() -> (Home, AppState) {
    let mut home = Home::create(Theme::Light);
    let (state, command) = step(&mut home, AppState::new(), Msg::GetCourses);
    assert_eq!(command, Command::FetchCourses(1));
    assert_eq!(home.phase(), Phase::Loading);
    let (state, command) =
        step(&mut home, state, Msg::GetCoursesSuccess(1, vec![course(0, 3), course(1, 6)]));
    assert_eq!(command, Command::Nothing);
    assert_eq!(home.phase(), Phase::Ready);
    (home, state)
}

#[test]
fn fetch_answer_seeds_catalog() {
    let (_, state) = loaded();
    assert_eq!(state.courses.len(), 2);
    assert_eq!(grades_of(&state.courses), vec![0, 0]);
    assert_eq!(checks_of(&state.courses), vec![false, false]);
    assert_eq!(state.courses[0].letter, None);
}

#[test]
fn fetch_error_is_shown() {
    let mut home = Home::create(Theme::Dark);
    let (_, command) = step(&mut home, AppState::new(), Msg::GetCoursesError(0, String::from("404")));
    assert_eq!(command, Command::Nothing);
    assert!(home.loaded);
    assert_eq!(home.error.as_deref(), Some("404"));
    assert_eq!(home.phase(), Phase::Failed);
}

#[test]
fn typed_grade_sets_letter() {
    let (mut home, state) = loaded();
    let (state, _) = step(&mut home, state, Msg::UpdateValue(1, String::from("72")));
    assert_eq!(state.courses[1].grade, 7200);
    assert_eq!(state.courses[1].letter, point_to_letter(7200));
    assert_eq!(state.courses[1].letter, Some(Letter::BMinus));
    assert_eq!(state.courses[0].grade, 0);
}

#[test]
fn chosen_letter_sets_grade() {
    let (mut home, state) = loaded();
    let (state, _) = step(&mut home, state, Msg::UpdateValueLetter(0, String::from("B+")));
    assert_eq!(state.courses[0].letter, Some(Letter::BPlus));
    assert_eq!(state.courses[0].grade, 8700);
    let (state, _) = step(&mut home, state, Msg::UpdateValueLetter(0, String::from("Q")));
    assert_eq!(state.courses[0].letter, None);
    assert_eq!(state.courses[0].grade, 0);
}

#[test]
fn bad_grade_text_is_ignored() {
    let (mut home, state) = loaded();
    let (state, _) = step(&mut home, state, Msg::UpdateValue(0, String::from("96")));
    let up = home.update(&state, Msg::UpdateValue(0, String::from("ninety")));
    assert!(up.actions.is_empty());
    let state = apply(state, up);
    assert_eq!(state.courses[0].grade, 9600);
}

#[test]
fn edit_out_of_range_changes_nothing() {
    let (mut home, state) = loaded();
    let (state, _) = step(&mut home, state, Msg::UpdateValue(7, String::from("50")));
    let (state, _) = step(&mut home, state, Msg::ToggleCourseCheck(7));
    assert_eq!(state.courses.len(), 2);
    assert_eq!(grades_of(&state.courses), vec![0, 0]);
    assert_eq!(checks_of(&state.courses), vec![false, false]);
}

#[test]
fn catalog_edits_wait_for_fetch() {
    let mut home = Home::create(Theme::Light);
    let up = home.update(&AppState::new(), Msg::UpdateValue(0, String::from("80")));
    assert!(up.actions.is_empty());
    let up = home.update(&AppState::new(), Msg::AddNewCourseCard);
    assert!(up.actions.is_empty());
}

#[test]
fn toggling_twice_restores_gpa() {
    let (mut home, state) = loaded();
    let (state, _) = step(&mut home, state, Msg::UpdateValue(0, String::from("96")));
    let (state, _) = step(&mut home, state, Msg::UpdateValue(1, String::from("72")));
    let (state, _) = step(&mut home, state, Msg::ToggleCourseCheck(0));
    let before = state.calculate_gpa();
    assert_eq!((before.points, before.units), (1299, 3));
    let (state, _) = step(&mut home, state, Msg::ToggleCourseCheck(1));
    let both = state.calculate_gpa();
    assert_eq!((both.points, both.units), (2901, 9));
    let (state, _) = step(&mut home, state, Msg::ToggleCourseCheck(1));
    assert_eq!(state.calculate_gpa(), before);
}

#[test]
fn added_course_columns_stay_aligned() {
    let (mut home, state) = loaded();
    let (state, _) = step(&mut home, state, Msg::AddNewCourseCard);
    let (state, _) = step(&mut home, state, Msg::AddNewCourseCard);
    assert_eq!(state.user_courses.len(), 2);
    let e = &state.user_courses[1];
    assert_eq!(e.course.id, 3);
    assert_eq!(e.course.unit, 0);
    assert!(e.course.name.is_empty());
    assert_eq!(e.grade, 0);
    assert_eq!(e.letter, Some(Letter::APlus));
    assert!(!e.check);
    assert_eq!(state.user_courses[0].course.id, 2);
}

#[test]
fn user_course_edits() {
    let (mut home, state) = loaded();
    let (state, _) = step(&mut home, state, Msg::AddNewCourseCard);
    let (state, _) = step(&mut home, state, Msg::UpdateUserCourseName(0, String::from("CMPT 300")));
    let (state, _) = step(&mut home, state, Msg::UpdateUserCourseUnit(0, String::from("4")));
    let (state, _) = step(&mut home, state, Msg::UpdateUserCourseUnit(0, String::from("four")));
    let (state, _) = step(&mut home, state, Msg::UpdateUserCourseGrade(0, String::from("88.5")));
    let e = &state.user_courses[0];
    assert_eq!(e.course.name, "CMPT 300");
    assert_eq!(e.course.unit, 4);
    assert_eq!(e.grade, 8850);
    assert_eq!(e.letter, Some(Letter::AMinus));
    let (state, _) = step(&mut home, state, Msg::UpdateUserCourseGradeLetter(0, String::from("C")));
    assert_eq!(state.user_courses[0].grade, 7300);
    assert_eq!(state.user_courses[0].letter, Some(Letter::C));
    let (state, _) = step(&mut home, state, Msg::ToggleUserCourseCheck(0));
    assert!(state.user_courses[0].check);
    let g = state.calculate_gpa();
    assert_eq!((g.points, g.units), (267 * 4, 4));
}

#[test]
fn refetch_keeps_records() {
    let (mut home, state) = loaded();
    let (state, _) = step(&mut home, state, Msg::UpdateValue(0, String::from("91")));
    let (state, _) = step(&mut home, state, Msg::ToggleCourseCheck(0));
    let (state, command) = step(&mut home, state, Msg::GetCourses);
    assert_eq!(command, Command::FetchCourses(2));
    let (state, _) = step(
        &mut home,
        state,
        Msg::GetCoursesSuccess(2, vec![course(0, 3), course(1, 6), course(2, 1)]),
    );
    assert_eq!(grades_of(&state.courses), vec![9100, 0, 0]);
    assert_eq!(checks_of(&state.courses), vec![true, false, false]);
}

#[test]
fn stale_fetch_answer_is_ignored() {
    let mut home = Home::create(Theme::Light);
    let (state, _) = step(&mut home, AppState::new(), Msg::GetCourses);
    let (state, command) = step(&mut home, state, Msg::GetCourses);
    assert_eq!(command, Command::FetchCourses(2));
    let up = home.update(&state, Msg::GetCoursesSuccess(1, vec![course(0, 3)]));
    assert!(up.actions.is_empty());
    let (state, _) = step(&mut home, state, Msg::GetCoursesError(1, String::from("late")));
    assert_eq!(home.phase(), Phase::Loading);
    assert!(home.error.is_none());
    let (state, _) = step(&mut home, state, Msg::GetCoursesSuccess(2, vec![course(4, 2)]));
    assert_eq!(home.phase(), Phase::Ready);
    assert_eq!(state.courses.len(), 1);
    assert_eq!(state.courses[0].course.id, 4);
}

#[test]
fn theme_toggles_and_is_stored() {
    let mut home = Home::create(Theme::from_name("light"));
    let (_, command) = step(&mut home, AppState::new(), Msg::ToggleTheme);
    assert_eq!(command, Command::StoreTheme(Theme::Dark));
    assert_eq!(home.theme.name(), "dark");
    let (_, command) = step(&mut home, AppState::new(), Msg::ToggleTheme);
    assert_eq!(command, Command::StoreTheme(Theme::Light));
    assert_eq!(Theme::from_name("dark"), Theme::Dark);
    assert_eq!(Theme::from_name("blue"), Theme::Light);
    assert_eq!(Theme::Dark.toggled(), Theme::Light);
}

#[test]
fn detail_page_lifecycle() {
    let mut page = CourseDetail::create(Props { id: 1 });
    assert_eq!(page.phase(), Phase::Loading);
    let (render, command) = page.update(course_detail::Msg::GetCourse);
    assert!(render);
    assert_eq!(command, course_detail::Command::FetchCourse(1));
    let (render, _) = page.update(course_detail::Msg::GetCourseSuccess(course(1, 6)));
    assert!(render);
    assert_eq!(page.phase(), Phase::Ready);
    assert_eq!(page.course.as_ref().map(|c| c.id), Some(1));
    let (render, command) = page.update(course_detail::Msg::NavigateToHome);
    assert!(!render);
    assert_eq!(command, course_detail::Command::NavigateHome);
}

#[test]
fn detail_page_error() {
    let mut page = CourseDetail::create(Props { id: 9 });
    page.update(course_detail::Msg::GetCourseError(String::from("gone")));
    assert_eq!(page.phase(), Phase::Failed);
    assert_eq!(page.error.as_deref(), Some("gone"));
}

#[test]
fn pick_course_by_position() {
    let courses = vec![course(0, 3), course(1, 6)];
    assert_eq!(pick_course(&courses, 1).map(|c| c.unit), Some(6));
    assert!(pick_course(&courses, 2).is_none());
}
