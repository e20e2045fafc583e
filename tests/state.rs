use gpa_calculator::app_state::{checks_of, courses_of, grades_of, letters_of};
use gpa_calculator::{compute_gpa, AppState, AppStateAction, AppStateValue, Course, Letter};

fn course(id: usize, unit: i32) -> Course {
    Course {
        id,
        name: format!("Course {}", id),
        teacher: format!("Teacher {}", id),
        description: String::new(),
        image: format!("/img/{}.png", id),
        unit,
    }
}

#[test]
fn gpa_of_nothing_is_zero() {
    let g = compute_gpa(&[], &[], &[]);
    assert_eq!(g.points, 0);
    assert_eq!(g.units, 0);
    assert!(g.is_empty());
}

#[test]
fn gpa_with_no_check_is_zero() {
    let courses = vec![course(0, 3), course(1, 6)];
    let g = compute_gpa(&courses, &[9600, 7200], &[false, false]);
    assert_eq!(g.points, 0);
    assert_eq!(g.units, 0);
}

#[test]
fn gpa_two_courses_weighted() {
    let courses = vec![course(0, 3), course(1, 6)];
    let g = compute_gpa(&courses, &[9600, 7200], &[true, true]);
    assert_eq!(g.points, 433 * 3 + 267 * 6);
    assert_eq!(g.points, 2901);
    assert_eq!(g.units, 9);
    let value = g.points as f64 / g.units as f64 / 100.0;
    assert!((value - 3.2233).abs() < 0.0001);
}

#[test]
fn gpa_skips_unchecked_and_short_lists() {
    let courses = vec![course(0, 3), course(1, 6), course(2, 4)];
    let g = compute_gpa(&courses, &[9600, 7200], &[false, true, true]);
    assert_eq!(g.points, 267 * 6);
    assert_eq!(g.units, 6);
}

#[test]
fn gpa_never_averages_grade_outside_scale() {
    let courses = vec![course(0, 3), course(1, 6)];
    let g = compute_gpa(&courses, &[10100, 9000], &[true, true]);
    assert_eq!(g.points, 400 * 6);
    assert_eq!(g.units, 6);
}

fn seeded() -> AppState {
    AppState::new().reduce(AppStateAction::UpdateAllNonUser {
        courses: vec![course(0, 3), course(1, 6)],
        grades: vec![9600],
        grades_letter: vec![Some(Letter::APlus)],
        checks: vec![true],
    })
}

#[test]
fn replace_catalog_seeds_blank_records() {
    let s = seeded();
    assert_eq!(s.courses.len(), 2);
    assert_eq!(grades_of(&s.courses), vec![9600, 0]);
    assert_eq!(letters_of(&s.courses), vec![Some(Letter::APlus), None]);
    assert_eq!(checks_of(&s.courses), vec![true, false]);
    assert!(s.user_courses.is_empty());
}

#[test]
fn set_grades_leaves_other_columns() {
    let s = seeded();
    let before_courses = courses_of(&s.courses);
    let before_letters = letters_of(&s.courses);
    let before_checks = checks_of(&s.courses);
    let t = s.reduce(AppStateAction::UpdateSingle { values: AppStateValue::Grades(vec![7000, 8000]) });
    assert_eq!(grades_of(&t.courses), vec![7000, 8000]);
    assert_eq!(courses_of(&t.courses), before_courses);
    assert_eq!(letters_of(&t.courses), before_letters);
    assert_eq!(checks_of(&t.courses), before_checks);
    assert!(t.user_courses.is_empty());
}

#[test]
fn short_column_reaches_only_its_length() {
    let t = seeded().reduce(AppStateAction::UpdateSingle { values: AppStateValue::Checks(vec![false]) });
    assert_eq!(checks_of(&t.courses), vec![false, false]);
    let t = t.reduce(AppStateAction::UpdateSingle {
        values: AppStateValue::Checks(vec![true, true, true]),
    });
    assert_eq!(checks_of(&t.courses), vec![true, true]);
}

#[test]
fn new_course_column_keeps_records_by_position() {
    let t = seeded().reduce(AppStateAction::UpdateSingle {
        values: AppStateValue::Courses(vec![course(5, 1), course(6, 2), course(7, 3)]),
    });
    assert_eq!(t.courses.len(), 3);
    assert_eq!(t.courses[0].course.id, 5);
    assert_eq!(grades_of(&t.courses), vec![9600, 0, 0]);
    assert_eq!(checks_of(&t.courses), vec![true, false, false]);
    let t = t.reduce(AppStateAction::UpdateSingle { values: AppStateValue::Courses(vec![course(9, 2)]) });
    assert_eq!(t.courses.len(), 1);
    assert_eq!(grades_of(&t.courses), vec![9600]);
}

#[test]
fn update_all_replaces_both_sets() {
    let t = seeded().reduce(AppStateAction::UpdateAll {
        courses: vec![],
        grades: vec![],
        grades_letter: vec![],
        checks: vec![],
        user_courses: vec![course(2, 4)],
        user_grades: vec![8100],
        user_grades_letter: vec![Some(Letter::BPlus)],
        user_checks: vec![true],
    });
    assert!(t.courses.is_empty());
    assert_eq!(t.user_courses.len(), 1);
    assert_eq!(t.user_courses[0].grade, 8100);
}

#[test]
fn user_columns_leave_catalog() {
    let s = seeded().reduce(AppStateAction::UpdateAllUser {
        user_courses: vec![course(2, 4)],
        user_grades: vec![],
        user_grades_letter: vec![],
        user_checks: vec![],
    });
    let t = s.reduce(AppStateAction::UpdateSingle { values: AppStateValue::UserGrades(vec![8800]) });
    let t = t.reduce(AppStateAction::UpdateSingle {
        values: AppStateValue::UserGradesLetter(vec![Some(Letter::AMinus)]),
    });
    let t = t.reduce(AppStateAction::UpdateSingle { values: AppStateValue::UserChecks(vec![true]) });
    assert_eq!(grades_of(&t.courses), vec![9600, 0]);
    assert_eq!(t.user_courses[0].grade, 8800);
    assert_eq!(t.user_courses[0].letter, Some(Letter::AMinus));
    assert!(t.user_courses[0].check);
}

#[test]
fn state_gpa_and_counted_courses_span_both_sets() {
    let s = seeded().reduce(AppStateAction::UpdateAllUser {
        user_courses: vec![course(2, 6), course(3, 2)],
        user_grades: vec![7200, 9900],
        user_grades_letter: vec![],
        user_checks: vec![true, false],
    });
    let g = s.calculate_gpa();
    assert_eq!(g.points, 2901);
    assert_eq!(g.units, 9);
    let counted = s.counted_courses();
    let ids: Vec<usize> = counted.iter().map(|e| e.course.id).collect();
    assert_eq!(ids, vec![0, 2]);
    assert_eq!(counted[1].grade, 7200);
}

#[test]
fn default_state_is_empty() {
    let s = AppState::default();
    assert!(s.courses.is_empty());
    assert!(s.user_courses.is_empty());
    assert!(s.calculate_gpa().is_empty());
    assert!(s.counted_courses().is_empty());
}

#[test]
fn blank_course_and_clone() {
    let c = Course::blank(4);
    assert_eq!(c.id, 4);
    assert_eq!(c.unit, 0);
    assert!(c.name.is_empty() && c.teacher.is_empty());
    let d = course(1, 3);
    let e = d.clone();
    assert_eq!(e.name, d.name);
    assert_eq!(e.image, d.image);
    assert_eq!(e.unit, 3);
}
