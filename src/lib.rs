//! A grade-point-average calculator: the grade scale, the shared application
//! state with its reducer, the weighted average over counted courses, and the
//! decisions of the home and course-detail pages.

pub mod app_state;
pub mod course_detail;
pub mod gpa;
pub mod grade_scale;
pub mod home;
pub mod parse;
pub mod types;

pub use app_state::{AppState, AppStateAction, AppStateValue, CourseEntry};
pub use gpa::{compute_gpa, Gpa};
pub use grade_scale::{letter_to_point, point_to_letter, point_to_pa, Letter};
pub use home::Home;
pub use types::Course;
