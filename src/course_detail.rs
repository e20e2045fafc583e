//! The decisions of the course-detail page, which shows one catalog course.
use crate::home::Phase;
use crate::types::Course;
use vstd::prelude::*;

verus! {

/// What the page is opened with: the course's position in the catalog.
#[derive(Clone, Copy, PartialEq, Eq, Structural, Debug)]
pub struct Props {
    pub id: usize,
}

/// What the page is told.
pub enum Msg {
    /// Fetch the course.
    GetCourse,
    GetCourseSuccess(Course),
    /// The course could not be fetched; the message says why.
    GetCourseError(String),
    NavigateToHome,
}

/// Outside work that the page asks for.
#[derive(Clone, Copy, PartialEq, Eq, Structural, Debug)]
pub enum Command {
    Nothing,
    /// Fetch the catalog course at this position and answer with
    /// `GetCourseSuccess` or `GetCourseError`.
    FetchCourse(usize),
    /// Go back to the home page.
    NavigateHome,
}

/// The page's state.
pub struct CourseDetail {
    pub props: Props,
    pub course: Option<Course>,
    /// Why the fetch failed, if it did.
    pub error: Option<String>,
    /// Whether the fetch has answered.
    pub loaded: bool,
}

/// The page's state after message `m`.
pub open spec fn next_detail(d: CourseDetail, m: Msg) -> CourseDetail {
    match m {
        Msg::GetCourseSuccess(c) => CourseDetail { course: Some(c), loaded: true, ..d },
        Msg::GetCourseError(e) => CourseDetail { error: Some(e), loaded: true, ..d },
        _ => d,
    }
}

/// The outside work asked for after message `m`.
pub open spec fn detail_command(d: CourseDetail, m: Msg) -> Command {
    match m {
        Msg::GetCourse => Command::FetchCourse(d.props.id),
        Msg::NavigateToHome => Command::NavigateHome,
        _ => Command::Nothing,
    }
}

impl CourseDetail {
    /// A page for the course at `props.id` that has fetched nothing yet.
    pub fn create(props: Props) -> (r: CourseDetail)
        ensures
            r.props == props,
            r.course is None,
            r.error is None,
            !r.loaded,
    {
        CourseDetail { props, course: None, error: None, loaded: false }
    }

    /// Takes one message: updates the page's state, and returns whether to
    /// show the page again and the outside work to do. Leaving the page is the
    /// one message after which it is not shown again.
    pub fn update(&mut self, msg: Msg) -> (r: (bool, Command))
        ensures
            *final(self) == next_detail(*old(self), msg),
            r.1 == detail_command(*old(self), msg),
            r.0 == !(msg is NavigateToHome),
    {
        match msg {
            Msg::GetCourse => (true, Command::FetchCourse(self.props.id)),
            Msg::GetCourseSuccess(c) => {
                self.course = Some(c);
                self.loaded = true;
                (true, Command::Nothing)
            },
            Msg::GetCourseError(e) => {
                self.error = Some(e);
                self.loaded = true;
                (true, Command::Nothing)
            },
            Msg::NavigateToHome => (false, Command::NavigateHome),
        }
    }

    /// What the page shows: the course once it is there, else loading until
    /// the fetch answers, else the error.
    pub fn phase(&self) -> (r: Phase)
        ensures
            r == (if self.course is Some {
                Phase::Ready
            } else if !self.loaded {
                Phase::Loading
            } else {
                Phase::Failed
            }),
    {
        if self.course.is_some() {
            Phase::Ready
        } else if !self.loaded {
            Phase::Loading
        } else {
            Phase::Failed
        }
    }
}

/// The course at position `id` of a fetched catalog, if there is one.
pub fn pick_course(courses: &Vec<Course>, id: usize) -> (r: Option<Course>)
    ensures
        r == (if id < courses@.len() {
            Some(courses@[id as int])
        } else {
            None::<Course>
        }),
{
    if id < courses.len() {
        Some(courses[id].clone())
    } else {
        None
    }
}

} // verus!
