use vstd::prelude::*;

verus! {

/// One course, as the catalog lists it or as the user adds it.
#[derive(PartialEq, Eq, Debug)]
pub struct Course {
    pub id: usize,
    pub name: String,
    pub teacher: String,
    pub description: String,
    pub image: String,
    /// Credit weight of the course.
    pub unit: i32,
}

impl Clone for Course {
    fn clone(&self) -> (r: Self)
        ensures
            r == *self,
    {
        Course {
            id: self.id,
            name: self.name.clone(),
            teacher: self.teacher.clone(),
            description: self.description.clone(),
            image: self.image.clone(),
            unit: self.unit,
        }
    }
}

impl Course {
    /// A course with the given id, every text field empty and no credit weight.
    pub fn blank(id: usize) -> (r: Course)
        ensures
            r.id == id,
            r.unit == 0,
            r.name@.len() == 0,
            r.teacher@.len() == 0,
            r.description@.len() == 0,
            r.image@.len() == 0,
    {
        Course {
            id,
            name: String::new(),
            teacher: String::new(),
            description: String::new(),
            image: String::new(),
            unit: 0,
        }
    }
}

} // verus!
