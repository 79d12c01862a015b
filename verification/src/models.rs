//! The four domain records: Student, Teacher, Class and Attendance.
//!
//! Identifiers are server-assigned: a record arrives from a client with
//! `id == None`, and the store fills the field in when the record is
//! persisted. Each record has a mathematical view (`StudentView` and so
//! on) that the contracts of the store speak of.

use vstd::prelude::*;

verus! {

/// A student: name, unique email, and a roll number kept as the text the
/// client supplied (validated to be a positive decimal integer).
#[derive(Debug, PartialEq, Eq)]
pub struct Student {
    /// The unique identifier, `None` until the record is persisted.
    pub id: Option<u64>,
    /// The name of the student.
    pub name: String,
    /// The email of the student, unique across students.
    pub email: String,
    /// The roll number of the student, as supplied (decimal text).
    pub roll_number: String,
}

/// A teacher: name, unique email, and an optional assigned class.
#[derive(Debug, PartialEq, Eq)]
pub struct Teacher {
    /// The unique identifier, `None` until the record is persisted.
    pub id: Option<u64>,
    /// The name of the teacher.
    pub name: String,
    /// The email of the teacher, unique across teachers.
    pub email: String,
    /// The class taken by the teacher, if one is assigned.
    pub class: Option<u64>,
}

/// A class, with a name unique across classes.
#[derive(Debug, PartialEq, Eq)]
pub struct Class {
    /// The unique identifier, `None` until the record is persisted.
    pub id: Option<u64>,
    /// The name of the class.
    pub name: String,
}

/// One attendance event: which student, optionally which class, when,
/// and the presence flag. Created only by the mark operation, which
/// assigns the identifier and the timestamp itself.
#[derive(Debug, PartialEq, Eq, Clone, Copy)]
pub struct Attendance {
    /// The unique identifier, `None` until the record is persisted.
    pub id: Option<u64>,
    /// The student the attendance is recorded for.
    pub student_id: u64,
    /// The class for which attendance is being marked, if any.
    pub class: Option<u64>,
    /// The server-assigned time the attendance was marked, in seconds
    /// since the Unix epoch.
    pub time: i64,
    /// The flag indicating attendance status (true for present).
    pub flag: bool,
}

/// The mathematical view of a [`Student`].
#[verifier::ext_equal]
pub struct StudentView {
    pub id: Option<u64>,
    pub name: Seq<char>,
    pub email: Seq<char>,
    pub roll_number: Seq<char>,
}

/// The mathematical view of a [`Teacher`].
#[verifier::ext_equal]
pub struct TeacherView {
    pub id: Option<u64>,
    pub name: Seq<char>,
    pub email: Seq<char>,
    pub class: Option<u64>,
}

/// The mathematical view of a [`Class`].
#[verifier::ext_equal]
pub struct ClassView {
    pub id: Option<u64>,
    pub name: Seq<char>,
}

/// The mathematical view of an [`Attendance`] record.
#[verifier::ext_equal]
pub struct AttendanceView {
    pub id: Option<u64>,
    pub student_id: u64,
    pub class: Option<u64>,
    pub time: i64,
    pub flag: bool,
}

impl View for Student {
    type V = StudentView;

    open spec fn view(&self) -> StudentView {
        StudentView {
            id: self.id,
            name: self.name@,
            email: self.email@,
            roll_number: self.roll_number@,
        }
    }
}

impl View for Teacher {
    type V = TeacherView;

    open spec fn view(&self) -> TeacherView {
        TeacherView { id: self.id, name: self.name@, email: self.email@, class: self.class }
    }
}

impl View for Class {
    type V = ClassView;

    open spec fn view(&self) -> ClassView {
        ClassView { id: self.id, name: self.name@ }
    }
}

impl View for Attendance {
    type V = AttendanceView;

    open spec fn view(&self) -> AttendanceView {
        AttendanceView {
            id: self.id,
            student_id: self.student_id,
            class: self.class,
            time: self.time,
            flag: self.flag,
        }
    }
}

impl Clone for Student {
    fn clone(&self) -> (r: Self)
        ensures
            r@ == self@,
    {
        Student {
            id: self.id,
            name: self.name.clone(),
            email: self.email.clone(),
            roll_number: self.roll_number.clone(),
        }
    }
}

impl Clone for Teacher {
    fn clone(&self) -> (r: Self)
        ensures
            r@ == self@,
    {
        Teacher {
            id: self.id,
            name: self.name.clone(),
            email: self.email.clone(),
            class: self.class,
        }
    }
}

impl Clone for Class {
    fn clone(&self) -> (r: Self)
        ensures
            r@ == self@,
    {
        Class { id: self.id, name: self.name.clone() }
    }
}

/// Maps a result over views: the success and error payloads are replaced
/// by their mathematical views.
pub open spec fn res_view<T: View, E: View>(r: Result<T, E>) -> Result<T::V, E::V> {
    match r {
        Ok(t) => Ok(t@),
        Err(e) => Err(e@),
    }
}

} // verus!
